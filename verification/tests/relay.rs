use std::path::Path;

use codex_pal::error::PalError;
use codex_pal::provider::ProviderProfile;
use codex_pal::relay::{
    RelayMetadata, RelayRequest, RelayStartup, RelayState, StopAction, executable_name,
    log_file, metadata_file, normalize_relay_base_url, pid_contents, pid_file, read_pid,
    relay_spawn_command, relay_startup, relay_status, stop_action, stop_report,
};

/// The executable suffix of the platform the tests run on.
const EXE_SUFFIX: &str = "";

fn request(name: &str, upstream: &str, key_env: &str, port: u16) -> RelayRequest {
    RelayRequest {
        relay_bin: "codex-relay".to_string(),
        provider: ProviderProfile {
            name: name.to_string(),
            upstream: upstream.to_string(),
            api_key_env: key_env.to_string(),
            api_key: None,
        },
        port,
    }
}

#[test]
fn normalizes_remote_relay_url_to_v1() {
    assert_eq!(
        normalize_relay_base_url("https://relay.example.com").unwrap(),
        "https://relay.example.com/v1"
    );
    assert_eq!(
        normalize_relay_base_url("https://relay.example.com/v1/").unwrap(),
        "https://relay.example.com/v1"
    );
    assert_eq!(
        normalize_relay_base_url("http://127.0.0.1:4444/base").unwrap(),
        "http://127.0.0.1:4444/base/v1"
    );
}

#[test]
fn rejects_invalid_remote_relay_url() {
    assert!(normalize_relay_base_url("").is_err());
    assert!(normalize_relay_base_url("relay.example.com").is_err());
}

#[test]
fn relay_url_errors_name_the_problem() {
    assert!(matches!(
        normalize_relay_base_url("  ///  "),
        Err(PalError::EmptyRelayUrl)
    ));
    assert!(matches!(
        normalize_relay_base_url("ftp://relay.example.com"),
        Err(PalError::RelayUrlScheme)
    ));
}

#[test]
fn normalizing_a_relay_url_twice_changes_nothing() {
    for raw in ["  https://relay.example.com// ", "http://r/v1", "https://r/base"] {
        let once = normalize_relay_base_url(raw).unwrap();
        let twice = normalize_relay_base_url(&once).unwrap();
        assert_eq!(once, twice);
    }
}

#[test]
fn locates_dependency_binary_beside_pal_executable() {
    let current = Path::new("env")
        .join("bin")
        .join(format!("codex-pal{}", EXE_SUFFIX));
    let name = executable_name("codex-relay", EXE_SUFFIX);
    assert_eq!(
        Some(current.parent().unwrap().join(name)),
        Some(
            Path::new("env")
                .join("bin")
                .join(format!("codex-relay{}", EXE_SUFFIX))
        )
    );
}

#[test]
fn executable_name_adds_the_suffix_once() {
    assert_eq!(executable_name("codex-relay", ".exe"), "codex-relay.exe");
    assert_eq!(executable_name("codex-relay.exe", ".exe"), "codex-relay.exe");
    assert_eq!(executable_name("codex-relay", ""), "codex-relay");
}

#[test]
fn relay_metadata_matches_relay_configuration_not_profile_alias() {
    let request = request("z", "https://api.z.ai/api/paas/v4", "ZAI_API_KEY", 4444);
    let metadata = RelayMetadata::new(Some(42), &request);
    let alias_request = RelayRequest {
        provider: ProviderProfile {
            name: "zai".to_string(),
            ..request.provider.clone()
        },
        ..request.clone()
    };

    assert!(metadata.matches(&alias_request));
}

#[test]
fn relay_metadata_rejects_a_different_upstream_or_key_environment() {
    let request = request("deepseek", "https://api.deepseek.com/v1", "DEEPSEEK_API_KEY", 4444);
    let metadata = RelayMetadata::new(Some(42), &request);
    let different_upstream = RelayRequest {
        provider: ProviderProfile {
            upstream: "https://llm.example.com/v1".to_string(),
            ..request.provider.clone()
        },
        ..request.clone()
    };
    let different_key_env = RelayRequest {
        provider: ProviderProfile {
            api_key_env: "OTHER_API_KEY".to_string(),
            ..request.provider.clone()
        },
        ..request.clone()
    };

    assert!(!metadata.matches(&different_upstream));
    assert!(!metadata.matches(&different_key_env));
}

#[test]
fn metadata_of_another_port_does_not_match() {
    let request_a = request("deepseek", "https://api.deepseek.com/v1", "DEEPSEEK_API_KEY", 4444);
    let metadata = RelayMetadata::new(None, &request_a);
    let request_b = request("deepseek", "https://api.deepseek.com/v1", "DEEPSEEK_API_KEY", 4445);
    assert!(metadata.matches(&request_a));
    assert!(!metadata.matches(&request_b));
}

#[test]
fn startup_reuses_a_running_relay_of_the_same_configuration() {
    let req = request("deepseek", "https://api.deepseek.com/v1", "DEEPSEEK_API_KEY", 4444);
    let metadata = Some(RelayMetadata::new(Some(42), &req));
    assert_eq!(
        relay_startup(&req, Some(42), &metadata, true).unwrap(),
        RelayStartup::Reuse(RelayState::AlreadyRunning { pid: Some(42), port: 4444 })
    );
    assert_eq!(
        relay_startup(&req, None, &None, true).unwrap(),
        RelayStartup::Reuse(RelayState::AlreadyRunning { pid: None, port: 4444 })
    );
    assert_eq!(
        relay_startup(&req, Some(7), &None, true).unwrap(),
        RelayStartup::Reuse(RelayState::AlreadyRunning { pid: Some(7), port: 4444 })
    );
}

#[test]
fn startup_starts_a_relay_on_a_free_port() {
    let req = request("deepseek", "https://api.deepseek.com/v1", "DEEPSEEK_API_KEY", 4444);
    assert_eq!(
        relay_startup(&req, None, &None, false).unwrap(),
        RelayStartup::Start { remove_stale_pid_file: false }
    );
    assert_eq!(
        relay_startup(&req, Some(9), &None, false).unwrap(),
        RelayStartup::Start { remove_stale_pid_file: true }
    );
}

#[test]
fn startup_refuses_inconsistent_foreign_or_stale_state() {
    let req = request("deepseek", "https://api.deepseek.com/v1", "DEEPSEEK_API_KEY", 4444);
    let own = Some(RelayMetadata::new(Some(42), &req));
    assert!(matches!(
        relay_startup(&req, Some(43), &own, true),
        Err(PalError::RelayStateInconsistent { port: 4444 })
    ));
    let other = request("groq", "https://api.groq.com/openai/v1", "GROQ_API_KEY", 4444);
    let foreign = Some(RelayMetadata::new(Some(42), &other));
    let err = relay_startup(&req, Some(42), &foreign, true).unwrap_err();
    assert_eq!(
        err.message(),
        "relay on port 4444 is configured for upstream \"https://api.groq.com/openai/v1\" with API key environment variable \"GROQ_API_KEY\", not upstream \"https://api.deepseek.com/v1\" with \"DEEPSEEK_API_KEY\"; use a different --port or stop the existing relay"
    );
    let reserved = Some(RelayMetadata::new(None, &req));
    let err = relay_startup(&req, None, &reserved, false).unwrap_err();
    assert_eq!(
        err.message(),
        "relay on port 4444 has an incomplete or stale startup reservation; run `codex-pal relay stop --port 4444` and retry"
    );
}

#[test]
fn spawn_command_passes_port_upstream_and_key() {
    let mut req = request("deepseek", "https://api.deepseek.com/v1", "DEEPSEEK_API_KEY", 4567);
    req.provider.api_key = None;
    let command = relay_spawn_command(&req, Some("k".to_string()));
    assert_eq!(
        command.args,
        vec!["--port", "4567", "--upstream", "https://api.deepseek.com/v1"]
    );
    assert_eq!(
        command.env,
        vec![
            ("CODEX_RELAY_PORT".to_string(), "4567".to_string()),
            (
                "CODEX_RELAY_UPSTREAM".to_string(),
                "https://api.deepseek.com/v1".to_string()
            ),
            ("DEEPSEEK_API_KEY".to_string(), "k".to_string()),
            ("OPENAI_API_KEY".to_string(), "k".to_string()),
            ("CODEX_RELAY_API_KEY".to_string(), "k".to_string()),
        ]
    );
    assert_eq!(relay_spawn_command(&req, None).env.len(), 2);
}

#[test]
fn status_lines_cover_each_case() {
    assert_eq!(relay_status(4444, true, Some(12)), "running managed pid=12 port=4444");
    assert_eq!(relay_status(4444, true, None), "running external port=4444");
    assert_eq!(relay_status(80, false, Some(3)), "stale pid=3 port=80");
    assert_eq!(relay_status(0, false, None), "not running port=0");
}

#[test]
fn relay_state_descriptions() {
    assert_eq!(
        RelayState::Started { pid: 5, port: 4444 }.describe(),
        "started (pid=5, port=4444)"
    );
    assert_eq!(
        RelayState::AlreadyRunning { pid: Some(5), port: 4444 }.describe(),
        "already running (pid=5, port=4444)"
    );
    assert_eq!(
        RelayState::AlreadyRunning { pid: None, port: 65535 }.describe(),
        "already running (external, port=65535)"
    );
}

#[test]
fn stopping_follows_the_recorded_pid() {
    assert_eq!(stop_action(4444, Some(8), true, true).unwrap(), StopAction::Terminate { pid: 8 });
    assert_eq!(stop_action(4444, None, false, true).unwrap(), StopAction::ClearState);
    assert_eq!(stop_action(4444, None, true, false).unwrap(), StopAction::ClearState);
    let err = stop_action(4444, None, true, true).unwrap_err();
    assert_eq!(
        err.message(),
        "relay on port 4444 has managed configuration state but no PID; refusing to clear it while the port is active"
    );
    assert_eq!(stop_report(4444, StopAction::ClearState, true).unwrap(), "not running port=4444");
    assert_eq!(
        stop_report(4444, StopAction::Terminate { pid: 8 }, true).unwrap(),
        "stopped pid=8 port=4444"
    );
    assert_eq!(
        stop_report(4444, StopAction::Terminate { pid: 8 }, false)
            .unwrap_err()
            .message(),
        "relay pid=8 did not release port 4444 within 10s; preserving relay state"
    );
}

#[test]
fn state_file_names_carry_the_port() {
    assert_eq!(pid_file(4444), "codex-relay-4444.pid");
    assert_eq!(log_file(4444), "codex-relay-4444.log");
    assert_eq!(metadata_file(1), "codex-relay-1.json");
}

#[test]
fn pid_files_read_back_what_was_written() {
    for pid in [0u32, 7, 42, 65536, u32::MAX] {
        assert_eq!(read_pid(&pid_contents(pid)), Some(pid));
    }
    assert_eq!(read_pid(" 123\n"), Some(123));
    assert_eq!(read_pid("+5"), Some(5));
    assert_eq!(read_pid("4294967296"), None);
    assert_eq!(read_pid("-1"), None);
    assert_eq!(read_pid("12a"), None);
    assert_eq!(read_pid(""), None);
    assert_eq!(read_pid("+"), None);
}
