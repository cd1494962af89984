use codex_pal::cli::{
    ConfigureOutcome, LaunchOptions, ProfileAction, ProfileConfigArgs, ProfileLaunchOptions, codex_launch,
    configure_profile, handle_profile, initial_model, launch_options_from_profile,
    launch_relay_request, load_or_create_profile, remote_relay_url, needs_model_prompt, new_builtin_profile, normalize_launch_options, normalized_sandbox,
    profile_listing, profile_port, profile_setup_message, prompt_answer, provider_listing,
    relay_notice, required_profile, reset_profile, setup_message_quoted, shell_join,
};
use codex_pal::codex::{ApprovalPolicy, SandboxMode};
use codex_pal::config::{ConfigFile, ProfileConfig};
use codex_pal::error::PalError;
use codex_pal::provider::ProviderProfile;
use codex_pal::relay::RelayState;

fn strings(items: &[&str]) -> Vec<String> {
    items.iter().map(|s| s.to_string()).collect()
}

fn no_config_args() -> ProfileConfigArgs {
    ProfileConfigArgs {
        provider: None,
        model: None,
        upstream: None,
        api_key_env: None,
        port: None,
        relay_url: None,
        codex_bin: None,
        relay_bin: None,
        approval: None,
        sandbox: None,
        context_window: None,
        reset: false,
        show: false,
    }
}

fn launch_options() -> LaunchOptions {
    LaunchOptions {
        model: Some("m".to_string()),
        codex_bin: "codex".to_string(),
        relay_bin: "codex-relay".to_string(),
        port: 4444,
        relay_url: None,
        approval: ApprovalPolicy::Untrusted,
        sandbox: SandboxMode::ReadOnly,
        ask: false,
        no_sandbox: false,
        no_start_relay: false,
        print_codex_command: false,
        context_window: 128_000,
        codex_args: Vec::new(),
    }
}

fn provider(name: &str) -> ProviderProfile {
    ProviderProfile {
        name: name.to_string(),
        upstream: "https://u/v1".to_string(),
        api_key_env: "K".to_string(),
        api_key: None,
    }
}

#[test]
fn custom_profile_missing_upstream_gets_setup_message() {
    let profile = ProfileConfig {
        provider: "custom".to_string(),
        model: Some("vendor/model".to_string()),
        api_key_env: Some("EXAMPLE_API_KEY".to_string()),
        ..ProfileConfig::default()
    };
    let message = profile_setup_message("work-llm", &profile).unwrap();
    assert!(message.contains("missing an upstream URL"));
    assert!(message.contains("codex-pal work-llm config"));
}

#[test]
fn builtin_profile_without_model_uses_provider_default() {
    let profile = ProfileConfig {
        provider: "deepseek".to_string(),
        ..ProfileConfig::default()
    };
    let launch_options =
        launch_options_from_profile(&profile, &ProfileLaunchOptions::default()).unwrap();
    assert_eq!(launch_options.model.as_deref(), Some("deepseek-v4-pro"));
}

#[test]
fn no_args_with_incomplete_default_profile_prints_profile_setup_guide() {
    let mut config = ConfigFile::new(Some("work-llm".to_string()));
    config.set_profile(
        "work-llm".to_string(),
        ProfileConfig {
            provider: "custom".to_string(),
            model: Some("vendor/model".to_string()),
            api_key_env: Some("EXAMPLE_API_KEY".to_string()),
            ..ProfileConfig::default()
        },
    );
    let name = config.default_profile().clone().unwrap();
    let profile = config.get(&name).unwrap();
    let stdout = profile_setup_message(&name, profile).unwrap();
    assert!(stdout.contains("custom profile \"work-llm\" is missing an upstream URL"));
    assert!(stdout.contains("codex-pal work-llm config"));
}

#[test]
fn setup_messages_cover_each_missing_setting() {
    let missing_provider = ProfileConfig::default();
    assert_eq!(
        profile_setup_message("p", &missing_provider).unwrap(),
        "profile \"p\" is missing a provider.\nConfigure it with:\n  codex-pal p config --provider deepseek --model deepseek-v4-pro\n\nRun `codex-pal --help` for more examples."
    );
    let missing_model = ProfileConfig {
        provider: "custom".to_string(),
        ..ProfileConfig::default()
    };
    assert!(profile_setup_message("p", &missing_model)
        .unwrap()
        .starts_with("profile \"p\" is missing a model."));
    let missing_key = ProfileConfig {
        provider: "custom".to_string(),
        model: Some("m".to_string()),
        upstream: Some("https://u/v1".to_string()),
        ..ProfileConfig::default()
    };
    assert!(profile_setup_message("p", &missing_key)
        .unwrap()
        .starts_with("custom profile \"p\" is missing an API key environment variable."));
    let complete = ProfileConfig {
        provider: "deepseek".to_string(),
        ..ProfileConfig::default()
    };
    assert!(profile_setup_message("p", &complete).is_none());
}

#[test]
fn profile_tokens_select_the_command() {
    assert!(matches!(handle_profile(&Vec::new()), Err(PalError::MissingProfileName)));
    let err = handle_profile(&strings(&["help"])).unwrap_err();
    assert_eq!(err.message(), "use `codex-pal --help` for help");
    match handle_profile(&strings(&["deepseek", "config", "--model", "x"])).unwrap() {
        ProfileAction::Configure { name, args } => {
            assert_eq!(name, "deepseek");
            assert_eq!(args, vec!["--model", "x"]);
        }
        other => panic!("unexpected {other:?}"),
    }
    assert!(matches!(
        handle_profile(&strings(&["deepseek", "show"])).unwrap(),
        ProfileAction::Show { .. }
    ));
    assert!(matches!(
        handle_profile(&strings(&["deepseek", "status"])).unwrap(),
        ProfileAction::Status { .. }
    ));
    assert!(matches!(
        handle_profile(&strings(&["deepseek", "stop"])).unwrap(),
        ProfileAction::Stop { .. }
    ));
    match handle_profile(&strings(&["deepseek", "restart", "--oss"])).unwrap() {
        ProfileAction::Restart { args, .. } => assert_eq!(args, vec!["--oss"]),
        other => panic!("unexpected {other:?}"),
    }
    match handle_profile(&strings(&["deepseek", "--model", "m"])).unwrap() {
        ProfileAction::Run { name, args } => {
            assert_eq!(name, "deepseek");
            assert_eq!(args, vec!["--model", "m"]);
        }
        other => panic!("unexpected {other:?}"),
    }
}

#[test]
fn run_arguments_take_precedence_over_the_profile() {
    let profile = ProfileConfig {
        provider: "deepseek".to_string(),
        model: Some("saved".to_string()),
        port: Some(5000),
        approval: Some("untrusted".to_string()),
        sandbox: Some("bogus".to_string()),
        context_window: Some(1000),
        codex_args: strings(&["--saved"]),
        ..ProfileConfig::default()
    };
    let saved = launch_options_from_profile(&profile, &ProfileLaunchOptions::default()).unwrap();
    assert_eq!(saved.model.as_deref(), Some("saved"));
    assert_eq!(saved.port, 5000);
    assert_eq!(saved.approval, ApprovalPolicy::Untrusted);
    assert_eq!(saved.sandbox, SandboxMode::WorkspaceWrite);
    assert_eq!(saved.context_window, 1000);
    assert_eq!(saved.codex_args, vec!["--saved"]);
    assert_eq!(saved.codex_bin, "codex");
    assert_eq!(saved.relay_bin, "codex-relay");
    let run = ProfileLaunchOptions {
        model: Some("given".to_string()),
        port: Some(6000),
        approval: Some(ApprovalPolicy::OnFailure),
        sandbox: Some(SandboxMode::ReadOnly),
        context_window: Some(2000),
        codex_args: strings(&["exec"]),
        ..ProfileLaunchOptions::default()
    };
    let given = launch_options_from_profile(&profile, &run).unwrap();
    assert_eq!(given.model.as_deref(), Some("given"));
    assert_eq!(given.port, 6000);
    assert_eq!(given.approval, ApprovalPolicy::OnFailure);
    assert_eq!(given.sandbox, SandboxMode::ReadOnly);
    assert_eq!(given.context_window, 2000);
    assert_eq!(given.codex_args, vec!["exec"]);
}

#[test]
fn first_run_profile_records_launch_settings() {
    let run = ProfileLaunchOptions {
        no_sandbox: true,
        port: Some(4555),
        ..ProfileLaunchOptions::default()
    };
    let model = initial_model("kimi", &run);
    assert_eq!(model.as_deref(), Some("kimi-k3"));
    let profile = new_builtin_profile("kimi", &run, model);
    assert_eq!(profile.provider, "kimi");
    assert_eq!(profile.port, Some(4555));
    assert_eq!(profile.approval.as_deref(), Some("never"));
    assert_eq!(profile.sandbox.as_deref(), Some("danger-full-access"));
    assert_eq!(profile.context_window, Some(128_000));
    assert_eq!(normalized_sandbox(&ProfileLaunchOptions::default()), SandboxMode::WorkspaceWrite);
    assert_eq!(profile_port(&ProfileConfig::default()), 4444);
}

#[test]
fn configure_creates_updates_and_resets_profiles() {
    let mut config = ConfigFile::new(None);
    let outcome = configure_profile(&mut config, "deepseek", no_config_args());
    assert_eq!(outcome, ConfigureOutcome::Saved);
    let saved = required_profile(&config, "deepseek").unwrap();
    assert_eq!(saved.provider, "deepseek");
    assert_eq!(saved.model.as_deref(), Some("deepseek-v4-pro"));
    assert_eq!(config.default_profile().as_deref(), Some("deepseek"));

    let args = ProfileConfigArgs {
        port: Some(4555),
        approval: Some(ApprovalPolicy::OnRequest),
        ..no_config_args()
    };
    configure_profile(&mut config, "work-llm", args);
    let work = required_profile(&config, "work-llm").unwrap();
    assert_eq!(work.provider, "custom");
    assert_eq!(work.model, None);
    assert_eq!(work.port, Some(4555));
    assert_eq!(work.approval.as_deref(), Some("on-request"));
    assert_eq!(config.default_profile().as_deref(), Some("deepseek"));

    let show = ProfileConfigArgs { show: true, reset: true, ..no_config_args() };
    assert_eq!(configure_profile(&mut config, "deepseek", show), ConfigureOutcome::Show);
    assert!(config.get("deepseek").is_some());

    let reset = ProfileConfigArgs { reset: true, ..no_config_args() };
    assert_eq!(configure_profile(&mut config, "deepseek", reset), ConfigureOutcome::Removed);
    assert!(config.get("deepseek").is_none());
    assert_eq!(config.default_profile(), &None);
    let err = required_profile(&config, "deepseek").unwrap_err();
    assert_eq!(err.message(), "profile \"deepseek\" not found");
    assert!(config.get("work-llm").is_some());
}

#[test]
fn profile_list_marks_the_default() {
    let mut config = ConfigFile::new(Some("b".to_string()));
    config.set_profile(
        "a".to_string(),
        ProfileConfig {
            provider: "deepseek".to_string(),
            model: Some("deepseek-v4-pro".to_string()),
            ..ProfileConfig::default()
        },
    );
    config.set_profile(
        "b".to_string(),
        ProfileConfig {
            provider: "custom".to_string(),
            ..ProfileConfig::default()
        },
    );
    assert_eq!(
        profile_listing(&config),
        vec![
            "  a\tprovider=deepseek\tmodel=deepseek-v4-pro",
            "* b\tprovider=custom\tmodel=(unset)",
        ]
    );
}

#[test]
fn providers_lists_current_default_models() {
    let stdout = provider_listing().join("\n");
    assert!(stdout.contains("deepseek\tdefault_model=deepseek-v4-pro"));
    assert!(stdout.contains("z\tdefault_model=glm-5.2"));
    assert!(stdout.contains("zai\tdefault_model=glm-5.2"));
    assert!(stdout.contains("kimi\tdefault_model=kimi-k3"));
    assert!(stdout.contains("openrouter\tdefault_model=openrouter/auto"));
    assert!(stdout.contains("custom\tconfigure with --upstream and --api-key-env"));
}

#[test]
fn no_sandbox_overrides_ask_and_sandbox() {
    let mut options = LaunchOptions { no_sandbox: true, ask: true, ..launch_options() };
    assert!(normalize_launch_options(&mut options));
    assert_eq!(options.sandbox, SandboxMode::DangerFullAccess);
    assert_eq!(options.approval, ApprovalPolicy::Never);
    assert!(normalize_launch_options(&mut options));
    assert_eq!(options.sandbox, SandboxMode::DangerFullAccess);

    let mut asking = LaunchOptions { ask: true, ..launch_options() };
    assert!(!normalize_launch_options(&mut asking));
    assert_eq!(asking.approval, ApprovalPolicy::OnRequest);
    assert_eq!(asking.sandbox, SandboxMode::ReadOnly);
}

#[test]
fn relay_is_requested_only_when_needed() {
    let options = launch_options();
    let request = launch_relay_request(&provider("deepseek"), &options).unwrap();
    assert_eq!(request.port, 4444);
    assert_eq!(request.relay_bin, "codex-relay");
    assert!(launch_relay_request(&provider("openai"), &options).is_none());
    let no_start = LaunchOptions { no_start_relay: true, ..launch_options() };
    assert!(launch_relay_request(&provider("deepseek"), &no_start).is_none());
    assert_eq!(
        relay_notice(&Some(RelayState::Started { pid: 3, port: 4444 }), true, 4444, &None),
        "relay     started (pid=3, port=4444)"
    );
    assert_eq!(
        relay_notice(&None, true, 4444, &None),
        "relay     not started (--no-start-relay); expecting port 4444"
    );
    assert_eq!(
        relay_notice(&None, false, 4444, &None),
        "relay     not needed for provider=openai"
    );
}

#[test]
fn catalog_is_only_attached_for_relay_providers() {
    let options = launch_options();
    let launch = codex_launch(provider("openai"), &options, Some("/c.json".to_string()), None);
    assert_eq!(launch.model_catalog_json, None);
    let launch = codex_launch(provider("groq"), &options, Some("/c.json".to_string()), None);
    assert_eq!(launch.model_catalog_json.as_deref(), Some("/c.json"));
    assert_eq!(launch.model.as_deref(), Some("m"));
}

#[test]
fn shell_join_quotes_only_when_needed() {
    assert_eq!(
        shell_join(&strings(&["codex", "-c", "model_provider=\"codex-pal\"", "it's", ""])),
        "codex -c 'model_provider=\"codex-pal\"' 'it'\\''s' "
    );
    assert_eq!(shell_join(&Vec::new()), "");
    assert_eq!(shell_join(&strings(&["a/b:c=d+e_f.g-h"])), "a/b:c=d+e_f.g-h");
}

#[test]
fn prompt_answers_are_trimmed() {
    assert_eq!(prompt_answer("  vendor/model \n").as_deref(), Some("vendor/model"));
    assert_eq!(prompt_answer(" \t\n"), None);
}

#[test]
fn first_launch_of_a_builtin_provider_creates_the_default_profile() {
    let mut config = ConfigFile::new(None);
    let run = ProfileLaunchOptions::default();
    assert!(!needs_model_prompt(&config, "deepseek", &run));
    let (profile, created) =
        load_or_create_profile(&mut config, "deepseek", &run, None, true).unwrap();
    assert!(created);
    assert_eq!(profile.model.as_deref(), Some("deepseek-v4-pro"));
    assert_eq!(config.default_profile().as_deref(), Some("deepseek"));
    let (again, created) =
        load_or_create_profile(&mut config, "deepseek", &run, None, true).unwrap();
    assert!(!created);
    assert_eq!(again.port, Some(4444));
}

#[test]
fn first_launch_needs_a_known_provider_and_a_model() {
    let mut config = ConfigFile::new(None);
    let run = ProfileLaunchOptions::default();
    let err = load_or_create_profile(&mut config, "work-llm", &run, None, true).unwrap_err();
    assert_eq!(
        err.message(),
        "profile \"work-llm\" not found; configure it with `codex-pal work-llm config ...`"
    );
    assert!(needs_model_prompt(&config, "custom", &run));
    let err = load_or_create_profile(&mut config, "custom", &run, None, true).unwrap_err();
    assert_eq!(err.message(), "model is required for first-time profile setup");
    assert!(config.get("custom").is_none());
    let (profile, created) =
        load_or_create_profile(&mut config, "custom", &run, Some("vendor/m".to_string()), true)
            .unwrap();
    assert!(created);
    assert_eq!(profile.model.as_deref(), Some("vendor/m"));
    let (_, created) = load_or_create_profile(&mut config, "openai", &run, None, false).unwrap();
    assert!(created);
    assert_eq!(config.default_profile().as_deref(), Some("custom"));
}

#[test]
fn setup_message_uses_the_given_quoted_name() {
    let profile = ProfileConfig {
        provider: "custom".to_string(),
        model: Some("m".to_string()),
        upstream: Some("https://u/v1".to_string()),
        ..ProfileConfig::default()
    };
    assert_eq!(
        setup_message_quoted("p", "<p>", &profile).unwrap(),
        "custom profile <p> is missing an API key environment variable.\nConfigure it with:\n  codex-pal p config --api-key-env EXAMPLE_API_KEY --model vendor/model\n\nRun `codex-pal --help` for more examples."
    );
}

#[test]
fn reset_clears_only_a_matching_default() {
    let mut config = ConfigFile::new(Some("a".to_string()));
    config.set_profile("a".to_string(), ProfileConfig::default());
    config.set_profile("b".to_string(), ProfileConfig::default());
    reset_profile(&mut config, "b");
    assert_eq!(config.default_profile().as_deref(), Some("a"));
    assert!(config.get("b").is_none());
    assert!(config.get("a").is_some());
}

#[test]
fn profile_list_is_sorted_by_name() {
    let mut config = ConfigFile::new(None);
    for name in ["work", "deepseek", "b", "a-b", "a"] {
        config.set_profile(name.to_string(), ProfileConfig::default());
    }
    config.set_profile("b".to_string(), ProfileConfig { provider: "kimi".to_string(), ..ProfileConfig::default() });
    let names: Vec<&str> = config.profiles().iter().map(|(n, _)| n.as_str()).collect();
    assert_eq!(names, vec!["a", "a-b", "b", "deepseek", "work"]);
    assert_eq!(profile_listing(&config)[2], "  b\tprovider=kimi\tmodel=(unset)");
}

fn split_like_a_shell(line: &str) -> Vec<String> {
    let mut words = Vec::new();
    let mut cur = String::new();
    let mut started = false;
    let mut chars = line.chars();
    let mut single = false;
    while let Some(c) = chars.next() {
        if single {
            if c == '\'' {
                single = false;
            } else {
                cur.push(c);
            }
        } else if c == ' ' {
            if started {
                words.push(std::mem::take(&mut cur));
                started = false;
            }
        } else if c == '\'' {
            single = true;
            started = true;
        } else if c == '\\' {
            if let Some(n) = chars.next() {
                cur.push(n);
            }
            started = true;
        } else {
            cur.push(c);
            started = true;
        }
    }
    if started {
        words.push(cur);
    }
    words
}

#[test]
fn shell_join_reads_back_as_the_arguments() {
    let argv = strings(&["codex", "it's", "two words", "'", "a\\b", "--x=y", "$HOME"]);
    let line = shell_join(&argv);
    assert_eq!(line, "codex 'it'\\''s' 'two words' ''\\''' 'a\\b' --x=y '$HOME'");
    assert_eq!(split_like_a_shell(&line), argv);
}

#[test]
fn remote_relay_replaces_the_local_one() {
    let remote = LaunchOptions {
        relay_url: Some(" https://relay.example.com/ ".to_string()),
        ..launch_options()
    };
    assert!(launch_relay_request(&provider("deepseek"), &remote).is_none());
    let url = remote_relay_url(&remote).unwrap();
    assert_eq!(url.as_deref(), Some("https://relay.example.com/v1"));
    assert_eq!(remote_relay_url(&launch_options()).unwrap(), None);
    let bad = LaunchOptions { relay_url: Some("relay.example.com".to_string()), ..launch_options() };
    assert!(matches!(remote_relay_url(&bad), Err(PalError::RelayUrlScheme)));
    let empty = LaunchOptions { relay_url: Some(" / ".to_string()), ..launch_options() };
    assert!(matches!(remote_relay_url(&empty), Err(PalError::EmptyRelayUrl)));
    assert_eq!(
        relay_notice(&None, true, 4444, &url),
        "relay     remote https://relay.example.com/v1"
    );
    assert_eq!(
        relay_notice(&None, false, 4444, &url),
        "relay     not needed for provider=openai"
    );
    let launch = codex_launch(provider("deepseek"), &remote, None, url.clone());
    assert_eq!(launch.relay_url.as_deref(), Some("https://relay.example.com/v1"));
    let launch = codex_launch(provider("openai"), &remote, None, url);
    assert_eq!(launch.relay_url, None);
}

#[test]
fn relay_url_comes_from_the_run_then_the_profile() {
    let mut config = ConfigFile::new(None);
    let args = ProfileConfigArgs {
        relay_url: Some("https://relay.example.com".to_string()),
        ..no_config_args()
    };
    configure_profile(&mut config, "deepseek", args);
    let profile = required_profile(&config, "deepseek").unwrap();
    assert_eq!(profile.relay_url.as_deref(), Some("https://relay.example.com"));
    let saved = launch_options_from_profile(&profile, &ProfileLaunchOptions::default()).unwrap();
    assert_eq!(saved.relay_url.as_deref(), Some("https://relay.example.com"));
    let run = ProfileLaunchOptions {
        relay_url: Some("http://10.0.0.2:9000/v1".to_string()),
        ..ProfileLaunchOptions::default()
    };
    let given = launch_options_from_profile(&profile, &run).unwrap();
    assert_eq!(given.relay_url.as_deref(), Some("http://10.0.0.2:9000/v1"));
    let first = new_builtin_profile("kimi", &run, None);
    assert_eq!(first.relay_url.as_deref(), Some("http://10.0.0.2:9000/v1"));
}
