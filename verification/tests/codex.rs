use codex_pal::codex::{
    ApprovalPolicy, CatalogModel, CatalogValue, CodexLaunch, SandboxMode, build_codex_command,
    bundled_model_template, catalog_entries, catalog_entry_fields, catalog_entry_from_template,
    catalog_models, model_catalog_file,
};
use codex_pal::error::PalError;
use codex_pal::provider::ProviderProfile;
use codex_pal::toml_value;

fn deepseek_launch() -> CodexLaunch {
    CodexLaunch {
        codex_bin: "true".to_string(),
        provider: ProviderProfile {
            name: "deepseek".to_string(),
            upstream: "https://api.deepseek.com/v1".to_string(),
            api_key_env: "DEEPSEEK_API_KEY".to_string(),
            api_key: Some("dummy".to_string()),
        },
        port: 4567,
        relay_url: None,
        model: Some("deepseek-v4-pro".to_string()),
        model_catalog_json: None,
        approval: ApprovalPolicy::Never,
        sandbox: SandboxMode::WorkspaceWrite,
        context_window: 64_000,
        extra_args: vec!["--oss".to_string()],
    }
}

#[test]
fn builds_relay_config_args() {
    let launch = deepseek_launch();
    let command = build_codex_command(&launch, which::which(&launch.codex_bin).is_ok(), None)
        .unwrap();
    assert!(
        command
            .argv
            .contains(&"model_provider=\"codex-pal\"".to_string())
    );
    assert!(command.argv.contains(
        &"model_providers.codex-pal.base_url=\"http://127.0.0.1:4567/v1\"".to_string()
    ));
    assert!(
        command
            .argv
            .contains(&"approval_policy=\"never\"".to_string())
    );
    assert!(command.argv.contains(&"-s".to_string()));
    assert!(command.argv.contains(&"workspace-write".to_string()));
    assert!(
        command
            .argv
            .contains(&"model_properties.\"deepseek-v4-pro\".context_window=64000".to_string())
    );
    assert!(
        command
            .env
            .contains(&("DEEPSEEK_API_KEY".to_string(), "dummy".to_string()))
    );
}

#[test]
fn codex_command_has_the_exact_argument_order() {
    let launch = deepseek_launch();
    let command = build_codex_command(&launch, true, None).unwrap();
    let expected: Vec<String> = [
        "true",
        "-c",
        "model_provider=\"codex-pal\"",
        "-c",
        "model_providers.codex-pal.name=\"codex-pal (deepseek)\"",
        "-c",
        "model_providers.codex-pal.base_url=\"http://127.0.0.1:4567/v1\"",
        "-c",
        "model_providers.codex-pal.wire_api=\"responses\"",
        "-c",
        "model_providers.codex-pal.env_key=\"DEEPSEEK_API_KEY\"",
        "-m",
        "deepseek-v4-pro",
        "-c",
        "model_properties.\"deepseek-v4-pro\".context_window=64000",
        "-c",
        "model_properties.\"deepseek-v4-pro\".max_context_window=64000",
        "-c",
        "model_properties.\"deepseek-v4-pro\".supports_parallel_tool_calls=true",
        "-c",
        "model_properties.\"deepseek-v4-pro\".supports_reasoning_summaries=false",
        "-c",
        "model_properties.\"deepseek-v4-pro\".input_modalities=[\"text\"]",
        "-c",
        "approval_policy=\"never\"",
        "-s",
        "workspace-write",
        "--oss",
    ]
    .iter()
    .map(|s| s.to_string())
    .collect();
    assert_eq!(command.argv, expected);
    assert_eq!(
        command.env,
        vec![
            ("DEEPSEEK_API_KEY".to_string(), "dummy".to_string()),
            ("OPENAI_API_KEY".to_string(), "dummy".to_string()),
        ]
    );
}

#[test]
fn bypass_mode_replaces_approval_and_sandbox_flags() {
    let mut launch = deepseek_launch();
    launch.sandbox = SandboxMode::DangerFullAccess;
    launch.model = None;
    launch.extra_args = Vec::new();
    launch.model_catalog_json = Some("/tmp/models.json".to_string());
    let command = build_codex_command(&launch, true, None).unwrap();
    assert_eq!(
        command.argv.last().unwrap(),
        "--dangerously-bypass-approvals-and-sandbox"
    );
    assert!(!command.argv.contains(&"-s".to_string()));
    assert!(command
        .argv
        .contains(&"model_catalog_json=\"/tmp/models.json\"".to_string()));
}

#[test]
fn openai_launch_gets_no_relay_overrides_or_key_env() {
    let mut launch = deepseek_launch();
    launch.provider.name = "openai".to_string();
    let command = build_codex_command(&launch, true, Some("env-key".to_string())).unwrap();
    assert!(!command.argv.iter().any(|a| a.starts_with("model_provider")));
    assert!(command.env.is_empty());
}

#[test]
fn environment_key_is_used_when_the_profile_has_none() {
    let mut launch = deepseek_launch();
    launch.provider.api_key = None;
    let command = build_codex_command(&launch, true, Some("from-env".to_string())).unwrap();
    assert_eq!(command.env[0], ("DEEPSEEK_API_KEY".to_string(), "from-env".to_string()));
    let command = build_codex_command(&launch, true, None).unwrap();
    assert!(command.env.is_empty());
    let command = build_codex_command(&launch, true, Some(String::new())).unwrap();
    assert!(command.env.is_empty());
}

#[test]
fn missing_codex_binary_is_reported() {
    let launch = deepseek_launch();
    let err = build_codex_command(&launch, false, None).unwrap_err();
    assert_eq!(
        err.message(),
        "codex binary \"true\" not found in PATH; install Codex or set --codex-bin"
    );
}

#[test]
fn model_names_with_braces_are_replaced_like_str_replace() {
    let mut launch = deepseek_launch();
    launch.model = Some("odd{}name".to_string());
    let command = build_codex_command(&launch, true, None).unwrap();
    assert!(command
        .argv
        .contains(&"model_properties.\"oddcontext_windowname\".context_window=64000".to_string()));
}

#[test]
fn approval_and_sandbox_values_round_trip() {
    for policy in [
        ApprovalPolicy::Never,
        ApprovalPolicy::OnRequest,
        ApprovalPolicy::OnFailure,
        ApprovalPolicy::Untrusted,
    ] {
        assert_eq!(ApprovalPolicy::parse(policy.as_config_value()).unwrap(), policy);
    }
    for mode in [
        SandboxMode::ReadOnly,
        SandboxMode::WorkspaceWrite,
        SandboxMode::DangerFullAccess,
    ] {
        assert_eq!(SandboxMode::parse(mode.as_cli_value()).unwrap(), mode);
        assert_eq!(mode.bypasses_sandbox(), mode == SandboxMode::DangerFullAccess);
    }
    assert_eq!(
        ApprovalPolicy::parse("always").unwrap_err().message(),
        "unknown approval policy \"always\""
    );
    assert_eq!(
        SandboxMode::parse("full").unwrap_err().message(),
        "unknown sandbox mode \"full\""
    );
}

#[test]
fn toml_strings_are_json_escaped() {
    assert_eq!(toml_value::string("plain"), "\"plain\"");
    assert_eq!(toml_value::string("a\"b\\c\n\u{1}"), "\"a\\\"b\\\\c\\n\\u0001\"");
    assert_eq!(toml_value::string_array(&["text", "x"]), "[\"text\",\"x\"]");
    assert_eq!(toml_value::string_array(&[]), "[]");
}

#[test]
fn catalog_lists_provider_models_then_a_custom_selection() {
    let models = catalog_models("deepseek", Some("deepseek-v4-flash")).unwrap();
    assert_eq!(models.len(), 2);
    let models = catalog_models("deepseek", Some("my-model")).unwrap();
    assert_eq!(models.len(), 3);
    assert_eq!(models[2].slug, "my-model");
    assert_eq!(models[2].display_name, "my-model");
    assert_eq!(
        models[2].description,
        "Custom deepseek model selected for this launch."
    );
    assert_eq!(models[2].context_window, 128_000);
    assert!(catalog_models("custom", Some("x")).is_none());
    assert_eq!(catalog_models("openrouter", None).unwrap()[0].slug, "openrouter/auto");
}

#[test]
fn catalog_entries_override_template_fields() {
    let model = CatalogModel {
        slug: "s".to_string(),
        display_name: "S".to_string(),
        description: "d".to_string(),
        context_window: 1000,
    };
    let fields = catalog_entry_fields(&model, 3);
    assert_eq!(fields.len(), 12);
    assert_eq!(fields[0].0, "slug");
    assert!(matches!(&fields[3].1, CatalogValue::Number(3)));
    assert!(matches!(&fields[7].1, CatalogValue::Number(1000)));
    assert!(matches!(&fields[8].1, CatalogValue::TextList(v) if v == &vec!["text".to_string()]));
    assert!(matches!(&fields[11].1, CatalogValue::Flag(false)));
}

#[test]
fn catalog_file_name_sanitizes_provider() {
    assert_eq!(model_catalog_file("deepseek", 4444), "models-deepseek-4444.json");
    assert_eq!(model_catalog_file("a b/c", 1), "models-a-b-c-1.json");
}

#[test]
fn policies_and_modes_parse_from_strings() {
    assert_eq!("on-failure".parse::<ApprovalPolicy>().unwrap(), ApprovalPolicy::OnFailure);
    assert_eq!("read-only".parse::<SandboxMode>().unwrap(), SandboxMode::ReadOnly);
    assert_eq!(
        "sometimes".parse::<ApprovalPolicy>().unwrap_err().message(),
        "unknown approval policy \"sometimes\""
    );
    assert_eq!(
        "open".parse::<SandboxMode>().unwrap_err().message(),
        "unknown sandbox mode \"open\""
    );
}

#[test]
fn remote_relay_url_replaces_the_local_base_url() {
    let launch = CodexLaunch {
        relay_url: Some("https://relay.example.com/v1".to_string()),
        ..deepseek_launch()
    };
    let command = build_codex_command(&launch, true, None).unwrap();
    assert!(command.argv.contains(
        &"model_providers.codex-pal.base_url=\"https://relay.example.com/v1\"".to_string()
    ));
    assert!(!command.argv.iter().any(|a| a.contains("127.0.0.1")));
    let other_port = CodexLaunch { port: 9999, ..launch.clone() };
    assert_eq!(build_codex_command(&other_port, true, None).unwrap(), command);
}

fn model(slug: &str, window: u32) -> CatalogModel {
    CatalogModel {
        slug: slug.to_string(),
        display_name: slug.to_uppercase(),
        description: "d".to_string(),
        context_window: window,
    }
}

#[test]
fn bundled_template_is_the_first_model() {
    let template =
        bundled_model_template(br#"{"models":[{"slug":"gpt","shell_type":"local"},{"slug":"b"}]}"#)
            .unwrap();
    assert_eq!(template.get("slug").and_then(|v| v.as_str()), Some("gpt"));
    assert!(matches!(bundled_model_template(b"not json"), Err(PalError::ModelCatalogUnreadable)));
    assert!(matches!(bundled_model_template(br#"{"models":[]}"#), Err(PalError::NoBundledModels)));
    assert!(matches!(bundled_model_template(br#"{"other":1}"#), Err(PalError::NoBundledModels)));
    let scalar = bundled_model_template(br#"{"models":["x"]}"#).unwrap();
    assert!(scalar.is_string());
}

#[test]
fn catalog_entries_overlay_the_template() {
    let template: serde_json::Value =
        serde_json::from_str(r#"{"slug":"gpt","shell_type":"local","priority":9}"#).unwrap();
    let entry = catalog_entry_from_template(&template, &model("deepseek-v4-pro", 64000), 3).unwrap();
    let expected: serde_json::Value = serde_json::from_str(
        r#"{"slug":"deepseek-v4-pro","display_name":"DEEPSEEK-V4-PRO","description":"d",
            "priority":3,"visibility":"list","supported_in_api":true,"context_window":64000,
            "max_context_window":64000,"input_modalities":["text"],"supports_search_tool":false,
            "supports_image_detail_original":false,"supports_reasoning_summaries":false,
            "shell_type":"local"}"#,
    )
    .unwrap();
    assert_eq!(entry, expected);
    assert_eq!(template.get("slug").and_then(|v| v.as_str()), Some("gpt"));

    let entries = catalog_entries(&template, &vec![model("a", 1), model("b", 2)]).unwrap();
    assert_eq!(entries.len(), 2);
    assert_eq!(entries[1]["priority"], serde_json::Value::from(1u64));
    assert_eq!(entries[1]["slug"], serde_json::Value::from("b"));

    let scalar = serde_json::Value::from("x");
    assert!(matches!(
        catalog_entry_from_template(&scalar, &model("a", 1), 0),
        Err(PalError::ModelTemplateNotObject)
    ));
    assert!(matches!(
        catalog_entries(&scalar, &vec![model("a", 1)]),
        Err(PalError::ModelTemplateNotObject)
    ));
    assert!(catalog_entries(&scalar, &Vec::new()).unwrap().is_empty());
    assert_eq!(
        PalError::ModelTemplateNotObject.message(),
        "bundled Codex model template was not a JSON object"
    );
}
