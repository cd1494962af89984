use codex_pal::cli::ProviderArgs;
use codex_pal::provider::{
    ProviderProfile, builtin_providers, default_model, is_builtin_provider, provider_models,
};

#[test]
fn resolves_known_provider() {
    let args = ProviderArgs {
        provider: "deepseek".to_string(),
        upstream: None,
        api_key_env: None,
        api_key: None,
    };
    let profile = ProviderProfile::resolve(&args).unwrap();
    assert_eq!(profile.upstream, "https://api.deepseek.com/v1");
    assert_eq!(profile.api_key_env, "DEEPSEEK_API_KEY");
    assert!(profile.needs_relay());
}

#[test]
fn resolves_zai_aliases_and_current_default_models() {
    for provider in ["z", "zai"] {
        let args = ProviderArgs {
            provider: provider.to_string(),
            upstream: None,
            api_key_env: None,
            api_key: None,
        };
        let profile = ProviderProfile::resolve(&args).unwrap();
        assert_eq!(profile.upstream, "https://api.z.ai/api/paas/v4");
        assert_eq!(profile.api_key_env, "ZAI_API_KEY");
        assert_eq!(default_model(provider), Some("glm-5.2"));
    }
    assert_eq!(default_model("deepseek"), Some("deepseek-v4-pro"));
    assert_eq!(default_model("kimi"), Some("kimi-k3"));
}

#[test]
fn custom_can_override_upstream_and_key_env() {
    let args = ProviderArgs {
        provider: "custom".to_string(),
        upstream: Some("https://llm.example/v1".to_string()),
        api_key_env: Some("EXAMPLE_API_KEY".to_string()),
        api_key: None,
    };
    let profile = ProviderProfile::resolve(&args).unwrap();
    assert_eq!(profile.upstream, "https://llm.example/v1");
    assert_eq!(profile.api_key_env, "EXAMPLE_API_KEY");
}

#[test]
fn resolve_normalizes_name_and_keeps_api_key() {
    let args = ProviderArgs {
        provider: "  DeepSeek \n".to_string(),
        upstream: None,
        api_key_env: None,
        api_key: Some("secret".to_string()),
    };
    let profile = ProviderProfile::resolve(&args).unwrap();
    assert_eq!(profile.name, "deepseek");
    assert_eq!(profile.api_key.as_deref(), Some("secret"));
}

#[test]
fn resolve_rejects_unknown_provider() {
    let args = ProviderArgs {
        provider: " Acme ".to_string(),
        upstream: Some("https://acme.example/v1".to_string()),
        api_key_env: None,
        api_key: None,
    };
    let err = ProviderProfile::resolve(&args).unwrap_err();
    assert_eq!(
        err.message(),
        "unknown provider \"acme\"; use --upstream/--api-key-env with --provider custom"
    );
}

#[test]
fn openai_needs_no_relay() {
    let args = ProviderArgs {
        provider: "OpenAI".to_string(),
        upstream: None,
        api_key_env: None,
        api_key: None,
    };
    let profile = ProviderProfile::resolve(&args).unwrap();
    assert!(!profile.needs_relay());
    assert_eq!(profile.upstream, "https://api.openai.com/v1");
    assert_eq!(default_model("openai"), Some("gpt-5.5"));
    assert_eq!(default_model("custom"), None);
}

#[test]
fn builtin_names_are_recognised_case_insensitively() {
    for name in builtin_providers() {
        assert!(is_builtin_provider(name));
        assert!(is_builtin_provider(&name.to_uppercase()));
    }
    assert!(!is_builtin_provider("work-llm"));
}

#[test]
fn provider_catalogs_match_the_readme_defaults() {
    let expected = [
        ("deepseek", "deepseek-v4-pro"),
        ("moonshot", "kimi-k3"),
        ("dashscope", "qwen3.7-max"),
        ("mistral", "mistral-medium-3-5+2"),
        ("groq", "openai/gpt-oss-120b"),
        ("grok", "grok-4.3"),
        ("openrouter", "openrouter/auto"),
    ];
    for (provider, model) in expected {
        assert_eq!(default_model(provider), Some(model));
    }
    assert_eq!(provider_models("kimi").len(), 4);
    assert_eq!(provider_models("kimi")[1].context_window, 256_000);
    assert!(provider_models("openai").is_empty());
}

#[test]
fn explicit_api_key_wins_over_the_environment() {
    let mut profile = ProviderProfile {
        name: "deepseek".to_string(),
        upstream: "https://api.deepseek.com/v1".to_string(),
        api_key_env: "DEEPSEEK_API_KEY".to_string(),
        api_key: Some("own".to_string()),
    };
    assert_eq!(profile.api_key_value(Some("env".to_string())).as_deref(), Some("own"));
    profile.api_key = None;
    assert_eq!(profile.api_key_value(Some("env".to_string())).as_deref(), Some("env"));
    assert_eq!(profile.api_key_value(None), None);
}

#[test]
fn aliases_share_catalogs_and_names_normalize() {
    let slugs = |p: &str| -> Vec<&'static str> { provider_models(p).iter().map(|m| m.slug).collect() };
    assert_eq!(slugs("deepseek"), vec!["deepseek-v4-pro", "deepseek-v4-flash"]);
    assert_eq!(slugs("  DeepSeek "), slugs("deepseek"));
    assert_eq!(slugs("z"), slugs("zai"));
    assert_eq!(slugs("kimi"), slugs("moonshot"));
    assert_eq!(slugs("qwen"), slugs("dashscope"));
    assert_eq!(slugs("xai"), slugs("grok"));
    assert_eq!(slugs("GROK"), vec!["grok-4.3", "grok-build-0.1"]);
    assert!(provider_models("openai").is_empty());
    assert!(provider_models("custom").is_empty());
    assert!(provider_models("groqq").is_empty());
    for name in ["mistral", "groq", "kimi", "qwen"] {
        let s = slugs(name);
        for i in 0..s.len() {
            for j in (i + 1)..s.len() {
                assert_ne!(s[i], s[j]);
            }
        }
    }
}
