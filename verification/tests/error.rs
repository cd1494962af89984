use codex_pal::error::PalError;

#[test]
fn messages_quote_names_in_debug_form() {
    let err = PalError::ProfileNotFound { name: "a\"b".to_string() };
    assert_eq!(err.message(), "profile \"a\\\"b\" not found");
    assert_eq!(err.quoted_fields(), vec!["a\"b"]);
    assert_eq!(err.render(&vec!["<q>".to_string()]), "profile <q> not found");
}

#[test]
fn messages_without_quoted_fields() {
    assert_eq!(PalError::MissingProfileName.message(), "missing profile name");
    assert_eq!(PalError::HelpRequested.message(), "use `codex-pal --help` for help");
    assert_eq!(
        PalError::RelayStateInconsistent { port: 4444 }.message(),
        "relay state for port 4444 is inconsistent; stop the existing relay and retry"
    );
    assert_eq!(PalError::EmptyRelayUrl.message(), "relay URL must not be empty");
    assert_eq!(
        PalError::RelayUrlScheme.message(),
        "relay URL must start with http:// or https://"
    );
    assert!(PalError::ModelRequired.quoted_fields().is_empty());
}

#[test]
fn mismatch_message_renders_four_quoted_fields_in_order() {
    let err = PalError::RelayConfigMismatch {
        port: 1,
        existing_upstream: "a".to_string(),
        existing_api_key_env: "b".to_string(),
        upstream: "c".to_string(),
        api_key_env: "d".to_string(),
    };
    assert_eq!(err.quoted_fields(), vec!["a", "b", "c", "d"]);
    let quoted = vec!["1".to_string(), "2".to_string(), "3".to_string(), "4".to_string()];
    assert_eq!(
        err.render(&quoted),
        "relay on port 1 is configured for upstream 1 with API key environment variable 2, not upstream 3 with 4; use a different --port or stop the existing relay"
    );
}
