use allscreenshots_cli::config::{parse_bool, parse_u32, resolve_api_key, validate_token, Config};
use allscreenshots_cli::error::CliError;

#[test]
fn test_mask_api_key() {
    assert_eq!(Config::mask_api_key("as_live_abcdefghijklmnop"), "as_live_...mnop");
    assert_eq!(Config::mask_api_key("short"), "*****");
}

#[test]
fn test_default_config() {
    let config = Config::default();
    assert!(config.auth.api_key.is_none());
    assert_eq!(config.defaults.device, Some("Desktop HD".to_string()));
}

#[test]
fn masking_edges() {
    assert_eq!(Config::mask_api_key(""), "");
    assert_eq!(Config::mask_api_key("123456789012"), "************");
    assert_eq!(Config::mask_api_key("1234567890123"), "12345678...0123");
}

#[test]
fn key_resolution_priority() {
    let stored = Some("from-config".to_string());
    assert_eq!(
        resolve_api_key(Some("flag".to_string()), Some("env".to_string()), &stored),
        Some("flag".to_string())
    );
    assert_eq!(
        resolve_api_key(None, Some("env".to_string()), &stored),
        Some("env".to_string())
    );
    assert_eq!(resolve_api_key(None, None, &stored), Some("from-config".to_string()));
    assert_eq!(resolve_api_key(None, None, &None), None);
}

#[test]
fn storing_and_removing_the_key() {
    let mut config = Config::default();
    config.set_api_key("as_live_k".to_string());
    assert_eq!(config.auth.api_key, Some("as_live_k".to_string()));
    config.remove_api_key();
    assert!(config.auth.api_key.is_none());
}

#[test]
fn empty_tokens_are_rejected() {
    assert!(validate_token("as_live_k").is_ok());
    match validate_token("") {
        Err(CliError::Other(m)) => assert_eq!(m, "Token cannot be empty"),
        other => panic!("unexpected: {:?}", other),
    }
}

#[test]
fn setting_and_reading_values_round_trip() {
    let mut config = Config::default();
    config.set_value("display.width", "120").unwrap();
    assert_eq!(config.get_value("display.width").unwrap(), Some("120".to_string()));
    config.set_value("defaults.device", "iPhone 14").unwrap();
    assert_eq!(config.get_value("defaults.device").unwrap(), Some("iPhone 14".to_string()));
    config.set_value("defaults.display", "false").unwrap();
    assert_eq!(config.get_value("defaults.display").unwrap(), Some("false".to_string()));
}

#[test]
fn bad_values_leave_config_unchanged() {
    let mut config = Config::default();
    match config.set_value("defaults.display", "maybe") {
        Err(CliError::Other(m)) => assert_eq!(m, "Value must be 'true' or 'false'"),
        other => panic!("unexpected: {:?}", other),
    }
    assert_eq!(config.defaults.display, Some(true));
    match config.set_value("display.width", "wide") {
        Err(CliError::Other(m)) => assert_eq!(m, "Value must be a number"),
        other => panic!("unexpected: {:?}", other),
    }
    assert_eq!(config.display.width, Some(80));
}

#[test]
fn unknown_keys_are_named() {
    let mut config = Config::default();
    match config.get_value("defaults.nope") {
        Err(CliError::Other(m)) => assert_eq!(m, "Unknown config key: defaults.nope"),
        other => panic!("unexpected: {:?}", other),
    }
    match config.set_value("defaults.nope", "x") {
        Err(CliError::Other(m)) => assert_eq!(
            m,
            "Unknown config key: defaults.nope. Valid keys: defaults.device, defaults.format, defaults.output_dir, defaults.display, display.protocol, display.width, display.height"
        ),
        other => panic!("unexpected: {:?}", other),
    }
}

#[test]
fn stored_key_reads_back_masked() {
    let mut config = Config::default();
    config.set_api_key("as_live_abcdefghijklmnop".to_string());
    assert_eq!(
        config.get_value("auth.api_key").unwrap(),
        Some("as_live_...mnop".to_string())
    );
}

#[test]
fn boolean_and_number_parsing() {
    assert_eq!(parse_bool("true"), Some(true));
    assert_eq!(parse_bool("false"), Some(false));
    assert_eq!(parse_bool("True"), None);
    assert_eq!(parse_u32("0"), Some(0));
    assert_eq!(parse_u32("42"), Some(42));
    assert_eq!(parse_u32("4294967295"), Some(u32::MAX));
    assert_eq!(parse_u32("4294967296"), None);
    assert_eq!(parse_u32(""), None);
    assert_eq!(parse_u32("12a"), None);
}

#[test]
fn config_path_ends_with_the_file_name() {
    if let Some(path) = Config::config_path() {
        assert!(path.ends_with("/config.toml"));
    }
}
