use llm_stream::config::{
    optional_secret, parse, parse_optional, required_secret, validate_api_key, validate_url,
    validate_model_name, validate_non_empty, validate_positive_duration, validate_range,
    with_default, HttpConfig, PoolConfig, SecretString,
};
use llm_stream::error::ConfigError;
use llm_stream::types::Duration;

#[test]
fn test_secret_string_debug() {
    let secret = SecretString::new("super_secret_key");
    let debug_output = secret.redacted();
    assert_eq!(debug_output, "[REDACTED]");
    assert!(!debug_output.contains("super_secret_key"));
}

#[test]
fn test_secret_string_expose() {
    let secret = SecretString::new("my_secret");
    assert_eq!(secret.expose_secret(), "my_secret");
}

#[test]
fn test_validation_non_empty() {
    assert!(validate_non_empty("valid", "test").is_ok());
    assert!(validate_non_empty("", "test").is_err());
    assert!(validate_non_empty("   ", "test").is_err());
}

#[test]
fn test_validation_range() {
    assert!(validate_range(5, 1, 10, "value").is_ok());
    assert!(validate_range(0, 1, 10, "value").is_err());
    assert!(validate_range(15, 1, 10, "value").is_err());
}

#[test]
fn range_error_names_the_bounds() {
    match validate_range(15, 1, 10, "value") {
        Err(ConfigError::InvalidValue { field, message }) => {
            assert_eq!(field, "value");
            assert_eq!(message, "Value 15 must be between 1 and 10");
        }
        other => panic!("unexpected {:?}", other),
    }
    assert!(validate_range(-3, -5, 5, "value").is_ok());
}

#[test]
fn secret_length_counts_bytes() {
    let s = SecretString::new("héllo");
    assert_eq!(s.len(), 6);
    assert!(!s.is_empty());
    assert!(SecretString::new("").is_empty());
}

#[test]
fn api_key_checks() {
    assert!(validate_api_key(&SecretString::new("sk-test123456789"), "api_key").is_ok());
    assert!(matches!(
        validate_api_key(&SecretString::new(""), "api_key"),
        Err(ConfigError::MissingField { .. })
    ));
    match validate_api_key(&SecretString::new("sk-short"), "api_key") {
        Err(ConfigError::InvalidValue { message, .. }) => {
            assert_eq!(message, "API key appears to be too short")
        }
        other => panic!("unexpected {:?}", other),
    }
    match validate_api_key(&SecretString::new("YOUR_API_KEY_HERE"), "api_key") {
        Err(ConfigError::InvalidValue { message, .. }) => {
            assert_eq!(message, "API key appears to be a placeholder")
        }
        other => panic!("unexpected {:?}", other),
    }
}

#[test]
fn model_name_checks() {
    assert!(validate_model_name("llama2", "model").is_ok());
    assert!(matches!(
        validate_model_name("  ", "model"),
        Err(ConfigError::MissingField { .. })
    ));
    match validate_model_name("gpt 4", "model") {
        Err(ConfigError::InvalidValue { message, .. }) => {
            assert_eq!(message, "Model name cannot contain whitespace")
        }
        other => panic!("unexpected {:?}", other),
    }
    let long = "m".repeat(101);
    match validate_model_name(&long, "model") {
        Err(ConfigError::InvalidValue { message, .. }) => {
            assert_eq!(message, "Model name is too long")
        }
        other => panic!("unexpected {:?}", other),
    }
    assert!(validate_model_name(&"m".repeat(100), "model").is_ok());
}

#[test]
fn positive_duration_check() {
    assert!(validate_positive_duration(Duration::from_secs(1), "timeout").is_ok());
    assert!(validate_positive_duration(Duration::from_millis(1), "timeout").is_ok());
    assert!(validate_positive_duration(Duration::from_secs(0), "timeout").is_err());
}

#[test]
fn settings_from_environment_values() {
    assert_eq!(
        required_secret("KEY", Some("abc".to_string())).unwrap().expose_secret(),
        "abc"
    );
    match required_secret("KEY", None) {
        Err(ConfigError::MissingField { field }) => assert_eq!(field, "KEY"),
        _ => panic!("expected a missing field"),
    }
    assert!(optional_secret(None).is_none());
    assert_eq!(with_default(None, "fallback"), "fallback");
    assert_eq!(with_default(Some("set".to_string()), "fallback"), "set");
    assert_eq!(parse("N", Some("42".to_string())).unwrap(), 42);
    match parse("N", Some("4x".to_string())) {
        Err(ConfigError::InvalidValue { field, message }) => {
            assert_eq!(field, "N");
            assert_eq!(message, "Failed to parse: invalid digit found in string");
        }
        other => panic!("unexpected {:?}", other),
    }
    assert_eq!(parse_optional("N", None).unwrap(), None);
    assert_eq!(parse_optional("N", Some("7".to_string())).unwrap(), Some(7));
}

#[test]
fn default_http_settings() {
    let c = HttpConfig::default();
    assert_eq!(c.timeout, Duration::from_secs(30));
    assert_eq!(c.retry_delay, Duration::from_millis(100));
    assert_eq!(c.max_retries, 3);
    assert_eq!(c.user_agent.as_deref(), Some("ferrous-llm-core/2.0"));
    assert_eq!(c.pool, PoolConfig::default());
    assert_eq!(c.pool.max_idle_connections, 10);
}

#[test]
fn test_validation_url() {
    assert!(validate_url("https://api.example.com", "url").is_ok());
    assert!(validate_url("not_a_url", "url").is_err());
}

#[test]
fn invalid_url_message() {
    match validate_url("not_a_url", "base_url") {
        Err(ConfigError::InvalidValue { field, message }) => {
            assert_eq!(field, "base_url");
            assert_eq!(message, "Invalid URL: not_a_url");
        }
        other => panic!("unexpected {:?}", other),
    }
}
