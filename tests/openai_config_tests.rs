use llm_stream::config::validate_url;
use llm_stream::error::ConfigError;
use llm_stream::openai_config::OpenAIConfig;
use llm_stream::types::Duration;

#[test]
fn test_openai_config_creation() {
    let config = OpenAIConfig::new("sk-test123456789", "gpt-4");
    assert_eq!(config.model, "gpt-4");
    assert_eq!(config.api_key.expose_secret(), "sk-test123456789");
    assert_eq!(config.base_url(), "https://api.openai.com/v1");
    assert_eq!(config.organization, None);
    assert_eq!(config.project, None);
}

#[test]
fn test_openai_config_builder() {
    let config = OpenAIConfig::builder()
        .api_key("sk-test123456789")
        .model("gpt-3.5-turbo")
        .organization("org-123")
        .project("proj-456")
        .timeout(Duration::from_secs(60))
        .max_retries(5)
        .header("X-Custom-Header".to_string(), "custom-value".to_string())
        .build();

    assert_eq!(config.model, "gpt-3.5-turbo");
    assert_eq!(config.organization, Some("org-123".to_string()));
    assert_eq!(config.project, Some("proj-456".to_string()));
    assert_eq!(config.http.timeout, Duration::from_secs(60));
    assert_eq!(config.http.max_retries, 5);
    assert_eq!(
        config.http.header("X-Custom-Header"),
        Some(&"custom-value".to_string())
    );
}

#[test]
fn test_openai_config_urls() {
    let config = OpenAIConfig::new("sk-test", "gpt-4");
    assert_eq!(
        config.chat_url(),
        "https://api.openai.com/v1/chat/completions"
    );
    assert_eq!(
        config.completions_url(),
        "https://api.openai.com/v1/completions"
    );
    assert_eq!(
        config.embeddings_url(),
        "https://api.openai.com/v1/embeddings"
    );
    assert_eq!(
        config.images_url(),
        "https://api.openai.com/v1/images/generations"
    );
    assert_eq!(
        config.transcriptions_url(),
        "https://api.openai.com/v1/audio/transcriptions"
    );
    assert_eq!(
        config.speech_url(),
        "https://api.openai.com/v1/audio/speech"
    );
}

#[test]
fn test_openai_config_custom_base_url() {
    let config = OpenAIConfig::builder()
        .api_key("sk-test")
        .model("gpt-4")
        .base_url("https://custom.openai.com/v1")
        .unwrap()
        .build();

    assert_eq!(config.base_url(), "https://custom.openai.com/v1");
    assert_eq!(
        config.chat_url(),
        "https://custom.openai.com/v1/chat/completions"
    );
}

#[test]
fn test_openai_config_validation() {
    // Valid config should pass
    let valid_config = OpenAIConfig::new("sk-test123456789", "gpt-4");
    assert!(valid_config.validate().is_ok());

    // Empty API key should fail
    let invalid_config = OpenAIConfig::new("", "gpt-4");
    assert!(invalid_config.validate().is_err());

    // Empty model should fail
    let invalid_config = OpenAIConfig::new("sk-test123456789", "");
    assert!(invalid_config.validate().is_err());

    // Short API key should fail
    let invalid_config = OpenAIConfig::new("sk-short", "gpt-4");
    assert!(invalid_config.validate().is_err());

    // Placeholder API key should fail
    let invalid_config = OpenAIConfig::new("your_api_key_here", "gpt-4");
    assert!(invalid_config.validate().is_err());
}

#[test]
fn config_test_config_validation() {
    let config = OpenAIConfig::new("sk-test123456789", "gpt-4");
    assert!(config.validate().is_ok());
}

#[test]
fn config_test_config_validation_empty_api_key() {
    let config = OpenAIConfig::new("", "gpt-4");
    assert!(config.validate().is_err());
}

#[test]
fn config_test_config_builder() {
    let config = OpenAIConfig::builder()
        .api_key("sk-test123456789")
        .model("gpt-4")
        .organization("org-123")
        .timeout(Duration::from_secs(60))
        .build();
    assert_eq!(config.model, "gpt-4");
    assert_eq!(config.organization, Some("org-123".to_string()));
    assert_eq!(config.http.timeout, Duration::from_secs(60));
}

#[test]
fn config_test_urls() {
    let config = OpenAIConfig::new("sk-test", "gpt-4");
    assert_eq!(
        config.chat_url(),
        "https://api.openai.com/v1/chat/completions"
    );
    assert_eq!(
        config.embeddings_url(),
        "https://api.openai.com/v1/embeddings"
    );
}

#[test]
fn config_test_custom_base_url() {
    let mut config = OpenAIConfig::new("sk-test", "gpt-4");
    config.base_url = Some(validate_url("https://custom.openai.com/v1", "base_url").unwrap());
    assert_eq!(
        config.chat_url(),
        "https://custom.openai.com/v1/chat/completions"
    );
}

#[test]
fn validation_names_the_failing_setting() {
    let mut config = OpenAIConfig::new("sk-test123456789", "gpt-4");
    config.base_url = Some(validate_url("http://plain.example.com/v1", "base_url").unwrap());
    match config.validate() {
        Err(ConfigError::InvalidValue { field, message }) => {
            assert_eq!(field, "base_url");
            assert_eq!(message, "URL must use HTTPS scheme");
        }
        _ => panic!("expected an https error"),
    }
    let mut config = OpenAIConfig::new("sk-test123456789", "gpt-4");
    config.http.max_retries = 11;
    match config.validate() {
        Err(ConfigError::InvalidValue { field, .. }) => assert_eq!(field, "http.max_retries"),
        _ => panic!("expected a retries error"),
    }
    let mut config = OpenAIConfig::new("sk-test123456789", "gpt-4");
    config.http.timeout = Duration::from_secs(0);
    match config.validate() {
        Err(ConfigError::InvalidValue { field, .. }) => assert_eq!(field, "http.timeout"),
        _ => panic!("expected a timeout error"),
    }
}

#[test]
fn settings_from_environment() {
    let config = OpenAIConfig::from_env(
        Some("sk-test123456789".to_string()),
        None,
        Some("org".to_string()),
        None,
        Some("https://proxy.example.com/v1".to_string()),
    )
    .unwrap();
    assert_eq!(config.model, "gpt-3.5-turbo");
    assert_eq!(config.organization, Some("org".to_string()));
    assert_eq!(config.chat_url(), "https://proxy.example.com/v1/chat/completions");
    match OpenAIConfig::from_env(None, None, None, None, None) {
        Err(ConfigError::MissingField { field }) => assert_eq!(field, "OPENAI_API_KEY"),
        _ => panic!("expected a missing key"),
    }
    match OpenAIConfig::from_env(Some("k".to_string()), None, None, None, Some("nope".to_string())) {
        Err(ConfigError::InvalidValue { field, .. }) => assert_eq!(field, "OPENAI_BASE_URL"),
        _ => panic!("expected an invalid url"),
    }
}

#[test]
fn header_is_replaced_not_repeated() {
    let config = OpenAIConfig::builder()
        .header("A".to_string(), "1".to_string())
        .header("B".to_string(), "2".to_string())
        .header("A".to_string(), "3".to_string())
        .build();
    assert_eq!(config.http.headers.len(), 2);
    assert_eq!(config.http.header("A"), Some(&"3".to_string()));
    assert_eq!(config.http.header("C"), None);
}
