use llm_stream::config::validate_url;
use llm_stream::error::ConfigError;
use llm_stream::ollama_config::{trim_trailing_slashes, OllamaConfig};
use llm_stream::types::Duration;

#[test]
fn test_config_validation() {
    let config = OllamaConfig::new("llama2");
    assert!(config.validate().is_ok());
}

#[test]
fn integration_tests_test_config_validation() {
    let config = OllamaConfig::new("llama2");
    assert!(config.validate().is_ok());

    let invalid_config = OllamaConfig::new("");
    assert!(invalid_config.validate().is_err());
}

#[test]
fn test_config_validation_empty_model() {
    let config = OllamaConfig::new("");
    assert!(config.validate().is_err());
}

#[test]
fn test_config_builder() {
    let config = OllamaConfig::builder()
        .model("codellama")
        .embedding_model("nomic-embed-text")
        .keep_alive(300)
        .timeout(Duration::from_secs(60))
        .build();

    assert_eq!(config.model, "codellama");
    assert_eq!(config.embedding_model, Some("nomic-embed-text".to_string()));
    assert_eq!(config.keep_alive, Some(300));
    assert_eq!(config.http.timeout, Duration::from_secs(60));
}

#[test]
fn integration_tests_test_config_builder() {
    let config = OllamaConfig::builder()
        .model("codellama")
        .embedding_model("nomic-embed-text")
        .keep_alive(300)
        .build();

    assert_eq!(config.model, "codellama");
    assert_eq!(config.embedding_model, Some("nomic-embed-text".to_string()));
    assert_eq!(config.keep_alive, Some(300));
}

#[test]
fn test_urls() {
    let config = OllamaConfig::new("llama2");
    assert_eq!(config.chat_url(), "http://localhost:11434/api/chat");
    assert_eq!(config.generate_url(), "http://localhost:11434/api/generate");
    assert_eq!(
        config.embeddings_url(),
        "http://localhost:11434/api/embeddings"
    );
}

#[test]
fn provider_test_config_urls() {
    let config = OllamaConfig::new("llama2");
    assert_eq!(config.chat_url(), "http://localhost:11434/api/chat");
    assert_eq!(config.generate_url(), "http://localhost:11434/api/generate");
    assert_eq!(
        config.embeddings_url(),
        "http://localhost:11434/api/embeddings"
    );
}

#[test]
fn test_custom_base_url() {
    let mut config = OllamaConfig::new("llama2");
    config.base_url = Some(validate_url("http://custom-ollama:11434", "base_url").unwrap());
    assert_eq!(config.chat_url(), "http://custom-ollama:11434/api/chat");
}

#[test]
fn test_keep_alive_validation() {
    let mut config = OllamaConfig::new("llama2");
    config.keep_alive = Some(100000); // Too large
    assert!(config.validate().is_err());
}

#[test]
fn keep_alive_limit_is_inclusive() {
    let mut config = OllamaConfig::new("llama2");
    config.keep_alive = Some(86400);
    assert!(config.validate().is_ok());
    config.keep_alive = Some(86401);
    match config.validate() {
        Err(ConfigError::InvalidValue { field, .. }) => assert_eq!(field, "keep_alive"),
        _ => panic!("expected a keep-alive error"),
    }
}

#[test]
fn trailing_slashes_are_dropped() {
    assert_eq!(trim_trailing_slashes("http://h:1//"), "http://h:1");
    assert_eq!(trim_trailing_slashes("abc"), "abc");
    assert_eq!(trim_trailing_slashes("///"), "");
    let config = OllamaConfig::builder().base_url("http://h:1/base/").unwrap().build();
    assert_eq!(config.models_url(), "http://h:1/base/api/tags");
}

#[test]
fn ollama_settings_from_environment() {
    let config = OllamaConfig::from_env(
        Some("test-model".to_string()),
        None,
        Some("http://test:11434".to_string()),
        Some("300".to_string()),
    )
    .unwrap();
    assert_eq!(config.model, "test-model");
    assert!(config.base_url().starts_with("http://test:11434"));
    assert_eq!(config.keep_alive, Some(300));
    match OllamaConfig::from_env(None, None, None, Some("soon".to_string())) {
        Err(ConfigError::InvalidValue { field, message }) => {
            assert_eq!(field, "OLLAMA_KEEP_ALIVE");
            assert_eq!(message, "Must be a valid number");
        }
        _ => panic!("expected a keep-alive error"),
    }
    assert_eq!(OllamaConfig::from_env(None, None, None, None).unwrap().model, "llama2");
}
