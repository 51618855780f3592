use llm_stream::config::validate_url;
use llm_stream::error::ConfigError;
use llm_stream::grpc_config::GrpcConfig;
use llm_stream::types::Duration;

#[test]
fn test_grpc_config_creation() {
    let config = GrpcConfig::new(validate_url("http://localhost:50051", "endpoint").unwrap());
    assert_eq!(config.endpoint.as_str(), "http://localhost:50051/");
    assert!(!config.use_tls);
}

#[test]
fn test_grpc_config_with_tls() {
    let config = GrpcConfig::new(validate_url("https://api.example.com", "endpoint").unwrap())
        .with_tls(Some("api.example.com".to_string()))
        .with_auth_token("test-token".to_string());

    assert!(config.use_tls);
    assert_eq!(config.tls_domain, Some("api.example.com".to_string()));
    assert_eq!(config.auth_token, Some("test-token".to_string()));
}

#[test]
fn default_endpoint_matches_parser() {
    let parsed = validate_url("http://localhost:50051", "endpoint").unwrap();
    assert_eq!(GrpcConfig::default().endpoint, parsed);
    assert!(GrpcConfig::default().validate().is_ok());
}

#[test]
fn grpc_validation_order() {
    let plain = GrpcConfig::new(validate_url("http://h:1", "endpoint").unwrap());
    match plain.clone().with_tls(None).validate() {
        Err(ConfigError::InvalidValue { field, message }) => {
            assert_eq!(field, "endpoint");
            assert_eq!(message, "TLS is enabled but endpoint scheme is not https");
        }
        _ => panic!("expected a TLS error"),
    }
    let ftp = GrpcConfig::new(validate_url("ftp://h/", "endpoint").unwrap());
    match ftp.validate() {
        Err(ConfigError::InvalidValue { message, .. }) => {
            assert_eq!(message, "Endpoint must use http or https scheme")
        }
        _ => panic!("expected a scheme error"),
    }
    match plain.clone().with_connect_timeout(Duration::from_secs(0)).validate() {
        Err(ConfigError::InvalidValue { field, .. }) => assert_eq!(field, "connect_timeout"),
        _ => panic!("expected a connect timeout error"),
    }
    match plain.clone().with_max_concurrent_requests(0).validate() {
        Err(ConfigError::InvalidValue { field, .. }) => assert_eq!(field, "max_concurrent_requests"),
        _ => panic!("expected a concurrency error"),
    }
    let tuned = plain
        .with_keep_alive(Duration::from_secs(1), Duration::from_secs(2), false)
        .with_max_request_size(10)
        .with_max_response_size(20)
        .with_timeout(Duration::from_millis(500))
        .with_user_agent("ua".to_string());
    assert!(tuned.validate().is_ok());
    assert!(!tuned.keep_alive_while_idle);
    assert_eq!(tuned.max_response_size, Some(20));
}
