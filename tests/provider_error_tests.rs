use llm_stream::anthropic::{AnthropicError, AnthropicErrorDetail, AnthropicErrorResponse};
use llm_stream::error::ProviderError;
use llm_stream::grpc_error::{Code, GrpcError, Status};
use llm_stream::openai::OpenAIError;
use llm_stream::types::Duration;

#[test]
fn test_openai_error_types() {
    let auth_error = OpenAIError::Authentication {
        message: "Invalid API key".to_string(),
    };
    assert!(auth_error.is_auth_error());
    assert!(!auth_error.is_retryable());
    assert!(!auth_error.is_rate_limited());
    assert_eq!(auth_error.error_code(), Some("authentication_failed"));

    let rate_limit_error = OpenAIError::RateLimit {
        retry_after: Some(Duration::from_secs(60)),
    };
    assert!(rate_limit_error.is_rate_limited());
    assert!(rate_limit_error.is_retryable());
    assert!(!rate_limit_error.is_auth_error());
    assert_eq!(
        rate_limit_error.retry_after(),
        Some(Duration::from_secs(60))
    );

    let service_error = OpenAIError::ServiceUnavailable {
        message: "Service temporarily unavailable".to_string(),
    };
    assert!(service_error.is_service_unavailable());
    assert!(service_error.is_retryable());
    assert!(!service_error.is_auth_error());

    let content_filter_error = OpenAIError::ContentFiltered {
        message: "Content violates policy".to_string(),
    };
    assert!(content_filter_error.is_content_filtered());
    assert!(!content_filter_error.is_retryable());
}

#[test]
fn test_openai_error_from_response() {
    // Test 401 Unauthorized
    let error = OpenAIError::from_response(401, "Unauthorized");
    assert!(matches!(error, OpenAIError::Authentication { .. }));

    // Test 429 Rate Limited
    let error = OpenAIError::from_response(429, "Rate limit exceeded");
    assert!(matches!(error, OpenAIError::RateLimit { .. }));

    // Test 400 Bad Request
    let error = OpenAIError::from_response(400, "Invalid request");
    assert!(matches!(error, OpenAIError::InvalidRequest { .. }));

    // Test 500 Server Error
    let error = OpenAIError::from_response(500, "Internal server error");
    assert!(matches!(error, OpenAIError::ServiceUnavailable { .. }));

    // Test with JSON error response
    let json_error = r#"{"error": {"message": "Invalid API key", "type": "invalid_api_key"}}"#;
    let error = OpenAIError::from_response(401, json_error);
    assert!(matches!(error, OpenAIError::Authentication { .. }));
}

#[test]
fn openai_error_body_details() {
    assert_eq!(
        OpenAIError::from_response(
            400,
            r#"{"error": {"message": "quota", "type": "insufficient_quota", "param": null}}"#
        ),
        OpenAIError::InsufficientQuota { message: "quota".to_string() }
    );
    // A `type` that is not a string makes the body no error object.
    assert_eq!(
        OpenAIError::from_response(400, r#"{"error": {"message": "m", "type": 5}}"#),
        OpenAIError::InvalidRequest { message: r#"{"error": {"message": "m", "type": 5}}"#.to_string() }
    );
    assert_eq!(
        OpenAIError::from_response(502, r#"{"error": {"message": "upstream"}}"#),
        OpenAIError::ServiceUnavailable { message: "upstream".to_string() }
    );
    assert_eq!(
        OpenAIError::from_response(302, "moved"),
        OpenAIError::Other { message: "HTTP 302: moved".to_string() }
    );
}

#[test]
fn anthropic_error_classification() {
    let body = r#"{"type":"error","error":{"type":"overloaded_error","message":"Overloaded"}}"#;
    assert_eq!(
        AnthropicError::from_response(529, body),
        AnthropicError::ServiceUnavailable { message: "Overloaded".to_string() }
    );
    assert_eq!(
        AnthropicError::from_response(413, "too big"),
        AnthropicError::RequestTooLarge { message: "Request entity too large".to_string() }
    );
    assert_eq!(
        AnthropicError::from_response(500, "oops"),
        AnthropicError::ServiceUnavailable { message: "Server error: 500".to_string() }
    );
    let e = AnthropicError::from_error_response(
        404,
        AnthropicErrorResponse {
            response_type: "error".to_string(),
            error: AnthropicErrorDetail { error_type: "strange".to_string(), message: "sonnet-x".to_string() },
        },
    );
    assert_eq!(e, AnthropicError::ModelNotFound { model: "sonnet-x".to_string() });
    assert!(e.is_invalid_input());
    assert_eq!(e.error_code(), Some("model_not_found"));
    let limited = AnthropicError::from_response(429, "slow");
    assert!(limited.is_rate_limited() && limited.is_retryable());
    assert_eq!(limited.retry_after(), None);
}

#[test]
fn grpc_error_classification() {
    let unavailable = GrpcError::Status(Status { code: Code::Unavailable, message: "down".to_string() });
    assert_eq!(unavailable.error_code(), Some("unavailable"));
    assert!(unavailable.is_retryable());
    assert!(unavailable.is_service_unavailable());
    let exhausted = GrpcError::Status(Status { code: Code::ResourceExhausted, message: String::new() });
    assert!(exhausted.is_rate_limited());
    assert_eq!(exhausted.retry_after(), Some(Duration::from_secs(30)));
    assert_eq!(GrpcError::RateLimit.retry_after(), Some(Duration::from_secs(60)));
    let denied = GrpcError::Status(Status { code: Code::PermissionDenied, message: String::new() });
    assert!(denied.is_auth_error());
    assert!(!denied.is_retryable());
    assert!(GrpcError::Serialization("bad".to_string()).is_invalid_input());
    assert_eq!(GrpcError::Timeout.error_code(), Some("timeout"));
}

#[test]
fn grpc_error_to_status() {
    let s = GrpcError::Authentication("no token".to_string()).into_status();
    assert_eq!(s.code, Code::Unauthenticated);
    assert_eq!(s.message, "Authentication error: no token");
    let s = GrpcError::Timeout.into_status();
    assert_eq!(s, Status { code: Code::DeadlineExceeded, message: "Request timeout".to_string() });
    let original = Status { code: Code::NotFound, message: "gone".to_string() };
    assert_eq!(GrpcError::Status(original.clone()).into_status(), original);
    assert_eq!(GrpcError::Other("plain".to_string()).message(), "plain");
}
