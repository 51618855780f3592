use llm_stream::error::{ConfigError, LlmError, NetworkError, ProviderError, RequestError, ResponseError};
use llm_stream::ollama::{extract_model_name, OllamaError, OllamaErrorResponse, OllamaUsage};
use llm_stream::openai::{OpenAIFunctionCall, OpenAIToolCall, OpenAIUsage};
use llm_stream::anthropic::AnthropicUsage;
use llm_stream::proto::{
    core_finish_reason_to_proto, core_role_to_proto, proto_finish_reason_to_core,
    proto_role_to_core,
};
use llm_stream::types::{Duration, FinishReason, FunctionCall, GeneratedImage, Role, ToolCall, Usage};

#[test]
fn test_tool_call() {
    let tool_call = ToolCall {
        id: "call_123".to_string(),
        call_type: "function".to_string(),
        function: FunctionCall {
            name: "get_weather".to_string(),
            arguments: r#"{"location": "San Francisco"}"#.to_string(),
        },
    };

    assert_eq!(tool_call.id, "call_123");
    assert_eq!(tool_call.call_type, "function");
    assert_eq!(tool_call.function.name, "get_weather");
    assert_eq!(
        tool_call.function.arguments,
        r#"{"location": "San Francisco"}"#
    );
}

#[test]
fn test_usage_statistics() {
    let usage = Usage {
        prompt_tokens: 10,
        completion_tokens: 20,
        total_tokens: 30,
    };

    assert_eq!(usage.prompt_tokens, 10);
    assert_eq!(usage.completion_tokens, 20);
    assert_eq!(usage.total_tokens, 30);
}

#[test]
fn test_generated_image() {
    let image = GeneratedImage {
        url: Some("https://example.com/image.jpg".to_string()),
        b64_json: None,
        revised_prompt: Some("A beautiful sunset over mountains".to_string()),
    };

    assert_eq!(image.url, Some("https://example.com/image.jpg".to_string()));
    assert_eq!(image.b64_json, None);
    assert_eq!(
        image.revised_prompt,
        Some("A beautiful sunset over mountains".to_string())
    );
}

#[test]
fn test_openai_usage_conversion() {
    let openai_usage = OpenAIUsage {
        prompt_tokens: 10,
        completion_tokens: 20,
        total_tokens: 30,
    };

    let core_usage: Usage = openai_usage.into();
    assert_eq!(core_usage.prompt_tokens, 10);
    assert_eq!(core_usage.completion_tokens, 20);
    assert_eq!(core_usage.total_tokens, 30);
}

#[test]
fn test_usage_conversion() {
    let ollama_usage = OllamaUsage {
        prompt_tokens: 10,
        completion_tokens: 20,
        total_tokens: 30,
    };

    let core_usage = Usage::from(ollama_usage);
    assert_eq!(core_usage.prompt_tokens, 10);
    assert_eq!(core_usage.completion_tokens, 20);
    assert_eq!(core_usage.total_tokens, 30);
}

#[test]
fn test_extract_model_name() {
    assert_eq!(
        extract_model_name("model 'llama2' not found"),
        Some("llama2".to_string())
    );
    assert_eq!(
        extract_model_name("model \"codellama\" not loaded"),
        Some("codellama".to_string())
    );
    assert_eq!(extract_model_name("generic error"), None);
}

#[test]
fn model_name_needs_closing_quote() {
    assert_eq!(extract_model_name("model 'llama2"), None);
    assert_eq!(extract_model_name("the model '' is empty"), Some(String::new()));
}

#[test]
fn usage_totals() {
    let u = AnthropicUsage { input_tokens: 7, output_tokens: 5 }.to_usage().unwrap();
    assert_eq!(u.total_tokens, 12);
    assert_eq!(Usage::from_counts(u32::MAX, 1), None);
}

#[test]
fn tool_call_conversion() {
    let call = OpenAIToolCall {
        id: "c1".to_string(),
        call_type: "function".to_string(),
        function: OpenAIFunctionCall { name: "f".to_string(), arguments: "{}".to_string() },
    }
    .into_tool_call();
    assert_eq!(call.id, "c1");
    assert_eq!(call.function.arguments, "{}");
}

#[test]
fn role_names() {
    assert_eq!(Role::Assistant.as_str(), "assistant");
    assert_eq!(Role::try_from("tool"), Ok(Role::Tool));
    assert_eq!(Role::try_from("robot"), Err("Invalid role: robot".to_string()));
}

#[test]
fn rpc_codes() {
    assert_eq!(proto_role_to_core(3), Role::System);
    assert_eq!(proto_role_to_core(99), Role::User);
    assert_eq!(core_role_to_proto(&Role::Tool), 4);
    assert_eq!(proto_finish_reason_to_core(5), FinishReason::ContentFilter);
    assert_eq!(proto_finish_reason_to_core(0), FinishReason::Stop);
    assert_eq!(core_finish_reason_to_proto(&FinishReason::Error), 6);
}

#[test]
fn error_constructors() {
    assert_eq!(
        ConfigError::missing_field("model"),
        ConfigError::MissingField { field: "model".to_string() }
    );
    assert_eq!(
        RequestError::request_too_large(10, 5),
        RequestError::RequestTooLarge { size: 10, limit: 5 }
    );
    assert_eq!(
        ResponseError::unexpected_format("json", "text"),
        ResponseError::UnexpectedFormat { expected: "json".to_string(), actual: "text".to_string() }
    );
    assert_eq!(
        NetworkError::http_error(503, "down"),
        NetworkError::HttpError { status: 503, message: "down".to_string() }
    );
}

#[test]
fn generic_error_classification() {
    let limited: LlmError<OllamaError> = LlmError::Network(NetworkError::http_error(429, "slow down"));
    assert!(limited.is_rate_limited());
    assert!(limited.is_retryable());
    assert_eq!(limited.retry_after(), Some(Duration::from_secs(60)));
    assert_eq!(limited.error_code(), Some("network_error"));
    let auth: LlmError<OllamaError> = LlmError::Config(ConfigError::InvalidApiKey);
    assert!(auth.is_auth_error());
    assert!(auth.is_invalid_input());
    let gateway: LlmError<OllamaError> = LlmError::Network(NetworkError::http_error(502, "bad"));
    assert!(gateway.is_service_unavailable());
    assert!(!gateway.is_rate_limited());
    let provider: LlmError<OllamaError> = LlmError::Provider(OllamaError::service_unavailable("busy"));
    assert_eq!(provider.error_code(), Some("service_unavailable"));
    assert!(provider.is_retryable());
    assert_eq!(provider.retry_after(), Some(Duration::from_secs(2)));
}

#[test]
fn test_error_codes() {
    assert_eq!(
        OllamaError::ModelNotFound {
            model: "test".to_string()
        }
        .error_code(),
        Some("model_not_found")
    );
    assert_eq!(
        OllamaError::ServiceUnavailable {
            message: "test".to_string()
        }
        .error_code(),
        Some("service_unavailable")
    );
}

#[test]
fn test_retryable_errors() {
    assert!(
        OllamaError::ServiceUnavailable {
            message: "test".to_string()
        }
        .is_retryable()
    );
    assert!(
        OllamaError::ResourceExhausted {
            message: "test".to_string()
        }
        .is_retryable()
    );
    assert!(
        !OllamaError::ModelNotFound {
            model: "test".to_string()
        }
        .is_retryable()
    );
}

#[test]
fn test_from_response() {
    let error = OllamaError::from_response(404, "model not found");
    assert!(matches!(error, OllamaError::ModelNotFound { .. }));

    let error = OllamaError::from_response(500, "internal server error");
    assert!(matches!(error, OllamaError::ServiceUnavailable { .. }));
}

#[test]
fn error_bodies_decide_before_status() {
    assert_eq!(
        OllamaError::from_response(404, "{\"error\":\"model 'llama9' not found, try pulling it first\"}"),
        OllamaError::ModelNotFound { model: "llama9".to_string() }
    );
    assert_eq!(
        OllamaError::from_response(500, "{\"error\":\"out of memory\"}"),
        OllamaError::ResourceExhausted { message: "out of memory".to_string() }
    );
    assert_eq!(
        OllamaError::from_response(503, "busy"),
        OllamaError::ServiceUnavailable { message: "Server error: 503".to_string() }
    );
    assert_eq!(
        OllamaError::from_response(418, "teapot"),
        OllamaError::Other { message: "HTTP 418: teapot".to_string() }
    );
    assert_eq!(
        OllamaError::from_error_response(400, OllamaErrorResponse { error: "bad field".to_string() }),
        OllamaError::InvalidRequest { message: "bad field".to_string() }
    );
}
