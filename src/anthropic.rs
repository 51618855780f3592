//! Wire types of the typed SSE service.

use vstd::prelude::*;
use crate::error::{ConfigError, ProviderError};
use crate::json::{get, get_str, json_parsed, member, parse_json, str_member};
use crate::text::{decimal, decimal_text, same_text};
use crate::types::{Duration, Usage, usage_of};

verus! {

/// An image given inline.
#[derive(Debug, Clone, PartialEq, Eq)]
pub struct AnthropicImageSource {
    /// How the data is encoded, e.g. `base64`.
    pub source_type: String,
    /// The image's media type, e.g. `image/png`.
    pub media_type: String,
    /// The encoded image.
    pub data: String,
}

/// Which tools the model may call.
#[derive(Debug, Clone, PartialEq, Eq)]
pub enum AnthropicToolChoice {
    Auto,
    Any,
    Tool { name: String },
}

/// Token counts as this service reports them.
#[derive(Debug, Clone, Copy, PartialEq, Eq, Structural)]
pub struct AnthropicUsage {
    pub input_tokens: u32,
    pub output_tokens: u32,
}

impl AnthropicUsage {
    /// The provider-independent record: input tokens are the prompt, output tokens the
    /// completion; `None` where their sum does not fit in a `u32`.
    pub fn to_usage(&self) -> (r: Option<Usage>)
        ensures
            r == usage_of(self.input_tokens, self.output_tokens),
    {
        Usage::from_counts(self.input_tokens, self.output_tokens)
    }
}

/// An incremental piece of a content block.
#[derive(Debug, Clone, PartialEq, Eq)]
pub enum AnthropicContentDelta {
    TextDelta { text: String },
    InputJsonDelta { partial_json: String },
}

/// The changes a `message_delta` event reports.
#[derive(Debug, Clone, PartialEq, Eq)]
pub struct AnthropicMessageDelta {
    pub stop_reason: Option<String>,
    pub stop_sequence: Option<String>,
}

/// An error body of the service.
#[derive(Debug, Clone, PartialEq, Eq)]
pub struct AnthropicErrorResponse {
    pub response_type: String,
    pub error: AnthropicErrorDetail,
}

/// The detail of an error body.
#[derive(Debug, Clone, PartialEq, Eq)]
pub struct AnthropicErrorDetail {
    pub error_type: String,
    pub message: String,
}


/// Errors of the typed SSE service.
#[derive(Debug, Clone, PartialEq, Eq)]
pub enum AnthropicError {
    Authentication { message: String },
    RateLimit { retry_after: Option<Duration> },
    InvalidRequest { message: String },
    ServiceUnavailable { message: String },
    ContentFiltered { message: String },
    ModelNotFound { model: String },
    InsufficientQuota { message: String },
    RequestTooLarge { message: String },
    /// The transport failed; the flags say whether it timed out or could not connect.
    Network { message: String, timeout: bool, connect: bool },
    /// A body could not be read as JSON.
    Json { message: String },
    Config { source: ConfigError },
    Other { message: String },
}

impl ProviderError for AnthropicError {
    open spec fn code_spec(&self) -> Option<Seq<char>> {
        Some(
            match self {
                AnthropicError::Authentication { .. } => "authentication_failed"@,
                AnthropicError::RateLimit { .. } => "rate_limit_exceeded"@,
                AnthropicError::InvalidRequest { .. } => "invalid_request"@,
                AnthropicError::ServiceUnavailable { .. } => "service_unavailable"@,
                AnthropicError::ContentFiltered { .. } => "content_filtered"@,
                AnthropicError::ModelNotFound { .. } => "model_not_found"@,
                AnthropicError::InsufficientQuota { .. } => "insufficient_quota"@,
                AnthropicError::RequestTooLarge { .. } => "request_too_large"@,
                AnthropicError::Network { .. } => "network_error"@,
                AnthropicError::Json { .. } => "json_error"@,
                AnthropicError::Config { .. } => "config_error"@,
                AnthropicError::Other { .. } => "other_error"@,
            },
        )
    }

    open spec fn retryable_spec(&self) -> bool {
        match self {
            AnthropicError::RateLimit { .. } => true,
            AnthropicError::ServiceUnavailable { .. } => true,
            AnthropicError::Network { timeout, connect, .. } => *timeout || *connect,
            _ => false,
        }
    }

    open spec fn rate_limited_spec(&self) -> bool {
        self is RateLimit
    }

    open spec fn auth_error_spec(&self) -> bool {
        self is Authentication || self is InsufficientQuota
    }

    open spec fn retry_after_spec(&self) -> Option<Duration> {
        match self {
            AnthropicError::RateLimit { retry_after } => *retry_after,
            _ => None,
        }
    }

    open spec fn invalid_input_spec(&self) -> bool {
        self is InvalidRequest || self is ModelNotFound || self is RequestTooLarge
    }

    open spec fn service_unavailable_spec(&self) -> bool {
        self is ServiceUnavailable
    }

    open spec fn content_filtered_spec(&self) -> bool {
        self is ContentFiltered
    }

    fn error_code(&self) -> (r: Option<&str>) {
        Some(
            match self {
                AnthropicError::Authentication { .. } => "authentication_failed",
                AnthropicError::RateLimit { .. } => "rate_limit_exceeded",
                AnthropicError::InvalidRequest { .. } => "invalid_request",
                AnthropicError::ServiceUnavailable { .. } => "service_unavailable",
                AnthropicError::ContentFiltered { .. } => "content_filtered",
                AnthropicError::ModelNotFound { .. } => "model_not_found",
                AnthropicError::InsufficientQuota { .. } => "insufficient_quota",
                AnthropicError::RequestTooLarge { .. } => "request_too_large",
                AnthropicError::Network { .. } => "network_error",
                AnthropicError::Json { .. } => "json_error",
                AnthropicError::Config { .. } => "config_error",
                AnthropicError::Other { .. } => "other_error",
            },
        )
    }

    fn is_retryable(&self) -> (r: bool) {
        match self {
            AnthropicError::RateLimit { .. } => true,
            AnthropicError::ServiceUnavailable { .. } => true,
            AnthropicError::Network { timeout, connect, .. } => *timeout || *connect,
            _ => false,
        }
    }

    fn is_rate_limited(&self) -> (r: bool) {
        matches!(self, AnthropicError::RateLimit { .. })
    }

    fn is_auth_error(&self) -> (r: bool) {
        match self {
            AnthropicError::Authentication { .. } => true,
            AnthropicError::InsufficientQuota { .. } => true,
            _ => false,
        }
    }

    fn retry_after(&self) -> (r: Option<Duration>) {
        match self {
            AnthropicError::RateLimit { retry_after } => *retry_after,
            _ => None,
        }
    }

    fn is_invalid_input(&self) -> (r: bool) {
        match self {
            AnthropicError::InvalidRequest { .. } => true,
            AnthropicError::ModelNotFound { .. } => true,
            AnthropicError::RequestTooLarge { .. } => true,
            _ => false,
        }
    }

    fn is_service_unavailable(&self) -> (r: bool) {
        matches!(self, AnthropicError::ServiceUnavailable { .. })
    }

    fn is_content_filtered(&self) -> (r: bool) {
        matches!(self, AnthropicError::ContentFiltered { .. })
    }
}

/// Whether `r` is the error that an error body of type `t` with message `m` stands for
/// under HTTP `status`: the type decides where it is a known one, else the status.
pub open spec fn is_error_for_body(r: AnthropicError, status: u16, t: Seq<char>, m: Seq<char>) -> bool {
    if t == "authentication_error"@ || t == "permission_error"@ {
        r matches AnthropicError::Authentication { message } && message@ == m
    } else if t == "not_found_error"@ {
        r matches AnthropicError::ModelNotFound { model } && model@ == m
    } else if t == "rate_limit_error"@ {
        r == AnthropicError::RateLimit { retry_after: None }
    } else if t == "api_error"@ || t == "overloaded_error"@ {
        r matches AnthropicError::ServiceUnavailable { message } && message@ == m
    } else if t == "invalid_request_error"@ {
        r matches AnthropicError::InvalidRequest { message } && message@ == m
    } else if status == 400 {
        r matches AnthropicError::InvalidRequest { message } && message@ == m
    } else if status == 401 || status == 403 {
        r matches AnthropicError::Authentication { message } && message@ == m
    } else if status == 404 {
        r matches AnthropicError::ModelNotFound { model } && model@ == m
    } else if status == 413 {
        r matches AnthropicError::RequestTooLarge { message } && message@ == m
    } else if status == 429 {
        r == AnthropicError::RateLimit { retry_after: None }
    } else if 500 <= status <= 599 {
        r matches AnthropicError::ServiceUnavailable { message } && message@ == m
    } else {
        r matches AnthropicError::Other { message } && message@ == m
    }
}

/// Whether `r` is the error for an HTTP `status` whose body `b` is no error object.
pub open spec fn is_error_for_status(r: AnthropicError, status: u16, b: Seq<char>) -> bool {
    if status == 401 {
        r matches AnthropicError::Authentication { message } && message@ == "Invalid API key"@
    } else if status == 403 {
        r matches AnthropicError::Authentication { message } && message@ == "Forbidden"@
    } else if status == 429 {
        r == AnthropicError::RateLimit { retry_after: None }
    } else if status == 400 {
        r matches AnthropicError::InvalidRequest { message } && message@ == b
    } else if status == 404 {
        r matches AnthropicError::InvalidRequest { message } && message@ == "Not found"@
    } else if status == 413 {
        r matches AnthropicError::RequestTooLarge { message } && message@
            == "Request entity too large"@
    } else if 500 <= status <= 599 {
        r matches AnthropicError::ServiceUnavailable { message } && message@ == "Server error: "@
            + decimal_text(status as i64)
    } else {
        r matches AnthropicError::Other { message } && message@ == "HTTP "@ + decimal_text(
            status as i64,
        ) + ": "@ + b
    }
}

/// The error object of a body: a JSON object with a string `type` and an `error`
/// object holding string `type` and `message` members.
pub open spec fn error_body(b: Seq<char>) -> Option<(String, String, String)> {
    match json_parsed(b) {
        Some(j) => match (str_member(j, "type"@), member(j, "error"@)) {
            (Some(rt), Some(e)) => match (str_member(e, "type"@), str_member(e, "message"@)) {
                (Some(t), Some(m)) => Some((rt, t, m)),
                _ => None,
            },
            _ => None,
        },
        None => None,
    }
}

impl AnthropicError {
    /// The error an error body stands for under HTTP `status`.
    pub fn from_error_response(status: u16, response: AnthropicErrorResponse) -> (r: AnthropicError)
        ensures
            is_error_for_body(r, status, response.error.error_type@, response.error.message@),
    {
        let t = response.error.error_type.as_str();
        let message = response.error.message;
        if same_text(t, "authentication_error") || same_text(t, "permission_error") {
            AnthropicError::Authentication { message }
        } else if same_text(t, "not_found_error") {
            AnthropicError::ModelNotFound { model: message }
        } else if same_text(t, "rate_limit_error") {
            AnthropicError::RateLimit { retry_after: None }
        } else if same_text(t, "api_error") || same_text(t, "overloaded_error") {
            AnthropicError::ServiceUnavailable { message }
        } else if same_text(t, "invalid_request_error") {
            AnthropicError::InvalidRequest { message }
        } else if status == 400 {
            AnthropicError::InvalidRequest { message }
        } else if status == 401 || status == 403 {
            AnthropicError::Authentication { message }
        } else if status == 404 {
            AnthropicError::ModelNotFound { model: message }
        } else if status == 413 {
            AnthropicError::RequestTooLarge { message }
        } else if status == 429 {
            AnthropicError::RateLimit { retry_after: None }
        } else if 500 <= status && status <= 599 {
            AnthropicError::ServiceUnavailable { message }
        } else {
            AnthropicError::Other { message }
        }
    }

    fn read_error_body(body: &str) -> (r: Option<AnthropicErrorResponse>)
        ensures
            match error_body(body@) {
                Some((rt, t, m)) => r matches Some(e) && e.response_type == rt && e.error.error_type
                    == t && e.error.message == m,
                None => r is None,
            },
    {
        let parsed = parse_json(body);
        match &parsed {
            Some(j) => match (get_str(j, "type"), get(j, "error")) {
                (Some(rt), Some(e)) => match (get_str(e, "type"), get_str(e, "message")) {
                    (Some(t), Some(m)) => Some(
                        AnthropicErrorResponse {
                            response_type: rt.clone(),
                            error: AnthropicErrorDetail { error_type: t.clone(), message: m.clone() },
                        },
                    ),
                    _ => None,
                },
                _ => None,
            },
            None => None,
        }
    }

    /// The error an HTTP response with `status` and `body` stands for: an error object
    /// in the body decides where there is one, else the status.
    pub fn from_response(status: u16, body: &str) -> (r: AnthropicError)
        ensures
            match error_body(body@) {
                Some((_, t, m)) => is_error_for_body(r, status, t@, m@),
                None => is_error_for_status(r, status, body@),
            },
    {
        match AnthropicError::read_error_body(body) {
            Some(response) => AnthropicError::from_error_response(status, response),
            None => {
                if status == 401 {
                    AnthropicError::Authentication { message: "Invalid API key".to_string() }
                } else if status == 403 {
                    AnthropicError::Authentication { message: "Forbidden".to_string() }
                } else if status == 429 {
                    AnthropicError::RateLimit { retry_after: None }
                } else if status == 400 {
                    AnthropicError::InvalidRequest { message: body.to_string() }
                } else if status == 404 {
                    AnthropicError::InvalidRequest { message: "Not found".to_string() }
                } else if status == 413 {
                    AnthropicError::RequestTooLarge { message: "Request entity too large".to_string() }
                } else if 500 <= status && status <= 599 {
                    let mut message = "Server error: ".to_string();
                    message.append(decimal(status as i64).as_str());
                    AnthropicError::ServiceUnavailable { message }
                } else {
                    let mut message = "HTTP ".to_string();
                    message.append(decimal(status as i64).as_str());
                    message.append(": ");
                    message.append(body);
                    AnthropicError::Other { message }
                }
            },
        }
    }
}

} // verus!
