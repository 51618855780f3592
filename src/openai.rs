//! Wire types of the plain SSE service.

use vstd::prelude::*;
use crate::error::{ConfigError, ProviderError};
use crate::json::{Json, get, get_str, json_parsed, member, parse_json, str_member};
use crate::text::{decimal, decimal_text, same_text};
use crate::types::{Duration, FunctionCall, ToolCall, Usage};

verus! {

/// A tool call as this service spells it.
#[derive(Debug, Clone, PartialEq, Eq)]
pub struct OpenAIToolCall {
    pub id: String,
    pub call_type: String,
    pub function: OpenAIFunctionCall,
}

/// A function call as this service spells it.
#[derive(Debug, Clone, PartialEq, Eq)]
pub struct OpenAIFunctionCall {
    pub name: String,
    pub arguments: String,
}

impl OpenAIToolCall {
    /// The provider-independent tool call, field for field.
    pub fn into_tool_call(self) -> (r: ToolCall)
        ensures
            r == (ToolCall {
                id: self.id,
                call_type: self.call_type,
                function: FunctionCall { name: self.function.name, arguments: self.function.arguments },
            }),
    {
        ToolCall {
            id: self.id,
            call_type: self.call_type,
            function: FunctionCall { name: self.function.name, arguments: self.function.arguments },
        }
    }
}

/// Token counts as this service reports them.
#[derive(Debug, Clone, Copy, PartialEq, Eq, Structural)]
pub struct OpenAIUsage {
    pub prompt_tokens: u32,
    pub completion_tokens: u32,
    pub total_tokens: u32,
}

impl From<OpenAIUsage> for Usage {
    fn from(u: OpenAIUsage) -> (r: Usage) {
        Usage {
            prompt_tokens: u.prompt_tokens,
            completion_tokens: u.completion_tokens,
            total_tokens: u.total_tokens,
        }
    }
}

impl vstd::std_specs::convert::FromSpecImpl<OpenAIUsage> for Usage {
    open spec fn obeys_from_spec() -> bool {
        true
    }

    open spec fn from_spec(u: OpenAIUsage) -> Usage {
        Usage {
            prompt_tokens: u.prompt_tokens,
            completion_tokens: u.completion_tokens,
            total_tokens: u.total_tokens,
        }
    }
}

/// Token counts of an embeddings request.
#[derive(Debug, Clone, Copy, PartialEq, Eq, Structural)]
pub struct OpenAIEmbeddingsUsage {
    pub prompt_tokens: u32,
    pub total_tokens: u32,
}

/// One chunk of a streamed response.
#[derive(Debug, Clone, PartialEq, Eq)]
pub struct OpenAIStreamChunk {
    pub id: String,
    pub object: String,
    pub created: u64,
    pub model: String,
    pub choices: Vec<OpenAIStreamChoice>,
}

/// One choice of a streamed chunk.
#[derive(Debug, Clone, PartialEq, Eq)]
pub struct OpenAIStreamChoice {
    pub index: u32,
    pub delta: OpenAIStreamDelta,
    pub finish_reason: Option<String>,
}

/// What a streamed choice adds.
#[derive(Debug, Clone, PartialEq, Eq)]
pub struct OpenAIStreamDelta {
    pub role: Option<String>,
    pub content: Option<String>,
    pub tool_calls: Option<Vec<OpenAIStreamToolCall>>,
}

/// A fragment of a tool call in a stream.
#[derive(Debug, Clone, PartialEq, Eq)]
pub struct OpenAIStreamToolCall {
    pub index: u32,
    pub id: Option<String>,
    pub call_type: Option<String>,
    pub function: Option<OpenAIStreamFunction>,
}

/// A fragment of a function call in a stream.
#[derive(Debug, Clone, PartialEq, Eq)]
pub struct OpenAIStreamFunction {
    pub name: Option<String>,
    pub arguments: Option<String>,
}

/// An error body of the service.
#[derive(Debug, Clone, PartialEq, Eq)]
pub struct OpenAIErrorResponse {
    pub error: OpenAIErrorDetail,
}

/// The detail of an error body.
#[derive(Debug, Clone, PartialEq, Eq)]
pub struct OpenAIErrorDetail {
    pub message: String,
    pub error_type: Option<String>,
    pub param: Option<String>,
    pub code: Option<String>,
}


/// Errors of the plain SSE service.
#[derive(Debug, Clone, PartialEq, Eq)]
pub enum OpenAIError {
    Authentication { message: String },
    RateLimit { retry_after: Option<Duration> },
    InvalidRequest { message: String },
    ServiceUnavailable { message: String },
    ContentFiltered { message: String },
    ModelNotFound { model: String },
    InsufficientQuota { message: String },
    /// The transport failed; the flags say whether it timed out or could not connect.
    Network { message: String, timeout: bool, connect: bool },
    /// A body could not be read as JSON.
    Json { message: String },
    Config { source: ConfigError },
    Other { message: String },
}

impl ProviderError for OpenAIError {
    open spec fn code_spec(&self) -> Option<Seq<char>> {
        Some(
            match self {
                OpenAIError::Authentication { .. } => "authentication_failed"@,
                OpenAIError::RateLimit { .. } => "rate_limit_exceeded"@,
                OpenAIError::InvalidRequest { .. } => "invalid_request"@,
                OpenAIError::ServiceUnavailable { .. } => "service_unavailable"@,
                OpenAIError::ContentFiltered { .. } => "content_filtered"@,
                OpenAIError::ModelNotFound { .. } => "model_not_found"@,
                OpenAIError::InsufficientQuota { .. } => "insufficient_quota"@,
                OpenAIError::Network { .. } => "network_error"@,
                OpenAIError::Json { .. } => "json_error"@,
                OpenAIError::Config { .. } => "config_error"@,
                OpenAIError::Other { .. } => "other_error"@,
            },
        )
    }

    open spec fn retryable_spec(&self) -> bool {
        match self {
            OpenAIError::RateLimit { .. } => true,
            OpenAIError::ServiceUnavailable { .. } => true,
            OpenAIError::Network { timeout, connect, .. } => *timeout || *connect,
            _ => false,
        }
    }

    open spec fn rate_limited_spec(&self) -> bool {
        self is RateLimit
    }

    open spec fn auth_error_spec(&self) -> bool {
        self is Authentication || self is InsufficientQuota
    }

    open spec fn retry_after_spec(&self) -> Option<Duration> {
        match self {
            OpenAIError::RateLimit { retry_after } => *retry_after,
            _ => None,
        }
    }

    open spec fn invalid_input_spec(&self) -> bool {
        self is InvalidRequest || self is ModelNotFound
    }

    open spec fn service_unavailable_spec(&self) -> bool {
        self is ServiceUnavailable
    }

    open spec fn content_filtered_spec(&self) -> bool {
        self is ContentFiltered
    }

    fn error_code(&self) -> (r: Option<&str>) {
        Some(
            match self {
                OpenAIError::Authentication { .. } => "authentication_failed",
                OpenAIError::RateLimit { .. } => "rate_limit_exceeded",
                OpenAIError::InvalidRequest { .. } => "invalid_request",
                OpenAIError::ServiceUnavailable { .. } => "service_unavailable",
                OpenAIError::ContentFiltered { .. } => "content_filtered",
                OpenAIError::ModelNotFound { .. } => "model_not_found",
                OpenAIError::InsufficientQuota { .. } => "insufficient_quota",
                OpenAIError::Network { .. } => "network_error",
                OpenAIError::Json { .. } => "json_error",
                OpenAIError::Config { .. } => "config_error",
                OpenAIError::Other { .. } => "other_error",
            },
        )
    }

    fn is_retryable(&self) -> (r: bool) {
        match self {
            OpenAIError::RateLimit { .. } => true,
            OpenAIError::ServiceUnavailable { .. } => true,
            OpenAIError::Network { timeout, connect, .. } => *timeout || *connect,
            _ => false,
        }
    }

    fn is_rate_limited(&self) -> (r: bool) {
        matches!(self, OpenAIError::RateLimit { .. })
    }

    fn is_auth_error(&self) -> (r: bool) {
        match self {
            OpenAIError::Authentication { .. } => true,
            OpenAIError::InsufficientQuota { .. } => true,
            _ => false,
        }
    }

    fn retry_after(&self) -> (r: Option<Duration>) {
        match self {
            OpenAIError::RateLimit { retry_after } => *retry_after,
            _ => None,
        }
    }

    fn is_invalid_input(&self) -> (r: bool) {
        match self {
            OpenAIError::InvalidRequest { .. } => true,
            OpenAIError::ModelNotFound { .. } => true,
            _ => false,
        }
    }

    fn is_service_unavailable(&self) -> (r: bool) {
        matches!(self, OpenAIError::ServiceUnavailable { .. })
    }

    fn is_content_filtered(&self) -> (r: bool) {
        matches!(self, OpenAIError::ContentFiltered { .. })
    }
}

/// Whether `r` is the error that an error body of optional type `t` with message `m`
/// stands for under HTTP `status`: the type decides where it is a known one, else the
/// status.
pub open spec fn is_error_for_body(r: OpenAIError, status: u16, t: Option<Seq<char>>, m: Seq<char>) -> bool {
    if t == Some("invalid_api_key"@) {
        r matches OpenAIError::Authentication { message } && message@ == m
    } else if t == Some("insufficient_quota"@) {
        r matches OpenAIError::InsufficientQuota { message } && message@ == m
    } else if t == Some("model_not_found"@) {
        r matches OpenAIError::ModelNotFound { model } && model@ == m
    } else if t == Some("rate_limit_exceeded"@) {
        r == OpenAIError::RateLimit { retry_after: None }
    } else if t == Some("content_filter"@) {
        r matches OpenAIError::ContentFiltered { message } && message@ == m
    } else if status == 400 {
        r matches OpenAIError::InvalidRequest { message } && message@ == m
    } else if status == 401 || status == 403 {
        r matches OpenAIError::Authentication { message } && message@ == m
    } else if status == 429 {
        r == OpenAIError::RateLimit { retry_after: None }
    } else if 500 <= status <= 599 {
        r matches OpenAIError::ServiceUnavailable { message } && message@ == m
    } else {
        r matches OpenAIError::Other { message } && message@ == m
    }
}

/// Whether `r` is the error for an HTTP `status` whose body `b` is no error object.
pub open spec fn is_error_for_status(r: OpenAIError, status: u16, b: Seq<char>) -> bool {
    if status == 401 {
        r matches OpenAIError::Authentication { message } && message@ == "Invalid API key"@
    } else if status == 403 {
        r matches OpenAIError::Authentication { message } && message@ == "Forbidden"@
    } else if status == 429 {
        r == OpenAIError::RateLimit { retry_after: None }
    } else if status == 400 {
        r matches OpenAIError::InvalidRequest { message } && message@ == b
    } else if status == 404 {
        r matches OpenAIError::InvalidRequest { message } && message@ == "Not found"@
    } else if 500 <= status <= 599 {
        r matches OpenAIError::ServiceUnavailable { message } && message@ == "Server error: "@
            + decimal_text(status as i64)
    } else {
        r matches OpenAIError::Other { message } && message@ == "HTTP "@ + decimal_text(
            status as i64,
        ) + ": "@ + b
    }
}

/// An optional string member: `Some(None)` where it is absent or null, `Some(Some(s))`
/// where it is a string, `None` where it is anything else.
pub open spec fn optional_str_member(j: Json, key: Seq<char>) -> Option<Option<String>> {
    match member(j, key) {
        None => Some(None),
        Some(Json::Null) => Some(None),
        Some(Json::Str(s)) => Some(Some(s)),
        _ => None,
    }
}

/// The error object of a body: a JSON object whose `error` object holds a string
/// `message` and optional string `type`, `param` and `code` members.
pub open spec fn error_body(b: Seq<char>) -> Option<OpenAIErrorDetail> {
    match json_parsed(b) {
        Some(j) => match member(j, "error"@) {
            Some(e) => match (
                str_member(e, "message"@),
                optional_str_member(e, "type"@),
                optional_str_member(e, "param"@),
                optional_str_member(e, "code"@),
            ) {
                (Some(m), Some(t), Some(p), Some(c)) => Some(
                    OpenAIErrorDetail { message: m, error_type: t, param: p, code: c },
                ),
                _ => None,
            },
            None => None,
        },
        None => None,
    }
}

fn read_optional_str(j: &Json, key: &str) -> (r: Option<Option<String>>)
    ensures
        r == optional_str_member(*j, key@),
{
    match get(j, key) {
        None => Some(None),
        Some(Json::Null) => Some(None),
        Some(Json::Str(s)) => Some(Some(s.clone())),
        _ => None,
    }
}

/// The optional type of an error as text.
pub open spec fn type_text(t: Option<String>) -> Option<Seq<char>> {
    match t {
        Some(s) => Some(s@),
        None => None,
    }
}

fn type_is(t: &Option<String>, name: &str) -> (r: bool)
    ensures
        r == (type_text(*t) == Some(name@)),
{
    match t {
        Some(s) => same_text(s.as_str(), name),
        None => false,
    }
}

impl OpenAIError {
    /// The error an error body stands for under HTTP `status`.
    pub fn from_error_response(status: u16, response: OpenAIErrorResponse) -> (r: OpenAIError)
        ensures
            is_error_for_body(r, status, type_text(response.error.error_type), response.error.message@),
    {
        let t = response.error.error_type;
        let message = response.error.message;
        if type_is(&t, "invalid_api_key") {
            OpenAIError::Authentication { message }
        } else if type_is(&t, "insufficient_quota") {
            OpenAIError::InsufficientQuota { message }
        } else if type_is(&t, "model_not_found") {
            OpenAIError::ModelNotFound { model: message }
        } else if type_is(&t, "rate_limit_exceeded") {
            OpenAIError::RateLimit { retry_after: None }
        } else if type_is(&t, "content_filter") {
            OpenAIError::ContentFiltered { message }
        } else if status == 400 {
            OpenAIError::InvalidRequest { message }
        } else if status == 401 || status == 403 {
            OpenAIError::Authentication { message }
        } else if status == 429 {
            OpenAIError::RateLimit { retry_after: None }
        } else if 500 <= status && status <= 599 {
            OpenAIError::ServiceUnavailable { message }
        } else {
            OpenAIError::Other { message }
        }
    }

    fn read_error_body(body: &str) -> (r: Option<OpenAIErrorResponse>)
        ensures
            match error_body(body@) {
                Some(d) => r == Some(OpenAIErrorResponse { error: d }),
                None => r is None,
            },
    {
        let parsed = parse_json(body);
        match &parsed {
            Some(j) => match get(j, "error") {
                Some(e) => match (
                    get_str(e, "message"),
                    read_optional_str(e, "type"),
                    read_optional_str(e, "param"),
                    read_optional_str(e, "code"),
                ) {
                    (Some(m), Some(t), Some(p), Some(c)) => Some(
                        OpenAIErrorResponse {
                            error: OpenAIErrorDetail {
                                message: m.clone(),
                                error_type: t,
                                param: p,
                                code: c,
                            },
                        },
                    ),
                    _ => None,
                },
                None => None,
            },
            None => None,
        }
    }

    /// The error an HTTP response with `status` and `body` stands for: an error object
    /// in the body decides where there is one, else the status.
    pub fn from_response(status: u16, body: &str) -> (r: OpenAIError)
        ensures
            match error_body(body@) {
                Some(d) => is_error_for_body(r, status, type_text(d.error_type), d.message@),
                None => is_error_for_status(r, status, body@),
            },
    {
        match OpenAIError::read_error_body(body) {
            Some(response) => OpenAIError::from_error_response(status, response),
            None => {
                if status == 401 {
                    OpenAIError::Authentication { message: "Invalid API key".to_string() }
                } else if status == 403 {
                    OpenAIError::Authentication { message: "Forbidden".to_string() }
                } else if status == 429 {
                    OpenAIError::RateLimit { retry_after: None }
                } else if status == 400 {
                    OpenAIError::InvalidRequest { message: body.to_string() }
                } else if status == 404 {
                    OpenAIError::InvalidRequest { message: "Not found".to_string() }
                } else if 500 <= status && status <= 599 {
                    let mut message = "Server error: ".to_string();
                    message.append(decimal(status as i64).as_str());
                    OpenAIError::ServiceUnavailable { message }
                } else {
                    let mut message = "HTTP ".to_string();
                    message.append(decimal(status as i64).as_str());
                    message.append(": ");
                    message.append(body);
                    OpenAIError::Other { message }
                }
            },
        }
    }
}

} // verus!
