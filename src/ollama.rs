//! Wire types of the NDJSON service, and reading a model name out of its error messages.

use vstd::prelude::*;
use crate::error::{ConfigError, ProviderError};
use crate::json::{get_str, json_parsed, parse_json, str_member};
use crate::text::{
    char_vec, contains_seq, contains_text, decimal, decimal_text, find_char_from, find_from,
    first_occurrence_from, lemma_first_occurrence,
};
use crate::types::{Duration, Usage};

verus! {

/// A chat message as this service spells it.
#[derive(Debug, Clone, PartialEq, Eq)]
pub struct OllamaMessage {
    pub role: String,
    pub content: String,
    /// Images, as base64 text.
    pub images: Option<Vec<String>>,
}

/// A complete chat response.
#[derive(Debug, Clone, PartialEq, Eq)]
pub struct OllamaChatResponse {
    pub model: String,
    pub created_at: String,
    pub message: OllamaMessage,
    pub done: bool,
    pub total_duration: Option<u64>,
    pub load_duration: Option<u64>,
    pub prompt_eval_count: Option<u32>,
    pub prompt_eval_duration: Option<u64>,
    pub eval_count: Option<u32>,
    pub eval_duration: Option<u64>,
}

/// A complete generate (completion) response.
#[derive(Debug, Clone, PartialEq, Eq)]
pub struct OllamaCompletionResponse {
    pub model: String,
    pub created_at: String,
    pub response: String,
    pub done: bool,
    pub context: Option<Vec<u32>>,
    pub total_duration: Option<u64>,
    pub load_duration: Option<u64>,
    pub prompt_eval_count: Option<u32>,
    pub prompt_eval_duration: Option<u64>,
    pub eval_count: Option<u32>,
    pub eval_duration: Option<u64>,
}

/// One line of a streamed response.
#[derive(Debug, Clone, PartialEq, Eq)]
pub struct OllamaStreamChunk {
    pub model: String,
    pub created_at: String,
    pub message: Option<OllamaMessage>,
    pub response: Option<String>,
    pub done: bool,
    pub total_duration: Option<u64>,
    pub load_duration: Option<u64>,
    pub prompt_eval_count: Option<u32>,
    pub prompt_eval_duration: Option<u64>,
    pub eval_count: Option<u32>,
    pub eval_duration: Option<u64>,
}

/// Token counts of this service.
#[derive(Debug, Clone, Copy, PartialEq, Eq, Structural)]
pub struct OllamaUsage {
    pub prompt_tokens: u32,
    pub completion_tokens: u32,
    pub total_tokens: u32,
}

impl From<OllamaUsage> for Usage {
    fn from(u: OllamaUsage) -> (r: Usage) {
        Usage {
            prompt_tokens: u.prompt_tokens,
            completion_tokens: u.completion_tokens,
            total_tokens: u.total_tokens,
        }
    }
}

impl vstd::std_specs::convert::FromSpecImpl<OllamaUsage> for Usage {
    open spec fn obeys_from_spec() -> bool {
        true
    }

    open spec fn from_spec(u: OllamaUsage) -> Usage {
        Usage {
            prompt_tokens: u.prompt_tokens,
            completion_tokens: u.completion_tokens,
            total_tokens: u.total_tokens,
        }
    }
}

/// A choice, in the shape other services use.
#[derive(Debug, Clone, PartialEq, Eq)]
pub struct OllamaChoice {
    pub index: u32,
    pub message: OllamaMessage,
    pub finish_reason: Option<String>,
}

/// An error body of the service.
#[derive(Debug, Clone, PartialEq, Eq)]
pub struct OllamaErrorResponse {
    pub error: String,
}

/// The text between the first `opener` in `m` and the next `close` after it.
pub open spec fn quoted_after(m: Seq<char>, opener: Seq<char>, close: char) -> Option<Seq<char>> {
    match first_occurrence_from(m, opener, 0) {
        Some(i) => match first_occurrence_from(m, seq![close], i + opener.len()) {
            Some(e) => Some(m.subrange(i + opener.len(), e)),
            None => None,
        },
        None => None,
    }
}

/// The model an error message names: quoted in single quotes after `model '`, else in
/// double quotes after `model "`.
pub open spec fn model_name_in(m: Seq<char>) -> Option<Seq<char>> {
    match quoted_after(m, "model '"@, '\'') {
        Some(name) => Some(name),
        None => quoted_after(m, "model \""@, '"'),
    }
}

fn quoted(message: &str, cs: &Vec<char>, opener: &str, close: char) -> (r: Option<String>)
    requires
        cs@ == message@,
    ensures
        match r {
            Some(s) => quoted_after(message@, opener@, close) == Some(s@),
            None => quoted_after(message@, opener@, close) is None,
        },
{
    let op = char_vec(opener);
    proof {
        lemma_first_occurrence(cs@, op@, 0);
    }
    match find_from(cs, &op, 0) {
        Some(i) => {
            assert(crate::text::occurs_at(cs@, op@, i as int));
            let n = cs.len();
            assert(i + op.len() <= n);
            let start = i + op.len();
            proof {
                lemma_first_occurrence(cs@, seq![close], start as int);
            }
            match find_char_from(cs, close, start) {
                Some(end) => {
                    assert(crate::text::occurs_at(cs@, seq![close], end as int));
                    Some(message.substring_char(start, end).to_string())
                },
                None => None,
            }
        },
        None => None,
    }
}

/// The model an error message names, where it names one in quotes.
pub fn extract_model_name(message: &str) -> (r: Option<String>)
    ensures
        match r {
            Some(s) => model_name_in(message@) == Some(s@),
            None => model_name_in(message@) is None,
        },
{
    let cs = char_vec(message);
    match quoted(message, &cs, "model '", '\'') {
        Some(name) => Some(name),
        None => quoted(message, &cs, "model \"", '"'),
    }
}


/// Errors of the NDJSON service.
#[derive(Debug, Clone, PartialEq, Eq)]
pub enum OllamaError {
    ModelNotFound { model: String },
    ModelNotLoaded { model: String },
    InvalidRequest { message: String },
    ServiceUnavailable { message: String },
    ResourceExhausted { message: String },
    /// The transport failed; the flags say whether it timed out or could not connect.
    Network { message: String, timeout: bool, connect: bool },
    /// A body could not be read as JSON.
    Json { message: String },
    Config { source: ConfigError },
    Other { message: String },
}

impl ProviderError for OllamaError {
    open spec fn code_spec(&self) -> Option<Seq<char>> {
        Some(
            match self {
                OllamaError::ModelNotFound { .. } => "model_not_found"@,
                OllamaError::ModelNotLoaded { .. } => "model_not_loaded"@,
                OllamaError::InvalidRequest { .. } => "invalid_request"@,
                OllamaError::ServiceUnavailable { .. } => "service_unavailable"@,
                OllamaError::ResourceExhausted { .. } => "resource_exhausted"@,
                OllamaError::Network { .. } => "network_error"@,
                OllamaError::Json { .. } => "json_error"@,
                OllamaError::Config { .. } => "config_error"@,
                OllamaError::Other { .. } => "other_error"@,
            },
        )
    }

    open spec fn retryable_spec(&self) -> bool {
        match self {
            OllamaError::ServiceUnavailable { .. } => true,
            OllamaError::ResourceExhausted { .. } => true,
            OllamaError::Network { timeout, connect, .. } => *timeout || *connect,
            _ => false,
        }
    }

    open spec fn rate_limited_spec(&self) -> bool {
        self is ResourceExhausted
    }

    open spec fn auth_error_spec(&self) -> bool {
        false
    }

    open spec fn retry_after_spec(&self) -> Option<Duration> {
        match self {
            OllamaError::ResourceExhausted { .. } => Some(Duration { secs: 5, nanos: 0 }),
            OllamaError::ServiceUnavailable { .. } => Some(Duration { secs: 2, nanos: 0 }),
            _ => None,
        }
    }

    open spec fn invalid_input_spec(&self) -> bool {
        self is InvalidRequest || self is ModelNotFound || self is ModelNotLoaded
    }

    open spec fn service_unavailable_spec(&self) -> bool {
        self is ServiceUnavailable
    }

    open spec fn content_filtered_spec(&self) -> bool {
        false
    }

    fn error_code(&self) -> (r: Option<&str>) {
        Some(
            match self {
                OllamaError::ModelNotFound { .. } => "model_not_found",
                OllamaError::ModelNotLoaded { .. } => "model_not_loaded",
                OllamaError::InvalidRequest { .. } => "invalid_request",
                OllamaError::ServiceUnavailable { .. } => "service_unavailable",
                OllamaError::ResourceExhausted { .. } => "resource_exhausted",
                OllamaError::Network { .. } => "network_error",
                OllamaError::Json { .. } => "json_error",
                OllamaError::Config { .. } => "config_error",
                OllamaError::Other { .. } => "other_error",
            },
        )
    }

    fn is_retryable(&self) -> (r: bool) {
        match self {
            OllamaError::ServiceUnavailable { .. } => true,
            OllamaError::ResourceExhausted { .. } => true,
            OllamaError::Network { timeout, connect, .. } => *timeout || *connect,
            _ => false,
        }
    }

    fn is_rate_limited(&self) -> (r: bool) {
        matches!(self, OllamaError::ResourceExhausted { .. })
    }

    fn is_auth_error(&self) -> (r: bool) {
        false
    }

    fn retry_after(&self) -> (r: Option<Duration>) {
        match self {
            OllamaError::ResourceExhausted { .. } => Some(Duration::from_secs(5)),
            OllamaError::ServiceUnavailable { .. } => Some(Duration::from_secs(2)),
            _ => None,
        }
    }

    fn is_invalid_input(&self) -> (r: bool) {
        match self {
            OllamaError::InvalidRequest { .. } => true,
            OllamaError::ModelNotFound { .. } => true,
            OllamaError::ModelNotLoaded { .. } => true,
            _ => false,
        }
    }

    fn is_service_unavailable(&self) -> (r: bool) {
        matches!(self, OllamaError::ServiceUnavailable { .. })
    }

    fn is_content_filtered(&self) -> (r: bool) {
        false
    }
}

/// The model named in `m`, or `unknown`.
pub open spec fn model_or_unknown(m: Seq<char>) -> Seq<char> {
    match model_name_in(m) {
        Some(name) => name,
        None => "unknown"@,
    }
}

/// Whether `r` is the error that an error `message` with HTTP `status` stands for:
/// messages about a missing or unloaded model name it, messages about memory or
/// resources report exhaustion, and otherwise the status decides.
pub open spec fn is_error_for_message(r: OllamaError, status: u16, m: Seq<char>) -> bool {
    if contains_seq(m, "model"@) && contains_seq(m, "not found"@) {
        r matches OllamaError::ModelNotFound { model } && model@ == model_or_unknown(m)
    } else if contains_seq(m, "model"@) && contains_seq(m, "not loaded"@) {
        r matches OllamaError::ModelNotLoaded { model } && model@ == model_or_unknown(m)
    } else if contains_seq(m, "out of memory"@) || contains_seq(m, "resource"@) {
        r matches OllamaError::ResourceExhausted { message } && message@ == m
    } else if status == 400 {
        r matches OllamaError::InvalidRequest { message } && message@ == m
    } else if status == 404 {
        r matches OllamaError::ModelNotFound { model } && model@ == "unknown"@
    } else if 500 <= status <= 599 {
        r matches OllamaError::ServiceUnavailable { message } && message@ == m
    } else {
        r matches OllamaError::Other { message } && message@ == m
    }
}

/// Whether `r` is the error for an HTTP `status` whose body `b` is no error object.
pub open spec fn is_error_for_status(r: OllamaError, status: u16, b: Seq<char>) -> bool {
    if status == 400 {
        r matches OllamaError::InvalidRequest { message } && message@ == b
    } else if status == 404 {
        if contains_seq(b, "model"@) && contains_seq(b, "not found"@) {
            r matches OllamaError::ModelNotFound { model } && model@ == "unknown"@
        } else {
            r matches OllamaError::InvalidRequest { message } && message@ == "Not found"@
        }
    } else if 500 <= status <= 599 {
        r matches OllamaError::ServiceUnavailable { message } && message@ == "Server error: "@
            + decimal_text(status as i64)
    } else {
        r matches OllamaError::Other { message } && message@ == "HTTP "@ + decimal_text(
            status as i64,
        ) + ": "@ + b
    }
}

/// The message of an error body: the string member `error` of a JSON object.
pub open spec fn error_body_message(b: Seq<char>) -> Option<String> {
    match json_parsed(b) {
        Some(j) => str_member(j, "error"@),
        None => None,
    }
}

fn model_or_unknown_of(message: &str) -> (r: String)
    ensures
        r@ == model_or_unknown(message@),
{
    match extract_model_name(message) {
        Some(name) => name,
        None => "unknown".to_string(),
    }
}

impl OllamaError {
    /// The error an error response with HTTP `status` stands for.
    pub fn from_error_response(status: u16, response: OllamaErrorResponse) -> (r: OllamaError)
        ensures
            is_error_for_message(r, status, response.error@),
    {
        let message = response.error;
        let m = message.as_str();
        if contains_text(m, "model") && contains_text(m, "not found") {
            OllamaError::ModelNotFound { model: model_or_unknown_of(m) }
        } else if contains_text(m, "model") && contains_text(m, "not loaded") {
            OllamaError::ModelNotLoaded { model: model_or_unknown_of(m) }
        } else if contains_text(m, "out of memory") || contains_text(m, "resource") {
            OllamaError::ResourceExhausted { message }
        } else if status == 400 {
            OllamaError::InvalidRequest { message }
        } else if status == 404 {
            OllamaError::ModelNotFound { model: "unknown".to_string() }
        } else if 500 <= status && status <= 599 {
            OllamaError::ServiceUnavailable { message }
        } else {
            OllamaError::Other { message }
        }
    }

    /// The error an HTTP response with `status` and `body` stands for: an error object
    /// in the body decides where there is one, else the status.
    pub fn from_response(status: u16, body: &str) -> (r: OllamaError)
        ensures
            match error_body_message(body@) {
                Some(m) => is_error_for_message(r, status, m@),
                None => is_error_for_status(r, status, body@),
            },
    {
        let parsed = parse_json(body);
        let found = match &parsed {
            Some(j) => get_str(j, "error"),
            None => None,
        };
        match found {
            Some(m) => OllamaError::from_error_response(status, OllamaErrorResponse { error: m.clone() }),
            None => {
                if status == 400 {
                    OllamaError::InvalidRequest { message: body.to_string() }
                } else if status == 404 {
                    if contains_text(body, "model") && contains_text(body, "not found") {
                        OllamaError::ModelNotFound { model: "unknown".to_string() }
                    } else {
                        OllamaError::InvalidRequest { message: "Not found".to_string() }
                    }
                } else if 500 <= status && status <= 599 {
                    let mut message = "Server error: ".to_string();
                    message.append(decimal(status as i64).as_str());
                    OllamaError::ServiceUnavailable { message }
                } else {
                    let mut message = "HTTP ".to_string();
                    message.append(decimal(status as i64).as_str());
                    message.append(": ");
                    message.append(body);
                    OllamaError::Other { message }
                }
            },
        }
    }

    /// A missing-model error for `model`.
    pub fn model_not_found(model: &str) -> (r: OllamaError)
        ensures
            r matches OllamaError::ModelNotFound { model: m } && m@ == model@,
    {
        OllamaError::ModelNotFound { model: model.to_string() }
    }

    /// An unloaded-model error for `model`.
    pub fn model_not_loaded(model: &str) -> (r: OllamaError)
        ensures
            r matches OllamaError::ModelNotLoaded { model: m } && m@ == model@,
    {
        OllamaError::ModelNotLoaded { model: model.to_string() }
    }

    /// A service-unavailable error with `message`.
    pub fn service_unavailable(message: &str) -> (r: OllamaError)
        ensures
            r matches OllamaError::ServiceUnavailable { message: m } && m@ == message@,
    {
        OllamaError::ServiceUnavailable { message: message.to_string() }
    }
}

} // verus!
