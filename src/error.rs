//! Errors common to every provider.

use vstd::prelude::*;
use crate::types::Duration;

verus! {

/// What a provider's error type tells a caller who handles errors generically.
pub trait ProviderError {
    /// The error code, where there is one.
    spec fn code_spec(&self) -> Option<Seq<char>>;

    /// Whether the failed operation may be retried.
    spec fn retryable_spec(&self) -> bool;

    /// Whether the error comes from rate limiting.
    spec fn rate_limited_spec(&self) -> bool;

    /// Whether the error comes from invalid or missing credentials.
    spec fn auth_error_spec(&self) -> bool;

    /// How long to wait before retrying, where the provider says.
    spec fn retry_after_spec(&self) -> Option<Duration>;

    /// Whether the request was invalid.
    spec fn invalid_input_spec(&self) -> bool;

    /// Whether the service was unavailable.
    spec fn service_unavailable_spec(&self) -> bool;

    /// Whether content was filtered.
    spec fn content_filtered_spec(&self) -> bool;

    /// The error code, where there is one.
    fn error_code(&self) -> (r: Option<&str>)
        ensures
            match r {
                Some(c) => self.code_spec() == Some(c@),
                None => self.code_spec() is None,
            };

    /// Whether the failed operation may be retried.
    fn is_retryable(&self) -> (r: bool)
        ensures
            r == self.retryable_spec();

    /// Whether the error comes from rate limiting.
    fn is_rate_limited(&self) -> (r: bool)
        ensures
            r == self.rate_limited_spec();

    /// Whether the error comes from invalid or missing credentials.
    fn is_auth_error(&self) -> (r: bool)
        ensures
            r == self.auth_error_spec();

    /// How long to wait before retrying, where the provider says.
    fn retry_after(&self) -> (r: Option<Duration>)
        ensures
            r == self.retry_after_spec();

    /// Whether the request was invalid.
    fn is_invalid_input(&self) -> (r: bool)
        ensures
            r == self.invalid_input_spec();

    /// Whether the service was unavailable.
    fn is_service_unavailable(&self) -> (r: bool)
        ensures
            r == self.service_unavailable_spec();

    /// Whether content was filtered.
    fn is_content_filtered(&self) -> (r: bool)
        ensures
            r == self.content_filtered_spec();
}

/// Configuration errors.
#[derive(Debug, Clone, PartialEq, Eq)]
pub enum ConfigError {
    /// A required setting is missing.
    MissingField { field: String },
    /// A setting has an invalid value.
    InvalidValue { field: String, message: String },
    /// A URL is malformed.
    InvalidUrl { url: String },
    /// An API key is malformed.
    InvalidApiKey,
    /// Validation of the whole configuration failed.
    ValidationFailed { message: String },
}

/// Request errors.
#[derive(Debug, Clone, PartialEq, Eq)]
pub enum RequestError {
    InvalidRequest { message: String },
    RequestTooLarge { size: usize, limit: usize },
    UnsupportedFeature { feature: String },
    InvalidMessage { message: String },
    InvalidTool { message: String },
}

/// Response errors.
#[derive(Debug, Clone, PartialEq, Eq)]
pub enum ResponseError {
    ParseError { message: String },
    UnexpectedFormat { expected: String, actual: String },
    MissingField { field: String },
    InvalidData { message: String },
}

/// Network errors.
#[derive(Debug, Clone, PartialEq, Eq)]
pub enum NetworkError {
    HttpError { status: u16, message: String },
    Timeout { timeout: Duration },
    ConnectionFailed { message: String },
    DnsError { host: String },
    TlsError { message: String },
}

/// An error of any kind, around a provider's own error type `E`.
pub enum LlmError<E> {
    Provider(E),
    Config(ConfigError),
    Request(RequestError),
    Response(ResponseError),
    Network(NetworkError),
    Memory { message: String },
    ToolExecution { message: String },
    Other { message: String },
}

/// The HTTP status of a network error, where it is one.
pub open spec fn http_status<E>(e: LlmError<E>) -> Option<u16> {
    match e {
        LlmError::Network(NetworkError::HttpError { status, .. }) => Some(status),
        _ => None,
    }
}

impl<E: ProviderError> ProviderError for LlmError<E> {
    open spec fn code_spec(&self) -> Option<Seq<char>> {
        match self {
            LlmError::Provider(e) => e.code_spec(),
            LlmError::Config(_) => Some("config_error"@),
            LlmError::Request(_) => Some("request_error"@),
            LlmError::Response(_) => Some("response_error"@),
            LlmError::Network(_) => Some("network_error"@),
            LlmError::Memory { .. } => Some("memory_error"@),
            LlmError::ToolExecution { .. } => Some("tool_error"@),
            LlmError::Other { .. } => Some("other_error"@),
        }
    }

    open spec fn retryable_spec(&self) -> bool {
        match self {
            LlmError::Provider(e) => e.retryable_spec(),
            LlmError::Network(NetworkError::Timeout { .. }) => true,
            LlmError::Network(NetworkError::ConnectionFailed { .. }) => true,
            LlmError::Network(NetworkError::HttpError { status, .. }) => status >= 500 || status
                == 429 || status == 408,
            _ => false,
        }
    }

    open spec fn rate_limited_spec(&self) -> bool {
        match self {
            LlmError::Provider(e) => e.rate_limited_spec(),
            _ => http_status(*self) == Some(429u16),
        }
    }

    open spec fn auth_error_spec(&self) -> bool {
        match self {
            LlmError::Provider(e) => e.auth_error_spec(),
            LlmError::Config(ConfigError::InvalidApiKey) => true,
            _ => http_status(*self) == Some(401u16) || http_status(*self) == Some(403u16),
        }
    }

    open spec fn retry_after_spec(&self) -> Option<Duration> {
        match self {
            LlmError::Provider(e) => e.retry_after_spec(),
            _ => if http_status(*self) == Some(429u16) {
                Some(Duration { secs: 60, nanos: 0 })
            } else {
                None
            },
        }
    }

    open spec fn invalid_input_spec(&self) -> bool {
        match self {
            LlmError::Provider(e) => e.invalid_input_spec(),
            LlmError::Request(_) => true,
            LlmError::Config(_) => true,
            _ => http_status(*self) == Some(400u16),
        }
    }

    open spec fn service_unavailable_spec(&self) -> bool {
        match self {
            LlmError::Provider(e) => e.service_unavailable_spec(),
            LlmError::Network(NetworkError::ConnectionFailed { .. }) => true,
            _ => http_status(*self) == Some(503u16) || http_status(*self) == Some(502u16)
                || http_status(*self) == Some(504u16),
        }
    }

    open spec fn content_filtered_spec(&self) -> bool {
        match self {
            LlmError::Provider(e) => e.content_filtered_spec(),
            _ => false,
        }
    }

    fn error_code(&self) -> (r: Option<&str>) {
        match self {
            LlmError::Provider(e) => e.error_code(),
            LlmError::Config(_) => Some("config_error"),
            LlmError::Request(_) => Some("request_error"),
            LlmError::Response(_) => Some("response_error"),
            LlmError::Network(_) => Some("network_error"),
            LlmError::Memory { .. } => Some("memory_error"),
            LlmError::ToolExecution { .. } => Some("tool_error"),
            LlmError::Other { .. } => Some("other_error"),
        }
    }

    fn is_retryable(&self) -> (r: bool) {
        match self {
            LlmError::Provider(e) => e.is_retryable(),
            LlmError::Network(NetworkError::Timeout { .. }) => true,
            LlmError::Network(NetworkError::ConnectionFailed { .. }) => true,
            LlmError::Network(NetworkError::HttpError { status, .. }) => *status >= 500 || *status
                == 429 || *status == 408,
            _ => false,
        }
    }

    fn is_rate_limited(&self) -> (r: bool) {
        match self {
            LlmError::Provider(e) => e.is_rate_limited(),
            LlmError::Network(NetworkError::HttpError { status, .. }) => *status == 429,
            _ => false,
        }
    }

    fn is_auth_error(&self) -> (r: bool) {
        match self {
            LlmError::Provider(e) => e.is_auth_error(),
            LlmError::Config(ConfigError::InvalidApiKey) => true,
            LlmError::Network(NetworkError::HttpError { status, .. }) => *status == 401 || *status
                == 403,
            _ => false,
        }
    }

    fn retry_after(&self) -> (r: Option<Duration>) {
        match self {
            LlmError::Provider(e) => e.retry_after(),
            LlmError::Network(NetworkError::HttpError { status, .. }) => if *status == 429 {
                Some(Duration::from_secs(60))
            } else {
                None
            },
            _ => None,
        }
    }

    fn is_invalid_input(&self) -> (r: bool) {
        match self {
            LlmError::Provider(e) => e.is_invalid_input(),
            LlmError::Request(_) => true,
            LlmError::Config(_) => true,
            LlmError::Network(NetworkError::HttpError { status, .. }) => *status == 400,
            _ => false,
        }
    }

    fn is_service_unavailable(&self) -> (r: bool) {
        match self {
            LlmError::Provider(e) => e.is_service_unavailable(),
            LlmError::Network(NetworkError::HttpError { status, .. }) => *status == 503 || *status
                == 502 || *status == 504,
            LlmError::Network(NetworkError::ConnectionFailed { .. }) => true,
            _ => false,
        }
    }

    fn is_content_filtered(&self) -> (r: bool) {
        match self {
            LlmError::Provider(e) => e.is_content_filtered(),
            _ => false,
        }
    }
}

impl ConfigError {
    /// A missing-setting error for `field`.
    pub fn missing_field(field: &str) -> (r: ConfigError)
        ensures
            r matches ConfigError::MissingField { field: f } && f@ == field@,
    {
        ConfigError::MissingField { field: field.to_string() }
    }

    /// An invalid-value error for `field`, with `message`.
    pub fn invalid_value(field: &str, message: &str) -> (r: ConfigError)
        ensures
            r matches ConfigError::InvalidValue { field: f, message: m } && f@ == field@ && m@
                == message@,
    {
        ConfigError::InvalidValue { field: field.to_string(), message: message.to_string() }
    }

    /// An invalid-URL error for `url`.
    pub fn invalid_url(url: &str) -> (r: ConfigError)
        ensures
            r matches ConfigError::InvalidUrl { url: u } && u@ == url@,
    {
        ConfigError::InvalidUrl { url: url.to_string() }
    }

    /// A failed-validation error with `message`.
    pub fn validation_failed(message: &str) -> (r: ConfigError)
        ensures
            r matches ConfigError::ValidationFailed { message: m } && m@ == message@,
    {
        ConfigError::ValidationFailed { message: message.to_string() }
    }
}

impl RequestError {
    /// An invalid-request error with `message`.
    pub fn invalid_request(message: &str) -> (r: RequestError)
        ensures
            r matches RequestError::InvalidRequest { message: m } && m@ == message@,
    {
        RequestError::InvalidRequest { message: message.to_string() }
    }

    /// A request of `size` bytes over the `limit`.
    pub fn request_too_large(size: usize, limit: usize) -> (r: RequestError)
        ensures
            r == (RequestError::RequestTooLarge { size, limit }),
    {
        RequestError::RequestTooLarge { size, limit }
    }

    /// An unsupported-feature error naming `feature`.
    pub fn unsupported_feature(feature: &str) -> (r: RequestError)
        ensures
            r matches RequestError::UnsupportedFeature { feature: f } && f@ == feature@,
    {
        RequestError::UnsupportedFeature { feature: feature.to_string() }
    }

    /// An invalid-message error with `message`.
    pub fn invalid_message(message: &str) -> (r: RequestError)
        ensures
            r matches RequestError::InvalidMessage { message: m } && m@ == message@,
    {
        RequestError::InvalidMessage { message: message.to_string() }
    }

    /// An invalid-tool error with `message`.
    pub fn invalid_tool(message: &str) -> (r: RequestError)
        ensures
            r matches RequestError::InvalidTool { message: m } && m@ == message@,
    {
        RequestError::InvalidTool { message: message.to_string() }
    }
}

impl ResponseError {
    /// A parse error with `message`.
    pub fn parse_error(message: &str) -> (r: ResponseError)
        ensures
            r matches ResponseError::ParseError { message: m } && m@ == message@,
    {
        ResponseError::ParseError { message: message.to_string() }
    }

    /// A response of format `actual` where `expected` was expected.
    pub fn unexpected_format(expected: &str, actual: &str) -> (r: ResponseError)
        ensures
            r matches ResponseError::UnexpectedFormat { expected: e, actual: a } && e@ == expected@
                && a@ == actual@,
    {
        ResponseError::UnexpectedFormat { expected: expected.to_string(), actual: actual.to_string() }
    }

    /// A missing-field error for `field`.
    pub fn missing_field(field: &str) -> (r: ResponseError)
        ensures
            r matches ResponseError::MissingField { field: f } && f@ == field@,
    {
        ResponseError::MissingField { field: field.to_string() }
    }

    /// An invalid-data error with `message`.
    pub fn invalid_data(message: &str) -> (r: ResponseError)
        ensures
            r matches ResponseError::InvalidData { message: m } && m@ == message@,
    {
        ResponseError::InvalidData { message: message.to_string() }
    }
}

impl NetworkError {
    /// An HTTP failure with `status` and `message`.
    pub fn http_error(status: u16, message: &str) -> (r: NetworkError)
        ensures
            r matches NetworkError::HttpError { status: s, message: m } && s == status && m@
                == message@,
    {
        NetworkError::HttpError { status, message: message.to_string() }
    }

    /// A timeout after `timeout`.
    pub fn timeout(timeout: Duration) -> (r: NetworkError)
        ensures
            r == (NetworkError::Timeout { timeout }),
    {
        NetworkError::Timeout { timeout }
    }

    /// A failed connection, with `message`.
    pub fn connection_failed(message: &str) -> (r: NetworkError)
        ensures
            r matches NetworkError::ConnectionFailed { message: m } && m@ == message@,
    {
        NetworkError::ConnectionFailed { message: message.to_string() }
    }

    /// A failed name lookup of `host`.
    pub fn dns_error(host: &str) -> (r: NetworkError)
        ensures
            r matches NetworkError::DnsError { host: h } && h@ == host@,
    {
        NetworkError::DnsError { host: host.to_string() }
    }

    /// A TLS failure, with `message`.
    pub fn tls_error(message: &str) -> (r: NetworkError)
        ensures
            r matches NetworkError::TlsError { message: m } && m@ == message@,
    {
        NetworkError::TlsError { message: message.to_string() }
    }
}

} // verus!
