//! Errors of the RPC transport and their classification.

use vstd::prelude::*;
use crate::error::ProviderError;
use crate::types::Duration;

verus! {

/// The status codes of the RPC protocol.
#[derive(Debug, Clone, Copy, PartialEq, Eq, Structural)]
pub enum Code {
    /// The call succeeded; its name on the wire is `ok`.
    Success,
    Cancelled,
    Unknown,
    InvalidArgument,
    DeadlineExceeded,
    NotFound,
    AlreadyExists,
    PermissionDenied,
    ResourceExhausted,
    FailedPrecondition,
    Aborted,
    OutOfRange,
    Unimplemented,
    Internal,
    Unavailable,
    DataLoss,
    Unauthenticated,
}

/// An RPC status: a code and a message.
#[derive(Debug, Clone, PartialEq, Eq)]
pub struct Status {
    pub code: Code,
    pub message: String,
}

/// Errors of the RPC transport.
#[derive(Debug, Clone, PartialEq, Eq)]
pub enum GrpcError {
    /// The transport failed, with its description.
    Transport(String),
    /// The service answered with an error status.
    Status(Status),
    /// A value could not be serialized, with the reason.
    Serialization(String),
    InvalidConfig(String),
    Connection(String),
    Timeout,
    InvalidResponse(String),
    Stream(String),
    Authentication(String),
    RateLimit,
    ServiceUnavailable,
    Other(String),
}

/// The lower-case name of a status code.
pub open spec fn code_name(code: Code) -> Seq<char> {
    match code {
        Code::Success => "ok"@,
        Code::Cancelled => "cancelled"@,
        Code::Unknown => "unknown"@,
        Code::InvalidArgument => "invalid_argument"@,
        Code::DeadlineExceeded => "deadline_exceeded"@,
        Code::NotFound => "not_found"@,
        Code::AlreadyExists => "already_exists"@,
        Code::PermissionDenied => "permission_denied"@,
        Code::ResourceExhausted => "resource_exhausted"@,
        Code::FailedPrecondition => "failed_precondition"@,
        Code::Aborted => "aborted"@,
        Code::OutOfRange => "out_of_range"@,
        Code::Unimplemented => "unimplemented"@,
        Code::Internal => "internal"@,
        Code::Unavailable => "unavailable"@,
        Code::DataLoss => "data_loss"@,
        Code::Unauthenticated => "unauthenticated"@,
    }
}

fn code_str(code: Code) -> (r: &'static str)
    ensures
        r@ == code_name(code),
{
    match code {
        Code::Success => "ok",
        Code::Cancelled => "cancelled",
        Code::Unknown => "unknown",
        Code::InvalidArgument => "invalid_argument",
        Code::DeadlineExceeded => "deadline_exceeded",
        Code::NotFound => "not_found",
        Code::AlreadyExists => "already_exists",
        Code::PermissionDenied => "permission_denied",
        Code::ResourceExhausted => "resource_exhausted",
        Code::FailedPrecondition => "failed_precondition",
        Code::Aborted => "aborted",
        Code::OutOfRange => "out_of_range",
        Code::Unimplemented => "unimplemented",
        Code::Internal => "internal",
        Code::Unavailable => "unavailable",
        Code::DataLoss => "data_loss",
        Code::Unauthenticated => "unauthenticated",
    }
}

impl ProviderError for GrpcError {
    open spec fn code_spec(&self) -> Option<Seq<char>> {
        Some(
            match self {
                GrpcError::Transport(_) => "transport_error"@,
                GrpcError::Status(s) => code_name(s.code),
                GrpcError::Serialization(_) => "serialization_error"@,
                GrpcError::InvalidConfig(_) => "invalid_config"@,
                GrpcError::Connection(_) => "connection_error"@,
                GrpcError::Timeout => "timeout"@,
                GrpcError::InvalidResponse(_) => "invalid_response"@,
                GrpcError::Stream(_) => "stream_error"@,
                GrpcError::Authentication(_) => "authentication_error"@,
                GrpcError::RateLimit => "rate_limit"@,
                GrpcError::ServiceUnavailable => "service_unavailable"@,
                GrpcError::Other(_) => "other"@,
            },
        )
    }

    open spec fn retryable_spec(&self) -> bool {
        match self {
            GrpcError::Transport(_) => true,
            GrpcError::Status(s) => s.code == Code::Unavailable || s.code == Code::DeadlineExceeded
                || s.code == Code::ResourceExhausted || s.code == Code::Internal,
            GrpcError::Connection(_) => true,
            GrpcError::Timeout => true,
            GrpcError::RateLimit => true,
            GrpcError::ServiceUnavailable => true,
            _ => false,
        }
    }

    open spec fn rate_limited_spec(&self) -> bool {
        match self {
            GrpcError::RateLimit => true,
            GrpcError::Status(s) => s.code == Code::ResourceExhausted,
            _ => false,
        }
    }

    open spec fn auth_error_spec(&self) -> bool {
        match self {
            GrpcError::Authentication(_) => true,
            GrpcError::Status(s) => s.code == Code::Unauthenticated || s.code
                == Code::PermissionDenied,
            _ => false,
        }
    }

    open spec fn retry_after_spec(&self) -> Option<Duration> {
        match self {
            GrpcError::RateLimit => Some(Duration { secs: 60, nanos: 0 }),
            GrpcError::Status(s) => if s.code == Code::ResourceExhausted {
                Some(Duration { secs: 30, nanos: 0 })
            } else {
                None
            },
            _ => None,
        }
    }

    open spec fn invalid_input_spec(&self) -> bool {
        match self {
            GrpcError::InvalidConfig(_) => true,
            GrpcError::Serialization(_) => true,
            GrpcError::Status(s) => s.code == Code::InvalidArgument || s.code == Code::OutOfRange,
            _ => false,
        }
    }

    open spec fn service_unavailable_spec(&self) -> bool {
        match self {
            GrpcError::ServiceUnavailable => true,
            GrpcError::Connection(_) => true,
            GrpcError::Status(s) => s.code == Code::Unavailable,
            _ => false,
        }
    }

    open spec fn content_filtered_spec(&self) -> bool {
        false
    }

    fn error_code(&self) -> (r: Option<&str>) {
        Some(
            match self {
                GrpcError::Transport(_) => "transport_error",
                GrpcError::Status(s) => code_str(s.code),
                GrpcError::Serialization(_) => "serialization_error",
                GrpcError::InvalidConfig(_) => "invalid_config",
                GrpcError::Connection(_) => "connection_error",
                GrpcError::Timeout => "timeout",
                GrpcError::InvalidResponse(_) => "invalid_response",
                GrpcError::Stream(_) => "stream_error",
                GrpcError::Authentication(_) => "authentication_error",
                GrpcError::RateLimit => "rate_limit",
                GrpcError::ServiceUnavailable => "service_unavailable",
                GrpcError::Other(_) => "other",
            },
        )
    }

    fn is_retryable(&self) -> (r: bool) {
        match self {
            GrpcError::Transport(_) => true,
            GrpcError::Status(s) => match s.code {
                Code::Unavailable => true,
                Code::DeadlineExceeded => true,
                Code::ResourceExhausted => true,
                Code::Internal => true,
                _ => false,
            },
            GrpcError::Connection(_) => true,
            GrpcError::Timeout => true,
            GrpcError::RateLimit => true,
            GrpcError::ServiceUnavailable => true,
            _ => false,
        }
    }

    fn is_rate_limited(&self) -> (r: bool) {
        match self {
            GrpcError::RateLimit => true,
            GrpcError::Status(s) => s.code == Code::ResourceExhausted,
            _ => false,
        }
    }

    fn is_auth_error(&self) -> (r: bool) {
        match self {
            GrpcError::Authentication(_) => true,
            GrpcError::Status(s) => s.code == Code::Unauthenticated || s.code
                == Code::PermissionDenied,
            _ => false,
        }
    }

    fn retry_after(&self) -> (r: Option<Duration>) {
        match self {
            GrpcError::RateLimit => Some(Duration::from_secs(60)),
            GrpcError::Status(s) => if s.code == Code::ResourceExhausted {
                Some(Duration::from_secs(30))
            } else {
                None
            },
            _ => None,
        }
    }

    fn is_invalid_input(&self) -> (r: bool) {
        match self {
            GrpcError::InvalidConfig(_) => true,
            GrpcError::Serialization(_) => true,
            GrpcError::Status(s) => s.code == Code::InvalidArgument || s.code == Code::OutOfRange,
            _ => false,
        }
    }

    fn is_service_unavailable(&self) -> (r: bool) {
        match self {
            GrpcError::ServiceUnavailable => true,
            GrpcError::Connection(_) => true,
            GrpcError::Status(s) => s.code == Code::Unavailable,
            _ => false,
        }
    }

    fn is_content_filtered(&self) -> (r: bool) {
        false
    }
}

/// The text of an error, as it is shown to people.
pub open spec fn error_text(e: GrpcError) -> Seq<char> {
    match e {
        GrpcError::Transport(m) => "gRPC transport error: "@ + m@,
        GrpcError::Status(s) => "gRPC status error: "@ + s.message@,
        GrpcError::Serialization(m) => "Serialization error: "@ + m@,
        GrpcError::InvalidConfig(m) => "Invalid configuration: "@ + m@,
        GrpcError::Connection(m) => "Connection error: "@ + m@,
        GrpcError::Timeout => "Request timeout"@,
        GrpcError::InvalidResponse(m) => "Invalid response format: "@ + m@,
        GrpcError::Stream(m) => "Stream error: "@ + m@,
        GrpcError::Authentication(m) => "Authentication error: "@ + m@,
        GrpcError::RateLimit => "Rate limit exceeded"@,
        GrpcError::ServiceUnavailable => "Service unavailable"@,
        GrpcError::Other(m) => m@,
    }
}

/// The status code an error is reported with.
pub open spec fn status_code_of(e: GrpcError) -> Code {
    match e {
        GrpcError::Transport(_) => Code::Unavailable,
        GrpcError::Status(s) => s.code,
        GrpcError::Serialization(_) => Code::InvalidArgument,
        GrpcError::InvalidConfig(_) => Code::InvalidArgument,
        GrpcError::Connection(_) => Code::Unavailable,
        GrpcError::Timeout => Code::DeadlineExceeded,
        GrpcError::InvalidResponse(_) => Code::Internal,
        GrpcError::Stream(_) => Code::Internal,
        GrpcError::Authentication(_) => Code::Unauthenticated,
        GrpcError::RateLimit => Code::ResourceExhausted,
        GrpcError::ServiceUnavailable => Code::Unavailable,
        GrpcError::Other(_) => Code::Internal,
    }
}

fn prefixed(prefix: &str, m: &String) -> (r: String)
    ensures
        r@ == prefix@ + m@,
{
    let mut t = prefix.to_string();
    t.append(m.as_str());
    t
}

impl GrpcError {
    /// The text of the error, as it is shown to people.
    pub fn message(&self) -> (r: String)
        ensures
            r@ == error_text(*self),
    {
        match self {
            GrpcError::Transport(m) => prefixed("gRPC transport error: ", m),
            GrpcError::Status(s) => prefixed("gRPC status error: ", &s.message),
            GrpcError::Serialization(m) => prefixed("Serialization error: ", m),
            GrpcError::InvalidConfig(m) => prefixed("Invalid configuration: ", m),
            GrpcError::Connection(m) => prefixed("Connection error: ", m),
            GrpcError::Timeout => "Request timeout".to_string(),
            GrpcError::InvalidResponse(m) => prefixed("Invalid response format: ", m),
            GrpcError::Stream(m) => prefixed("Stream error: ", m),
            GrpcError::Authentication(m) => prefixed("Authentication error: ", m),
            GrpcError::RateLimit => "Rate limit exceeded".to_string(),
            GrpcError::ServiceUnavailable => "Service unavailable".to_string(),
            GrpcError::Other(m) => m.clone(),
        }
    }

    /// The status the error is reported with: an error status as it is, any other
    /// error with the code for its kind and its text as the message.
    pub fn into_status(self) -> (r: Status)
        ensures
            self matches GrpcError::Status(s) ==> r == s,
            !(self is Status) ==> r.code == status_code_of(self) && r.message@ == error_text(self),
    {
        match self {
            GrpcError::Status(s) => s,
            _ => {
                let message = self.message();
                let code = match self {
                    GrpcError::Transport(_) => Code::Unavailable,
                    GrpcError::Serialization(_) => Code::InvalidArgument,
                    GrpcError::InvalidConfig(_) => Code::InvalidArgument,
                    GrpcError::Connection(_) => Code::Unavailable,
                    GrpcError::Timeout => Code::DeadlineExceeded,
                    GrpcError::InvalidResponse(_) => Code::Internal,
                    GrpcError::Stream(_) => Code::Internal,
                    GrpcError::Authentication(_) => Code::Unauthenticated,
                    GrpcError::RateLimit => Code::ResourceExhausted,
                    GrpcError::ServiceUnavailable => Code::Unavailable,
                    _ => Code::Internal,
                };
                Status { code, message }
            },
        }
    }
}

} // verus!
