//! Configuration of the RPC transport's client.

use vstd::prelude::*;
use crate::config::ParsedUrl;
use crate::error::ConfigError;
use crate::text::same_text;
use crate::types::Duration;

verus! {

/// Settings of a client of the RPC transport.
#[derive(Debug, Clone, PartialEq, Eq)]
pub struct GrpcConfig {
    pub endpoint: ParsedUrl,
    pub auth_token: Option<String>,
    pub timeout: Option<Duration>,
    pub max_request_size: Option<usize>,
    pub max_response_size: Option<usize>,
    pub use_tls: bool,
    pub tls_domain: Option<String>,
    pub connect_timeout: Option<Duration>,
    pub keep_alive_interval: Option<Duration>,
    pub keep_alive_timeout: Option<Duration>,
    pub keep_alive_while_idle: bool,
    pub max_concurrent_requests: Option<usize>,
    pub user_agent: Option<String>,
}

/// Whether an optional span is present and zero.
pub open spec fn zero_span(d: Option<Duration>) -> bool {
    d matches Some(x) && x.secs == 0 && x.nanos == 0
}

/// Whether an optional size is present and zero.
pub open spec fn zero_size(n: Option<usize>) -> bool {
    n == Some(0usize)
}

/// The first setting of `c` that fails, with the reason, checked in this order: the
/// endpoint's scheme is `http` or `https`; with TLS it is `https`; the timeouts and the
/// size and concurrency limits, where set, are not zero.
pub open spec fn first_problem(c: GrpcConfig) -> Option<(Seq<char>, Seq<char>)> {
    let scheme = c.endpoint@.1;
    if scheme != "http"@ && scheme != "https"@ {
        Some(("endpoint"@, "Endpoint must use http or https scheme"@))
    } else if c.use_tls && scheme != "https"@ {
        Some(("endpoint"@, "TLS is enabled but endpoint scheme is not https"@))
    } else if zero_span(c.timeout) {
        Some(("timeout"@, "Timeout must be greater than zero"@))
    } else if zero_span(c.connect_timeout) {
        Some(("connect_timeout"@, "Connect timeout must be greater than zero"@))
    } else if zero_size(c.max_request_size) {
        Some(("max_request_size"@, "Max request size must be greater than zero"@))
    } else if zero_size(c.max_response_size) {
        Some(("max_response_size"@, "Max response size must be greater than zero"@))
    } else if zero_size(c.max_concurrent_requests) {
        Some(("max_concurrent_requests"@, "Max concurrent requests must be greater than zero"@))
    } else {
        None
    }
}

fn is_zero_span(d: Option<Duration>) -> (r: bool)
    ensures
        r == zero_span(d),
{
    match d {
        Some(x) => x.is_zero(),
        None => false,
    }
}

fn is_zero_size(n: Option<usize>) -> (r: bool)
    ensures
        r == zero_size(n),
{
    match n {
        Some(x) => x == 0,
        None => false,
    }
}

impl Default for GrpcConfig {
    fn default() -> (r: GrpcConfig)
        ensures
            r.endpoint@ == ("http://localhost:50051/"@, "http"@),
            r.has_default_limits(),
            r.user_agent matches Some(a) && a@ == "ferrous-llm-grpc/0.2.0"@,
    {
        GrpcConfig {
            endpoint: ParsedUrl::from_parts("http://localhost:50051/", "http"),
            auth_token: None,
            timeout: Some(Duration::from_secs(30)),
            max_request_size: Some(4 * 1024 * 1024),
            max_response_size: Some(4 * 1024 * 1024),
            use_tls: false,
            tls_domain: None,
            connect_timeout: Some(Duration::from_secs(10)),
            keep_alive_interval: Some(Duration::from_secs(30)),
            keep_alive_timeout: Some(Duration::from_secs(5)),
            keep_alive_while_idle: true,
            max_concurrent_requests: Some(100),
            user_agent: Some("ferrous-llm-grpc/0.2.0".to_string()),
        }
    }
}

impl GrpcConfig {
    /// Whether the settings other than the endpoint and user agent are the defaults:
    /// 30 s timeout, 4 MiB size limits, no TLS, 10 s connect timeout, keep-alive pings
    /// every 30 s with a 5 s timeout also while idle, and 100 concurrent calls.
    pub open spec fn has_default_limits(&self) -> bool {
        &&& self.auth_token is None
        &&& self.timeout == Some(Duration { secs: 30, nanos: 0 })
        &&& self.max_request_size == Some(4194304usize)
        &&& self.max_response_size == Some(4194304usize)
        &&& !self.use_tls
        &&& self.tls_domain is None
        &&& self.connect_timeout == Some(Duration { secs: 10, nanos: 0 })
        &&& self.keep_alive_interval == Some(Duration { secs: 30, nanos: 0 })
        &&& self.keep_alive_timeout == Some(Duration { secs: 5, nanos: 0 })
        &&& self.keep_alive_while_idle
        &&& self.max_concurrent_requests == Some(100usize)
    }

    /// The default settings for `endpoint`.
    pub fn new(endpoint: ParsedUrl) -> (r: GrpcConfig)
        ensures
            r.endpoint == endpoint,
            r.has_default_limits(),
            r.user_agent matches Some(a) && a@ == "ferrous-llm-grpc/0.2.0"@,
            !r.use_tls,
            r.auth_token is None,
    {
        GrpcConfig { endpoint, ..GrpcConfig::default() }
    }

    /// Checks the settings; the first that fails gives an invalid-value error naming it.
    pub fn validate(&self) -> (r: Result<(), ConfigError>)
        ensures
            match first_problem(*self) {
                Some((field, message)) => r matches Err(ConfigError::InvalidValue { field: f, message: m })
                    && f@ == field && m@ == message,
                None => r is Ok,
            },
    {
        let scheme = self.endpoint.scheme();
        let http = same_text(scheme, "http");
        let https = same_text(scheme, "https");
        if !http && !https {
            return Err(ConfigError::invalid_value("endpoint", "Endpoint must use http or https scheme"));
        }
        if self.use_tls && !https {
            return Err(
                ConfigError::invalid_value("endpoint", "TLS is enabled but endpoint scheme is not https"),
            );
        }
        if is_zero_span(self.timeout) {
            return Err(ConfigError::invalid_value("timeout", "Timeout must be greater than zero"));
        }
        if is_zero_span(self.connect_timeout) {
            return Err(
                ConfigError::invalid_value("connect_timeout", "Connect timeout must be greater than zero"),
            );
        }
        if is_zero_size(self.max_request_size) {
            return Err(
                ConfigError::invalid_value(
                    "max_request_size",
                    "Max request size must be greater than zero",
                ),
            );
        }
        if is_zero_size(self.max_response_size) {
            return Err(
                ConfigError::invalid_value(
                    "max_response_size",
                    "Max response size must be greater than zero",
                ),
            );
        }
        if is_zero_size(self.max_concurrent_requests) {
            return Err(
                ConfigError::invalid_value(
                    "max_concurrent_requests",
                    "Max concurrent requests must be greater than zero",
                ),
            );
        }
        Ok(())
    }

    /// Sets the bearer token sent with each call.
    pub fn with_auth_token(self, token: String) -> (r: GrpcConfig)
        ensures
            r == (GrpcConfig { auth_token: Some(token), ..self }),
    {
        GrpcConfig { auth_token: Some(token), ..self }
    }

    /// Sets the call timeout.
    pub fn with_timeout(self, timeout: Duration) -> (r: GrpcConfig)
        ensures
            r == (GrpcConfig { timeout: Some(timeout), ..self }),
    {
        GrpcConfig { timeout: Some(timeout), ..self }
    }

    /// Turns TLS on, with the domain to verify.
    pub fn with_tls(self, domain: Option<String>) -> (r: GrpcConfig)
        ensures
            r == (GrpcConfig { use_tls: true, tls_domain: domain, ..self }),
    {
        GrpcConfig { use_tls: true, tls_domain: domain, ..self }
    }

    /// Sets the largest request.
    pub fn with_max_request_size(self, size: usize) -> (r: GrpcConfig)
        ensures
            r == (GrpcConfig { max_request_size: Some(size), ..self }),
    {
        GrpcConfig { max_request_size: Some(size), ..self }
    }

    /// Sets the largest response.
    pub fn with_max_response_size(self, size: usize) -> (r: GrpcConfig)
        ensures
            r == (GrpcConfig { max_response_size: Some(size), ..self }),
    {
        GrpcConfig { max_response_size: Some(size), ..self }
    }

    /// Sets the connect timeout.
    pub fn with_connect_timeout(self, timeout: Duration) -> (r: GrpcConfig)
        ensures
            r == (GrpcConfig { connect_timeout: Some(timeout), ..self }),
    {
        GrpcConfig { connect_timeout: Some(timeout), ..self }
    }

    /// Sets the keep-alive pings.
    pub fn with_keep_alive(self, interval: Duration, timeout: Duration, while_idle: bool) -> (r: GrpcConfig)
        ensures
            r == (GrpcConfig {
                keep_alive_interval: Some(interval),
                keep_alive_timeout: Some(timeout),
                keep_alive_while_idle: while_idle,
                ..self
            }),
    {
        GrpcConfig {
            keep_alive_interval: Some(interval),
            keep_alive_timeout: Some(timeout),
            keep_alive_while_idle: while_idle,
            ..self
        }
    }

    /// Sets the most concurrent calls.
    pub fn with_max_concurrent_requests(self, max: usize) -> (r: GrpcConfig)
        ensures
            r == (GrpcConfig { max_concurrent_requests: Some(max), ..self }),
    {
        GrpcConfig { max_concurrent_requests: Some(max), ..self }
    }

    /// Sets the user agent.
    pub fn with_user_agent(self, user_agent: String) -> (r: GrpcConfig)
        ensures
            r == (GrpcConfig { user_agent: Some(user_agent), ..self }),
    {
        GrpcConfig { user_agent: Some(user_agent), ..self }
    }
}

} // verus!
