//! Configuration values: secrets, validation of settings, and settings read from the
//! environment (the lookup itself happens outside; these take the value found).

use vstd::prelude::*;
use vstd::utf8::encode_utf8;
use crate::error::ConfigError;
use crate::text::{
    contains_seq, contains_text, contains_white_space, decimal, decimal_text, has_white_space,
    lower_of, lowercase, parse_u64, trim, trimmed, u64_parse,
};
use crate::types::Duration;

verus! {

/// A sensitive value such as an API key, kept out of debug output.
#[derive(Clone)]
pub struct SecretString(String);

impl View for SecretString {
    type V = Seq<char>;

    closed spec fn view(&self) -> Seq<char> {
        self.0@
    }
}

impl SecretString {
    /// Wraps `value`.
    pub fn new(value: &str) -> (r: SecretString)
        ensures
            r@ == value@,
    {
        SecretString(value.to_string())
    }

    /// Wraps `value`.
    pub fn from_string(value: String) -> (r: SecretString)
        ensures
            r@ == value@,
    {
        SecretString(value)
    }

    /// The secret itself; handle with care.
    pub fn expose_secret(&self) -> (r: &str)
        ensures
            r@ == self@,
    {
        self.0.as_str()
    }

    /// Whether the secret is empty.
    pub fn is_empty(&self) -> (r: bool)
        ensures
            r == (self@.len() == 0),
    {
        self.0.as_str().is_empty()
    }

    /// The length of the secret in bytes.
    pub fn len(&self) -> (r: usize)
        ensures
            r == encode_utf8(self@).len(),
    {
        self.0.as_str().as_bytes().len()
    }

    /// What debug output shows in place of the secret.
    pub fn redacted(&self) -> (r: String)
        ensures
            r@ == "[REDACTED]"@,
    {
        "[REDACTED]".to_string()
    }
}

/// Whether an API key passes `validate_api_key`.
pub open spec fn api_key_ok(key: Seq<char>) -> bool {
    key.len() != 0 && encode_utf8(key).len() >= 10 && !looks_like_placeholder(key)
}

/// Whether a model name passes `validate_model_name`.
pub open spec fn model_name_ok(model: Seq<char>) -> bool {
    trimmed(model).len() != 0 && !has_white_space(model) && encode_utf8(model).len() <= 100
}

/// Whether an optional base URL passes `validate_https_url`.
pub open spec fn https_ok(url: Option<ParsedUrl>) -> bool {
    match url {
        Some(u) => u@.1 == "https"@,
        None => true,
    }
}

/// The setting a configuration error names.
pub open spec fn error_field<T>(r: Result<T, ConfigError>) -> Option<Seq<char>> {
    match r {
        Err(ConfigError::MissingField { field }) => Some(field@),
        Err(ConfigError::InvalidValue { field, .. }) => Some(field@),
        _ => None,
    }
}

/// Whether `r` is the missing-setting error for `field`.
pub open spec fn is_missing(r: Result<(), ConfigError>, field: Seq<char>) -> bool {
    r matches Err(ConfigError::MissingField { field: f }) && f@ == field
}

/// Whether `r` is the invalid-value error for `field` with `message`.
pub open spec fn is_invalid(r: Result<(), ConfigError>, field: Seq<char>, message: Seq<char>) -> bool {
    r matches Err(ConfigError::InvalidValue { field: f, message: m }) && f@ == field && m@ == message
}

/// Checks that `value` holds more than white space.
pub fn validate_non_empty(value: &str, field_name: &str) -> (r: Result<(), ConfigError>)
    ensures
        trimmed(value@).len() == 0 ==> is_missing(r, field_name@),
        trimmed(value@).len() != 0 ==> r is Ok,
{
    if trim(value).is_empty() {
        Err(ConfigError::missing_field(field_name))
    } else {
        Ok(())
    }
}

/// Checks that a secret is not empty.
pub fn validate_secret_non_empty(value: &SecretString, field_name: &str) -> (r: Result<(), ConfigError>)
    ensures
        value@.len() == 0 ==> is_missing(r, field_name@),
        value@.len() != 0 ==> r is Ok,
{
    if value.is_empty() {
        Err(ConfigError::missing_field(field_name))
    } else {
        Ok(())
    }
}

/// The message for a value outside `min..=max`.
pub open spec fn range_message(value: i64, min: i64, max: i64) -> Seq<char> {
    "Value "@ + decimal_text(value) + " must be between "@ + decimal_text(min) + " and "@
        + decimal_text(max)
}

/// Whether `url::Url::parse` accepts a text as an absolute URL.
pub uninterp spec fn url_accepted(text: Seq<char>) -> bool;

/// The text of the URL that `url::Url::parse` makes of a text, as `Url::as_str` gives it.
pub uninterp spec fn url_text(text: Seq<char>) -> Seq<char>;

/// The scheme of the URL that `url::Url::parse` makes of a text, as `Url::scheme` gives it.
pub uninterp spec fn url_scheme(text: Seq<char>) -> Seq<char>;

/// A parsed absolute URL: its normalized text and its scheme.
#[derive(Debug, Clone, PartialEq, Eq)]
pub struct ParsedUrl {
    text: String,
    scheme: String,
}

impl View for ParsedUrl {
    type V = (Seq<char>, Seq<char>);

    closed spec fn view(&self) -> (Seq<char>, Seq<char>) {
        (self.text@, self.scheme@)
    }
}

impl ParsedUrl {
    /// A URL given by its normalized text and scheme, for constants known to be in that
    /// form.
    pub(crate) fn from_parts(text: &str, scheme: &str) -> (r: ParsedUrl)
        ensures
            r@ == (text@, scheme@),
    {
        ParsedUrl { text: text.to_string(), scheme: scheme.to_string() }
    }

    /// The URL's text.
    pub fn as_str(&self) -> (r: &str)
        ensures
            r@ == self@.0,
    {
        self.text.as_str()
    }

    /// The URL's scheme.
    pub fn scheme(&self) -> (r: &str)
        ensures
            r@ == self@.1,
    {
        self.scheme.as_str()
    }
}

/// Relies on `url::Url::parse`, `Url::as_str` and `Url::scheme`: whether a text parses,
/// and the text and scheme of the result, depend on the text alone.
#[verifier::external_body]
fn parse_url(text: &str) -> (r: Option<ParsedUrl>)
    ensures
        r is Some == url_accepted(text@),
        r matches Some(u) ==> u@ == (url_text(text@), url_scheme(text@)),
{
    url::Url::parse(text).ok().map(
        |u| ParsedUrl { text: u.as_str().to_string(), scheme: u.scheme().to_string() },
    )
}

/// Whether `url` is what parsing the text `t` gives.
pub open spec fn url_parsed_is(url: Option<ParsedUrl>, t: Seq<char>) -> bool {
    match url {
        Some(p) => p@ == (url_text(t), url_scheme(t)),
        None => false,
    }
}

/// Parses `url`; an invalid-value error for `field_name` naming it where it is no URL.
pub fn validate_url(url: &str, field_name: &str) -> (r: Result<ParsedUrl, ConfigError>)
    ensures
        url_accepted(url@) ==> (r matches Ok(u) && u@ == (url_text(url@), url_scheme(url@))),
        !url_accepted(url@) ==> (r matches Err(ConfigError::InvalidValue { field: f, message: m })
            && f@ == field_name@ && m@ == "Invalid URL: "@ + url@),
{
    match parse_url(url) {
        Some(u) => Ok(u),
        None => {
            let mut message = "Invalid URL: ".to_string();
            message.append(url);
            Err(ConfigError::invalid_value(field_name, message.as_str()))
        },
    }
}

/// Checks that a URL uses the `https` scheme.
pub fn validate_https_url(url: &ParsedUrl, field_name: &str) -> (r: Result<(), ConfigError>)
    ensures
        url@.1 == "https"@ ==> r is Ok,
        url@.1 != "https"@ ==> is_invalid(r, field_name@, "URL must use HTTPS scheme"@),
{
    if crate::text::same_text(url.scheme(), "https") {
        Ok(())
    } else {
        Err(ConfigError::invalid_value(field_name, "URL must use HTTPS scheme"))
    }
}

/// The headers after setting `key` to `value`: the first entry named `key` gets the new
/// value, or a new entry is added at the end where there is none.
pub open spec fn headers_set(headers: Seq<(String, String)>, key: String, value: String) -> Seq<(String, String)> {
    if exists|i: int| 0 <= i < headers.len() && headers[i].0@ == key@ {
        let i = choose|i: int|
            0 <= i < headers.len() && headers[i].0@ == key@ && forall|j: int|
                0 <= j < i ==> headers[j].0@ != key@;
        headers.update(i, (headers[i].0, value))
    } else {
        headers.push((key, value))
    }
}

/// Sets header `key` to `value`.
pub fn set_header(headers: &mut Vec<(String, String)>, key: String, value: String)
    ensures
        final(headers)@ == headers_set(old(headers)@, key, value),
{
    let mut i: usize = 0;
    while i < headers.len()
        invariant
            i <= headers@.len(),
            headers@ == old(headers)@,
            forall|j: int| 0 <= j < i ==> headers@[j].0@ != key@,
        decreases headers.len() - i,
    {
        if crate::text::same_text(headers[i].0.as_str(), key.as_str()) {
            let name = headers[i].0.clone();
            let ghost h = headers@;
            headers.set(i, (name, value));
            proof {
                let k = choose|k: int|
                    0 <= k < h.len() && h[k].0@ == key@ && forall|j: int|
                        0 <= j < k ==> h[j].0@ != key@;
                assert(0 <= i < h.len() && h[i as int].0@ == key@);
                if k < i {
                } else if k > i {
                    assert(h[i as int].0@ != key@);
                }
                assert(k == i);
            }
            return;
        }
        i = i + 1;
    }
    headers.push((key, value));
}

/// Checks that `min <= value <= max`.
pub fn validate_range(value: i64, min: i64, max: i64, field_name: &str) -> (r: Result<(), ConfigError>)
    ensures
        min <= value <= max ==> r is Ok,
        !(min <= value <= max) ==> is_invalid(r, field_name@, range_message(value, min, max)),
{
    if value < min || value > max {
        let mut message = "Value ".to_string();
        message.append(decimal(value).as_str());
        message.append(" must be between ");
        message.append(decimal(min).as_str());
        message.append(" and ");
        message.append(decimal(max).as_str());
        Err(ConfigError::invalid_value(field_name, message.as_str()))
    } else {
        Ok(())
    }
}

/// Checks that a duration is not zero.
pub fn validate_positive_duration(duration: Duration, field_name: &str) -> (r: Result<(), ConfigError>)
    ensures
        duration.secs == 0 && duration.nanos == 0 ==> is_invalid(
            r,
            field_name@,
            "Duration must be positive"@,
        ),
        !(duration.secs == 0 && duration.nanos == 0) ==> r is Ok,
{
    if duration.is_zero() {
        Err(ConfigError::invalid_value(field_name, "Duration must be positive"))
    } else {
        Ok(())
    }
}

/// Whether a key, in lower case, holds one of the tell-tale texts of a placeholder.
pub open spec fn looks_like_placeholder(key: Seq<char>) -> bool {
    let k = lower_of(key);
    contains_seq(k, "your_api_key"@) || contains_seq(k, "api_key_here"@) || contains_seq(
        k,
        "replace_me"@,
    ) || contains_seq(k, "xxx"@)
}

/// Basic checks of an API key: present, at least ten bytes, and no placeholder.
pub fn validate_api_key(api_key: &SecretString, field_name: &str) -> (r: Result<(), ConfigError>)
    ensures
        api_key@.len() == 0 ==> is_missing(r, field_name@),
        api_key@.len() != 0 && encode_utf8(api_key@).len() < 10 ==> is_invalid(
            r,
            field_name@,
            "API key appears to be too short"@,
        ),
        api_key@.len() != 0 && encode_utf8(api_key@).len() >= 10 && looks_like_placeholder(api_key@)
            ==> is_invalid(r, field_name@, "API key appears to be a placeholder"@),
        api_key@.len() != 0 && encode_utf8(api_key@).len() >= 10 && !looks_like_placeholder(
            api_key@,
        ) ==> r is Ok,
{
    let key = api_key.expose_secret();
    if key.is_empty() {
        return Err(ConfigError::missing_field(field_name));
    }
    if key.as_bytes().len() < 10 {
        return Err(ConfigError::invalid_value(field_name, "API key appears to be too short"));
    }
    let lower = lowercase(key);
    let l = lower.as_str();
    if contains_text(l, "your_api_key") || contains_text(l, "api_key_here") || contains_text(
        l,
        "replace_me",
    ) || contains_text(l, "xxx") {
        return Err(ConfigError::invalid_value(field_name, "API key appears to be a placeholder"));
    }
    Ok(())
}

/// Checks a model name: not blank, no white space, at most 100 bytes.
pub fn validate_model_name(model: &str, field_name: &str) -> (r: Result<(), ConfigError>)
    ensures
        trimmed(model@).len() == 0 ==> is_missing(r, field_name@),
        trimmed(model@).len() != 0 && has_white_space(model@) ==> is_invalid(
            r,
            field_name@,
            "Model name cannot contain whitespace"@,
        ),
        trimmed(model@).len() != 0 && !has_white_space(model@) && encode_utf8(model@).len() > 100
            ==> is_invalid(r, field_name@, "Model name is too long"@),
        trimmed(model@).len() != 0 && !has_white_space(model@) && encode_utf8(model@).len() <= 100
            ==> r is Ok,
{
    let checked = validate_non_empty(model, field_name);
    if checked.is_err() {
        return checked;
    }
    if contains_white_space(model) {
        return Err(ConfigError::invalid_value(field_name, "Model name cannot contain whitespace"));
    }
    if model.as_bytes().len() > 100 {
        return Err(ConfigError::invalid_value(field_name, "Model name is too long"));
    }
    Ok(())
}

/// A required setting named `key`, given the value the environment holds for it.
pub fn required(key: &str, value: Option<String>) -> (r: Result<String, ConfigError>)
    ensures
        match value {
            Some(v) => r == Ok::<String, ConfigError>(v),
            None => r matches Err(ConfigError::MissingField { field: f }) && f@ == key@,
        },
{
    match value {
        Some(v) => Ok(v),
        None => Err(ConfigError::missing_field(key)),
    }
}

/// A required secret setting named `key`, given the value the environment holds for it.
pub fn required_secret(key: &str, value: Option<String>) -> (r: Result<SecretString, ConfigError>)
    ensures
        match value {
            Some(v) => r matches Ok(s) && s@ == v@,
            None => r matches Err(ConfigError::MissingField { field: f }) && f@ == key@,
        },
{
    match required(key, value) {
        Ok(v) => Ok(SecretString::from_string(v)),
        Err(e) => Err(e),
    }
}

/// An optional secret setting, given the value the environment holds for it.
pub fn optional_secret(value: Option<String>) -> (r: Option<SecretString>)
    ensures
        match value {
            Some(v) => r matches Some(s) && s@ == v@,
            None => r is None,
        },
{
    match value {
        Some(v) => Some(SecretString::from_string(v)),
        None => None,
    }
}

/// A setting with a default, given the value the environment holds for it.
pub fn with_default(value: Option<String>, default: &str) -> (r: String)
    ensures
        match value {
            Some(v) => r == v,
            None => r@ == default@,
        },
{
    match value {
        Some(v) => v,
        None => default.to_string(),
    }
}

/// The error for a setting `key` whose text did not parse, with the parser's `reason`.
pub open spec fn is_parse_failure<T>(r: Result<T, ConfigError>, key: Seq<char>, reason: Seq<char>) -> bool {
    r matches Err(ConfigError::InvalidValue { field: f, message: m }) && f@ == key && m@
        == "Failed to parse: "@ + reason
}

fn parse_text(key: &str, text: &str) -> (r: Result<u64, ConfigError>)
    ensures
        match u64_parse(text@) {
            Ok(n) => r == Ok::<u64, ConfigError>(n),
            Err(reason) => is_parse_failure(r, key@, reason),
        },
{
    match parse_u64(text) {
        Ok(n) => Ok(n),
        Err(reason) => {
            let mut message = "Failed to parse: ".to_string();
            message.append(reason.as_str());
            Err(ConfigError::invalid_value(key, message.as_str()))
        },
    }
}

/// A required numeric setting named `key`, given the value the environment holds for it.
pub fn parse(key: &str, value: Option<String>) -> (r: Result<u64, ConfigError>)
    ensures
        match value {
            Some(v) => match u64_parse(v@) {
                Ok(n) => r == Ok::<u64, ConfigError>(n),
                Err(reason) => is_parse_failure(r, key@, reason),
            },
            None => r matches Err(ConfigError::MissingField { field: f }) && f@ == key@,
        },
{
    match value {
        Some(v) => parse_text(key, v.as_str()),
        None => Err(ConfigError::missing_field(key)),
    }
}

/// An optional numeric setting named `key`, given the value the environment holds for it.
pub fn parse_optional(key: &str, value: Option<String>) -> (r: Result<Option<u64>, ConfigError>)
    ensures
        match value {
            Some(v) => match u64_parse(v@) {
                Ok(n) => r == Ok::<Option<u64>, ConfigError>(Some(n)),
                Err(reason) => is_parse_failure(r, key@, reason),
            },
            None => r == Ok::<Option<u64>, ConfigError>(None),
        },
{
    match value {
        Some(v) => match parse_text(key, v.as_str()) {
            Ok(n) => Ok(Some(n)),
            Err(e) => Err(e),
        },
        None => Ok(None),
    }
}


/// A provider's configuration: checked, then turned into the provider.
pub trait ProviderConfig: Sized {
    /// The provider this configuration builds.
    type Provider;

    /// Checks the configuration and builds the provider.
    fn build(self) -> Result<Self::Provider, ConfigError>;

    /// Checks the configuration without building anything.
    fn validate(&self) -> Result<(), ConfigError>;
}

/// A builder that ends in a value of type `T`.
pub trait ConfigBuilder<T>: Sized {
    /// The finished value.
    fn build(self) -> T;
}

/// Settings of the HTTP client.
#[derive(Debug, Clone)]
pub struct HttpConfig {
    /// How long one request may take.
    pub timeout: Duration,
    /// How many times a failed request is retried.
    pub max_retries: u32,
    /// The first delay of the exponential back-off.
    pub retry_delay: Duration,
    /// The longest delay of the exponential back-off.
    pub max_retry_delay: Duration,
    /// The user agent sent with each request.
    pub user_agent: Option<String>,
    /// Further headers sent with each request, by name (names are unique).
    pub headers: Vec<(String, String)>,
    /// Whether responses may be compressed.
    pub compression: bool,
    /// Settings of the connection pool.
    pub pool: PoolConfig,
}

/// Settings of the connection pool.
#[derive(Debug, Clone, Copy, PartialEq, Eq, Structural)]
pub struct PoolConfig {
    /// The most connections to one host.
    pub max_connections_per_host: usize,
    /// The most idle connections kept open.
    pub max_idle_connections: usize,
    /// How long an idle connection is kept.
    pub idle_timeout: Duration,
    /// How long connecting may take.
    pub connect_timeout: Duration,
}

/// The value of the first entry named `name`.
pub open spec fn header_value(headers: Seq<(String, String)>, name: Seq<char>) -> Option<String>
    decreases headers.len(),
{
    if headers.len() == 0 {
        None
    } else if headers[0].0@ == name {
        Some(headers[0].1)
    } else {
        header_value(headers.drop_first(), name)
    }
}

impl HttpConfig {
    /// The value of the header named `name`, where there is one.
    pub fn header(&self, name: &str) -> (r: Option<&String>)
        ensures
            match r {
                Some(v) => header_value(self.headers@, name@) == Some(*v),
                None => header_value(self.headers@, name@) is None,
            },
    {
        let mut i: usize = 0;
        assert(self.headers@.subrange(0, self.headers@.len() as int) == self.headers@);
        while i < self.headers.len()
            invariant
                i <= self.headers@.len(),
                header_value(self.headers@, name@) == header_value(
                    self.headers@.subrange(i as int, self.headers@.len() as int),
                    name@,
                ),
            decreases self.headers.len() - i,
        {
            let ghost rest = self.headers@.subrange(i as int, self.headers@.len() as int);
            assert(rest.drop_first() == self.headers@.subrange(i + 1, self.headers@.len() as int));
            if crate::text::same_text(self.headers[i].0.as_str(), name) {
                return Some(&self.headers[i].1);
            }
            i = i + 1;
        }
        None
    }
}

impl Default for PoolConfig {
    fn default() -> (r: PoolConfig)
        ensures
            r == (PoolConfig {
                max_connections_per_host: 100,
                max_idle_connections: 10,
                idle_timeout: Duration { secs: 90, nanos: 0 },
                connect_timeout: Duration { secs: 10, nanos: 0 },
            }),
    {
        PoolConfig {
            max_connections_per_host: 100,
            max_idle_connections: 10,
            idle_timeout: Duration::from_secs(90),
            connect_timeout: Duration::from_secs(10),
        }
    }
}

impl Default for HttpConfig {
    fn default() -> (r: HttpConfig)
        ensures
            r.timeout == (Duration { secs: 30, nanos: 0 }),
            r.max_retries == 3,
            r.retry_delay == (Duration { secs: 0, nanos: 100_000_000 }),
            r.max_retry_delay == (Duration { secs: 60, nanos: 0 }),
            r.user_agent matches Some(a) && a@ == "ferrous-llm-core/2.0"@,
            r.headers@.len() == 0,
            r.compression,
            r.pool == PoolConfig::default_spec(),
    {
        HttpConfig {
            timeout: Duration::from_secs(30),
            max_retries: 3,
            retry_delay: Duration::from_millis(100),
            max_retry_delay: Duration::from_secs(60),
            user_agent: Some("ferrous-llm-core/2.0".to_string()),
            headers: Vec::new(),
            compression: true,
            pool: PoolConfig::default(),
        }
    }
}

impl PoolConfig {
    /// The default pool settings.
    pub open spec fn default_spec() -> PoolConfig {
        PoolConfig {
            max_connections_per_host: 100,
            max_idle_connections: 10,
            idle_timeout: Duration { secs: 90, nanos: 0 },
            connect_timeout: Duration { secs: 10, nanos: 0 },
        }
    }
}

} // verus!
