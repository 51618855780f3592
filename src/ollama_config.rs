//! Configuration of the NDJSON service's client.

use vstd::prelude::*;
use crate::config::{
    url_parsed_is, HttpConfig, ParsedUrl, error_field, headers_set, model_name_ok, set_header, url_accepted,
    url_scheme, url_text, validate_model_name, validate_positive_duration, validate_range,
    validate_url, with_default,
};
use crate::error::ConfigError;
use crate::text::{parse_u64, u64_parse};
use crate::types::Duration;

verus! {

/// The longest keep-alive accepted, in seconds: a day.
pub const MAX_KEEP_ALIVE_SECS: u64 = 86400;

/// `text` without the `/` characters at its end.
pub open spec fn without_trailing_slashes(text: Seq<char>) -> Seq<char>
    decreases text.len(),
{
    if text.len() > 0 && text.last() == '/' {
        without_trailing_slashes(text.drop_last())
    } else {
        text
    }
}

/// `text` without the `/` characters at its end, as `str::trim_end_matches('/')` gives it.
pub fn trim_trailing_slashes(text: &str) -> (r: &str)
    ensures
        r@ == without_trailing_slashes(text@),
{
    let mut n = text.unicode_len();
    assert(text@.subrange(0, n as int) == text@);
    while n > 0 && text.get_char(n - 1) == '/'
        invariant
            n <= text@.len(),
            without_trailing_slashes(text@) == without_trailing_slashes(text@.subrange(0, n as int)),
        decreases n,
    {
        assert(text@.subrange(0, n as int).drop_last() == text@.subrange(0, n - 1));
        n = n - 1;
    }
    text.substring_char(0, n)
}

/// Settings of a client of the NDJSON service.
#[derive(Clone)]
pub struct OllamaConfig {
    pub model: String,
    /// The service's base URL; the local default where absent.
    pub base_url: Option<ParsedUrl>,
    pub http: HttpConfig,
    /// The model used for embeddings.
    pub embedding_model: Option<String>,
    /// How long the service keeps the model loaded, in seconds.
    pub keep_alive: Option<u64>,
    /// Model options passed through to the service.
    pub options: Option<serde_json::Value>,
}

impl Default for OllamaConfig {
    fn default() -> (r: OllamaConfig)
        ensures
            r.model@ == "llama2"@,
            r.base_url is None,
            r.embedding_model is None,
            r.keep_alive is None,
            r.options is None,
    {
        OllamaConfig {
            model: "llama2".to_string(),
            base_url: None,
            http: HttpConfig::default(),
            embedding_model: None,
            keep_alive: None,
            options: None,
        }
    }
}

/// Whether a base URL passes the check that its text is not empty.
pub open spec fn base_url_ok(url: Option<ParsedUrl>) -> bool {
    match url {
        Some(u) => u@.0.len() != 0,
        None => true,
    }
}

impl OllamaConfig {
    /// The base URL in use, as text.
    pub open spec fn base_url_text(&self) -> Seq<char> {
        match self.base_url {
            Some(u) => u@.0,
            None => "http://localhost:11434"@,
        }
    }

    /// Settings for `model`, with defaults for the rest.
    pub fn new(model: &str) -> (r: OllamaConfig)
        ensures
            r.model@ == model@,
            r.base_url is None,
            r.embedding_model is None,
            r.keep_alive is None,
    {
        OllamaConfig { model: model.to_string(), ..OllamaConfig::default() }
    }

    /// A builder that starts from the defaults.
    pub fn builder() -> (r: OllamaConfigBuilder)
        ensures
            r@.model@ == "llama2"@,
            r@.keep_alive is None,
    {
        OllamaConfigBuilder::new()
    }

    /// Checks the settings in order: model name, a non-empty base URL, a positive
    /// timeout, at most ten retries, a keep-alive of at most a day. The first that
    /// fails gives the error.
    pub fn validate(&self) -> (r: Result<(), ConfigError>)
        ensures
            !model_name_ok(self.model@) ==> error_field(r) == Some("model"@),
            model_name_ok(self.model@) && !base_url_ok(self.base_url) ==> error_field(r) == Some(
                "base_url"@,
            ),
            model_name_ok(self.model@) && base_url_ok(self.base_url) && self.http.timeout.secs == 0
                && self.http.timeout.nanos == 0 ==> error_field(r) == Some("http.timeout"@),
            model_name_ok(self.model@) && base_url_ok(self.base_url) && !(self.http.timeout.secs
                == 0 && self.http.timeout.nanos == 0) && self.http.max_retries > 10
                ==> error_field(r) == Some("http.max_retries"@),
            model_name_ok(self.model@) && base_url_ok(self.base_url) && !(self.http.timeout.secs
                == 0 && self.http.timeout.nanos == 0) && self.http.max_retries <= 10 && (
            self.keep_alive matches Some(k) && k > MAX_KEEP_ALIVE_SECS) ==> error_field(r) == Some(
                "keep_alive"@,
            ),
            model_name_ok(self.model@) && base_url_ok(self.base_url) && !(self.http.timeout.secs
                == 0 && self.http.timeout.nanos == 0) && self.http.max_retries <= 10 && !(
            self.keep_alive matches Some(k) && k > MAX_KEEP_ALIVE_SECS) ==> r is Ok,
    {
        let c = validate_model_name(self.model.as_str(), "model");
        if c.is_err() {
            return c;
        }
        if let Some(u) = &self.base_url {
            if u.as_str().is_empty() {
                return Err(ConfigError::invalid_value("base_url", "Base URL cannot be empty"));
            }
        }
        let c = validate_positive_duration(self.http.timeout, "http.timeout");
        if c.is_err() {
            return c;
        }
        let c = validate_range(self.http.max_retries as i64, 0, 10, "http.max_retries");
        if c.is_err() {
            return c;
        }
        if let Some(k) = self.keep_alive {
            if k > MAX_KEEP_ALIVE_SECS {
                return Err(
                    ConfigError::invalid_value(
                        "keep_alive",
                        "Keep alive duration cannot exceed 24 hours (86400 seconds)",
                    ),
                );
            }
        }
        Ok(())
    }

    /// The base URL in use.
    pub fn base_url(&self) -> (r: &str)
        ensures
            r@ == self.base_url_text(),
    {
        match &self.base_url {
            Some(u) => u.as_str(),
            None => "http://localhost:11434",
        }
    }

    fn endpoint(&self, path: &str) -> (r: String)
        ensures
            r@ == without_trailing_slashes(self.base_url_text()) + path@,
    {
        let mut url = trim_trailing_slashes(self.base_url()).to_string();
        url.append(path);
        url
    }

    /// The chat endpoint.
    pub fn chat_url(&self) -> (r: String)
        ensures
            r@ == without_trailing_slashes(self.base_url_text()) + "/api/chat"@,
    {
        self.endpoint("/api/chat")
    }

    /// The generate (completion) endpoint.
    pub fn generate_url(&self) -> (r: String)
        ensures
            r@ == without_trailing_slashes(self.base_url_text()) + "/api/generate"@,
    {
        self.endpoint("/api/generate")
    }

    /// The embeddings endpoint.
    pub fn embeddings_url(&self) -> (r: String)
        ensures
            r@ == without_trailing_slashes(self.base_url_text()) + "/api/embeddings"@,
    {
        self.endpoint("/api/embeddings")
    }

    /// The endpoint that lists the models.
    pub fn models_url(&self) -> (r: String)
        ensures
            r@ == without_trailing_slashes(self.base_url_text()) + "/api/tags"@,
    {
        self.endpoint("/api/tags")
    }

    /// Settings from the values the environment holds for `OLLAMA_MODEL`,
    /// `OLLAMA_EMBEDDING_MODEL`, `OLLAMA_BASE_URL` and `OLLAMA_KEEP_ALIVE`.
    pub fn from_env(
        model: Option<String>,
        embedding_model: Option<String>,
        base_url: Option<String>,
        keep_alive: Option<String>,
    ) -> (r: Result<OllamaConfig, ConfigError>)
        ensures
            (base_url matches Some(u) && !url_accepted(u@)) ==> error_field(r) == Some(
                "OLLAMA_BASE_URL"@,
            ),
            (base_url matches Some(u) ==> url_accepted(u@)) && (keep_alive matches Some(k) && u64_parse(k@) is Err)
                ==> error_field(r) == Some("OLLAMA_KEEP_ALIVE"@),
            (base_url matches Some(u) ==> url_accepted(u@)) && !(keep_alive matches Some(k) && u64_parse(k@) is Err)
                ==> (r matches Ok(c) && c.model@ == (match model {
                Some(m) => m@,
                None => "llama2"@,
            }) && c.embedding_model == embedding_model && (match base_url {
                Some(u) => url_parsed_is(c.base_url, u@),
                None => c.base_url is None,
            }) && (match keep_alive {
                Some(k) => u64_parse(k@) == Ok::<u64, Seq<char>>(c.keep_alive->0) && c.keep_alive is Some,
                None => c.keep_alive is None,
            })),
    {
        let model = with_default(model, "llama2");
        let base_url = match base_url {
            Some(text) => match validate_url(text.as_str(), "OLLAMA_BASE_URL") {
                Ok(u) => Some(u),
                Err(e) => return Err(e),
            },
            None => None,
        };
        let keep_alive = match keep_alive {
            Some(text) => match parse_u64(text.as_str()) {
                Ok(n) => Some(n),
                Err(_) => {
                    return Err(
                        ConfigError::invalid_value("OLLAMA_KEEP_ALIVE", "Must be a valid number"),
                    )
                },
            },
            None => None,
        };
        Ok(
            OllamaConfig {
                model,
                base_url,
                http: HttpConfig::default(),
                embedding_model,
                keep_alive,
                options: None,
            },
        )
    }
}

/// Builds settings of a client of the NDJSON service.
pub struct OllamaConfigBuilder {
    config: OllamaConfig,
}

impl View for OllamaConfigBuilder {
    type V = OllamaConfig;

    closed spec fn view(&self) -> OllamaConfig {
        self.config
    }
}

impl OllamaConfigBuilder {
    /// A builder that starts from the defaults.
    pub fn new() -> (r: OllamaConfigBuilder)
        ensures
            r@.model@ == "llama2"@,
            r@.keep_alive is None,
    {
        OllamaConfigBuilder { config: OllamaConfig::default() }
    }

    /// Sets the model.
    pub fn model(self, model: &str) -> (r: OllamaConfigBuilder)
        ensures
            r@.model@ == model@,
            r@ == (OllamaConfig { model: r@.model, ..self@ }),
    {
        let mut config = self.config;
        config.model = model.to_string();
        OllamaConfigBuilder { config }
    }

    /// Sets the base URL; an error where it is no URL.
    pub fn base_url(self, base_url: &str) -> (r: Result<OllamaConfigBuilder, ConfigError>)
        ensures
            url_accepted(base_url@) ==> (r matches Ok(b) && b@ == (OllamaConfig {
                base_url: b@.base_url,
                ..self@
            }) && url_parsed_is(b@.base_url, base_url@)),
            !url_accepted(base_url@) ==> error_field(r) == Some("base_url"@),
    {
        match validate_url(base_url, "base_url") {
            Ok(u) => {
                let mut config = self.config;
                config.base_url = Some(u);
                Ok(OllamaConfigBuilder { config })
            },
            Err(e) => Err(e),
        }
    }

    /// Sets the embedding model.
    pub fn embedding_model(self, embedding_model: &str) -> (r: OllamaConfigBuilder)
        ensures
            r@.embedding_model matches Some(m) && m@ == embedding_model@,
            r@ == (OllamaConfig { embedding_model: r@.embedding_model, ..self@ }),
    {
        let mut config = self.config;
        config.embedding_model = Some(embedding_model.to_string());
        OllamaConfigBuilder { config }
    }

    /// Sets the keep-alive, in seconds.
    pub fn keep_alive(self, keep_alive: u64) -> (r: OllamaConfigBuilder)
        ensures
            r@ == (OllamaConfig { keep_alive: Some(keep_alive), ..self@ }),
    {
        let mut config = self.config;
        config.keep_alive = Some(keep_alive);
        OllamaConfigBuilder { config }
    }

    /// Sets the model options passed through to the service.
    pub fn options(self, options: serde_json::Value) -> (r: OllamaConfigBuilder)
        ensures
            r@ == (OllamaConfig { options: Some(options), ..self@ }),
    {
        let mut config = self.config;
        config.options = Some(options);
        OllamaConfigBuilder { config }
    }

    /// Sets the request timeout.
    pub fn timeout(self, timeout: Duration) -> (r: OllamaConfigBuilder)
        ensures
            r@ == (OllamaConfig { http: HttpConfig { timeout, ..self@.http }, ..self@ }),
    {
        let mut config = self.config;
        config.http.timeout = timeout;
        OllamaConfigBuilder { config }
    }

    /// Sets the number of retries.
    pub fn max_retries(self, max_retries: u32) -> (r: OllamaConfigBuilder)
        ensures
            r@ == (OllamaConfig { http: HttpConfig { max_retries, ..self@.http }, ..self@ }),
    {
        let mut config = self.config;
        config.http.max_retries = max_retries;
        OllamaConfigBuilder { config }
    }

    /// Sets a header sent with each request.
    pub fn header(self, key: String, value: String) -> (r: OllamaConfigBuilder)
        ensures
            r@.http.headers@ == headers_set(self@.http.headers@, key, value),
            r@ == (OllamaConfig {
                http: HttpConfig { headers: r@.http.headers, ..self@.http },
                ..self@
            }),
    {
        let mut config = self.config;
        set_header(&mut config.http.headers, key, value);
        OllamaConfigBuilder { config }
    }

    /// The finished settings.
    pub fn build(self) -> (r: OllamaConfig)
        ensures
            r == self@,
    {
        self.config
    }
}

} // verus!
