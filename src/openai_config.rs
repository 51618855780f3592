//! Configuration of the plain SSE service's client.

use vstd::prelude::*;
use crate::config::{
    url_parsed_is, HttpConfig, ParsedUrl, SecretString, api_key_ok, error_field, headers_set, https_ok,
    model_name_ok, required_secret, set_header, url_accepted, url_scheme, url_text,
    validate_api_key, validate_https_url, validate_model_name, validate_positive_duration,
    validate_range, validate_url, with_default,
};
use crate::error::ConfigError;
use crate::types::Duration;

verus! {

/// Whether `url` is what parsing `text` gives.
pub open spec fn parsed_from(url: Option<ParsedUrl>, text: String) -> bool {
    match url {
        Some(_) => url_parsed_is(url, text@),
        None => false,
    }
}

/// Whether `c` holds the key, model (by default `gpt-3.5-turbo`), organization and
/// project read from the environment.
pub open spec fn env_settings(
    c: OpenAIConfig,
    key: String,
    model: Option<String>,
    organization: Option<String>,
    project: Option<String>,
) -> bool {
    &&& c.api_key@ == key@
    &&& c.model@ == match model {
        Some(m) => m@,
        None => "gpt-3.5-turbo"@,
    }
    &&& c.organization == organization
    &&& c.project == project
}

/// Settings of a client of the plain SSE service.
#[derive(Clone)]
pub struct OpenAIConfig {
    pub api_key: SecretString,
    pub model: String,
    /// The API's base URL; the public endpoint where absent.
    pub base_url: Option<ParsedUrl>,
    pub organization: Option<String>,
    pub project: Option<String>,
    pub http: HttpConfig,
}

impl Default for OpenAIConfig {
    fn default() -> (r: OpenAIConfig)
        ensures
            r.api_key@.len() == 0,
            r.model@ == "gpt-3.5-turbo"@,
            r.base_url is None,
            r.organization is None,
            r.project is None,
    {
        let key = SecretString::new("");
        proof {
            reveal_strlit("");
        }
        OpenAIConfig {
            api_key: key,
            model: "gpt-3.5-turbo".to_string(),
            base_url: None,
            organization: None,
            project: None,
            http: HttpConfig::default(),
        }
    }
}

impl OpenAIConfig {
    /// The base URL in use, as text.
    pub open spec fn base_url_text(&self) -> Seq<char> {
        match self.base_url {
            Some(u) => u@.0,
            None => "https://api.openai.com/v1"@,
        }
    }

    /// Settings with `api_key` and `model`, and defaults for the rest.
    pub fn new(api_key: &str, model: &str) -> (r: OpenAIConfig)
        ensures
            r.api_key@ == api_key@,
            r.model@ == model@,
            r.base_url is None,
            r.organization is None,
            r.project is None,
    {
        OpenAIConfig {
            api_key: SecretString::new(api_key),
            model: model.to_string(),
            ..OpenAIConfig::default()
        }
    }

    /// A builder that starts from the defaults.
    pub fn builder() -> (r: OpenAIConfigBuilder)
        ensures
            r@.api_key@.len() == 0,
            r@.model@ == "gpt-3.5-turbo"@,
    {
        OpenAIConfigBuilder::new()
    }

    /// Checks the settings in order: API key, model name, an `https` base URL, a
    /// positive timeout, at most ten retries. The first that fails gives the error.
    pub fn validate(&self) -> (r: Result<(), ConfigError>)
        ensures
            !api_key_ok(self.api_key@) ==> error_field(r) == Some("api_key"@),
            api_key_ok(self.api_key@) && !model_name_ok(self.model@) ==> error_field(r) == Some(
                "model"@,
            ),
            api_key_ok(self.api_key@) && model_name_ok(self.model@) && !https_ok(self.base_url)
                ==> error_field(r) == Some("base_url"@),
            api_key_ok(self.api_key@) && model_name_ok(self.model@) && https_ok(self.base_url)
                && self.http.timeout.secs == 0 && self.http.timeout.nanos == 0 ==> error_field(r)
                == Some("http.timeout"@),
            api_key_ok(self.api_key@) && model_name_ok(self.model@) && https_ok(self.base_url) && !(
            self.http.timeout.secs == 0 && self.http.timeout.nanos == 0) && self.http.max_retries
                > 10 ==> error_field(r) == Some("http.max_retries"@),
            api_key_ok(self.api_key@) && model_name_ok(self.model@) && https_ok(self.base_url) && !(
            self.http.timeout.secs == 0 && self.http.timeout.nanos == 0) && self.http.max_retries
                <= 10 ==> r is Ok,
    {
        let c = validate_api_key(&self.api_key, "api_key");
        if c.is_err() {
            return c;
        }
        let c = validate_model_name(self.model.as_str(), "model");
        if c.is_err() {
            return c;
        }
        if let Some(u) = &self.base_url {
            let c = validate_https_url(u, "base_url");
            if c.is_err() {
                return c;
            }
        }
        let c = validate_positive_duration(self.http.timeout, "http.timeout");
        if c.is_err() {
            return c;
        }
        validate_range(self.http.max_retries as i64, 0, 10, "http.max_retries")
    }

    /// The base URL in use.
    pub fn base_url(&self) -> (r: &str)
        ensures
            r@ == self.base_url_text(),
    {
        match &self.base_url {
            Some(u) => u.as_str(),
            None => "https://api.openai.com/v1",
        }
    }

    fn endpoint(&self, path: &str) -> (r: String)
        ensures
            r@ == self.base_url_text() + path@,
    {
        let mut url = self.base_url().to_string();
        url.append(path);
        url
    }

    /// The chat completions endpoint.
    pub fn chat_url(&self) -> (r: String)
        ensures
            r@ == self.base_url_text() + "/chat/completions"@,
    {
        self.endpoint("/chat/completions")
    }

    /// The text completions endpoint.
    pub fn completions_url(&self) -> (r: String)
        ensures
            r@ == self.base_url_text() + "/completions"@,
    {
        self.endpoint("/completions")
    }

    /// The embeddings endpoint.
    pub fn embeddings_url(&self) -> (r: String)
        ensures
            r@ == self.base_url_text() + "/embeddings"@,
    {
        self.endpoint("/embeddings")
    }

    /// The image generation endpoint.
    pub fn images_url(&self) -> (r: String)
        ensures
            r@ == self.base_url_text() + "/images/generations"@,
    {
        self.endpoint("/images/generations")
    }

    /// The transcription endpoint.
    pub fn transcriptions_url(&self) -> (r: String)
        ensures
            r@ == self.base_url_text() + "/audio/transcriptions"@,
    {
        self.endpoint("/audio/transcriptions")
    }

    /// The speech endpoint.
    pub fn speech_url(&self) -> (r: String)
        ensures
            r@ == self.base_url_text() + "/audio/speech"@,
    {
        self.endpoint("/audio/speech")
    }

    /// Settings from the values the environment holds for `OPENAI_API_KEY` (required),
    /// `OPENAI_MODEL`, `OPENAI_ORGANIZATION`, `OPENAI_PROJECT` and `OPENAI_BASE_URL`.
    pub fn from_env(
        api_key: Option<String>,
        model: Option<String>,
        organization: Option<String>,
        project: Option<String>,
        base_url: Option<String>,
    ) -> (r: Result<OpenAIConfig, ConfigError>)
        ensures
            match (api_key, base_url) {
                (None, _) => error_field(r) == Some("OPENAI_API_KEY"@),
                (Some(k), Some(u)) => if url_accepted(u@) {
                    r matches Ok(c) && env_settings(c, k, model, organization, project)
                        && parsed_from(c.base_url, u)
                } else {
                    error_field(r) == Some("OPENAI_BASE_URL"@)
                },
                (Some(k), None) => r matches Ok(c) && env_settings(c, k, model, organization, project)
                    && c.base_url is None,
            },
    {
        let key = match required_secret("OPENAI_API_KEY", api_key) {
            Ok(k) => k,
            Err(e) => return Err(e),
        };
        let model = with_default(model, "gpt-3.5-turbo");
        let base_url = match base_url {
            Some(text) => match validate_url(text.as_str(), "OPENAI_BASE_URL") {
                Ok(u) => Some(u),
                Err(e) => return Err(e),
            },
            None => None,
        };
        Ok(
            OpenAIConfig {
                api_key: key,
                model,
                base_url,
                organization,
                project,
                http: HttpConfig::default(),
            },
        )
    }
}

/// Builds settings of a client of the plain SSE service.
pub struct OpenAIConfigBuilder {
    config: OpenAIConfig,
}

impl View for OpenAIConfigBuilder {
    type V = OpenAIConfig;

    closed spec fn view(&self) -> OpenAIConfig {
        self.config
    }
}

impl OpenAIConfigBuilder {
    /// A builder that starts from the defaults.
    pub fn new() -> (r: OpenAIConfigBuilder)
        ensures
            r@.api_key@.len() == 0,
            r@.model@ == "gpt-3.5-turbo"@,
    {
        OpenAIConfigBuilder { config: OpenAIConfig::default() }
    }

    /// Sets the API key.
    pub fn api_key(self, api_key: &str) -> (r: OpenAIConfigBuilder)
        ensures
            r@.api_key@ == api_key@,
            r@ == (OpenAIConfig { api_key: r@.api_key, ..self@ }),
    {
        let mut config = self.config;
        config.api_key = SecretString::new(api_key);
        OpenAIConfigBuilder { config }
    }

    /// Sets the model.
    pub fn model(self, model: &str) -> (r: OpenAIConfigBuilder)
        ensures
            r@.model@ == model@,
            r@ == (OpenAIConfig { model: r@.model, ..self@ }),
    {
        let mut config = self.config;
        config.model = model.to_string();
        OpenAIConfigBuilder { config }
    }

    /// Sets the base URL; an error where it is no URL.
    pub fn base_url(self, base_url: &str) -> (r: Result<OpenAIConfigBuilder, ConfigError>)
        ensures
            url_accepted(base_url@) ==> (r matches Ok(b) && b@ == (OpenAIConfig {
                base_url: b@.base_url,
                ..self@
            }) && url_parsed_is(b@.base_url, base_url@)),
            !url_accepted(base_url@) ==> error_field(r) == Some("base_url"@),
    {
        match validate_url(base_url, "base_url") {
            Ok(u) => {
                let mut config = self.config;
                config.base_url = Some(u);
                Ok(OpenAIConfigBuilder { config })
            },
            Err(e) => Err(e),
        }
    }

    /// Sets the organization.
    pub fn organization(self, organization: &str) -> (r: OpenAIConfigBuilder)
        ensures
            r@.organization matches Some(o) && o@ == organization@,
            r@ == (OpenAIConfig { organization: r@.organization, ..self@ }),
    {
        let mut config = self.config;
        config.organization = Some(organization.to_string());
        OpenAIConfigBuilder { config }
    }

    /// Sets the project.
    pub fn project(self, project: &str) -> (r: OpenAIConfigBuilder)
        ensures
            r@.project matches Some(p) && p@ == project@,
            r@ == (OpenAIConfig { project: r@.project, ..self@ }),
    {
        let mut config = self.config;
        config.project = Some(project.to_string());
        OpenAIConfigBuilder { config }
    }

    /// Sets the request timeout.
    pub fn timeout(self, timeout: Duration) -> (r: OpenAIConfigBuilder)
        ensures
            r@ == (OpenAIConfig { http: HttpConfig { timeout, ..self@.http }, ..self@ }),
    {
        let mut config = self.config;
        config.http.timeout = timeout;
        OpenAIConfigBuilder { config }
    }

    /// Sets the number of retries.
    pub fn max_retries(self, max_retries: u32) -> (r: OpenAIConfigBuilder)
        ensures
            r@ == (OpenAIConfig { http: HttpConfig { max_retries, ..self@.http }, ..self@ }),
    {
        let mut config = self.config;
        config.http.max_retries = max_retries;
        OpenAIConfigBuilder { config }
    }

    /// Sets a header sent with each request.
    pub fn header(self, key: String, value: String) -> (r: OpenAIConfigBuilder)
        ensures
            r@.http.headers@ == headers_set(self@.http.headers@, key, value),
            r@ == (OpenAIConfig {
                http: HttpConfig { headers: r@.http.headers, ..self@.http },
                ..self@
            }),
    {
        let mut config = self.config;
        set_header(&mut config.http.headers, key, value);
        OpenAIConfigBuilder { config }
    }

    /// The finished settings.
    pub fn build(self) -> (r: OpenAIConfig)
        ensures
            r == self@,
    {
        self.config
    }
}

} // verus!
