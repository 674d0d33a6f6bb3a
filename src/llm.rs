//! Model backends and the choice of one from configuration.
//!
//! Each backend is described here by what a request to it needs: endpoint,
//! headers, model and credential. Sending the request is left to the caller.
use crate::config::Config;
use crate::text::text_eq;
use vstd::prelude::*;

verus! {

/// Environment variable that supplies an OpenAI key when the configuration has none.
pub const OPENAI_KEY_VAR: &'static str = "OPENAI_API_KEY";

/// Environment variable that supplies an Anthropic key when the configuration has none.
pub const ANTHROPIC_KEY_VAR: &'static str = "ANTHROPIC_API_KEY";

/// Chat-completions base URL used when the configuration names none.
pub const DEFAULT_OPENAI_BASE_URL: &'static str = "https://api.openai.com/v1";

pub const ANTHROPIC_MESSAGES_URL: &'static str = "https://api.anthropic.com/v1/messages";

pub const ANTHROPIC_VERSION: &'static str = "2023-06-01";

pub const ANTHROPIC_MAX_TOKENS: u32 = 1024;

pub const OLLAMA_GENERATE_PATH: &'static str = "/api/generate";

pub const OPENAI_COMPLETIONS_PATH: &'static str = "/chat/completions";

pub const BEARER_PREFIX: &'static str = "Bearer ";

pub const JSON_CONTENT_TYPE: &'static str = "application/json";

/// Why a generation could not be had.
#[derive(Debug)]
pub enum LlmError {
    /// The request could not be sent or its answer not received.
    RequestError(String),
    /// The answer arrived but was not of the expected shape.
    DecodeError(String),
    /// The backend answered with a non-success status; the body is kept.
    ApiError(String),
    /// No credential for the named provider, in configuration or environment.
    MissingApiKey(String),
    /// The configuration names a provider that is not known.
    UnknownProvider(String),
}

impl LlmError {
    pub open spec fn spec_message(&self) -> Seq<char> {
        match self {
            LlmError::RequestError(d) => "HTTP request failed: "@ + d@,
            LlmError::DecodeError(d) => "Failed to decode response: "@ + d@,
            LlmError::ApiError(d) => "API error: "@ + d@,
            LlmError::MissingApiKey(p) => "Missing API key for "@ + p@,
            LlmError::UnknownProvider(p) => "Unknown provider: "@ + p@,
        }
    }

    /// Human-readable description of the error.
    pub fn message(&self) -> (r: String)
        ensures
            r@ == self.spec_message(),
    {
        let (head, detail) = match self {
            LlmError::RequestError(d) => ("HTTP request failed: ", d),
            LlmError::DecodeError(d) => ("Failed to decode response: ", d),
            LlmError::ApiError(d) => ("API error: ", d),
            LlmError::MissingApiKey(p) => ("Missing API key for ", p),
            LlmError::UnknownProvider(p) => ("Unknown provider: ", p),
        };
        let mut s = String::from_str(head);
        s.append(detail.as_str());
        s
    }
}

/// A local inference server.
#[derive(Debug, Clone)]
pub struct OllamaClient {
    pub base_url: String,
    pub model: String,
}

impl OllamaClient {
    pub fn new(base_url: String, model: String) -> (r: Self)
        ensures
            r.base_url == base_url,
            r.model == model,
    {
        OllamaClient { base_url, model }
    }

    /// `<base>/api/generate`.
    pub fn endpoint(&self) -> (r: String)
        ensures
            r@ == self.base_url@ + OLLAMA_GENERATE_PATH@,
    {
        let mut s = self.base_url.clone();
        s.append(OLLAMA_GENERATE_PATH);
        s
    }
}

/// The first-party chat API.
#[derive(Debug, Clone)]
pub struct AnthropicClient {
    pub api_key: String,
    pub model: String,
}

impl AnthropicClient {
    pub fn new(api_key: String, model: String) -> (r: Self)
        ensures
            r.api_key == api_key,
            r.model == model,
    {
        AnthropicClient { api_key, model }
    }

    /// Headers of a request: key, API version and content type, in that order.
    pub fn headers(&self) -> (r: Vec<(String, String)>)
        ensures
            r@.len() == 3,
            r@[0].0@ == "x-api-key"@ && r@[0].1@ == self.api_key@,
            r@[1].0@ == "anthropic-version"@ && r@[1].1@ == ANTHROPIC_VERSION@,
            r@[2].0@ == "Content-Type"@ && r@[2].1@ == JSON_CONTENT_TYPE@,
    {
        let mut h: Vec<(String, String)> = Vec::new();
        h.push((String::from_str("x-api-key"), self.api_key.clone()));
        h.push((String::from_str("anthropic-version"), String::from_str(ANTHROPIC_VERSION)));
        h.push((String::from_str("Content-Type"), String::from_str(JSON_CONTENT_TYPE)));
        h
    }
}

/// The alternative chat API, or any service that speaks its protocol.
#[derive(Debug, Clone)]
pub struct OpenAIClient {
    pub api_key: String,
    pub model: String,
    pub base_url: String,
}

impl OpenAIClient {
    /// `base_url` falls back to [`DEFAULT_OPENAI_BASE_URL`].
    pub fn new(api_key: String, model: String, base_url: Option<String>) -> (r: Self)
        ensures
            r.api_key == api_key,
            r.model == model,
            r.base_url@ == match base_url {
                Some(u) => u@,
                None => DEFAULT_OPENAI_BASE_URL@,
            },
    {
        let base_url = match base_url {
            Some(u) => u,
            None => String::from_str(DEFAULT_OPENAI_BASE_URL),
        };
        OpenAIClient { api_key, model, base_url }
    }

    /// `<base>/chat/completions`.
    pub fn endpoint(&self) -> (r: String)
        ensures
            r@ == self.base_url@ + OPENAI_COMPLETIONS_PATH@,
    {
        let mut s = self.base_url.clone();
        s.append(OPENAI_COMPLETIONS_PATH);
        s
    }

    /// Headers of a request: bearer token and content type, in that order.
    pub fn headers(&self) -> (r: Vec<(String, String)>)
        ensures
            r@.len() == 2,
            r@[0].0@ == "Authorization"@ && r@[0].1@ == BEARER_PREFIX@ + self.api_key@,
            r@[1].0@ == "Content-Type"@ && r@[1].1@ == JSON_CONTENT_TYPE@,
    {
        let mut token = String::from_str(BEARER_PREFIX);
        token.append(self.api_key.as_str());
        let mut h: Vec<(String, String)> = Vec::new();
        h.push((String::from_str("Authorization"), token));
        h.push((String::from_str("Content-Type"), String::from_str(JSON_CONTENT_TYPE)));
        h
    }
}

/// One of the three backends.
#[derive(Debug, Clone)]
pub enum Provider {
    Ollama(OllamaClient),
    Anthropic(AnthropicClient),
    OpenAI(OpenAIClient),
}

/// The backend chosen for one invocation.
#[derive(Debug, Clone)]
pub struct LlmClient {
    pub provider: Provider,
}

/// The configured key if there is one, else the one from the environment.
pub open spec fn resolve_key(configured: Option<String>, from_env: Option<String>) -> Option<
    Seq<char>,
> {
    match configured {
        Some(k) => Some(k@),
        None => match from_env {
            Some(k) => Some(k@),
            None => None,
        },
    }
}

/// What [`LlmClient::from_config`] yields for a configuration and the two
/// environment keys.
pub open spec fn selection_ok(
    config: &Config,
    openai_env_key: Option<String>,
    anthropic_env_key: Option<String>,
    r: Result<LlmClient, LlmError>,
) -> bool {
    let p = config.provider;
    if p.name@ == "openai"@ {
        match resolve_key(p.api_key, openai_env_key) {
            Some(k) => match r {
                Ok(LlmClient { provider: Provider::OpenAI(c) }) => c.api_key@ == k && c.model@
                    == p.model@ && c.base_url@ == match p.base_url {
                    Some(u) => u@,
                    None => DEFAULT_OPENAI_BASE_URL@,
                },
                _ => false,
            },
            None => match r {
                Err(LlmError::MissingApiKey(n)) => n@ == "OpenAI"@,
                _ => false,
            },
        }
    } else if p.name@ == "anthropic"@ {
        match resolve_key(p.api_key, anthropic_env_key) {
            Some(k) => match r {
                Ok(LlmClient { provider: Provider::Anthropic(c) }) => c.api_key@ == k && c.model@
                    == p.model@,
                _ => false,
            },
            None => match r {
                Err(LlmError::MissingApiKey(n)) => n@ == "Anthropic"@,
                _ => false,
            },
        }
    } else if p.name@ == "ollama"@ {
        match r {
            Ok(LlmClient { provider: Provider::Ollama(c) }) => c.base_url@ == p.ollama_url@
                && c.model@ == p.model@,
            _ => false,
        }
    } else {
        match r {
            Err(LlmError::UnknownProvider(n)) => n@ == p.name@,
            _ => false,
        }
    }
}

fn clone_opt(o: &Option<String>) -> (r: Option<String>)
    ensures
        match (o, r) {
            (Some(a), Some(b)) => a@ == b@,
            (None, None) => true,
            _ => false,
        },
{
    match o {
        Some(s) => Some(s.clone()),
        None => None,
    }
}

fn pick_key(configured: &Option<String>, from_env: Option<String>) -> (r: Option<String>)
    ensures
        match r {
            Some(k) => resolve_key(*configured, from_env) == Some(k@),
            None => resolve_key(*configured, from_env) is None,
        },
{
    match configured {
        Some(k) => Some(k.clone()),
        None => from_env,
    }
}

impl LlmClient {
    /// Chooses and builds the backend that `config` names: `openai`,
    /// `anthropic` or `ollama`. The two credentialed backends take the key
    /// from the configuration, else from the given environment value, and
    /// fail with [`LlmError::MissingApiKey`] when neither has one. Any other
    /// name fails with [`LlmError::UnknownProvider`] carrying that name.
    pub fn from_config(
        config: &Config,
        openai_env_key: Option<String>,
        anthropic_env_key: Option<String>,
    ) -> (r: Result<LlmClient, LlmError>)
        ensures
            selection_ok(config, openai_env_key, anthropic_env_key, r),
    {
        let p = &config.provider;
        let name = p.name.as_str();
        proof {
            reveal_strlit("openai");
            reveal_strlit("anthropic");
            reveal_strlit("ollama");
        }
        if text_eq(name, "openai") {
            match pick_key(&p.api_key, openai_env_key) {
                Some(k) => {
                    let c = OpenAIClient::new(k, p.model.clone(), clone_opt(&p.base_url));
                    Ok(LlmClient { provider: Provider::OpenAI(c) })
                },
                None => Err(LlmError::MissingApiKey(String::from_str("OpenAI"))),
            }
        } else if text_eq(name, "anthropic") {
            match pick_key(&p.api_key, anthropic_env_key) {
                Some(k) => Ok(
                    LlmClient { provider: Provider::Anthropic(AnthropicClient::new(k, p.model.clone())) },
                ),
                None => Err(LlmError::MissingApiKey(String::from_str("Anthropic"))),
            }
        } else if text_eq(name, "ollama") {
            Ok(
                LlmClient {
                    provider: Provider::Ollama(
                        OllamaClient::new(p.ollama_url.clone(), p.model.clone()),
                    ),
                },
            )
        } else {
            Err(LlmError::UnknownProvider(String::from_str(name)))
        }
    }
}

/// Selection fails with the offending name for a provider that is not
/// known, and with a missing-credential error for a credentialed provider
/// that has a key neither in configuration nor in the environment.
pub proof fn lemma_selection_failures(
    config: &Config,
    openai_env_key: Option<String>,
    anthropic_env_key: Option<String>,
    r: Result<LlmClient, LlmError>,
)
    requires
        selection_ok(config, openai_env_key, anthropic_env_key, r),
    ensures
        config.provider.name@ != "openai"@ && config.provider.name@ != "anthropic"@
            && config.provider.name@ != "ollama"@ ==> match r {
            Err(LlmError::UnknownProvider(n)) => n@ == config.provider.name@,
            _ => false,
        },
        config.provider.name@ == "openai"@ && config.provider.api_key is None
            && openai_env_key is None ==> r matches Err(LlmError::MissingApiKey(_)),
        config.provider.name@ == "anthropic"@ && config.provider.api_key is None
            && anthropic_env_key is None ==> r matches Err(LlmError::MissingApiKey(_)),
{
    reveal_strlit("openai");
    reveal_strlit("anthropic");
    assert("openai"@.len() != "anthropic"@.len());
}

/// The text of the first element, or the empty string when there is none.
pub fn first_or_empty(texts: &[String]) -> (r: String)
    ensures
        texts@.len() == 0 ==> r@ == Seq::<char>::empty(),
        texts@.len() > 0 ==> r@ == texts@[0]@,
{
    if texts.len() == 0 {
        String::new()
    } else {
        texts[0].clone()
    }
}

} // verus!
