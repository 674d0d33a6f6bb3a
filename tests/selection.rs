use git_ai::config::{Config, ProviderConfig};
use git_ai::llm::{first_or_empty, LlmClient, LlmError, OllamaClient, OpenAIClient, AnthropicClient, Provider};

fn config_named(name: &str, key: Option<&str>) -> Config {
    let mut c = Config::default();
    c.provider.name = name.to_string();
    c.provider.api_key = key.map(|k| k.to_string());
    c
}

#[test]
fn unknown_provider_carries_its_name() {
    match LlmClient::from_config(&config_named("gemini", None), None, None) {
        Err(LlmError::UnknownProvider(n)) => assert_eq!(n, "gemini"),
        other => panic!("unexpected: {:?}", other),
    }
}

#[test]
fn openai_without_any_key_fails() {
    match LlmClient::from_config(&config_named("openai", None), None, Some("x".to_string())) {
        Err(e @ LlmError::MissingApiKey(_)) => assert_eq!(e.message(), "Missing API key for OpenAI"),
        other => panic!("unexpected: {:?}", other),
    }
}

#[test]
fn anthropic_without_any_key_fails() {
    match LlmClient::from_config(&config_named("anthropic", None), Some("x".to_string()), None) {
        Err(LlmError::MissingApiKey(n)) => assert_eq!(n, "Anthropic"),
        other => panic!("unexpected: {:?}", other),
    }
}

#[test]
fn configured_key_wins_over_environment() {
    let c = config_named("anthropic", Some("from-config"));
    match LlmClient::from_config(&c, None, Some("from-env".to_string())) {
        Ok(LlmClient { provider: Provider::Anthropic(a) }) => {
            assert_eq!(a.api_key, "from-config");
            assert_eq!(a.model, "llama3.2");
        }
        other => panic!("unexpected: {:?}", other),
    }
}

#[test]
fn environment_key_is_the_fallback() {
    let mut c = config_named("openai", None);
    c.provider.model = "gpt-4o-mini".to_string();
    match LlmClient::from_config(&c, Some("env-key".to_string()), None) {
        Ok(LlmClient { provider: Provider::OpenAI(o) }) => {
            assert_eq!(o.api_key, "env-key");
            assert_eq!(o.model, "gpt-4o-mini");
            assert_eq!(o.base_url, "https://api.openai.com/v1");
            assert_eq!(o.endpoint(), "https://api.openai.com/v1/chat/completions");
        }
        other => panic!("unexpected: {:?}", other),
    }
}

#[test]
fn openai_base_url_override() {
    let mut c = config_named("openai", Some("k"));
    c.provider.base_url = Some("https://api.groq.com/openai/v1".to_string());
    match LlmClient::from_config(&c, None, None) {
        Ok(LlmClient { provider: Provider::OpenAI(o) }) => {
            assert_eq!(o.endpoint(), "https://api.groq.com/openai/v1/chat/completions");
            let h = o.headers();
            assert_eq!(h[0], ("Authorization".to_string(), "Bearer k".to_string()));
            assert_eq!(h[1], ("Content-Type".to_string(), "application/json".to_string()));
        }
        other => panic!("unexpected: {:?}", other),
    }
}

#[test]
fn ollama_needs_no_key() {
    match LlmClient::from_config(&Config::default(), None, None) {
        Ok(LlmClient { provider: Provider::Ollama(o) }) => {
            assert_eq!(o.base_url, "http://localhost:11434");
            assert_eq!(o.model, "llama3.2");
            assert_eq!(o.endpoint(), "http://localhost:11434/api/generate");
        }
        other => panic!("unexpected: {:?}", other),
    }
}

#[test]
fn provider_name_is_case_sensitive() {
    assert!(matches!(
        LlmClient::from_config(&config_named("OpenAI", Some("k")), None, None),
        Err(LlmError::UnknownProvider(_))
    ));
}

#[test]
fn anthropic_headers() {
    let a = AnthropicClient::new("sk".to_string(), "m".to_string());
    let h = a.headers();
    assert_eq!(h.len(), 3);
    assert_eq!(h[0], ("x-api-key".to_string(), "sk".to_string()));
    assert_eq!(h[1], ("anthropic-version".to_string(), "2023-06-01".to_string()));
}

#[test]
fn client_constructors_keep_fields() {
    let o = OllamaClient::new("http://h:1".to_string(), "m".to_string());
    assert_eq!(o.endpoint(), "http://h:1/api/generate");
    let c = OpenAIClient::new("k".to_string(), "m".to_string(), None);
    assert_eq!(c.base_url, "https://api.openai.com/v1");
}

#[test]
fn first_text_or_empty() {
    assert_eq!(first_or_empty(&[]), "");
    assert_eq!(first_or_empty(&["a".to_string(), "b".to_string()]), "a");
}

#[test]
fn error_messages() {
    assert_eq!(LlmError::ApiError("bad".to_string()).message(), "API error: bad");
    assert_eq!(LlmError::UnknownProvider("x".to_string()).message(), "Unknown provider: x");
    assert_eq!(LlmError::RequestError("t".to_string()).message(), "HTTP request failed: t");
}

#[test]
fn default_provider_config() {
    let p = ProviderConfig::default();
    assert_eq!(p.name, "ollama");
    assert!(p.api_key.is_none());
    assert!(p.base_url.is_none());
}
