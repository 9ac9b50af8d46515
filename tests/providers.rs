use rig_core::anthropic::{self, ClientBuilder, ConfigError};
use rig_core::capability::{check_capability, supports, Capability, ProviderKind, UnsupportedCapability};
use rig_core::gemini;
use rig_core::headers::{is_valid_header_value, join_with_commas};
use rig_core::urls::join_url;

fn header<'a>(c: &'a anthropic::Client, name: &str) -> Option<&'a str> {
    c.headers().iter().find(|(k, _)| k == name).map(|(_, v)| v.as_str())
}

#[test]
fn join_puts_one_slash_between_base_and_path() {
    assert_eq!(join_url("https://api.anthropic.com", "v1/messages"), "https://api.anthropic.com/v1/messages");
    assert_eq!(join_url("https://api.anthropic.com/", "/v1/messages"), "https://api.anthropic.com/v1/messages");
    assert_eq!(join_url("https://api.anthropic.com//", "//v1/messages"), "https://api.anthropic.com/v1/messages");
    assert_eq!(join_url("http://localhost:8080", "v1//x"), "http://localhost:8080/v1//x");
}

#[test]
fn join_keeps_scheme_separator() {
    let u = join_url("https://example.com", "a");
    assert!(u.starts_with("https://"));
    assert_eq!(u, "https://example.com/a");
    assert_eq!(join_url("", "a"), "/a");
}

#[test]
fn builder_defaults() {
    let b = ClientBuilder::new("key");
    assert_eq!(b.api_key, "key");
    assert_eq!(b.base_url, anthropic::ANTHROPIC_API_BASE_URL);
    assert_eq!(b.anthropic_version, anthropic::ANTHROPIC_VERSION_LATEST);
    assert!(b.anthropic_betas.is_none());
}

#[test]
fn builder_setters_replace_values() {
    let b = ClientBuilder::new("key").base_url("http://localhost:1234").anthropic_version("2024-01-01");
    assert_eq!(b.base_url, "http://localhost:1234");
    assert_eq!(b.anthropic_version, "2024-01-01");
    assert_eq!(b.api_key, "key");
}

#[test]
fn beta_flags_join_in_order() {
    let c = ClientBuilder::new("key").anthropic_beta("f1").anthropic_beta("f2").build().unwrap();
    assert_eq!(header(&c, "anthropic-beta"), Some("f1,f2"));
    assert_eq!(header(&c, "x-api-key"), Some("key"));
    assert_eq!(header(&c, "anthropic-version"), Some(anthropic::ANTHROPIC_VERSION_LATEST));
    assert_eq!(c.headers().len(), 3);
}

#[test]
fn no_beta_flags_means_no_beta_header() {
    let c = ClientBuilder::new("key").build().unwrap();
    assert_eq!(header(&c, "anthropic-beta"), None);
    assert_eq!(c.headers().len(), 2);
    assert_eq!(anthropic::beta_header(&Some(vec![])), None);
    assert_eq!(anthropic::beta_header(&None), None);
    let one = anthropic::beta_header(&Some(vec!["prompt-caching-2024-07-31".to_string()]));
    assert_eq!(one.as_deref(), Some("prompt-caching-2024-07-31"));
}

#[test]
fn join_with_commas_values() {
    assert_eq!(join_with_commas(&vec![]), "");
    assert_eq!(join_with_commas(&vec!["a".to_string()]), "a");
    assert_eq!(join_with_commas(&vec!["a".to_string(), "b".to_string(), "c".to_string()]), "a,b,c");
}

#[test]
fn header_value_validity() {
    assert!(is_valid_header_value("sk-ant-123 abc\t"));
    assert!(!is_valid_header_value("bad\nkey"));
    assert!(!is_valid_header_value("bad\u{7f}"));
    assert!(is_valid_header_value(""));
}

#[test]
fn invalid_values_are_configuration_errors() {
    assert_eq!(ClientBuilder::new("bad\nkey").build().unwrap_err(), ConfigError::InvalidApiKey);
    assert_eq!(
        ClientBuilder::new("key").anthropic_version("v\r1").build().unwrap_err(),
        ConfigError::InvalidVersion
    );
    assert_eq!(
        ClientBuilder::new("key").anthropic_beta("ok").anthropic_beta("b\0").build().unwrap_err(),
        ConfigError::InvalidBetas
    );
}

#[test]
fn missing_environment_key_is_an_error() {
    assert_eq!(anthropic::Client::from_env_key(None).unwrap_err(), ConfigError::MissingApiKey);
    let c = anthropic::Client::from_env_key(Some("k".to_string())).unwrap();
    assert_eq!(c.base_url(), anthropic::ANTHROPIC_API_BASE_URL);
    assert_eq!(gemini::Client::from_env_key(None).unwrap_err(), ConfigError::MissingApiKey);
    let g = gemini::Client::from_env_key(Some("g".to_string())).unwrap();
    assert_eq!(g.api_key(), "g");
}

#[test]
fn anthropic_post_url() {
    let c = ClientBuilder::new("key").build().unwrap();
    assert_eq!(c.post_url("/v1/messages"), "https://api.anthropic.com/v1/messages");
    let m = c.completion_model("chat-model-large");
    assert_eq!(m.model, "chat-model-large");
}

#[test]
fn gemini_urls_carry_key() {
    let c = gemini::Client::new("secret");
    assert_eq!(c.base_url(), gemini::GEMINI_API_BASE_URL);
    assert_eq!(
        c.post_url("/v1beta/models/gemini-pro:generateContent"),
        "https://generativelanguage.googleapis.com/v1beta/models/gemini-pro:generateContent?key=secret"
    );
    assert_eq!(
        c.post_sse_url("v1beta/models/gemini-pro:streamGenerateContent"),
        "https://generativelanguage.googleapis.com/v1beta/models/gemini-pro:streamGenerateContent?alt=sse&key=secret"
    );
}

#[test]
fn gemini_logged_urls_hide_key() {
    let c = gemini::Client::from_url("secret", "http://localhost:9000/");
    let plain = c.redacted_post_url("/p");
    let sse = c.redacted_post_sse_url("/p");
    assert_eq!(plain, "http://localhost:9000/p?key=****");
    assert_eq!(sse, "http://localhost:9000/p?alt=sse&key=****");
    assert!(!plain.contains("secret"));
    assert!(!sse.contains("secret"));
}

#[test]
fn gemini_model_handles() {
    let c = gemini::Client::new("k");
    assert_eq!(c.embedding_model("embedding-001").ndims, 768);
    assert_eq!(c.embedding_model("text-embedding-004").ndims, 768);
    assert_eq!(c.embedding_model("model-unknown").ndims, 0);
    assert_eq!(c.embedding_model_with_ndims("model-unknown", 1024).ndims, 1024);
    assert_eq!(c.completion_model("gemini-1.5-pro").model, "gemini-1.5-pro");
    assert_eq!(c.transcription_model("gemini-1.5-flash").model, "gemini-1.5-flash");
    assert_eq!(c.transcription_model("gemini-1.5-flash").client.api_key(), "k");
}

#[test]
fn unsupported_capability_is_always_refused() {
    let c = ClientBuilder::new("key").build().unwrap();
    for _ in 0..3 {
        assert_eq!(
            c.capability(Capability::Embeddings),
            Err(UnsupportedCapability { provider: ProviderKind::Anthropic, capability: Capability::Embeddings })
        );
    }
    assert_eq!(c.capability(Capability::Completion), Ok(()));
    assert!(c.capability(Capability::ImageGeneration).is_err());
    assert!(c.capability(Capability::AudioGeneration).is_err());
    assert!(c.capability(Capability::Transcription).is_err());
}

#[test]
fn capability_table() {
    let g = gemini::Client::new("k");
    assert_eq!(g.capability(Capability::Transcription), Ok(()));
    assert_eq!(g.capability(Capability::Embeddings), Ok(()));
    assert_eq!(
        g.capability(Capability::AudioGeneration),
        Err(UnsupportedCapability { provider: ProviderKind::Gemini, capability: Capability::AudioGeneration })
    );
    assert!(supports(ProviderKind::Together, Capability::Completion));
    assert!(!supports(ProviderKind::Together, Capability::Transcription));
    assert!(check_capability(ProviderKind::Together, Capability::ImageGeneration).is_err());
}

fn pairs(v: &[(String, String)]) -> Vec<(&str, &str)> {
    v.iter().map(|(k, v)| (k.as_str(), v.as_str())).collect()
}

#[test]
fn gemini_default_headers_are_json_only() {
    let c = gemini::Client::new("k");
    assert_eq!(pairs(c.headers()), vec![("content-type", "application/json")]);
    let u = gemini::Client::from_url("secret", "http://localhost:9000");
    assert_eq!(pairs(u.headers()), vec![("content-type", "application/json")]);
    assert!(!u.headers().iter().any(|(_, v)| v.contains("secret")));
    assert_eq!(u.base_url(), "http://localhost:9000");
    assert_eq!(u.api_key(), "secret");
}

#[test]
fn gemini_streaming_requests_accept_event_stream() {
    let c = gemini::Client::new("k");
    assert_eq!(pairs(&c.post_sse_headers()), vec![("accept", "text/event-stream")]);
}

#[test]
fn model_handles_keep_client_auth() {
    let c = ClientBuilder::new("key").anthropic_beta("f1").build().unwrap();
    let m = c.completion_model("m");
    assert_eq!(pairs(m.client.headers()), pairs(c.headers()));
    assert_eq!(m.client.base_url(), c.base_url());
    let g = gemini::Client::new("k");
    let e = g.embedding_model("embedding-001");
    assert_eq!(e.client.api_key(), "k");
    assert_eq!(pairs(e.client.headers()), pairs(g.headers()));
}

#[test]
fn anthropic_unsupported_queries_are_refused() {
    let c = ClientBuilder::new("key").build().unwrap();
    for _ in 0..2 {
        assert_eq!(
            c.embedding_model("e"),
            Err(UnsupportedCapability { provider: ProviderKind::Anthropic, capability: Capability::Embeddings })
        );
        assert_eq!(
            c.transcription_model("t"),
            Err(UnsupportedCapability { provider: ProviderKind::Anthropic, capability: Capability::Transcription })
        );
    }
    assert_eq!(c.image_generation_model("i").unwrap_err().capability, Capability::ImageGeneration);
    assert_eq!(c.audio_generation_model("a").unwrap_err().capability, Capability::AudioGeneration);
    let g = gemini::Client::new("k");
    assert_eq!(g.image_generation_model("i").unwrap_err().provider, ProviderKind::Gemini);
    assert_eq!(g.audio_generation_model("a").unwrap_err().capability, Capability::AudioGeneration);
}
