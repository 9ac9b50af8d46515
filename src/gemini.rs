use vstd::prelude::*;

use crate::anthropic::ConfigError;
use crate::capability::{capability_answer, check_capability, Capability, ProviderKind, UnsupportedCapability};
use crate::headers::{copy_pairs, pairs_view};
use crate::urls::{join_url, joined_url};

verus! {

pub const GEMINI_API_BASE_URL: &'static str = "https://generativelanguage.googleapis.com";

pub const EMBEDDING_001: &'static str = "embedding-001";

pub const EMBEDDING_004: &'static str = "text-embedding-004";

pub const KEY_QUERY: &'static str = "?key=";

pub const SSE_KEY_QUERY: &'static str = "?alt=sse&key=";

pub const REDACTED_KEY: &'static str = "****";

pub const CONTENT_TYPE_HEADER: &'static str = "content-type";

pub const JSON_CONTENT_TYPE: &'static str = "application/json";

pub const ACCEPT_HEADER: &'static str = "accept";

pub const EVENT_STREAM: &'static str = "text/event-stream";

/// The headers sent with every request: the body is JSON. The key is not a
/// header; it travels in each URL.
pub open spec fn gemini_default_headers() -> Seq<(Seq<char>, Seq<char>)> {
    seq![(CONTENT_TYPE_HEADER@, JSON_CONTENT_TYPE@)]
}

/// The headers added to a streaming request: it accepts an event stream.
pub open spec fn sse_request_headers() -> Seq<(Seq<char>, Seq<char>)> {
    seq![(ACCEPT_HEADER@, EVENT_STREAM@)]
}

/// A list holding the one pair `name: value`.
fn single_header(name: &str, value: &str) -> (r: Vec<(String, String)>)
    ensures
        pairs_view(r@) == seq![(name@, value@)],
{
    let mut r: Vec<(String, String)> = Vec::new();
    r.push((String::from_str(name), String::from_str(value)));
    assert(pairs_view(r@) =~= seq![(name@, value@)]);
    r
}

/// The URL of a plain request: the joined path with the key as a query
/// parameter.
pub open spec fn post_url_of(base: Seq<char>, path: Seq<char>, key: Seq<char>) -> Seq<char> {
    joined_url(base, path) + KEY_QUERY@ + key
}

/// The URL of a streaming request: as a plain one, with `alt=sse` before the key.
pub open spec fn post_sse_url_of(base: Seq<char>, path: Seq<char>, key: Seq<char>) -> Seq<char> {
    joined_url(base, path) + SSE_KEY_QUERY@ + key
}

/// The embedding size of a model whose name is known, else zero.
pub open spec fn default_ndims(model: Seq<char>) -> usize {
    if model == EMBEDDING_001@ || model == EMBEDDING_004@ {
        768
    } else {
        0
    }
}

/// Whether two strings hold the same characters.
pub(crate) fn same_text(a: &str, b: &str) -> (r: bool)
    ensures
        r == (a@ == b@),
{
    let n: usize = a.unicode_len();
    if n != b.unicode_len() {
        return false;
    }
    let mut i: usize = 0;
    while i < n
        invariant
            n == a@.len(),
            n == b@.len(),
            i <= n,
            forall|j: int| 0 <= j < i ==> a@[j] == b@[j],
        decreases n - i,
    {
        if a.get_char(i) != b.get_char(i) {
            return false;
        }
        i = i + 1;
    }
    assert(a@ =~= b@);
    true
}

/// `s` followed by `t`.
fn concat(s: String, t: &str) -> (r: String)
    ensures
        r@ == s@ + t@,
{
    let mut r = s;
    r.append(t);
    r
}

/// A configured Gemini client: the key goes into every request URL.
#[derive(Clone, Debug)]
pub struct Client {
    base_url: String,
    api_key: String,
    headers: Vec<(String, String)>,
}

impl Client {
    pub closed spec fn base_url_view(&self) -> Seq<char> {
        self.base_url@
    }

    pub closed spec fn api_key_view(&self) -> Seq<char> {
        self.api_key@
    }

    pub closed spec fn headers_view(&self) -> Seq<(Seq<char>, Seq<char>)> {
        pairs_view(self.headers@)
    }

    /// The headers sent with every request, in order.
    pub fn headers(&self) -> (r: &Vec<(String, String)>)
        ensures
            pairs_view(r@) == self.headers_view(),
    {
        &self.headers
    }

    /// The base URL requests go to.
    pub fn base_url(&self) -> (r: &str)
        ensures
            r@ == self.base_url_view(),
    {
        self.base_url.as_str()
    }

    /// The API key that each request URL carries.
    pub fn api_key(&self) -> (r: &str)
        ensures
            r@ == self.api_key_view(),
    {
        self.api_key.as_str()
    }

    /// A client for the public endpoint.
    pub fn new(api_key: &str) -> (r: Client)
        ensures
            r.base_url_view() == GEMINI_API_BASE_URL@,
            r.api_key_view() == api_key@,
            r.headers_view() == gemini_default_headers(),
    {
        Self::from_url(api_key, GEMINI_API_BASE_URL)
    }

    /// A client for the endpoint at `base_url`.
    pub fn from_url(api_key: &str, base_url: &str) -> (r: Client)
        ensures
            r.base_url_view() == base_url@,
            r.api_key_view() == api_key@,
            r.headers_view() == gemini_default_headers(),
    {
        let headers = single_header(CONTENT_TYPE_HEADER, JSON_CONTENT_TYPE);
        Client { base_url: String::from_str(base_url), api_key: String::from_str(api_key), headers }
    }

    /// A client for the public endpoint with the API key found in the
    /// environment; its absence is a configuration error.
    pub fn from_env_key(api_key: Option<String>) -> (r: Result<Client, ConfigError>)
        ensures
            match api_key {
                None => r == Err::<Client, ConfigError>(ConfigError::MissingApiKey),
                Some(k) => r matches Ok(c) && c.api_key_view() == k@ && c.base_url_view() == GEMINI_API_BASE_URL@
                    && c.headers_view() == gemini_default_headers(),
            },
    {
        match api_key {
            None => Err(ConfigError::MissingApiKey),
            Some(k) => Ok(Self::new(k.as_str())),
        }
    }

    /// The URL that a plain request for `path` goes to.
    pub fn post_url(&self, path: &str) -> (r: String)
        ensures
            r@ == post_url_of(self.base_url_view(), path@, self.api_key_view()),
    {
        let u = concat(join_url(self.base_url.as_str(), path), KEY_QUERY);
        concat(u, self.api_key.as_str())
    }

    /// The URL that a streaming request for `path` goes to.
    pub fn post_sse_url(&self, path: &str) -> (r: String)
        ensures
            r@ == post_sse_url_of(self.base_url_view(), path@, self.api_key_view()),
    {
        let u = concat(join_url(self.base_url.as_str(), path), SSE_KEY_QUERY);
        concat(u, self.api_key.as_str())
    }

    /// The headers that a streaming request adds to the client's own.
    pub fn post_sse_headers(&self) -> (r: Vec<(String, String)>)
        ensures
            pairs_view(r@) == sse_request_headers(),
    {
        single_header(ACCEPT_HEADER, EVENT_STREAM)
    }

    /// The plain request URL as it may be logged: the key is replaced.
    pub fn redacted_post_url(&self, path: &str) -> (r: String)
        ensures
            r@ == post_url_of(self.base_url_view(), path@, REDACTED_KEY@),
    {
        let u = concat(join_url(self.base_url.as_str(), path), KEY_QUERY);
        concat(u, REDACTED_KEY)
    }

    /// The streaming request URL as it may be logged: the key is replaced.
    pub fn redacted_post_sse_url(&self, path: &str) -> (r: String)
        ensures
            r@ == post_sse_url_of(self.base_url_view(), path@, REDACTED_KEY@),
    {
        let u = concat(join_url(self.base_url.as_str(), path), SSE_KEY_QUERY);
        concat(u, REDACTED_KEY)
    }

    /// Whether this client offers `c`: completion, embeddings and
    /// transcription are offered.
    pub fn capability(&self, c: Capability) -> (r: Result<(), UnsupportedCapability>)
        ensures
            r == capability_answer(ProviderKind::Gemini, c),
    {
        check_capability(ProviderKind::Gemini, c)
    }

    /// The image generation query: refused, as this provider offers none.
    pub fn image_generation_model(&self, model: &str) -> (r: Result<(), UnsupportedCapability>)
        ensures
            r == Err::<(), UnsupportedCapability>(
                UnsupportedCapability { provider: ProviderKind::Gemini, capability: Capability::ImageGeneration },
            ),
    {
        check_capability(ProviderKind::Gemini, Capability::ImageGeneration)
    }

    /// The audio generation query: refused, as this provider offers none.
    pub fn audio_generation_model(&self, model: &str) -> (r: Result<(), UnsupportedCapability>)
        ensures
            r == Err::<(), UnsupportedCapability>(
                UnsupportedCapability { provider: ProviderKind::Gemini, capability: Capability::AudioGeneration },
            ),
    {
        check_capability(ProviderKind::Gemini, Capability::AudioGeneration)
    }

    /// A handle on the completion model named `model`; no request is made.
    pub fn completion_model(&self, model: &str) -> (r: CompletionModel)
        ensures
            r.model@ == model@,
            r.client.base_url_view() == self.base_url_view(),
            r.client.api_key_view() == self.api_key_view(),
            r.client.headers_view() == self.headers_view(),
    {
        CompletionModel { client: self.copy(), model: String::from_str(model) }
    }

    /// A handle on the embedding model named `model`, whose size is known
    /// for well-known names and zero otherwise. Prefer
    /// `embedding_model_with_ndims` for any other model.
    pub fn embedding_model(&self, model: &str) -> (r: EmbeddingModel)
        ensures
            r.model@ == model@,
            r.ndims == default_ndims(model@),
            r.client.base_url_view() == self.base_url_view(),
            r.client.api_key_view() == self.api_key_view(),
            r.client.headers_view() == self.headers_view(),
    {
        let ndims: usize = if same_text(model, EMBEDDING_001) || same_text(model, EMBEDDING_004) {
            768
        } else {
            0
        };
        EmbeddingModel { client: self.copy(), model: String::from_str(model), ndims }
    }

    /// A handle on the embedding model named `model`, of size `ndims`.
    pub fn embedding_model_with_ndims(&self, model: &str, ndims: usize) -> (r: EmbeddingModel)
        ensures
            r.model@ == model@,
            r.ndims == ndims,
            r.client.base_url_view() == self.base_url_view(),
            r.client.api_key_view() == self.api_key_view(),
            r.client.headers_view() == self.headers_view(),
    {
        EmbeddingModel { client: self.copy(), model: String::from_str(model), ndims }
    }

    /// A handle on the transcription model named `model`.
    pub fn transcription_model(&self, model: &str) -> (r: TranscriptionModel)
        ensures
            r.model@ == model@,
            r.client.base_url_view() == self.base_url_view(),
            r.client.api_key_view() == self.api_key_view(),
            r.client.headers_view() == self.headers_view(),
    {
        TranscriptionModel { client: self.copy(), model: String::from_str(model) }
    }

    /// A second handle on the same configuration.
    fn copy(&self) -> (r: Client)
        ensures
            r.base_url_view() == self.base_url_view(),
            r.api_key_view() == self.api_key_view(),
            r.headers_view() == self.headers_view(),
    {
        Client {
            base_url: self.base_url.clone(),
            api_key: self.api_key.clone(),
            headers: copy_pairs(&self.headers),
        }
    }
}

/// A completion model of a Gemini client.
#[derive(Clone, Debug)]
pub struct CompletionModel {
    pub client: Client,
    pub model: String,
}

/// An embedding model of a Gemini client, with the size of its vectors.
#[derive(Clone, Debug)]
pub struct EmbeddingModel {
    pub client: Client,
    pub model: String,
    pub ndims: usize,
}

/// A transcription model of a Gemini client.
#[derive(Clone, Debug)]
pub struct TranscriptionModel {
    pub client: Client,
    pub model: String,
}

} // verus!
