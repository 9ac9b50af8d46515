use vstd::prelude::*;

use crate::capability::{capability_answer, check_capability, Capability, ProviderKind, UnsupportedCapability};
use crate::headers::{
    comma_joined, copy_pairs, is_valid_header_value, join_with_commas, pairs_view, strings_view,
    valid_header_value,
};
use crate::urls::{join_url, joined_url};

verus! {

pub const ANTHROPIC_API_BASE_URL: &'static str = "https://api.anthropic.com";

pub const ANTHROPIC_VERSION_LATEST: &'static str = "2023-06-01";

pub const API_KEY_HEADER: &'static str = "x-api-key";

pub const VERSION_HEADER: &'static str = "anthropic-version";

pub const BETA_HEADER: &'static str = "anthropic-beta";

/// Why a client could not be configured.
#[derive(Clone, Copy, Debug, PartialEq, Eq, Structural)]
pub enum ConfigError {
    /// No API key was available.
    MissingApiKey,
    /// The API key holds a character that an HTTP header cannot carry.
    InvalidApiKey,
    /// The protocol version holds a character that an HTTP header cannot carry.
    InvalidVersion,
    /// The joined beta flags hold a character that an HTTP header cannot carry.
    InvalidBetas,
}

/// The beta flags as character sequences, none when absent.
pub open spec fn betas_view(betas: Option<Vec<String>>) -> Seq<Seq<char>> {
    match betas {
        Some(v) => strings_view(v@),
        None => Seq::empty(),
    }
}

/// The value of the beta header: the flags joined by `,`, or no header at all
/// when there are no flags.
pub open spec fn beta_header_value(betas: Seq<Seq<char>>) -> Option<Seq<char>> {
    if betas.len() == 0 {
        None
    } else {
        Some(comma_joined(betas))
    }
}

/// The headers sent with every request, in order.
pub open spec fn default_headers(key: Seq<char>, version: Seq<char>, betas: Seq<Seq<char>>) -> Seq<
    (Seq<char>, Seq<char>),
> {
    let fixed = seq![(API_KEY_HEADER@, key), (VERSION_HEADER@, version)];
    match beta_header_value(betas) {
        Some(b) => fixed.push((BETA_HEADER@, b)),
        None => fixed,
    }
}

/// What configuring a client from these values gives: the first header value
/// that an HTTP header cannot carry is reported, else the client's headers.
pub open spec fn configured(key: Seq<char>, version: Seq<char>, betas: Seq<Seq<char>>) -> Result<
    Seq<(Seq<char>, Seq<char>)>,
    ConfigError,
> {
    if !valid_header_value(key) {
        Err(ConfigError::InvalidApiKey)
    } else if !valid_header_value(version) {
        Err(ConfigError::InvalidVersion)
    } else if betas.len() > 0 && !valid_header_value(comma_joined(betas)) {
        Err(ConfigError::InvalidBetas)
    } else {
        Ok(default_headers(key, version, betas))
    }
}

/// Staging values for an Anthropic client.
#[derive(Clone, Debug)]
pub struct ClientBuilder {
    pub api_key: String,
    pub base_url: String,
    pub anthropic_version: String,
    pub anthropic_betas: Option<Vec<String>>,
}

impl ClientBuilder {
    /// A builder with the given key, the public endpoint, the latest protocol
    /// version and no beta flags.
    pub fn new(api_key: &str) -> (r: Self)
        ensures
            r.api_key@ == api_key@,
            r.base_url@ == ANTHROPIC_API_BASE_URL@,
            r.anthropic_version@ == ANTHROPIC_VERSION_LATEST@,
            r.anthropic_betas is None,
    {
        ClientBuilder {
            api_key: String::from_str(api_key),
            base_url: String::from_str(ANTHROPIC_API_BASE_URL),
            anthropic_version: String::from_str(ANTHROPIC_VERSION_LATEST),
            anthropic_betas: None,
        }
    }

    /// Replaces the base URL.
    pub fn base_url(self, base_url: &str) -> (r: Self)
        ensures
            r.base_url@ == base_url@,
            r.api_key == self.api_key,
            r.anthropic_version == self.anthropic_version,
            r.anthropic_betas == self.anthropic_betas,
    {
        ClientBuilder { base_url: String::from_str(base_url), ..self }
    }

    /// Replaces the protocol version.
    pub fn anthropic_version(self, anthropic_version: &str) -> (r: Self)
        ensures
            r.anthropic_version@ == anthropic_version@,
            r.api_key == self.api_key,
            r.base_url == self.base_url,
            r.anthropic_betas == self.anthropic_betas,
    {
        ClientBuilder { anthropic_version: String::from_str(anthropic_version), ..self }
    }

    /// Appends one beta flag after those already given.
    pub fn anthropic_beta(self, anthropic_beta: &str) -> (r: Self)
        ensures
            r.anthropic_betas is Some,
            betas_view(r.anthropic_betas) == betas_view(self.anthropic_betas).push(anthropic_beta@),
            r.api_key == self.api_key,
            r.base_url == self.base_url,
            r.anthropic_version == self.anthropic_version,
    {
        let ClientBuilder { api_key, base_url, anthropic_version, anthropic_betas } = self;
        let mut betas = match anthropic_betas {
            Some(b) => b,
            None => Vec::new(),
        };
        let ghost before = betas@;
        betas.push(String::from_str(anthropic_beta));
        assert(strings_view(betas@) =~= strings_view(before).push(anthropic_beta@));
        ClientBuilder { api_key, base_url, anthropic_version, anthropic_betas: Some(betas) }
    }

    /// Builds the client, or reports the first value that cannot be sent.
    pub fn build(self) -> (r: Result<Client, ConfigError>)
        ensures
            match r {
                Ok(c) => configured(self.api_key@, self.anthropic_version@, betas_view(self.anthropic_betas))
                    == Ok::<Seq<(Seq<char>, Seq<char>)>, ConfigError>(c.headers_view())
                    && c.base_url_view() == self.base_url@,
                Err(e) => configured(self.api_key@, self.anthropic_version@, betas_view(self.anthropic_betas))
                    == Err::<Seq<(Seq<char>, Seq<char>)>, ConfigError>(e),
            },
    {
        Client::new(
            self.api_key.as_str(),
            self.base_url.as_str(),
            self.anthropic_betas,
            self.anthropic_version.as_str(),
        )
    }
}

/// The beta header's value for the given flags: `None` when there are none.
pub fn beta_header(betas: &Option<Vec<String>>) -> (r: Option<String>)
    ensures
        match r {
            Some(s) => beta_header_value(betas_view(*betas)) == Some(s@),
            None => beta_header_value(betas_view(*betas)) is None,
        },
{
    match betas {
        Some(v) => {
            if v.len() == 0 {
                None
            } else {
                Some(join_with_commas(v))
            }
        },
        None => None,
    }
}

/// A configured Anthropic client: its base URL and the headers that go with
/// every request. Nothing changes them after construction.
#[derive(Clone, Debug)]
pub struct Client {
    base_url: String,
    headers: Vec<(String, String)>,
}

impl Client {
    pub closed spec fn base_url_view(&self) -> Seq<char> {
        self.base_url@
    }

    pub closed spec fn headers_view(&self) -> Seq<(Seq<char>, Seq<char>)> {
        pairs_view(self.headers@)
    }

    /// The base URL requests go to.
    pub fn base_url(&self) -> (r: &str)
        ensures
            r@ == self.base_url_view(),
    {
        self.base_url.as_str()
    }

    /// The headers sent with every request, in order.
    pub fn headers(&self) -> (r: &Vec<(String, String)>)
        ensures
            pairs_view(r@) == self.headers_view(),
    {
        &self.headers
    }

    /// Configures a client. Fails when the key, the version or the joined
    /// beta flags hold a character that an HTTP header cannot carry.
    pub fn new(api_key: &str, base_url: &str, betas: Option<Vec<String>>, version: &str) -> (r:
        Result<Client, ConfigError>)
        ensures
            match r {
                Ok(c) => configured(api_key@, version@, betas_view(betas))
                    == Ok::<Seq<(Seq<char>, Seq<char>)>, ConfigError>(c.headers_view())
                    && c.base_url_view() == base_url@,
                Err(e) => configured(api_key@, version@, betas_view(betas))
                    == Err::<Seq<(Seq<char>, Seq<char>)>, ConfigError>(e),
            },
    {
        if !is_valid_header_value(api_key) {
            return Err(ConfigError::InvalidApiKey);
        }
        if !is_valid_header_value(version) {
            return Err(ConfigError::InvalidVersion);
        }
        let beta = beta_header(&betas);
        let mut headers: Vec<(String, String)> = Vec::new();
        headers.push((String::from_str(API_KEY_HEADER), String::from_str(api_key)));
        headers.push((String::from_str(VERSION_HEADER), String::from_str(version)));
        match beta {
            Some(b) => {
                if !is_valid_header_value(b.as_str()) {
                    return Err(ConfigError::InvalidBetas);
                }
                headers.push((String::from_str(BETA_HEADER), b));
            },
            None => {},
        }
        assert(pairs_view(headers@) =~= default_headers(api_key@, version@, betas_view(betas)));
        Ok(Client { base_url: String::from_str(base_url), headers })
    }

    /// Configures a client from the API key found in the environment, if any.
    pub fn from_env_key(api_key: Option<String>) -> (r: Result<Client, ConfigError>)
        ensures
            match api_key {
                None => r == Err::<Client, ConfigError>(ConfigError::MissingApiKey),
                Some(k) => match r {
                    Ok(c) => configured(k@, ANTHROPIC_VERSION_LATEST@, Seq::empty())
                        == Ok::<Seq<(Seq<char>, Seq<char>)>, ConfigError>(c.headers_view())
                        && c.base_url_view() == ANTHROPIC_API_BASE_URL@,
                    Err(e) => configured(k@, ANTHROPIC_VERSION_LATEST@, Seq::empty())
                        == Err::<Seq<(Seq<char>, Seq<char>)>, ConfigError>(e),
                },
            },
    {
        match api_key {
            None => Err(ConfigError::MissingApiKey),
            Some(k) => {
                let r = ClientBuilder::new(k.as_str()).build();
                r
            },
        }
    }

    /// The URL that a request for `path` goes to.
    pub fn post_url(&self, path: &str) -> (r: String)
        ensures
            r@ == joined_url(self.base_url_view(), path@),
    {
        join_url(self.base_url.as_str(), path)
    }

    /// Whether this client offers `c`; only completion is offered.
    pub fn capability(&self, c: Capability) -> (r: Result<(), UnsupportedCapability>)
        ensures
            r == capability_answer(ProviderKind::Anthropic, c),
    {
        check_capability(ProviderKind::Anthropic, c)
    }

    /// A handle on the completion model named `model`; no request is made.
    pub fn completion_model(&self, model: &str) -> (r: CompletionModel)
        ensures
            r.model@ == model@,
            r.client.base_url_view() == self.base_url_view(),
            r.client.headers_view() == self.headers_view(),
    {
        let client = Client { base_url: self.base_url.clone(), headers: copy_pairs(&self.headers) };
        CompletionModel { client, model: String::from_str(model) }
    }

    /// The embeddings query: refused, as this provider offers no embeddings.
    pub fn embedding_model(&self, model: &str) -> (r: Result<(), UnsupportedCapability>)
        ensures
            r == Err::<(), UnsupportedCapability>(
                UnsupportedCapability { provider: ProviderKind::Anthropic, capability: Capability::Embeddings },
            ),
    {
        check_capability(ProviderKind::Anthropic, Capability::Embeddings)
    }

    /// The transcription query: refused, as this provider offers no
    /// transcription.
    pub fn transcription_model(&self, model: &str) -> (r: Result<(), UnsupportedCapability>)
        ensures
            r == Err::<(), UnsupportedCapability>(
                UnsupportedCapability { provider: ProviderKind::Anthropic, capability: Capability::Transcription },
            ),
    {
        check_capability(ProviderKind::Anthropic, Capability::Transcription)
    }

    /// The image generation query: refused, as this provider offers none.
    pub fn image_generation_model(&self, model: &str) -> (r: Result<(), UnsupportedCapability>)
        ensures
            r == Err::<(), UnsupportedCapability>(
                UnsupportedCapability { provider: ProviderKind::Anthropic, capability: Capability::ImageGeneration },
            ),
    {
        check_capability(ProviderKind::Anthropic, Capability::ImageGeneration)
    }

    /// The audio generation query: refused, as this provider offers none.
    pub fn audio_generation_model(&self, model: &str) -> (r: Result<(), UnsupportedCapability>)
        ensures
            r == Err::<(), UnsupportedCapability>(
                UnsupportedCapability { provider: ProviderKind::Anthropic, capability: Capability::AudioGeneration },
            ),
    {
        check_capability(ProviderKind::Anthropic, Capability::AudioGeneration)
    }
}

/// A completion model of an Anthropic client.
#[derive(Clone, Debug)]
pub struct CompletionModel {
    pub client: Client,
    pub model: String,
}

} // verus!
