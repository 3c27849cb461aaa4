//! The bridge's configuration: its sections, the defaults of the fields that
//! the configuration file may leave out, and the startup validation.
use vstd::prelude::*;
use crate::text::{blank, is_blank, is_white_space, starts_with_char};

verus! {

/// The whole configuration file.
#[derive(Debug, Clone)]
pub struct BridgeConfig {
    pub upstream: UpstreamConfig,
    pub server: ServerConfig,
    pub history: HistoryConfig,
    pub reasoning: ReasoningConfig,
}

/// Where the Chat Completions upstream lives and how to reach it.
#[derive(Debug, Clone)]
pub struct UpstreamConfig {
    pub base_url: String,
    pub chat_endpoint: String,
    pub api_key_env: Option<String>,
    /// Request timeout, in seconds.
    pub timeout: u64,
}

/// An IP address, as the listener binds it.
#[derive(Debug, Clone, Copy, PartialEq, Eq)]
pub enum IpAddress {
    V4([u8; 4]),
    V6([u16; 8]),
}

/// The listener's address.
#[derive(Debug, Clone)]
pub struct ServerConfig {
    pub host: IpAddress,
    pub port: u16,
}

/// The in-memory response history.
#[derive(Debug, Clone)]
pub struct HistoryConfig {
    pub max_cached_responses: usize,
}

/// Optional per-model reasoning capability overrides.
///
/// When present, the translator uses these values instead of inferring
/// reasoning parameters from the model name.
#[derive(Debug, Clone)]
pub struct ReasoningConfig {
    pub supports_thinking: Option<bool>,
    pub supports_effort: Option<bool>,
    pub thinking_param: Option<String>,
    pub effort_param: Option<String>,
    pub effort_value_mode: Option<String>,
    pub output_format: Option<String>,
}

/// Why a configuration was refused at startup.
#[derive(Debug, Clone)]
pub enum ConfigError {
    /// `upstream.base_url` is empty or only white space.
    EmptyBaseUrl,
    /// `upstream.chat_endpoint` is empty or only white space.
    EmptyChatEndpoint,
    /// `upstream.chat_endpoint` does not begin with `/`; it holds the endpoint.
    ChatEndpointWithoutLeadingSlash(String),
}

/// `127.0.0.1`.
pub open spec fn loopback_v4() -> IpAddress {
    IpAddress::V4([127u8, 0u8, 0u8, 1u8])
}

/// The address the listener binds when `server.host` is left out: 127.0.0.1.
pub fn default_host() -> (r: IpAddress)
    ensures
        r == loopback_v4(),
{
    IpAddress::V4([127u8, 0u8, 0u8, 1u8])
}

/// The port the listener binds when `server.port` is left out.
pub fn default_port() -> (r: u16)
    ensures
        r == 4010,
{
    4010
}

/// The Chat Completions path used when `upstream.chat_endpoint` is left out.
pub fn default_chat_endpoint() -> (r: String)
    ensures
        r@ == "/v1/chat/completions"@,
{
    String::from_str("/v1/chat/completions")
}

/// A configuration is valid exactly when its base URL is not blank and its
/// Chat endpoint is not blank and begins with `/`; nothing else is checked.
pub proof fn validity_is_the_three_upstream_checks(config: BridgeConfig)
    ensures
        config.is_valid() <==> ((exists|i: int|
            0 <= i < config.upstream.base_url@.len() && !is_white_space(
                #[trigger] config.upstream.base_url@[i],
            )) && (exists|i: int|
            0 <= i < config.upstream.chat_endpoint@.len() && !is_white_space(
                #[trigger] config.upstream.chat_endpoint@[i],
            )) && config.upstream.chat_endpoint@.len() > 0 && config.upstream.chat_endpoint@[0]
            == '/'),
{
}

/// With the default Chat Completions path, a configuration is valid exactly
/// when its base URL is not blank.
pub proof fn default_chat_endpoint_passes_validation(config: BridgeConfig)
    requires
        config.upstream.chat_endpoint@ == "/v1/chat/completions"@,
    ensures
        config.is_valid() <==> !is_blank(config.upstream.base_url@),
{
    reveal_strlit("/v1/chat/completions");
    assert(!is_white_space("/v1/chat/completions"@[0]));
}

/// The upstream timeout, in seconds, when `upstream.timeout` is left out.
pub fn default_timeout_secs() -> (r: u64)
    ensures
        r == 300,
{
    300
}

/// The history capacity when `history.max_cached_responses` is left out.
pub fn default_max_cached_responses() -> (r: usize)
    ensures
        r == 512,
{
    512
}

impl Default for ServerConfig {
    fn default() -> (r: Self)
        ensures
            r.host == loopback_v4(),
            r.port == 4010,
    {
        ServerConfig { host: default_host(), port: default_port() }
    }
}

impl Default for HistoryConfig {
    fn default() -> (r: Self)
        ensures
            r.max_cached_responses == 512,
    {
        HistoryConfig { max_cached_responses: default_max_cached_responses() }
    }
}

impl Default for ReasoningConfig {
    fn default() -> (r: Self)
        ensures
            r.is_unset(),
    {
        ReasoningConfig {
            supports_thinking: None,
            supports_effort: None,
            thinking_param: None,
            effort_param: None,
            effort_value_mode: None,
            output_format: None,
        }
    }
}

impl ReasoningConfig {
    /// No override is set.
    pub open spec fn is_unset(&self) -> bool {
        &&& self.supports_thinking is None
        &&& self.supports_effort is None
        &&& self.thinking_param is None
        &&& self.effort_param is None
        &&& self.effort_value_mode is None
        &&& self.output_format is None
    }
}

impl ConfigError {
    /// The text of the error, as the startup failure reports it.
    pub open spec fn spec_message(&self) -> Seq<char> {
        match self {
            ConfigError::EmptyBaseUrl => "upstream.base_url must not be empty"@,
            ConfigError::EmptyChatEndpoint => "upstream.chat_endpoint must not be empty"@,
            ConfigError::ChatEndpointWithoutLeadingSlash(endpoint) =>
                "upstream.chat_endpoint must start with '/': got '"@ + endpoint@ + "'"@,
        }
    }

    /// The text of the error, as the startup failure reports it.
    pub fn message(&self) -> (r: String)
        ensures
            r@ == self.spec_message(),
    {
        match self {
            ConfigError::EmptyBaseUrl => String::from_str("upstream.base_url must not be empty"),
            ConfigError::EmptyChatEndpoint => String::from_str(
                "upstream.chat_endpoint must not be empty",
            ),
            ConfigError::ChatEndpointWithoutLeadingSlash(endpoint) => {
                let mut r = String::from_str("upstream.chat_endpoint must start with '/': got '");
                r.append(endpoint.as_str());
                r.append("'");
                r
            },
        }
    }
}

impl BridgeConfig {
    /// The configuration passes startup validation.
    pub open spec fn is_valid(&self) -> bool {
        &&& !is_blank(self.upstream.base_url@)
        &&& !is_blank(self.upstream.chat_endpoint@)
        &&& starts_with_char(self.upstream.chat_endpoint@, '/')
    }

    /// Checks the upstream section: `base_url` must not be blank, and
    /// `chat_endpoint` must not be blank and must start with `/`. The checks
    /// run in that order and the first that fails is reported.
    pub fn validate(&self) -> (r: Result<(), ConfigError>)
        ensures
            r is Ok <==> self.is_valid(),
            r is Ok <==> (!is_blank(self.upstream.base_url@) && !is_blank(
                self.upstream.chat_endpoint@,
            ) && self.upstream.chat_endpoint@.len() > 0 && self.upstream.chat_endpoint@[0] == '/'),
            is_blank(self.upstream.base_url@) ==> r matches Err(ConfigError::EmptyBaseUrl),
            !is_blank(self.upstream.base_url@) && is_blank(self.upstream.chat_endpoint@) ==> r
                matches Err(ConfigError::EmptyChatEndpoint),
            !is_blank(self.upstream.base_url@) && !is_blank(self.upstream.chat_endpoint@)
                && !starts_with_char(self.upstream.chat_endpoint@, '/') ==> (r matches Err(
                ConfigError::ChatEndpointWithoutLeadingSlash(endpoint),
            ) && endpoint@ == self.upstream.chat_endpoint@),
    {
        if blank(self.upstream.base_url.as_str()) {
            return Err(ConfigError::EmptyBaseUrl);
        }
        if blank(self.upstream.chat_endpoint.as_str()) {
            return Err(ConfigError::EmptyChatEndpoint);
        }
        let endpoint = self.upstream.chat_endpoint.as_str();
        // The endpoint is not blank, so it holds at least one character.
        if endpoint.get_char(0) != '/' {
            return Err(ConfigError::ChatEndpointWithoutLeadingSlash(self.upstream.chat_endpoint.clone()));
        }
        Ok(())
    }
}

} // verus!
