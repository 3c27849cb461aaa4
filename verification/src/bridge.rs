//! The decisions of the HTTP shell: the bridge's shared state, the upstream
//! URLs, the route table, how a request authenticates upstream, and how an
//! upstream reply is turned into the reply to Codex.
use vstd::prelude::*;
use std::sync::Arc;
use crate::config::{BridgeConfig, IpAddress, ReasoningConfig};
use crate::provider::CodexChatReasoningConfig;
use crate::text::{
    lemma_strip_leading_shape, lemma_strip_trailing_shape, strip_leading, strip_trailing,
    trim_end_char, trim_start_char,
};

verus! {

/// The descriptor that the `reasoning` section of the configuration asks for.
pub open spec fn reasoning_descriptor(r: ReasoningConfig) -> CodexChatReasoningConfig {
    CodexChatReasoningConfig {
        supports_thinking: r.supports_thinking,
        supports_effort: r.supports_effort,
        thinking_param: r.thinking_param,
        effort_param: r.effort_param,
        effort_value_mode: r.effort_value_mode,
        output_format: r.output_format,
    }
}

/// `base` without its trailing slashes, one slash, then `endpoint` without
/// its leading slashes.
pub open spec fn join_url(base: Seq<char>, endpoint: Seq<char>) -> Seq<char> {
    strip_trailing(base, '/') + seq!['/'] + strip_leading(endpoint, '/')
}

fn clone_opt_string(s: &Option<String>) -> (r: Option<String>)
    ensures
        r == *s,
{
    match s {
        Some(v) => Some(v.clone()),
        None => None,
    }
}

/// The descriptor copies every field of the `reasoning` section under the
/// same name, and a section counts as unset exactly when all six of its
/// fields are `None`.
pub proof fn reasoning_descriptor_copies_each_field(r: ReasoningConfig)
    ensures
        reasoning_descriptor(r).supports_thinking == r.supports_thinking,
        reasoning_descriptor(r).supports_effort == r.supports_effort,
        reasoning_descriptor(r).thinking_param == r.thinking_param,
        reasoning_descriptor(r).effort_param == r.effort_param,
        reasoning_descriptor(r).effort_value_mode == r.effort_value_mode,
        reasoning_descriptor(r).output_format == r.output_format,
        r.is_unset() <==> (r.supports_thinking is None && r.supports_effort is None
            && r.thinking_param is None && r.effort_param is None && r.effort_value_mode is None
            && r.output_format is None),
{
}

/// Builds the reasoning descriptor from the `reasoning` section of the
/// configuration. Returns `None` when the section is entirely empty (all
/// fields are `None`), so the translator falls back to its built-in
/// model-name inference.
pub fn reasoning_config_from_config(config: &BridgeConfig) -> (r: Option<
    Arc<CodexChatReasoningConfig>,
>)
    ensures
        r is None <==> config.reasoning.is_unset(),
        r matches Some(d) ==> *d == reasoning_descriptor(config.reasoning),
        r is None <==> (config.reasoning.supports_thinking is None
            && config.reasoning.supports_effort is None && config.reasoning.thinking_param is None
            && config.reasoning.effort_param is None && config.reasoning.effort_value_mode is None
            && config.reasoning.output_format is None),
        r matches Some(d) ==> d.supports_thinking == config.reasoning.supports_thinking,
        r matches Some(d) ==> d.supports_effort == config.reasoning.supports_effort,
        r matches Some(d) ==> d.thinking_param == config.reasoning.thinking_param,
        r matches Some(d) ==> d.effort_param == config.reasoning.effort_param,
        r matches Some(d) ==> d.effort_value_mode == config.reasoning.effort_value_mode,
        r matches Some(d) ==> d.output_format == config.reasoning.output_format,
{
    let r = &config.reasoning;
    let any_set = r.supports_thinking.is_some() || r.supports_effort.is_some()
        || r.thinking_param.is_some() || r.effort_param.is_some()
        || r.effort_value_mode.is_some() || r.output_format.is_some();
    if !any_set {
        return None;
    }
    Some(
        Arc::new(
            CodexChatReasoningConfig {
                supports_thinking: r.supports_thinking,
                supports_effort: r.supports_effort,
                thinking_param: clone_opt_string(&r.thinking_param),
                effort_param: clone_opt_string(&r.effort_param),
                effort_value_mode: clone_opt_string(&r.effort_value_mode),
                output_format: clone_opt_string(&r.output_format),
            },
        ),
    )
}

/// The state that every request handler shares: the validated configuration
/// and the reasoning descriptor derived from it.
#[derive(Debug)]
pub struct BridgeState {
    config: Arc<BridgeConfig>,
    reasoning_config: Option<Arc<CodexChatReasoningConfig>>,
}

impl BridgeState {
    /// The reasoning descriptor is the one that the configuration asks for.
    #[verifier::type_invariant]
    spec fn reasoning_matches_config(&self) -> bool {
        match self.reasoning_config {
            None => self.config.reasoning.is_unset(),
            Some(d) => !self.config.reasoning.is_unset() && *d == reasoning_descriptor(
                self.config.reasoning,
            ),
        }
    }

    /// The configuration the state was made from.
    pub closed spec fn spec_config(&self) -> BridgeConfig {
        *self.config
    }

    /// Makes the shared state for `config`.
    pub fn new(config: BridgeConfig) -> (s: Self)
        ensures
            s.spec_config() == config,
    {
        let reasoning_config = reasoning_config_from_config(&config);
        BridgeState { config: Arc::new(config), reasoning_config }
    }

    /// The configuration the state was made from.
    pub fn config(&self) -> (r: &BridgeConfig)
        ensures
            *r == self.spec_config(),
    {
        &self.config
    }

    /// The reasoning descriptor handed to the translator: `None` when the
    /// configuration sets no override.
    pub fn reasoning_config(&self) -> (r: Option<Arc<CodexChatReasoningConfig>>)
        ensures
            r is None <==> self.spec_config().reasoning.is_unset(),
            r matches Some(d) ==> *d == reasoning_descriptor(self.spec_config().reasoning),
            r is None <==> (self.spec_config().reasoning.supports_thinking is None
                && self.spec_config().reasoning.supports_effort is None
                && self.spec_config().reasoning.thinking_param is None
                && self.spec_config().reasoning.effort_param is None
                && self.spec_config().reasoning.effort_value_mode is None
                && self.spec_config().reasoning.output_format is None),
            r matches Some(d) ==> d.supports_thinking == self.spec_config().reasoning.supports_thinking,
            r matches Some(d) ==> d.supports_effort == self.spec_config().reasoning.supports_effort,
            r matches Some(d) ==> d.thinking_param == self.spec_config().reasoning.thinking_param,
            r matches Some(d) ==> d.effort_param == self.spec_config().reasoning.effort_param,
            r matches Some(d) ==> d.effort_value_mode
                == self.spec_config().reasoning.effort_value_mode,
            r matches Some(d) ==> d.output_format == self.spec_config().reasoning.output_format,
    {
        proof {
            use_type_invariant(self);
        }
        match &self.reasoning_config {
            Some(d) => Some(d.clone()),
            None => None,
        }
    }

    /// The address and port the listener binds.
    pub fn bind_addr(&self) -> (r: (IpAddress, u16))
        ensures
            r.0 == self.spec_config().server.host,
            r.1 == self.spec_config().server.port,
    {
        (self.config.server.host, self.config.server.port)
    }

    /// The upstream URL of `endpoint`: the base URL without its trailing
    /// slashes, one slash, and the endpoint without its leading slashes.
    pub fn upstream_url(&self, endpoint: &str) -> (r: String)
        ensures
            r@ == join_url(self.spec_config().upstream.base_url@, endpoint@),
    {
        let mut r = trim_end_char(self.config.upstream.base_url.as_str(), '/');
        let tail = trim_start_char(endpoint, '/');
        r.append("/");
        r.append(tail.as_str());
        proof {
            reveal_strlit("/");
            assert(r@ =~= join_url(self.spec_config().upstream.base_url@, endpoint@));
        }
        r
    }

    /// The upstream Chat Completions URL.
    pub fn chat_url(&self) -> (r: String)
        ensures
            r@ == join_url(
                self.spec_config().upstream.base_url@,
                self.spec_config().upstream.chat_endpoint@,
            ),
    {
        self.upstream_url(self.config.upstream.chat_endpoint.as_str())
    }
}

impl Clone for BridgeState {
    fn clone(&self) -> (r: Self)
        ensures
            r.spec_config() == self.spec_config(),
    {
        proof {
            use_type_invariant(self);
        }
        BridgeState {
            config: self.config.clone(),
            reasoning_config: match &self.reasoning_config {
                Some(d) => Some(d.clone()),
                None => None,
            },
        }
    }
}

/// Slashes added at the end of the base URL, or at the start of the
/// endpoint, leave the upstream URL unchanged.
pub proof fn upstream_url_ignores_extra_slashes(base: Seq<char>, endpoint: Seq<char>)
    ensures
        join_url(base.push('/'), endpoint) == join_url(base, endpoint),
        join_url(base, seq!['/'] + endpoint) == join_url(base, endpoint),
{
    assert(base.push('/').drop_last() =~= base);
    assert((seq!['/'] + endpoint).drop_first() =~= endpoint);
}

/// The upstream URL is a prefix of the base URL that leaves out only
/// slashes and does not end in one, then exactly one slash, then a suffix of
/// the endpoint that leaves out only slashes and does not start with one.
pub proof fn upstream_url_has_one_separator(base: Seq<char>, endpoint: Seq<char>)
    ensures
        ({
            let k: int = strip_trailing(base, '/').len() as int;
            let m: int = endpoint.len() - strip_leading(endpoint, '/').len();
            let u = join_url(base, endpoint);
            &&& 0 <= k <= base.len()
            &&& 0 <= m <= endpoint.len()
            &&& u == base.take(k) + seq!['/'] + endpoint.skip(m)
            &&& forall|i: int| k <= i < base.len() ==> #[trigger] base[i] == '/'
            &&& forall|i: int| 0 <= i < m ==> #[trigger] endpoint[i] == '/'
            &&& k > 0 ==> u[k - 1] != '/'
            &&& u[k] == '/'
            &&& k + 1 < u.len() ==> u[k + 1] != '/'
        }),
{
    lemma_strip_trailing_shape(base, '/');
    lemma_strip_leading_shape(endpoint, '/');
    let k: int = strip_trailing(base, '/').len() as int;
    let m: int = endpoint.len() - strip_leading(endpoint, '/').len();
    let u = join_url(base, endpoint);
    assert(u =~= base.take(k) + seq!['/'] + endpoint.skip(m));
    if k > 0 {
        assert(u[k - 1] == strip_trailing(base, '/').last());
    }
    if k + 1 < u.len() {
        assert(u[k + 1] == strip_leading(endpoint, '/')[0]);
    }
}

/// The HTTP methods the bridge serves.
#[derive(Debug, Clone, Copy, PartialEq, Eq)]
pub enum HttpMethod {
    Get,
    Post,
}

/// The handlers a route leads to.
#[derive(Debug, Clone, Copy, PartialEq, Eq)]
pub enum Endpoint {
    /// The liveness probe.
    Health,
    /// The Responses -> Chat Completions bridge.
    Responses,
    /// The upstream model catalog.
    Models,
}

/// One entry of the route table.
#[derive(Debug, Clone)]
pub struct Route {
    pub method: HttpMethod,
    pub path: String,
    pub endpoint: Endpoint,
}

/// The routes the bridge serves, in the order they are registered.
pub open spec fn route_table() -> Seq<(HttpMethod, Seq<char>, Endpoint)> {
    seq![
        (HttpMethod::Get, "/health"@, Endpoint::Health),
        (HttpMethod::Post, "/v1/responses"@, Endpoint::Responses),
        (HttpMethod::Post, "/responses"@, Endpoint::Responses),
        (HttpMethod::Post, "/v1/responses/compact"@, Endpoint::Responses),
        (HttpMethod::Post, "/responses/compact"@, Endpoint::Responses),
        (HttpMethod::Get, "/v1/models"@, Endpoint::Models),
        (HttpMethod::Get, "/models"@, Endpoint::Models),
    ]
}

fn route(method: HttpMethod, path: &str, endpoint: Endpoint) -> (r: Route)
    ensures
        r.method == method,
        r.path@ == path@,
        r.endpoint == endpoint,
{
    Route { method, path: String::from_str(path), endpoint }
}

/// The route table: the health probe, the Responses route with its aliases
/// and its `/compact` forms, and the model catalog with its alias.
pub fn routes() -> (r: Vec<Route>)
    ensures
        r@.len() == route_table().len(),
        forall|i: int|
            0 <= i < r@.len() ==> (#[trigger] r@[i].method, r@[i].path@, r@[i].endpoint)
                == route_table()[i],
{
    let mut r: Vec<Route> = Vec::new();
    r.push(route(HttpMethod::Get, "/health", Endpoint::Health));
    r.push(route(HttpMethod::Post, "/v1/responses", Endpoint::Responses));
    r.push(route(HttpMethod::Post, "/responses", Endpoint::Responses));
    r.push(route(HttpMethod::Post, "/v1/responses/compact", Endpoint::Responses));
    r.push(route(HttpMethod::Post, "/responses/compact", Endpoint::Responses));
    r.push(route(HttpMethod::Get, "/v1/models", Endpoint::Models));
    r.push(route(HttpMethod::Get, "/models", Endpoint::Models));
    r
}

/// No two routes of the table share a path, so registering the table never
/// registers one path twice.
pub proof fn route_paths_are_distinct()
    ensures
        forall|i: int, j: int|
            0 <= i < j < route_table().len() ==> #[trigger] route_table()[i].1
                != #[trigger] route_table()[j].1,
{
    reveal_strlit("/health");
    reveal_strlit("/v1/responses");
    reveal_strlit("/responses");
    reveal_strlit("/v1/responses/compact");
    reveal_strlit("/responses/compact");
    reveal_strlit("/v1/models");
    reveal_strlit("/models");
    let t = route_table();
    assert(t[0].1.len() == 7 && t[1].1.len() == 13 && t[2].1.len() == 10 && t[3].1.len() == 21
        && t[4].1.len() == 18 && t[5].1.len() == 10 && t[6].1.len() == 7);
    assert(t[0].1[1] != t[6].1[1]);
    assert(t[2].1[1] != t[5].1[1]);
    assert forall|i: int, j: int| 0 <= i < j < t.len() implies #[trigger] t[i].1 != #[trigger] t[j].1 by {
        if (i == 0 && j == 6) {
            assert(t[i].1[1] != t[j].1[1]);
        } else if (i == 2 && j == 5) {
            assert(t[i].1[1] != t[j].1[1]);
        } else {
            assert(t[i].1.len() != t[j].1.len());
        }
    }
}

/// The body of the health probe, as its (key, value) pairs in order:
/// `{"status":"ok","service":"codex-bridge"}`.
pub fn health_payload() -> (r: Vec<(String, String)>)
    ensures
        r@.len() == 2,
        r@[0].0@ == "status"@,
        r@[0].1@ == "ok"@,
        r@[1].0@ == "service"@,
        r@[1].1@ == "codex-bridge"@,
{
    let mut r: Vec<(String, String)> = Vec::new();
    r.push((String::from_str("status"), String::from_str("ok")));
    r.push((String::from_str("service"), String::from_str("codex-bridge")));
    r
}

/// How a forwarded request authenticates with the upstream.
#[derive(Debug, Clone)]
pub enum UpstreamAuth {
    /// Bearer authentication with the configured API key.
    Bearer(String),
    /// The inbound `Authorization` header value, passed on unchanged.
    Forward(Vec<u8>),
    /// No authentication.
    Omitted,
}

/// Chooses the upstream authentication. `configured_key` is the value of the
/// environment variable that `upstream.api_key_env` names, where both are
/// present; `incoming_authorization` is the inbound `Authorization` header.
/// A non-empty configured key wins; otherwise the inbound header is
/// forwarded; otherwise the request goes out without authentication.
pub fn choose_upstream_auth(
    configured_key: Option<String>,
    incoming_authorization: Option<Vec<u8>>,
) -> (r: UpstreamAuth)
    ensures
        (configured_key matches Some(k) && k@.len() > 0) ==> r == UpstreamAuth::Bearer(
            configured_key->0,
        ),
        !(configured_key matches Some(k) && k@.len() > 0) ==> r == match incoming_authorization {
            Some(h) => UpstreamAuth::Forward(h),
            None => UpstreamAuth::Omitted,
        },
{
    if let Some(k) = configured_key {
        if k.as_str().unicode_len() > 0 {
            return UpstreamAuth::Bearer(k);
        }
    }
    match incoming_authorization {
        Some(h) => UpstreamAuth::Forward(h),
        None => UpstreamAuth::Omitted,
    }
}

/// Whether an HTTP status is in the success class, 200 to 299.
pub fn status_is_success(status: u16) -> (r: bool)
    ensures
        r == (200 <= status < 300),
{
    200 <= status && status < 300
}

/// How the bridge answers a Responses request once the upstream has replied.
#[derive(Debug, Clone, Copy, PartialEq, Eq)]
pub enum ResponsesReply {
    /// The upstream failed: its error body is mapped to a Responses error and
    /// sent with the upstream's status.
    UpstreamError { status: u16 },
    /// The Chat completion is converted to a Responses object, recorded in
    /// the history, and sent with status 200.
    Json,
    /// The Chat event stream is converted to a Responses event stream,
    /// recorded as it passes, and sent with status 200 and the event-stream
    /// headers.
    EventStream,
}

/// Decides the reply to a Responses request. `stream_field` is the request's
/// `stream` member when it is a boolean; a request without one is not
/// streamed.
pub fn plan_responses_reply(stream_field: Option<bool>, upstream_status: u16) -> (r:
    ResponsesReply)
    ensures
        !(200 <= upstream_status < 300) ==> r == (ResponsesReply::UpstreamError {
            status: upstream_status,
        }),
        200 <= upstream_status < 300 && stream_field == Some(true) ==> r
            == ResponsesReply::EventStream,
        200 <= upstream_status < 300 && stream_field != Some(true) ==> r == ResponsesReply::Json,
{
    let stream = match stream_field {
        Some(b) => b,
        None => false,
    };
    if !status_is_success(upstream_status) {
        ResponsesReply::UpstreamError { status: upstream_status }
    } else if stream {
        ResponsesReply::EventStream
    } else {
        ResponsesReply::Json
    }
}

/// The headers of a streamed Responses reply, as (name, value) pairs.
pub fn event_stream_headers() -> (r: Vec<(String, String)>)
    ensures
        r@.len() == 2,
        r@[0].0@ == "content-type"@,
        r@[0].1@ == "text/event-stream; charset=utf-8"@,
        r@[1].0@ == "cache-control"@,
        r@[1].1@ == "no-cache, no-transform"@,
{
    let mut r: Vec<(String, String)> = Vec::new();
    r.push((String::from_str("content-type"), String::from_str("text/event-stream; charset=utf-8")));
    r.push((String::from_str("cache-control"), String::from_str("no-cache, no-transform")));
    r
}

/// The bytes of `application/json`.
pub open spec fn json_content_type() -> Seq<u8> {
    "application/json"@.map_values(|c: char| c as u8)
}

/// The content type of a passed-through upstream reply: the upstream's own,
/// or `application/json` when it sent none.
pub fn passthrough_content_type(upstream: Option<Vec<u8>>) -> (r: Vec<u8>)
    ensures
        upstream matches Some(v) ==> r@ == v@,
        upstream is None ==> r@ == json_content_type(),
{
    match upstream {
        Some(v) => v,
        None => {
            let r = "application/json".as_bytes_vec();
            proof {
                reveal_strlit("application/json");
                broadcast use vstd::string::is_ascii_spec_bytes;
                assert(vstd::string::is_ascii("application/json"));
                assert(r@ =~= json_content_type());
            }
            r
        },
    }
}

} // verus!
