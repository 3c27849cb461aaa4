use codex_bridge_cli::bridge::{
    choose_upstream_auth, event_stream_headers, health_payload, passthrough_content_type,
    plan_responses_reply, reasoning_config_from_config, routes, status_is_success, BridgeState,
    Endpoint, HttpMethod, ResponsesReply, UpstreamAuth,
};
use codex_bridge_cli::config::{
    BridgeConfig, HistoryConfig, IpAddress, ReasoningConfig, ServerConfig, UpstreamConfig,
};
use codex_bridge_cli::provider::CodexChatReasoningConfig;

fn config(base_url: &str, chat_endpoint: &str) -> BridgeConfig {
    BridgeConfig {
        upstream: UpstreamConfig {
            base_url: base_url.to_string(),
            chat_endpoint: chat_endpoint.to_string(),
            api_key_env: None,
            timeout: 300,
        },
        server: ServerConfig::default(),
        history: HistoryConfig::default(),
        reasoning: ReasoningConfig::default(),
    }
}

#[test]
fn chat_url_joins_base_and_endpoint() {
    let state = BridgeState::new(config("http://127.0.0.1:4000", "/v1/chat/completions"));
    assert_eq!(state.chat_url(), "http://127.0.0.1:4000/v1/chat/completions");
}

#[test]
fn upstream_url_drops_extra_slashes() {
    let state = BridgeState::new(config("http://127.0.0.1:4000///", "/v1/chat/completions"));
    assert_eq!(state.upstream_url("/v1/models"), "http://127.0.0.1:4000/v1/models");
    assert_eq!(state.upstream_url("//v1/models"), "http://127.0.0.1:4000/v1/models");
    assert_eq!(state.upstream_url("v1/models"), "http://127.0.0.1:4000/v1/models");
    assert_eq!(state.upstream_url(""), "http://127.0.0.1:4000/");
    assert_eq!(state.upstream_url("a//b/"), "http://127.0.0.1:4000/a//b/");
}

#[test]
fn upstream_url_of_slash_only_base() {
    let state = BridgeState::new(config("///", "/v1"));
    assert_eq!(state.chat_url(), "/v1");
    let state = BridgeState::new(config("http://héllo/", "/ü"));
    assert_eq!(state.chat_url(), "http://héllo/ü");
}

#[test]
fn bind_addr_is_the_configured_listener() {
    let mut cfg = config("http://x", "/v1");
    cfg.server = ServerConfig { host: IpAddress::V6([0, 0, 0, 0, 0, 0, 0, 1]), port: 8080 };
    let state = BridgeState::new(cfg);
    assert_eq!(state.bind_addr(), (IpAddress::V6([0, 0, 0, 0, 0, 0, 0, 1]), 8080));
    let state = BridgeState::new(config("http://x", "/v1"));
    assert_eq!(state.bind_addr(), (IpAddress::V4([127, 0, 0, 1]), 4010));
}

#[test]
fn empty_reasoning_section_gives_no_override() {
    let cfg = config("http://x", "/v1");
    assert!(reasoning_config_from_config(&cfg).is_none());
    assert!(BridgeState::new(cfg).reasoning_config().is_none());
}

#[test]
fn reasoning_section_is_copied_into_the_descriptor() {
    let mut cfg = config("http://x", "/v1");
    cfg.reasoning.supports_thinking = Some(true);
    cfg.reasoning.thinking_param = Some("thinking".to_string());
    let d = reasoning_config_from_config(&cfg).unwrap();
    let expected = CodexChatReasoningConfig {
        supports_thinking: Some(true),
        thinking_param: Some("thinking".to_string()),
        ..CodexChatReasoningConfig::default()
    };
    assert_eq!(*d, expected);
    let state = BridgeState::new(cfg);
    assert_eq!(*state.reasoning_config().unwrap(), expected);
    assert_eq!(state.clone().config().upstream.base_url, "http://x");

    let mut cfg = config("http://x", "/v1");
    cfg.reasoning.output_format = Some(String::new());
    let d = reasoning_config_from_config(&cfg).unwrap();
    assert_eq!(d.output_format.as_deref(), Some(""));
    assert!(d.supports_thinking.is_none());
}

#[test]
fn route_table_lists_every_endpoint() {
    let table: Vec<(HttpMethod, String, Endpoint)> =
        routes().into_iter().map(|r| (r.method, r.path, r.endpoint)).collect();
    let expected = vec![
        (HttpMethod::Get, "/health".to_string(), Endpoint::Health),
        (HttpMethod::Post, "/v1/responses".to_string(), Endpoint::Responses),
        (HttpMethod::Post, "/responses".to_string(), Endpoint::Responses),
        (HttpMethod::Post, "/v1/responses/compact".to_string(), Endpoint::Responses),
        (HttpMethod::Post, "/responses/compact".to_string(), Endpoint::Responses),
        (HttpMethod::Get, "/v1/models".to_string(), Endpoint::Models),
        (HttpMethod::Get, "/models".to_string(), Endpoint::Models),
    ];
    assert_eq!(table, expected);
    let mut paths: Vec<String> = table.into_iter().map(|t| t.1).collect();
    paths.sort();
    paths.dedup();
    assert_eq!(paths.len(), 7);
}

#[test]
fn health_payload_is_status_ok() {
    assert_eq!(
        health_payload(),
        vec![
            ("status".to_string(), "ok".to_string()),
            ("service".to_string(), "codex-bridge".to_string()),
        ]
    );
}

#[test]
fn configured_key_wins_over_inbound_authorization() {
    match choose_upstream_auth(Some("sk-1".to_string()), Some(b"Bearer in".to_vec())) {
        UpstreamAuth::Bearer(k) => assert_eq!(k, "sk-1"),
        other => panic!("{other:?}"),
    }
}

#[test]
fn empty_or_missing_key_forwards_inbound_authorization() {
    match choose_upstream_auth(Some(String::new()), Some(b"Bearer in".to_vec())) {
        UpstreamAuth::Forward(h) => assert_eq!(h, b"Bearer in".to_vec()),
        other => panic!("{other:?}"),
    }
    match choose_upstream_auth(None, Some(b"Basic x".to_vec())) {
        UpstreamAuth::Forward(h) => assert_eq!(h, b"Basic x".to_vec()),
        other => panic!("{other:?}"),
    }
    assert!(matches!(choose_upstream_auth(None, None), UpstreamAuth::Omitted));
    assert!(matches!(choose_upstream_auth(Some(String::new()), None), UpstreamAuth::Omitted));
}

#[test]
fn success_is_the_2xx_class() {
    assert!(!status_is_success(199));
    assert!(status_is_success(200));
    assert!(status_is_success(299));
    assert!(!status_is_success(300));
    assert!(!status_is_success(502));
}

#[test]
fn responses_reply_follows_status_and_stream_flag() {
    assert_eq!(plan_responses_reply(None, 200), ResponsesReply::Json);
    assert_eq!(plan_responses_reply(Some(false), 201), ResponsesReply::Json);
    assert_eq!(plan_responses_reply(Some(true), 200), ResponsesReply::EventStream);
    assert_eq!(
        plan_responses_reply(Some(true), 401),
        ResponsesReply::UpstreamError { status: 401 }
    );
    assert_eq!(
        plan_responses_reply(None, 500),
        ResponsesReply::UpstreamError { status: 500 }
    );
}

#[test]
fn event_stream_headers_are_sse() {
    assert_eq!(
        event_stream_headers(),
        vec![
            ("content-type".to_string(), "text/event-stream; charset=utf-8".to_string()),
            ("cache-control".to_string(), "no-cache, no-transform".to_string()),
        ]
    );
}

#[test]
fn passthrough_content_type_defaults_to_json() {
    assert_eq!(passthrough_content_type(None), b"application/json".to_vec());
    assert_eq!(passthrough_content_type(Some(b"text/plain".to_vec())), b"text/plain".to_vec());
}
