use this_env::env_request::{
    parse_env_request, EnvRequest, EnvRequestCli, EnvRequestHttp, EnvRequestInfo, RawRequest,
};
use this_env::str_map::StrMap;
use this_env::structs::{EnvRequestLog, EnvType, RouteInfo, TrustLevel};

#[test]
fn env_type_texts_round_trip() {
    for t in [EnvType::Localhost, EnvType::RemoteWeb, EnvType::Extension, EnvType::Desktop, EnvType::P2P] {
        assert_eq!(EnvType::from_sql_text(t.to_sql_text()), Some(t));
    }
    assert_eq!(EnvType::RemoteWeb.to_sql_text(), "RemoteWeb");
    assert_eq!(EnvType::from_sql_text("localhost"), None);
    assert_eq!(EnvType::from_sql_text(""), None);
}

#[test]
fn trust_level_texts_round_trip() {
    for t in [TrustLevel::Untrusted, TrustLevel::Low, TrustLevel::Medium, TrustLevel::High, TrustLevel::Full] {
        assert_eq!(TrustLevel::from_sql_text(t.to_sql_text()), Some(t));
    }
    assert_eq!(TrustLevel::High.to_sql_text(), "High");
    assert_eq!(TrustLevel::from_sql_text("Highest"), None);
}

#[test]
fn route_info_default() {
    let r = RouteInfo::default();
    assert_eq!(r.hit_count, 0);
    assert_eq!(r.last_seen, 0);
    assert!(r.metadata.entries.is_empty());
}

fn http_request() -> EnvRequest {
    let mut headers = StrMap::new();
    headers.insert("host".to_string(), "example.com".to_string());
    headers.insert("domain".to_string(), "neurons.me".to_string());
    EnvRequest::Http(EnvRequestHttp {
        host: "example.com".to_string(),
        ip: Some("1.2.3.4".to_string()),
        method: "POST".to_string(),
        path: "/login".to_string(),
        headers,
    })
}

#[test]
fn log_record_of_http_request() {
    let log = EnvRequestLog::from(&http_request(), "2024-05-01T12:00:00.5+00:00".to_string());
    assert_eq!(log.method, "POST");
    assert_eq!(log.path, "/login");
    assert_eq!(log.host, "example.com");
    assert_eq!(log.ip, Some("1.2.3.4".to_string()));
    assert_eq!(log.domain, "neurons.me");
    assert_eq!(log.decision, "");
    assert_eq!(log.reason, "");
    assert_eq!(log.headers, r#"{"domain":"neurons.me","host":"example.com"}"#);
    assert_eq!(log.timestamp, "2024-05-01T12:00:00.5+00:00");
}

#[test]
fn log_record_escapes_header_text() {
    let mut headers = StrMap::new();
    headers.insert("x-quote".to_string(), "say \"hi\"".to_string());
    let req = EnvRequest::Http(EnvRequestHttp {
        host: "h".to_string(),
        ip: None,
        method: "GET".to_string(),
        path: "/".to_string(),
        headers,
    });
    let log = EnvRequestLog::from(&req, "t".to_string());
    assert_eq!(log.headers, r#"{"x-quote":"say \"hi\""}"#);
    assert_eq!(log.domain, "h");
}

#[test]
fn log_record_from_parts() {
    let log = EnvRequestLog::from_parts(&http_request(), "2024-01-01T00:00:00+00:00".to_string(), "{}".to_string());
    assert_eq!(log.timestamp, "2024-01-01T00:00:00+00:00");
    assert_eq!(log.headers, "{}");
}

#[test]
fn info_of_each_kind() {
    let i = EnvRequestInfo::from(&http_request());
    assert_eq!(i.kind, "http");
    assert_eq!(i.method, Some("POST".to_string()));
    assert_eq!(i.path, Some("/login".to_string()));
    assert_eq!(i.headers.unwrap().get("domain"), Some(&"neurons.me".to_string()));
    assert_eq!(i.args, None);

    let cli = EnvRequest::Cli(EnvRequestCli {
        command: "deploy".to_string(),
        args: vec!["--force".to_string(), "prod".to_string()],
        env: StrMap::new(),
    });
    let i = EnvRequestInfo::from(&cli);
    assert_eq!(i.kind, "cli");
    assert_eq!(i.host, "localhost");
    assert_eq!(i.method, Some("deploy".to_string()));
    assert_eq!(i.path, Some("--force prod".to_string()));
    assert_eq!(i.args, Some(vec!["--force".to_string(), "prod".to_string()]));
    assert!(i.headers.is_none());
    assert_eq!(i.ip, None);
}

fn raw(upgrade: Option<&str>) -> RawRequest {
    RawRequest {
        headers: vec![("host".to_string(), "chat.example.com".to_string())],
        host_header: Some("chat.example.com".to_string()),
        upgrade_header: upgrade.map(|s| s.to_string()),
        ip: Some("9.9.9.9".to_string()),
        method: "GET".to_string(),
        path: "/ws".to_string(),
    }
}

#[test]
fn websocket_upgrade_is_recognised_in_any_case() {
    match parse_env_request(raw(Some("WebSocket"))) {
        Some(EnvRequest::Ws(ws)) => {
            assert_eq!(ws.host, "chat.example.com");
            assert_eq!(ws.ip, Some("9.9.9.9".to_string()));
            assert_eq!(ws.payload, None);
        }
        _ => panic!("expected a websocket request"),
    }
}

#[test]
fn other_requests_are_http() {
    match parse_env_request(raw(Some("h2c"))) {
        Some(EnvRequest::Http(h)) => {
            assert_eq!(h.method, "GET");
            assert_eq!(h.path, "/ws");
            assert_eq!(h.headers.get("host"), Some(&"chat.example.com".to_string()));
        }
        _ => panic!("expected an http request"),
    }
    let mut r = raw(None);
    r.host_header = None;
    match parse_env_request(r) {
        Some(EnvRequest::Http(h)) => assert_eq!(h.host, ""),
        _ => panic!("expected an http request"),
    }
}
