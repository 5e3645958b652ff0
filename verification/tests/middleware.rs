use this_env::env::Env;
use this_env::env_request::{EnvRequest, EnvRequestHttp, EnvRequestInfo};
use this_env::logs::{request_log_query, SqlParam, LOGS_ALL, LOGS_FOR_DOMAIN, LOGS_FOR_DOMAIN_PAGED, LOGS_PAGED};
use this_env::middleware::{
    apply_overrides, intercept_internal_routes, log_page, respond, wants_html, ActixMiddleware, ActixMwConfig,
    InternalRoute, MwResponse, PeerIp,
};
use this_env::str_map::StrMap;
use this_env::structs::{Endorsement, EnvStatus, EnvType, TrustLevel};

const LOOPBACK_V4: Option<PeerIp> = Some(PeerIp::V4(0x7f00_0001));
const NOW: &str = "2025-01-02T03:04:05+00:00";

fn request(domain: Option<&str>) -> EnvRequest {
    let mut headers = StrMap::new();
    if let Some(d) = domain {
        headers.insert("domain".to_string(), d.to_string());
    }
    EnvRequest::Http(EnvRequestHttp {
        host: "app.example.com".to_string(),
        ip: None,
        method: "GET".to_string(),
        path: "/".to_string(),
        headers,
    })
}

fn config(allow_pending: bool, allow_blocked: bool, prefer_html: bool, manual_mode: bool) -> ActixMwConfig {
    ActixMwConfig { allow_pending, allow_blocked, prefer_html, manual_mode, ..ActixMwConfig::default() }
}

fn flags(c: &ActixMwConfig) -> (bool, bool, bool, bool) {
    (c.allow_pending, c.allow_blocked, c.prefer_html, c.manual_mode)
}

fn stored() -> Env {
    Env::new("example.com".to_string(), "id".to_string(), EnvType::RemoteWeb, TrustLevel::High)
}

fn approval() -> Vec<Endorsement> {
    vec![Endorsement { endorser: "alice".to_string(), approved: true, timestamp: 3 }]
}

#[test]
fn default_config_has_every_flag_off() {
    let c = ActixMwConfig::default();
    assert_eq!(flags(&c), (false, false, false, false));
    assert_eq!(c.port, "");
    assert_eq!(c.instance, "");
    assert_eq!(flags(&ActixMiddleware::default().config), (false, false, false, false));
    let c = config(true, false, true, false);
    assert_eq!(flags(&ActixMiddleware::new(c.clone()).config), flags(&c));
    assert_eq!(flags(&ActixMiddleware::config(c.clone()).config), flags(&c));
}

#[test]
fn each_instance_has_its_own_database() {
    assert_eq!(ActixMwConfig::default().database_file(), ".db");
    let c = ActixMwConfig { port: "7777".to_string(), instance: "main".to_string(), ..ActixMwConfig::default() };
    assert_eq!(c.database_file(), ".main-7777.db");
    let c = ActixMwConfig { port: "8080".to_string(), ..ActixMwConfig::default() };
    assert_eq!(c.database_file(), ".-8080.db");
}

#[test]
fn new_transform_keeps_the_config() {
    let c = ActixMwConfig { port: "1".to_string(), ..config(false, true, false, false) };
    let svc = ActixMiddleware::new(c.clone()).new_transform(17u32);
    assert_eq!(*svc.service, 17);
    assert_eq!(flags(&svc.config), flags(&c));
    assert_eq!(svc.config.port, "1");
}

#[test]
fn pending_requests_are_asked_to_wait() {
    let svc = ActixMiddleware::default().new_transform(());
    let d = svc.decide(&Some(request(Some("example.com"))), false, None, &vec![], NOW.to_string());
    assert_eq!(d.response, MwResponse::PendingJson);
    match d.status {
        Some(EnvStatus::PendingApproval { env_request, reason }) => {
            assert_eq!(env_request.host, "app.example.com");
            assert_eq!(reason, "example.com");
        }
        _ => panic!("expected pending"),
    }
    let log = d.log_entry.unwrap();
    assert_eq!(log.decision, "PendingApproval");
    assert_eq!(log.timestamp, NOW);
}

#[test]
fn pending_requests_get_html_when_html_is_wanted() {
    let svc = ActixMiddleware::default().new_transform(());
    let d = svc.decide(&Some(request(None)), true, None, &vec![], NOW.to_string());
    assert_eq!(d.response, MwResponse::PendingHtml);
    let svc = ActixMiddleware::new(config(false, false, true, false)).new_transform(());
    let d = svc.decide(&Some(request(None)), false, None, &vec![], NOW.to_string());
    assert_eq!(d.response, MwResponse::PendingHtml);
}

#[test]
fn endorsed_environments_pass() {
    let svc = ActixMiddleware::default().new_transform(());
    let env = stored();
    let d = svc.decide(&Some(request(Some("example.com"))), false, Some(&env), &approval(), NOW.to_string());
    assert_eq!(d.response, MwResponse::PassThrough);
    assert!(matches!(d.status, Some(EnvStatus::Approved { .. })));
    assert_eq!(d.log_entry.unwrap().decision, "Approved");
}

#[test]
fn allow_pending_lets_pending_requests_through() {
    let svc = ActixMiddleware::new(config(true, false, false, false)).new_transform(());
    let d = svc.decide(&Some(request(None)), false, None, &vec![], NOW.to_string());
    assert_eq!(d.response, MwResponse::PassThrough);
    assert!(matches!(d.status, Some(EnvStatus::Approved { .. })));
    assert_eq!(d.log_entry.unwrap().decision, "PendingApproval");
    let d = svc.decide(&Some(request(Some("malicious.com"))), false, None, &vec![], NOW.to_string());
    assert_eq!(d.response, MwResponse::BlockedPlain);
}

#[test]
fn blocked_requests_are_refused() {
    let svc = ActixMiddleware::default().new_transform(());
    let env = stored();
    let d = svc.decide(&Some(request(Some("banned.example"))), false, Some(&env), &approval(), NOW.to_string());
    assert_eq!(d.response, MwResponse::BlockedPlain);
    assert_eq!(d.log_entry.unwrap().decision, "Blocked");
    let d = svc.decide(&Some(request(Some("banned.example"))), true, None, &vec![], NOW.to_string());
    assert_eq!(d.response, MwResponse::BlockedHtml);
    let svc = ActixMiddleware::new(config(false, false, true, false)).new_transform(());
    let d = svc.decide(&Some(request(Some("banned.example"))), false, None, &vec![], NOW.to_string());
    assert_eq!(d.response, MwResponse::BlockedHtml);
}

#[test]
fn allow_blocked_lets_blocked_requests_through() {
    let svc = ActixMiddleware::new(config(false, true, false, false)).new_transform(());
    let d = svc.decide(&Some(request(Some("malicious.com"))), true, None, &vec![], NOW.to_string());
    assert_eq!(d.response, MwResponse::PassThrough);
}

#[test]
fn manual_mode_always_passes_and_keeps_status_and_record() {
    let svc = ActixMiddleware::new(config(false, false, false, true)).new_transform(());
    let d = svc.decide(&Some(request(Some("malicious.com"))), false, None, &vec![], NOW.to_string());
    assert_eq!(d.response, MwResponse::PassThrough);
    assert!(matches!(d.status, Some(EnvStatus::Blocked { .. })));
    assert_eq!(d.log_entry.unwrap().decision, "Blocked");
}

#[test]
fn unparsed_requests_pass_unrecorded() {
    let svc = ActixMiddleware::default().new_transform(());
    let d = svc.decide(&None, true, None, &vec![], NOW.to_string());
    assert_eq!(d.response, MwResponse::PassThrough);
    assert!(d.status.is_none());
    assert!(d.log_entry.is_none());
}

fn info() -> EnvRequestInfo {
    EnvRequestInfo::from(&request(None))
}

#[test]
fn overrides_and_responses() {
    let p = EnvStatus::PendingApproval { env_request: info(), reason: "x".to_string() };
    assert!(matches!(apply_overrides(&config(true, false, false, false), p), EnvStatus::Approved { .. }));
    let b = EnvStatus::Blocked { env_request: info(), reason: "x".to_string() };
    assert!(matches!(apply_overrides(&config(true, false, false, false), b), EnvStatus::Blocked { .. }));
    let off = config(false, false, false, false);
    assert_eq!(respond(&off, &EnvStatus::Approved { env_request: info() }, false), MwResponse::PassThrough);
    let b = EnvStatus::Blocked { env_request: info(), reason: "x".to_string() };
    assert_eq!(respond(&off, &b, false), MwResponse::BlockedPlain);
    let p = EnvStatus::PendingApproval { env_request: info(), reason: "x".to_string() };
    assert_eq!(respond(&off, &p, false), MwResponse::PendingJson);
    assert_eq!(respond(&off, &p, true), MwResponse::PendingHtml);
}

#[test]
fn html_is_wanted_when_accepted() {
    assert!(wants_html(Some("text/html,application/xhtml+xml;q=0.9")));
    assert!(!wants_html(Some("application/json")));
    assert!(!wants_html(None));
}

#[test]
fn ordinary_paths_are_not_intercepted() {
    assert_eq!(intercept_internal_routes("/api/data", LOOPBACK_V4, ""), None);
    assert_eq!(intercept_internal_routes("/__env", LOOPBACK_V4, ""), None);
}

#[test]
fn internal_routes_are_for_the_local_machine_only() {
    let remote = Some(PeerIp::V4(0x0a00_0001));
    assert_eq!(intercept_internal_routes("/__env/status", remote, ""), Some(InternalRoute::Forbidden));
    assert_eq!(intercept_internal_routes("/__env/status", None, ""), Some(InternalRoute::Forbidden));
    assert_eq!(intercept_internal_routes("/__env/logs", Some(PeerIp::V6(2)), ""), Some(InternalRoute::Forbidden));
}

#[test]
fn internal_routes_by_path() {
    let v6 = Some(PeerIp::V6(1));
    assert_eq!(intercept_internal_routes("/__env/status", v6, ""), Some(InternalRoute::Status));
    assert_eq!(intercept_internal_routes("/__env/ui", LOOPBACK_V4, ""), Some(InternalRoute::Ui));
    assert_eq!(intercept_internal_routes("/__env/", LOOPBACK_V4, ""), Some(InternalRoute::Dashboard));
    assert_eq!(intercept_internal_routes("/__env/nope", LOOPBACK_V4, ""), Some(InternalRoute::NotFound));
}

#[test]
fn logs_routes_serve_the_stored_records() {
    assert_eq!(
        intercept_internal_routes("/__env/logs", LOOPBACK_V4, "limit=50"),
        Some(InternalRoute::LogHistory { limit: Some(50), offset: None })
    );
    assert_eq!(
        intercept_internal_routes("/__env/log-history", LOOPBACK_V4, "limit=5&offset=%32"),
        Some(InternalRoute::LogHistory { limit: Some(5), offset: Some(2) })
    );
    assert_eq!(
        intercept_internal_routes("/__env/log-history", LOOPBACK_V4, "limit=abc&limit=7"),
        Some(InternalRoute::LogHistory { limit: Some(7), offset: None })
    );
    assert_eq!(
        intercept_internal_routes("/__env/logs", LOOPBACK_V4, ""),
        Some(InternalRoute::LogHistory { limit: None, offset: None })
    );
    assert_eq!(
        intercept_internal_routes("/__env/log-history", LOOPBACK_V4, "offset=%2B3&limit=-1"),
        Some(InternalRoute::LogHistory { limit: None, offset: Some(3) })
    );
    assert_eq!(
        intercept_internal_routes("/__env/log-history", LOOPBACK_V4, "offset=+3"),
        Some(InternalRoute::LogHistory { limit: None, offset: None })
    );
}

fn pairs(p: &[(&str, &str)]) -> Vec<(String, String)> {
    p.iter().map(|(k, v)| (k.to_string(), v.to_string())).collect()
}

#[test]
fn log_page_of_decoded_pairs() {
    assert_eq!(log_page(pairs(&[("limit", "5"), ("offset", "10")])), (Some(5), Some(10)));
    assert_eq!(log_page(pairs(&[("limit", "5"), ("limit", "x")])), (None, None));
    assert_eq!(log_page(pairs(&[("limit", "x"), ("limit", "+6"), ("other", "1")])), (Some(6), None));
    assert_eq!(log_page(pairs(&[])), (None, None));
    assert_eq!(log_page(pairs(&[("offset", "18446744073709551616")])), (None, None));
}

#[test]
fn log_queries() {
    let q = request_log_query(Some("example.com"), Some(50), Some(10));
    assert_eq!(q.sql, LOGS_FOR_DOMAIN_PAGED);
    assert_eq!(q.params.len(), 3);
    assert!(matches!(&q.params[0], SqlParam::Text(t) if t == "example.com"));
    assert!(matches!(q.params[1], SqlParam::Integer(50)));
    assert!(matches!(q.params[2], SqlParam::Integer(10)));

    let q = request_log_query(Some("example.com"), None, Some(10));
    assert_eq!(q.sql, LOGS_FOR_DOMAIN);
    assert_eq!(q.params.len(), 1);

    let q = request_log_query(None, Some(20), None);
    assert_eq!(q.sql, LOGS_PAGED);
    assert!(matches!(q.params[0], SqlParam::Integer(20)));
    assert!(matches!(q.params[1], SqlParam::Integer(0)));

    let q = request_log_query(None, None, None);
    assert_eq!(q.sql, LOGS_ALL);
    assert!(q.params.is_empty());
}
