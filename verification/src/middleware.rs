//! The decisions of the web middleware: what it answers to each request, and how it guards
//! its own internal routes.
use vstd::prelude::*;
use std::rc::Rc;
use crate::env::{Env, Verdict, verdict_of, status_info, status_reason, resolved_verdict, resolved_reason,
    resolved_log_reason, verdict_text, stored_env};
use crate::env_request::{EnvRequest, describes};
use crate::structs::{EnvStatus, EnvRequestLog, Endorsement, records, headers_text};
use crate::str_map::{StrMap, pairs_lookup, lemma_map_of_pairs};
use crate::outside::{url_query_pairs, pair_views, decode_query_pairs};
use crate::text::{starts_with, same_text, parse_usize, parsed_usize, contains_text, occurs_in};

verus! {

/// Runtime behaviour flags for the middleware, and the port and instance it serves.
#[derive(Debug)]
pub struct ActixMwConfig {
    /// If `true`, requests whose EnvStatus is *PendingApproval* will be let through.
    pub allow_pending: bool,
    /// If `true`, requests whose EnvStatus is *Blocked* will be let through.
    pub allow_blocked: bool,
    /// If `true`, the middleware answers with HTML even when the client doesn't explicitly
    /// ask for it (handy for browsers); if `false`, it answers with plain text or JSON unless
    /// the `Accept` header contains `text/html`.
    pub prefer_html: bool,
    /// If `true`, the middleware won't do any automatic decision: it will always
    /// call the inner service and merely record the EnvStatus.
    pub manual_mode: bool,
    /// The port the application listens on; with `instance`, it tells apart the database of
    /// each running instance.
    pub port: String,
    /// The name of the running instance.
    pub instance: String,
}

impl Clone for ActixMwConfig {
    /// The same flags, port and instance.
    fn clone(&self) -> (r: Self)
        ensures
            r == *self,
    {
        ActixMwConfig {
            allow_pending: self.allow_pending,
            allow_blocked: self.allow_blocked,
            prefer_html: self.prefer_html,
            manual_mode: self.manual_mode,
            port: self.port.clone(),
            instance: self.instance.clone(),
        }
    }
}

impl Default for ActixMwConfig {
    /// Every flag off, no port and no instance.
    fn default() -> (r: Self)
        ensures
            !r.allow_pending,
            !r.allow_blocked,
            !r.prefer_html,
            !r.manual_mode,
            r.port@ == Seq::<char>::empty(),
            r.instance@ == Seq::<char>::empty(),
    {
        ActixMwConfig {
            allow_pending: false,
            allow_blocked: false,
            prefer_html: false,
            manual_mode: false,
            port: String::new(),
            instance: String::new(),
        }
    }
}

/// The file of the database of an instance: ".db" when neither port nor instance is set,
/// and "." followed by the instance, '-', the port and ".db" otherwise.
pub open spec fn database_file_of(instance: Seq<char>, port: Seq<char>) -> Seq<char> {
    if instance.len() == 0 && port.len() == 0 {
        ".db"@
    } else {
        "."@ + instance + "-"@ + port + ".db"@
    }
}

impl ActixMwConfig {
    /// The database file of the configured instance, so that instances serving different
    /// ports keep apart.
    pub fn database_file(&self) -> (r: String)
        ensures
            r@ == database_file_of(self.instance@, self.port@),
    {
        if self.instance.unicode_len() == 0 && self.port.unicode_len() == 0 {
            String::from_str(".db")
        } else {
            let mut f = String::from_str(".");
            f.append(self.instance.as_str());
            f.append("-");
            f.append(self.port.as_str());
            f.append(".db");
            f
        }
    }
}

/// The `ActixMiddleware` struct is the entry point for web framework integration with `this.env`.
#[derive(Clone, Debug)]
pub struct ActixMiddleware {
    pub config: ActixMwConfig,
}

/// The middleware service that intercepts each request and decides on it.
pub struct ActixMiddlewareService<S> {
    pub service: Rc<S>,
    pub config: ActixMwConfig,
}

impl ActixMiddleware {
    /// Create a new `ActixMiddleware` with a given configuration.
    pub fn new(config: ActixMwConfig) -> (r: Self)
        ensures
            r.config == config,
    {
        ActixMiddleware { config }
    }

    /// Create an `ActixMiddleware` from a given configuration.
    pub fn config(cfg: ActixMwConfig) -> (r: Self)
        ensures
            r.config == cfg,
    {
        ActixMiddleware { config: cfg }
    }

    /// The service that wraps `service` with this middleware's configuration.
    pub fn new_transform<S>(&self, service: S) -> (r: ActixMiddlewareService<S>)
        ensures
            *r.service == service,
            r.config == self.config,
    {
        ActixMiddlewareService { service: Rc::new(service), config: self.config.clone() }
    }
}

impl Default for ActixMiddleware {
    /// A middleware with every flag off, no port and no instance.
    fn default() -> (r: Self)
        ensures
            !r.config.allow_pending,
            !r.config.allow_blocked,
            !r.config.prefer_html,
            !r.config.manual_mode,
            r.config.port@ == Seq::<char>::empty(),
            r.config.instance@ == Seq::<char>::empty(),
    {
        ActixMiddleware { config: ActixMwConfig::default() }
    }
}

/// What the middleware answers to a request.
#[derive(Clone, Copy, Debug, PartialEq, Eq, Structural)]
pub enum MwResponse {
    /// Call the inner service.
    PassThrough,
    /// 401 with a JSON body saying that the request awaits approval.
    PendingJson,
    /// 401 with the HTML page for requests that await approval.
    PendingHtml,
    /// 403 with the HTML page for blocked requests.
    BlockedHtml,
    /// 403 with the text "Blocked".
    BlockedPlain,
}

/// The middleware's answer to a request, the status it leaves for the application's
/// handlers, and the record of the request to be kept, if any.
#[derive(Debug)]
pub struct MwDecision {
    pub response: MwResponse,
    pub status: Option<EnvStatus>,
    pub log_entry: Option<EnvRequestLog>,
}

/// The verdict the configuration lets stand: pending becomes approved when pending requests
/// are allowed, and blocked when blocked requests are allowed.
pub open spec fn overridden(config: ActixMwConfig, v: Verdict) -> Verdict {
    match v {
        Verdict::Pending => if config.allow_pending { Verdict::Approved } else { v },
        Verdict::Blocked => if config.allow_blocked { Verdict::Approved } else { v },
        Verdict::Approved => v,
    }
}

/// Each override lets through only the status it names: a pending verdict becomes an
/// approval exactly when pending requests are allowed, whatever the setting for blocked
/// ones, and a blocked verdict exactly when blocked requests are allowed, whatever the
/// setting for pending ones (two configurations that agree on `allow_pending` treat a
/// pending verdict alike, and likewise for `allow_blocked`); an approval stays an approval,
/// and a verdict that is not turned into an approval stays as it was.
pub proof fn overrides_let_through_only_what_they_name(config: ActixMwConfig, other: ActixMwConfig, v: Verdict)
    ensures
        overridden(config, Verdict::Pending) == Verdict::Approved <==> config.allow_pending,
        !config.allow_pending ==> overridden(config, Verdict::Pending) == Verdict::Pending,
        overridden(config, Verdict::Blocked) == Verdict::Approved <==> config.allow_blocked,
        !config.allow_blocked ==> overridden(config, Verdict::Blocked) == Verdict::Blocked,
        overridden(config, Verdict::Approved) == Verdict::Approved,
        overridden(config, v) != Verdict::Approved ==> overridden(config, v) == v,
        other.allow_pending == config.allow_pending
            ==> overridden(other, Verdict::Pending) == overridden(config, Verdict::Pending),
        other.allow_blocked == config.allow_blocked
            ==> overridden(other, Verdict::Blocked) == overridden(config, Verdict::Blocked),
{
}

/// Only an approved request goes on to the inner service: a pending one is answered
/// with 401 and a blocked one with 403.
pub proof fn only_approvals_pass(config: ActixMwConfig, v: Verdict, accepts_html: bool)
    ensures
        response_for(config, v, accepts_html) == MwResponse::PassThrough <==> v == Verdict::Approved,
        v == Verdict::Pending ==> (response_for(config, v, accepts_html) == MwResponse::PendingJson
            || response_for(config, v, accepts_html) == MwResponse::PendingHtml),
        v == Verdict::Blocked ==> (response_for(config, v, accepts_html) == MwResponse::BlockedPlain
            || response_for(config, v, accepts_html) == MwResponse::BlockedHtml),
{
}

/// How a request is answered: an approved request goes on to the inner service; a pending
/// one gets 401 and a blocked one 403, written in HTML when the client accepts HTML or the
/// configuration prefers it.
pub open spec fn response_for(config: ActixMwConfig, v: Verdict, accepts_html: bool) -> MwResponse {
    let html = accepts_html || config.prefer_html;
    match v {
        Verdict::Approved => MwResponse::PassThrough,
        Verdict::Pending => if html { MwResponse::PendingHtml } else { MwResponse::PendingJson },
        Verdict::Blocked => if html { MwResponse::BlockedHtml } else { MwResponse::BlockedPlain },
    }
}

/// The status the configuration lets stand: a pending status becomes approved when pending
/// requests are allowed, and a blocked one when blocked requests are allowed; the request it
/// describes stays, and so does its reason when its verdict stays.
pub fn apply_overrides(config: &ActixMwConfig, status: EnvStatus) -> (r: EnvStatus)
    ensures
        verdict_of(r) == overridden(*config, verdict_of(status)),
        status_info(r) == status_info(status),
        verdict_of(r) == verdict_of(status) ==> status_reason(r) == status_reason(status),
        status is PendingApproval && !config.allow_pending ==> r is PendingApproval,
        status is Blocked && !config.allow_blocked ==> r is Blocked,
        r is Approved ==> (status is Approved || (status is PendingApproval && config.allow_pending)
            || (status is Blocked && config.allow_blocked)),
{
    match status {
        EnvStatus::PendingApproval { env_request, reason } => if config.allow_pending {
            EnvStatus::Approved { env_request }
        } else {
            EnvStatus::PendingApproval { env_request, reason }
        },
        EnvStatus::Blocked { env_request, reason } => if config.allow_blocked {
            EnvStatus::Approved { env_request }
        } else {
            EnvStatus::Blocked { env_request, reason }
        },
        EnvStatus::Approved { env_request } => EnvStatus::Approved { env_request },
    }
}

/// The answer to a request with the given status.
pub fn respond(config: &ActixMwConfig, status: &EnvStatus, accepts_html: bool) -> (r: MwResponse)
    ensures
        r == response_for(*config, verdict_of(*status), accepts_html),
{
    let html = accepts_html || config.prefer_html;
    match status {
        EnvStatus::Approved { .. } => MwResponse::PassThrough,
        EnvStatus::PendingApproval { .. } => if html { MwResponse::PendingHtml } else { MwResponse::PendingJson },
        EnvStatus::Blocked { .. } => if html { MwResponse::BlockedHtml } else { MwResponse::BlockedPlain },
    }
}

/// `log` is the record that resolving `req` keeps.
pub open spec fn resolution_record(log: EnvRequestLog, req: EnvRequest, stored: Option<Env>, es: Seq<Endorsement>, ts: Seq<char>) -> bool {
    &&& records(log, req, ts, headers_text(req))
    &&& log.decision@ == verdict_text(resolved_verdict(req, stored, es))
    &&& log.reason@ == resolved_log_reason(req, stored, es)
}

impl<S> ActixMiddlewareService<S> {
    /// Decides on a parsed request, given the environment on record for it (if any), that
    /// environment's endorsements and the time. In manual mode the request always goes
    /// through, its status and record being kept. Otherwise the request is resolved, the
    /// configuration may let a pending or blocked status through, and the answer follows
    /// the status. A request that could not be parsed goes through with no status or record.
    pub fn decide(
        &self,
        env_request: &Option<EnvRequest>,
        accepts_html: bool,
        stored: Option<&Env>,
        endorsements: &Vec<Endorsement>,
        timestamp: String,
    ) -> (r: MwDecision)
        ensures
            self.config.manual_mode ==> r.response == MwResponse::PassThrough,
            self.config.allow_pending && self.config.allow_blocked ==> r.response == MwResponse::PassThrough,
            *env_request matches Some(req) && !self.config.manual_mode && !self.config.allow_pending
                && resolved_verdict(req, stored_env(stored), endorsements@) == Verdict::Pending
                ==> (r.response == MwResponse::PendingJson || r.response == MwResponse::PendingHtml),
            *env_request matches Some(req) && !self.config.manual_mode && !self.config.allow_blocked
                && resolved_verdict(req, stored_env(stored), endorsements@) == Verdict::Blocked
                ==> (r.response == MwResponse::BlockedPlain || r.response == MwResponse::BlockedHtml),
            match *env_request {
                None => r.response == MwResponse::PassThrough && r.status is None && r.log_entry is None,
                Some(req) => {
                    let st = stored_env(stored);
                    let v = resolved_verdict(req, st, endorsements@);
                    &&& r.log_entry matches Some(log) && resolution_record(log, req, st, endorsements@, timestamp@)
                    &&& r.status matches Some(s) && describes(status_info(s), req)
                    &&& self.config.manual_mode ==> (r.status matches Some(s) && verdict_of(s) == v
                        && status_reason(s) == resolved_reason(req, st, endorsements@))
                    &&& !self.config.manual_mode ==> (r.status matches Some(s)
                        && verdict_of(s) == overridden(self.config, v)
                        && (verdict_of(s) == v ==> status_reason(s) == resolved_reason(req, st, endorsements@))
                        && r.response == response_for(self.config, overridden(self.config, v), accepts_html))
                },
            },
    {
        match env_request {
            None => MwDecision { response: MwResponse::PassThrough, status: None, log_entry: None },
            Some(req) => {
                let resolution = Env::resolve(req, stored, endorsements, timestamp);
                if self.config.manual_mode {
                    return MwDecision {
                        response: MwResponse::PassThrough,
                        status: Some(resolution.status),
                        log_entry: Some(resolution.log_entry),
                    };
                }
                let status = apply_overrides(&self.config, resolution.status);
                let response = respond(&self.config, &status, accepts_html);
                MwDecision { response, status: Some(status), log_entry: Some(resolution.log_entry) }
            },
        }
    }
}

/// The address a request comes from, as a number (IPv4 addresses in 32 bits, IPv6 in 128).
#[derive(Clone, Copy, Debug, PartialEq, Eq, Structural)]
pub enum PeerIp {
    V4(u32),
    V6(u128),
}

/// The request comes from the loopback address 127.0.0.1 or ::1.
pub open spec fn is_loopback(peer: Option<PeerIp>) -> bool {
    match peer {
        Some(PeerIp::V4(a)) => a == 0x7f00_0001,
        Some(PeerIp::V6(a)) => a == 1,
        None => false,
    }
}

/// The answer to a request for one of the middleware's internal routes.
#[derive(Clone, Copy, Debug, PartialEq, Eq, Structural)]
pub enum InternalRoute {
    /// 403: internal routes are served to the local machine only.
    Forbidden,
    /// The status of this.env as JSON.
    Status,
    /// A small HTML status page.
    Ui,
    /// The HTML dashboard.
    Dashboard,
    /// The stored request records as JSON, newest first, `limit` of them after skipping
    /// `offset` (all of them when no limit is given).
    LogHistory { limit: Option<usize>, offset: Option<usize> },
    /// 404: no such internal route.
    NotFound,
}

/// The number that decoded query pairs give for `key`: the last value given for it, read as
/// a decimal `usize`.
pub open spec fn pairs_number(pairs: Seq<(Seq<char>, Seq<char>)>, key: Seq<char>) -> Option<usize> {
    match pairs_lookup(pairs, key) {
        Some(v) => match parsed_usize(v) {
            Some(n) => Some(n as usize),
            None => None,
        },
        None => None,
    }
}

/// The number that a query string gives for `key`.
pub open spec fn query_number(query: Seq<char>, key: Seq<char>) -> Option<usize> {
    match url_query_pairs(query) {
        Some(pairs) => pairs_number(pairs, key),
        None => None,
    }
}

/// The internal route that a path names, for a request from the local machine: both
/// "/__env/logs" and "/__env/log-history" serve the stored request records.
pub open spec fn route_named(path: Seq<char>, query: Seq<char>) -> InternalRoute {
    if path == "/__env/status"@ {
        InternalRoute::Status
    } else if path == "/__env/ui"@ {
        InternalRoute::Ui
    } else if path == "/__env/"@ {
        InternalRoute::Dashboard
    } else if path == "/__env/logs"@ || path == "/__env/log-history"@ {
        InternalRoute::LogHistory { limit: query_number(query, "limit"@), offset: query_number(query, "offset"@) }
    } else {
        InternalRoute::NotFound
    }
}

/// The number a map of query values gives for `key`, if any.
fn query_usize(pairs: &StrMap<String>, key: &str) -> (r: Option<usize>)
    ensures
        match r {
            Some(v) => pairs@.contains_key(key@) && parsed_usize(pairs@[key@]@) == Some(v as nat),
            None => !pairs@.contains_key(key@) || parsed_usize(pairs@[key@]@) is None,
        },
{
    match pairs.get(key) {
        Some(v) => parse_usize(v.as_str()),
        None => None,
    }
}

/// The page of records that decoded query pairs ask for: `(limit, offset)`, each the last
/// value given for it read as a decimal `usize`, or `None`.
pub fn log_page(pairs: Vec<(String, String)>) -> (r: (Option<usize>, Option<usize>))
    ensures
        r.0 == pairs_number(pair_views(pairs@), "limit"@),
        r.1 == pairs_number(pair_views(pairs@), "offset"@),
{
    let map = StrMap::from_pairs(pairs);
    let limit = query_usize(&map, "limit");
    let offset = query_usize(&map, "offset");
    proof {
        lemma_map_of_pairs(map.entries@, "limit"@);
        lemma_map_of_pairs(map.entries@, "offset"@);
    }
    (limit, offset)
}

/// Checks whether the request is for an internal this.env route (its path starts with
/// "/__env/"), and if so answers it, internal routes being restricted to the local machine.
pub fn intercept_internal_routes(path: &str, peer: Option<PeerIp>, query: &str) -> (r: Option<InternalRoute>)
    ensures
        !starts_with_env_prefix(path@) ==> r is None,
        starts_with_env_prefix(path@) && !is_loopback(peer) ==> r == Some(InternalRoute::Forbidden),
        starts_with_env_prefix(path@) && is_loopback(peer) ==> r == Some(route_named(path@, query@)),
{
    if !starts_with(path, "/__env/") {
        return None;
    }
    let local = match peer {
        Some(PeerIp::V4(a)) => a == 0x7f00_0001u32,
        Some(PeerIp::V6(a)) => a == 1u128,
        None => false,
    };
    if !local {
        return Some(InternalRoute::Forbidden);
    }
    if same_text(path, "/__env/status") {
        Some(InternalRoute::Status)
    } else if same_text(path, "/__env/ui") {
        Some(InternalRoute::Ui)
    } else if same_text(path, "/__env/") {
        Some(InternalRoute::Dashboard)
    } else if same_text(path, "/__env/logs") || same_text(path, "/__env/log-history") {
        let (limit, offset) = match decode_query_pairs(query) {
            Some(v) => log_page(v),
            None => (None, None),
        };
        Some(InternalRoute::LogHistory { limit, offset })
    } else {
        Some(InternalRoute::NotFound)
    }
}

/// The client accepts HTML: its "Accept" header mentions "text/html".
pub fn wants_html(accept: Option<&str>) -> (r: bool)
    ensures
        r == match accept {
            Some(a) => occurs_in(a@, "text/html"@),
            None => false,
        },
{
    match accept {
        Some(a) => contains_text(a, "text/html"),
        None => false,
    }
}

/// The path names an internal route: it starts with "/__env/".
pub open spec fn starts_with_env_prefix(path: Seq<char>) -> bool {
    path.len() >= "/__env/"@.len() && path.take("/__env/"@.len() as int) == "/__env/"@
}

} // verus!
