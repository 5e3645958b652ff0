//! The core data of the library: endorsements, kinds of environment, trust levels,
//! routes, the outcome of a trust evaluation and the record kept of each request.
use vstd::prelude::*;
use crate::str_map::StrMap;
use crate::env_request::{EnvRequest, EnvRequestInfo, describes};
use crate::domain_utils::opt_view;
use crate::text::{same_text, copy_opt_text};
use crate::outside::{json_object_text, json_object};

verus! {

/// Endorser signature and approval status
#[derive(Clone, Debug)]
pub struct Endorsement {
    pub endorser: String,
    pub approved: bool,
    pub timestamp: u64,
}

/// Represents the type of environment where an identity operates.
#[derive(Clone, Copy, Debug, PartialEq, Eq, Structural)]
pub enum EnvType {
    Localhost,
    RemoteWeb,
    Extension,
    Desktop,
    P2P,
}

/// Represents the level of trust assigned to an environment.
#[derive(Clone, Copy, Debug, PartialEq, Eq, Structural)]
pub enum TrustLevel {
    Untrusted,
    Low,
    Medium,
    High,
    Full,
}

/// The text under which a kind of environment is stored.
pub open spec fn env_type_text(t: EnvType) -> Seq<char> {
    match t {
        EnvType::Localhost => "Localhost"@,
        EnvType::RemoteWeb => "RemoteWeb"@,
        EnvType::Extension => "Extension"@,
        EnvType::Desktop => "Desktop"@,
        EnvType::P2P => "P2P"@,
    }
}

/// The kind of environment that a stored text names, if any.
pub open spec fn env_type_named(s: Seq<char>) -> Option<EnvType> {
    if s == "Localhost"@ {
        Some(EnvType::Localhost)
    } else if s == "RemoteWeb"@ {
        Some(EnvType::RemoteWeb)
    } else if s == "Extension"@ {
        Some(EnvType::Extension)
    } else if s == "Desktop"@ {
        Some(EnvType::Desktop)
    } else if s == "P2P"@ {
        Some(EnvType::P2P)
    } else {
        None
    }
}

/// The text under which a trust level is stored.
pub open spec fn trust_level_text(t: TrustLevel) -> Seq<char> {
    match t {
        TrustLevel::Untrusted => "Untrusted"@,
        TrustLevel::Low => "Low"@,
        TrustLevel::Medium => "Medium"@,
        TrustLevel::High => "High"@,
        TrustLevel::Full => "Full"@,
    }
}

/// The trust level that a stored text names, if any.
pub open spec fn trust_level_named(s: Seq<char>) -> Option<TrustLevel> {
    if s == "Untrusted"@ {
        Some(TrustLevel::Untrusted)
    } else if s == "Low"@ {
        Some(TrustLevel::Low)
    } else if s == "Medium"@ {
        Some(TrustLevel::Medium)
    } else if s == "High"@ {
        Some(TrustLevel::High)
    } else if s == "Full"@ {
        Some(TrustLevel::Full)
    } else {
        None
    }
}

impl EnvType {
    /// The text under which this kind of environment is stored in the database.
    pub fn to_sql_text(&self) -> (r: &'static str)
        ensures
            r@ == env_type_text(*self),
    {
        match self {
            EnvType::Localhost => "Localhost",
            EnvType::RemoteWeb => "RemoteWeb",
            EnvType::Extension => "Extension",
            EnvType::Desktop => "Desktop",
            EnvType::P2P => "P2P",
        }
    }

    /// The kind of environment that a stored text names; `None` for any other text.
    pub fn from_sql_text(s: &str) -> (r: Option<EnvType>)
        ensures
            r == env_type_named(s@),
    {
        if same_text(s, "Localhost") {
            Some(EnvType::Localhost)
        } else if same_text(s, "RemoteWeb") {
            Some(EnvType::RemoteWeb)
        } else if same_text(s, "Extension") {
            Some(EnvType::Extension)
        } else if same_text(s, "Desktop") {
            Some(EnvType::Desktop)
        } else if same_text(s, "P2P") {
            Some(EnvType::P2P)
        } else {
            None
        }
    }
}

impl TrustLevel {
    /// The text under which this trust level is stored in the database.
    pub fn to_sql_text(&self) -> (r: &'static str)
        ensures
            r@ == trust_level_text(*self),
    {
        match self {
            TrustLevel::Untrusted => "Untrusted",
            TrustLevel::Low => "Low",
            TrustLevel::Medium => "Medium",
            TrustLevel::High => "High",
            TrustLevel::Full => "Full",
        }
    }

    /// The trust level that a stored text names; `None` for any other text.
    pub fn from_sql_text(s: &str) -> (r: Option<TrustLevel>)
        ensures
            r == trust_level_named(s@),
    {
        if same_text(s, "Untrusted") {
            Some(TrustLevel::Untrusted)
        } else if same_text(s, "Low") {
            Some(TrustLevel::Low)
        } else if same_text(s, "Medium") {
            Some(TrustLevel::Medium)
        } else if same_text(s, "High") {
            Some(TrustLevel::High)
        } else if same_text(s, "Full") {
            Some(TrustLevel::Full)
        } else {
            None
        }
    }
}

/// What is stored for a kind of environment reads back as that kind, and only the stored
/// texts of the kinds read back as a kind at all.
pub proof fn env_type_text_round_trip(t: EnvType, s: Seq<char>)
    ensures
        env_type_named(env_type_text(t)) == Some(t),
        env_type_named(s) == Some(t) <==> s == env_type_text(t),
{
    reveal_strlit("Localhost");
    reveal_strlit("RemoteWeb");
    reveal_strlit("Extension");
    reveal_strlit("Desktop");
    reveal_strlit("P2P");
    assert("Localhost"@[0] == 'L' && "RemoteWeb"@[0] == 'R' && "Extension"@[0] == 'E'
        && "Desktop"@[0] == 'D' && "P2P"@[0] == 'P');
}

/// What is stored for a trust level reads back as that level, and only the stored
/// texts of the levels read back as a level at all.
pub proof fn trust_level_text_round_trip(t: TrustLevel, s: Seq<char>)
    ensures
        trust_level_named(trust_level_text(t)) == Some(t),
        trust_level_named(s) == Some(t) <==> s == trust_level_text(t),
{
    reveal_strlit("Untrusted");
    reveal_strlit("Low");
    reveal_strlit("Medium");
    reveal_strlit("High");
    reveal_strlit("Full");
    assert("Untrusted"@[0] == 'U' && "Low"@[0] == 'L' && "Medium"@[0] == 'M'
        && "High"@[0] == 'H' && "Full"@[0] == 'F');
}

/// Represents metadata and analytics for a specific route within an environment.
#[derive(Clone, Debug)]
pub struct RouteInfo {
    /// Number of times this route was accessed.
    pub hit_count: u64,
    /// When this route was last accessed, in milliseconds since 1970-01-01 UTC.
    pub last_seen: i64,
    /// Key-value metadata for this specific route.
    pub metadata: StrMap<String>,
}

impl Default for RouteInfo {
    /// No hits, last seen at the epoch, no metadata.
    fn default() -> (r: Self)
        ensures
            r.hit_count == 0,
            r.last_seen == 0,
            r.metadata@ == Map::<Seq<char>, String>::empty(),
    {
        RouteInfo { hit_count: 0, last_seen: 0, metadata: StrMap::new() }
    }
}

/// Represents the endorsement evaluation result for a given environment.
#[derive(Clone, Debug)]
pub enum EnvStatus {
    /// The environment has been approved by at least one endorser.
    Approved { env_request: EnvRequestInfo },
    /// The environment has been explicitly blocked.
    Blocked { env_request: EnvRequestInfo, reason: String },
    /// The environment has no endorsements and is pending approval.
    PendingApproval { env_request: EnvRequestInfo, reason: String },
}

/// The record kept of one request and of the decision taken on it.
#[derive(Clone, Debug)]
pub struct EnvRequestLog {
    pub timestamp: String,
    pub method: String,
    pub path: String,
    pub ip: Option<String>,
    pub host: String,
    pub headers: String,
    pub decision: String,
    pub reason: String,
    pub domain: String,
}

/// The domain a request's headers name under "domain", or else its host.
pub open spec fn header_domain_or(headers: Map<Seq<char>, String>, host: Seq<char>) -> Seq<char> {
    if headers.contains_key("domain"@) {
        headers["domain"@]@
    } else {
        host
    }
}

/// The text recorded for a request's headers: their JSON object, or "{}" for a command.
pub open spec fn headers_text(req: EnvRequest) -> Seq<char> {
    match req {
        EnvRequest::Http(http) => json_object_text(http.headers@.map_values(|v: String| v@)),
        EnvRequest::Ws(ws) => json_object_text(ws.headers@.map_values(|v: String| v@)),
        EnvRequest::Cli(_) => "{}"@,
    }
}

/// `log` records `req` at time `ts` with header text `hj` (whatever decision it records).
pub open spec fn records(log: EnvRequestLog, req: EnvRequest, ts: Seq<char>, hj: Seq<char>) -> bool {
    &&& log.timestamp@ == ts
    &&& log.headers@ == hj
    &&& match req {
        EnvRequest::Http(http) => {
            &&& log.method@ == http.method@
            &&& log.path@ == http.path@
            &&& opt_view(log.ip) == opt_view(http.ip)
            &&& log.host@ == http.host@
            &&& log.domain@ == header_domain_or(http.headers@, http.host@)
        },
        EnvRequest::Ws(ws) => {
            &&& log.method@ == "WS"@
            &&& log.path@ == Seq::<char>::empty()
            &&& opt_view(log.ip) == opt_view(ws.ip)
            &&& log.host@ == ws.host@
            &&& log.domain@ == header_domain_or(ws.headers@, ws.host@)
        },
        EnvRequest::Cli(_) => {
            &&& log.method@ == "CLI"@
            &&& log.path@ == Seq::<char>::empty()
            &&& log.ip is None
            &&& log.host@ == "localhost"@
            &&& log.domain@ == "localhost"@
        },
    }
}

/// The "domain" header, or else the host.
fn domain_header_or_host(headers: &StrMap<String>, host: &String) -> (r: String)
    ensures
        r@ == header_domain_or(headers@, host@),
{
    match headers.get("domain") {
        Some(d) => d.clone(),
        None => host.clone(),
    }
}

impl EnvRequestLog {
    /// The record of a request taken at time `timestamp`, its headers written as `headers_json`.
    pub fn from_parts(req: &EnvRequest, timestamp: String, headers_json: String) -> (r: EnvRequestLog)
        ensures
            records(r, *req, timestamp@, headers_json@),
            r.decision@ == Seq::<char>::empty(),
            r.reason@ == Seq::<char>::empty(),
    {
        match req {
            EnvRequest::Http(http) => EnvRequestLog {
                timestamp,
                method: http.method.clone(),
                path: http.path.clone(),
                ip: copy_opt_text(&http.ip),
                host: http.host.clone(),
                headers: headers_json,
                decision: String::new(),
                reason: String::new(),
                domain: domain_header_or_host(&http.headers, &http.host),
            },
            EnvRequest::Ws(ws) => EnvRequestLog {
                timestamp,
                method: String::from_str("WS"),
                path: String::new(),
                ip: copy_opt_text(&ws.ip),
                host: ws.host.clone(),
                headers: headers_json,
                decision: String::new(),
                reason: String::new(),
                domain: domain_header_or_host(&ws.headers, &ws.host),
            },
            EnvRequest::Cli(_) => EnvRequestLog {
                timestamp,
                method: String::from_str("CLI"),
                path: String::new(),
                ip: None,
                host: String::from_str("localhost"),
                headers: headers_json,
                decision: String::new(),
                reason: String::new(),
                domain: String::from_str("localhost"),
            },
        }
    }

    /// The record of a request taken at time `timestamp`, its headers written as JSON.
    pub fn from(req: &EnvRequest, timestamp: String) -> (r: EnvRequestLog)
        ensures
            records(r, *req, timestamp@, headers_text(*req)),
            r.decision@ == Seq::<char>::empty(),
            r.reason@ == Seq::<char>::empty(),
    {
        let headers_json = match req {
            EnvRequest::Http(http) => json_object(&http.headers),
            EnvRequest::Ws(ws) => json_object(&ws.headers),
            EnvRequest::Cli(_) => String::from_str("{}"),
        };
        Self::from_parts(req, timestamp, headers_json)
    }
}

/// The record and the summary of one request agree: they name the same host and the same
/// remote address, and the record's method is the summary's method when the summary has one.
pub proof fn record_agrees_with_summary(log: EnvRequestLog, info: EnvRequestInfo, req: EnvRequest, ts: Seq<char>, hj: Seq<char>)
    requires
        records(log, req, ts, hj),
        describes(info, req),
    ensures
        log.host@ == info.host@,
        opt_view(log.ip) == opt_view(info.ip),
        info.method is Some && !(req is Cli) ==> opt_view(info.method) == Some(log.method@),
{
}

} // verus!
