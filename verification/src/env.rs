//! The environment of a domain and the decisions taken on incoming requests.
use vstd::prelude::*;
use crate::str_map::StrMap;
use crate::structs::{Endorsement, EnvType, TrustLevel, RouteInfo, EnvStatus, EnvRequestLog,
    records, headers_text};
use crate::env_request::{EnvRequest, EnvRequestInfo, EnvRequestHttp, EnvRequestWs, EnvRequestCli, describes};
use crate::domain_utils::{determine_parent, split_host, parent_domain, split_parts, opt_view};
use crate::text::same_text;

verus! {

/// A unique identifier for a domain: the domain, '-', and the text of a UUID drawn by the caller.
pub fn generate_id_for(domain: &str, uuid_text: &str) -> (r: String)
    ensures
        r@ == domain@ + seq!['-'] + uuid_text@,
{
    let mut id = String::from_str(domain);
    id.append("-");
    id.append(uuid_text);
    proof {
        reveal_strlit("-");
    }
    id
}

/// Main structure representing an environment configuration.
#[derive(Clone, Debug)]
pub struct Env {
    /// Human-readable domain name (e.g., "neurons.me")
    pub domain: String,
    /// A unique identifier or fingerprint for this environment domain
    pub id: String,
    /// The type of environment domain (e.g., Localhost, RemoteWeb, etc.)
    pub env_type: EnvType,
    /// The trust level assigned to this environment domain
    pub trust: TrustLevel,
    /// Route-specific metadata and activity tracking
    pub routes: StrMap<RouteInfo>,
    /// Optional parent domain, used to express subdomain hierarchy (e.g., admin.example.com -> example.com)
    pub parent: Option<String>,
}

/// Some endorsement in the list approves.
pub open spec fn any_approval(es: Seq<Endorsement>) -> bool {
    exists|i: int| 0 <= i < es.len() && (#[trigger] es[i]).approved
}

/// The value of a request's "domain" header, for the requests that carry headers.
pub open spec fn domain_header(req: EnvRequest) -> Option<Seq<char>> {
    match req {
        EnvRequest::Http(http) => if http.headers@.contains_key("domain"@) {
            Some(http.headers@["domain"@]@)
        } else {
            None
        },
        EnvRequest::Ws(ws) => if ws.headers@.contains_key("domain"@) {
            Some(ws.headers@["domain"@]@)
        } else {
            None
        },
        EnvRequest::Cli(_) => None,
    }
}

/// The domains whose requests are refused outright.
pub open spec fn is_blocked_domain(d: Seq<char>) -> bool {
    d == "malicious.com"@ || d == "banned.example"@
}

/// Why a request is refused outright, if it is: its "domain" header names a blocked domain.
pub open spec fn block_reason(req: EnvRequest) -> Option<Seq<char>> {
    match domain_header(req) {
        Some(d) => if is_blocked_domain(d) {
            Some("Domain '"@ + d + "' is blocked"@)
        } else {
            None
        },
        None => None,
    }
}

/// The domain a request names for its decision: its "domain" header (or the empty text) for
/// HTTP and WebSocket requests, "localhost" for a command.
pub open spec fn decision_domain(req: EnvRequest) -> Seq<char> {
    match req {
        EnvRequest::Cli(_) => "localhost"@,
        _ => match domain_header(req) {
            Some(d) => d,
            None => Seq::empty(),
        },
    }
}

/// The root domain under which a request's environment is stored: the root of its host,
/// for the requests that have a host.
pub open spec fn request_root_domain(req: EnvRequest) -> Option<Seq<char>> {
    match req {
        EnvRequest::Http(http) => Some(split_parts(http.host@).0),
        EnvRequest::Ws(ws) => Some(split_parts(ws.host@).0),
        EnvRequest::Cli(_) => None,
    }
}

/// The environment a reference points at, if any.
pub open spec fn stored_env(o: Option<&Env>) -> Option<Env> {
    match o {
        Some(e) => Some(*e),
        None => None,
    }
}

/// The kind of a status, without the request it describes or its reason.
#[derive(Clone, Copy, Debug, PartialEq, Eq, Structural)]
pub enum Verdict {
    Approved,
    Blocked,
    Pending,
}

/// The kind of a status.
pub open spec fn verdict_of(s: EnvStatus) -> Verdict {
    match s {
        EnvStatus::Approved { .. } => Verdict::Approved,
        EnvStatus::Blocked { .. } => Verdict::Blocked,
        EnvStatus::PendingApproval { .. } => Verdict::Pending,
    }
}

/// The request a status describes.
pub open spec fn status_info(s: EnvStatus) -> EnvRequestInfo {
    match s {
        EnvStatus::Approved { env_request } => env_request,
        EnvStatus::Blocked { env_request, .. } => env_request,
        EnvStatus::PendingApproval { env_request, .. } => env_request,
    }
}

/// The reason a status gives: none for an approval.
pub open spec fn status_reason(s: EnvStatus) -> Seq<char> {
    match s {
        EnvStatus::Approved { .. } => Seq::empty(),
        EnvStatus::Blocked { reason, .. } => reason@,
        EnvStatus::PendingApproval { reason, .. } => reason@,
    }
}

/// The verdict the endorsements on record give: pending when there are none, approved when
/// at least one approves, blocked when all of them reject.
pub open spec fn endorsement_verdict(es: Seq<Endorsement>) -> Verdict {
    if es.len() == 0 {
        Verdict::Pending
    } else if any_approval(es) {
        Verdict::Approved
    } else {
        Verdict::Blocked
    }
}

/// The reason that goes with the verdict of the endorsements of `domain`: none for an
/// approval, the domain otherwise.
pub open spec fn endorsement_reason(es: Seq<Endorsement>, domain: Seq<char>) -> Seq<char> {
    if endorsement_verdict(es) == Verdict::Approved {
        Seq::empty()
    } else {
        domain
    }
}

/// The verdict on a request: blocked when its "domain" header names a blocked domain;
/// otherwise the verdict of the endorsements of its environment when one is on record,
/// and pending when none is.
pub open spec fn resolved_verdict(req: EnvRequest, stored: Option<Env>, es: Seq<Endorsement>) -> Verdict {
    match block_reason(req) {
        Some(_) => Verdict::Blocked,
        None => match stored {
            Some(_) => endorsement_verdict(es),
            None => Verdict::Pending,
        },
    }
}

/// The reason that goes with the verdict on a request.
pub open spec fn resolved_reason(req: EnvRequest, stored: Option<Env>, es: Seq<Endorsement>) -> Seq<char> {
    match block_reason(req) {
        Some(reason) => reason,
        None => match stored {
            Some(env) => endorsement_reason(es, env.domain@),
            None => decision_domain(req),
        },
    }
}

/// The reason recorded with the decision on a request.
pub open spec fn resolved_log_reason(req: EnvRequest, stored: Option<Env>, es: Seq<Endorsement>) -> Seq<char> {
    match (block_reason(req), stored) {
        (None, None) => "No existing env found"@,
        _ => resolved_reason(req, stored, es),
    }
}

/// The text under which a verdict is recorded.
pub open spec fn verdict_text(v: Verdict) -> Seq<char> {
    match v {
        Verdict::Approved => "Approved"@,
        Verdict::Blocked => "Blocked"@,
        Verdict::Pending => "PendingApproval"@,
    }
}

/// One approval outweighs any number of rejections: endorsements that hold an approval
/// give an approval, whatever the others say.
pub proof fn one_approval_outweighs_rejections(es: Seq<Endorsement>, i: int)
    requires
        0 <= i < es.len(),
        es[i].approved,
    ensures
        endorsement_verdict(es) == Verdict::Approved,
{
    assert(any_approval(es));
}

/// An environment that is on record and endorsed is approved, unless the request names a
/// blocked domain; and with no environment on record, a request is never approved.
pub proof fn endorsed_environment_is_approved(req: EnvRequest, stored: Option<Env>, es: Seq<Endorsement>)
    ensures
        block_reason(req) is None && stored is Some && any_approval(es)
            ==> resolved_verdict(req, stored, es) == Verdict::Approved,
        stored is None ==> resolved_verdict(req, stored, es) != Verdict::Approved,
        block_reason(req) is Some ==> resolved_verdict(req, stored, es) == Verdict::Blocked,
{
}

/// The decision on a request, and the record of it to be kept.
#[derive(Clone, Debug)]
pub struct Resolution {
    pub status: EnvStatus,
    pub log_entry: EnvRequestLog,
}

/// Whether a request is refused outright depends on its "domain" header alone, for HTTP and
/// WebSocket requests alike: it is refused, with the reason "Domain '<d>' is blocked", exactly
/// when that header is "malicious.com" or "banned.example", and it is then blocked whatever is
/// on record; a command is never refused so.
pub proof fn blocked_exactly_for_blocked_domains(
    h: EnvRequestHttp,
    w: EnvRequestWs,
    c: EnvRequestCli,
    stored: Option<Env>,
    es: Seq<Endorsement>,
)
    ensures
        block_reason(EnvRequest::Http(h)) is Some <==> (h.headers@.contains_key("domain"@) && (
            h.headers@["domain"@]@ == "malicious.com"@ || h.headers@["domain"@]@ == "banned.example"@)),
        block_reason(EnvRequest::Ws(w)) is Some <==> (w.headers@.contains_key("domain"@) && (
            w.headers@["domain"@]@ == "malicious.com"@ || w.headers@["domain"@]@ == "banned.example"@)),
        block_reason(EnvRequest::Http(h)) is Some ==> block_reason(EnvRequest::Http(h)) == Some(
            "Domain '"@ + h.headers@["domain"@]@ + "' is blocked"@)
            && resolved_verdict(EnvRequest::Http(h), stored, es) == Verdict::Blocked,
        block_reason(EnvRequest::Ws(w)) is Some ==> block_reason(EnvRequest::Ws(w)) == Some(
            "Domain '"@ + w.headers@["domain"@]@ + "' is blocked"@)
            && resolved_verdict(EnvRequest::Ws(w), stored, es) == Verdict::Blocked,
        block_reason(EnvRequest::Cli(c)) is None,
        h.headers@ == w.headers@ ==> block_reason(EnvRequest::Http(h)) == block_reason(EnvRequest::Ws(w)),
{
}

/// The environment of a request is looked up under the root that `split_host` gives for its
/// host, whatever the kind of request: an HTTP and a WebSocket request with the same host
/// are looked up under the same root; a command has no host and no root.
pub proof fn lookup_root_is_the_root_of_the_host(h: EnvRequestHttp, w: EnvRequestWs, c: EnvRequestCli)
    ensures
        request_root_domain(EnvRequest::Http(h)) == Some(split_parts(h.host@).0),
        request_root_domain(EnvRequest::Ws(w)) == Some(split_parts(w.host@).0),
        request_root_domain(EnvRequest::Cli(c)) is None,
        h.host@ == w.host@ ==> request_root_domain(EnvRequest::Http(h)) == request_root_domain(EnvRequest::Ws(w)),
{
}

/// The request's "domain" header, if it has one.
fn domain_header_text(req: &EnvRequest) -> (r: Option<String>)
    ensures
        opt_view(r) == domain_header(*req),
{
    match req {
        EnvRequest::Http(http) => match http.headers.get("domain") {
            Some(d) => Some(d.clone()),
            None => None,
        },
        EnvRequest::Ws(ws) => match ws.headers.get("domain") {
            Some(d) => Some(d.clone()),
            None => None,
        },
        EnvRequest::Cli(_) => None,
    }
}

/// The text under which a status's verdict is recorded, and the reason it gives.
fn status_texts(s: &EnvStatus) -> (r: (String, String))
    ensures
        r.0@ == verdict_text(verdict_of(*s)),
        r.1@ == status_reason(*s),
{
    match s {
        EnvStatus::Approved { .. } => (String::from_str("Approved"), String::new()),
        EnvStatus::Blocked { reason, .. } => (String::from_str("Blocked"), reason.clone()),
        EnvStatus::PendingApproval { reason, .. } => (String::from_str("PendingApproval"), reason.clone()),
    }
}

impl Env {
    /// Instantiates a new `Env` object with the given identifier; its parent is the root
    /// domain of `domain` when that differs from it.
    pub fn new(domain: String, id: String, env_type: EnvType, trust: TrustLevel) -> (r: Self)
        ensures
            r.domain == domain,
            r.id == id,
            r.env_type == env_type,
            r.trust == trust,
            r.routes@ == Map::<Seq<char>, RouteInfo>::empty(),
            opt_view(r.parent) == parent_domain(domain@),
    {
        let parent = determine_parent(domain.as_str());
        Env { parent, domain, id, env_type, trust, routes: StrMap::new() }
    }

    /// The root domain under which the environment of a request is stored, or `None` for a
    /// command, which has no host.
    pub fn request_root(req: &EnvRequest) -> (r: Option<String>)
        ensures
            opt_view(r) == request_root_domain(*req),
    {
        match req {
            EnvRequest::Http(http) => Some(split_host(http.host.as_str()).0),
            EnvRequest::Ws(ws) => Some(split_host(ws.host.as_str()).0),
            EnvRequest::Cli(_) => None,
        }
    }

    /// Evaluates the endorsement status of the environment from its recorded endorsements:
    /// pending approval when there are none, approved when at least one approves, and
    /// blocked when all of them reject; the reason is the environment's domain.
    pub fn status(&self, endorsements: &Vec<Endorsement>, env_request: EnvRequestInfo) -> (r: EnvStatus)
        ensures
            verdict_of(r) == endorsement_verdict(endorsements@),
            status_reason(r) == endorsement_reason(endorsements@, self.domain@),
            status_info(r) == env_request,
    {
        let n = endorsements.len();
        if n == 0 {
            return EnvStatus::PendingApproval { env_request, reason: self.domain.clone() };
        }
        let mut has_approval = false;
        let mut i: usize = 0;
        while i < n
            invariant
                n == endorsements@.len(),
                i <= n,
                has_approval == exists|j: int| 0 <= j < i && (#[trigger] endorsements@[j]).approved,
            decreases n - i,
        {
            if endorsements[i].approved {
                has_approval = true;
            }
            i = i + 1;
        }
        if has_approval {
            EnvStatus::Approved { env_request }
        } else {
            EnvStatus::Blocked { env_request, reason: self.domain.clone() }
        }
    }

    /// Why the request is refused outright, if its "domain" header names a blocked domain.
    pub fn check_if_blocked(req: &EnvRequest) -> (r: Option<String>)
        ensures
            opt_view(r) == block_reason(*req),
    {
        match domain_header_text(req) {
            Some(d) => {
                if same_text(d.as_str(), "malicious.com") || same_text(d.as_str(), "banned.example") {
                    let mut reason = String::from_str("Domain '");
                    reason.append(d.as_str());
                    reason.append("' is blocked");
                    Some(reason)
                } else {
                    None
                }
            },
            None => None,
        }
    }

    /// Resolves a request. A request whose "domain" header names a blocked domain is blocked.
    /// Otherwise, when the request's environment is on record (`stored`, with its
    /// `endorsements`), the request gets that environment's endorsement status; when none is,
    /// it is pending approval under the domain it names. The record of the request and of
    /// the decision, taken at `timestamp`, comes with it, to be kept.
    pub fn resolve(req: &EnvRequest, stored: Option<&Env>, endorsements: &Vec<Endorsement>, timestamp: String) -> (r: Resolution)
        ensures
            verdict_of(r.status) == resolved_verdict(*req, stored_env(stored), endorsements@),
            status_reason(r.status) == resolved_reason(*req, stored_env(stored), endorsements@),
            describes(status_info(r.status), *req),
            records(r.log_entry, *req, timestamp@, headers_text(*req)),
            r.log_entry.decision@ == verdict_text(verdict_of(r.status)),
            r.log_entry.reason@ == resolved_log_reason(*req, stored_env(stored), endorsements@),
    {
        let domain = match req {
            EnvRequest::Cli(_) => String::from_str("localhost"),
            _ => match domain_header_text(req) {
                Some(d) => d,
                None => String::new(),
            },
        };
        let mut log_entry = EnvRequestLog::from(req, timestamp);
        let env_info = EnvRequestInfo::from(req);
        let status = match Self::check_if_blocked(req) {
            Some(reason) => EnvStatus::Blocked { env_request: env_info, reason },
            None => match stored {
                Some(env) => env.status(endorsements, env_info),
                None => EnvStatus::PendingApproval { env_request: env_info, reason: domain },
            },
        };
        let (decision, reason) = status_texts(&status);
        log_entry.decision = decision;
        log_entry.reason = match (Self::check_if_blocked(req), stored) {
            (None, None) => String::from_str("No existing env found"),
            _ => reason,
        };
        Resolution { status, log_entry }
    }
}

} // verus!
