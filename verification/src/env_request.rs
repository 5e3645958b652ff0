//! Framework-neutral descriptions of incoming requests (HTTP, WebSocket, command line).
use vstd::prelude::*;
use crate::str_map::{StrMap, lemma_cloned_text_map};
use crate::text::{joined, text_views, join, copy_texts, copy_opt_text, eq_ignoring_ascii_case,
    eq_ignore_ascii_case, ascii_lower};
use crate::domain_utils::opt_view;

verus! {

/// A request descriptor representing the source of a request.
/// This enum abstracts various ingress types (e.g., HTTP, WebSocket, CLI)
/// into a unified request structure for environment recognition and handling.
#[derive(Clone, Debug)]
pub enum EnvRequest {
    /// HTTP-based request (e.g., Actix, Express, Hyper, etc.)
    Http(EnvRequestHttp),
    /// WebSocket-based request
    Ws(EnvRequestWs),
    /// Command-line or programmatic trigger
    Cli(EnvRequestCli),
}

/// A simplified form of EnvRequest for response bodies or logs.
/// `kind` holds what is serialised under the name "type".
#[derive(Clone, Debug)]
pub struct EnvRequestInfo {
    pub kind: String,
    pub host: String,
    pub ip: Option<String>,
    pub method: Option<String>,
    pub path: Option<String>,
    pub headers: Option<StrMap<String>>,
    pub args: Option<Vec<String>>,
}

/// Represents an HTTP request with metadata and headers.
#[derive(Clone, Debug)]
pub struct EnvRequestHttp {
    /// Host header or domain of the incoming request.
    pub host: String,
    /// Optional remote IP address, if available.
    pub ip: Option<String>,
    /// HTTP method (e.g., GET, POST).
    pub method: String,
    /// Request path (e.g., /api/data).
    pub path: String,
    /// Headers from the incoming request, flattened as string pairs.
    pub headers: StrMap<String>,
}

/// A WebSocket-based request, including connection metadata and payload.
#[derive(Clone, Debug)]
pub struct EnvRequestWs {
    /// Host header or domain from the websocket upgrade request.
    pub host: String,
    /// Optional IP address of the connecting client.
    pub ip: Option<String>,
    /// Flattened headers at the moment of upgrade.
    pub headers: StrMap<String>,
    /// Optional string-based payload received.
    pub payload: Option<String>,
}

/// A CLI-triggered request, representing non-network system events or invocations.
#[derive(Clone, Debug)]
pub struct EnvRequestCli {
    /// The command invoked from CLI or automation.
    pub command: String,
    /// Arguments passed to the command.
    pub args: Vec<String>,
    /// Environment variables or runtime context.
    pub env: StrMap<String>,
}

impl Default for EnvRequestCli {
    /// An empty command with no arguments and no environment.
    fn default() -> (r: Self)
        ensures
            r.command@ == Seq::<char>::empty(),
            r.args@.len() == 0,
            r.env@ == Map::<Seq<char>, String>::empty(),
    {
        EnvRequestCli { command: String::new(), args: Vec::new(), env: StrMap::new() }
    }
}

/// The texts of an optional list of strings.
pub open spec fn opt_texts(o: Option<Vec<String>>) -> Option<Seq<Seq<char>>> {
    match o {
        Some(v) => Some(text_views(v@)),
        None => None,
    }
}

/// The header maps of an optional header map.
pub open spec fn opt_map(o: Option<StrMap<String>>) -> Option<Map<Seq<char>, String>> {
    match o {
        Some(m) => Some(m@),
        None => None,
    }
}

/// What `EnvRequestInfo::from` gives for a request, field by field.
pub open spec fn describes(info: EnvRequestInfo, req: EnvRequest) -> bool {
    match req {
        EnvRequest::Http(http) => {
            &&& info.kind@ == "http"@
            &&& info.host@ == http.host@
            &&& opt_view(info.ip) == opt_view(http.ip)
            &&& opt_view(info.method) == Some(http.method@)
            &&& opt_view(info.path) == Some(http.path@)
            &&& opt_map(info.headers) == Some(http.headers@)
            &&& info.args is None
        },
        EnvRequest::Ws(ws) => {
            &&& info.kind@ == "ws"@
            &&& info.host@ == ws.host@
            &&& opt_view(info.ip) == opt_view(ws.ip)
            &&& info.method is None
            &&& info.path is None
            &&& opt_map(info.headers) == Some(ws.headers@)
            &&& info.args is None
        },
        EnvRequest::Cli(cli) => {
            &&& info.kind@ == "cli"@
            &&& info.host@ == "localhost"@
            &&& info.ip is None
            &&& opt_view(info.method) == Some(cli.command@)
            &&& opt_view(info.path) == Some(joined(text_views(cli.args@), " "@))
            &&& info.headers is None
            &&& opt_texts(info.args) == Some(text_views(cli.args@))
        },
    }
}

/// A copy of a map of texts.
pub fn copy_text_map(m: &StrMap<String>) -> (r: StrMap<String>)
    ensures
        r.entries@ == m.entries@,
        r@ == m@,
{
    let r = m.clone();
    proof {
        lemma_cloned_text_map(*m, r);
    }
    r
}

impl EnvRequestInfo {
    /// The serialisable summary of a request.
    pub fn from(req: &EnvRequest) -> (r: EnvRequestInfo)
        ensures
            describes(r, *req),
    {
        match req {
            EnvRequest::Http(http) => EnvRequestInfo {
                kind: String::from_str("http"),
                host: http.host.clone(),
                ip: copy_opt_text(&http.ip),
                method: Some(http.method.clone()),
                path: Some(http.path.clone()),
                headers: Some(copy_text_map(&http.headers)),
                args: None,
            },
            EnvRequest::Ws(ws) => EnvRequestInfo {
                kind: String::from_str("ws"),
                host: ws.host.clone(),
                ip: copy_opt_text(&ws.ip),
                method: None,
                path: None,
                headers: Some(copy_text_map(&ws.headers)),
                args: None,
            },
            EnvRequest::Cli(cli) => EnvRequestInfo {
                kind: String::from_str("cli"),
                host: String::from_str("localhost"),
                ip: None,
                method: Some(cli.command.clone()),
                path: Some(join(&cli.args, " ")),
                headers: None,
                args: Some(copy_texts(&cli.args)),
            },
        }
    }
}

/// The parts of an incoming HTTP request that the library reads, taken from the
/// web framework: every header whose value is text (name in lower case), the first
/// "host" header and the first "upgrade" header when their values are text, the
/// remote address, the method and the path.
#[derive(Clone, Debug)]
pub struct RawRequest {
    pub headers: Vec<(String, String)>,
    pub host_header: Option<String>,
    pub upgrade_header: Option<String>,
    pub ip: Option<String>,
    pub method: String,
    pub path: String,
}

/// The request asks to be upgraded to a WebSocket.
pub open spec fn asks_websocket(raw: RawRequest) -> bool {
    match raw.upgrade_header {
        Some(u) => eq_ignoring_ascii_case(u@, "websocket"@),
        None => false,
    }
}

/// A lower-case ASCII letter `l` and its upper-case form `u` are the only characters whose
/// ASCII lower-case form is `l`.
proof fn lemma_lower_case_of_letter(c: char, l: char, u: char)
    requires
        'a' <= l && l <= 'z',
        u as u32 + 32 == l as u32,
    ensures
        ascii_lower(l) == l,
        ascii_lower(c) == l <==> (c == l || c == u),
{
    if 'A' <= c && c <= 'Z' {
        assert(((c as u32) + 32) as char as u32 == (c as u32) + 32);
    }
}

/// A request is taken for a WebSocket exactly when its upgrade header is "websocket" with each
/// letter in either case, so "websocket", "WebSocket" and "WEBSOCKET" all are; any other
/// upgrade header, or none, gives an HTTP request.
pub proof fn websocket_exactly_when_upgrade_says_so(raw: RawRequest)
    ensures
        asks_websocket(raw) <==> (raw.upgrade_header matches Some(u) && u@.len() == 9
            && forall|i: int| 0 <= i < 9 ==> (#[trigger] u@[i] == "websocket"@[i] || u@[i] == "WEBSOCKET"@[i])),
        raw.upgrade_header matches Some(u) && (u@ == "websocket"@ || u@ == "WebSocket"@ || u@ == "WEBSOCKET"@)
            ==> asks_websocket(raw),
{
    reveal_strlit("websocket");
    reveal_strlit("WEBSOCKET");
    reveal_strlit("WebSocket");
    let lo = "websocket"@;
    let up = "WEBSOCKET"@;
    assert(lo =~= seq!['w', 'e', 'b', 's', 'o', 'c', 'k', 'e', 't']);
    assert(up =~= seq!['W', 'E', 'B', 'S', 'O', 'C', 'K', 'E', 'T']);
    assert("WebSocket"@ =~= seq!['W', 'e', 'b', 'S', 'o', 'c', 'k', 'e', 't']);
    match raw.upgrade_header {
        Some(u) => {
            let v = u@;
            if v.len() == 9 {
                assert forall|i: int| 0 <= i < 9 implies
                    (ascii_lower(#[trigger] v[i]) == ascii_lower(lo[i]) <==> (v[i] == lo[i] || v[i] == up[i])) by {
                    lemma_lower_case_of_letter(v[i], lo[i], up[i]);
                }
            }
        },
        None => {},
    }
}

/// The host that a request names: its "host" header, or the empty text.
pub open spec fn raw_host(raw: RawRequest) -> Seq<char> {
    match raw.host_header {
        Some(h) => h@,
        None => Seq::empty(),
    }
}

/// Parses an incoming request into an `EnvRequest` recognized by `this.env`: a WebSocket
/// request when it asks to be upgraded to "websocket" (in any case), an HTTP request otherwise.
pub fn parse_env_request(raw: RawRequest) -> (r: Option<EnvRequest>)
    ensures
        r is Some,
        asks_websocket(raw) ==> (r matches Some(EnvRequest::Ws(ws)) && ws.host@ == raw_host(raw)
            && ws.ip == raw.ip && ws.headers.entries@ == raw.headers@ && ws.payload is None),
        !asks_websocket(raw) ==> (r matches Some(EnvRequest::Http(http)) && http.host@ == raw_host(raw)
            && http.ip == raw.ip && http.method == raw.method && http.path == raw.path
            && http.headers.entries@ == raw.headers@),
{
    let RawRequest { headers, host_header, upgrade_header, ip, method, path } = raw;
    let host = match host_header {
        Some(h) => h,
        None => String::new(),
    };
    let is_ws = match &upgrade_header {
        Some(u) => eq_ignore_ascii_case(u.as_str(), "websocket"),
        None => false,
    };
    let headers = StrMap::from_pairs(headers);
    if is_ws {
        Some(EnvRequest::Ws(EnvRequestWs { host, ip, headers, payload: None }))
    } else {
        Some(EnvRequest::Http(EnvRequestHttp { host, ip, method, path, headers }))
    }
}

} // verus!
