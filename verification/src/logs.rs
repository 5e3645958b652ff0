//! How the stored request records are queried: which statement, with which parameters.
use vstd::prelude::*;

verus! {

/// The newest records for one domain, a page at a time.
pub const LOGS_FOR_DOMAIN_PAGED: &'static str = "SELECT method, path, host, timestamp, ip, headers, decision, reason, domain FROM env_request_logs WHERE domain = ? ORDER BY timestamp DESC LIMIT ? OFFSET ?";

/// All records for one domain, newest first.
pub const LOGS_FOR_DOMAIN: &'static str = "SELECT method, path, host, timestamp, ip, headers, decision, reason, domain FROM env_request_logs WHERE domain = ? ORDER BY timestamp DESC";

/// The newest records, a page at a time.
pub const LOGS_PAGED: &'static str = "SELECT method, path, host, timestamp, ip, headers, decision, reason, domain FROM env_request_logs ORDER BY timestamp DESC LIMIT ? OFFSET ?";

/// All records, newest first.
pub const LOGS_ALL: &'static str = "SELECT method, path, host, timestamp, ip, headers, decision, reason, domain FROM env_request_logs ORDER BY timestamp DESC";

/// A value bound to a statement's parameter.
pub enum SqlParam {
    Text(String),
    Integer(i64),
}

/// A statement and the values bound to its parameters, in order.
pub struct LogQuery {
    pub sql: &'static str,
    pub params: Vec<SqlParam>,
}

/// The query that fetches the stored request records: filtered by `domain` when one is
/// given, limited to `count` records after skipping `offset` (0 when not given) when a
/// count is given, newest first.
pub fn request_log_query(domain: Option<&str>, count: Option<usize>, offset: Option<usize>) -> (r: LogQuery)
    ensures
        ({
            let skip: i64 = match offset {
                Some(o) => o as i64,
                None => 0,
            };
            match (domain, count) {
                (Some(d), Some(c)) => r.sql@ == LOGS_FOR_DOMAIN_PAGED@ && r.params@.len() == 3
                    && (r.params@[0] matches SqlParam::Text(t) && t@ == d@)
                    && r.params@[1] == SqlParam::Integer(c as i64) && r.params@[2] == SqlParam::Integer(skip),
                (Some(d), None) => r.sql@ == LOGS_FOR_DOMAIN@ && r.params@.len() == 1
                    && (r.params@[0] matches SqlParam::Text(t) && t@ == d@),
                (None, Some(c)) => r.sql@ == LOGS_PAGED@ && r.params@.len() == 2
                    && r.params@[0] == SqlParam::Integer(c as i64) && r.params@[1] == SqlParam::Integer(skip),
                (None, None) => r.sql@ == LOGS_ALL@ && r.params@.len() == 0,
            }
        }),
{
    let skip: i64 = match offset {
        Some(o) => o as i64,
        None => 0,
    };
    let mut params: Vec<SqlParam> = Vec::new();
    match (domain, count) {
        (Some(d), Some(c)) => {
            params.push(SqlParam::Text(String::from_str(d)));
            params.push(SqlParam::Integer(c as i64));
            params.push(SqlParam::Integer(skip));
            LogQuery { sql: LOGS_FOR_DOMAIN_PAGED, params }
        },
        (Some(d), None) => {
            params.push(SqlParam::Text(String::from_str(d)));
            LogQuery { sql: LOGS_FOR_DOMAIN, params }
        },
        (None, Some(c)) => {
            params.push(SqlParam::Integer(c as i64));
            params.push(SqlParam::Integer(skip));
            LogQuery { sql: LOGS_PAGED, params }
        },
        (None, None) => LogQuery { sql: LOGS_ALL, params },
    }
}

} // verus!
