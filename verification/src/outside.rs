//! The calls this library makes into other crates, each with the contract it relies on.
use vstd::prelude::*;
use crate::str_map::StrMap;

verus! {

/// The JSON text that `serde_json::to_string` writes for a map of text keys to text values
/// held in a `BTreeMap` (keys in order, values and keys escaped as JSON strings).
pub uninterp spec fn json_object_text(entries: Map<Seq<char>, Seq<char>>) -> Seq<char>;

/// Calls `serde_json::to_string` on the map's entries, inserted into a `BTreeMap` in entry
/// order (`BTreeMap::insert` replaces the value of a key already present, so a later entry
/// for a key overrides an earlier one, as the map's view does).
/// The text is named `json_object_text` of the map's view. `serde_json` reports errors only
/// for map keys that are not strings and for failed writes, neither of which can happen
/// when text is written to a `String`, so the empty text an error would give never comes.
#[verifier::external_body]
pub(crate) fn json_object(m: &StrMap<String>) -> (r: String)
    ensures
        r@ == json_object_text(m@.map_values(|v: String| v@)),
{
    let mut ordered: std::collections::BTreeMap<&str, &str> = std::collections::BTreeMap::new();
    for (k, v) in m.entries.iter() {
        ordered.insert(k.as_str(), v.as_str());
    }
    serde_json::to_string(&ordered).unwrap_or_default()
}

/// The key and value pairs that `serde_urlencoded::from_str` decodes from a query string
/// (split at '&' and '=', '+' read as a space, percent escapes decoded), in order, or
/// nothing when it reports an error.
pub uninterp spec fn url_query_pairs(query: Seq<char>) -> Option<Seq<(Seq<char>, Seq<char>)>>;

/// The views of a list of text pairs.
pub open spec fn pair_views(v: Seq<(String, String)>) -> Seq<(Seq<char>, Seq<char>)> {
    v.map_values(|p: (String, String)| (p.0@, p.1@))
}

/// Calls `serde_urlencoded::from_str` into a list of text pairs; its result is named
/// `url_query_pairs` of the query text, and an error becomes `None`.
#[verifier::external_body]
pub(crate) fn decode_query_pairs(query: &str) -> (r: Option<Vec<(String, String)>>)
    ensures
        match r {
            Some(v) => url_query_pairs(query@) == Some(pair_views(v@)),
            None => url_query_pairs(query@) is None,
        },
{
    serde_urlencoded::from_str::<Vec<(String, String)>>(query).ok()
}

} // verus!
