//! Host names: their labels, their root domain, their parent and their subdomain.
use vstd::prelude::*;
use crate::text::{last_index_before, has_prefix, has_suffix, trim_end_all, last_index_of, same_text, trim_end_matches, starts_with};

verus! {

/// The view of an optional string.
pub open spec fn opt_view(o: Option<String>) -> Option<Seq<char>> {
    match o {
        Some(s) => Some(s@),
        None => None,
    }
}

pub proof fn lemma_last_index_bounds(s: Seq<char>, c: char, end: int)
    requires
        0 <= end <= s.len(),
    ensures
        -1 <= last_index_before(s, c, end) < end,
        last_index_before(s, c, end) >= 0 ==> s[last_index_before(s, c, end)] == c,
        forall|k: int| last_index_before(s, c, end) < k < end ==> s[k] != c,
    decreases end,
{
    if end > 0 && s[end - 1] != c {
        lemma_last_index_bounds(s, c, end - 1);
    }
}

pub proof fn lemma_last_index_take(s: Seq<char>, c: char, i: int, e: int)
    requires
        0 <= e <= i <= s.len(),
    ensures
        last_index_before(s.take(i), c, e) == last_index_before(s, c, e),
    decreases e,
{
    if e > 0 {
        lemma_last_index_take(s, c, i, e - 1);
    }
}

/// The labels of a host: its text split at every '.', as `str::split('.')` gives them.
pub open spec fn labels(s: Seq<char>) -> Seq<Seq<char>>
    decreases s.len(),
{
    let i = last_index_before(s, '.', s.len() as int);
    if i < 0 {
        seq![s]
    } else {
        proof {
            lemma_last_index_bounds(s, '.', s.len() as int);
        }
        labels(s.take(i)).push(s.skip(i + 1))
    }
}

/// The root domain of a host: its last two labels joined by '.', when it has two or more.
pub open spec fn root_domain(h: Seq<char>) -> Option<Seq<char>> {
    let parts = labels(h);
    if parts.len() >= 2 {
        Some(parts[parts.len() - 2] + seq!['.'] + parts[parts.len() - 1])
    } else {
        None
    }
}

/// The parent of a host: its root domain, when that differs from the host itself.
pub open spec fn parent_domain(h: Seq<char>) -> Option<Seq<char>> {
    match root_domain(h) {
        Some(r) => if r != h { Some(r) } else { None },
        None => None,
    }
}

/// The root of a host for `split_host`: its root domain, or the host itself when it has none.
pub open spec fn root_or_host(h: Seq<char>) -> Seq<char> {
    match root_domain(h) {
        Some(r) => r,
        None => h,
    }
}

/// What `split_host` gives: the root, and the subdomain part when the host is not its own root.
pub open spec fn split_parts(h: Seq<char>) -> (Seq<char>, Option<Seq<char>>) {
    let root = root_or_host(h);
    if h == root {
        (root, None)
    } else {
        (root, Some(trim_end_all(h, seq!['.'] + root)))
    }
}

/// The host starts with "localhost" or with "127.0.0.1".
pub open spec fn looks_local(h: Seq<char>) -> bool {
    has_prefix(h, seq!['l', 'o', 'c', 'a', 'l', 'h', 'o', 's', 't'])
        || has_prefix(h, seq!['1', '2', '7', '.', '0', '.', '0', '.', '1'])
}

/// The last label of a host is the text after its last '.'; a host has at least one label.
pub proof fn lemma_labels_last(s: Seq<char>)
    ensures
        labels(s).len() >= 1,
        labels(s).last() == s.skip(last_index_before(s, '.', s.len() as int) + 1),
        labels(s).len() >= 2 <==> last_index_before(s, '.', s.len() as int) >= 0,
    decreases s.len(),
{
    lemma_last_index_bounds(s, '.', s.len() as int);
    let i = last_index_before(s, '.', s.len() as int);
    if i >= 0 {
        lemma_labels_last(s.take(i));
    } else {
        assert(s.skip(0) =~= s);
    }
}

/// The root domain is the text after the next-to-last '.', when the host holds a '.'.
pub proof fn lemma_root_domain_suffix(h: Seq<char>)
    ensures
        ({
            let i = last_index_before(h, '.', h.len() as int);
            let j = last_index_before(h, '.', i);
            if i < 0 {
                root_domain(h) is None
            } else {
                &&& 0 <= i < h.len()
                &&& -1 <= j < i
                &&& root_domain(h) == Some(h.skip(j + 1))
                &&& j >= 0 ==> h[j] == '.'
                &&& forall|k: int| j < k < h.len() && k != i ==> h[k] != '.'
                &&& h[i] == '.'
            }
        }),
{
    lemma_last_index_bounds(h, '.', h.len() as int);
    lemma_labels_last(h);
    let i = last_index_before(h, '.', h.len() as int);
    if i >= 0 {
        let t = h.take(i);
        lemma_labels_last(t);
        lemma_last_index_take(h, '.', i, i);
        lemma_last_index_bounds(h, '.', i);
        let j = last_index_before(h, '.', i);
        assert(labels(h) == labels(t).push(h.skip(i + 1)));
        assert(labels(h)[labels(h).len() - 2] == labels(t).last());
        assert(t.skip(j + 1) + seq!['.'] + h.skip(i + 1) =~= h.skip(j + 1));
    }
}

/// Extracts the root domain from a full host (e.g., "admin.example.com" -> "example.com").
pub fn extract_root_domain(host: &str) -> (r: Option<String>)
    ensures
        opt_view(r) == root_domain(host@),
{
    proof {
        lemma_root_domain_suffix(host@);
    }
    let n = host.unicode_len();
    match last_index_of(host, '.', n) {
        None => None,
        Some(i) => {
            let start: usize = match last_index_of(host, '.', i) {
                Some(j) => j + 1,
                None => 0,
            };
            Some(String::from_str(host.substring_char(start, n)))
        },
    }
}

/// Determines the parent domain if this is a subdomain.
pub fn determine_parent(host: &str) -> (r: Option<String>)
    ensures
        opt_view(r) == parent_domain(host@),
{
    match extract_root_domain(host) {
        Some(root) => {
            if !same_text(host, root.as_str()) {
                Some(root)
            } else {
                None
            }
        },
        None => None,
    }
}

/// Returns (root_domain, subdomain) where subdomain is None if host == root.
pub fn split_host(host: &str) -> (r: (String, Option<String>))
    ensures
        (r.0@, opt_view(r.1)) == split_parts(host@),
{
    let root = match extract_root_domain(host) {
        Some(r) => r,
        None => String::from_str(host),
    };
    if same_text(host, root.as_str()) {
        (root, None)
    } else {
        let mut pattern = String::from_str(".");
        pattern.append(root.as_str());
        proof {
            reveal_strlit(".");
            assert(pattern@ =~= seq!['.'] + root@);
        }
        let sub = trim_end_matches(host, pattern.as_str());
        (root, Some(sub))
    }
}

/// A host is local exactly when its text begins with "localhost" or with "127.0.0.1";
/// in particular "localhost" and "127.0.0.1" themselves are local, with or without a port.
pub proof fn local_hosts_are_those_with_a_local_prefix(h: Seq<char>, rest: Seq<char>)
    ensures
        looks_local(h) <==> (has_prefix(h, "localhost"@) || has_prefix(h, "127.0.0.1"@)),
        looks_local("localhost"@ + rest),
        looks_local("127.0.0.1"@ + rest),
        looks_local("127.0.0.1"@),
        looks_local("localhost"@),
{
    reveal_strlit("localhost");
    reveal_strlit("127.0.0.1");
    assert("localhost"@ =~= seq!['l', 'o', 'c', 'a', 'l', 'h', 'o', 's', 't']);
    assert("127.0.0.1"@ =~= seq!['1', '2', '7', '.', '0', '.', '0', '.', '1']);
    assert(("localhost"@ + rest).take(9) =~= "localhost"@);
    assert(("127.0.0.1"@ + rest).take(9) =~= "127.0.0.1"@);
    assert("localhost"@.take(9) =~= "localhost"@);
    assert("127.0.0.1"@.take(9) =~= "127.0.0.1"@);
}

/// Quick check whether this request originates from localhost.
pub fn is_localhost(host: &str) -> (r: bool)
    ensures
        r == looks_local(host@),
        r <==> (has_prefix(host@, "localhost"@) || has_prefix(host@, "127.0.0.1"@)),
{
    proof {
        reveal_strlit("localhost");
        reveal_strlit("127.0.0.1");
        assert("localhost"@ =~= seq!['l', 'o', 'c', 'a', 'l', 'h', 'o', 's', 't']);
        assert("127.0.0.1"@ =~= seq!['1', '2', '7', '.', '0', '.', '0', '.', '1']);
    }
    starts_with(host, "localhost") || starts_with(host, "127.0.0.1")
}


/// The text `p` written `k` times in a row.
pub open spec fn repeated(p: Seq<char>, k: nat) -> Seq<char>
    decreases k,
{
    if k == 0 {
        Seq::empty()
    } else {
        repeated(p, (k - 1) as nat) + p
    }
}

/// How many trailing copies of `p` `trim_end_all` removes from `s`.
pub open spec fn trim_count(s: Seq<char>, p: Seq<char>) -> nat
    decreases s.len(),
{
    if p.len() > 0 && has_suffix(s, p) {
        trim_count(s.take(s.len() - p.len()), p) + 1
    } else {
        0
    }
}

proof fn lemma_trim_reassembles(s: Seq<char>, p: Seq<char>)
    ensures
        s == trim_end_all(s, p) + repeated(p, trim_count(s, p)),
        has_suffix(s, p) && p.len() > 0 ==> trim_count(s, p) >= 1,
        !(p.len() > 0 && has_suffix(trim_end_all(s, p), p)),
    decreases s.len(),
{
    if p.len() > 0 && has_suffix(s, p) {
        let t = s.take(s.len() - p.len());
        lemma_trim_reassembles(t, p);
        let k = trim_count(t, p);
        assert(repeated(p, k + 1) == repeated(p, k) + p);
        assert(s =~= t + p);
        assert(trim_end_all(s, p) + repeated(p, k + 1) =~= (trim_end_all(t, p) + repeated(p, k)) + p);
    } else {
        assert(s + Seq::<char>::empty() =~= s);
    }
}

proof fn lemma_last_index_is(s: Seq<char>, c: char, end: int, k: int)
    requires
        0 <= end <= s.len(),
        -1 <= k < end,
        k >= 0 ==> s[k] == c,
        forall|m: int| k < m < end ==> s[m] != c,
    ensures
        last_index_before(s, c, end) == k,
    decreases end,
{
    if end > 0 && end - 1 != k {
        lemma_last_index_is(s, c, end - 1, k);
    }
}

/// A root domain is its own root: extracting the root domain of a root domain gives it back,
/// and a root domain has no parent.
pub proof fn root_domain_is_its_own_root(h: Seq<char>)
    requires
        root_domain(h) is Some,
    ensures
        root_domain(root_domain(h)->0) == root_domain(h),
        parent_domain(root_domain(h)->0) is None,
{
    lemma_root_domain_suffix(h);
    lemma_last_index_bounds(h, '.', h.len() as int);
    let i = last_index_before(h, '.', h.len() as int);
    let j = last_index_before(h, '.', i);
    let r = h.skip(j + 1);
    let ri = i - (j + 1);
    assert(r[ri] == '.');
    assert forall|m: int| ri < m < r.len() implies r[m] != '.' by {
        assert(r[m] == h[m + j + 1]);
    }
    lemma_last_index_is(r, '.', r.len() as int, ri);
    assert forall|m: int| -1 < m < ri implies r[m] != '.' by {
        assert(r[m] == h[m + j + 1]);
    }
    lemma_last_index_is(r, '.', ri, -1);
    lemma_root_domain_suffix(r);
    assert(r.skip(0) =~= r);
}

/// `determine_parent` and `split_host` agree: a host has a parent exactly when `split_host`
/// finds a subdomain part, and that parent is the root that `split_host` gives.
pub proof fn parent_agrees_with_split(h: Seq<char>)
    ensures
        parent_domain(h) == (if split_parts(h).1 is Some {
            Some(split_parts(h).0)
        } else {
            None::<Seq<char>>
        }),
{
}

/// What `split_host` gives puts the host back together: the host is the subdomain part
/// followed by one or more copies of "." and the root, and the subdomain part does not
/// itself end with "." and the root.
pub proof fn split_host_reassembles(h: Seq<char>)
    requires
        split_parts(h).1 is Some,
    ensures
        ({
            let root = split_parts(h).0;
            let sub = split_parts(h).1->0;
            &&& exists|k: nat| k >= 1 && h == #[trigger] (sub + repeated(seq!['.'] + root, k))
            &&& !has_suffix(sub, seq!['.'] + root)
        }),
{
    lemma_root_domain_suffix(h);
    let root = split_parts(h).0;
    let p = seq!['.'] + root;
    let i = last_index_before(h, '.', h.len() as int);
    let j = last_index_before(h, '.', i);
    assert(root_domain(h) is Some);
    if j < 0 {
        assert(h.skip(0) =~= h);
    }
    assert(j >= 0);
    assert(h.skip(h.len() - p.len()) =~= p);
    lemma_trim_reassembles(h, p);
    let k = trim_count(h, p);
    assert(k >= 1 && h == split_parts(h).1->0 + repeated(p, k));
}

} // verus!
