//! Header maps and the two sanitizing filters.
//!
//! A header map is a list of `(name, value)` pairs. Names are compared
//! case-insensitively everywhere; the original casing of a forwarded header
//! is preserved. Lookup returns the first match, and [`set_header`] first
//! removes every entry with the same (case-insensitive) name, so a key that
//! the proxy sets itself occurs exactly once.

use vstd::prelude::*;
use crate::strutil::{lower, starts_with, lower_string, starts_with_str};

verus! {

/// The mathematical image of one header entry.
pub type HeaderView = (Seq<char>, Seq<char>);

/// The mathematical image of a header map.
pub type HeadersView = Seq<HeaderView>;

/// A header name meaningful only for a single transport leg; such a header
/// must not be forwarded across the proxy boundary.
pub open spec fn is_hop_by_hop(name: Seq<char>) -> bool {
    ||| lower(name) == "connection"@
    ||| lower(name) == "keep-alive"@
    ||| lower(name) == "proxy-authenticate"@
    ||| lower(name) == "proxy-authorization"@
    ||| lower(name) == "te"@
    ||| lower(name) == "trailers"@
    ||| lower(name) == "transfer-encoding"@
    ||| lower(name) == "upgrade"@
}

/// A header name that carries the target's own CORS assertions: any
/// `access-control-*` header, or `vary`.
pub open spec fn is_cors_name(name: Seq<char>) -> bool {
    ||| starts_with(lower(name), "access-control-"@)
    ||| lower(name) == "vary"@
}

/// The headers that survive the outbound filter: everything but hop-by-hop
/// headers.
pub open spec fn outbound_clean(h: HeadersView) -> HeadersView {
    h.filter(|e: HeaderView| !is_hop_by_hop(e.0))
}

/// The headers that survive the inbound filter, applied to the target's
/// response: everything but hop-by-hop headers and the target's own CORS
/// headers.
pub open spec fn inbound_clean(h: HeadersView) -> HeadersView {
    h.filter(|e: HeaderView| !is_hop_by_hop(e.0) && !is_cors_name(e.0))
}

/// The value of the first entry whose name matches `name`
/// case-insensitively, if any.
pub open spec fn lookup(h: HeadersView, name: Seq<char>) -> Option<Seq<char>>
    decreases h.len(),
{
    if h.len() == 0 {
        None
    } else if lower(h[0].0) == lower(name) {
        Some(h[0].1)
    } else {
        lookup(h.drop_first(), name)
    }
}

/// The map with every entry named `name` (case-insensitively) removed.
pub open spec fn strip_name(h: HeadersView, name: Seq<char>) -> HeadersView {
    h.filter(|e: HeaderView| lower(e.0) != lower(name))
}

/// The map after setting `name` to `value`: every entry with the same
/// case-insensitive name is removed, then the new entry is appended, so the
/// last insertion for a given key wins.
pub open spec fn set_header(h: HeadersView, name: Seq<char>, value: Seq<char>) -> HeadersView {
    strip_name(h, name).push((name, value))
}

/// Appending an entry leaves every earlier lookup result alone; a name
/// found nowhere earlier is answered by the new entry when it matches.
pub proof fn lemma_lookup_push(h: HeadersView, e: HeaderView, m: Seq<char>)
    ensures
        lookup(h.push(e), m) == (match lookup(h, m) {
            Some(v) => Some(v),
            None => if lower(e.0) == lower(m) {
                Some(e.1)
            } else {
                None::<Seq<char>>
            },
        }),
    decreases h.len(),
{
    if h.len() == 0 {
        assert(h.push(e)[0] == e);
        assert(h.push(e).drop_first() =~= Seq::<HeaderView>::empty());
    } else {
        assert(h.push(e)[0] == h[0]);
        assert(h.push(e).drop_first() =~= h.drop_first().push(e));
        lemma_lookup_push(h.drop_first(), e, m);
    }
}

/// Removing a name removes exactly that name from lookup's sight: the
/// stripped name is gone, every other name keeps its answer.
pub proof fn lemma_lookup_strip(h: HeadersView, n: Seq<char>, m: Seq<char>)
    ensures
        lookup(strip_name(h, n), m) == (if lower(m) == lower(n) {
            None::<Seq<char>>
        } else {
            lookup(h, m)
        }),
    decreases h.len(),
{
    reveal(Seq::filter);
    if h.len() == 0 {
        assert(strip_name(h, n) =~= Seq::<HeaderView>::empty());
    } else {
        let prefix = h.drop_last();
        let e = h.last();
        lemma_lookup_strip(prefix, n, m);
        if lower(e.0) != lower(n) {
            lemma_lookup_push(strip_name(prefix, n), e, m);
        }
        lemma_lookup_push(prefix, e, m);
        assert(h =~= prefix.push(e));
    }
}

/// Setting a header answers lookups of that name with the new value and
/// leaves every other name's answer alone.
pub proof fn lemma_lookup_set(h: HeadersView, n: Seq<char>, v: Seq<char>, m: Seq<char>)
    ensures
        lookup(set_header(h, n, v), m) == (if lower(m) == lower(n) {
            Some(v)
        } else {
            lookup(h, m)
        }),
{
    lemma_lookup_strip(h, n, m);
    lemma_lookup_push(strip_name(h, n), (n, v), m);
}

/// The outbound filter erases exactly the hop-by-hop names from lookup's
/// sight.
pub proof fn lemma_lookup_outbound_clean(h: HeadersView, m: Seq<char>)
    ensures
        lookup(outbound_clean(h), m) == (if is_hop_by_hop(m) {
            None::<Seq<char>>
        } else {
            lookup(h, m)
        }),
    decreases h.len(),
{
    reveal(Seq::filter);
    if h.len() == 0 {
        assert(outbound_clean(h) =~= Seq::<HeaderView>::empty());
    } else {
        let prefix = h.drop_last();
        let e = h.last();
        lemma_lookup_outbound_clean(prefix, m);
        if !is_hop_by_hop(e.0) {
            lemma_lookup_push(outbound_clean(prefix), e, m);
        }
        lemma_lookup_push(prefix, e, m);
        assert(h =~= prefix.push(e));
    }
}

/// The inbound filter erases exactly the hop-by-hop and CORS names from
/// lookup's sight.
pub proof fn lemma_lookup_inbound_clean(h: HeadersView, m: Seq<char>)
    ensures
        lookup(inbound_clean(h), m) == (if is_hop_by_hop(m) || is_cors_name(m) {
            None::<Seq<char>>
        } else {
            lookup(h, m)
        }),
    decreases h.len(),
{
    reveal(Seq::filter);
    if h.len() == 0 {
        assert(inbound_clean(h) =~= Seq::<HeaderView>::empty());
    } else {
        let prefix = h.drop_last();
        let e = h.last();
        lemma_lookup_inbound_clean(prefix, m);
        if !is_hop_by_hop(e.0) && !is_cors_name(e.0) {
            lemma_lookup_push(inbound_clean(prefix), e, m);
        }
        lemma_lookup_push(prefix, e, m);
        assert(h =~= prefix.push(e));
    }
}

/// `name` is a hop-by-hop header name. The comparison is case-insensitive.
pub fn is_hop_by_hop_header(name: &str) -> (r: bool)
    ensures
        r == is_hop_by_hop(name@),
{
    let l = lower_string(name);
    l == "connection".to_owned() || l == "keep-alive".to_owned()
        || l == "proxy-authenticate".to_owned() || l == "proxy-authorization".to_owned()
        || l == "te".to_owned() || l == "trailers".to_owned()
        || l == "transfer-encoding".to_owned() || l == "upgrade".to_owned()
}

/// `name` names a CORS header (`access-control-*` or `vary`). The comparison
/// is case-insensitive.
pub fn is_cors_header(name: &str) -> (r: bool)
    ensures
        r == is_cors_name(name@),
{
    let l = lower_string(name);
    starts_with_str(l.as_str(), "access-control-") || l == "vary".to_owned()
}

/// Case-insensitive equality of two header names.
fn name_matches(a: &str, b: &str) -> (r: bool)
    ensures
        r == (lower(a@) == lower(b@)),
{
    let la = lower_string(a);
    let lb = lower_string(b);
    la == lb
}

/// The value of the first header named `name` (case-insensitively), if any.
pub fn get_header(h: &Vec<(String, String)>, name: &str) -> (r: Option<String>)
    ensures
        match r {
            Some(v) => lookup(h.deep_view(), name@) == Some(v@),
            None => lookup(h.deep_view(), name@) is None,
        },
{
    let n = h.len();
    let mut i: usize = 0;
    proof {
        assert(h.deep_view().skip(0) =~= h.deep_view());
    }
    while i < n
        invariant
            n == h.len(),
            i <= n,
            lookup(h.deep_view(), name@) == lookup(h.deep_view().skip(i as int), name@),
        decreases n - i,
    {
        proof {
            assert(h.deep_view().len() == n);
            assert(h.deep_view().skip(i as int)[0] == h.deep_view()[i as int]);
        }
        if name_matches(h[i].0.as_str(), name) {
            return Some(h[i].1.clone());
        }
        proof {
            assert(h.deep_view().skip(i as int).drop_first() =~= h.deep_view().skip(i + 1));
        }
        i = i + 1;
    }
    proof {
        assert(h.deep_view().skip(n as int).len() == 0);
    }
    None
}

/// Removes every hop-by-hop header; all others pass through unchanged.
pub fn filter_outbound(h: &Vec<(String, String)>) -> (r: Vec<(String, String)>)
    ensures
        r.deep_view() == outbound_clean(h.deep_view()),
{
    let n = h.len();
    let mut r: Vec<(String, String)> = Vec::new();
    let mut i: usize = 0;
    while i < n
        invariant
            n == h.len(),
            i <= n,
            r.deep_view() == outbound_clean(h.deep_view().take(i as int)),
        decreases n - i,
    {
        let keep = !is_hop_by_hop_header(h[i].0.as_str());
        if keep {
            r.push((h[i].0.clone(), h[i].1.clone()));
        }
        proof {
            reveal(Seq::filter);
            assert(h.deep_view().take(i + 1).drop_last() =~= h.deep_view().take(i as int));
            assert(h.deep_view().take(i + 1).last() == h.deep_view()[i as int]);
            assert(r.deep_view() =~= outbound_clean(h.deep_view().take(i + 1)));
        }
        i = i + 1;
    }
    proof {
        assert(h.deep_view().take(n as int) =~= h.deep_view());
    }
    r
}

/// Removes every hop-by-hop header and every CORS header; all others pass
/// through unchanged.
pub fn filter_inbound(h: &Vec<(String, String)>) -> (r: Vec<(String, String)>)
    ensures
        r.deep_view() == inbound_clean(h.deep_view()),
{
    let n = h.len();
    let mut r: Vec<(String, String)> = Vec::new();
    let mut i: usize = 0;
    while i < n
        invariant
            n == h.len(),
            i <= n,
            r.deep_view() == inbound_clean(h.deep_view().take(i as int)),
        decreases n - i,
    {
        let keep = !is_hop_by_hop_header(h[i].0.as_str()) && !is_cors_header(h[i].0.as_str());
        if keep {
            r.push((h[i].0.clone(), h[i].1.clone()));
        }
        proof {
            reveal(Seq::filter);
            assert(h.deep_view().take(i + 1).drop_last() =~= h.deep_view().take(i as int));
            assert(h.deep_view().take(i + 1).last() == h.deep_view()[i as int]);
            assert(r.deep_view() =~= inbound_clean(h.deep_view().take(i + 1)));
        }
        i = i + 1;
    }
    proof {
        assert(h.deep_view().take(n as int) =~= h.deep_view());
    }
    r
}

/// Sets `name` to `value`, removing any previous entry with the same
/// case-insensitive name first.
pub fn put_header(h: &mut Vec<(String, String)>, name: &str, value: &str)
    ensures
        final(h).deep_view() == set_header(old(h).deep_view(), name@, value@),
{
    let n = h.len();
    let mut r: Vec<(String, String)> = Vec::new();
    let mut i: usize = 0;
    while i < n
        invariant
            n == h.len(),
            i <= n,
            r.deep_view() == strip_name(h.deep_view().take(i as int), name@),
        decreases n - i,
    {
        let keep = !name_matches(h[i].0.as_str(), name);
        if keep {
            r.push((h[i].0.clone(), h[i].1.clone()));
        }
        proof {
            reveal(Seq::filter);
            assert(h.deep_view().take(i + 1).drop_last() =~= h.deep_view().take(i as int));
            assert(h.deep_view().take(i + 1).last() == h.deep_view()[i as int]);
            assert(r.deep_view() =~= strip_name(h.deep_view().take(i + 1), name@));
        }
        i = i + 1;
    }
    proof {
        assert(h.deep_view().take(n as int) =~= h.deep_view());
    }
    r.push((name.to_owned(), value.to_owned()));
    proof {
        assert(r.deep_view() =~= set_header(h.deep_view(), name@, value@));
    }
    *h = r;
}

} // verus!
