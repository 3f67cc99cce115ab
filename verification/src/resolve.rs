//! Target-URL resolution: finding the candidate URL in an inbound request
//! and validating its scheme.
//!
//! The candidate comes from the `x-target-url` header when present (used
//! raw), otherwise from the `url` query parameter (percent-decoded). A
//! candidate must start with `http://` or `https://`; nothing further is
//! checked.

use vstd::prelude::*;
use crate::headers::lookup;
use crate::strutil::{find_char, lemma_find_char, starts_with, find_char_at, starts_with_str};
use crate::types::{HttpRequest, HttpRequestView, ProxyError, ProxyErrorView};

verus! {

/// What `urlencoding::decode` yields on a given input: `Some` of the decoded
/// characters, or `None` when the decoded bytes are not valid UTF-8.
pub uninterp spec fn percent_decoded(s: Seq<char>) -> Option<Seq<char>>;

/// Relies on `urlencoding::decode`: percent-decodes `%XX` escapes, leaving
/// malformed escapes as they stand, and fails exactly when the decoded bytes
/// are not valid UTF-8. The result depends on the input characters alone.
#[verifier::external_body]
fn percent_decode(s: &str) -> (r: Option<String>)
    ensures
        match r {
            Some(d) => percent_decoded(s@) == Some(d@),
            None => percent_decoded(s@) is None,
        },
{
    match urlencoding::decode(s) {
        Ok(d) => Some(d.into_owned()),
        Err(_) => None,
    }
}

/// The query string of a URI: the characters between the first `?` and the
/// next `?` (or the end), if a `?` occurs at all.
pub open spec fn query_of(uri: Seq<char>) -> Option<Seq<char>> {
    match find_char(uri, '?') {
        None => None,
        Some(i) => {
            let rest = uri.skip(i + 1);
            match find_char(rest, '?') {
                None => Some(rest),
                Some(j) => Some(rest.take(j)),
            }
        },
    }
}

/// The first `&`-separated parameter of a query string.
pub open spec fn first_param(q: Seq<char>) -> Seq<char> {
    match find_char(q, '&') {
        Some(i) => q.take(i),
        None => q,
    }
}

/// The query string after its first `&`-separated parameter, if a `&`
/// occurs.
pub open spec fn rest_params(q: Seq<char>) -> Option<Seq<char>> {
    match find_char(q, '&') {
        Some(i) => Some(q.skip(i + 1)),
        None => None,
    }
}

/// The key of one `key=value` parameter: the characters before the first
/// `=`, or nothing when the parameter has no `=`.
pub open spec fn param_key(p: Seq<char>) -> Option<Seq<char>> {
    match find_char(p, '=') {
        Some(i) => Some(p.take(i)),
        None => None,
    }
}

/// The value of one `key=value` parameter: the characters after the first
/// `=`.
pub open spec fn param_value(p: Seq<char>) -> Seq<char> {
    match find_char(p, '=') {
        Some(i) => p.skip(i + 1),
        None => Seq::empty(),
    }
}

/// The raw (still percent-encoded) value of the first parameter whose key
/// is exactly `url`, if any.
pub open spec fn url_param_value(q: Seq<char>) -> Option<Seq<char>>
    decreases q.len() via url_param_value_dec
{
    if param_key(first_param(q)) == Some("url"@) {
        Some(param_value(first_param(q)))
    } else {
        match rest_params(q) {
            Some(rest) => url_param_value(rest),
            None => None,
        }
    }
}

#[via_fn]
proof fn url_param_value_dec(q: Seq<char>) {
    lemma_find_char(q, '&');
}

/// Scheme validation of a candidate URL: accepted exactly when it starts
/// with `http://` or `https://`.
pub open spec fn spec_validate(u: Seq<char>) -> Result<Seq<char>, ProxyErrorView> {
    if starts_with(u, "http://"@) || starts_with(u, "https://"@) {
        Ok(u)
    } else {
        Err(ProxyErrorView::InvalidTarget { decode_failed: false })
    }
}

/// Target resolution for a whole request: the `x-target-url` header first
/// (its raw value), else the percent-decoded `url` query parameter, else
/// `MissingTarget`; every candidate then passes scheme validation.
pub open spec fn spec_resolve(r: HttpRequestView) -> Result<Seq<char>, ProxyErrorView> {
    match lookup(r.headers, "x-target-url"@) {
        Some(u) => spec_validate(u),
        None => match query_of(r.uri) {
            None => Err(ProxyErrorView::MissingTarget),
            Some(q) => match url_param_value(q) {
                None => Err(ProxyErrorView::MissingTarget),
                Some(v) => match percent_decoded(v) {
                    None => Err(ProxyErrorView::InvalidTarget { decode_failed: true }),
                    Some(d) => spec_validate(d),
                },
            },
        },
    }
}

/// Validates a candidate URL's scheme prefix.
pub fn validate_url(url: String) -> (r: Result<String, ProxyError>)
    ensures
        match spec_validate(url@) {
            Ok(u) => r matches Ok(s) && s@ == u,
            Err(e) => r matches Err(pe) && pe@ == e,
        },
{
    if starts_with_str(url.as_str(), "http://") || starts_with_str(url.as_str(), "https://") {
        Ok(url)
    } else {
        Err(ProxyError::InvalidTarget { decode_failed: false })
    }
}

/// The raw value of the first `url` parameter of a query string, if any.
fn find_url_param(q: &str) -> (r: Option<String>)
    ensures
        match url_param_value(q@) {
            Some(v) => r matches Some(s) && s@ == v,
            None => r is None,
        },
    decreases q@.len(),
{
    proof {
        lemma_find_char(q@, '&');
    }
    let qn = q.unicode_len();
    let (param, rest): (&str, Option<&str>) = match find_char_at(q, '&') {
        Some(i) => (q.substring_char(0, i), Some(q.substring_char(i + 1, qn))),
        None => (q, None),
    };
    proof {
        assert(param@ == first_param(q@));
        match rest_params(q@) {
            Some(restv) => {
                assert(rest matches Some(r2) && r2@ == restv);
            },
            None => {
                assert(rest is None);
            },
        }
        lemma_find_char(param@, '=');
    }
    let pn = param.unicode_len();
    let is_url = match find_char_at(param, '=') {
        Some(k) => {
            let key = param.substring_char(0, k);
            key.to_owned() == "url".to_owned()
        },
        None => false,
    };
    proof {
        assert(is_url == (param_key(first_param(q@)) == Some("url"@)));
    }
    if is_url {
        let k = match find_char_at(param, '=') {
            Some(k) => k,
            None => 0,
        };
        let value = param.substring_char(k + 1, pn);
        Some(value.to_owned())
    } else {
        match rest {
            Some(r2) => find_url_param(r2),
            None => None,
        }
    }
}

/// Resolves the target URL of an inbound request, or says why none could
/// be resolved.
pub fn extract_target_url(req: &HttpRequest) -> (r: Result<String, ProxyError>)
    ensures
        match spec_resolve(req@) {
            Ok(u) => r matches Ok(s) && s@ == u,
            Err(e) => r matches Err(pe) && pe@ == e,
        },
{
    if let Some(v) = crate::headers::get_header(&req.headers, "x-target-url") {
        return validate_url(v);
    }
    let uri_s = req.uri.to_string();
    proof {
        lemma_find_char(uri_s@, '?');
    }
    let un = uri_s.as_str().unicode_len();
    let query: Option<String> = match find_char_at(uri_s.as_str(), '?') {
        None => None,
        Some(i) => {
            let rest = uri_s.as_str().substring_char(i + 1, un);
            proof {
                assert(rest@ == uri_s@.skip(i + 1));
                lemma_find_char(rest@, '?');
            }
            match find_char_at(rest, '?') {
                None => Some(rest.to_owned()),
                Some(j) => Some(rest.substring_char(0, j).to_owned()),
            }
        },
    };
    proof {
        match query_of(req@.uri) {
            Some(qv) => {
                assert(query matches Some(qs) && qs@ == qv);
            },
            None => {
                assert(query is None);
            },
        }
    }
    match query {
        None => Err(ProxyError::MissingTarget),
        Some(qs) => match find_url_param(qs.as_str()) {
            None => Err(ProxyError::MissingTarget),
            Some(raw) => match percent_decode(raw.as_str()) {
                None => Err(ProxyError::InvalidTarget { decode_failed: true }),
                Some(d) => validate_url(d),
            },
        },
    }
}

} // verus!
