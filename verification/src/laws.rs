//! The library's laws: properties of whole request/response paths, proved
//! once for every input.

use vstd::prelude::*;
use vstd::utf8::encode_utf8;
use crate::headers::{
    HeadersView, is_cors_name, is_hop_by_hop, lemma_lookup_inbound_clean,
    lemma_lookup_outbound_clean, lemma_lookup_set, lookup,
};
use crate::proxy::{
    RequestPlanView, spec_failure_response, spec_plan, spec_preflight_response,
    spec_success_response,
};
use crate::resolve::{percent_decoded, query_of, spec_validate, url_param_value};
use crate::strutil::{contains_seq, lower, starts_with};
use crate::translate::{
    error_text, spec_add_cors, spec_build_proxy_request, spec_build_proxy_response,
    spec_error_response, spec_preflight,
};
use crate::types::{HttpRequestView, HttpResponseView, Method, ProxyErrorView};

verus! {

/// Every CORS-decorated response answers `Access-Control-Allow-Origin`
/// with `*`, whatever it held before.
pub proof fn lemma_cors_decoration(r: HttpResponseView)
    ensures
        lookup(spec_add_cors(r).headers, "Access-Control-Allow-Origin"@) == Some("*"@),
{
    reveal_strlit("Access-Control-Allow-Origin");
    reveal_strlit("Access-Control-Allow-Methods");
    reveal_strlit("Access-Control-Allow-Headers");
    reveal_strlit("Access-Control-Expose-Headers");
    let m = "Access-Control-Allow-Origin"@;
    let h0 = r.headers;
    let h1 = crate::headers::set_header(h0, "Access-Control-Allow-Origin"@, "*"@);
    let h2 = crate::headers::set_header(
        h1,
        "Access-Control-Allow-Methods"@,
        "GET, POST, PUT, DELETE, PATCH, OPTIONS, HEAD"@,
    );
    let h3 = crate::headers::set_header(h2, "Access-Control-Allow-Headers"@, "*"@);
    lemma_lookup_set(h0, "Access-Control-Allow-Origin"@, "*"@, m);
    lemma_lookup_set(
        h1,
        "Access-Control-Allow-Methods"@,
        "GET, POST, PUT, DELETE, PATCH, OPTIONS, HEAD"@,
        m,
    );
    lemma_lookup_set(h2, "Access-Control-Allow-Headers"@, "*"@, m);
    lemma_lookup_set(h3, "Access-Control-Expose-Headers"@, "*"@, m);
    assert(lower(m).len() == 27);
    assert(lower("Access-Control-Allow-Methods"@).len() == 28);
    assert(lower(m) != lower("Access-Control-Allow-Methods"@));
}

/// The preflight answer carries `Access-Control-Allow-Origin: *`, and
/// status 200 with the preflight lifetime header.
pub proof fn lemma_preflight_response_cors()
    ensures
        lookup(spec_preflight_response().headers, "Access-Control-Allow-Origin"@) == Some("*"@),
        lookup(spec_preflight_response().headers, "Access-Control-Max-Age"@) == Some("86400"@),
        spec_preflight_response().status == 200,
{
    lemma_cors_decoration(spec_preflight());
    reveal_strlit("Access-Control-Max-Age");
    reveal_strlit("Access-Control-Allow-Origin");
    reveal_strlit("Access-Control-Allow-Methods");
    reveal_strlit("Access-Control-Allow-Headers");
    reveal_strlit("Access-Control-Expose-Headers");
    let m = "Access-Control-Max-Age"@;
    let h0 = spec_preflight().headers;
    let h1 = crate::headers::set_header(h0, "Access-Control-Allow-Origin"@, "*"@);
    let h2 = crate::headers::set_header(
        h1,
        "Access-Control-Allow-Methods"@,
        "GET, POST, PUT, DELETE, PATCH, OPTIONS, HEAD"@,
    );
    let h3 = crate::headers::set_header(h2, "Access-Control-Allow-Headers"@, "*"@);
    lemma_lookup_set(h0, "Access-Control-Allow-Origin"@, "*"@, m);
    lemma_lookup_set(
        h1,
        "Access-Control-Allow-Methods"@,
        "GET, POST, PUT, DELETE, PATCH, OPTIONS, HEAD"@,
        m,
    );
    lemma_lookup_set(h2, "Access-Control-Allow-Headers"@, "*"@, m);
    lemma_lookup_set(h3, "Access-Control-Expose-Headers"@, "*"@, m);
    assert(lower(m).len() == 22);
    assert(lower("Access-Control-Allow-Origin"@).len() == 27);
    assert(lower("Access-Control-Allow-Methods"@).len() == 28);
    assert(lower("Access-Control-Allow-Headers"@).len() == 28);
    assert(lower("Access-Control-Expose-Headers"@).len() == 29);
    assert(lookup(h0, m) == Some("86400"@));
}

/// Every failure answer carries `Access-Control-Allow-Origin: *`, and
/// status 500.
pub proof fn lemma_failure_response_cors(e: ProxyErrorView)
    ensures
        lookup(spec_failure_response(e).headers, "Access-Control-Allow-Origin"@) == Some("*"@),
        spec_failure_response(e).status == 500,
{
    lemma_cors_decoration(spec_error_response(e));
}

/// Every successfully proxied answer carries
/// `Access-Control-Allow-Origin: *`, whatever the target sent.
pub proof fn lemma_success_response_cors(pr: HttpResponseView)
    ensures
        lookup(spec_success_response(pr).headers, "Access-Control-Allow-Origin"@) == Some("*"@),
{
    lemma_cors_decoration(crate::translate::spec_build_outbound(pr));
}

/// Every successfully proxied answer carries the full cache-suppression
/// value under `Cache-Control`; preflight and failure answers are not
/// given it here.
pub proof fn lemma_success_response_no_cache(pr: HttpResponseView)
    ensures
        lookup(spec_success_response(pr).headers, "Cache-Control"@) == Some(
            "no-store, no-cache, must-revalidate, proxy-revalidate"@,
        ),
{
    reveal_strlit("Cache-Control");
    reveal_strlit("Pragma");
    reveal_strlit("Expires");
    reveal_strlit("Access-Control-Allow-Origin");
    reveal_strlit("Access-Control-Allow-Methods");
    reveal_strlit("Access-Control-Allow-Headers");
    reveal_strlit("Access-Control-Expose-Headers");
    let m = "Cache-Control"@;
    let h0 = crate::headers::outbound_clean(pr.headers);
    let h1 = crate::headers::set_header(
        h0,
        "Cache-Control"@,
        "no-store, no-cache, must-revalidate, proxy-revalidate"@,
    );
    let h2 = crate::headers::set_header(h1, "Pragma"@, "no-cache"@);
    let h3 = crate::headers::set_header(h2, "Expires"@, "0"@);
    let h4 = crate::headers::set_header(h3, "Access-Control-Allow-Origin"@, "*"@);
    let h5 = crate::headers::set_header(
        h4,
        "Access-Control-Allow-Methods"@,
        "GET, POST, PUT, DELETE, PATCH, OPTIONS, HEAD"@,
    );
    let h6 = crate::headers::set_header(h5, "Access-Control-Allow-Headers"@, "*"@);
    lemma_lookup_set(
        h0,
        "Cache-Control"@,
        "no-store, no-cache, must-revalidate, proxy-revalidate"@,
        m,
    );
    lemma_lookup_set(h1, "Pragma"@, "no-cache"@, m);
    lemma_lookup_set(h2, "Expires"@, "0"@, m);
    lemma_lookup_set(h3, "Access-Control-Allow-Origin"@, "*"@, m);
    lemma_lookup_set(
        h4,
        "Access-Control-Allow-Methods"@,
        "GET, POST, PUT, DELETE, PATCH, OPTIONS, HEAD"@,
        m,
    );
    lemma_lookup_set(h5, "Access-Control-Allow-Headers"@, "*"@, m);
    lemma_lookup_set(h6, "Access-Control-Expose-Headers"@, "*"@, m);
    assert(lower(m).len() == 13);
    assert(lower("Pragma"@).len() == 6);
    assert(lower("Expires"@).len() == 7);
    assert(lower("Access-Control-Allow-Origin"@).len() == 27);
    assert(lower("Access-Control-Allow-Methods"@).len() == 28);
    assert(lower("Access-Control-Allow-Headers"@).len() == 28);
    assert(lower("Access-Control-Expose-Headers"@).len() == 29);
}

/// A hop-by-hop header present in the inbound request never appears in the
/// request built for the target.
pub proof fn lemma_hop_by_hop_never_forwarded(r: HttpRequestView, target: Seq<char>, n: Seq<char>)
    requires
        is_hop_by_hop(n),
    ensures
        lookup(spec_build_proxy_request(r, target).headers, n) is None,
{
    reveal_strlit("connection");
    reveal_strlit("keep-alive");
    reveal_strlit("proxy-authenticate");
    reveal_strlit("proxy-authorization");
    reveal_strlit("te");
    reveal_strlit("trailers");
    reveal_strlit("transfer-encoding");
    reveal_strlit("upgrade");
    reveal_strlit("User-Agent");
    reveal_strlit("Accept");
    let h0 = crate::headers::outbound_clean(r.headers);
    let h1 = crate::headers::set_header(h0, "User-Agent"@, "cors-proxy/1.0-spin"@);
    lemma_lookup_outbound_clean(r.headers, n);
    lemma_lookup_set(h0, "User-Agent"@, "cors-proxy/1.0-spin"@, n);
    lemma_lookup_set(h1, "Accept"@, "*/*"@, n);
    assert(lower("User-Agent"@).len() == 10);
    assert(lower("User-Agent"@)[0] == 'u');
    assert(lower("Accept"@).len() == 6);
    assert("connection"@.len() == 10 && "connection"@[0] == 'c');
    assert("keep-alive"@.len() == 10 && "keep-alive"@[0] == 'k');
    assert("proxy-authenticate"@.len() == 18);
    assert("proxy-authorization"@.len() == 19);
    assert("te"@.len() == 2);
    assert("trailers"@.len() == 8);
    assert("transfer-encoding"@.len() == 17);
    assert("upgrade"@.len() == 7);
    assert(lower(n) != lower("User-Agent"@));
    assert(lower(n) != lower("Accept"@));
}

/// A CORS header sent by the target, other than the four names the proxy
/// sets itself, never appears in the final response; and the final
/// response's `Access-Control-Allow-Origin` is the proxy's own `*`
/// whatever the target answered ([`lemma_success_response_cors`]).
pub proof fn lemma_target_cors_stripped(
    status: int,
    h: HeadersView,
    b: Seq<u8>,
    n: Seq<char>,
)
    requires
        is_cors_name(n),
        lower(n) != lower("Access-Control-Allow-Origin"@),
        lower(n) != lower("Access-Control-Allow-Methods"@),
        lower(n) != lower("Access-Control-Allow-Headers"@),
        lower(n) != lower("Access-Control-Expose-Headers"@),
    ensures
        lookup(spec_success_response(spec_build_proxy_response(status, h, b)).headers, n)
            is None,
{
    reveal_strlit("access-control-");
    reveal_strlit("vary");
    reveal_strlit("Cache-Control");
    reveal_strlit("Pragma");
    reveal_strlit("Expires");
    let cleaned = crate::headers::inbound_clean(h);
    let h0 = crate::headers::outbound_clean(cleaned);
    let h1 = crate::headers::set_header(
        h0,
        "Cache-Control"@,
        "no-store, no-cache, must-revalidate, proxy-revalidate"@,
    );
    let h2 = crate::headers::set_header(h1, "Pragma"@, "no-cache"@);
    let h3 = crate::headers::set_header(h2, "Expires"@, "0"@);
    let h4 = crate::headers::set_header(h3, "Access-Control-Allow-Origin"@, "*"@);
    let h5 = crate::headers::set_header(
        h4,
        "Access-Control-Allow-Methods"@,
        "GET, POST, PUT, DELETE, PATCH, OPTIONS, HEAD"@,
    );
    let h6 = crate::headers::set_header(h5, "Access-Control-Allow-Headers"@, "*"@);
    lemma_lookup_inbound_clean(h, n);
    lemma_lookup_outbound_clean(cleaned, n);
    lemma_lookup_set(
        h0,
        "Cache-Control"@,
        "no-store, no-cache, must-revalidate, proxy-revalidate"@,
        n,
    );
    lemma_lookup_set(h1, "Pragma"@, "no-cache"@, n);
    lemma_lookup_set(h2, "Expires"@, "0"@, n);
    lemma_lookup_set(h3, "Access-Control-Allow-Origin"@, "*"@, n);
    lemma_lookup_set(
        h4,
        "Access-Control-Allow-Methods"@,
        "GET, POST, PUT, DELETE, PATCH, OPTIONS, HEAD"@,
        n,
    );
    lemma_lookup_set(h5, "Access-Control-Allow-Headers"@, "*"@, n);
    lemma_lookup_set(h6, "Access-Control-Expose-Headers"@, "*"@, n);
    assert("access-control-"@.len() == 15);
    assert("vary"@.len() == 4);
    assert(lower("Cache-Control"@).len() == 13);
    assert(lower("Pragma"@).len() == 6);
    assert(lower("Expires"@).len() == 7);
    assert(lower(n) != lower("Cache-Control"@));
    assert(lower(n) != lower("Pragma"@));
    assert(lower(n) != lower("Expires"@));
}

/// A request that supplies no target at all — no `x-target-url` header and
/// no `url` query parameter — is rejected as `MissingTarget`, and its
/// answer is a status-500 response whose body text contains
/// `Missing target URL`.
pub proof fn lemma_missing_target_rejected(r: HttpRequestView)
    requires
        r.method != Method::OPTIONS,
        lookup(r.headers, "x-target-url"@) is None,
        match query_of(r.uri) {
            Some(q) => url_param_value(q) is None,
            None => true,
        },
    ensures
        spec_plan(r) == RequestPlanView::Reject(ProxyErrorView::MissingTarget),
        spec_failure_response(ProxyErrorView::MissingTarget).status == 500,
        spec_failure_response(ProxyErrorView::MissingTarget).body == encode_utf8(
            error_text(ProxyErrorView::MissingTarget),
        ),
        contains_seq(error_text(ProxyErrorView::MissingTarget), "Missing target URL"@),
{
    reveal_strlit("Proxy Error: ");
    reveal_strlit("Missing target URL in x-target-url header or url query param");
    reveal_strlit("Missing target URL");
    let t = error_text(ProxyErrorView::MissingTarget);
    let sub = "Missing target URL"@;
    assert(t.subrange(13, 13 + sub.len() as int) =~= sub);
}

/// A candidate URL that does not start with `http://` or `https://` is
/// rejected, from either source, and its answer is a status-500 response
/// whose body text states the scheme requirement.
pub proof fn lemma_invalid_scheme_rejected(r: HttpRequestView, u: Seq<char>)
    requires
        r.method != Method::OPTIONS,
        !starts_with(u, "http://"@),
        !starts_with(u, "https://"@),
        ({
            ||| lookup(r.headers, "x-target-url"@) == Some(u)
            ||| (lookup(r.headers, "x-target-url"@) is None && match query_of(r.uri) {
                Some(q) => url_param_value(q) matches Some(v) && percent_decoded(v) == Some(u),
                None => false,
            })
        }),
    ensures
        spec_validate(u) == Result::<Seq<char>, ProxyErrorView>::Err(
            ProxyErrorView::InvalidTarget { decode_failed: false },
        ),
        spec_plan(r) == RequestPlanView::Reject(
            ProxyErrorView::InvalidTarget { decode_failed: false },
        ),
        spec_failure_response(ProxyErrorView::InvalidTarget { decode_failed: false }).status
            == 500,
        contains_seq(
            error_text(ProxyErrorView::InvalidTarget { decode_failed: false }),
            "must start with http:// or https://"@,
        ),
{
    reveal_strlit("Proxy Error: ");
    reveal_strlit("Target URL must start with http:// or https://");
    reveal_strlit("must start with http:// or https://");
    let t = error_text(ProxyErrorView::InvalidTarget { decode_failed: false });
    let sub = "must start with http:// or https://"@;
    assert(t.subrange(24, 24 + sub.len() as int) =~= sub);
}

} // verus!
