//! Request/response translation and response decoration.
//!
//! Building the outbound request filters hop-by-hop headers and pins
//! `User-Agent` and `Accept`; translating the target's response back strips
//! the target's CORS assertions and hop-by-hop headers, then attaches
//! cache-suppression headers; and every response the proxy emits is
//! decorated with permissive CORS headers.

use vstd::prelude::*;
use vstd::string::*;
use vstd::utf8::encode_utf8;
use crate::headers::{
    HeadersView, inbound_clean, outbound_clean, set_header, filter_inbound, filter_outbound,
    put_header,
};
use crate::types::{
    HttpRequest, HttpRequestView, HttpResponse, HttpResponseView, Method, ProxyError,
    ProxyErrorView, Uri,
};

verus! {

/// The method used toward the target: `GET` and `POST` pass through, every
/// other method falls back to `GET`.
pub open spec fn outbound_method(m: Method) -> Method {
    match m {
        Method::POST => Method::POST,
        _ => Method::GET,
    }
}

/// The headers of the request forwarded to the target: the inbound headers
/// without hop-by-hop entries, with `User-Agent` and `Accept` pinned to the
/// proxy's own values.
pub open spec fn spec_outbound_headers(h: HeadersView) -> HeadersView {
    set_header(
        set_header(outbound_clean(h), "User-Agent"@, "cors-proxy/1.0-spin"@),
        "Accept"@,
        "*/*"@,
    )
}

/// The whole request forwarded to the target, given the inbound request and
/// the resolved target URL.
pub open spec fn spec_build_proxy_request(r: HttpRequestView, target: Seq<char>) -> HttpRequestView {
    HttpRequestView {
        method: outbound_method(r.method),
        uri: target,
        headers: spec_outbound_headers(r.headers),
        body: r.body,
    }
}

/// The target's response translated toward the caller: status and body
/// verbatim, headers through the inbound filter.
pub open spec fn spec_build_proxy_response(
    status: int,
    headers: HeadersView,
    body: Seq<u8>,
) -> HttpResponseView {
    HttpResponseView { status, headers: inbound_clean(headers), body }
}

/// The cache-suppression decoration.
pub open spec fn spec_no_cache(h: HeadersView) -> HeadersView {
    set_header(
        set_header(
            set_header(h, "Cache-Control"@, "no-store, no-cache, must-revalidate, proxy-revalidate"@),
            "Pragma"@,
            "no-cache"@,
        ),
        "Expires"@,
        "0"@,
    )
}

/// The final translation of a successful proxied response: hop-by-hop
/// headers filtered once more, then cache suppression attached.
pub open spec fn spec_build_outbound(r: HttpResponseView) -> HttpResponseView {
    HttpResponseView {
        status: r.status,
        headers: spec_no_cache(outbound_clean(r.headers)),
        body: r.body,
    }
}

/// The CORS decoration, applied to every response the proxy emits.
pub open spec fn spec_cors(h: HeadersView) -> HeadersView {
    set_header(
        set_header(
            set_header(
                set_header(h, "Access-Control-Allow-Origin"@, "*"@),
                "Access-Control-Allow-Methods"@,
                "GET, POST, PUT, DELETE, PATCH, OPTIONS, HEAD"@,
            ),
            "Access-Control-Allow-Headers"@,
            "*"@,
        ),
        "Access-Control-Expose-Headers"@,
        "*"@,
    )
}

/// A response after CORS decoration.
pub open spec fn spec_add_cors(r: HttpResponseView) -> HttpResponseView {
    HttpResponseView { status: r.status, headers: spec_cors(r.headers), body: r.body }
}

/// The undecorated preflight answer: status 200 with the preflight
/// lifetime header, empty body.
pub open spec fn spec_preflight() -> HttpResponseView {
    HttpResponseView {
        status: 200,
        headers: seq![("Access-Control-Max-Age"@, "86400"@)],
        body: Seq::empty(),
    }
}

/// The message text of an error.
pub open spec fn message_of(e: ProxyErrorView) -> Seq<char> {
    match e {
        ProxyErrorView::MissingTarget => "Missing target URL in x-target-url header or url query param"@,
        ProxyErrorView::InvalidTarget { decode_failed } => if decode_failed {
            "Failed to decode URL"@
        } else {
            "Target URL must start with http:// or https://"@
        },
        ProxyErrorView::TransportFailure(m) => m,
    }
}

/// The body text of an error response.
pub open spec fn error_text(e: ProxyErrorView) -> Seq<char> {
    "Proxy Error: "@ + message_of(e)
}

/// The undecorated error response: status 500, no headers, the error text
/// as the body.
pub open spec fn spec_error_response(e: ProxyErrorView) -> HttpResponseView {
    HttpResponseView { status: 500, headers: Seq::empty(), body: encode_utf8(error_text(e)) }
}

/// Builds the request forwarded to the target.
pub fn build_proxy_request(req: HttpRequest, target: String) -> (r: HttpRequest)
    ensures
        r@ == spec_build_proxy_request(req@, target@),
{
    let method = match req.method {
        Method::POST => Method::POST,
        _ => Method::GET,
    };
    let mut headers = filter_outbound(&req.headers);
    put_header(&mut headers, "User-Agent", "cors-proxy/1.0-spin");
    put_header(&mut headers, "Accept", "*/*");
    HttpRequest { method, uri: Uri::new(target), headers, body: req.body }
}

/// Translates the target's raw response into the proxy's own record,
/// stripping the target's CORS assertions and hop-by-hop headers.
pub fn build_proxy_response(status: u16, headers: Vec<(String, String)>, body: Vec<u8>) -> (r:
    HttpResponse)
    ensures
        r@ == spec_build_proxy_response(status as int, headers.deep_view(), body@),
{
    HttpResponse { status, headers: filter_inbound(&headers), body }
}

/// Attaches the cache-suppression headers.
pub fn add_no_cache_headers(resp: HttpResponse) -> (r: HttpResponse)
    ensures
        r@.status == resp@.status,
        r@.headers == spec_no_cache(resp@.headers),
        r@.body == resp@.body,
{
    let mut headers = resp.headers;
    put_header(&mut headers, "Cache-Control", "no-store, no-cache, must-revalidate, proxy-revalidate");
    put_header(&mut headers, "Pragma", "no-cache");
    put_header(&mut headers, "Expires", "0");
    HttpResponse { status: resp.status, headers, body: resp.body }
}

/// Finishes a successful proxied response: one more hop-by-hop filter, then
/// cache suppression.
pub fn build_outbound_response(resp: HttpResponse) -> (r: HttpResponse)
    ensures
        r@ == spec_build_outbound(resp@),
{
    let headers = filter_outbound(&resp.headers);
    add_no_cache_headers(HttpResponse { status: resp.status, headers, body: resp.body })
}

/// Attaches the permissive CORS headers; applied to every response path.
pub fn add_cors_headers(resp: HttpResponse) -> (r: HttpResponse)
    ensures
        r@ == spec_add_cors(resp@),
{
    let mut headers = resp.headers;
    put_header(&mut headers, "Access-Control-Allow-Origin", "*");
    put_header(&mut headers, "Access-Control-Allow-Methods", "GET, POST, PUT, DELETE, PATCH, OPTIONS, HEAD");
    put_header(&mut headers, "Access-Control-Allow-Headers", "*");
    put_header(&mut headers, "Access-Control-Expose-Headers", "*");
    HttpResponse { status: resp.status, headers, body: resp.body }
}

/// The undecorated answer to a CORS preflight request.
pub fn handle_preflight() -> (r: HttpResponse)
    ensures
        r@ == spec_preflight(),
{
    let mut headers: Vec<(String, String)> = Vec::new();
    headers.push(("Access-Control-Max-Age".to_owned(), "86400".to_owned()));
    let body: Vec<u8> = Vec::new();
    proof {
        assert(headers.deep_view() =~= spec_preflight().headers);
        assert(body@ =~= Seq::<u8>::empty());
    }
    HttpResponse { status: 200, headers, body }
}

/// The message text of an error, for the error-response body.
pub fn error_message(e: &ProxyError) -> (r: String)
    ensures
        r@ == message_of(e@),
{
    match e {
        ProxyError::MissingTarget => "Missing target URL in x-target-url header or url query param".to_owned(),
        ProxyError::InvalidTarget { decode_failed } => if *decode_failed {
            "Failed to decode URL".to_owned()
        } else {
            "Target URL must start with http:// or https://".to_owned()
        },
        ProxyError::TransportFailure(m) => m.clone(),
    }
}

/// The undecorated error response for a failed proxy attempt.
pub fn error_response(e: &ProxyError) -> (r: HttpResponse)
    ensures
        r@ == spec_error_response(e@),
{
    let msg = error_message(e);
    let body_str = String::from_str("Proxy Error: ").concat(msg.as_str());
    let body = body_str.as_str().as_bytes_vec();
    let headers: Vec<(String, String)> = Vec::new();
    proof {
        assert(headers.deep_view() =~= Seq::<(Seq<char>, Seq<char>)>::empty());
    }
    HttpResponse { status: 500, headers, body }
}

} // verus!
