use cors_proxy::headers::{is_cors_header, is_hop_by_hop_header};
use cors_proxy::proxy::{failure_response, forward_response, plan_request, preflight_response, RequestPlan};
use cors_proxy::resolve::{extract_target_url, validate_url};
use cors_proxy::translate::{add_cors_headers, build_proxy_response};
use cors_proxy::{HttpRequest, HttpResponse, Method, ProxyError, Uri};

fn request(method: Method, uri: &str, headers: Vec<(&str, &str)>, body: &[u8]) -> HttpRequest {
    HttpRequest {
        method,
        uri: Uri::new(uri.to_string()),
        headers: headers
            .into_iter()
            .map(|(k, v)| (k.to_string(), v.to_string()))
            .collect(),
        body: body.to_vec(),
    }
}

fn header_value<'a>(headers: &'a [(String, String)], name: &str) -> Option<&'a str> {
    headers
        .iter()
        .find(|e| e.0.eq_ignore_ascii_case(name))
        .map(|e| e.1.as_str())
}

fn header_count(headers: &[(String, String)], name: &str) -> usize {
    headers.iter().filter(|e| e.0.eq_ignore_ascii_case(name)).count()
}

fn body_text(resp: &HttpResponse) -> String {
    String::from_utf8(resp.body.clone()).unwrap()
}

fn target_response(status: u16, headers: Vec<(&str, &str)>, body: &[u8]) -> HttpResponse {
    build_proxy_response(
        status,
        headers
            .into_iter()
            .map(|(k, v)| (k.to_string(), v.to_string()))
            .collect(),
        body.to_vec(),
    )
}

#[test]
fn missing_target_gives_500_with_message() {
    let req = request(Method::GET, "/proxy?foo=bar", vec![], b"");
    let plan = plan_request(req);
    let e = match plan {
        RequestPlan::Reject(e) => e,
        _ => panic!("expected a rejection"),
    };
    assert!(matches!(e, ProxyError::MissingTarget));
    let resp = failure_response(&e);
    assert_eq!(resp.status, 500);
    assert!(body_text(&resp).contains("Missing target URL"));
}

#[test]
fn missing_target_without_query_string() {
    let req = request(Method::GET, "/proxy", vec![], b"");
    let plan = plan_request(req);
    assert!(matches!(plan, RequestPlan::Reject(ProxyError::MissingTarget)));
}

#[test]
fn bad_scheme_gives_500_with_scheme_message() {
    let req = request(Method::GET, "/proxy", vec![("x-target-url", "ftp://example.com")], b"");
    let plan = plan_request(req);
    let e = match plan {
        RequestPlan::Reject(e) => e,
        _ => panic!("expected a rejection"),
    };
    assert!(matches!(e, ProxyError::InvalidTarget { decode_failed: false }));
    let resp = failure_response(&e);
    assert_eq!(resp.status, 500);
    assert!(body_text(&resp).contains("must start with http:// or https://"));
}

#[test]
fn validate_url_accepts_both_schemes() {
    assert_eq!(validate_url("http://a".to_string()).unwrap(), "http://a");
    assert_eq!(validate_url("https://a".to_string()).unwrap(), "https://a");
    assert!(validate_url("htp://a".to_string()).is_err());
    assert!(validate_url("HTTPS://a".to_string()).is_err());
    assert!(validate_url("".to_string()).is_err());
}

#[test]
fn cors_header_present_on_every_path() {
    let pre = preflight_response();
    assert_eq!(header_value(&pre.headers, "access-control-allow-origin"), Some("*"));

    let fail = failure_response(&ProxyError::MissingTarget);
    assert_eq!(header_value(&fail.headers, "access-control-allow-origin"), Some("*"));

    let ok = forward_response(Ok(target_response(200, vec![], b"ok")));
    assert_eq!(header_value(&ok.headers, "access-control-allow-origin"), Some("*"));

    let err = forward_response(Err("boom".to_string()));
    assert_eq!(header_value(&err.headers, "access-control-allow-origin"), Some("*"));
}

#[test]
fn no_cache_only_on_success() {
    let no_cache = "no-store, no-cache, must-revalidate, proxy-revalidate";
    let ok = forward_response(Ok(target_response(200, vec![], b"ok")));
    assert_eq!(header_value(&ok.headers, "cache-control"), Some(no_cache));
    assert_eq!(header_value(&ok.headers, "pragma"), Some("no-cache"));
    assert_eq!(header_value(&ok.headers, "expires"), Some("0"));

    let pre = preflight_response();
    assert_eq!(header_value(&pre.headers, "cache-control"), None);

    let fail = failure_response(&ProxyError::MissingTarget);
    assert_eq!(header_value(&fail.headers, "cache-control"), None);
}

#[test]
fn hop_by_hop_headers_never_forwarded() {
    let req = request(
        Method::GET,
        "/proxy",
        vec![
            ("x-target-url", "https://example.com/data"),
            ("Connection", "keep-alive"),
            ("Transfer-Encoding", "chunked"),
            ("Upgrade", "h2c"),
            ("X-Custom", "kept"),
        ],
        b"",
    );
    let pr = match plan_request(req) {
        RequestPlan::Forward(pr) => pr,
        _ => panic!("expected a forward plan"),
    };
    assert_eq!(header_value(&pr.headers, "connection"), None);
    assert_eq!(header_value(&pr.headers, "transfer-encoding"), None);
    assert_eq!(header_value(&pr.headers, "upgrade"), None);
    assert_eq!(header_value(&pr.headers, "x-custom"), Some("kept"));
}

#[test]
fn user_agent_and_accept_are_pinned() {
    let req = request(
        Method::GET,
        "/proxy",
        vec![
            ("x-target-url", "https://example.com/"),
            ("User-Agent", "caller/9.9"),
            ("Accept", "text/html"),
        ],
        b"",
    );
    let pr = match plan_request(req) {
        RequestPlan::Forward(pr) => pr,
        _ => panic!("expected a forward plan"),
    };
    assert_eq!(header_value(&pr.headers, "user-agent"), Some("cors-proxy/1.0-spin"));
    assert_eq!(header_value(&pr.headers, "accept"), Some("*/*"));
    assert_eq!(header_count(&pr.headers, "user-agent"), 1);
    assert_eq!(header_count(&pr.headers, "accept"), 1);
}

#[test]
fn target_cors_headers_are_replaced() {
    let target = target_response(
        200,
        vec![
            ("Access-Control-Allow-Origin", "https://evil.example"),
            ("Access-Control-Expose-Headers", "X-Secret"),
            ("Vary", "Origin"),
            ("Content-Type", "text/plain"),
        ],
        b"hello",
    );
    assert_eq!(header_value(&target.headers, "access-control-allow-origin"), None);
    assert_eq!(header_value(&target.headers, "vary"), None);

    let resp = forward_response(Ok(target));
    assert_eq!(header_value(&resp.headers, "access-control-allow-origin"), Some("*"));
    assert_eq!(header_count(&resp.headers, "access-control-allow-origin"), 1);
    assert_eq!(header_value(&resp.headers, "access-control-expose-headers"), Some("*"));
    assert_eq!(header_value(&resp.headers, "vary"), None);
    assert_eq!(header_value(&resp.headers, "content-type"), Some("text/plain"));
}

#[test]
fn preflight_scenario() {
    let req = request(Method::OPTIONS, "/anything", vec![], b"");
    assert!(matches!(plan_request(req), RequestPlan::Preflight));
    let resp = preflight_response();
    assert_eq!(resp.status, 200);
    assert_eq!(header_value(&resp.headers, "access-control-max-age"), Some("86400"));
    assert_eq!(header_value(&resp.headers, "access-control-allow-origin"), Some("*"));
}

#[test]
fn successful_get_scenario() {
    let req = request(Method::GET, "/proxy", vec![("x-target-url", "https://example.com/data")], b"");
    let pr = match plan_request(req) {
        RequestPlan::Forward(pr) => pr,
        _ => panic!("expected a forward plan"),
    };
    assert!(matches!(pr.method, Method::GET));
    assert_eq!(pr.uri.to_string(), "https://example.com/data");

    let target = target_response(200, vec![("Content-Type", "application/json")], b"{\"a\":1}");
    let resp = forward_response(Ok(target));
    assert_eq!(resp.status, 200);
    assert_eq!(resp.body, b"{\"a\":1}".to_vec());
    assert_eq!(header_value(&resp.headers, "content-type"), Some("application/json"));
    assert_eq!(header_value(&resp.headers, "access-control-allow-origin"), Some("*"));
    assert_eq!(
        header_value(&resp.headers, "cache-control"),
        Some("no-store, no-cache, must-revalidate, proxy-revalidate"),
    );
}

#[test]
fn query_parameter_is_percent_decoded() {
    let req = request(Method::GET, "/proxy?url=https%3A%2F%2Fexample.com%2Fx", vec![], b"");
    let target = extract_target_url(&req).unwrap();
    assert_eq!(target, "https://example.com/x");
}

#[test]
fn query_parameter_after_other_parameters() {
    let req = request(Method::GET, "/p?a=b&c&url=http%3A%2F%2Fone&url=http%3A%2F%2Ftwo", vec![], b"");
    let target = extract_target_url(&req).unwrap();
    assert_eq!(target, "http://one");
}

#[test]
fn query_stops_at_second_question_mark() {
    let req = request(Method::GET, "/p?url=https%3A%2F%2Fa?url=https%3A%2F%2Fb", vec![], b"");
    let target = extract_target_url(&req).unwrap();
    assert_eq!(target, "https://a");
}

#[test]
fn header_wins_over_query_parameter() {
    let req = request(
        Method::GET,
        "/p?url=https%3A%2F%2Ffrom-query",
        vec![("X-Target-URL", "https://from-header")],
        b"",
    );
    let target = extract_target_url(&req).unwrap();
    assert_eq!(target, "https://from-header");
}

#[test]
fn bad_header_does_not_fall_back_to_query() {
    let req = request(
        Method::GET,
        "/p?url=https%3A%2F%2Fgood",
        vec![("x-target-url", "not-a-url")],
        b"",
    );
    assert!(matches!(
        extract_target_url(&req),
        Err(ProxyError::InvalidTarget { decode_failed: false })
    ));
}

#[test]
fn undecodable_query_parameter_is_invalid() {
    let req = request(Method::GET, "/p?url=http%FF", vec![], b"");
    let e = match extract_target_url(&req) {
        Err(e) => e,
        Ok(t) => panic!("expected a decode failure, got {}", t),
    };
    assert!(matches!(e, ProxyError::InvalidTarget { decode_failed: true }));
    let resp = failure_response(&e);
    assert_eq!(resp.status, 500);
    assert!(body_text(&resp).contains("Failed to decode URL"));
}

#[test]
fn transport_failure_gives_500_proxy_error() {
    let resp = forward_response(Err("connection refused".to_string()));
    assert_eq!(resp.status, 500);
    assert!(body_text(&resp).starts_with("Proxy Error: "));
    assert!(body_text(&resp).contains("connection refused"));
}

#[test]
fn unsupported_methods_fall_back_to_get() {
    for m in [Method::PUT, Method::DELETE, Method::PATCH, Method::HEAD] {
        let req = request(m, "/p", vec![("x-target-url", "https://example.com/")], b"");
        let pr = match plan_request(req) {
            RequestPlan::Forward(pr) => pr,
            _ => panic!("expected a forward plan"),
        };
        assert!(matches!(pr.method, Method::GET));
    }
    let req = request(Method::POST, "/p", vec![("x-target-url", "https://example.com/")], b"x");
    let pr = match plan_request(req) {
        RequestPlan::Forward(pr) => pr,
        _ => panic!("expected a forward plan"),
    };
    assert!(matches!(pr.method, Method::POST));
    assert_eq!(pr.body, b"x".to_vec());
}

#[test]
fn decoration_overwrites_existing_entries() {
    let resp = HttpResponse {
        status: 204,
        headers: vec![("access-control-allow-origin".to_string(), "https://old.example".to_string())],
        body: vec![],
    };
    let decorated = add_cors_headers(resp);
    assert_eq!(decorated.status, 204);
    assert_eq!(header_count(&decorated.headers, "access-control-allow-origin"), 1);
    assert_eq!(header_value(&decorated.headers, "access-control-allow-origin"), Some("*"));
    assert_eq!(
        header_value(&decorated.headers, "access-control-allow-methods"),
        Some("GET, POST, PUT, DELETE, PATCH, OPTIONS, HEAD"),
    );
    assert_eq!(header_value(&decorated.headers, "access-control-allow-headers"), Some("*"));
}

#[test]
fn hop_by_hop_stripped_from_target_response() {
    let target = target_response(
        200,
        vec![("Connection", "close"), ("Keep-Alive", "timeout=5"), ("Content-Length", "2")],
        b"ok",
    );
    let resp = forward_response(Ok(target));
    assert_eq!(header_value(&resp.headers, "connection"), None);
    assert_eq!(header_value(&resp.headers, "keep-alive"), None);
    assert_eq!(header_value(&resp.headers, "content-length"), Some("2"));
}

#[test]
fn uri_round_trip() {
    let u = Uri::new("https://example.com/a?b=c".to_string());
    assert_eq!(u.to_string(), "https://example.com/a?b=c");
}

#[test]
fn header_name_classification() {
    for n in [
        "connection", "Connection", "KEEP-ALIVE", "proxy-authenticate",
        "Proxy-Authorization", "TE", "trailers", "Transfer-Encoding", "upgrade",
    ] {
        assert!(is_hop_by_hop_header(n), "{} should be hop-by-hop", n);
    }
    assert!(!is_hop_by_hop_header("content-type"));
    assert!(!is_hop_by_hop_header("te-extra"));

    assert!(is_cors_header("Access-Control-Allow-Origin"));
    assert!(is_cors_header("access-control-anything"));
    assert!(is_cors_header("Vary"));
    assert!(!is_cors_header("access-control"));
    assert!(!is_cors_header("x-vary"));
}
