//! The proxy orchestrator, split around its single outbound call.
//!
//! [`plan_request`] runs the whole pre-transport phase: preflight detection,
//! target resolution, and outbound-request construction. The hosting runtime
//! performs the one outbound call for a `Forward` plan and feeds the outcome
//! to [`forward_response`]; the other two plans are answered directly by
//! [`preflight_response`] and [`failure_response`]. Every path ends in the
//! CORS decoration.

use vstd::prelude::*;
use crate::resolve::{extract_target_url, spec_resolve};
use crate::translate::{
    add_cors_headers, build_outbound_response, build_proxy_request, error_response,
    handle_preflight, spec_add_cors, spec_build_outbound, spec_build_proxy_request,
    spec_error_response, spec_preflight,
};
use crate::types::{
    HttpRequest, HttpRequestView, HttpResponse, HttpResponseView, Method, ProxyError,
    ProxyErrorView,
};

verus! {

/// The mathematical image of a [`RequestPlan`].
pub enum RequestPlanView {
    Preflight,
    Forward(HttpRequestView),
    Reject(ProxyErrorView),
}

/// What the proxy decides to do with an inbound request before any outbound
/// call is made.
#[derive(Debug)]
pub enum RequestPlan {
    /// The request is a CORS preflight; answer it directly.
    Preflight,
    /// Forward the carried request to the target.
    Forward(HttpRequest),
    /// Resolution failed; answer with the carried error.
    Reject(ProxyError),
}

impl View for RequestPlan {
    type V = RequestPlanView;

    open spec fn view(&self) -> RequestPlanView {
        match self {
            RequestPlan::Preflight => RequestPlanView::Preflight,
            RequestPlan::Forward(r) => RequestPlanView::Forward(r@),
            RequestPlan::Reject(e) => RequestPlanView::Reject(e@),
        }
    }
}

/// The pre-transport decision: `OPTIONS` short-circuits to a preflight
/// answer; otherwise the target is resolved and the outbound request built,
/// or the resolution error reported.
pub open spec fn spec_plan(r: HttpRequestView) -> RequestPlanView {
    if r.method == Method::OPTIONS {
        RequestPlanView::Preflight
    } else {
        match spec_resolve(r) {
            Ok(u) => RequestPlanView::Forward(spec_build_proxy_request(r, u)),
            Err(e) => RequestPlanView::Reject(e),
        }
    }
}

/// The decorated preflight answer.
pub open spec fn spec_preflight_response() -> HttpResponseView {
    spec_add_cors(spec_preflight())
}

/// The decorated error response for a failure.
pub open spec fn spec_failure_response(e: ProxyErrorView) -> HttpResponseView {
    spec_add_cors(spec_error_response(e))
}

/// The decorated response for a successfully proxied response.
pub open spec fn spec_success_response(pr: HttpResponseView) -> HttpResponseView {
    spec_add_cors(spec_build_outbound(pr))
}

/// Decides what to do with an inbound request.
pub fn plan_request(req: HttpRequest) -> (r: RequestPlan)
    ensures
        r@ == spec_plan(req@),
{
    match req.method {
        Method::OPTIONS => RequestPlan::Preflight,
        _ => match extract_target_url(&req) {
            Ok(target) => RequestPlan::Forward(build_proxy_request(req, target)),
            Err(e) => RequestPlan::Reject(e),
        },
    }
}

/// Answers a preflight request: status 200, preflight lifetime header, CORS
/// decoration.
pub fn preflight_response() -> (r: HttpResponse)
    ensures
        r@ == spec_preflight_response(),
{
    add_cors_headers(handle_preflight())
}

/// Answers a failed proxy attempt: status 500, the error text as body, CORS
/// decoration but no cache suppression.
pub fn failure_response(e: &ProxyError) -> (r: HttpResponse)
    ensures
        r@ == spec_failure_response(e@),
{
    add_cors_headers(error_response(e))
}

/// Answers a forwarded request from the transport's outcome: a response is
/// translated back, given cache suppression and CORS decoration; a
/// transport error becomes a decorated error response carrying its message.
pub fn forward_response(outcome: Result<HttpResponse, String>) -> (r: HttpResponse)
    ensures
        match outcome {
            Ok(pr) => r@ == spec_success_response(pr@),
            Err(m) => r@ == spec_failure_response(ProxyErrorView::TransportFailure(m@)),
        },
{
    match outcome {
        Ok(pr) => add_cors_headers(build_outbound_response(pr)),
        Err(m) => add_cors_headers(error_response(&ProxyError::TransportFailure(m))),
    }
}

} // verus!
