//! A stateless CORS forwarding proxy, verified with Verus.
//!
//! The library is the request-translation and header-sanitization core of the
//! proxy: it resolves the target URL from an inbound request, filters
//! hop-by-hop and CORS headers in both directions, answers preflight requests
//! directly, and decorates every response with permissive CORS headers. The
//! single outbound HTTP call is left to the hosting runtime, which feeds its
//! outcome back into the library.

pub mod headers;
pub mod laws;
pub mod proxy;
pub mod resolve;
pub mod strutil;
pub mod translate;
pub mod types;

pub use types::{HttpRequest, HttpResponse, Method, ProxyError, Uri};
