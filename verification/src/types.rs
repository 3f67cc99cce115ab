//! The proxy's data model: methods, URIs, request and response records, and
//! the error taxonomy, each with its mathematical view.

use vstd::prelude::*;
use crate::headers::HeadersView;

verus! {

/// An HTTP method as seen by the proxy. Inbound requests may carry any of
/// these; requests forwarded to the target only ever use `GET` or `POST`.
#[derive(Clone, Copy, Debug, PartialEq, Eq, Structural)]
pub enum Method {
    GET,
    POST,
    OPTIONS,
    PUT,
    DELETE,
    PATCH,
    HEAD,
}

/// A request URI, kept as the full string it was received or built with,
/// query string included.
#[derive(Clone, Debug)]
pub struct Uri {
    full_url: String,
}

impl View for Uri {
    type V = Seq<char>;

    closed spec fn view(&self) -> Seq<char> {
        self.full_url@
    }
}

impl Uri {
    pub fn new(url: String) -> (r: Self)
        ensures
            r@ == url@,
    {
        Self { full_url: url }
    }

    pub fn to_string(&self) -> (r: String)
        ensures
            r@ == self@,
    {
        self.full_url.clone()
    }
}

/// The mathematical image of an [`HttpRequest`].
pub struct HttpRequestView {
    pub method: Method,
    pub uri: Seq<char>,
    pub headers: HeadersView,
    pub body: Seq<u8>,
}

/// An HTTP request: the inbound request handed to the proxy, and equally the
/// protocol-neutral request the proxy builds for the transport.
#[derive(Clone, Debug)]
pub struct HttpRequest {
    pub method: Method,
    pub uri: Uri,
    pub headers: Vec<(String, String)>,
    pub body: Vec<u8>,
}

impl View for HttpRequest {
    type V = HttpRequestView;

    open spec fn view(&self) -> HttpRequestView {
        HttpRequestView {
            method: self.method,
            uri: self.uri@,
            headers: self.headers.deep_view(),
            body: self.body@,
        }
    }
}

/// The mathematical image of an [`HttpResponse`].
pub struct HttpResponseView {
    pub status: int,
    pub headers: HeadersView,
    pub body: Seq<u8>,
}

/// An HTTP response: the target's response on the way in, and equally the
/// response the proxy finally hands back to its caller.
#[derive(Clone, Debug)]
pub struct HttpResponse {
    pub status: u16,
    pub headers: Vec<(String, String)>,
    pub body: Vec<u8>,
}

impl View for HttpResponse {
    type V = HttpResponseView;

    open spec fn view(&self) -> HttpResponseView {
        HttpResponseView {
            status: self.status as int,
            headers: self.headers.deep_view(),
            body: self.body@,
        }
    }
}

/// The mathematical image of a [`ProxyError`].
pub enum ProxyErrorView {
    MissingTarget,
    InvalidTarget { decode_failed: bool },
    TransportFailure(Seq<char>),
}

/// Why a proxy attempt failed. Every kind becomes a status-500 response
/// whose body carries the error's message.
#[derive(Clone, Debug)]
pub enum ProxyError {
    /// Neither the `x-target-url` header nor a `url` query parameter
    /// supplied a target.
    MissingTarget,
    /// A candidate target was supplied but refused: its scheme prefix was
    /// wrong, or percent-decoding of the query parameter failed.
    InvalidTarget { decode_failed: bool },
    /// The outbound call itself failed; the message is the transport's own.
    TransportFailure(String),
}

impl View for ProxyError {
    type V = ProxyErrorView;

    open spec fn view(&self) -> ProxyErrorView {
        match self {
            ProxyError::MissingTarget => ProxyErrorView::MissingTarget,
            ProxyError::InvalidTarget { decode_failed } => ProxyErrorView::InvalidTarget {
                decode_failed: *decode_failed,
            },
            ProxyError::TransportFailure(m) => ProxyErrorView::TransportFailure(m@),
        }
    }
}

} // verus!
