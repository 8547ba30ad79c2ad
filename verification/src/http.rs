//! A plain model of the HTTP requests and responses the service handles.
//!
//! The surrounding binary translates between its transport's request type and
//! [`Request`], and from [`Response`] back; everything the service decides
//! about a request happens on these types, inside the library.

use vstd::prelude::*;

verus! {

/// The HTTP methods the service distinguishes. Every other method token is
/// carried as `Other`; the dispatcher treats it like any non-preflight method.
#[derive(Clone, Copy, PartialEq, Eq, Structural, Debug)]
pub enum Method {
    Get,
    Post,
    Put,
    Delete,
    Options,
    Other,
}

/// An inbound request, reduced to what the service reads: the method, the
/// path, and the two headers the cross-origin rules look at. The remaining
/// headers and the body are carried only so the contracts can say that they
/// are ignored.
pub struct Request {
    pub method: Method,
    pub path: String,
    /// The `Origin` header, when the request carries one.
    pub origin: Option<String>,
    /// The `Access-Control-Request-Method` header, when present.
    pub request_method: Option<String>,
    /// All other headers, as (name, value) pairs.
    pub headers: Vec<(String, String)>,
    pub body: Vec<u8>,
}

/// The mathematical image of a [`Request`].
pub struct ReqModel {
    pub method: Method,
    pub path: Seq<char>,
    pub origin: Option<Seq<char>>,
    pub request_method: Option<Seq<char>>,
    pub headers: Seq<(Seq<char>, Seq<char>)>,
    pub body: Seq<u8>,
}

impl View for Request {
    type V = ReqModel;

    open spec fn view(&self) -> ReqModel {
        ReqModel {
            method: self.method,
            path: self.path@,
            origin: self.origin.deep_view(),
            request_method: self.request_method.deep_view(),
            headers: self.headers.deep_view(),
            body: self.body@,
        }
    }
}

/// An outbound response: a status code, the headers the service sets, in
/// order, and the body.
pub struct Response {
    pub status: u16,
    pub headers: Vec<(String, String)>,
    pub body: String,
}

/// The mathematical image of a [`Response`].
pub struct RespModel {
    pub status: u16,
    pub headers: Seq<(Seq<char>, Seq<char>)>,
    pub body: Seq<char>,
}

impl View for Response {
    type V = RespModel;

    open spec fn view(&self) -> RespModel {
        RespModel { status: self.status, headers: self.headers.deep_view(), body: self.body@ }
    }
}

} // verus!
