//! The dispatcher: the full request-to-response computation of the service.
//!
//! One route is registered — the health resource, on any method. A preflight
//! request is answered from the cross-origin policy without reaching the
//! handler; every other request is routed, and its response carries the
//! cross-origin annotation whenever the request named an origin.

use vstd::prelude::*;
use crate::cors;
use crate::health;
use crate::http::{Method, ReqModel, Request, RespModel, Response};

verus! {

/// A preflight: an `OPTIONS` request that names an origin and asks after a
/// method. It is answered by the policy alone; the handler never runs.
pub open spec fn spec_is_preflight(r: ReqModel) -> bool {
    &&& r.method == Method::Options
    &&& r.origin is Some
    &&& r.request_method is Some
}

/// The cross-origin annotation of an ordinary response: the request's origin
/// is echoed back when one was named, and nothing is added otherwise.
pub open spec fn spec_origin_echo(origin: Option<Seq<char>>) -> Seq<(Seq<char>, Seq<char>)> {
    match origin {
        Option::Some(o) => seq![("access-control-allow-origin"@, o)],
        Option::None => Seq::empty(),
    }
}

/// The headers of a preflight answer: the echoed origin, then the allowed
/// methods, the allowed headers, and the cache lifetime of the policy.
pub open spec fn spec_preflight_headers(origin: Seq<char>) -> Seq<(Seq<char>, Seq<char>)> {
    seq![
        ("access-control-allow-origin"@, origin),
        ("access-control-allow-methods"@, cors::spec_allow_methods_value()),
        ("access-control-allow-headers"@, cors::spec_allow_headers_value()),
        ("access-control-max-age"@, cors::spec_max_age_value()),
    ]
}

/// What the service answers to any request: a preflight is answered from the
/// policy with an empty body; a request for the health path gets the constant
/// liveness document; everything else gets the bare not-found response. Only
/// the method, the path and the two cross-origin headers are read.
pub open spec fn spec_dispatch(r: ReqModel) -> RespModel {
    if spec_is_preflight(r) {
        RespModel {
            status: 200,
            headers: spec_preflight_headers(r.origin.unwrap()),
            body: Seq::empty(),
        }
    } else if r.path == health::spec_health_path() {
        RespModel {
            status: 200,
            headers: spec_origin_echo(r.origin) + seq![("content-type"@, "application/json"@)],
            body: health::spec_health_body(),
        }
    } else {
        RespModel { status: 404, headers: spec_origin_echo(r.origin), body: Seq::empty() }
    }
}

/// Whether `req` is a preflight, as [`spec_is_preflight`] has it.
pub fn is_preflight(req: &Request) -> (b: bool)
    ensures
        b == spec_is_preflight(req@),
{
    req.method == Method::Options && req.origin.is_some() && req.request_method.is_some()
}

/// Answers `req` exactly as [`spec_dispatch`] describes. This is the whole
/// request path of the service: the policy check, the one-entry routing
/// table, and the handler.
pub fn dispatch(req: &Request) -> (r: Response)
    ensures
        r@ == spec_dispatch(req@),
{
    let mut headers: Vec<(String, String)> = Vec::new();
    if is_preflight(req) {
        let origin = match &req.origin {
            Option::Some(o) => o.clone(),
            Option::None => String::new(),  // unreachable on a preflight
        };
        headers.push(("access-control-allow-origin".to_owned(), origin));
        headers.push(("access-control-allow-methods".to_owned(), cors::allow_methods_value()));
        headers.push(("access-control-allow-headers".to_owned(), cors::allow_headers_value()));
        headers.push(("access-control-max-age".to_owned(), cors::max_age_value()));
        let r = Response { status: 200, headers, body: String::new() };
        proof {
            assert(r@.headers =~= spec_preflight_headers(req@.origin.unwrap()));
            assert(r@ =~= spec_dispatch(req@));
        }
        r
    } else {
        match &req.origin {
            Option::Some(o) => {
                headers.push(("access-control-allow-origin".to_owned(), o.clone()));
            },
            Option::None => {},
        }
        if health::is_health_path(&req.path) {
            headers.push(("content-type".to_owned(), "application/json".to_owned()));
            let r = Response { status: 200, headers, body: health::health_body() };
            proof {
                assert(r@.headers =~= spec_origin_echo(req@.origin) + seq![
                    ("content-type"@, "application/json"@),
                ]);
                assert(r@ =~= spec_dispatch(req@));
            }
            r
        } else {
            let r = Response { status: 404, headers, body: String::new() };
            proof {
                assert(r@.headers =~= spec_origin_echo(req@.origin));
                assert(r@ =~= spec_dispatch(req@));
            }
            r
        }
    }
}

/// Every request for the health path is answered with status 200, whatever
/// its method; and unless it is a preflight — which the policy answers with
/// an empty body before the handler is reached — the body is the liveness
/// document.
pub proof fn lemma_health_endpoint_ok(r: ReqModel)
    requires
        r.path == health::spec_health_path(),
        r.method == Method::Get || r.method == Method::Post || r.method == Method::Put
            || r.method == Method::Delete || r.method == Method::Options,
    ensures
        spec_dispatch(r).status == 200,
        !spec_is_preflight(r) ==> spec_dispatch(r).body == health::spec_health_body(),
{
}

/// The response is a function of the method, the path and the two
/// cross-origin headers alone: the body and the remaining headers of the
/// request never influence it.
pub proof fn lemma_dispatch_ignores_payload(a: ReqModel, b: ReqModel)
    requires
        a.method == b.method,
        a.path == b.path,
        a.origin == b.origin,
        a.request_method == b.request_method,
    ensures
        spec_dispatch(a) == spec_dispatch(b),
{
}

/// The handler is constant: two requests for the same path, alike in whether
/// they are preflights, get byte-for-byte the same response body, whatever
/// their methods, origins, headers and bodies.
pub proof fn lemma_handler_body_constant(a: ReqModel, b: ReqModel)
    requires
        a.path == b.path,
        spec_is_preflight(a) == spec_is_preflight(b),
    ensures
        spec_dispatch(a).body == spec_dispatch(b).body,
{
}

/// A preflight is answered with status 200, with exactly the headers that
/// publish the policy — the echoed origin, the allowed methods, the allowed
/// headers and the cache lifetime — and with an empty body: the handler's
/// document is never produced for it.
pub proof fn lemma_preflight_reflects_policy(r: ReqModel)
    requires
        spec_is_preflight(r),
    ensures
        spec_dispatch(r).status == 200,
        spec_dispatch(r).headers == spec_preflight_headers(r.origin.unwrap()),
        spec_dispatch(r).headers[1] == ("access-control-allow-methods"@,
            cors::spec_allow_methods_value()),
        spec_dispatch(r).headers[2] == ("access-control-allow-headers"@,
            cors::spec_allow_headers_value()),
        spec_dispatch(r).headers[3] == ("access-control-max-age"@, cors::spec_max_age_value()),
        spec_dispatch(r).body == Seq::<char>::empty(),
        spec_dispatch(r).body != health::spec_health_body(),
{
    reveal_strlit("{\"data\":{\"status\":\"alive\"}}");
    assert(health::spec_health_body().len() == 27);
}

} // verus!
