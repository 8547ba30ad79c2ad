//! The health handler: a constant liveness document.

use vstd::prelude::*;

verus! {

/// The JSON document the health endpoint always returns.
pub open spec fn spec_health_body() -> Seq<char> {
    "{\"data\":{\"status\":\"alive\"}}"@
}

/// The fixed path the health resource is served under.
pub open spec fn spec_health_path() -> Seq<char> {
    "/admin-api/health"@
}

/// The body of every successful health response, exactly
/// `{"data":{"status":"alive"}}`.
pub fn health_body() -> (s: String)
    ensures
        s@ == spec_health_body(),
{
    "{\"data\":{\"status\":\"alive\"}}".to_owned()
}

/// Whether `path` names the health resource; the routing table has this one
/// entry and no other.
pub fn is_health_path(path: &String) -> (b: bool)
    ensures
        b == (path@ == spec_health_path()),
{
    let route: String = "/admin-api/health".to_owned();
    *path == route
}

} // verus!
