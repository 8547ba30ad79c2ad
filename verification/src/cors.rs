//! The cross-origin policy: a fixed record of what cross-origin requests are
//! allowed, and the header values that publish it.
//!
//! Origins are unconditionally accepted, so the policy is satisfiable for
//! every request; it only decides which headers a response carries.

use vstd::prelude::*;
use crate::http::Method;

verus! {

/// The policy record: which methods and request headers a cross-origin
/// request may use, and for how many seconds a preflight answer may be
/// cached. All origins are allowed, so no origin list is kept.
pub struct CorsPolicy {
    pub allowed_methods: Vec<Method>,
    pub allowed_headers: Vec<String>,
    pub max_age_secs: u32,
}

/// The mathematical image of a [`CorsPolicy`].
pub struct CorsPolicyModel {
    pub allowed_methods: Seq<Method>,
    pub allowed_headers: Seq<Seq<char>>,
    pub max_age_secs: u32,
}

impl View for CorsPolicy {
    type V = CorsPolicyModel;

    open spec fn view(&self) -> CorsPolicyModel {
        CorsPolicyModel {
            allowed_methods: self.allowed_methods@,
            allowed_headers: self.allowed_headers.deep_view(),
            max_age_secs: self.max_age_secs,
        }
    }
}

/// The policy the service runs with: every origin; the five listed methods;
/// the `authorization`, `accept` and `content-type` headers; preflight
/// answers cacheable for one hour.
pub open spec fn spec_admin_policy() -> CorsPolicyModel {
    CorsPolicyModel {
        allowed_methods: seq![
            Method::Get,
            Method::Post,
            Method::Put,
            Method::Delete,
            Method::Options,
        ],
        allowed_headers: seq!["authorization"@, "accept"@, "content-type"@],
        max_age_secs: 3600,
    }
}

/// Builds the fixed policy of [`spec_admin_policy`].
pub fn admin_cors_policy() -> (p: CorsPolicy)
    ensures
        p@ == spec_admin_policy(),
{
    let allowed_methods: Vec<Method> = vec![
        Method::Get,
        Method::Post,
        Method::Put,
        Method::Delete,
        Method::Options,
    ];
    let allowed_headers: Vec<String> = vec![
        "authorization".to_owned(),
        "accept".to_owned(),
        "content-type".to_owned(),
    ];
    let p = CorsPolicy { allowed_methods, allowed_headers, max_age_secs: 3600 };
    proof {
        assert(p@.allowed_methods =~= spec_admin_policy().allowed_methods);
        assert(p@.allowed_headers =~= spec_admin_policy().allowed_headers);
        assert(p@ =~= spec_admin_policy());
    }
    p
}

/// Whether the policy allows method `m` on a cross-origin request.
pub fn method_allowed(p: &CorsPolicy, m: Method) -> (b: bool)
    ensures
        b == p@.allowed_methods.contains(m),
{
    let mut i: usize = 0;
    while i < p.allowed_methods.len()
        invariant
            i <= p.allowed_methods.len(),
            forall|j: int| 0 <= j < i ==> p@.allowed_methods[j] != m,
        decreases p.allowed_methods.len() - i,
    {
        if p.allowed_methods[i] == m {
            return true;
        }
        i += 1;
    }
    false
}

/// Every method the health endpoint serves is allowed by the running policy.
pub proof fn lemma_admin_policy_allows_endpoint_methods(m: Method)
    requires
        m == Method::Get || m == Method::Post || m == Method::Put || m == Method::Delete
            || m == Method::Options,
    ensures
        spec_admin_policy().allowed_methods.contains(m),
{
    let ms = spec_admin_policy().allowed_methods;
    if m == Method::Get {
        assert(ms[0] == m);
    } else if m == Method::Post {
        assert(ms[1] == m);
    } else if m == Method::Put {
        assert(ms[2] == m);
    } else if m == Method::Delete {
        assert(ms[3] == m);
    } else {
        assert(ms[4] == m);
    }
}

/// The method token a policy entry is published under. `Other` never stands
/// in a policy, so its token is empty.
pub open spec fn spec_method_token(m: Method) -> Seq<char> {
    match m {
        Method::Get => "GET"@,
        Method::Post => "POST"@,
        Method::Put => "PUT"@,
        Method::Delete => "DELETE"@,
        Method::Options => "OPTIONS"@,
        Method::Other => ""@,
    }
}

/// A list of tokens joined with `", "`, the way the policy is published in a
/// header value.
pub open spec fn spec_join(items: Seq<Seq<char>>) -> Seq<char>
    decreases items.len(),
{
    if items.len() == 0 {
        Seq::empty()
    } else if items.len() == 1 {
        items[0]
    } else {
        items[0] + ", "@ + spec_join(items.drop_first())
    }
}

/// The value of `Access-Control-Allow-Methods` on a preflight answer.
pub open spec fn spec_allow_methods_value() -> Seq<char> {
    "GET, POST, PUT, DELETE, OPTIONS"@
}

/// The value of `Access-Control-Allow-Headers` on a preflight answer.
pub open spec fn spec_allow_headers_value() -> Seq<char> {
    "authorization, accept, content-type"@
}

/// The value of `Access-Control-Max-Age` on a preflight answer.
pub open spec fn spec_max_age_value() -> Seq<char> {
    "3600"@
}

/// The published header values say exactly what the policy record holds: the
/// allowed-methods value is the policy's method tokens joined with `", "`,
/// and the allowed-headers value is its header names joined the same way.
pub proof fn lemma_header_values_publish_policy()
    ensures
        spec_allow_methods_value() == spec_join(
            spec_admin_policy().allowed_methods.map_values(|m: Method| spec_method_token(m)),
        ),
        spec_allow_headers_value() == spec_join(spec_admin_policy().allowed_headers),
{
    reveal_strlit("GET");
    reveal_strlit("POST");
    reveal_strlit("PUT");
    reveal_strlit("DELETE");
    reveal_strlit("OPTIONS");
    reveal_strlit(", ");
    reveal_strlit("GET, POST, PUT, DELETE, OPTIONS");
    reveal_strlit("authorization");
    reveal_strlit("accept");
    reveal_strlit("content-type");
    reveal_strlit("authorization, accept, content-type");
    reveal_strlit("DELETE, OPTIONS");
    reveal_strlit("PUT, DELETE, OPTIONS");
    reveal_strlit("POST, PUT, DELETE, OPTIONS");
    reveal_strlit("accept, content-type");
    reveal_with_fuel(spec_join, 6);
    let toks = spec_admin_policy().allowed_methods.map_values(|m: Method| spec_method_token(m));
    assert(toks.len() == 5);
    assert(toks[0] == "GET"@);
    assert(toks.drop_first() =~= seq!["POST"@, "PUT"@, "DELETE"@, "OPTIONS"@]);
    assert(toks.drop_first().drop_first() =~= seq!["PUT"@, "DELETE"@, "OPTIONS"@]);
    assert(toks.drop_first().drop_first().drop_first() =~= seq!["DELETE"@, "OPTIONS"@]);
    assert(toks.drop_first().drop_first().drop_first().drop_first() =~= seq!["OPTIONS"@]);
    assert(spec_join(seq!["OPTIONS"@]) == "OPTIONS"@);
    assert(spec_join(seq!["DELETE"@, "OPTIONS"@]) =~= "DELETE, OPTIONS"@);
    assert(spec_join(seq!["PUT"@, "DELETE"@, "OPTIONS"@]) =~= "PUT, DELETE, OPTIONS"@);
    assert(spec_join(seq!["POST"@, "PUT"@, "DELETE"@, "OPTIONS"@]) =~= "POST, PUT, DELETE, OPTIONS"@);
    assert(spec_join(toks) =~= spec_allow_methods_value());
    let hdrs = spec_admin_policy().allowed_headers;
    assert(hdrs.drop_first() =~= seq!["accept"@, "content-type"@]);
    assert(hdrs.drop_first().drop_first() =~= seq!["content-type"@]);
    assert(spec_join(seq!["content-type"@]) == "content-type"@);
    assert(spec_join(seq!["accept"@, "content-type"@]) =~= "accept, content-type"@);
    assert(spec_join(hdrs) =~= spec_allow_headers_value());
}

/// Renders the allowed-methods list of the running policy.
pub fn allow_methods_value() -> (s: String)
    ensures
        s@ == spec_allow_methods_value(),
{
    "GET, POST, PUT, DELETE, OPTIONS".to_owned()
}

/// Renders the allowed-headers list of the running policy.
pub fn allow_headers_value() -> (s: String)
    ensures
        s@ == spec_allow_headers_value(),
{
    "authorization, accept, content-type".to_owned()
}

/// Renders the preflight cache lifetime of the running policy.
pub fn max_age_value() -> (s: String)
    ensures
        s@ == spec_max_age_value(),
{
    "3600".to_owned()
}

} // verus!
