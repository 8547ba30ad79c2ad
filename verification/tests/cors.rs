use healthd::cors::{admin_cors_policy, allow_headers_value, allow_methods_value, max_age_value, method_allowed};
use healthd::http::Method;

#[test]
fn admin_policy_has_fixed_record() {
    let p = admin_cors_policy();
    assert_eq!(
        p.allowed_methods,
        vec![Method::Get, Method::Post, Method::Put, Method::Delete, Method::Options]
    );
    assert_eq!(
        p.allowed_headers,
        vec![
            "authorization".to_string(),
            "accept".to_string(),
            "content-type".to_string(),
        ]
    );
    assert_eq!(p.max_age_secs, 3600);
}

#[test]
fn admin_policy_allows_the_five_methods() {
    let p = admin_cors_policy();
    assert!(method_allowed(&p, Method::Get));
    assert!(method_allowed(&p, Method::Post));
    assert!(method_allowed(&p, Method::Put));
    assert!(method_allowed(&p, Method::Delete));
    assert!(method_allowed(&p, Method::Options));
}

#[test]
fn admin_policy_refuses_other_methods() {
    let p = admin_cors_policy();
    assert!(!method_allowed(&p, Method::Other));
}

#[test]
fn rendered_header_values() {
    assert_eq!(allow_methods_value(), "GET, POST, PUT, DELETE, OPTIONS");
    assert_eq!(allow_headers_value(), "authorization, accept, content-type");
    assert_eq!(max_age_value(), "3600");
}
