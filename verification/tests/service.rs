use healthd::dispatch::dispatch;
use healthd::http::{Method, Request};

fn req(method: Method, path: &str) -> Request {
    Request {
        method,
        path: path.to_string(),
        origin: None,
        request_method: None,
        headers: Vec::new(),
        body: Vec::new(),
    }
}

const BODY: &str = "{\"data\":{\"status\":\"alive\"}}";

#[test]
fn health_get_is_alive() {
    let r = dispatch(&req(Method::Get, "/admin-api/health"));
    assert_eq!(r.status, 200);
    assert_eq!(r.body, BODY);
    assert_eq!(r.headers, vec![("content-type".to_string(), "application/json".to_string())]);
}

#[test]
fn health_post_is_alive() {
    let r = dispatch(&req(Method::Post, "/admin-api/health"));
    assert_eq!(r.status, 200);
    assert_eq!(r.body, BODY);
}

#[test]
fn health_put_is_alive() {
    let r = dispatch(&req(Method::Put, "/admin-api/health"));
    assert_eq!(r.status, 200);
    assert_eq!(r.body, BODY);
}

#[test]
fn health_delete_is_alive() {
    let r = dispatch(&req(Method::Delete, "/admin-api/health"));
    assert_eq!(r.status, 200);
    assert_eq!(r.body, BODY);
}

#[test]
fn health_options_without_origin_is_alive() {
    let r = dispatch(&req(Method::Options, "/admin-api/health"));
    assert_eq!(r.status, 200);
    assert_eq!(r.body, BODY);
}

#[test]
fn other_path_is_not_found() {
    let r = dispatch(&req(Method::Get, "/admin-api/other"));
    assert_eq!(r.status, 404);
    assert_eq!(r.body, "");
    assert!(r.headers.is_empty());
}

#[test]
fn root_path_is_not_found() {
    let r = dispatch(&req(Method::Get, "/"));
    assert_eq!(r.status, 404);
}

#[test]
fn payload_does_not_change_response() {
    let plain = dispatch(&req(Method::Post, "/admin-api/health"));
    let mut loaded = req(Method::Post, "/admin-api/health");
    loaded.headers.push(("x-anything".to_string(), "whatever".to_string()));
    loaded.headers.push(("content-length".to_string(), "11".to_string()));
    loaded.body = b"hello world".to_vec();
    let r = dispatch(&loaded);
    assert_eq!(r.status, plain.status);
    assert_eq!(r.headers, plain.headers);
    assert_eq!(r.body, plain.body);
}

#[test]
fn cross_origin_request_echoes_origin() {
    let mut q = req(Method::Get, "/admin-api/health");
    q.origin = Some("https://app.example".to_string());
    let r = dispatch(&q);
    assert_eq!(r.status, 200);
    assert_eq!(r.body, BODY);
    assert_eq!(
        r.headers,
        vec![
            (
                "access-control-allow-origin".to_string(),
                "https://app.example".to_string(),
            ),
            ("content-type".to_string(), "application/json".to_string()),
        ]
    );
}

#[test]
fn preflight_reflects_policy() {
    let mut q = req(Method::Options, "/admin-api/health");
    q.origin = Some("https://app.example".to_string());
    q.request_method = Some("PUT".to_string());
    let r = dispatch(&q);
    assert_eq!(r.status, 200);
    assert_eq!(r.body, "");
    assert_eq!(
        r.headers,
        vec![
            (
                "access-control-allow-origin".to_string(),
                "https://app.example".to_string(),
            ),
            (
                "access-control-allow-methods".to_string(),
                "GET, POST, PUT, DELETE, OPTIONS".to_string(),
            ),
            (
                "access-control-allow-headers".to_string(),
                "authorization, accept, content-type".to_string(),
            ),
            ("access-control-max-age".to_string(), "3600".to_string()),
        ]
    );
}

#[test]
fn hundred_requests_each_get_the_same_answer() {
    for i in 0..100 {
        let mut q = req(Method::Get, "/admin-api/health");
        q.headers.push(("x-request-id".to_string(), i.to_string()));
        let r = dispatch(&q);
        assert_eq!(r.status, 200);
        assert_eq!(r.body, BODY);
    }
}

#[test]
fn preflight_ignores_path() {
    let mut q = req(Method::Options, "/nowhere");
    q.origin = Some("https://app.example".to_string());
    q.request_method = Some("DELETE".to_string());
    let r = dispatch(&q);
    assert_eq!(r.status, 200);
    assert_eq!(r.body, "");
    assert_eq!(r.headers.len(), 4);
}
