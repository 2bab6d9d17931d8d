use axum::http::{header, HeaderMap, HeaderValue};
use den::origin::load_allowed_hosts;
use den::redirect::{
    normalize_redirect_origin, normalize_redirect_path, normalize_redirect_target_origin,
    redirect_complete_url, request_secure_cookie,
};
use den::state::{AppState, Rejection};

fn state() -> AppState {
    AppState {
        jwt_secret: vec![7u8; 64],
        secure_cookies: true,
        rp_origin: "https://lab.example".to_string(),
        allowed_hosts: load_allowed_hosts("https://lab.example", &["fujin:3000".to_string()]),
    }
}

#[test]
fn normalize_redirect_path_rejects_protocol_relative_and_backslashes() {
    assert_eq!(normalize_redirect_path(Some("//evil.com")), "/");
    assert_eq!(normalize_redirect_path(Some("/\\evil.com")), "/");
}

#[test]
fn normalize_redirect_path_accepts_regular_relative_path() {
    assert_eq!(normalize_redirect_path(Some("/dashboard")), "/dashboard");
}

#[test]
fn normalize_redirect_path_trims_and_defaults() {
    assert_eq!(normalize_redirect_path(None), "/");
    assert_eq!(normalize_redirect_path(Some("")), "/");
    assert_eq!(normalize_redirect_path(Some("  /a/b?c=d  ")), "/a/b?c=d");
    assert_eq!(normalize_redirect_path(Some("dashboard")), "/");
    assert_eq!(normalize_redirect_path(Some("https://evil.com/")), "/");
    assert_eq!(normalize_redirect_path(Some("/a\\b")), "/");
    assert_eq!(normalize_redirect_path(Some(" //evil.com")), "/");
    assert_eq!(normalize_redirect_path(Some("/")), "/");
}

#[test]
fn request_secure_cookie_follows_resolved_scheme() {
    let mut headers = HeaderMap::new();
    assert!(request_secure_cookie(&headers, true));
    assert!(!request_secure_cookie(&headers, false));
    headers.insert(header::HOST, HeaderValue::from_static("lab.example"));
    assert!(request_secure_cookie(&headers, true));
    assert!(!request_secure_cookie(&headers, false));
    headers.insert("x-forwarded-proto", HeaderValue::from_static("https"));
    assert!(request_secure_cookie(&headers, false));
    headers.insert("x-forwarded-proto", HeaderValue::from_static("http"));
    assert!(!request_secure_cookie(&headers, true));
}

#[test]
fn normalize_redirect_origin_cases() {
    let state = state();
    assert_eq!(normalize_redirect_origin(&state, None), Ok(None));
    assert_eq!(
        normalize_redirect_origin(&state, Some("https://LAB.example/")),
        Ok(None)
    );
    assert_eq!(
        normalize_redirect_origin(&state, Some("http://Fujin:3000/x")),
        Ok(Some("http://fujin:3000".to_string()))
    );
    assert_eq!(
        normalize_redirect_origin(&state, Some("https://evil.example")),
        Err(Rejection::BadRequest)
    );
    assert_eq!(
        normalize_redirect_origin(&state, Some("not an origin")),
        Err(Rejection::BadRequest)
    );
}

#[test]
fn normalize_redirect_target_origin_cases() {
    let state = state();
    assert_eq!(
        normalize_redirect_target_origin(&state, "https://lab.example/path"),
        Ok("https://lab.example".to_string())
    );
    assert_eq!(
        normalize_redirect_target_origin(&state, "http://fujin:3000"),
        Ok("http://fujin:3000".to_string())
    );
    assert_eq!(
        normalize_redirect_target_origin(&state, "http://fujin:3001"),
        Err(Rejection::BadRequest)
    );
    assert_eq!(
        normalize_redirect_target_origin(&state, "ftp://fujin:3000"),
        Err(Rejection::BadRequest)
    );
}

#[test]
fn redirect_complete_url_encodes_the_token() {
    assert_eq!(
        redirect_complete_url("http://fujin:3000", "a.b c&d"),
        "http://fujin:3000/api/auth/redirect/complete?token=a.b+c%26d"
    );
}

#[test]
fn rejection_status_codes() {
    assert_eq!(Rejection::BadRequest.status_code(), 400);
    assert_eq!(Rejection::Unauthorized.status_code(), 401);
    assert_eq!(Rejection::NotFound.status_code(), 404);
    assert_eq!(Rejection::Conflict.status_code(), 409);
    assert_eq!(Rejection::Internal.status_code(), 500);
    assert_eq!(Rejection::Unavailable.status_code(), 503);
}
