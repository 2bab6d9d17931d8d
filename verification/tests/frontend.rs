use den::frontend::{
    build_rewritten_uri, cache_control_for_path, handle_request, is_asset_path,
    is_safe_rel_path, maybe_apply_cache_header, needs_fallback, relative_path, service,
    FrontendPlan, CACHE_CONTROL_IMMUTABLE,
};
use den::health::check;
use den::state::Rejection;

#[test]
fn next_static_assets_are_immutable() {
    assert_eq!(
        cache_control_for_path("_next/static/chunks/app.js"),
        Some(CACHE_CONTROL_IMMUTABLE)
    );
}

#[test]
fn non_next_assets_do_not_set_cache_control() {
    assert_eq!(cache_control_for_path("index.html"), None);
}

#[test]
fn path_traversal_is_rejected() {
    assert!(!is_safe_rel_path("../secrets.txt"));
    assert!(!is_safe_rel_path(".."));
    assert!(!is_safe_rel_path("./index.html"));
    assert!(!is_safe_rel_path("/index.html"));
    assert!(!is_safe_rel_path("a/../../b"));
    assert!(is_safe_rel_path("_next/static/chunks/app.js"));
    assert!(is_safe_rel_path("settings.html"));
}

#[test]
fn asset_paths_skip_spa_fallback() {
    assert!(is_asset_path("_next/static/chunks/app.js"));
    assert!(is_asset_path("favicon.ico"));
    assert!(is_asset_path("foo/bar.png"));
    assert!(!is_asset_path("settings"));
    assert!(!is_asset_path("setup"));
}

#[test]
fn is_safe_rel_path_agrees_with_path_components() {
    let samples = [
        "", ".", "..", "...", "a", "a/", "a//b", "a/./b", "a/.", "a/..", "a/../b", "..a", "a..",
        "a/..b", "a/b..", "./", ".//a", "/", "//a", ".a", "a/.../b", "a/b/..", "../", "a/ ../b",
    ];
    for s in samples {
        let expected = std::path::Path::new(s)
            .components()
            .all(|c| matches!(c, std::path::Component::Normal(_)));
        assert_eq!(is_safe_rel_path(s), expected);
    }
}

#[test]
fn relative_path_strips_leading_slashes() {
    assert_eq!(relative_path("/a/b"), "a/b");
    assert_eq!(relative_path("///a/"), "a/");
    assert_eq!(relative_path("/"), "");
    assert_eq!(relative_path("a"), "a");
}

#[test]
fn handle_request_plans() {
    assert!(matches!(handle_request(false, "/index.html"), FrontendPlan::NotFound));
    assert!(matches!(handle_request(true, "/../etc/passwd"), FrontendPlan::NotFound));
    assert!(matches!(handle_request(true, "/a/../b"), FrontendPlan::NotFound));
    match handle_request(true, "/") {
        FrontendPlan::Serve { rel_path, is_asset } => {
            assert_eq!(rel_path, "");
            assert!(!is_asset);
        }
        FrontendPlan::NotFound => panic!("the root is served"),
    }
    match handle_request(true, "/_next/static/x.js") {
        FrontendPlan::Serve { rel_path, is_asset } => {
            assert_eq!(rel_path, "_next/static/x.js");
            assert!(is_asset);
        }
        FrontendPlan::NotFound => panic!("assets are served"),
    }
    match handle_request(true, "/settings") {
        FrontendPlan::Serve { rel_path, is_asset } => {
            assert_eq!(rel_path, "settings");
            assert!(!is_asset);
        }
        FrontendPlan::NotFound => panic!("pages are served"),
    }
}

#[test]
fn fallback_and_cache_header() {
    assert!(needs_fallback(false, false));
    assert!(!needs_fallback(false, true));
    assert!(!needs_fallback(true, false));
    assert_eq!(maybe_apply_cache_header("_next/x.js", true), Some(CACHE_CONTROL_IMMUTABLE));
    assert_eq!(maybe_apply_cache_header("_next/x.js", false), None);
    assert_eq!(maybe_apply_cache_header("index.html", true), None);
    assert_eq!(CACHE_CONTROL_IMMUTABLE, "public, max-age=31536000, immutable");
}

#[test]
fn build_rewritten_uri_keeps_query() {
    assert_eq!(build_rewritten_uri(Some("a=1"), "/x"), "/x?a=1");
    assert_eq!(build_rewritten_uri(None, "/x"), "/x");
}

#[test]
fn service_is_the_unit_service() {
    let _service = service();
}

#[test]
fn health_check_reports_storage() {
    assert_eq!(check(true).map(|h| h.status).ok(), Some("ok"));
    assert_eq!(check(false).err(), Some(Rejection::Unavailable));
}
