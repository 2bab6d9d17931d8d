use axum::http::{HeaderMap, HeaderValue};
use den::middleware::path_matches;
use den::origin::{
    first_entry, host_with_port, normalize_host, normalize_origin, origin_host, request_origin,
    UrlParts,
};
use den::redirect::normalize_redirect_path;
use url::Url;

fn std_first_entry(raw: &str) -> Option<&str> {
    raw.split(',').map(str::trim).find(|v| !v.is_empty())
}

fn url_origin(origin: &str) -> Option<String> {
    let parsed = Url::parse(origin).ok()?;
    if !matches!(parsed.scheme(), "http" | "https") {
        return None;
    }
    parsed.host_str()?;
    if !parsed.username().is_empty() || parsed.password().is_some() {
        return None;
    }
    Some(parsed.origin().ascii_serialization())
}

fn url_host(url: &Url) -> Option<String> {
    let host = url.host_str()?.to_ascii_lowercase();
    Some(match url.port() {
        Some(port) => format!("{host}:{port}"),
        None => host,
    })
}

#[test]
fn first_entry_agrees_with_split_and_trim() {
    let samples = [
        ", proxy.example", " , , a , b", ",,,", "a,,b", " ,\t, x y ,", ",a", ", ,",
        "", ",", " , ", "a", " a ", "a,b", " a , b ", ",a", "a,", "https, http", "\t x\u{3000},",
        "a b , c", "\u{a0}",
    ];
    for s in samples {
        assert_eq!(first_entry(s), std_first_entry(s));
    }
}

#[test]
fn path_matches_agrees_with_strip_prefix() {
    let paths = ["", "/", "/login", "/login/", "/login/x", "/loginx", "/log", "/setup/a/b", "login"];
    let routes = ["/login", "/setup", "", "/"];
    for path in paths {
        for route in routes {
            let expected = path == route
                || path
                    .strip_prefix(route)
                    .is_some_and(|rest| rest.starts_with('/'));
            assert_eq!(path_matches(path, route), expected);
        }
    }
}

#[test]
fn normalize_redirect_path_agrees_with_its_rule() {
    let samples = [
        "", "/", "//", "/a", " /a ", "a", "/a//b", "/\\", "\\", "/a\\b", "///", " //x", "/ /",
        "\t/x\n", "/é", "?", "/?a=b#c",
    ];
    for s in samples {
        let t = s.trim();
        let expected = if t.starts_with('/') && !t.starts_with("//") && !t.contains('\\') {
            t.to_string()
        } else {
            "/".to_string()
        };
        assert_eq!(normalize_redirect_path(Some(s)), expected);
        let again = normalize_redirect_path(Some(&expected));
        assert_eq!(again, expected);
    }
}

#[test]
fn origins_and_hosts_agree_with_the_url_crate() {
    let samples = [
        "https://example.com",
        "HTTPS://EXAMPLE.COM:443/a?b#c",
        "http://example.com:80",
        "http://example.com:8080/",
        "https://user@example.com",
        "https://xn--caf-dma.example",
        "https://caf\u{e9}.example",
        "http://[::1]:3000",
        "http://127.0.0.1",
        "ftp://example.com",
        "file:///etc/passwd",
        "blob:https://example.com/x",
        "data:text/plain,hi",
        "mailto:a@example.com",
        "example.com",
        "//example.com",
        "http://",
        "http:///x",
        "",
    ];
    for s in samples {
        assert_eq!(normalize_origin(s), url_origin(s));
        let expected_host = url_origin(s)
            .and_then(|o| Url::parse(&o).ok())
            .and_then(|u| url_host(&u));
        assert_eq!(origin_host(s), expected_host);
    }
}

#[test]
fn configured_hosts_agree_with_the_url_crate() {
    let samples = [
        "example.com",
        " Example.COM:8443 ",
        "fujin:3000",
        "[::1]:3000",
        "127.0.0.1",
        "caf\u{e9}.example",
        "a b",
        "user@example.com",
        "example.com:99999",
        ":80",
    ];
    for s in samples {
        let expected = Url::parse(&format!("http://{}", s.trim()))
            .ok()
            .and_then(|u| url_host(&u));
        assert_eq!(normalize_host(s), expected);
    }
}

#[test]
fn host_with_port_writes_every_port_in_decimal() {
    let mut port: u16 = 0;
    loop {
        let parts = UrlParts {
            scheme: "http".to_string(),
            host: Some("h".to_string()),
            port: Some(port),
            username: String::new(),
            password: None,
            origin: String::new(),
        };
        assert_eq!(host_with_port(&parts), Some(format!("h:{}", port)));
        if port == u16::MAX {
            break;
        }
        port += 1;
    }
}

#[test]
fn header_names_are_matched_in_any_case() {
    let mut headers = HeaderMap::new();
    headers.insert("X-Forwarded-Host", HeaderValue::from_static("proxy.example"));
    headers.insert("X-FORWARDED-PROTO", HeaderValue::from_static("https"));
    assert_eq!(
        request_origin(&headers, "http").as_deref(),
        Some("https://proxy.example")
    );
}
