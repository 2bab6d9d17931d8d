//! Where a handoff may lead: which origins are accepted as targets, which
//! paths are safe to redirect to, and the URL at which a target redeems its
//! token.

use crate::origin::{
    host_of_origin, normalize_origin, normalized_origin, origin_host, origin_of_request,
    request_origin, text_of,
};
use crate::query::{encode_query, encoded_query, Pair};
use crate::state::{AppState, Rejection};
use crate::text::{
    join_text, contains_char, eq_ignore_ascii_case, same_ignoring_case, starts_with, trim, trimmed,
};
use axum::http::{HeaderMap, HeaderValue};
use vstd::prelude::*;
use vstd::string::*;

verus! {

/// Content of an optional borrowed text.
pub open spec fn str_of(o: Option<&str>) -> Option<Seq<char>> {
    match o {
        Some(s) => Some(s@),
        None => None,
    }
}

/// A path that stays on the origin it is resolved against: it starts with a
/// single `/` and holds no backslash.
pub open spec fn safe_path(p: Seq<char>) -> bool {
    "/"@.is_prefix_of(p) && !"//"@.is_prefix_of(p) && !p.contains('\\')
}

/// The path to redirect to: the trimmed request where that is safe, else `/`.
pub open spec fn redirect_path_of(path: Option<Seq<char>>) -> Seq<char> {
    match path {
        Some(p) => if safe_path(trimmed(p)) {
            trimmed(p)
        } else {
            "/"@
        },
        None => "/"@,
    }
}

/// Normalizes a redirect path. Whatever is asked for, the result is a safe
/// path.
pub fn normalize_redirect_path(path: Option<&str>) -> (r: String)
    ensures
        r@ == redirect_path_of(str_of(path)),
        safe_path(r@),
{
    proof {
        reveal_strlit("/");
        reveal_strlit("//");
        assert("/"@.subrange(0, 1) =~= "/"@);
    }
    match path {
        Some(p) => {
            let p = trim(p);
            if starts_with(p, "/") && !starts_with(p, "//") && !contains_char(p, '\\') {
                p.to_owned()
            } else {
                "/".to_owned()
            }
        },
        None => "/".to_owned(),
    }
}

/// A path that was normalized stays as it is when it is normalized again:
/// what is put into a handoff token is what the browser is sent to when the
/// token is redeemed.
pub proof fn normalized_path_is_stable(path: Option<Seq<char>>)
    ensures
        safe_path(redirect_path_of(path)),
        redirect_path_of(Some(redirect_path_of(path))) == redirect_path_of(path),
{
    reveal_strlit("/");
    reveal_strlit("//");
    assert("/"@.subrange(0, 1) =~= "/"@);
    assert(!crate::text::is_space('/'));
    assert(trimmed("/"@) == "/"@);
    match path {
        Some(p) => {
            crate::text::trimmed_is_clean(p);
        },
        None => {},
    }
}

/// Whether a session cookie must be marked secure: by the scheme of the
/// origin resolved for the request, or by `fallback` where none resolves.
pub open spec fn secure_for(headers: HeaderMap<HeaderValue>, fallback: bool) -> bool {
    match origin_of_request(
        headers,
        if fallback {
            "https"@
        } else {
            "http"@
        },
    ) {
        Some(origin) => "https://"@.is_prefix_of(origin),
        None => fallback,
    }
}

/// Whether the cookie set in answer to this request is marked secure.
pub fn request_secure_cookie(headers: &HeaderMap<HeaderValue>, fallback: bool) -> (b: bool)
    ensures
        b == secure_for(*headers, fallback),
{
    let fallback_scheme = if fallback {
        "https"
    } else {
        "http"
    };
    match request_origin(headers, fallback_scheme) {
        Some(origin) => starts_with(origin.as_str(), "https://"),
        None => fallback,
    }
}

/// Outcome of checking a requested handoff origin: no handoff for the
/// canonical origin itself, the canonical form for an allowed host, and a
/// bad request for anything else.
pub open spec fn redirect_origin_of(
    rp_origin: Seq<char>,
    allowed: Set<Seq<char>>,
    origin: Option<Seq<char>>,
) -> Result<Option<Seq<char>>, Rejection> {
    match origin {
        None => Ok(None),
        Some(o) => match normalized_origin(o) {
            None => Err(Rejection::BadRequest),
            Some(n) => if same_ignoring_case(n, rp_origin) {
                Ok(None)
            } else {
                match host_of_origin(n) {
                    None => Err(Rejection::BadRequest),
                    Some(h) => if allowed.contains(h) {
                        Ok(Some(n))
                    } else {
                        Err(Rejection::BadRequest)
                    },
                }
            },
        },
    }
}

/// Content of the outcome of [`normalize_redirect_origin`].
pub open spec fn optional_origin_view(r: Result<Option<String>, Rejection>) -> Result<
    Option<Seq<char>>,
    Rejection,
> {
    match r {
        Ok(o) => Ok(text_of(o)),
        Err(e) => Err(e),
    }
}

/// Checks the origin that a login asks to be handed off to.
pub fn normalize_redirect_origin(state: &AppState, origin: Option<&str>) -> (r: Result<
    Option<String>,
    Rejection,
>)
    ensures
        optional_origin_view(r) == redirect_origin_of(
            state.rp_origin@,
            state.allowed_hosts@,
            str_of(origin),
        ),
{
    let origin = match origin {
        Some(o) => o,
        None => {
            return Ok(None);
        },
    };
    let normalized = match normalize_origin(origin) {
        Some(n) => n,
        None => {
            return Err(Rejection::BadRequest);
        },
    };
    if eq_ignore_ascii_case(normalized.as_str(), state.rp_origin.as_str()) {
        return Ok(None);
    }
    let host = match origin_host(normalized.as_str()) {
        Some(h) => h,
        None => {
            return Err(Rejection::BadRequest);
        },
    };
    if !state.allowed_hosts.contains(host.as_str()) {
        return Err(Rejection::BadRequest);
    }
    Ok(Some(normalized))
}

/// Outcome of checking the target of an explicit handoff: the canonical
/// origin as configured, the canonical form of an allowed origin, or a bad
/// request.
pub open spec fn redirect_target_of(
    rp_origin: Seq<char>,
    allowed: Set<Seq<char>>,
    origin: Seq<char>,
) -> Result<Seq<char>, Rejection> {
    match normalized_origin(origin) {
        None => Err(Rejection::BadRequest),
        Some(n) => if same_ignoring_case(n, rp_origin) {
            Ok(rp_origin)
        } else {
            match host_of_origin(n) {
                None => Err(Rejection::BadRequest),
                Some(h) => if allowed.contains(h) {
                    Ok(n)
                } else {
                    Err(Rejection::BadRequest)
                },
            }
        },
    }
}

/// Content of the outcome of [`normalize_redirect_target_origin`].
pub open spec fn origin_view(r: Result<String, Rejection>) -> Result<Seq<char>, Rejection> {
    match r {
        Ok(o) => Ok(o@),
        Err(e) => Err(e),
    }
}

/// Checks the origin that a signed-in user asks to be handed off to.
pub fn normalize_redirect_target_origin(state: &AppState, origin: &str) -> (r: Result<
    String,
    Rejection,
>)
    ensures
        origin_view(r) == redirect_target_of(state.rp_origin@, state.allowed_hosts@, origin@),
{
    let normalized = match normalize_origin(origin) {
        Some(n) => n,
        None => {
            return Err(Rejection::BadRequest);
        },
    };
    if eq_ignore_ascii_case(normalized.as_str(), state.rp_origin.as_str()) {
        return Ok(state.rp_origin.clone());
    }
    let host = match origin_host(normalized.as_str()) {
        Some(h) => h,
        None => {
            return Err(Rejection::BadRequest);
        },
    };
    if !state.allowed_hosts.contains(host.as_str()) {
        return Err(Rejection::BadRequest);
    }
    Ok(normalized)
}

/// The single pair that carries a handoff token.
pub open spec fn token_pair(token: Seq<char>) -> Seq<Pair> {
    seq![("token"@, token)]
}

/// The URL on the target origin that redeems a handoff token.
pub open spec fn complete_url_of(target_origin: Seq<char>, token: Seq<char>) -> Seq<char> {
    target_origin + "/api/auth/redirect/complete?"@ + encoded_query(token_pair(token))
}

/// Builds the URL that the browser is sent to with a handoff token.
pub fn redirect_complete_url(target_origin: &str, token: &str) -> (r: String)
    ensures
        r@ == complete_url_of(target_origin@, token@),
{
    let mut pairs: Vec<(String, String)> = Vec::new();
    pairs.push(("token".to_owned(), token.to_owned()));
    assert(crate::query::pairs_view(pairs@) =~= token_pair(token@));
    let query = encode_query(&pairs);
    let mut url = join_text(target_origin, "/api/auth/redirect/complete?");
    url.append(query.as_str());
    url
}

} // verus!
