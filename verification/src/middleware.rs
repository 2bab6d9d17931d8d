//! Canonical-origin policy. Ceremonies are bound to one origin, so a request
//! for a sign-in page on any other origin is sent to the canonical one, with
//! a note of where to return to.

use crate::origin::{
    fallback_scheme, host_of_origin, origin_host, origin_of_request, request_fallback_scheme,
    request_origin,
};
use crate::query::{
    encode_query, encoded_query, has_key, names, pairs_view, parse_query, query_pairs, Pair,
};
use crate::redirect::str_of;
use crate::state::AppState;
use crate::text::{join_text, eq_ignore_ascii_case, same_ignoring_case, same_text, starts_with};
use axum::http::{HeaderMap, HeaderValue};
use vstd::prelude::*;
use vstd::string::*;

verus! {

/// `path` is `route` itself or lies below it.
pub open spec fn route_matches(path: Seq<char>, route: Seq<char>) -> bool {
    route.is_prefix_of(path) && (path.len() == route.len() || path[route.len() as int] == '/')
}

/// `path` is one of the pages on which a ceremony starts.
pub open spec fn is_canonical_auth_path(path: Seq<char>) -> bool {
    route_matches(path, "/login"@) || route_matches(path, "/setup"@)
}

/// Whether `path` is `route` or continues it with a `/`.
pub fn path_matches(path: &str, route: &str) -> (b: bool)
    ensures
        b == route_matches(path@, route@),
{
    if !starts_with(path, route) {
        return false;
    }
    let n: usize = path.unicode_len();
    let m: usize = route.unicode_len();
    n == m || path.get_char(m) == '/'
}

/// Whether `path` is a page that must be served from the canonical origin.
pub fn canonical_auth_path(path: &str) -> (b: bool)
    ensures
        b == is_canonical_auth_path(path@),
{
    path_matches(path, "/login") || path_matches(path, "/setup")
}

/// Whether a pair of the incoming query is passed on: `redirect_origin`
/// never is, `redirect_path` only for the login page.
pub open spec fn passed_on(key: Seq<char>, is_login: bool) -> bool {
    key != "redirect_origin"@ && (key != "redirect_path"@ || is_login)
}

/// The pairs of the incoming query that are passed on, in their order.
pub open spec fn forwarded_pairs(pairs: Seq<Pair>, is_login: bool) -> Seq<Pair>
    decreases pairs.len(),
{
    if pairs.len() == 0 {
        Seq::empty()
    } else {
        let rest = forwarded_pairs(pairs.drop_last(), is_login);
        if passed_on(pairs.last().0, is_login) {
            rest.push(pairs.last())
        } else {
            rest
        }
    }
}

/// The query of the redirect. For the login page, a requesting origin whose
/// host is allowed is noted as `redirect_origin`, and with it the path `/`
/// as `redirect_path` where the request names none. Nothing is added for
/// any other page or host.
pub open spec fn redirect_pairs(
    pairs: Seq<Pair>,
    is_login: bool,
    origin: Seq<char>,
    origin_allowed: bool,
) -> Seq<Pair> {
    let kept = forwarded_pairs(pairs, is_login);
    let noted = if is_login && origin_allowed {
        kept.push(("redirect_origin"@, origin))
    } else {
        kept
    };
    let has_origin = is_login && origin_allowed;
    let has_path = is_login && names(pairs, "redirect_path"@);
    if has_origin && !has_path {
        noted.push(("redirect_path"@, "/"@))
    } else {
        noted
    }
}

/// Every pair that is passed on was in the request, under a name that may
/// be passed on.
pub proof fn forwarded_pairs_are_chosen(pairs: Seq<Pair>, is_login: bool)
    ensures
        forall|i: int|
            0 <= i < forwarded_pairs(pairs, is_login).len() ==> passed_on(
                (#[trigger] forwarded_pairs(pairs, is_login)[i]).0,
                is_login,
            ) && pairs.contains(forwarded_pairs(pairs, is_login)[i]),
    decreases pairs.len(),
{
    if pairs.len() > 0 {
        let front = pairs.drop_last();
        let kept = forwarded_pairs(front, is_login);
        let all = forwarded_pairs(pairs, is_login);
        forwarded_pairs_are_chosen(front, is_login);
        assert forall|i: int| 0 <= i < all.len() implies passed_on((#[trigger] all[i]).0, is_login)
            && pairs.contains(all[i]) by {
            if i < kept.len() {
                assert(all[i] == kept[i]);
                assert(front.contains(kept[i]));
                let k = choose|k: int| 0 <= k < front.len() && front[k] == kept[i];
                assert(pairs[k] == all[i]);
            } else {
                assert(all[i] == pairs[pairs.len() - 1]);
            }
        }
    }
}

/// The return address is derived, never taken from the request: a
/// `redirect_origin` in the redirect's query is the origin that the request
/// came to, noted for the login page because its host is allowed. And only
/// the login page is given a `redirect_path`.
pub proof fn return_address_is_never_forwarded(
    pairs: Seq<Pair>,
    is_login: bool,
    origin: Seq<char>,
    origin_allowed: bool,
)
    ensures
        forall|i: int|
            0 <= i < redirect_pairs(pairs, is_login, origin, origin_allowed).len() && (
            #[trigger] redirect_pairs(pairs, is_login, origin, origin_allowed)[i]).0
                == "redirect_origin"@ ==> is_login && origin_allowed && redirect_pairs(
                pairs,
                is_login,
                origin,
                origin_allowed,
            )[i].1 == origin,
        !is_login ==> forall|i: int|
            0 <= i < redirect_pairs(pairs, is_login, origin, origin_allowed).len() ==> (
            #[trigger] redirect_pairs(pairs, is_login, origin, origin_allowed)[i]).0
                != "redirect_path"@,
{
    reveal_strlit("redirect_origin");
    reveal_strlit("redirect_path");
    forwarded_pairs_are_chosen(pairs, is_login);
    let kept = forwarded_pairs(pairs, is_login);
    let out = redirect_pairs(pairs, is_login, origin, origin_allowed);
    assert("redirect_origin"@.len() != "redirect_path"@.len());
    assert forall|i: int| 0 <= i < out.len() && (#[trigger] out[i]).0
        == "redirect_origin"@ implies is_login && origin_allowed && out[i].1 == origin by {
        if i < kept.len() {
            assert(out[i] == kept[i]);
        }
    }
    if !is_login {
        assert forall|i: int| 0 <= i < out.len() implies (#[trigger] out[i]).0
            != "redirect_path"@ by {
            assert(out[i] == kept[i]);
        }
    }
}

/// Rewrites the query of a request that is sent to the canonical origin.
pub fn rewrite_query(
    pairs: &Vec<(String, String)>,
    is_login: bool,
    origin: &str,
    origin_allowed: bool,
) -> (out: Vec<(String, String)>)
    ensures
        pairs_view(out@) == redirect_pairs(pairs_view(pairs@), is_login, origin@, origin_allowed),
{
    let ghost all = pairs_view(pairs@);
    let mut out: Vec<(String, String)> = Vec::new();
    let n: usize = pairs.len();
    let mut i: usize = 0;
    assert(pairs_view(out@) =~= forwarded_pairs(all.subrange(0, 0), is_login));
    while i < n
        invariant
            i <= n,
            n == pairs@.len(),
            all == pairs_view(pairs@),
            pairs_view(out@) == forwarded_pairs(all.subrange(0, i as int), is_login),
        decreases n - i,
    {
        let ghost before = pairs_view(out@);
        let key = pairs[i].0.as_str();
        assert(all.subrange(0, i + 1).drop_last() =~= all.subrange(0, i as int));
        assert(all.subrange(0, i + 1).last() == all[i as int]);
        assert(all[i as int] == (pairs@[i as int].0@, pairs@[i as int].1@));
        if !same_text(key, "redirect_origin") && (!same_text(key, "redirect_path") || is_login) {
            let item = (pairs[i].0.clone(), pairs[i].1.clone());
            out.push(item);
            assert(pairs_view(out@) =~= before.push(all[i as int]));
        }
        i += 1;
    }
    assert(all.subrange(0, n as int) =~= all);
    if is_login && origin_allowed {
        let ghost before = pairs_view(out@);
        out.push(("redirect_origin".to_owned(), origin.to_owned()));
        assert(pairs_view(out@) =~= before.push(("redirect_origin"@, origin@)));
        if !has_key(pairs, "redirect_path") {
            let ghost before = pairs_view(out@);
            out.push(("redirect_path".to_owned(), "/".to_owned()));
            assert(pairs_view(out@) =~= before.push(("redirect_path"@, "/"@)));
        }
    }
    out
}

/// The address on the canonical origin: the same path, and the query where
/// it is not empty.
pub open spec fn location_of(rp_origin: Seq<char>, path: Seq<char>, query: Seq<char>) -> Seq<char> {
    if query.len() == 0 {
        rp_origin + path
    } else {
        rp_origin + path + "?"@ + query
    }
}

/// Puts the redirect address together.
pub fn redirect_location(rp_origin: &str, path: &str, query: &str) -> (r: String)
    ensures
        r@ == location_of(rp_origin@, path@, query@),
{
    let mut url = join_text(rp_origin, path);
    if query.unicode_len() != 0 {
        url.append("?");
        url.append(query);
    }
    url
}

/// What the policy does with a request.
pub enum OriginAction {
    /// Hand the request on unchanged.
    Pass,
    /// Answer with a temporary redirect to this address.
    Redirect(String),
}

/// The pairs of an optional query string.
pub open spec fn pairs_of(query: Option<Seq<char>>) -> Seq<Pair> {
    match query {
        Some(q) => query_pairs(q),
        None => Seq::empty(),
    }
}

/// The policy: the address to redirect to, or `None` where the request
/// passes. A request passes if its path is no ceremony page, if no origin
/// resolves for it, or if it already is on the canonical origin.
pub open spec fn canonical_redirect(
    rp_origin: Seq<char>,
    allowed: Set<Seq<char>>,
    headers: HeaderMap<HeaderValue>,
    path: Seq<char>,
    query: Option<Seq<char>>,
) -> Option<Seq<char>> {
    if !is_canonical_auth_path(path) {
        None
    } else {
        match origin_of_request(headers, fallback_scheme(headers, rp_origin)) {
            None => None,
            Some(origin) => if same_ignoring_case(origin, rp_origin) {
                None
            } else {
                let is_login = route_matches(path, "/login"@);
                let origin_allowed = match host_of_origin(origin) {
                    Some(h) => allowed.contains(h),
                    None => false,
                };
                Some(
                    location_of(
                        rp_origin,
                        path,
                        encoded_query(
                            redirect_pairs(pairs_of(query), is_login, origin, origin_allowed),
                        ),
                    ),
                )
            },
        }
    }
}

/// Content of an action: the address of a redirect.
pub open spec fn action_view(a: OriginAction) -> Option<Seq<char>> {
    match a {
        OriginAction::Pass => None,
        OriginAction::Redirect(url) => Some(url@),
    }
}

/// Decides whether a request is served where it arrived or sent to the
/// canonical origin.
pub fn enforce_canonical_auth_origin(
    state: &AppState,
    headers: &HeaderMap<HeaderValue>,
    path: &str,
    query: Option<&str>,
) -> (action: OriginAction)
    ensures
        action_view(action) == canonical_redirect(
            state.rp_origin@,
            state.allowed_hosts@,
            *headers,
            path@,
            str_of(query),
        ),
{
    let is_login = path_matches(path, "/login");
    if !canonical_auth_path(path) {
        return OriginAction::Pass;
    }
    let rp_origin = state.rp_origin.as_str();
    let fallback = request_fallback_scheme(headers, rp_origin);
    let origin = match request_origin(headers, fallback) {
        Some(o) => o,
        None => {
            return OriginAction::Pass;
        },
    };
    if eq_ignore_ascii_case(origin.as_str(), rp_origin) {
        return OriginAction::Pass;
    }
    let pairs = match query {
        Some(q) => parse_query(q),
        None => Vec::new(),
    };
    assert(pairs_view(pairs@) =~= pairs_of(str_of(query)));
    let origin_allowed = match origin_host(origin.as_str()) {
        Some(h) => state.allowed_hosts.contains(h.as_str()),
        None => false,
    };
    let rewritten = rewrite_query(&pairs, is_login, origin.as_str(), origin_allowed);
    let encoded = encode_query(&rewritten);
    OriginAction::Redirect(redirect_location(rp_origin, path, encoded.as_str()))
}

} // verus!
