//! Static front end: which request paths may be looked up among the
//! exported files, which of them are assets, and which may be cached for
//! good.

use crate::text::{join_text, contains_char, starts_with};
use vstd::prelude::*;
use vstd::string::*;

verus! {

/// `Cache-Control` for files that never change.
pub const CACHE_CONTROL_IMMUTABLE: &'static str = "public, max-age=31536000, immutable";

/// Files below `_next/` carry a hash in their name and never change.
pub open spec fn is_immutable(path: Seq<char>) -> bool {
    "_next/"@.is_prefix_of(path)
}

/// The `Cache-Control` value for a file, if it gets one.
pub fn cache_control_for_path(path: &str) -> (r: Option<&'static str>)
    ensures
        r is Some <==> is_immutable(path@),
        r matches Some(v) ==> v@ == CACHE_CONTROL_IMMUTABLE@,
{
    if starts_with(path, "_next/") {
        Some(CACHE_CONTROL_IMMUTABLE)
    } else {
        None
    }
}

/// A component of `path` starts at `i`: at the front or behind a `/`.
pub open spec fn starts_component(path: Seq<char>, i: int) -> bool {
    0 <= i <= path.len() && (i == 0 || path[i - 1] == '/')
}

/// The component that starts at `i` is `..`.
pub open spec fn parent_at(path: Seq<char>, i: int) -> bool {
    &&& starts_component(path, i)
    &&& i + 2 <= path.len()
    &&& path[i] == '.'
    &&& path[i + 1] == '.'
    &&& (i + 2 == path.len() || path[i + 2] == '/')
}

/// `path` begins with the component `.`.
pub open spec fn leading_dot(path: Seq<char>) -> bool {
    path.len() >= 1 && path[0] == '.' && (path.len() == 1 || path[1] == '/')
}

/// A relative path whose every component is an ordinary name: it is not
/// rooted, does not begin with `.`, and has no component `..`. Empty
/// components and a `.` further in are of no account.
pub open spec fn is_safe_rel(path: Seq<char>) -> bool {
    &&& !(path.len() >= 1 && path[0] == '/')
    &&& !leading_dot(path)
    &&& forall|i: int| 0 <= i <= path.len() ==> !#[trigger] parent_at(path, i)
}

/// Whether `path` stays below the directory it is resolved in.
pub fn is_safe_rel_path(path: &str) -> (b: bool)
    ensures
        b == is_safe_rel(path@),
{
    let n: usize = path.unicode_len();
    if n >= 1 {
        let first = path.get_char(0);
        if first == '/' {
            return false;
        }
        if first == '.' && (n == 1 || path.get_char(1) == '/') {
            return false;
        }
    }
    let mut i: usize = 0;
    while i < n
        invariant
            i <= n,
            n == path@.len(),
            forall|j: int| 0 <= j < i ==> !#[trigger] parent_at(path@, j),
        decreases n - i,
    {
        if (i == 0 || path.get_char(i - 1) == '/') && n - i >= 2 && path.get_char(i) == '.'
            && path.get_char(i + 1) == '.' && (n - i == 2 || path.get_char(i + 2) == '/') {
            assert(parent_at(path@, i as int));
            return false;
        }
        i += 1;
    }
    assert(!parent_at(path@, n as int));
    true
}

/// An asset is a file of the build or anything with a dot in its name; the
/// rest are pages.
pub open spec fn is_asset(path: Seq<char>) -> bool {
    "_next/"@.is_prefix_of(path) || path.contains('.')
}

/// Whether a missing `path` is a missing file rather than an unknown page.
pub fn is_asset_path(path: &str) -> (b: bool)
    ensures
        b == is_asset(path@),
{
    starts_with(path, "_next/") || contains_char(path, '.')
}

/// `path` without its leading slashes.
pub open spec fn without_leading_slashes(path: Seq<char>) -> Seq<char>
    decreases path.len(),
{
    if path.len() > 0 && path.first() == '/' {
        without_leading_slashes(path.drop_first())
    } else {
        path
    }
}

/// Strips the slashes in front of a request path.
pub fn relative_path(path: &str) -> (r: &str)
    ensures
        r@ == without_leading_slashes(path@),
{
    let n: usize = path.unicode_len();
    let mut i: usize = 0;
    assert(path@.subrange(0, n as int) =~= path@);
    while i < n && path.get_char(i) == '/'
        invariant
            i <= n,
            n == path@.len(),
            without_leading_slashes(path@) == without_leading_slashes(
                path@.subrange(i as int, n as int),
            ),
        decreases n - i,
    {
        assert(path@.subrange(i as int, n as int).drop_first() =~= path@.subrange(
            i + 1,
            n as int,
        ));
        i += 1;
    }
    path.substring_char(i, n)
}

/// The request target for `new_path` that keeps the query of the request
/// it stands in for.
pub fn build_rewritten_uri(query: Option<&str>, new_path: &str) -> (r: String)
    ensures
        r@ == match query {
            Some(q) => new_path@ + "?"@ + q@,
            None => new_path@,
        },
{
    match query {
        Some(q) => {
            let mut r = join_text(new_path, "?");
            r.append(q);
            r
        },
        None => new_path.to_owned(),
    }
}

/// What to do with a request for the front end.
pub enum FrontendPlan {
    /// Answer that there is no such thing.
    NotFound,
    /// Look the file up.
    Serve {
        /// The path below the export directory.
        rel_path: String,
        /// Whether a missing file is final, or the not-found page stands in.
        is_asset: bool,
    },
}

/// Content of a plan.
pub open spec fn plan_view(plan: FrontendPlan) -> Option<(Seq<char>, bool)> {
    match plan {
        FrontendPlan::NotFound => None,
        FrontendPlan::Serve { rel_path, is_asset } => Some((rel_path@, is_asset)),
    }
}

/// The plan for a request: only reads are served, and only paths that stay
/// below the export directory.
pub open spec fn plan_for(reads: bool, path: Seq<char>) -> Option<(Seq<char>, bool)> {
    let rel = without_leading_slashes(path);
    if !reads || (rel.len() > 0 && !is_safe_rel(rel)) {
        None
    } else {
        Some((rel, is_asset(rel)))
    }
}

/// Plans the answer to a request, given whether its method is `GET` or
/// `HEAD`, and its path.
pub fn handle_request(reads: bool, path: &str) -> (plan: FrontendPlan)
    ensures
        plan_view(plan) == plan_for(reads, path@),
{
    if !reads {
        return FrontendPlan::NotFound;
    }
    let rel = relative_path(path);
    if rel.unicode_len() != 0 && !is_safe_rel_path(rel) {
        return FrontendPlan::NotFound;
    }
    FrontendPlan::Serve { rel_path: rel.to_owned(), is_asset: is_asset_path(rel) }
}

/// Whether the not-found page stands in for a file that is missing: it
/// does for pages, not for assets.
pub fn needs_fallback(found: bool, is_asset: bool) -> (b: bool)
    ensures
        b == (!found && !is_asset),
{
    !found && !is_asset
}

/// The `Cache-Control` value to put on the answer for `path`: none on a
/// not-found answer, and else what the path calls for.
pub fn maybe_apply_cache_header(path: &str, found: bool) -> (r: Option<&'static str>)
    ensures
        r is Some <==> found && is_immutable(path@),
        r matches Some(v) ==> v@ == CACHE_CONTROL_IMMUTABLE@,
{
    if found {
        cache_control_for_path(path)
    } else {
        None
    }
}

/// The front end as a service.
#[derive(Clone, Copy, Default)]
pub struct FrontendService;

/// The front-end service.
pub fn service() -> (s: FrontendService)
    ensures
        s == FrontendService,
{
    FrontendService
}

} // verus!
