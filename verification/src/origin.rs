//! Origin resolver and host allow-list.
//!
//! Origins come from request headers, which a proxy may have rewritten, and
//! from configuration. URL syntax itself is left to the `url` crate; what is
//! decided on the parsed pieces is decided here.

use crate::text::{
    before_first, contains_char, decimal, eq_ignore_ascii_case, find_char, find_text,
    first_field, index_of_text, join_text, lowercase, port_text, same_ignoring_case, same_text,
    starts_with, to_ascii_lowercase, trim, trimmed,
};
use axum::http::{HeaderMap, HeaderValue};
use vstd::hash_set::StringHashSet;
use vstd::prelude::*;
use vstd::string::*;

verus! {

#[verifier::external_type_specification]
#[verifier::external_body]
#[verifier::reject_recursive_types(T)]
pub struct ExHeaderMap<T>(HeaderMap<T>);

#[verifier::external_type_specification]
#[verifier::external_body]
pub struct ExHeaderValue(HeaderValue);

/// What a header map gives as text: for each header name, in any ASCII case,
/// the first value stored under it, where that value is made of visible
/// ASCII characters only.
pub uninterp spec fn header_texts(headers: HeaderMap<HeaderValue>) -> Map<Seq<char>, Seq<char>>;

/// `HeaderMap::get` followed by `HeaderValue::to_str`: the first value under
/// `name` as text, or nothing when the header is absent or its first value is
/// not visible ASCII.
#[verifier::external_body]
fn header_text<'a>(headers: &'a HeaderMap<HeaderValue>, name: &str) -> (r: Option<&'a str>)
    ensures
        r is Some <==> header_texts(*headers).contains_key(name@),
        r matches Some(v) ==> v@ == header_texts(*headers)[name@],
{
    headers.get(name)?.to_str().ok()
}

/// The pieces of a parsed URL that origin decisions read.
pub struct UrlParts {
    pub scheme: String,
    pub host: Option<String>,
    pub port: Option<u16>,
    pub username: String,
    pub password: Option<String>,
    /// ASCII serialization of the URL's origin.
    pub origin: String,
}

/// Mathematical content of [`UrlParts`].
pub struct UrlPartsView {
    pub scheme: Seq<char>,
    pub host: Option<Seq<char>>,
    pub port: Option<u16>,
    pub username: Seq<char>,
    pub password: Option<Seq<char>>,
    pub origin: Seq<char>,
}

/// Content of an optional text.
pub open spec fn text_of(o: Option<String>) -> Option<Seq<char>> {
    match o {
        Some(s) => Some(s@),
        None => None,
    }
}

impl View for UrlParts {
    type V = UrlPartsView;

    open spec fn view(&self) -> UrlPartsView {
        UrlPartsView {
            scheme: self.scheme@,
            host: text_of(self.host),
            port: self.port,
            username: self.username@,
            password: text_of(self.password),
            origin: self.origin@,
        }
    }
}

/// The pieces that the `url` crate parses `input` into, or `None` where it
/// rejects `input` as a URL.
pub uninterp spec fn url_parts(input: Seq<char>) -> Option<UrlPartsView>;

/// `Url::parse` and the accessors `scheme`, `host_str`, `port`, `username`,
/// `password` and `origin().ascii_serialization()` of the parsed URL.
#[verifier::external_body]
fn parse_url(input: &str) -> (r: Option<UrlParts>)
    ensures
        r is Some <==> url_parts(input@) is Some,
        r matches Some(p) ==> p@ == url_parts(input@).unwrap(),
{
    let url = url::Url::parse(input).ok()?;
    Some(
        UrlParts {
            scheme: url.scheme().to_owned(),
            host: url.host_str().map(str::to_owned),
            port: url.port(),
            username: url.username().to_owned(),
            password: url.password().map(str::to_owned),
            origin: url.origin().ascii_serialization(),
        },
    )
}

/// First entry of a comma-separated header value that is not empty once it
/// is trimmed; nothing when every entry is empty.
pub open spec fn first_entry_of(raw: Seq<char>) -> Option<Seq<char>>
    decreases raw.len(),
{
    let at = find_char(raw, ',');
    let head = trimmed(first_field(raw, ','));
    if head.len() > 0 {
        Some(head)
    } else if at < raw.len() {
        first_entry_of(raw.subrange(at as int + 1, raw.len() as int))
    } else {
        None
    }
}

/// The usable first entry of the header `name`.
pub open spec fn header_first(headers: HeaderMap<HeaderValue>, name: Seq<char>) -> Option<
    Seq<char>,
> {
    if header_texts(headers).contains_key(name) {
        first_entry_of(header_texts(headers)[name])
    } else {
        None
    }
}

/// Host that a request names: the forwarded host where a proxy gave one,
/// else the `Host` header.
pub open spec fn host_of_request(headers: HeaderMap<HeaderValue>) -> Option<Seq<char>> {
    match header_first(headers, "x-forwarded-host"@) {
        Some(h) => Some(h),
        None => header_first(headers, "host"@),
    }
}

/// Scheme, `://` and host.
pub open spec fn joined_origin(scheme: Seq<char>, host: Seq<char>) -> Seq<char> {
    scheme + "://"@ + host
}

/// Origin that a request was made to, as far as its headers tell.
pub open spec fn origin_of_request(headers: HeaderMap<HeaderValue>, fallback: Seq<char>) -> Option<
    Seq<char>,
> {
    let scheme = match header_first(headers, "x-forwarded-proto"@) {
        Some(p) => p,
        None => fallback,
    };
    match host_of_request(headers) {
        Some(h) => Some(joined_origin(scheme, h)),
        None => None,
    }
}

/// The origin that parsed pieces stand for, where they are acceptable: the
/// scheme is `http` or `https`, a host is present and no credentials are
/// embedded.
pub open spec fn origin_of_parts(p: UrlPartsView) -> Option<Seq<char>> {
    if (p.scheme == "http"@ || p.scheme == "https"@) && p.host is Some && p.username.len() == 0
        && p.password is None {
        Some(p.origin)
    } else {
        None
    }
}

/// Canonical form of an origin string.
pub open spec fn normalized_origin(origin: Seq<char>) -> Option<Seq<char>> {
    match url_parts(origin) {
        Some(p) => origin_of_parts(p),
        None => None,
    }
}

/// Allow-list key of parsed pieces: the host in lower case, followed by `:`
/// and the port where the URL carries one.
pub open spec fn host_key(p: UrlPartsView) -> Option<Seq<char>> {
    match p.host {
        None => None,
        Some(h) => Some(
            match p.port {
                Some(port) => lowercase(h) + ":"@ + decimal(port as nat),
                None => lowercase(h),
            },
        ),
    }
}

/// Allow-list key of an origin string.
pub open spec fn host_of_origin(origin: Seq<char>) -> Option<Seq<char>> {
    match normalized_origin(origin) {
        None => None,
        Some(o) => match url_parts(o) {
            None => None,
            Some(p) => host_key(p),
        },
    }
}

/// `s` holds a character that starts a path, a query or a fragment.
pub open spec fn has_delimiter(s: Seq<char>) -> bool {
    s.contains('/') || s.contains('?') || s.contains('#')
}

/// Allow-list key of a configured entry, which is a bare host or a full
/// origin. An entry with a path, a query or a fragment has none: in a bare
/// host no delimiter may stand, in a full origin none but the `://` behind
/// its scheme.
pub open spec fn normalized_host(candidate: Seq<char>) -> Option<Seq<char>> {
    let c = trimmed(candidate);
    let at = find_text(c, "://"@);
    if c.len() == 0 {
        None
    } else if at + "://"@.len() <= c.len() {
        if has_delimiter(c.subrange(0, at as int)) || has_delimiter(
            c.subrange(at as int + "://"@.len(), c.len() as int),
        ) {
            None
        } else {
            host_of_origin(c)
        }
    } else if has_delimiter(c) {
        None
    } else {
        match url_parts("http://"@ + c) {
            None => None,
            Some(p) => host_key(p),
        }
    }
}

/// Scheme of the canonical origin as far as its text shows it.
pub open spec fn scheme_of_canonical(rp_origin: Seq<char>) -> Seq<char> {
    if "https://"@.is_prefix_of(rp_origin) {
        "https"@
    } else {
        "http"@
    }
}

/// Scheme to assume for a request that names none: the canonical origin's
/// scheme for a request to the canonical host, or where either host is
/// unknown; plain `http` for any other host.
pub open spec fn fallback_for(
    rp_origin: Seq<char>,
    rp_host: Option<Seq<char>>,
    request_host: Option<Seq<char>>,
) -> Seq<char> {
    match (rp_host, request_host) {
        (Some(a), Some(b)) => if same_ignoring_case(b, a) {
            scheme_of_canonical(rp_origin)
        } else {
            "http"@
        },
        _ => scheme_of_canonical(rp_origin),
    }
}

/// Allow-list key of the host that a request names.
pub open spec fn host_key_of_request(headers: HeaderMap<HeaderValue>) -> Option<Seq<char>> {
    match host_of_request(headers) {
        Some(h) => normalized_host(h),
        None => None,
    }
}

/// Fallback scheme of a request with the given headers.
pub open spec fn fallback_scheme(headers: HeaderMap<HeaderValue>, rp_origin: Seq<char>) -> Seq<char> {
    fallback_for(rp_origin, host_of_origin(rp_origin), host_key_of_request(headers))
}

/// First usable entry of a comma-separated header value: the first that is
/// not empty once it is trimmed.
pub fn first_entry(raw: &str) -> (r: Option<&str>)
    ensures
        r is Some <==> first_entry_of(raw@) is Some,
        r matches Some(v) ==> Some(v@) == first_entry_of(raw@),
{
    let mut rest: &str = raw;
    loop
        invariant
            first_entry_of(raw@) == first_entry_of(rest@),
        decreases rest@.len(),
    {
        let head = before_first(rest, ',');
        let v = trim(head);
        if v.unicode_len() > 0 {
            return Some(v);
        }
        let n: usize = rest.unicode_len();
        let k: usize = head.unicode_len();
        if k >= n {
            return None;
        }
        rest = rest.substring_char(k + 1, n);
    }
}

fn header_value_first<'a>(headers: &'a HeaderMap<HeaderValue>, name: &str) -> (r: Option<&'a str>)
    ensures
        r is Some <==> header_first(*headers, name@) is Some,
        r matches Some(v) ==> Some(v@) == header_first(*headers, name@),
{
    match header_text(headers, name) {
        Some(raw) => first_entry(raw),
        None => None,
    }
}

/// The host that the request names, preferring the one a proxy forwarded.
pub fn request_host(headers: &HeaderMap<HeaderValue>) -> (r: Option<String>)
    ensures
        text_of(r) == host_of_request(*headers),
{
    match header_value_first(headers, "x-forwarded-host") {
        Some(h) => Some(h.to_owned()),
        None => match header_value_first(headers, "host") {
            Some(h) => Some(h.to_owned()),
            None => None,
        },
    }
}

/// Puts a scheme and a host together.
pub fn join_origin(scheme: &str, host: &str) -> (r: String)
    ensures
        r@ == joined_origin(scheme@, host@),
{
    let mut r = join_text(scheme, "://");
    r.append(host);
    r
}

/// Best-effort origin of a request: the forwarded scheme, or
/// `fallback_scheme` where none was forwarded, with the request's host.
/// Nothing where no usable host is named.
pub fn request_origin(headers: &HeaderMap<HeaderValue>, fallback_scheme: &str) -> (r: Option<String>)
    ensures
        text_of(r) == origin_of_request(*headers, fallback_scheme@),
{
    let proto = match header_value_first(headers, "x-forwarded-proto") {
        Some(p) => p,
        None => fallback_scheme,
    };
    match request_host(headers) {
        Some(host) => Some(join_origin(proto, host.as_str())),
        None => None,
    }
}

/// Decides on parsed pieces whether they stand for an acceptable origin.
pub fn origin_from_parts(parts: &UrlParts) -> (r: Option<String>)
    ensures
        text_of(r) == origin_of_parts(parts@),
{
    if !same_text(parts.scheme.as_str(), "http") && !same_text(parts.scheme.as_str(), "https") {
        return None;
    }
    if parts.host.is_none() {
        return None;
    }
    if parts.username.as_str().unicode_len() != 0 || parts.password.is_some() {
        return None;
    }
    Some(parts.origin.clone())
}

/// Canonical form of an origin: its scheme, host and, where it is not the
/// scheme's default, port. Rejects what is no URL, any scheme but `http` and
/// `https`, a URL without host and one with embedded credentials.
pub fn normalize_origin(origin: &str) -> (r: Option<String>)
    ensures
        text_of(r) == normalized_origin(origin@),
{
    match parse_url(origin) {
        Some(parts) => origin_from_parts(&parts),
        None => None,
    }
}

/// The allow-list key of parsed pieces.
pub fn host_with_port(parts: &UrlParts) -> (r: Option<String>)
    ensures
        text_of(r) == host_key(parts@),
{
    match &parts.host {
        None => None,
        Some(h) => {
            let mut key = to_ascii_lowercase(h.as_str());
            match parts.port {
                Some(port) => {
                    key.append(":");
                    let digits = port_text(port);
                    key.append(digits.as_str());
                },
                None => {},
            }
            Some(key)
        },
    }
}

/// The allow-list key of an origin: its host in lower case, with the port
/// where the canonical form keeps one.
pub fn origin_host(origin: &str) -> (r: Option<String>)
    ensures
        text_of(r) == host_of_origin(origin@),
{
    match normalize_origin(origin) {
        None => None,
        Some(o) => match parse_url(o.as_str()) {
            None => None,
            Some(parts) => host_with_port(&parts),
        },
    }
}

/// Whether `s` holds a character that starts a path, a query or a fragment.
pub fn contains_delimiter(s: &str) -> (b: bool)
    ensures
        b == has_delimiter(s@),
{
    contains_char(s, '/') || contains_char(s, '?') || contains_char(s, '#')
}

/// The allow-list key of a configured entry.
pub fn normalize_host(candidate: &str) -> (r: Option<String>)
    ensures
        text_of(r) == normalized_host(candidate@),
{
    let candidate = trim(candidate);
    let n: usize = candidate.unicode_len();
    if n == 0 {
        return None;
    }
    let at: usize = index_of_text(candidate, "://");
    let m: usize = "://".unicode_len();
    if m <= n && at <= n - m {
        if contains_delimiter(candidate.substring_char(0, at)) || contains_delimiter(
            candidate.substring_char(at + m, n),
        ) {
            return None;
        }
        return origin_host(candidate);
    }
    if contains_delimiter(candidate) {
        return None;
    }
    let with_scheme = join_text("http://", candidate);
    match parse_url(with_scheme.as_str()) {
        None => None,
        Some(parts) => host_with_port(&parts),
    }
}

/// Chooses the fallback scheme from the canonical origin, its allow-list key
/// and the key of the host that the request names.
pub fn choose_fallback_scheme(
    rp_origin: &str,
    rp_host: Option<&str>,
    request_host: Option<&str>,
) -> (r: &'static str)
    ensures
        r@ == fallback_for(
            rp_origin@,
            match rp_host {
                Some(h) => Some(h@),
                None => None,
            },
            match request_host {
                Some(h) => Some(h@),
                None => None,
            },
        ),
{
    let rp_fallback: &'static str = if starts_with(rp_origin, "https://") {
        "https"
    } else {
        "http"
    };
    match (rp_host, request_host) {
        (Some(a), Some(b)) => if eq_ignore_ascii_case(b, a) {
            rp_fallback
        } else {
            "http"
        },
        _ => rp_fallback,
    }
}

/// Scheme to assume for a request whose proxy forwarded none. A request to
/// the canonical host gets the canonical origin's scheme, so that a proxy
/// cannot downgrade it; any other host gets `http`.
pub fn request_fallback_scheme(headers: &HeaderMap<HeaderValue>, rp_origin: &str) -> (r: &'static str)
    ensures
        r@ == fallback_scheme(*headers, rp_origin@),
{
    let rp_host = origin_host(rp_origin);
    let request_key = match request_host(headers) {
        Some(h) => normalize_host(h.as_str()),
        None => None,
    };
    let a: Option<&str> = match &rp_host {
        Some(h) => Some(h.as_str()),
        None => None,
    };
    let b: Option<&str> = match &request_key {
        Some(h) => Some(h.as_str()),
        None => None,
    };
    choose_fallback_scheme(rp_origin, a, b)
}

/// The hosts that may receive a handoff: a set of allow-list keys, fixed once
/// the service has started.
pub struct AllowList {
    hosts: StringHashSet,
}

impl View for AllowList {
    type V = Set<Seq<char>>;

    closed spec fn view(&self) -> Set<Seq<char>> {
        self.hosts@
    }
}

impl AllowList {
    /// A list that allows no host.
    pub fn new() -> (r: Self)
        ensures
            r@ == Set::<Seq<char>>::empty(),
    {
        AllowList { hosts: StringHashSet::new() }
    }

    /// Adds a key; adding one that is present changes nothing.
    pub fn insert(&mut self, host: String)
        ensures
            final(self)@ == old(self)@.insert(host@),
    {
        self.hosts.insert(host);
    }

    /// Whether `host` is an allowed key. The comparison is exact: keys are
    /// kept in lower case.
    pub fn contains(&self, host: &str) -> (b: bool)
        ensures
            b == self@.contains(host@),
    {
        self.hosts.contains(host)
    }

    /// Whether no host is allowed.
    pub fn is_empty(&self) -> (b: bool)
        ensures
            b == self@.is_empty(),
    {
        self.hosts.is_empty()
    }
}

/// `key` is allowed by the canonical origin or by one of the first `n`
/// configured entries.
pub open spec fn listed(rp_origin: Seq<char>, configured: Seq<String>, n: int, key: Seq<char>) -> bool {
    host_of_origin(rp_origin) == Some(key) || exists|i: int|
        0 <= i < n && i < configured.len() && #[trigger] normalized_host(configured[i]@) == Some(
            key,
        )
}

/// The allow-list that a canonical origin and the configured entries give.
pub open spec fn allowed_hosts_of(rp_origin: Seq<char>, configured: Seq<String>) -> Set<Seq<char>> {
    Set::new(|key: Seq<char>| listed(rp_origin, configured, configured.len() as int, key))
}

/// Builds the allow-list: the canonical origin's own host, and the key of
/// every configured entry that has one. Entries without a key are left out.
pub fn load_allowed_hosts(rp_origin: &str, configured_hosts: &[String]) -> (hosts: AllowList)
    ensures
        hosts@ == allowed_hosts_of(rp_origin@, configured_hosts@),
{
    let mut hosts = AllowList::new();
    match origin_host(rp_origin) {
        Some(host) => {
            hosts.insert(host);
        },
        None => {},
    }
    let n: usize = configured_hosts.len();
    let mut i: usize = 0;
    while i < n
        invariant
            i <= n,
            n == configured_hosts@.len(),
            forall|key: Seq<char>|
                hosts@.contains(key) <==> listed(rp_origin@, configured_hosts@, i as int, key),
        decreases n - i,
    {
        let ghost before = hosts@;
        let candidate = normalize_host(configured_hosts[i].as_str());
        match candidate {
            Some(normalized) => {
                hosts.insert(normalized);
            },
            None => {},
        }
        proof {
            let added = normalized_host(configured_hosts@[i as int]@);
            assert forall|key: Seq<char>|
                hosts@.contains(key) <==> listed(
                    rp_origin@,
                    configured_hosts@,
                    i + 1,
                    key,
                ) by {
                if listed(rp_origin@, configured_hosts@, i + 1, key) && host_of_origin(rp_origin@)
                    != Some(key) {
                    let j = choose|j: int|
                        0 <= j < i + 1 && j < configured_hosts@.len() && #[trigger] normalized_host(
                            configured_hosts@[j]@,
                        ) == Some(key);
                    if j < i {
                        assert(listed(rp_origin@, configured_hosts@, i as int, key));
                    }
                }
                if before.contains(key) {
                    assert(listed(rp_origin@, configured_hosts@, i as int, key));
                }
                if added == Some(key) {
                    assert(normalized_host(configured_hosts@[i as int]@) == Some(key));
                }
            }
        }
        i += 1;
    }
    assert(hosts@ =~= allowed_hosts_of(rp_origin@, configured_hosts@));
    hosts
}

} // verus!
