//! Handoff tokens: short-lived proof that the canonical origin has just
//! signed a user in and lets one other origin open a session for them.
//!
//! A token is bound to the origin that issued it, to the origin that may
//! redeem it, and to a minute of time. All checks are made on every token;
//! none makes up for another.

use crate::auth::{
    create_token, is_fresh_session_token, session_cookie, SessionCookie, SESSION_TTL_SECONDS,
};
use crate::clock::{unix_now, CLOCK_BOUND};
use crate::origin::{
    fallback_scheme, host_of_origin, origin_host, origin_of_request, request_fallback_scheme,
    request_origin, text_of,
};
use crate::redirect::{normalize_redirect_path, redirect_path_of, safe_path, str_of};
use crate::state::{AppState, Rejection};
use crate::text::{eq_ignore_ascii_case, same_ignoring_case, starts_with};
use axum::http::{HeaderMap, HeaderValue};
use jsonwebtoken::errors::Error;
use vstd::prelude::*;
use vstd::string::*;

verus! {

/// How long a handoff token is good for, in seconds.
pub const HANDOFF_TTL_SECONDS: i64 = 60;

/// Claims of a handoff token.
pub struct LoginRedirectClaims {
    /// Origin that issued the token: the canonical origin.
    pub iss: String,
    /// Origin that may redeem it.
    pub aud: String,
    /// The user's id.
    pub sub: String,
    /// Where on the redeeming origin the user is sent.
    pub path: String,
    pub iat: i64,
    pub exp: i64,
}

/// Mathematical content of [`LoginRedirectClaims`].
pub struct HandoffView {
    pub iss: Seq<char>,
    pub aud: Seq<char>,
    pub sub: Seq<char>,
    pub path: Seq<char>,
    pub iat: i64,
    pub exp: i64,
}

impl View for LoginRedirectClaims {
    type V = HandoffView;

    open spec fn view(&self) -> HandoffView {
        HandoffView {
            iss: self.iss@,
            aud: self.aud@,
            sub: self.sub@,
            path: self.path@,
            iat: self.iat,
            exp: self.exp,
        }
    }
}

/// The claims found in a handoff token whose signature and expiry were
/// accepted. A claim that is absent, or not of the expected type, is `None`.
pub struct RawRedirectClaims {
    pub iss: Option<String>,
    pub aud: Option<String>,
    pub sub: Option<String>,
    pub path: Option<String>,
    pub iat: Option<i64>,
    pub exp: Option<i64>,
}

/// Mathematical content of [`RawRedirectClaims`].
pub struct RawRedirectClaimsView {
    pub iss: Option<Seq<char>>,
    pub aud: Option<Seq<char>>,
    pub sub: Option<Seq<char>>,
    pub path: Option<Seq<char>>,
    pub iat: Option<i64>,
    pub exp: Option<i64>,
}

impl View for RawRedirectClaims {
    type V = RawRedirectClaimsView;

    open spec fn view(&self) -> RawRedirectClaimsView {
        RawRedirectClaimsView {
            iss: text_of(self.iss),
            aud: text_of(self.aud),
            sub: text_of(self.sub),
            path: text_of(self.path),
            iat: self.iat,
            exp: self.exp,
        }
    }
}

/// What a token made of `claims` carries: each of the six, present.
pub open spec fn present(claims: HandoffView) -> RawRedirectClaimsView {
    RawRedirectClaimsView {
        iss: Some(claims.iss),
        aud: Some(claims.aud),
        sub: Some(claims.sub),
        path: Some(claims.path),
        iat: Some(claims.iat),
        exp: Some(claims.exp),
    }
}

/// What `token` claims as a handoff under `secret`: the six claims of its
/// payload, where `token` is a well-formed token whose HS256 signature is
/// good under `secret`, and `None` for every other text. The moment at
/// which one asks plays no part in it.
pub uninterp spec fn signed_handoff_claims(secret: Seq<u8>, token: Seq<char>) -> Option<
    RawRedirectClaimsView,
>;

/// The handoff token for the given secret and claims.
pub uninterp spec fn handoff_token(
    secret: Seq<u8>,
    iss: Seq<char>,
    aud: Seq<char>,
    sub: Seq<char>,
    path: Seq<char>,
    iat: i64,
    exp: i64,
) -> Seq<char>;

/// `jsonwebtoken::encode` with the default header (HS256) and an HMAC key
/// made of `secret`, on the six claims of a handoff. With such a key and
/// header, and claims that are four texts and two integers, the crate has
/// nothing to fail on. The token it gives verifies under the same secret,
/// since verifying an HMAC signature is signing again and comparing, and
/// it carries the claims it was made of.
#[verifier::external_body]
fn encode_handoff(claims: &LoginRedirectClaims, secret: &[u8]) -> (r: Result<String, Error>)
    ensures
        r is Ok,
        r matches Ok(t) ==> signed_handoff_claims(secret@, t@) == Some(present(claims@)),
        r matches Ok(t) ==> t@ == handoff_token(
            secret@,
            claims.iss@,
            claims.aud@,
            claims.sub@,
            claims.path@,
            claims.iat,
            claims.exp,
        ),
{
    let mut map = serde_json::Map::new();
    map.insert("iss".to_owned(), serde_json::Value::from(claims.iss.as_str()));
    map.insert("aud".to_owned(), serde_json::Value::from(claims.aud.as_str()));
    map.insert("sub".to_owned(), serde_json::Value::from(claims.sub.as_str()));
    map.insert("path".to_owned(), serde_json::Value::from(claims.path.as_str()));
    map.insert("iat".to_owned(), serde_json::Value::from(claims.iat));
    map.insert("exp".to_owned(), serde_json::Value::from(claims.exp));
    let key = jsonwebtoken::EncodingKey::from_secret(secret);
    jsonwebtoken::encode(&jsonwebtoken::Header::default(), &map, &key)
}

/// `jsonwebtoken::decode` with the default validation but for the audience,
/// which is checked here against the request, and an HMAC key made of
/// `secret`. Whether a token is accepted depends on the moment of the call,
/// so acceptance is not promised of any token. What is claimed holds
/// whenever it comes: the signature is checked before anything is accepted,
/// and the claims handed out are read from the token's payload.
#[verifier::external_body]
fn decode_handoff(token: &str, secret: &[u8]) -> (r: Result<RawRedirectClaims, Error>)
    ensures
        r matches Ok(raw) ==> signed_handoff_claims(secret@, token@) == Some(raw@),
{
    let key = jsonwebtoken::DecodingKey::from_secret(secret);
    let mut validation = jsonwebtoken::Validation::default();
    validation.validate_aud = false;
    let claims = jsonwebtoken::decode::<serde_json::Value>(token, &key, &validation)?.claims;
    Ok(
        RawRedirectClaims {
            iss: claims["iss"].as_str().map(str::to_owned),
            aud: claims["aud"].as_str().map(str::to_owned),
            sub: claims["sub"].as_str().map(str::to_owned),
            path: claims["path"].as_str().map(str::to_owned),
            iat: claims["iat"].as_i64(),
            exp: claims["exp"].as_i64(),
        },
    )
}

/// Claims of a handoff issued at `now`.
pub fn handoff_claims(
    rp_origin: &str,
    user_id: &str,
    target_origin: &str,
    target_path: &str,
    now: i64,
) -> (claims: LoginRedirectClaims)
    requires
        now <= i64::MAX - HANDOFF_TTL_SECONDS,
    ensures
        claims@ == (HandoffView {
            iss: rp_origin@,
            aud: target_origin@,
            sub: user_id@,
            path: target_path@,
            iat: now,
            exp: (now + HANDOFF_TTL_SECONDS) as i64,
        }),
{
    LoginRedirectClaims {
        iss: rp_origin.to_owned(),
        aud: target_origin.to_owned(),
        sub: user_id.to_owned(),
        path: target_path.to_owned(),
        iat: now,
        exp: now + HANDOFF_TTL_SECONDS,
    }
}

/// The claims of a handoff issued at `now`.
pub open spec fn claims_at(
    iss: Seq<char>,
    aud: Seq<char>,
    sub: Seq<char>,
    path: Seq<char>,
    now: i64,
) -> HandoffView {
    HandoffView { iss, aud, sub, path, iat: now, exp: (now + HANDOFF_TTL_SECONDS) as i64 }
}

/// The handoff token that carries `claims`.
pub open spec fn token_of(secret: Seq<u8>, claims: HandoffView) -> Seq<char> {
    handoff_token(
        secret,
        claims.iss,
        claims.aud,
        claims.sub,
        claims.path,
        claims.iat,
        claims.exp,
    )
}

/// `token` is a handoff token with the given issuer, audience, subject and
/// path, signed with `secret`, that expires a minute after it was issued;
/// under `secret` it carries just these claims.
pub open spec fn is_fresh_handoff_token(
    token: Seq<char>,
    secret: Seq<u8>,
    iss: Seq<char>,
    aud: Seq<char>,
    sub: Seq<char>,
    path: Seq<char>,
) -> bool {
    exists|now: i64|
        -CLOCK_BOUND <= now <= CLOCK_BOUND && token == #[trigger] token_of(
            secret,
            claims_at(iss, aud, sub, path, now),
        ) && carried_handoff(secret, token) == Some(claims_at(iss, aud, sub, path, now))
}

/// What becomes of the signer's answer: a failure to sign is the service's
/// fault.
pub fn issued_or_error(encoded: Result<String, Error>) -> (r: Result<String, Rejection>)
    ensures
        match encoded {
            Ok(t) => r == Ok::<String, Rejection>(t),
            Err(_) => r == Err::<String, Rejection>(Rejection::Internal),
        },
{
    match encoded {
        Ok(t) => Ok(t),
        Err(_) => Err(Rejection::Internal),
    }
}

/// Issues the handoff token that lets `target_origin` open a session for
/// `user_id` from `now` for a minute. Under the service's secret the token
/// carries just the claims it was issued with.
pub fn issue_login_redirect_token_at(
    state: &AppState,
    user_id: &str,
    target_origin: &str,
    target_path: &str,
    now: i64,
) -> (r: Result<String, Rejection>)
    requires
        now <= i64::MAX - HANDOFF_TTL_SECONDS,
    ensures
        r matches Ok(t) && t@ == token_of(
            state.jwt_secret@,
            claims_at(state.rp_origin@, target_origin@, user_id@, target_path@, now),
        ) && carried_handoff(state.jwt_secret@, t@) == Some(
            claims_at(state.rp_origin@, target_origin@, user_id@, target_path@, now),
        ),
{
    let claims = handoff_claims(state.rp_origin.as_str(), user_id, target_origin, target_path, now);
    issued_or_error(encode_handoff(&claims, state.jwt_secret.as_slice()))
}

/// Issues a handoff token that lets `target_origin` open a session for
/// `user_id` within the next minute. Issuing always succeeds.
pub fn issue_login_redirect_token(
    state: &AppState,
    user_id: &str,
    target_origin: &str,
    target_path: &str,
) -> (r: Result<String, Rejection>)
    ensures
        r matches Ok(t) && is_fresh_handoff_token(
            t@,
            state.jwt_secret@,
            state.rp_origin@,
            target_origin@,
            user_id@,
            target_path@,
        ),
{
    let now = unix_now();
    let r = issue_login_redirect_token_at(state, user_id, target_origin, target_path, now);
    proof {
        let claims = claims_at(state.rp_origin@, target_origin@, user_id@, target_path@, now);
        assert(r.unwrap()@ == token_of(state.jwt_secret@, claims));
    }
    r
}

/// The claims of a handoff, where all six are present.
pub open spec fn claims_in(raw: RawRedirectClaimsView) -> Option<HandoffView> {
    if raw.iss is Some && raw.aud is Some && raw.sub is Some && raw.path is Some && raw.iat is Some
        && raw.exp is Some {
        Some(
            HandoffView {
                iss: raw.iss.unwrap(),
                aud: raw.aud.unwrap(),
                sub: raw.sub.unwrap(),
                path: raw.path.unwrap(),
                iat: raw.iat.unwrap(),
                exp: raw.exp.unwrap(),
            },
        )
    } else {
        None
    }
}

/// The handoff that `token` carries under `secret`, where it carries all
/// six claims.
pub open spec fn carried_handoff(secret: Seq<u8>, token: Seq<char>) -> Option<HandoffView> {
    match signed_handoff_claims(secret, token) {
        Some(raw) => claims_in(raw),
        None => None,
    }
}

/// The checks on claims whose signature and expiry were accepted: the issuer
/// is the canonical origin, the audience is the origin that the request
/// arrived at, and the audience's host is on the allow-list. A request whose
/// origin does not resolve is a bad request; every other failure is
/// unauthorized.
pub open spec fn claims_outcome(
    rp_origin: Seq<char>,
    allowed: Set<Seq<char>>,
    claims: HandoffView,
    observed: Option<Seq<char>>,
) -> Result<HandoffView, Rejection> {
    if !same_ignoring_case(claims.iss, rp_origin) {
        Err(Rejection::Unauthorized)
    } else {
        match observed {
            None => Err(Rejection::BadRequest),
            Some(origin) => if !same_ignoring_case(claims.aud, origin) {
                Err(Rejection::Unauthorized)
            } else {
                match host_of_origin(claims.aud) {
                    None => Err(Rejection::Unauthorized),
                    Some(host) => if allowed.contains(host) {
                        Ok(claims)
                    } else {
                        Err(Rejection::Unauthorized)
                    },
                }
            },
        }
    }
}

/// The outcome of redeeming a handoff token, from the verifier's answer.
pub open spec fn handoff_outcome(
    rp_origin: Seq<char>,
    allowed: Set<Seq<char>>,
    decoded: Result<RawRedirectClaims, Error>,
    observed: Option<Seq<char>>,
) -> Result<HandoffView, Rejection> {
    match decoded {
        Err(_) => Err(Rejection::Unauthorized),
        Ok(raw) => match claims_in(raw@) {
            None => Err(Rejection::Unauthorized),
            Some(claims) => claims_outcome(rp_origin, allowed, claims, observed),
        },
    }
}

/// Content of checked claims or their refusal.
pub open spec fn checked_view(r: Result<LoginRedirectClaims, Rejection>) -> Result<
    HandoffView,
    Rejection,
> {
    match r {
        Ok(c) => Ok(c@),
        Err(e) => Err(e),
    }
}

/// Collects the six claims; none may be missing.
pub fn complete_claims(raw: RawRedirectClaims) -> (r: Option<LoginRedirectClaims>)
    ensures
        match r {
            Some(c) => claims_in(raw@) == Some(c@),
            None => claims_in(raw@) is None,
        },
{
    match (raw.iss, raw.aud, raw.sub, raw.path, raw.iat, raw.exp) {
        (Some(iss), Some(aud), Some(sub), Some(path), Some(iat), Some(exp)) => Some(
            LoginRedirectClaims { iss, aud, sub, path, iat, exp },
        ),
        _ => None,
    }
}

/// Checks the claims of a handoff token against this service and against
/// the origin at which the token is redeemed.
pub fn verify_handoff(
    state: &AppState,
    decoded: Result<RawRedirectClaims, Error>,
    observed_origin: Option<&str>,
) -> (r: Result<LoginRedirectClaims, Rejection>)
    ensures
        checked_view(r) == handoff_outcome(
            state.rp_origin@,
            state.allowed_hosts@,
            decoded,
            str_of(observed_origin),
        ),
{
    let raw = match decoded {
        Ok(raw) => raw,
        Err(_) => {
            return Err(Rejection::Unauthorized);
        },
    };
    let claims = match complete_claims(raw) {
        Some(c) => c,
        None => {
            return Err(Rejection::Unauthorized);
        },
    };
    if !eq_ignore_ascii_case(claims.iss.as_str(), state.rp_origin.as_str()) {
        return Err(Rejection::Unauthorized);
    }
    let origin = match observed_origin {
        Some(o) => o,
        None => {
            return Err(Rejection::BadRequest);
        },
    };
    if !eq_ignore_ascii_case(claims.aud.as_str(), origin) {
        return Err(Rejection::Unauthorized);
    }
    let aud_host = match origin_host(claims.aud.as_str()) {
        Some(h) => h,
        None => {
            return Err(Rejection::Unauthorized);
        },
    };
    if !state.allowed_hosts.contains(aud_host.as_str()) {
        return Err(Rejection::Unauthorized);
    }
    Ok(claims)
}

/// A token whose audience is not the origin at which it is redeemed is
/// unauthorized, whatever else it claims and however well it is signed.
pub proof fn audience_mismatch_is_unauthorized(
    rp_origin: Seq<char>,
    allowed: Set<Seq<char>>,
    claims: HandoffView,
    observed: Seq<char>,
)
    requires
        !same_ignoring_case(claims.aud, observed),
    ensures
        claims_outcome(rp_origin, allowed, claims, Some(observed)) == Err::<
            HandoffView,
            Rejection,
        >(Rejection::Unauthorized),
{
}

/// A token whose audience has no host on the allow-list is refused, even
/// where issuer, audience and signature are all in order.
pub proof fn unlisted_audience_is_refused(
    rp_origin: Seq<char>,
    allowed: Set<Seq<char>>,
    claims: HandoffView,
    observed: Option<Seq<char>>,
)
    requires
        match host_of_origin(claims.aud) {
            Some(host) => !allowed.contains(host),
            None => true,
        },
    ensures
        claims_outcome(rp_origin, allowed, claims, observed) is Err,
        observed is Some ==> claims_outcome(rp_origin, allowed, claims, observed) == Err::<
            HandoffView,
            Rejection,
        >(Rejection::Unauthorized),
{
}

/// A token is accepted only if all three checks hold.
pub proof fn accepted_handoff_passed_every_check(
    rp_origin: Seq<char>,
    allowed: Set<Seq<char>>,
    claims: HandoffView,
    observed: Option<Seq<char>>,
)
    requires
        claims_outcome(rp_origin, allowed, claims, observed) is Ok,
    ensures
        same_ignoring_case(claims.iss, rp_origin),
        observed is Some && same_ignoring_case(claims.aud, observed.unwrap()),
        host_of_origin(claims.aud) is Some && allowed.contains(host_of_origin(claims.aud).unwrap()),
        claims_outcome(rp_origin, allowed, claims, observed) == Ok::<HandoffView, Rejection>(
            claims,
        ),
{
}

/// What a redeemed handoff gives the browser: a session cookie for the
/// origin it is on, and the path to go to.
pub struct SessionGrant {
    pub cookie: SessionCookie,
    pub location: String,
}

/// `grant` opens a session for the subject of `claims` on `origin`.
pub open spec fn grants_session(
    grant: SessionGrant,
    secret: Seq<u8>,
    claims: HandoffView,
    origin: Seq<char>,
) -> bool {
    &&& is_fresh_session_token(grant.cookie.value@, secret, claims.sub)
    &&& grant.cookie.name@ == crate::auth::cookie_name()
    &&& grant.cookie.path@ == "/"@
    &&& grant.cookie.http_only
    &&& grant.cookie.same_site_strict
    &&& grant.cookie.max_age_seconds == SESSION_TTL_SECONDS
    &&& grant.cookie.secure == "https://"@.is_prefix_of(origin)
    &&& grant.location@ == redirect_path_of(Some(claims.path))
}

/// Redeems a handoff from the verifier's answer and the origin resolved for
/// the request: refuses as [`handoff_outcome`] says, and else opens a
/// session for the token's subject on that origin.
pub fn complete_handoff(
    state: &AppState,
    decoded: Result<RawRedirectClaims, Error>,
    observed_origin: Option<&str>,
) -> (r: Result<SessionGrant, Rejection>)
    ensures
        match handoff_outcome(
            state.rp_origin@,
            state.allowed_hosts@,
            decoded,
            str_of(observed_origin),
        ) {
            Err(e) => r == Err::<SessionGrant, Rejection>(e),
            Ok(claims) => r matches Ok(grant) && observed_origin is Some && grants_session(
                grant,
                state.jwt_secret@,
                claims,
                observed_origin.unwrap()@,
            ),
        },
        r matches Ok(grant) ==> safe_path(grant.location@),
{
    let claims = match verify_handoff(state, decoded, observed_origin) {
        Ok(c) => c,
        Err(e) => {
            return Err(e);
        },
    };
    let origin = match observed_origin {
        Some(o) => o,
        None => {
            return Err(Rejection::BadRequest);
        },
    };
    let secure = starts_with(origin, "https://");
    let token = match create_token(state.jwt_secret.as_slice(), claims.sub.as_str()) {
        Ok(t) => t,
        Err(_) => {
            return Err(Rejection::Internal);
        },
    };
    let cookie = session_cookie(token, secure);
    let location = normalize_redirect_path(Some(claims.path.as_str()));
    Ok(SessionGrant { cookie, location })
}

/// The origin resolved for a request to this service.
pub open spec fn resolved_origin(headers: HeaderMap<HeaderValue>, rp_origin: Seq<char>) -> Option<
    Seq<char>,
> {
    origin_of_request(headers, fallback_scheme(headers, rp_origin))
}

/// What the checks make of `token` on a request with these headers, were
/// its expiry no matter: the claims it carries under the service's secret
/// where they pass every check, and else the refusal. A token that has
/// expired is unauthorized whatever this says.
pub open spec fn token_outcome(
    state: AppState,
    headers: HeaderMap<HeaderValue>,
    token: Seq<char>,
) -> Result<HandoffView, Rejection> {
    match carried_handoff(state.jwt_secret@, token) {
        None => Err(Rejection::Unauthorized),
        Some(claims) => claims_outcome(
            state.rp_origin@,
            state.allowed_hosts@,
            claims,
            resolved_origin(headers, state.rp_origin@),
        ),
    }
}

/// `grant` redeems `token` for a request with these headers: the token
/// carries a handoff under the service's secret, its claims pass every
/// check against the origin resolved for the request, and the grant opens
/// the session of the token's subject on that origin.
pub open spec fn redeems_token(
    grant: SessionGrant,
    state: AppState,
    headers: HeaderMap<HeaderValue>,
    token: Seq<char>,
) -> bool {
    match (
        carried_handoff(state.jwt_secret@, token),
        resolved_origin(headers, state.rp_origin@),
    ) {
        (Some(claims), Some(origin)) => claims_outcome(
            state.rp_origin@,
            state.allowed_hosts@,
            claims,
            Some(origin),
        ) == Ok::<HandoffView, Rejection>(claims) && grants_session(
            grant,
            state.jwt_secret@,
            claims,
            origin,
        ),
        _ => false,
    }
}

/// Redeems a handoff token at the origin that the request arrived at. On
/// success the browser gets a session cookie for that origin and is sent to
/// a safe path on it.
///
/// A session is granted only for the claims that the token carries under
/// the service's secret, only where they pass every check against the
/// origin resolved for the request, and it is the session of the token's
/// subject. A text that carries no handoff under the secret is
/// unauthorized, and claims that fail a check are refused: with the
/// refusal that the checks give, or as unauthorized where the token has
/// expired as well. Whether a token that passes is still accepted rests
/// with the clock.
pub fn redirect_complete(state: &AppState, headers: &HeaderMap<HeaderValue>, token: &str) -> (r:
    Result<SessionGrant, Rejection>)
    ensures
        match r {
            Ok(grant) => redeems_token(grant, *state, *headers, token@) && safe_path(
                grant.location@,
            ),
            Err(e) => e == Rejection::Unauthorized || token_outcome(*state, *headers, token@)
                == Err::<HandoffView, Rejection>(e),
        },
        token_outcome(*state, *headers, token@) is Err ==> r is Err,
        carried_handoff(state.jwt_secret@, token@) is None ==> r == Err::<
            SessionGrant,
            Rejection,
        >(Rejection::Unauthorized),
        carried_handoff(state.jwt_secret@, token@) matches Some(claims) && !same_ignoring_case(
            claims.iss,
            state.rp_origin@,
        ) ==> r == Err::<SessionGrant, Rejection>(Rejection::Unauthorized),
{
    let decoded = decode_handoff(token, state.jwt_secret.as_slice());
    let fallback = request_fallback_scheme(headers, state.rp_origin.as_str());
    let origin = request_origin(headers, fallback);
    let observed: Option<&str> = match &origin {
        Some(o) => Some(o.as_str()),
        None => None,
    };
    complete_handoff(state, decoded, observed)
}

} // verus!
