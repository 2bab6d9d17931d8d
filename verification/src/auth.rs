//! Session tokens and the cookie that carries them.
//!
//! A session token is a signed statement of who is signed in and until when.
//! Signing and signature checks are the `jsonwebtoken` crate's; which claims
//! go in, and what is made of the claims that come out, is decided here.

use crate::clock::{unix_now, CLOCK_BOUND};
use crate::origin::text_of;
use crate::state::{AppState, Rejection};
use jsonwebtoken::errors::Error;
use vstd::prelude::*;
use vstd::string::*;

verus! {

#[verifier::external_type_specification]
#[verifier::external_body]
pub struct ExTokenError(Error);

/// How long a session lasts: seven days, in seconds.
pub const SESSION_TTL_SECONDS: i64 = 604_800;

/// Claims of a session token.
#[derive(Debug)]
pub struct Claims {
    /// The user's id.
    pub sub: String,
    /// When the token was issued, in seconds since the epoch.
    pub iat: i64,
    /// When it stops being valid.
    pub exp: i64,
}

/// The claims found in a token whose signature and expiry were accepted.
/// A claim that is absent, or not of the expected type, is `None`.
pub struct RawClaims {
    pub sub: Option<String>,
    pub iat: Option<i64>,
    pub exp: Option<i64>,
}

/// Mathematical content of [`RawClaims`].
pub struct RawClaimsView {
    pub sub: Option<Seq<char>>,
    pub iat: Option<i64>,
    pub exp: Option<i64>,
}

impl View for RawClaims {
    type V = RawClaimsView;

    open spec fn view(&self) -> RawClaimsView {
        RawClaimsView { sub: text_of(self.sub), iat: self.iat, exp: self.exp }
    }
}

/// A signed-in user.
#[derive(Clone)]
pub struct AuthUser {
    pub user_id: String,
}

/// The signed-in user of a request, if it has one.
pub struct MaybeAuthUser(pub Option<AuthUser>);

/// Why no token was made, or why one was turned down.
#[derive(Clone, Copy, Debug, PartialEq, Eq, Structural)]
pub enum TokenError {
    /// Signing failed.
    Signing,
    /// Bad signature, expired, or no token at all.
    Rejected,
    /// Properly signed, but without the claims a token of this kind has.
    Malformed,
}

/// The session cookie's attributes.
#[derive(Debug)]
pub struct SessionCookie {
    pub name: String,
    pub value: String,
    pub path: String,
    pub http_only: bool,
    pub same_site_strict: bool,
    pub max_age_seconds: i64,
    pub secure: bool,
}

/// What a token made of `claims` carries: each of the three, present.
pub open spec fn claims_view(claims: Claims) -> RawClaimsView {
    RawClaimsView { sub: Some(claims.sub@), iat: Some(claims.iat), exp: Some(claims.exp) }
}

/// The session token for the given secret and claims.
pub uninterp spec fn session_token(secret: Seq<u8>, sub: Seq<char>, iat: i64, exp: i64) -> Seq<char>;

/// `jsonwebtoken::encode` with the default header (HS256) and an HMAC key
/// made of `secret`, on the three claims `sub`, `iat` and `exp`. With such
/// a key and header, and claims that are a text and two integers, the
/// crate has nothing to fail on. The token it gives verifies under the
/// same secret, since verifying an HMAC signature is signing again and
/// comparing, and it carries the claims it was made of.
#[verifier::external_body]
fn encode_session(claims: &Claims, secret: &[u8]) -> (r: Result<String, Error>)
    ensures
        r is Ok,
        r matches Ok(t) ==> t@ == session_token(secret@, claims.sub@, claims.iat, claims.exp),
        r matches Ok(t) ==> signed_claims(secret@, t@) == Some(claims_view(*claims)),
{
    let mut map = serde_json::Map::new();
    map.insert("sub".to_owned(), serde_json::Value::from(claims.sub.as_str()));
    map.insert("iat".to_owned(), serde_json::Value::from(claims.iat));
    map.insert("exp".to_owned(), serde_json::Value::from(claims.exp));
    let key = jsonwebtoken::EncodingKey::from_secret(secret);
    jsonwebtoken::encode(&jsonwebtoken::Header::default(), &map, &key)
}

/// What `token` claims under `secret`: the `sub`, `iat` and `exp` of its
/// payload, where `token` is a well-formed token whose HS256 signature is
/// good under `secret`, and `None` for every other text. The moment at
/// which one asks plays no part in it.
pub uninterp spec fn signed_claims(secret: Seq<u8>, token: Seq<char>) -> Option<RawClaimsView>;

/// `jsonwebtoken::decode` with the default validation (HS256, expiry
/// checked against the clock) and an HMAC key made of `secret`. Whether a
/// token is accepted depends on the moment of the call, so acceptance is
/// not promised of any token. What is claimed holds whenever it comes: the
/// signature is checked before anything is accepted, and the claims handed
/// out are read from the token's payload.
#[verifier::external_body]
fn decode_session(token: &str, secret: &[u8]) -> (r: Result<RawClaims, Error>)
    ensures
        r matches Ok(raw) ==> signed_claims(secret@, token@) == Some(raw@),
{
    let key = jsonwebtoken::DecodingKey::from_secret(secret);
    let validation = jsonwebtoken::Validation::default();
    let claims = jsonwebtoken::decode::<serde_json::Value>(token, &key, &validation)?.claims;
    Ok(
        RawClaims {
            sub: claims["sub"].as_str().map(str::to_owned),
            iat: claims["iat"].as_i64(),
            exp: claims["exp"].as_i64(),
        },
    )
}

/// Claims of a session for `user_id` that starts at `now`.
pub fn session_claims(user_id: &str, now: i64) -> (claims: Claims)
    requires
        now <= i64::MAX - SESSION_TTL_SECONDS,
    ensures
        claims.sub@ == user_id@,
        claims.iat == now,
        claims.exp == now + SESSION_TTL_SECONDS,
{
    Claims { sub: user_id.to_owned(), iat: now, exp: now + SESSION_TTL_SECONDS }
}

/// What becomes of the signer's answer.
pub fn signed_or_error(encoded: Result<String, Error>) -> (r: Result<String, TokenError>)
    ensures
        match encoded {
            Ok(t) => r == Ok::<String, TokenError>(t),
            Err(_) => r == Err::<String, TokenError>(TokenError::Signing),
        },
{
    match encoded {
        Ok(t) => Ok(t),
        Err(_) => Err(TokenError::Signing),
    }
}

/// The session token issued to `user_id` at `now`.
pub open spec fn session_token_at(secret: Seq<u8>, user_id: Seq<char>, now: i64) -> Seq<char> {
    session_token(secret, user_id, now, (now + SESSION_TTL_SECONDS) as i64)
}

/// `token` is a session token for `user_id`, signed with `secret`, whose
/// validity starts at some moment and ends seven days later; under
/// `secret` it names `user_id`.
pub open spec fn is_fresh_session_token(token: Seq<char>, secret: Seq<u8>, user_id: Seq<char>) -> bool {
    &&& exists|now: i64|
        -CLOCK_BOUND <= now <= CLOCK_BOUND && token == #[trigger] session_token_at(
            secret,
            user_id,
            now,
        )
    &&& carried_subject(secret, token) == Some(user_id)
}

/// Issues the session token for `user_id` whose validity starts at `now`
/// and ends seven days later. Under `secret` the token names `user_id`.
pub fn create_token_at(secret: &[u8], user_id: &str, now: i64) -> (r: Result<String, TokenError>)
    requires
        now <= i64::MAX - SESSION_TTL_SECONDS,
    ensures
        r matches Ok(t) && t@ == session_token_at(secret@, user_id@, now) && carried_subject(
            secret@,
            t@,
        ) == Some(user_id@),
{
    let claims = session_claims(user_id, now);
    signed_or_error(encode_session(&claims, secret))
}

/// Issues a session token for `user_id`, valid from now for seven days.
/// Issuing always succeeds.
pub fn create_token(secret: &[u8], user_id: &str) -> (r: Result<String, TokenError>)
    ensures
        r matches Ok(t) && is_fresh_session_token(t@, secret@, user_id@),
{
    let now = unix_now();
    let r = create_token_at(secret, user_id, now);
    proof {
        assert(r.unwrap()@ == session_token_at(secret@, user_id@, now));
    }
    r
}

/// The subject that accepted claims name, where they are those of a session.
pub open spec fn subject_of(decoded: Result<RawClaims, Error>) -> Result<Seq<char>, TokenError> {
    match decoded {
        Ok(raw) => if raw.sub is Some && raw.iat is Some && raw.exp is Some {
            Ok(raw.sub.unwrap()@)
        } else {
            Err(TokenError::Malformed)
        },
        Err(_) => Err(TokenError::Rejected),
    }
}

/// Content of a subject or its refusal.
pub open spec fn subject_view(r: Result<String, TokenError>) -> Result<Seq<char>, TokenError> {
    match r {
        Ok(s) => Ok(s@),
        Err(e) => Err(e),
    }
}

/// Reads the user's id from the verifier's answer. A token that was turned
/// down gives `Rejected`; one that lacks a session's claims, `Malformed`.
pub fn session_subject(decoded: Result<RawClaims, Error>) -> (r: Result<String, TokenError>)
    ensures
        subject_view(r) == subject_of(decoded),
{
    match decoded {
        Ok(raw) => {
            if raw.iat.is_none() || raw.exp.is_none() {
                return Err(TokenError::Malformed);
            }
            match raw.sub {
                Some(sub) => Ok(sub),
                None => Err(TokenError::Malformed),
            }
        },
        Err(_) => Err(TokenError::Rejected),
    }
}

/// The user that `token` names under `secret`: the subject it claims, where
/// it claims all that a session token does.
pub open spec fn carried_subject(secret: Seq<u8>, token: Seq<char>) -> Option<Seq<char>> {
    match signed_claims(secret, token) {
        Some(claims) => if claims.sub is Some && claims.iat is Some && claims.exp is Some {
            claims.sub
        } else {
            None
        },
        None => None,
    }
}

/// Verifies a session token and gives the user's id. Signature and expiry
/// are checked; there is no audience to check, since a session token never
/// leaves the origin that set it.
///
/// A user id is given only for a token that names that user under
/// `secret`. A text that claims nothing under `secret` is rejected; one
/// that is signed but lacks a claim of a session is malformed, unless it
/// was rejected for its expiry first. Whether a token that names a user is
/// still accepted rests with the clock.
pub fn user_id_from_token(secret: &[u8], token: &str) -> (r: Result<String, TokenError>)
    ensures
        match r {
            Ok(id) => carried_subject(secret@, token@) == Some(id@),
            Err(e) => e == TokenError::Rejected || (e == TokenError::Malformed && signed_claims(
                secret@,
                token@,
            ) is Some && carried_subject(secret@, token@) is None),
        },
        signed_claims(secret@, token@) is None ==> r == Err::<String, TokenError>(
            TokenError::Rejected,
        ),
{
    session_subject(decode_session(token, secret))
}

/// The name of the session cookie.
pub open spec fn cookie_name() -> Seq<char> {
    "den_session"@
}

/// The cookie that carries a session token: for the whole site, hidden from
/// scripts, never sent across sites, kept as long as the token is valid.
pub fn session_cookie(token: String, secure: bool) -> (c: SessionCookie)
    ensures
        c.name@ == cookie_name(),
        c.value == token,
        c.path@ == "/"@,
        c.http_only,
        c.same_site_strict,
        c.max_age_seconds == SESSION_TTL_SECONDS,
        c.secure == secure,
{
    SessionCookie {
        name: "den_session".to_owned(),
        value: token,
        path: "/".to_owned(),
        http_only: true,
        same_site_strict: true,
        max_age_seconds: SESSION_TTL_SECONDS,
        secure,
    }
}

/// The cookie that ends a session: the same name and path, no value, and no
/// time left to live.
pub fn logout() -> (c: SessionCookie)
    ensures
        c.name@ == cookie_name(),
        c.value@ == ""@,
        c.path@ == "/"@,
        !c.http_only,
        !c.same_site_strict,
        c.max_age_seconds == 0,
        !c.secure,
{
    SessionCookie {
        name: "den_session".to_owned(),
        value: "".to_owned(),
        path: "/".to_owned(),
        http_only: false,
        same_site_strict: false,
        max_age_seconds: 0,
        secure: false,
    }
}

/// Who a verified subject signs in, or the refusal of the request.
pub open spec fn user_of(subject: Result<String, TokenError>) -> Result<Seq<char>, Rejection> {
    match subject {
        Ok(id) => Ok(id@),
        Err(_) => Err(Rejection::Unauthorized),
    }
}

/// Content of a sign-in or its refusal.
pub open spec fn user_view(r: Result<AuthUser, Rejection>) -> Result<Seq<char>, Rejection> {
    match r {
        Ok(u) => Ok(u.user_id@),
        Err(e) => Err(e),
    }
}

impl AuthUser {
    /// Turns the outcome of verifying a session token into a signed-in
    /// user; every failure is the same to the client.
    pub fn from_subject(subject: Result<String, TokenError>) -> (r: Result<AuthUser, Rejection>)
        ensures
            user_view(r) == user_of(subject),
    {
        match subject {
            Ok(user_id) => Ok(AuthUser { user_id }),
            Err(_) => Err(Rejection::Unauthorized),
        }
    }

    /// The signed-in user of a request, from the value of its session
    /// cookie. Without a cookie, and with a token that does not verify, the
    /// request is unauthorized.
    pub fn from_request_parts(cookie: Option<&str>, state: &AppState) -> (r: Result<
        AuthUser,
        Rejection,
    >)
        ensures
            match r {
                Ok(user) => cookie matches Some(token) && carried_subject(
                    state.jwt_secret@,
                    token@,
                ) == Some(user.user_id@),
                Err(e) => e == Rejection::Unauthorized,
            },
            cookie is None ==> r is Err,
            cookie matches Some(token) && carried_subject(state.jwt_secret@, token@) is None
                ==> r is Err,
    {
        match cookie {
            None => Err(Rejection::Unauthorized),
            Some(token) => AuthUser::from_subject(
                user_id_from_token(state.jwt_secret.as_slice(), token),
            ),
        }
    }
}

impl MaybeAuthUser {
    /// The signed-in user where there is one; never a refusal. A user is
    /// given only for a cookie whose token names that user under the
    /// service's secret; without a cookie, and with one that names nobody,
    /// there is none.
    pub fn from_request_parts(cookie: Option<&str>, state: &AppState) -> (r: MaybeAuthUser)
        ensures
            r.0 matches Some(user) ==> (cookie matches Some(token) && carried_subject(
                state.jwt_secret@,
                token@,
            ) == Some(user.user_id@)),
            cookie is None ==> r.0 is None,
            cookie matches Some(token) && carried_subject(state.jwt_secret@, token@) is None
                ==> r.0 is None,
    {
        match AuthUser::from_request_parts(cookie, state) {
            Ok(user) => MaybeAuthUser(Some(user)),
            Err(_) => MaybeAuthUser(None),
        }
    }
}

} // verus!
