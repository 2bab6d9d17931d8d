//! What each endpoint decides. The endpoints themselves wait on storage and
//! on the credential verifier between these steps; every step here takes
//! what came back and says what happens next.

use crate::auth::{
    create_token, is_fresh_session_token, session_cookie, AuthUser, SessionCookie,
    SESSION_TTL_SECONDS,
};
use crate::accounts::{bootstrap_outcome, bootstrap_result, creates, User};
use crate::ceremony::{
    distinct_ids, expired_row_is_never_redeemed, has_drawn_id, has_id,
    redeem_succeeds_at_most_once, redeems, unexpired, unexpired_members, AuthenticationContext, CeremonyContext, CeremonyKind, CeremonyRow,
    CeremonyStore, RegistrationContext, CEREMONY_TTL_SECONDS,
};
use crate::handoff::{is_fresh_handoff_token, issue_login_redirect_token};
use crate::origin::text_of;
use crate::redirect::{
    complete_url_of, normalize_redirect_origin, normalize_redirect_path,
    normalize_redirect_target_origin, redirect_complete_url, redirect_origin_of,
    redirect_path_of, redirect_target_of, request_secure_cookie, secure_for, str_of,
};
use crate::state::{AppState, Rejection};
use crate::text::{trim, trimmed};
use axum::http::{HeaderMap, HeaderValue};
use vstd::prelude::*;
use vstd::string::*;

verus! {

/// The canonical, hyphenated form of the id that `s` spells, or `None` where
/// `s` spells none.
pub uninterp spec fn uuid_text(s: Seq<char>) -> Option<Seq<char>>;

/// `Uuid::parse_str` followed by `to_string`: reads an id in any of the
/// spellings the `uuid` crate accepts and writes it in the hyphenated one.
#[verifier::external_body]
fn canonical_uuid(s: &str) -> (r: Option<String>)
    ensures
        text_of(r) == uuid_text(s@),
{
    Some(uuid::Uuid::parse_str(s).ok()?.to_string())
}

/// For whom a registration is begun.
pub struct RegistrationSubject {
    pub user_id: String,
    pub user_name: String,
    /// Whether the registration sets up the first user.
    pub is_new_user: bool,
}

/// Settles for whom a registration is begun. Once a user exists, only that
/// user may add a credential, and must be signed in to do so. While none
/// exists, the request names the user to set up, who gets a fresh id.
pub fn registration_subject(
    existing: Option<(String, String)>,
    authenticated: bool,
    requested_name: Option<&str>,
) -> (r: Result<RegistrationSubject, Rejection>)
    ensures
        match existing {
            Some((id, name)) => if !authenticated {
                r == Err::<RegistrationSubject, Rejection>(Rejection::Unauthorized)
            } else {
                match uuid_text(id@) {
                    Some(canonical) => r matches Ok(s) && s.user_id@ == canonical && s.user_name
                        == name && !s.is_new_user,
                    None => r == Err::<RegistrationSubject, Rejection>(Rejection::Internal),
                }
            },
            None => match requested_name {
                Some(n) if trimmed(n@).len() > 0 => r matches Ok(s) && s.user_name@ == trimmed(n@)
                    && s.is_new_user && s.user_id@.len() == 36,
                _ => r == Err::<RegistrationSubject, Rejection>(Rejection::BadRequest),
            },
        },
{
    match existing {
        Some((id, name)) => {
            if !authenticated {
                return Err(Rejection::Unauthorized);
            }
            match canonical_uuid(id.as_str()) {
                Some(user_id) => Ok(
                    RegistrationSubject { user_id, user_name: name, is_new_user: false },
                ),
                None => Err(Rejection::Internal),
            }
        },
        None => {
            let name = match requested_name {
                Some(n) => trim(n),
                None => {
                    return Err(Rejection::BadRequest);
                },
            };
            if name.unicode_len() == 0 {
                return Err(Rejection::BadRequest);
            }
            Ok(
                RegistrationSubject {
                    user_id: crate::ceremony::fresh_id(),
                    user_name: name.to_owned(),
                    is_new_user: true,
                },
            )
        },
    }
}

/// Stores the state of a registration that the verifier has begun, for five
/// minutes from `now`, and gives the challenge id under which to complete
/// it. This fails only where the fresh id is taken, which takes a stored
/// row under an id of the same length.
pub fn register_begin(
    store: &mut CeremonyStore,
    subject: RegistrationSubject,
    passkey_name: String,
    webauthn_state: String,
    now: i64,
) -> (r: Result<String, Rejection>)
    requires
        old(store).wf(),
        now <= i64::MAX - CEREMONY_TTL_SECONDS,
    ensures
        final(store).wf(),
        match r {
            Ok(id) => !has_id(old(store)@, id@) && final(store)@ == old(store)@.push(
                CeremonyRow {
                    challenge_id: id,
                    context: CeremonyContext::Registration(
                        RegistrationContext {
                            webauthn_state,
                            user_id: subject.user_id,
                            user_name: subject.user_name,
                            passkey_name,
                            is_new_user: subject.is_new_user,
                        },
                    ),
                    expires_at: (now + CEREMONY_TTL_SECONDS) as i64,
                },
            ),
            Err(e) => e == Rejection::Internal && final(store)@ == old(store)@,
        },
        r is Err ==> has_drawn_id(old(store)@),
        old(store)@.len() == 0 ==> r is Ok,
{
    let context = CeremonyContext::Registration(
        RegistrationContext {
            webauthn_state,
            user_id: subject.user_id,
            user_name: subject.user_name,
            passkey_name,
            is_new_user: subject.is_new_user,
        },
    );
    store.begin(context, now, CEREMONY_TTL_SECONDS)
}

/// What a redeemed registration comes to: without a row the request is bad;
/// adding a credential to an existing user takes a session.
pub open spec fn registration_of(out: Option<CeremonyContext>, authenticated: bool) -> Result<
    RegistrationContext,
    Rejection,
> {
    match out {
        None => Err(Rejection::BadRequest),
        Some(CeremonyContext::Registration(context)) => if !context.is_new_user && !authenticated {
            Err(Rejection::Unauthorized)
        } else {
            Ok(context)
        },
        Some(CeremonyContext::Authentication(_)) => Err(Rejection::Internal),
    }
}

/// Redeems the registration under `challenge_id` at `now`. The row is used
/// up whether or not the request is then allowed to go on.
pub fn register_complete(
    store: &mut CeremonyStore,
    challenge_id: &str,
    authenticated: bool,
    now: i64,
) -> (r: Result<RegistrationContext, Rejection>)
    requires
        old(store).wf(),
    ensures
        final(store).wf(),
        exists|out: Option<CeremonyContext>| #[trigger]
            redeems(
                old(store)@,
                challenge_id@,
                CeremonyKind::Registration,
                now,
                final(store)@,
                out,
            ) && r == registration_of(out, authenticated),
        r matches Err(e) ==> e == Rejection::BadRequest || e == Rejection::Unauthorized,
{
    let out = store.redeem(challenge_id, CeremonyKind::Registration, now);
    let ghost witness = out;
    let r = match out {
        None => Err(Rejection::BadRequest),
        Some(CeremonyContext::Registration(context)) => {
            if !context.is_new_user && !authenticated {
                Err(Rejection::Unauthorized)
            } else {
                Ok(context)
            }
        },
        Some(CeremonyContext::Authentication(_)) => Err(Rejection::Internal),
    };
    assert(redeems(
        old(store)@,
        challenge_id@,
        CeremonyKind::Registration,
        now,
        store@,
        witness,
    ) && r == registration_of(witness, authenticated));
    r
}

/// How a ceremony that the verifier turned down is answered: a failed
/// registration is a bad request, a failed sign-in is unauthorized.
pub fn verification_failure(kind: CeremonyKind) -> (r: Rejection)
    ensures
        r == match kind {
            CeremonyKind::Registration => Rejection::BadRequest,
            CeremonyKind::Authentication => Rejection::Unauthorized,
        },
{
    match kind {
        CeremonyKind::Registration => Rejection::BadRequest,
        CeremonyKind::Authentication => Rejection::Unauthorized,
    }
}

/// `cookie` carries a fresh session for `user_id`, marked secure as the
/// request calls for.
pub open spec fn is_session_cookie_for(
    cookie: SessionCookie,
    state: AppState,
    headers: HeaderMap<HeaderValue>,
    user_id: Seq<char>,
) -> bool {
    &&& is_fresh_session_token(cookie.value@, state.jwt_secret@, user_id)
    &&& cookie.name@ == crate::auth::cookie_name()
    &&& cookie.path@ == "/"@
    &&& cookie.http_only
    &&& cookie.same_site_strict
    &&& cookie.max_age_seconds == SESSION_TTL_SECONDS
    &&& cookie.secure == secure_for(headers, state.secure_cookies)
}

/// Opens a session for `user_id` on the origin that the request came to.
/// This always succeeds.
pub fn open_session(state: &AppState, headers: &HeaderMap<HeaderValue>, user_id: &str) -> (r:
    Result<SessionCookie, Rejection>)
    ensures
        r matches Ok(cookie) && is_session_cookie_for(cookie, *state, *headers, user_id@),
{
    let secure = request_secure_cookie(headers, state.secure_cookies);
    match create_token(state.jwt_secret.as_slice(), user_id) {
        Ok(token) => Ok(session_cookie(token, secure)),
        Err(_) => Err(Rejection::Internal),
    }
}

/// The session that a completed registration opens: one for the first
/// user, who has just been set up; none for a user who added a credential
/// and is signed in already. This always succeeds.
pub fn registration_session(
    state: &AppState,
    headers: &HeaderMap<HeaderValue>,
    context: &RegistrationContext,
) -> (r: Result<Option<SessionCookie>, Rejection>)
    ensures
        match r {
            Ok(Some(cookie)) => context.is_new_user && is_session_cookie_for(
                cookie,
                *state,
                *headers,
                context.user_id@,
            ),
            Ok(None) => !context.is_new_user,
            Err(_) => false,
        },
{
    if context.is_new_user {
        match open_session(state, headers, context.user_id.as_str()) {
            Ok(cookie) => Ok(Some(cookie)),
            Err(e) => Err(e),
        }
    } else {
        Ok(None)
    }
}

/// Where a sign-in is to be handed off to.
pub struct LoginTarget {
    pub origin: Option<String>,
    pub path: Option<String>,
}

/// Content of a handoff target or its refusal.
pub open spec fn target_view(r: Result<LoginTarget, Rejection>) -> Result<
    (Option<Seq<char>>, Option<Seq<char>>),
    Rejection,
> {
    match r {
        Ok(t) => Ok((text_of(t.origin), text_of(t.path))),
        Err(e) => Err(e),
    }
}

/// The handoff that a sign-in asks for: none for the canonical origin or
/// where none is asked for; else the checked origin with a safe path.
pub open spec fn login_target_of(
    rp_origin: Seq<char>,
    allowed: Set<Seq<char>>,
    origin: Option<Seq<char>>,
    path: Option<Seq<char>>,
) -> Result<(Option<Seq<char>>, Option<Seq<char>>), Rejection> {
    match redirect_origin_of(rp_origin, allowed, origin) {
        Err(e) => Err(e),
        Ok(None) => Ok((None, None)),
        Ok(Some(o)) => Ok((Some(o), Some(redirect_path_of(path)))),
    }
}

/// Checks the handoff that a sign-in asks for, before the ceremony begins.
pub fn login_target(
    state: &AppState,
    redirect_origin: Option<&str>,
    redirect_path: Option<&str>,
) -> (r: Result<LoginTarget, Rejection>)
    ensures
        target_view(r) == login_target_of(
            state.rp_origin@,
            state.allowed_hosts@,
            str_of(redirect_origin),
            str_of(redirect_path),
        ),
{
    match normalize_redirect_origin(state, redirect_origin) {
        Err(e) => Err(e),
        Ok(None) => Ok(LoginTarget { origin: None, path: None }),
        Ok(Some(origin)) => Ok(
            LoginTarget { origin: Some(origin), path: Some(normalize_redirect_path(redirect_path)) },
        ),
    }
}

/// Who signs in: the owner of the first stored credential. Without any
/// credential there is nobody to sign in; with credentials of which none
/// can be read, storage is corrupt.
pub fn login_subject(owners: &Vec<String>, readable: usize) -> (r: Result<String, Rejection>)
    ensures
        match r {
            Ok(user_id) => owners@.len() > 0 && readable > 0 && user_id == owners@[0],
            Err(e) => if owners@.len() == 0 {
                e == Rejection::BadRequest
            } else {
                readable == 0 && e == Rejection::Internal
            },
        },
{
    if owners.len() == 0 {
        return Err(Rejection::BadRequest);
    }
    if readable == 0 {
        return Err(Rejection::Internal);
    }
    Ok(owners[0].clone())
}

/// Stores the state of a sign-in that the verifier has begun, for five
/// minutes from `now`, and gives the challenge id under which to complete
/// it. This fails only where the fresh id is taken, which takes a stored
/// row under an id of the same length.
pub fn login_begin(
    store: &mut CeremonyStore,
    user_id: String,
    target: LoginTarget,
    webauthn_state: String,
    now: i64,
) -> (r: Result<String, Rejection>)
    requires
        old(store).wf(),
        now <= i64::MAX - CEREMONY_TTL_SECONDS,
    ensures
        final(store).wf(),
        match r {
            Ok(id) => !has_id(old(store)@, id@) && final(store)@ == old(store)@.push(
                CeremonyRow {
                    challenge_id: id,
                    context: CeremonyContext::Authentication(
                        AuthenticationContext {
                            webauthn_state,
                            user_id,
                            redirect_origin: target.origin,
                            redirect_path: target.path,
                        },
                    ),
                    expires_at: (now + CEREMONY_TTL_SECONDS) as i64,
                },
            ),
            Err(e) => e == Rejection::Internal && final(store)@ == old(store)@,
        },
        r is Err ==> has_drawn_id(old(store)@),
        old(store)@.len() == 0 ==> r is Ok,
{
    let context = CeremonyContext::Authentication(
        AuthenticationContext {
            webauthn_state,
            user_id,
            redirect_origin: target.origin,
            redirect_path: target.path,
        },
    );
    store.begin(context, now, CEREMONY_TTL_SECONDS)
}

/// What a redeemed sign-in comes to: without a row the request is bad.
pub open spec fn authentication_of(out: Option<CeremonyContext>) -> Result<
    AuthenticationContext,
    Rejection,
> {
    match out {
        None => Err(Rejection::BadRequest),
        Some(CeremonyContext::Authentication(context)) => Ok(context),
        Some(CeremonyContext::Registration(_)) => Err(Rejection::Internal),
    }
}

/// Redeems the sign-in under `challenge_id` at `now`.
pub fn login_redeem(store: &mut CeremonyStore, challenge_id: &str, now: i64) -> (r: Result<
    AuthenticationContext,
    Rejection,
>)
    requires
        old(store).wf(),
    ensures
        final(store).wf(),
        exists|out: Option<CeremonyContext>| #[trigger]
            redeems(
                old(store)@,
                challenge_id@,
                CeremonyKind::Authentication,
                now,
                final(store)@,
                out,
            ) && r == authentication_of(out),
        r matches Err(e) ==> e == Rejection::BadRequest,
{
    let out = store.redeem(challenge_id, CeremonyKind::Authentication, now);
    let ghost witness = out;
    let r = match out {
        None => Err(Rejection::BadRequest),
        Some(CeremonyContext::Authentication(context)) => Ok(context),
        Some(CeremonyContext::Registration(_)) => Err(Rejection::Internal),
    };
    assert(redeems(
        old(store)@,
        challenge_id@,
        CeremonyKind::Authentication,
        now,
        store@,
        witness,
    ) && r == authentication_of(witness));
    r
}

/// What to write back for the credential that was used.
#[derive(Clone, Copy, Debug, PartialEq, Eq, Structural)]
pub enum CredentialUpdate {
    /// This is not the credential that signed in.
    Skip,
    /// Note that it was used.
    LastUsed,
    /// Store its new state and note that it was used.
    DataAndLastUsed,
}

/// Reads the verifier's answer on one stored credential: not the one that
/// signed in, the one but unchanged, or the one with its state changed.
pub fn credential_update(changed: Option<bool>) -> (u: CredentialUpdate)
    ensures
        u == match changed {
            None => CredentialUpdate::Skip,
            Some(false) => CredentialUpdate::LastUsed,
            Some(true) => CredentialUpdate::DataAndLastUsed,
        },
{
    match changed {
        None => CredentialUpdate::Skip,
        Some(false) => CredentialUpdate::LastUsed,
        Some(true) => CredentialUpdate::DataAndLastUsed,
    }
}

/// What a completed sign-in gives the browser.
pub struct LoginGrant {
    /// Session on the origin that the sign-in took place on.
    pub cookie: SessionCookie,
    /// Where to redeem the handoff, if one was asked for.
    pub redirect_url: Option<String>,
}

/// `url` redeems a fresh handoff of `user_id` to `target` and `path`.
pub open spec fn is_handoff_url(
    url: Seq<char>,
    state: AppState,
    user_id: Seq<char>,
    target: Seq<char>,
    path: Seq<char>,
) -> bool {
    exists|token: Seq<char>| #[trigger]
        is_fresh_handoff_token(token, state.jwt_secret@, state.rp_origin@, target, user_id, path)
            && url == complete_url_of(target, token)
}

/// The path of a handoff that was stored with a sign-in.
pub open spec fn stored_path(path: Option<String>) -> Seq<char> {
    match path {
        Some(p) => p@,
        None => "/"@,
    }
}

/// Completes a sign-in that the verifier has accepted: opens a session
/// here, and mints a handoff where the sign-in began with one. This always
/// succeeds.
pub fn login_complete(
    state: &AppState,
    headers: &HeaderMap<HeaderValue>,
    context: &AuthenticationContext,
) -> (r: Result<LoginGrant, Rejection>)
    ensures
        match r {
            Ok(grant) => is_session_cookie_for(grant.cookie, *state, *headers, context.user_id@)
                && match context.redirect_origin {
                Some(target) => grant.redirect_url matches Some(url) && is_handoff_url(
                    url@,
                    *state,
                    context.user_id@,
                    target@,
                    stored_path(context.redirect_path),
                ),
                None => grant.redirect_url is None,
            },
            Err(_) => false,
        },
{
    let cookie = match open_session(state, headers, context.user_id.as_str()) {
        Ok(c) => c,
        Err(e) => {
            return Err(e);
        },
    };
    let redirect_url = match &context.redirect_origin {
        Some(target) => {
            let path: &str = match &context.redirect_path {
                Some(p) => p.as_str(),
                None => "/",
            };
            let token = match issue_login_redirect_token(
                state,
                context.user_id.as_str(),
                target.as_str(),
                path,
            ) {
                Ok(t) => t,
                Err(e) => {
                    return Err(e);
                },
            };
            let url = redirect_complete_url(target.as_str(), token.as_str());
            assert(is_fresh_handoff_token(
                token@,
                state.jwt_secret@,
                state.rp_origin@,
                target@,
                context.user_id@,
                stored_path(context.redirect_path),
            ));
            Some(url)
        },
        None => None,
    };
    Ok(LoginGrant { cookie, redirect_url })
}

/// Starts a handoff for a user who is signed in: checks the target, and
/// gives the address on it that redeems a fresh token.
pub fn redirect_start(
    state: &AppState,
    auth: &AuthUser,
    redirect_origin: &str,
    redirect_path: Option<&str>,
) -> (r: Result<String, Rejection>)
    ensures
        match redirect_target_of(state.rp_origin@, state.allowed_hosts@, redirect_origin@) {
            Err(e) => r == Err::<String, Rejection>(e),
            Ok(target) => r matches Ok(url) && is_handoff_url(
                url@,
                *state,
                auth.user_id@,
                target,
                redirect_path_of(str_of(redirect_path)),
            ),
        },
{
    let target = match normalize_redirect_target_origin(state, redirect_origin) {
        Ok(t) => t,
        Err(e) => {
            return Err(e);
        },
    };
    let path = normalize_redirect_path(redirect_path);
    let token = match issue_login_redirect_token(
        state,
        auth.user_id.as_str(),
        target.as_str(),
        path.as_str(),
    ) {
        Ok(t) => t,
        Err(e) => {
            return Err(e);
        },
    };
    let url = redirect_complete_url(target.as_str(), token.as_str());
    assert(is_fresh_handoff_token(
        token@,
        state.jwt_secret@,
        state.rp_origin@,
        target@,
        auth.user_id@,
        path@,
    ));
    Ok(url)
}

/// The credential row that a completed registration stores.
pub struct NewPasskey {
    pub user_id: String,
    pub name: String,
    /// The verifier's record of the credential, serialized.
    pub data: String,
}

/// What a completed registration leaves behind: the credential to store
/// and, for the first user, the session to open.
pub struct RegistrationOutcome {
    pub passkey: NewPasskey,
    pub cookie: Option<SessionCookie>,
}

/// Whether a registration that the verifier accepted goes on: one that sets
/// up the first user does only if the bootstrap guard created that user;
/// one that adds a credential does not ask the guard.
pub open spec fn guard_result(is_new_user: bool, created: bool) -> Result<(), Rejection> {
    if is_new_user {
        bootstrap_result(created)
    } else {
        Ok(())
    }
}

/// `outcome` is what the registration in `context` leaves behind: its
/// credential under its user and chosen name, and a session for the first
/// user only.
pub open spec fn completes_registration(
    outcome: RegistrationOutcome,
    state: AppState,
    headers: HeaderMap<HeaderValue>,
    context: RegistrationContext,
    passkey_data: Seq<char>,
) -> bool {
    &&& outcome.passkey.user_id@ == context.user_id@
    &&& outcome.passkey.name@ == context.passkey_name@
    &&& outcome.passkey.data@ == passkey_data
    &&& match outcome.cookie {
        Some(cookie) => context.is_new_user && is_session_cookie_for(
            cookie,
            state,
            headers,
            context.user_id@,
        ),
        None => !context.is_new_user,
    }
}

/// Finishes a registration that the verifier has accepted, given the
/// bootstrap guard's answer where the registration sets up the first user
/// (`created` is not read otherwise). A registration that lost the race for
/// the first user ends in a conflict, with nothing to store and no session.
/// Every other gives the credential to store and, for the first user, the
/// session cookie.
pub fn register_finish(
    state: &AppState,
    headers: &HeaderMap<HeaderValue>,
    context: &RegistrationContext,
    created: bool,
    passkey_data: String,
) -> (r: Result<RegistrationOutcome, Rejection>)
    ensures
        match guard_result(context.is_new_user, created) {
            Err(e) => r matches Err(refusal) && refusal == e,
            Ok(_) => r matches Ok(outcome) && completes_registration(
                outcome,
                *state,
                *headers,
                *context,
                passkey_data@,
            ),
        },
{
    if context.is_new_user {
        match bootstrap_outcome(created) {
            Ok(_) => {},
            Err(e) => {
                return Err(e);
            },
        }
    }
    let cookie = match registration_session(state, headers, context) {
        Ok(cookie) => cookie,
        Err(e) => {
            return Err(e);
        },
    };
    let passkey = NewPasskey {
        user_id: context.user_id.clone(),
        name: context.passkey_name.clone(),
        data: passkey_data,
    };
    Ok(RegistrationOutcome { passkey, cookie })
}

/// Of two registrations that race to set up the first user, the one whose
/// guard call comes first goes on and the other ends in a conflict; the
/// user that is left is the winner's.
pub proof fn first_registration_has_one_winner(
    first: User,
    second: User,
    mid: Seq<User>,
    first_created: bool,
    post: Seq<User>,
    second_created: bool,
)
    requires
        creates(Seq::<User>::empty(), first, mid, first_created),
        creates(mid, second, post, second_created),
    ensures
        guard_result(true, first_created) is Ok,
        guard_result(true, second_created) == Err::<(), Rejection>(Rejection::Conflict),
        post == seq![first],
{
}

/// A ceremony is completed at most once. Once a challenge id was redeemed,
/// whatever became of that completion afterwards, every later completion
/// under the id, of a registration or of a sign-in, signed in or not, is a
/// bad request and leaves the store as it is: the answer for an id that
/// never was.
pub proof fn ceremony_is_completed_at_most_once(
    pre: Seq<CeremonyRow>,
    id: Seq<char>,
    first_kind: CeremonyKind,
    first_now: i64,
    mid: Seq<CeremonyRow>,
    first: Option<CeremonyContext>,
    second_kind: CeremonyKind,
    second_now: i64,
    post: Seq<CeremonyRow>,
    second: Option<CeremonyContext>,
    authenticated: bool,
)
    requires
        distinct_ids(pre),
        redeems(pre, id, first_kind, first_now, mid, first),
        redeems(mid, id, second_kind, second_now, post, second),
        first is Some,
    ensures
        post == mid,
        authentication_of(second) == Err::<AuthenticationContext, Rejection>(
            Rejection::BadRequest,
        ),
        registration_of(second, authenticated) == Err::<RegistrationContext, Rejection>(
            Rejection::BadRequest,
        ),
{
    redeem_succeeds_at_most_once(
        pre,
        id,
        first_kind,
        first_now,
        mid,
        first,
        second_kind,
        second_now,
        post,
        second,
    );
}

/// Completing under an id that the store does not hold is a bad request
/// and changes nothing.
pub proof fn unknown_ceremony_is_not_found(
    pre: Seq<CeremonyRow>,
    id: Seq<char>,
    kind: CeremonyKind,
    now: i64,
    post: Seq<CeremonyRow>,
    out: Option<CeremonyContext>,
    authenticated: bool,
)
    requires
        !has_id(pre, id),
        redeems(pre, id, kind, now, post, out),
    ensures
        post == pre,
        authentication_of(out) == Err::<AuthenticationContext, Rejection>(Rejection::BadRequest),
        registration_of(out, authenticated) == Err::<RegistrationContext, Rejection>(
            Rejection::BadRequest,
        ),
{
    if out is Some {
        let i = choose|i: int|
            0 <= i < pre.len() && crate::ceremony::redeemable(#[trigger] pre[i], id, kind, now);
        assert(pre[i].challenge_id@ == id);
    }
}

/// A ceremony that has expired cannot be completed, whether or not a sweep
/// has taken its row away: where every row under the id expires at or
/// before `now`, completing is a bad request and changes nothing, on the
/// store as it is and on the store as any sweep leaves it.
pub proof fn expired_ceremony_is_not_found(
    rows: Seq<CeremonyRow>,
    swept_at: i64,
    id: Seq<char>,
    kind: CeremonyKind,
    now: i64,
    post: Seq<CeremonyRow>,
    out: Option<CeremonyContext>,
    post_swept: Seq<CeremonyRow>,
    out_swept: Option<CeremonyContext>,
    authenticated: bool,
)
    requires
        redeems(rows, id, kind, now, post, out),
        redeems(unexpired(rows, swept_at), id, kind, now, post_swept, out_swept),
        forall|i: int|
            0 <= i < rows.len() && (#[trigger] rows[i]).challenge_id@ == id ==> rows[i].expires_at
                <= now,
    ensures
        post == rows,
        post_swept == unexpired(rows, swept_at),
        authentication_of(out) == Err::<AuthenticationContext, Rejection>(Rejection::BadRequest),
        authentication_of(out_swept) == Err::<AuthenticationContext, Rejection>(
            Rejection::BadRequest,
        ),
        registration_of(out, authenticated) == Err::<RegistrationContext, Rejection>(
            Rejection::BadRequest,
        ),
        registration_of(out_swept, authenticated) == Err::<RegistrationContext, Rejection>(
            Rejection::BadRequest,
        ),
{
    let swept = unexpired(rows, swept_at);
    expired_row_is_never_redeemed(rows, id, kind, now, post, out);
    unexpired_members(rows, swept_at);
    assert forall|j: int| 0 <= j < swept.len() && (#[trigger] swept[j]).challenge_id@
        == id implies swept[j].expires_at <= now by {
        assert(rows.contains(swept[j]));
        let k = choose|k: int| 0 <= k < rows.len() && rows[k] == swept[j];
        assert(rows[k].challenge_id@ == id);
    }
    expired_row_is_never_redeemed(swept, id, kind, now, post_swept, out_swept);
}

} // verus!
