use axum::http::{header, HeaderMap, HeaderValue};
use den::accounts::{bootstrap_outcome, UserTable};
use den::api::{
    credential_update, login_begin, login_complete, login_redeem, login_subject, login_target,
    open_session, redirect_start, register_begin, register_complete, register_finish,
    registration_session, registration_subject, verification_failure, CredentialUpdate, LoginTarget,
};
use den::auth::{user_id_from_token, AuthUser};
use den::ceremony::{CeremonyKind, CeremonyStore};
use den::handoff::redirect_complete;
use den::origin::load_allowed_hosts;
use den::state::{AppState, Rejection};

fn state() -> AppState {
    AppState {
        jwt_secret: vec![7u8; 64],
        secure_cookies: true,
        rp_origin: "https://lab.example".to_string(),
        allowed_hosts: load_allowed_hosts("https://lab.example", &["fujin:3000".to_string()]),
    }
}

fn from_host(host: &'static str) -> HeaderMap {
    let mut headers = HeaderMap::new();
    headers.insert(header::HOST, HeaderValue::from_static(host));
    headers
}

#[test]
fn first_registration_end_to_end() {
    let state = state();
    let headers = from_host("lab.example");
    let mut store = CeremonyStore::new();
    let mut users = UserTable::new();

    let subject_a = registration_subject(None, false, Some(" ann ")).ok().unwrap();
    assert!(subject_a.is_new_user);
    assert_eq!(subject_a.user_name, "ann");
    let id_a = subject_a.user_id.clone();
    let challenge_a =
        register_begin(&mut store, subject_a, "laptop".to_string(), "{}".to_string(), 1_000)
            .unwrap();

    let subject_b = registration_subject(None, false, Some("bob")).ok().unwrap();
    let challenge_b =
        register_begin(&mut store, subject_b, "phone".to_string(), "{}".to_string(), 1_001)
            .unwrap();
    assert_ne!(challenge_a, challenge_b);

    let context_a = register_complete(&mut store, &challenge_a, false, 1_010).ok().unwrap();
    assert_eq!(context_a.user_id, id_a);
    assert_eq!(context_a.passkey_name, "laptop");
    let created =
        users.create_user_if_absent(context_a.user_id.clone(), context_a.user_name.clone());
    assert_eq!(bootstrap_outcome(created), Ok(()));
    let outcome = register_finish(&state, &headers, &context_a, created, "{\"cred\":1}".to_string())
        .ok()
        .unwrap();
    assert_eq!(outcome.passkey.user_id, id_a);
    assert_eq!(outcome.passkey.name, "laptop");
    assert_eq!(outcome.passkey.data, "{\"cred\":1}");
    let cookie = outcome.cookie.unwrap();
    assert_eq!(cookie.name, "den_session");
    assert!(cookie.secure);
    assert_eq!(user_id_from_token(&state.jwt_secret, &cookie.value), Ok(id_a.clone()));

    let context_b = register_complete(&mut store, &challenge_b, false, 1_011).ok().unwrap();
    let created =
        users.create_user_if_absent(context_b.user_id.clone(), context_b.user_name.clone());
    let finished = register_finish(&state, &headers, &context_b, created, "{}".to_string());
    assert_eq!(finished.err(), Some(Rejection::Conflict));
    let lost = bootstrap_outcome(created);
    assert_eq!(lost, Err(Rejection::Conflict));
    assert_eq!(lost.err().map(|e| e.status_code()), Some(409));
    assert_eq!(users.user().map(|u| u.name.clone()), Some("ann".to_string()));

    assert_eq!(
        register_complete(&mut store, &challenge_a, false, 1_012).err(),
        Some(Rejection::BadRequest)
    );
}

#[test]
fn registration_subject_cases() {
    let existing = Some(("550E8400-E29B-41D4-A716-446655440000".to_string(), "ann".to_string()));
    assert_eq!(
        registration_subject(existing.clone(), false, None).err(),
        Some(Rejection::Unauthorized)
    );
    let subject = registration_subject(existing, true, Some("ignored")).ok().unwrap();
    assert_eq!(subject.user_id, "550e8400-e29b-41d4-a716-446655440000");
    assert_eq!(subject.user_name, "ann");
    assert!(!subject.is_new_user);
    let corrupt = Some(("not-a-uuid".to_string(), "ann".to_string()));
    assert_eq!(registration_subject(corrupt, true, None).err(), Some(Rejection::Internal));
    assert_eq!(registration_subject(None, false, None).err(), Some(Rejection::BadRequest));
    assert_eq!(
        registration_subject(None, true, Some("   ")).err(),
        Some(Rejection::BadRequest)
    );
    let fresh = registration_subject(None, false, Some("ann")).ok().unwrap();
    assert_eq!(fresh.user_id.len(), 36);
    assert!(uuid::Uuid::parse_str(&fresh.user_id).is_ok());
}

#[test]
fn adding_a_credential_takes_a_session() {
    let mut store = CeremonyStore::new();
    let existing = Some(("550e8400-e29b-41d4-a716-446655440000".to_string(), "ann".to_string()));
    let subject = registration_subject(existing, true, None).ok().unwrap();
    let challenge =
        register_begin(&mut store, subject, "key".to_string(), "{}".to_string(), 0).unwrap();
    assert_eq!(
        register_complete(&mut store, &challenge, false, 1).err(),
        Some(Rejection::Unauthorized)
    );
    assert_eq!(store.len(), 0);

    let existing = Some(("550e8400-e29b-41d4-a716-446655440000".to_string(), "ann".to_string()));
    let subject = registration_subject(existing, true, None).ok().unwrap();
    let challenge =
        register_begin(&mut store, subject, "key".to_string(), "{}".to_string(), 0).unwrap();
    let context = register_complete(&mut store, &challenge, true, 1).ok().unwrap();
    assert!(!context.is_new_user);
    let session = registration_session(&state(), &from_host("lab.example"), &context);
    assert!(session.ok().unwrap().is_none());
}

#[test]
fn registration_expires_after_five_minutes() {
    let mut store = CeremonyStore::new();
    let subject = registration_subject(None, false, Some("ann")).ok().unwrap();
    let challenge =
        register_begin(&mut store, subject, "key".to_string(), "{}".to_string(), 1_000).unwrap();
    assert_eq!(
        register_complete(&mut store, &challenge, false, 1_300).err(),
        Some(Rejection::BadRequest)
    );
    assert!(register_complete(&mut store, &challenge, false, 1_299).is_ok());
}

#[test]
fn login_with_handoff_end_to_end() {
    let state = state();
    let mut store = CeremonyStore::new();

    let target = login_target(&state, Some("http://FUJIN:3000/x"), Some(" /notes ")).ok().unwrap();
    assert_eq!(target.origin.as_deref(), Some("http://fujin:3000"));
    assert_eq!(target.path.as_deref(), Some("/notes"));
    let user_id = login_subject(&vec!["user-1".to_string(), "user-1".to_string()], 2).unwrap();
    let challenge =
        login_begin(&mut store, user_id, target, "{}".to_string(), 1_000).unwrap();

    assert_eq!(
        register_complete(&mut store, &challenge, true, 1_001).err(),
        Some(Rejection::BadRequest)
    );
    let context = login_redeem(&mut store, &challenge, 1_001).ok().unwrap();
    assert_eq!(context.user_id, "user-1");
    assert_eq!(login_redeem(&mut store, &challenge, 1_001).err(), Some(Rejection::BadRequest));

    let grant = login_complete(&state, &from_host("lab.example"), &context).ok().unwrap();
    assert!(grant.cookie.secure);
    assert_eq!(
        user_id_from_token(&state.jwt_secret, &grant.cookie.value),
        Ok("user-1".to_string())
    );
    let url = grant.redirect_url.unwrap();
    let prefix = "http://fujin:3000/api/auth/redirect/complete?token=";
    assert!(url.starts_with(prefix));
    let token = &url[prefix.len()..];

    let redeemed = redirect_complete(&state, &from_host("fujin:3000"), token).ok().unwrap();
    assert_eq!(redeemed.location, "/notes");
    assert!(!redeemed.cookie.secure);
    assert_eq!(
        user_id_from_token(&state.jwt_secret, &redeemed.cookie.value),
        Ok("user-1".to_string())
    );
}

#[test]
fn login_without_handoff_gives_no_redirect() {
    let state = state();
    let mut store = CeremonyStore::new();
    let target = login_target(&state, None, Some("/ignored")).ok().unwrap();
    assert!(target.origin.is_none());
    assert!(target.path.is_none());
    let same = login_target(&state, Some("https://lab.example"), None).ok().unwrap();
    assert!(same.origin.is_none());
    let challenge =
        login_begin(&mut store, "user-1".to_string(), target, "{}".to_string(), 0).unwrap();
    let context = login_redeem(&mut store, &challenge, 1).ok().unwrap();
    let grant = login_complete(&state, &from_host("lab.example"), &context).ok().unwrap();
    assert!(grant.redirect_url.is_none());
}

#[test]
fn login_target_rejects_unlisted_origin() {
    let state = state();
    assert_eq!(
        login_target(&state, Some("https://evil.example"), None).err(),
        Some(Rejection::BadRequest)
    );
    let defaulted = login_target(&state, Some("http://fujin:3000"), None).ok().unwrap();
    assert_eq!(defaulted.path.as_deref(), Some("/"));
    let _unused = LoginTarget { origin: None, path: None };
}

#[test]
fn login_subject_cases() {
    assert_eq!(login_subject(&vec![], 0), Err(Rejection::BadRequest));
    assert_eq!(login_subject(&vec!["u".to_string()], 0), Err(Rejection::Internal));
    assert_eq!(login_subject(&vec!["u".to_string(), "v".to_string()], 1), Ok("u".to_string()));
}

#[test]
fn verifier_outcomes_are_read() {
    assert_eq!(verification_failure(CeremonyKind::Registration), Rejection::BadRequest);
    assert_eq!(verification_failure(CeremonyKind::Authentication), Rejection::Unauthorized);
    assert_eq!(credential_update(None), CredentialUpdate::Skip);
    assert_eq!(credential_update(Some(false)), CredentialUpdate::LastUsed);
    assert_eq!(credential_update(Some(true)), CredentialUpdate::DataAndLastUsed);
}

#[test]
fn open_session_marks_cookie_by_resolved_scheme() {
    let state = state();
    let mut headers = from_host("lab.example");
    assert!(open_session(&state, &headers, "u").ok().unwrap().secure);
    headers.insert("x-forwarded-proto", HeaderValue::from_static("http"));
    assert!(!open_session(&state, &headers, "u").ok().unwrap().secure);
}

#[test]
fn redirect_start_mints_a_redeemable_url() {
    let state = state();
    let auth = AuthUser { user_id: "user-1".to_string() };
    let url = redirect_start(&state, &auth, "http://fujin:3000/", Some("/a\\b")).unwrap();
    let prefix = "http://fujin:3000/api/auth/redirect/complete?token=";
    assert!(url.starts_with(prefix));
    let redeemed =
        redirect_complete(&state, &from_host("fujin:3000"), &url[prefix.len()..]).ok().unwrap();
    assert_eq!(redeemed.location, "/");
    assert_eq!(
        redirect_start(&state, &auth, "https://evil.example", None),
        Err(Rejection::BadRequest)
    );
    let home = redirect_start(&state, &auth, "https://LAB.example", None).unwrap();
    assert!(home.starts_with("https://lab.example/api/auth/redirect/complete?token="));
}

#[test]
fn register_finish_for_an_added_credential_opens_no_session() {
    let mut store = CeremonyStore::new();
    let existing = Some(("550e8400-e29b-41d4-a716-446655440000".to_string(), "ann".to_string()));
    let subject = registration_subject(existing, true, None).ok().unwrap();
    let challenge =
        register_begin(&mut store, subject, "phone".to_string(), "{}".to_string(), 0).unwrap();
    let context = register_complete(&mut store, &challenge, true, 1).ok().unwrap();
    for created in [false, true] {
        let outcome =
            register_finish(&state(), &from_host("lab.example"), &context, created, "d".to_string())
                .ok()
                .unwrap();
        assert!(outcome.cookie.is_none());
        assert_eq!(outcome.passkey.user_id, "550e8400-e29b-41d4-a716-446655440000");
        assert_eq!(outcome.passkey.name, "phone");
        assert_eq!(outcome.passkey.data, "d");
    }
}

#[test]
fn a_ceremony_always_begins_on_an_empty_store() {
    for _ in 0..50 {
        let mut store = CeremonyStore::new();
        let subject = registration_subject(None, false, Some("ann")).ok().unwrap();
        let id = register_begin(&mut store, subject, "k".to_string(), "{}".to_string(), 7);
        assert!(id.is_ok());
        assert_eq!(store.len(), 1);
        let target = LoginTarget { origin: None, path: None };
        let second = login_begin(&mut store, "u".to_string(), target, "{}".to_string(), 7);
        assert!(second.is_ok());
        assert_eq!(store.len(), 2);
    }
}
