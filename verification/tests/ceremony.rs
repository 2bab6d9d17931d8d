use den::ceremony::{
    AuthenticationContext, CeremonyContext, CeremonyKind, CeremonyStore, RegistrationContext,
    CEREMONY_TTL_SECONDS,
};
use den::state::Rejection;

fn registration(user: &str) -> CeremonyContext {
    CeremonyContext::Registration(RegistrationContext {
        webauthn_state: "{}".to_string(),
        user_id: user.to_string(),
        user_name: "name".to_string(),
        passkey_name: "key".to_string(),
        is_new_user: true,
    })
}

fn authentication(user: &str) -> CeremonyContext {
    CeremonyContext::Authentication(AuthenticationContext {
        webauthn_state: "{}".to_string(),
        user_id: user.to_string(),
        redirect_origin: None,
        redirect_path: None,
    })
}

fn user_of(context: Option<CeremonyContext>) -> Option<String> {
    match context {
        Some(CeremonyContext::Registration(c)) => Some(c.user_id),
        Some(CeremonyContext::Authentication(c)) => Some(c.user_id),
        None => None,
    }
}

#[test]
fn redeem_succeeds_at_most_once() {
    let mut store = CeremonyStore::new();
    assert!(store.insert("c1".to_string(), registration("u1"), 1_300));
    assert_eq!(
        user_of(store.redeem("c1", CeremonyKind::Registration, 1_000)),
        Some("u1".to_string())
    );
    assert_eq!(user_of(store.redeem("c1", CeremonyKind::Registration, 1_000)), None);
    assert_eq!(user_of(store.redeem("c1", CeremonyKind::Authentication, 1_001)), None);
    assert_eq!(store.len(), 0);
}

#[test]
fn expired_row_is_not_redeemed_before_or_after_sweep() {
    let mut store = CeremonyStore::new();
    assert!(store.insert("old".to_string(), registration("u1"), 1_000));
    assert_eq!(user_of(store.redeem("old", CeremonyKind::Registration, 1_000)), None);
    assert_eq!(user_of(store.redeem("old", CeremonyKind::Registration, 2_000)), None);
    assert_eq!(store.len(), 1);
    assert_eq!(
        user_of(store.redeem("old", CeremonyKind::Registration, 999)),
        Some("u1".to_string())
    );

    let mut swept = CeremonyStore::new();
    assert!(swept.insert("old".to_string(), registration("u1"), 1_000));
    swept.sweep_expired(2_000);
    assert_eq!(swept.len(), 0);
    assert_eq!(user_of(swept.redeem("old", CeremonyKind::Registration, 2_000)), None);
}

#[test]
fn redeem_checks_the_kind() {
    let mut store = CeremonyStore::new();
    assert!(store.insert("c1".to_string(), authentication("u1"), 1_300));
    assert_eq!(user_of(store.redeem("c1", CeremonyKind::Registration, 1_000)), None);
    assert!(store.contains("c1"));
    assert_eq!(
        user_of(store.redeem("c1", CeremonyKind::Authentication, 1_000)),
        Some("u1".to_string())
    );
    assert!(!store.contains("c1"));
    assert_eq!(authentication("u").kind(), CeremonyKind::Authentication);
    assert_eq!(registration("u").kind(), CeremonyKind::Registration);
}

#[test]
fn redeem_of_unknown_id_changes_nothing() {
    let mut store = CeremonyStore::new();
    assert!(store.insert("c1".to_string(), registration("u1"), 1_300));
    assert_eq!(user_of(store.redeem("c2", CeremonyKind::Registration, 1_000)), None);
    assert_eq!(store.len(), 1);
}

#[test]
fn insert_refuses_a_taken_id() {
    let mut store = CeremonyStore::new();
    assert!(store.insert("c1".to_string(), registration("u1"), 1_300));
    assert!(!store.insert("c1".to_string(), registration("u2"), 1_300));
    assert_eq!(store.len(), 1);
    assert_eq!(
        user_of(store.redeem("c1", CeremonyKind::Registration, 0)),
        Some("u1".to_string())
    );
}

#[test]
fn sweep_keeps_rows_that_have_not_expired() {
    let mut store = CeremonyStore::new();
    assert!(store.insert("a".to_string(), registration("ua"), 100));
    assert!(store.insert("b".to_string(), registration("ub"), 200));
    assert!(store.insert("c".to_string(), registration("uc"), 50));
    assert!(store.insert("d".to_string(), registration("ud"), 150));
    store.sweep_expired(150);
    assert_eq!(store.len(), 2);
    assert!(!store.contains("a"));
    assert!(store.contains("b"));
    assert!(!store.contains("c"));
    assert!(store.contains("d"));
    assert_eq!(user_of(store.redeem("d", CeremonyKind::Registration, 150)), None);
    assert_eq!(
        user_of(store.redeem("b", CeremonyKind::Registration, 150)),
        Some("ub".to_string())
    );
}

#[test]
fn begin_gives_fresh_ids_and_five_minutes() {
    let mut store = CeremonyStore::new();
    let first = store.begin(registration("u1"), 1_000, CEREMONY_TTL_SECONDS).unwrap();
    let second = store.begin(registration("u2"), 1_000, CEREMONY_TTL_SECONDS).unwrap();
    assert_eq!(CEREMONY_TTL_SECONDS, 300);
    assert_eq!(first.chars().count(), 36);
    assert_eq!(second.chars().count(), 36);
    assert_ne!(first, second);
    assert_eq!(store.len(), 2);
    assert_eq!(user_of(store.redeem(&first, CeremonyKind::Registration, 1_300)), None);
    assert_eq!(
        user_of(store.redeem(&first, CeremonyKind::Registration, 1_299)),
        Some("u1".to_string())
    );
    assert_eq!(
        user_of(store.redeem(&second, CeremonyKind::Registration, 1_000)),
        Some("u2".to_string())
    );
}

#[test]
fn rejection_kinds_differ() {
    assert_ne!(Rejection::BadRequest, Rejection::NotFound);
}

#[test]
fn get_reads_a_row_and_leaves_it() {
    let mut store = CeremonyStore::new();
    assert!(store.get("c1").is_none());
    assert!(store.insert("c1".to_string(), registration("u1"), 1_300));
    assert!(store.insert("c2".to_string(), authentication("u2"), 1_400));
    let row = store.get("c2").unwrap();
    assert_eq!(row.challenge_id, "c2");
    assert_eq!(row.expires_at, 1_400);
    assert_eq!(row.context.kind(), CeremonyKind::Authentication);
    assert!(store.get("c3").is_none());
    assert_eq!(store.len(), 2);
    assert_eq!(
        user_of(store.redeem("c2", CeremonyKind::Authentication, 0)),
        Some("u2".to_string())
    );
    assert!(store.get("c2").is_none());
}
