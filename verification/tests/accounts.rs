use den::accounts::{
    bootstrap_outcome, delete_outcome, init_jwt_secret, rename_outcome, PasskeyRecord,
    PasskeyTable, UserTable,
};
use den::state::Rejection;

fn record(id: i64, user: &str) -> PasskeyRecord {
    PasskeyRecord {
        id,
        user_id: user.to_string(),
        name: format!("key {}", id),
        data: "{}".to_string(),
        created: "2024-01-01 00:00:00".to_string(),
        last_used: None,
    }
}

#[test]
fn first_user_wins_and_second_conflicts() {
    let mut users = UserTable::new();
    assert!(users.user().is_none());
    let first = users.create_user_if_absent("id-1".to_string(), "ann".to_string());
    let second = users.create_user_if_absent("id-2".to_string(), "bob".to_string());
    assert!(first);
    assert!(!second);
    assert_eq!(bootstrap_outcome(first), Ok(()));
    assert_eq!(bootstrap_outcome(second), Err(Rejection::Conflict));
    let user = users.user().unwrap();
    assert_eq!(user.id, "id-1");
    assert_eq!(user.name, "ann");
}

#[test]
fn deleting_the_sole_credential_is_rejected() {
    let mut table = PasskeyTable::new();
    assert!(table.insert(record(1, "u1")));
    assert_eq!(table.delete(1, "u1"), Err(Rejection::BadRequest));
    assert_eq!(table.count_for("u1"), 1);
    assert_eq!(Rejection::BadRequest.status_code(), 400);
}

#[test]
fn deleting_one_of_two_leaves_one() {
    let mut table = PasskeyTable::new();
    assert!(table.insert(record(1, "u1")));
    assert!(table.insert(record(2, "u1")));
    assert_eq!(table.delete(1, "u1"), Ok(()));
    assert_eq!(table.count_for("u1"), 1);
    assert_eq!(table.len(), 1);
    assert_eq!(table.delete(2, "u1"), Err(Rejection::BadRequest));
    assert_eq!(table.delete(1, "u1"), Err(Rejection::NotFound));
}

#[test]
fn delete_is_scoped_to_the_owner() {
    let mut table = PasskeyTable::new();
    assert!(table.insert(record(1, "u1")));
    assert!(table.insert(record(2, "u1")));
    assert!(table.insert(record(3, "u2")));
    assert!(!table.insert(record(3, "u1")));
    assert_eq!(table.delete(3, "u1"), Err(Rejection::NotFound));
    assert_eq!(table.delete(1, "u2"), Err(Rejection::NotFound));
    assert_eq!(table.delete(9, "u1"), Err(Rejection::NotFound));
    assert_eq!(table.delete(3, "u2"), Err(Rejection::BadRequest));
    assert_eq!(table.count_for("u1"), 2);
    assert_eq!(table.count_for("u2"), 1);
    assert_eq!(table.count_for("u3"), 0);
}

#[test]
fn storage_outcomes_are_read_as_statuses() {
    assert_eq!(delete_outcome(1, false), Ok(()));
    assert_eq!(delete_outcome(0, true), Err(Rejection::BadRequest));
    assert_eq!(delete_outcome(0, false), Err(Rejection::NotFound));
    assert_eq!(rename_outcome(0), Err(Rejection::NotFound));
    assert_eq!(rename_outcome(1), Ok(()));
}

#[test]
fn signing_secret_is_kept_or_generated() {
    let kept = init_jwt_secret(Some(vec![1, 2, 3]));
    assert_eq!(kept.secret, vec![1, 2, 3]);
    assert!(!kept.is_new);
    let fresh = init_jwt_secret(None);
    let other = init_jwt_secret(None);
    assert!(fresh.is_new);
    assert_eq!(fresh.secret.len(), 64);
    assert_ne!(fresh.secret, vec![0u8; 64]);
    assert_ne!(fresh.secret, other.secret);
}
