//! Behaviour of the CSRF state store and the user/session storage models.

use fict::errors::FictError;
use fict::model::UserStore;
use fict::model::User;
use fict::session::Session;
use fict::session::SessionStore;
use fict::state::Shared;

#[test]
fn state_single_use() {
    let mut shared = Shared::new();
    let s = shared.generate_state();
    assert!(shared.validate_state(&s));
    assert!(!shared.validate_state(&s));
    assert!(!shared.validate_state(&s));
}

#[test]
fn state_shape() {
    let mut shared = Shared::new();
    let s = shared.generate_state();
    assert_eq!(s.chars().count(), 20);
    assert!(s.chars().all(|c| c.is_ascii_alphanumeric()));
}

#[test]
fn state_unpredictability() {
    let mut shared = Shared::new();
    let first = shared.generate_state();
    let second = shared.generate_state();
    assert_ne!(first, second);

    let mut seen: Vec<String> = Vec::new();
    for _ in 0..1000 {
        let s = shared.generate_state();
        assert!(!seen.contains(&s));
        seen.push(s);
    }
}

#[test]
fn unknown_state_rejected_and_nothing_consumed() {
    let mut shared = Shared::new();
    let s = shared.generate_state();
    assert!(!shared.validate_state("never-issued-state"));
    assert!(shared.validate_state(&s));
}

#[test]
fn find_or_create_is_idempotent() {
    let mut users = UserStore::new();
    let first = User::find_or_create(&mut users, "a@x.com".to_string(), "A".to_string()).unwrap();
    assert_eq!(first.id, Some(1));
    assert_eq!(first.email, "a@x.com");
    assert_eq!(first.name, "A");
    assert_eq!(users.len(), 1);

    let second = User::find_or_create(&mut users, "a@x.com".to_string(), "A".to_string()).unwrap();
    assert_eq!(second.id, Some(1));
    assert_eq!(users.len(), 1);

    let renamed = User::find_or_create(&mut users, "a@x.com".to_string(), "B".to_string()).unwrap();
    assert_eq!(renamed.id, Some(1));
    assert_eq!(renamed.name, "A");
    assert_eq!(users.len(), 1);

    let other = User::find_or_create(&mut users, "b@x.com".to_string(), "B".to_string()).unwrap();
    assert_eq!(other.id, Some(2));
    assert_eq!(users.len(), 2);
}

#[test]
fn assign_issues_a_session_for_the_user() {
    let mut users = UserStore::new();
    let mut sessions = SessionStore::new();
    let u = User::find_or_create(&mut users, "a@x.com".to_string(), "A".to_string()).unwrap();
    let s = Session::assign(&mut sessions, &u).unwrap();
    assert_eq!(s.id, 1);
    assert_eq!(s.user_id, 1);
    assert_eq!(sessions.len(), 1);
}

#[test]
fn assign_rejects_a_duplicate_token() {
    let mut users = UserStore::new();
    let mut sessions = SessionStore::new();
    let u = User::find_or_create(&mut users, "a@x.com".to_string(), "A".to_string()).unwrap();
    let s = Session::assign_with_token(&mut sessions, &u, 42).unwrap();
    assert_eq!(s.token, 42);
    let clash = Session::assign_with_token(&mut sessions, &u, 42);
    assert_eq!(clash, Err(FictError::StorageError));
    assert_eq!(sessions.len(), 1);
}

#[test]
fn validate_finds_only_the_issued_token() {
    let mut users = UserStore::new();
    let mut sessions = SessionStore::new();
    let u = User::find_or_create(&mut users, "a@x.com".to_string(), "A".to_string()).unwrap();
    let s = Session::assign(&mut sessions, &u).unwrap();

    let found = Session::validate(&sessions, s.token).unwrap();
    assert_eq!(found, Some(s));

    let not_found = Session::validate(&sessions, s.token ^ 1).unwrap();
    assert_eq!(not_found, None);
}

#[test]
fn session_user_returns_the_owner() {
    let mut users = UserStore::new();
    let mut sessions = SessionStore::new();
    let u = User::find_or_create(&mut users, "a@x.com".to_string(), "A".to_string()).unwrap();
    let s = Session::assign(&mut sessions, &u).unwrap();
    let owner = s.user(&users).unwrap();
    assert_eq!(owner.id, Some(1));
    assert_eq!(owner.email, "a@x.com");
}

#[test]
fn with_id_distinguishes_missing_rows() {
    let mut users = UserStore::new();
    User::find_or_create(&mut users, "a@x.com".to_string(), "A".to_string()).unwrap();
    assert!(User::with_id(&users, 1).is_ok());
    assert_eq!(User::with_id(&users, 2).unwrap_err(), FictError::StorageError);
    assert_eq!(User::with_id(&users, 0).unwrap_err(), FictError::StorageError);
}

#[test]
fn describe_hides_the_token() {
    let s = Session { id: 3, token: 777, user_id: 9 };
    assert_eq!(s.describe(), "Session(id=[3] user_id=[9] token=[..])");
}
