use auth_core::login_user;
use auth_core::register_user;
use auth_core::status_for_error;
use auth_core::verify_jwt_at;
use auth_core::AuthError;
use auth_core::Credential;
use auth_core::CredentialStore;
use auth_core::UserCredentials;

const SECRET: &[u8] = b"unit-test-signing-secret";
const T0: i64 = 1_700_000_000;

fn alice() -> UserCredentials {
    UserCredentials { username: "alice".to_string(), password: "s3cret".to_string() }
}

#[test]
fn register_then_login_succeeds_with_matching_subject() {
    let mut store = CredentialStore::new();
    let registered = register_user(&mut store, &alice(), SECRET, T0).expect("registration");
    let logged_in = login_user(&store, &alice(), SECRET, T0 + 50).expect("login");
    assert_eq!(logged_in.user.id, registered.user.id);
    assert_eq!(logged_in.user.username, "alice");
    let claims = verify_jwt_at(&logged_in.token, SECRET, T0 + 100).expect("token verifies");
    assert_eq!(claims.sub, registered.user.id);
}

#[test]
fn duplicate_registration_fails_second_time() {
    let mut store = CredentialStore::new();
    register_user(&mut store, &alice(), SECRET, T0).expect("first registration");
    let second = register_user(
        &mut store,
        &UserCredentials { username: "alice".to_string(), password: "other".to_string() },
        SECRET,
        T0 + 10,
    );
    assert_eq!(second.unwrap_err(), AuthError::DuplicateUsername);
    assert_eq!(store.len(), 1);
}

#[test]
fn login_failures_are_indistinguishable() {
    let mut store = CredentialStore::new();
    register_user(&mut store, &alice(), SECRET, T0).expect("registration");
    let no_such_user = login_user(
        &store,
        &UserCredentials { username: "bob".to_string(), password: "s3cret".to_string() },
        SECRET,
        T0 + 5,
    )
    .unwrap_err();
    let wrong_password = login_user(
        &store,
        &UserCredentials { username: "alice".to_string(), password: "wrong".to_string() },
        SECRET,
        T0 + 5,
    )
    .unwrap_err();
    assert_eq!(no_such_user, AuthError::InvalidCredentials);
    assert_eq!(wrong_password, no_such_user);
    assert_eq!(status_for_error(&wrong_password), status_for_error(&no_such_user));
}

#[test]
fn register_login_scenario_with_distinct_tokens() {
    let mut store = CredentialStore::new();
    let registered = register_user(&mut store, &alice(), SECRET, T0).expect("registration");
    let t1 = registered.token.clone();
    let logged_in = login_user(&store, &alice(), SECRET, T0 + 60).expect("login");
    let t2 = logged_in.token.clone();
    assert_ne!(t1, t2);
    let c1 = verify_jwt_at(&t1, SECRET, T0 + 90).expect("first token verifies");
    let c2 = verify_jwt_at(&t2, SECRET, T0 + 90).expect("second token verifies");
    assert_eq!(c1.sub, registered.user.id);
    assert_eq!(c2.sub, registered.user.id);
    let denied = login_user(
        &store,
        &UserCredentials { username: "alice".to_string(), password: "wrong".to_string() },
        SECRET,
        T0 + 120,
    )
    .unwrap_err();
    assert_eq!(denied, AuthError::InvalidCredentials);
    assert_eq!(status_for_error(&denied), 401);
}

#[test]
fn insert_maps_id_collision_to_storage_error() {
    let mut store = CredentialStore::new();
    let first = Credential {
        id: "fixed-id".to_string(),
        username: "alice".to_string(),
        password_hash: "digest-a".to_string(),
        created_at: T0,
    };
    assert!(store.insert_user(first).is_ok());
    let second = Credential {
        id: "fixed-id".to_string(),
        username: "bob".to_string(),
        password_hash: "digest-b".to_string(),
        created_at: T0 + 1,
    };
    assert_eq!(store.insert_user(second), Err(AuthError::StorageError));
    assert_eq!(store.len(), 1);
}

#[test]
fn register_reports_user_data_without_hash() {
    let mut store = CredentialStore::new();
    let registered = register_user(&mut store, &alice(), SECRET, T0).expect("registration");
    assert_eq!(registered.user.username, "alice");
    assert_eq!(registered.user.created_at, T0);
    assert_eq!(registered.user.id.len(), 36);
    assert_ne!(registered.token, "s3cret");
}
