use auth_core::create_jwt;
use auth_core::create_jwt_at;
use auth_core::verify_jwt;
use auth_core::verify_jwt_at;
use auth_core::AuthError;

const SECRET: &[u8] = b"unit-test-signing-secret";
const ISSUED_AT: i64 = 1_700_000_000;

#[test]
fn issued_token_verifies_to_its_subject() {
    let token = create_jwt_at("user-42", SECRET, ISSUED_AT).expect("issuance must succeed");
    let claims = verify_jwt_at(&token, SECRET, ISSUED_AT + 100).expect("fresh token must verify");
    assert_eq!(claims.sub, "user-42");
    assert_eq!(claims.exp, ISSUED_AT + 86400);
}

#[test]
fn token_valid_just_before_24h_expired_just_after() {
    let token = create_jwt_at("user-42", SECRET, ISSUED_AT).expect("issuance must succeed");
    // 23 hours 59 minutes after issuance: still valid.
    assert!(verify_jwt_at(&token, SECRET, ISSUED_AT + 86340).is_ok());
    // Exactly at expiry: still valid (expiry is strict).
    assert!(verify_jwt_at(&token, SECRET, ISSUED_AT + 86400).is_ok());
    // 24 hours 1 minute after issuance: expired.
    assert_eq!(
        verify_jwt_at(&token, SECRET, ISSUED_AT + 86460),
        Err(AuthError::TokenExpired)
    );
}

#[test]
fn wrong_secret_fails_signature_check() {
    let token = create_jwt_at("user-42", SECRET, ISSUED_AT).expect("issuance must succeed");
    assert_eq!(
        verify_jwt_at(&token, b"another-secret", ISSUED_AT + 100),
        Err(AuthError::TokenSignatureInvalid)
    );
}

#[test]
fn garbage_token_is_malformed() {
    assert_eq!(
        verify_jwt_at("not-a-token", SECRET, ISSUED_AT),
        Err(AuthError::TokenMalformed)
    );
    assert_eq!(
        verify_jwt_at("", SECRET, ISSUED_AT),
        Err(AuthError::TokenMalformed)
    );
}

#[test]
fn tampered_token_is_rejected() {
    let token = create_jwt_at("user-42", SECRET, ISSUED_AT).expect("issuance must succeed");
    let mut bytes = token.clone().into_bytes();
    // Flip one bit in the payload part, past the first dot.
    let dot = bytes.iter().position(|&b| b == b'.').expect("a token has dots");
    bytes[dot + 1] ^= 1;
    let mutated = String::from_utf8(bytes).expect("still ascii");
    let outcome = verify_jwt_at(&mutated, SECRET, ISSUED_AT + 100);
    assert!(matches!(
        outcome,
        Err(AuthError::TokenSignatureInvalid) | Err(AuthError::TokenMalformed)
    ));
}

#[test]
fn clock_based_issue_and_verify_round_trip() {
    let token = create_jwt("user-7", SECRET).expect("issuance must succeed");
    let claims = verify_jwt(&token, SECRET).expect("fresh token must verify");
    assert_eq!(claims.sub, "user-7");
}

#[test]
fn verification_is_deterministic_in_its_inputs() {
    let token = create_jwt_at("user-42", SECRET, ISSUED_AT).expect("issuance must succeed");
    assert_eq!(
        verify_jwt_at(&token, SECRET, ISSUED_AT + 100),
        verify_jwt_at(&token, SECRET, ISSUED_AT + 100)
    );
    assert_eq!(
        verify_jwt_at("no-such-token", SECRET, ISSUED_AT),
        verify_jwt_at("no-such-token", SECRET, ISSUED_AT)
    );
}

#[test]
fn distinct_issue_times_give_distinct_tokens() {
    let t1 = create_jwt_at("user-42", SECRET, ISSUED_AT).expect("issuance must succeed");
    let t2 = create_jwt_at("user-42", SECRET, ISSUED_AT + 60).expect("issuance must succeed");
    assert_ne!(t1, t2);
}
