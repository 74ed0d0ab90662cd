use auth_core::hash_password;
use auth_core::verify_password;
use auth_core::AuthError;

#[test]
fn verify_accepts_own_hash() {
    let hash = hash_password("s3cret").expect("hashing must succeed");
    assert_eq!(verify_password("s3cret", &hash), Ok(true));
}

#[test]
fn hash_has_the_bcrypt_digest_shape() {
    let hash = hash_password("s3cret").expect("hashing must succeed");
    assert_eq!(hash.len(), 60);
    assert!(hash.starts_with("$2b$"));
    assert_ne!(hash, "s3cret");
}

#[test]
fn verify_rejects_wrong_password() {
    let hash = hash_password("s3cret").expect("hashing must succeed");
    assert_eq!(verify_password("wrong", &hash), Ok(false));
}

#[test]
fn verify_rejects_malformed_digest() {
    assert_eq!(
        verify_password("s3cret", "not-a-bcrypt-digest"),
        Err(AuthError::HashingError)
    );
    assert_eq!(verify_password("s3cret", ""), Err(AuthError::HashingError));
}

#[test]
fn verify_survives_bit_mutation_of_hash() {
    let hash = hash_password("s3cret").expect("hashing must succeed");
    let mut bytes = hash.clone().into_bytes();
    let last = bytes.len() - 1;
    bytes[last] ^= 1;
    if let Ok(mutated) = String::from_utf8(bytes) {
        let outcome = verify_password("s3cret", &mutated);
        assert!(matches!(outcome, Ok(false) | Err(AuthError::HashingError)));
    }
}
