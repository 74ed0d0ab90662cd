//! Registration and login: the stateless orchestration of the credential
//! store, the password hasher and the token codec. Registering hashes the
//! password, appends a record under a fresh identifier and issues a token;
//! logging in looks the username up, checks the password against the
//! stored digest and issues a token. A missing username and a wrong
//! password are deliberately reported by one and the same error.

use vstd::prelude::*;

use crate::errors::AuthError;
use crate::password::bcrypt_check;
use crate::password::hash_password;
use crate::password::verify_password;
use crate::security::create_jwt_at;
use crate::security::jwt_of;
use crate::security::token_expiry;
use crate::store::has_user_id;
use crate::store::has_username;
use crate::store::lemma_find_from;
use crate::store::lemma_register_then_lookup;
use crate::store::user_record;
use crate::store::Credential;
use crate::store::CredentialStore;

verus! {

/// A registration or login request: a username and a plaintext password.
#[derive(Debug)]
pub struct UserCredentials {
    pub username: String,
    pub password: String,
}

/// The public face of a stored credential: everything but the password
/// digest.
#[derive(Debug, Clone)]
pub struct User {
    pub id: String,
    pub username: String,
    pub created_at: i64,
}

/// A successful authentication: a fresh bearer token and the user it
/// belongs to. Never carries the password digest.
#[derive(Debug, Clone)]
pub struct AuthResponse {
    pub token: String,
    pub user: User,
}

/// Relies on `uuid::Uuid::new_v4` and its `Display` form: a fresh random
/// identifier rendered as the 36-character hyphenated form.
#[verifier::external_body]
fn generate_user_id() -> (r: String)
    ensures
        r@.len() == 36,
{
    uuid::Uuid::new_v4().to_string()
}

/// Login rejects the pair exactly when the username has no record or the
/// password does not match the stored digest — the two causes are one
/// condition, answered by one error.
pub open spec fn credentials_rejected(
    users: Seq<Credential>,
    username: Seq<char>,
    password: Seq<char>,
) -> bool {
    !has_username(users, username) || bcrypt_check(
        password,
        user_record(users, username).password_hash@,
    ) == Some(false)
}

/// Registers a new account at time `now`: fails with `DuplicateUsername`
/// when the username is taken (leaving the store unchanged), otherwise
/// hashes the password, appends the one new record — under an identifier
/// no stored record carries — and returns a token issued for that
/// identifier together with the public user data. The stored value is a
/// salted digest in the fixed 60-character form, never the plaintext.
pub fn register_user(
    store: &mut CredentialStore,
    credentials: &UserCredentials,
    secret: &[u8],
    now: i64,
) -> (r: Result<AuthResponse, AuthError>)
    requires
        old(store).wf(),
        -9_000_000_000_000 <= now <= 9_000_000_000_000,
    ensures
        final(store).wf(),
        r == Err::<AuthResponse, AuthError>(AuthError::DuplicateUsername) <==> has_username(
            old(store).users@,
            credentials.username@,
        ),
        match r {
            Ok(resp) => {
                &&& !has_username(old(store).users@, credentials.username@)
                &&& final(store).users@.len() == old(store).users@.len() + 1
                &&& final(store).users@ == old(store).users@.push(final(store).users@.last())
                &&& {
                    let record = final(store).users@.last();
                    &&& record.username@ == credentials.username@
                    &&& !has_user_id(old(store).users@, record.id@)
                    &&& bcrypt_check(credentials.password@, record.password_hash@) == Some(true)
                    &&& record.password_hash@.len() == 60
                    &&& record.password_hash@[0] == '$'
                    &&& record.created_at == now
                    &&& resp.user.id@ == record.id@
                    &&& resp.user.username@ == credentials.username@
                    &&& resp.user.created_at == now
                    &&& resp.token@ == jwt_of(record.id@, token_expiry(now as int), secret@)
                }
            },
            Err(e) => {
                &&& final(store).users@ == old(store).users@
                &&& match e {
                    AuthError::DuplicateUsername => has_username(
                        old(store).users@,
                        credentials.username@,
                    ),
                    AuthError::HashingError => !has_username(
                        old(store).users@,
                        credentials.username@,
                    ),
                    AuthError::StorageError => !has_username(
                        old(store).users@,
                        credentials.username@,
                    ),
                    _ => false,
                }
            },
        },
{
    if store.find_by_username(&credentials.username).is_some() {
        return Err(AuthError::DuplicateUsername);
    }
    let password_hash = match hash_password(credentials.password.as_str()) {
        Ok(h) => h,
        Err(_) => {
            return Err(AuthError::HashingError);
        },
    };
    let user_id = generate_user_id();
    let token = match create_jwt_at(user_id.as_str(), secret, now) {
        Ok(t) => t,
        Err(_) => {
            return Err(AuthError::HashingError);
        },
    };
    let record = Credential {
        id: user_id.clone(),
        username: credentials.username.clone(),
        password_hash,
        created_at: now,
    };
    match store.insert_user(record) {
        Ok(()) => {},
        Err(e) => {
            return Err(e);
        },
    }
    let user = User { id: user_id, username: credentials.username.clone(), created_at: now };
    Ok(AuthResponse { token, user })
}

/// Logs an account in at time `now`: looks the username up, checks the
/// password against the stored digest, and on success issues a token for
/// the stored identifier. A missing username and a wrong password both
/// fail with `InvalidCredentials`; a corrupted stored digest fails with
/// `HashingError`.
pub fn login_user(
    store: &CredentialStore,
    credentials: &UserCredentials,
    secret: &[u8],
    now: i64,
) -> (r: Result<AuthResponse, AuthError>)
    requires
        store.wf(),
        -9_000_000_000_000 <= now <= 9_000_000_000_000,
    ensures
        match r {
            Ok(resp) => {
                &&& has_username(store.users@, credentials.username@)
                &&& {
                    let record = user_record(store.users@, credentials.username@);
                    &&& bcrypt_check(credentials.password@, record.password_hash@) == Some(true)
                    &&& resp.user.id@ == record.id@
                    &&& resp.user.username@ == record.username@
                    &&& resp.user.created_at == now
                    &&& resp.token@ == jwt_of(record.id@, token_expiry(now as int), secret@)
                }
            },
            Err(e) => match e {
                AuthError::InvalidCredentials => credentials_rejected(
                    store.users@,
                    credentials.username@,
                    credentials.password@,
                ),
                AuthError::HashingError => has_username(store.users@, credentials.username@)
                    && bcrypt_check(
                    credentials.password@,
                    user_record(store.users@, credentials.username@).password_hash@,
                ) is None,
                _ => false,
            },
        },
        r is Ok <==> (has_username(store.users@, credentials.username@) && bcrypt_check(
            credentials.password@,
            user_record(store.users@, credentials.username@).password_hash@,
        ) == Some(true)),
{
    let index = match store.find_by_username(&credentials.username) {
        Some(i) => i,
        None => {
            return Err(AuthError::InvalidCredentials);
        },
    };
    proof {
        lemma_find_from(store.users@, credentials.username@, 0);
    }
    let record = &store.users[index];
    let matches_hash = match verify_password(
        credentials.password.as_str(),
        record.password_hash.as_str(),
    ) {
        Ok(b) => b,
        Err(_) => {
            return Err(AuthError::HashingError);
        },
    };
    if !matches_hash {
        return Err(AuthError::InvalidCredentials);
    }
    let token = match create_jwt_at(record.id.as_str(), secret, now) {
        Ok(t) => t,
        Err(_) => {
            return Err(AuthError::HashingError);
        },
    };
    let user = User {
        id: record.id.clone(),
        username: record.username.clone(),
        created_at: now,
    };
    Ok(AuthResponse { token, user })
}

/// Registering a free username and then logging in with the same pair
/// succeeds: the appended record is the one the login lookup finds, and
/// its stored digest accepts the password, so the login conditions hold
/// and the login token is issued for the registered identifier.
pub proof fn lemma_register_then_login(
    users: Seq<Credential>,
    record: Credential,
    password: Seq<char>,
)
    requires
        !has_username(users, record.username@),
        bcrypt_check(password, record.password_hash@) == Some(true),
    ensures
        has_username(users.push(record), record.username@),
        user_record(users.push(record), record.username@) == record,
        bcrypt_check(
            password,
            user_record(users.push(record), record.username@).password_hash@,
        ) == Some(true),
        !credentials_rejected(users.push(record), record.username@, password),
{
    lemma_register_then_lookup(users, record);
}

/// A username with no record and a wrong password for an existing record
/// are rejected by the very same condition, hence by the same
/// `InvalidCredentials` error and response shape.
pub proof fn lemma_login_uniform_rejection(
    users: Seq<Credential>,
    username: Seq<char>,
    password: Seq<char>,
)
    requires
        !has_username(users, username) || bcrypt_check(
            password,
            user_record(users, username).password_hash@,
        ) == Some(false),
    ensures
        credentials_rejected(users, username, password),
{
}

} // verus!
