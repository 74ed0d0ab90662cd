//! Bearer tokens: compact signed strings carrying a subject and an expiry.
//! Issuance and verification call the jsonwebtoken crate for the signed
//! encoding; the expiry rule itself — a token lives exactly 24 hours from
//! issuance — is checked here, against a caller-supplied clock reading.

use vstd::prelude::*;

use crate::errors::AuthError;

verus! {

/// The decoded payload of a token: the subject it was issued for and the
/// Unix timestamp at which it expires.
#[derive(Debug, Clone, PartialEq, Eq)]
pub struct Claims {
    pub sub: String,
    pub exp: i64,
}

/// A token as presented by a client, with the subject it claims to be for.
#[derive(Debug, Clone)]
pub struct JwtToken {
    pub user_id: String,
    pub exp: i64,
}

/// The expiry timestamp of a token issued at `now`: 24 hours, that is
/// 86400 seconds, later.
pub open spec fn token_expiry(now: int) -> int {
    now + 86400
}

/// Whether a token whose expiry is `exp` is stale at time `now`. Expiry is
/// strict: at `now == exp` the token is still accepted.
pub open spec fn token_expired(exp: int, now: int) -> bool {
    now > exp
}

/// The signed, serialized token that encodes subject `sub` and expiry
/// `exp` under `secret`: the output of the jsonwebtoken encoding, which is
/// a pure function of these three arguments.
pub uninterp spec fn jwt_of(sub: Seq<char>, exp: int, secret: Seq<u8>) -> Seq<char>;

/// What the jsonwebtoken decoding makes of `token` under `secret` — a
/// pure function of those two: the subject and expiry of a string that
/// parses as a token, carries a `{sub, exp}` payload and whose signature
/// verifies under the secret; otherwise the error classifying the
/// failure (it can only be `TokenMalformed` or `TokenSignatureInvalid`,
/// which the decode wrapper's contract pins).
pub uninterp spec fn jwt_decoding(token: Seq<char>, secret: Seq<u8>) -> Result<
    (Seq<char>, int),
    AuthError,
>;

/// Whether `token` is integrity-bound to `secret`: it parses as a token
/// with a `{sub, exp}` payload and its signature verifies under that
/// secret. Acceptance anywhere in this module implies this.
pub open spec fn jwt_signed(token: Seq<char>, secret: Seq<u8>) -> bool {
    jwt_decoding(token, secret) is Ok
}

/// The decode result `r` is exactly the named decoding outcome for
/// `token` under `secret`.
pub open spec fn decode_outcome(
    r: Result<Claims, AuthError>,
    token: Seq<char>,
    secret: Seq<u8>,
) -> bool {
    match jwt_decoding(token, secret) {
        Ok(p) => r matches Ok(c) && c.sub@ == p.0 && c.exp as int == p.1,
        Err(e) => r == Err::<Claims, AuthError>(e),
    }
}

/// The outcome of applying the 24-hour expiry rule at time `now` to the
/// decoding of `token` under `secret`: the claims of a genuine unexpired
/// token, `TokenExpired` for a genuine stale one, and the decoding error
/// otherwise.
pub open spec fn verification_outcome(
    r: Result<Claims, AuthError>,
    token: Seq<char>,
    secret: Seq<u8>,
    now: int,
) -> bool {
    match jwt_decoding(token, secret) {
        Ok(p) => if token_expired(p.1, now) {
            r == Err::<Claims, AuthError>(AuthError::TokenExpired)
        } else {
            r matches Ok(c) && c.sub@ == p.0 && c.exp as int == p.1
        },
        Err(e) => r == Err::<Claims, AuthError>(e),
    }
}

/// Decoding recovers what was issued: whenever `token` is the signed
/// encoding of some subject and expiry under `secret`, the decode outcome
/// `r` is exactly those claims.
pub open spec fn decode_recovers_issued(
    r: Result<Claims, AuthError>,
    token: Seq<char>,
    secret: Seq<u8>,
) -> bool {
    forall|sub: Seq<char>, exp: int| #![trigger jwt_of(sub, exp, secret)]
        (token == jwt_of(sub, exp, secret) && i64::MIN <= exp <= i64::MAX) ==> (r matches Ok(c)
            && c.sub@ == sub && c.exp as int == exp)
}

/// Relies on `jsonwebtoken::encode` with the default header (HS256) and an
/// HMAC key from `EncodingKey::from_secret`: the HMAC-signed encoding of a
/// `{sub, exp}` payload is deterministic in the payload and the secret, and
/// for this algorithm and key family the encoding cannot fail.
#[verifier::external_body]
fn jwt_encode(sub: &str, exp: i64, secret: &[u8]) -> (r: Result<String, AuthError>)
    ensures
        r is Ok,
        r matches Ok(t) ==> t@ == jwt_of(sub@, exp as int, secret@),
{
    let mut claims = serde_json::Map::new();
    claims.insert("sub".to_string(), serde_json::Value::String(sub.to_string()));
    claims.insert("exp".to_string(), serde_json::Value::Number(serde_json::Number::from(exp)));
    jsonwebtoken::encode(
        &jsonwebtoken::Header::default(),
        &serde_json::Value::Object(claims),
        &jsonwebtoken::EncodingKey::from_secret(secret),
    )
    .map_err(|_| AuthError::TokenMalformed)
}

/// Relies on `jsonwebtoken::decode` with HS256 and expiry validation turned
/// off, so that the expiry rule is applied by verified code: the outcome is
/// deterministic in the token and the secret alone (named `jwt_decoding`);
/// decoding the exact string that `jsonwebtoken::encode` produced for a
/// payload under the same secret recovers that payload; a mismatched
/// signature is reported as `InvalidSignature`, and every other failure
/// means the token could not be parsed as a signed `{sub, exp}` payload.
#[verifier::external_body]
fn jwt_decode(token: &str, secret: &[u8]) -> (r: Result<Claims, AuthError>)
    ensures
        r is Ok <==> jwt_decoding(token@, secret@) is Ok,
        decode_outcome(r, token@, secret@),
        decode_recovers_issued(r, token@, secret@),
        r matches Err(e) ==> (e is TokenMalformed || e is TokenSignatureInvalid),
{
    let mut v = jsonwebtoken::Validation::new(jsonwebtoken::Algorithm::HS256);
    v.validate_exp = false;
    v.required_spec_claims = std::collections::HashSet::new();
    match jsonwebtoken::decode::<serde_json::Value>(token, &jsonwebtoken::DecodingKey::from_secret(secret), &v) {
        Ok(d) => match (d.claims.get("sub").and_then(|s| s.as_str()), d.claims.get("exp").and_then(|e| e.as_i64())) {
            (Some(s), Some(e)) => Ok(Claims { sub: s.to_string(), exp: e }),
            _ => Err(AuthError::TokenMalformed),
        },
        Err(e) => match e.kind() {
            jsonwebtoken::errors::ErrorKind::InvalidSignature => Err(AuthError::TokenSignatureInvalid),
            _ => Err(AuthError::TokenMalformed),
        },
    }
}

/// Relies on `chrono::Utc::now().timestamp()`: the seconds since the Unix
/// epoch, which chrono keeps within its representable date range of about
/// ±262,000 years from the epoch, far inside the stated bound.
#[verifier::external_body]
fn current_timestamp() -> (r: i64)
    ensures
        -9_000_000_000_000 <= r <= 9_000_000_000_000,
{
    chrono::Utc::now().timestamp()
}

/// The current clock reading as a Unix timestamp, for callers that pass an
/// explicit `now` into the issuance and verification functions.
pub fn current_unix_time() -> (r: i64)
    ensures
        -9_000_000_000_000 <= r <= 9_000_000_000_000,
{
    current_timestamp()
}

/// Issues a token for `user_id`, expiring 24 hours after `now`, signed
/// with `secret`.
pub fn create_jwt_at(user_id: &str, secret: &[u8], now: i64) -> (r: Result<String, AuthError>)
    requires
        now <= i64::MAX - 86400,
    ensures
        r matches Ok(t) && t@ == jwt_of(user_id@, token_expiry(now as int), secret@),
{
    let exp: i64 = now + 86400;
    jwt_encode(user_id, exp, secret)
}

/// Issues a token for `user_id` expiring 24 hours from the current time:
/// the token encodes `user_id` with expiry exactly 24 hours after some
/// clock reading within the clock's range.
pub fn create_jwt(user_id: &str, secret: &[u8]) -> (r: Result<String, AuthError>)
    ensures
        r matches Ok(t) && exists|n: int|
            (-9_000_000_000_000 <= n <= 9_000_000_000_000 && t@ == #[trigger] jwt_of(
                user_id@,
                token_expiry(n),
                secret@,
            )),
{
    let now = current_timestamp();
    let r = create_jwt_at(user_id, secret, now);
    proof {
        let t = r->Ok_0;
        assert(-9_000_000_000_000 <= now as int <= 9_000_000_000_000 && t@ == jwt_of(
            user_id@,
            token_expiry(now as int),
            secret@,
        ));
    }
    r
}

/// Verifies a presented token against `secret` at time `now`. Fails with
/// `TokenMalformed` when the string cannot be parsed, with
/// `TokenSignatureInvalid` when the signature does not match, and with
/// `TokenExpired` when the token is genuine but `now` is past its expiry.
/// The result is exactly the named decoding outcome with the expiry rule
/// applied, so it is a function of `(token, secret, now)` alone; any
/// accepted token is integrity-bound to the secret; and a token issued
/// for a subject is accepted exactly until its expiry, returning the
/// claims it was issued with.
pub fn verify_jwt_at(token: &str, secret: &[u8], now: i64) -> (r: Result<Claims, AuthError>)
    ensures
        verification_outcome(r, token@, secret@, now as int),
        r matches Ok(c) ==> jwt_signed(token@, secret@),
        r matches Ok(c) ==> !token_expired(c.exp as int, now as int),
        r matches Err(e) ==> (e is TokenMalformed || e is TokenSignatureInvalid
            || e is TokenExpired),
        forall|sub: Seq<char>, exp: int| #![trigger jwt_of(sub, exp, secret@)]
            (token@ == jwt_of(sub, exp, secret@) && i64::MIN <= exp <= i64::MAX)
                ==> (if token_expired(exp, now as int) {
                    r == Err::<Claims, AuthError>(AuthError::TokenExpired)
                } else {
                    r matches Ok(c) && c.sub@ == sub && c.exp as int == exp
                }),
{
    match jwt_decode(token, secret) {
        Ok(c) => {
            if now > c.exp {
                Err(AuthError::TokenExpired)
            } else {
                Ok(c)
            }
        },
        Err(e) => Err(e),
    }
}

/// Verifies a presented token against `secret` at the current time.
/// Whatever the clock read: an accepted token is integrity-bound to the
/// secret, and a genuine issued token is either returned with the claims
/// it was issued with or rejected as `TokenExpired`, nothing else.
pub fn verify_jwt(token: &str, secret: &[u8]) -> (r: Result<Claims, AuthError>)
    ensures
        r matches Err(e) ==> (e is TokenMalformed || e is TokenSignatureInvalid
            || e is TokenExpired),
        r matches Ok(c) ==> jwt_signed(token@, secret@),
        forall|sub: Seq<char>, exp: int| #![trigger jwt_of(sub, exp, secret@)]
            (token@ == jwt_of(sub, exp, secret@) && i64::MIN <= exp <= i64::MAX) ==> ((r matches
            Ok(c) && c.sub@ == sub && c.exp as int == exp) || r == Err::<Claims, AuthError>(
                AuthError::TokenExpired,
            )),
{
    let now = current_timestamp();
    verify_jwt_at(token, secret, now)
}

/// A token issued at any time `issued_at` is still valid 23 hours and
/// 59 minutes later, and is expired 24 hours and 1 minute later.
pub proof fn lemma_token_validity_window(issued_at: int)
    ensures
        !token_expired(token_expiry(issued_at), issued_at + 86340),
        token_expired(token_expiry(issued_at), issued_at + 86460),
{
}

} // verus!
