//! Service statistics: a read-only snapshot computed on demand from the
//! credential store and the session-expiry bookkeeping, and the privileged
//! query that guards it behind the access gate and a bearer-token check.

use vstd::prelude::*;
use vstd::string::StringSliceAdditionalSpecFns;

use crate::errors::AuthError;
use crate::ip::ip_allowed;
use crate::ip::is_ip_allowed;
use crate::security::jwt_of;
use crate::security::token_expired;
use crate::security::verify_jwt_at;
use crate::store::CredentialStore;

verus! {

/// A statistics snapshot: user and active-session counts and a status
/// word. Computed, never stored.
#[derive(Debug, Clone)]
pub struct Stats {
    pub total_users: i64,
    pub server_uptime: i64,
    pub active_sessions: i64,
    pub server_status: String,
}

/// How many session expiry timestamps in `sessions[from..]` lie strictly
/// after `now` — the sessions still active.
pub open spec fn active_from(sessions: Seq<i64>, now: i64, from: int) -> int
    decreases sessions.len() - from,
{
    if from < 0 || from >= sessions.len() {
        0
    } else {
        (if sessions[from] > now {
            1int
        } else {
            0int
        }) + active_from(sessions, now, from + 1)
    }
}

/// The active-session count is between zero and the number of sessions.
proof fn lemma_active_from_bound(sessions: Seq<i64>, now: i64, from: int)
    requires
        0 <= from <= sessions.len(),
    ensures
        0 <= active_from(sessions, now, from) <= sessions.len() - from,
    decreases sessions.len() - from,
{
    if from < sessions.len() {
        lemma_active_from_bound(sessions, now, from + 1);
    }
}

/// Computes the snapshot at time `now`: every stored credential counts as
/// a user, and a session is active while its expiry lies after `now`.
pub fn get_stats(store: &CredentialStore, sessions: &Vec<i64>, now: i64) -> (r: Stats)
    requires
        store.users@.len() <= i64::MAX,
        sessions@.len() <= i64::MAX,
    ensures
        r.total_users == store.users@.len(),
        r.active_sessions == active_from(sessions@, now, 0),
        r.server_uptime == 0,
        r.server_status@ == "OK"@,
{
    let total_users = store.len() as i64;
    let n = sessions.len();
    let mut active: i64 = 0;
    let mut i: usize = 0;
    proof {
        lemma_active_from_bound(sessions@, now, 0);
    }
    while i < n
        invariant
            0 <= i <= n,
            n == sessions@.len() <= i64::MAX,
            active == active_from(sessions@, now, 0) - active_from(sessions@, now, i as int),
            0 <= active <= i,
        decreases n - i,
    {
        proof {
            lemma_active_from_bound(sessions@, now, i as int);
            lemma_active_from_bound(sessions@, now, i + 1);
        }
        if sessions[i] > now {
            active = active + 1;
        }
        i = i + 1;
    }
    Stats { total_users, server_uptime: 0, active_sessions: active, server_status: "OK".to_owned() }
}

/// Serves the privileged statistics query: denies the caller outright
/// when the access check rejects its address, then demands a valid bearer
/// token, and only then computes the snapshot. The address is checked
/// before the token, so a denied address never learns whether its token
/// was good.
pub fn stats_request(
    store: &CredentialStore,
    sessions: &Vec<i64>,
    client_ip: &str,
    token: &str,
    secret: &[u8],
    now: i64,
) -> (r: Result<Stats, AuthError>)
    requires
        store.users@.len() <= i64::MAX,
        sessions@.len() <= i64::MAX,
    ensures
        r == Err::<Stats, AuthError>(AuthError::AccessDenied) <==> !ip_allowed(
            client_ip.spec_bytes(),
        ),
        r matches Err(e) ==> (e is AccessDenied || e is TokenMalformed || e is TokenSignatureInvalid
            || e is TokenExpired),
        r matches Ok(st) ==> {
            &&& st.total_users == store.users@.len()
            &&& st.active_sessions == active_from(sessions@, now, 0)
            &&& st.server_status@ == "OK"@
        },
        ip_allowed(client_ip.spec_bytes()) ==> forall|sub: Seq<char>, exp: int|
            #![trigger jwt_of(sub, exp, secret@)]
            (token@ == jwt_of(sub, exp, secret@) && i64::MIN <= exp <= i64::MAX) ==> (
            if token_expired(exp, now as int) {
                r == Err::<Stats, AuthError>(AuthError::TokenExpired)
            } else {
                r is Ok
            }),
{
    if !is_ip_allowed(client_ip) {
        return Err(AuthError::AccessDenied);
    }
    match verify_jwt_at(token, secret, now) {
        Ok(_claims) => Ok(get_stats(store, sessions, now)),
        Err(e) => Err(e),
    }
}

} // verus!
