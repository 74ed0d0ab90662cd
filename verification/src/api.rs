//! The response envelope every endpoint uses, and the health-check
//! payload.

use vstd::prelude::*;

verus! {

/// The envelope all endpoints answer with: a success flag, the payload
/// when there is one, and a human-readable message.
#[derive(Debug)]
pub struct ApiResponse<T> {
    pub success: bool,
    pub data: Option<T>,
    pub message: String,
}

/// The health-check payload: a status word, the time of the answer, and
/// the service version.
#[derive(Debug, Clone)]
pub struct PingResponse {
    pub status: String,
    pub timestamp: i64,
    pub version: String,
}

/// The health-check answer at time `now`.
pub fn ping_response(now: i64) -> (r: PingResponse)
    ensures
        r.status@ == "OK"@,
        r.timestamp == now,
        r.version@ == "1.0.0"@,
{
    PingResponse { status: "OK".to_owned(), timestamp: now, version: "1.0.0".to_owned() }
}

} // verus!
