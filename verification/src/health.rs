//! The liveness probe: a constant payload, independent of everything.

use vstd::prelude::*;

verus! {

/// The liveness payload.
pub struct HealthResponse {
    pub status: String,
}

/// The health endpoint's answer. It takes no input and touches no state —
/// in particular it never consults the database, so a healthy answer says
/// nothing about database health.
pub fn health() -> (r: HealthResponse)
    ensures
        r.status@ == "ok"@,
{
    HealthResponse { status: "ok".to_owned() }
}

} // verus!
