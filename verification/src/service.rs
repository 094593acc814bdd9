//! The fixed replies of the service: the liveness check and the
//! repository-sync stub, which deliberately answers a success-shaped
//! placeholder with zero counts instead of failing.

use vstd::prelude::*;

use crate::models::HealthResponse;
use crate::models::SyncResponse;

verus! {

/// The liveness reply, carrying the running version.
pub fn health_response(version: String) -> (r: HealthResponse)
    ensures
        r.status@ == "ok"@,
        r.message@ == "Angel Medina Portfolio API is running"@,
        r.version == version,
{
    HealthResponse {
        status: String::from_str("ok"),
        message: String::from_str("Angel Medina Portfolio API is running"),
        version,
    }
}

/// The repository-sync stub: always the same placeholder, zero rows synced,
/// one fixed notice in the error list.
pub fn sync_response() -> (r: SyncResponse)
    ensures
        r.message@ == "GitHub sync feature coming soon"@,
        r.synced_count == 0,
        r.updated_count == 0,
        r.errors@.len() == 1,
        r.errors@[0]@ == "GitHub sync not yet implemented"@,
{
    let errors: Vec<String> = vec![String::from_str("GitHub sync not yet implemented")];
    proof {
        assert(errors@.len() == 1);
    }
    SyncResponse {
        message: String::from_str("GitHub sync feature coming soon"),
        synced_count: 0,
        updated_count: 0,
        errors,
    }
}

} // verus!
