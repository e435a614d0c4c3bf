//! The background job that watches emergency access grants.
use vstd::prelude::*;

verus! {

/// Interval of the emergency access checks, in seconds: one hour.
pub const CHECK_INTERVAL_SECS: u64 = 3600;

/// Background job for emergency access: every interval it warns of grants
/// about to expire and marks the expired ones.
pub struct EmergencyAccessJobService;

} // verus!
