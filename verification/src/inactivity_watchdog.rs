//! Settings of the inactivity watchdog, which marks plans whose owner stopped
//! checking in as claimable.
use vstd::prelude::*;
use crate::text::{parse_i64, parse_u64, parsed_i64, parsed_u64};

verus! {

/// Default interval between two sweeps, in seconds: one hour.
pub const DEFAULT_INTERVAL_SECS: u64 = 3600;

/// Default number of plans marked per sweep.
pub const DEFAULT_BATCH_SIZE: i64 = 500;

/// Key of the advisory lock that keeps two sweeps from running at once.
pub const WATCHDOG_LOCK_KEY: i64 = 820;

/// Status a plan is set to once its owner's deadline has passed.
pub const CLAIMABLE_STATUS: &'static str = "CLAIMABLE";

/// How often the watchdog sweeps and how many plans one sweep marks.
#[derive(Debug, Clone, Copy, PartialEq, Eq, Structural)]
pub struct InactivityWatchdogConfig {
    pub interval_secs: u64,
    pub batch_size: i64,
}

/// The interval setting before its lower bound: the value when it reads as
/// a `u64`, else the default.
pub open spec fn interval_setting(value: Option<&str>) -> u64 {
    match value {
        Some(v) => match parsed_u64(v@) {
            Some(n) => n,
            None => DEFAULT_INTERVAL_SECS,
        },
        None => DEFAULT_INTERVAL_SECS,
    }
}

/// The batch setting before its lower bound: the value when it reads as an
/// `i64`, else the default.
pub open spec fn batch_setting(value: Option<&str>) -> i64 {
    match value {
        Some(v) => match parsed_i64(v@) {
            Some(n) => n,
            None => DEFAULT_BATCH_SIZE,
        },
        None => DEFAULT_BATCH_SIZE,
    }
}

/// A configured `u64`, falling back to `default`.
pub fn parse_env_u64(value: Option<&str>, default: u64) -> (r: u64)
    ensures
        r == (match value {
            Some(v) => match parsed_u64(v@) {
                Some(n) => n,
                None => default,
            },
            None => default,
        }),
{
    match value {
        Some(v) => match parse_u64(v) {
            Some(n) => n,
            None => default,
        },
        None => default,
    }
}

/// A configured `i64`, falling back to `default`.
pub fn parse_env_i64(value: Option<&str>, default: i64) -> (r: i64)
    ensures
        r == (match value {
            Some(v) => match parsed_i64(v@) {
                Some(n) => n,
                None => default,
            },
            None => default,
        }),
{
    match value {
        Some(v) => match parse_i64(v) {
            Some(n) => n,
            None => default,
        },
        None => default,
    }
}

impl InactivityWatchdogConfig {
    /// The configuration from the configured interval (seconds) and batch
    /// size: unreadable values fall back to the defaults, and both are at
    /// least one.
    pub fn from_env(interval_secs: Option<&str>, batch_size: Option<&str>) -> (r: Self)
        ensures
            r.interval_secs == (if interval_setting(interval_secs) >= 1 {
                interval_setting(interval_secs)
            } else {
                1
            }),
            r.batch_size == (if batch_setting(batch_size) >= 1 {
                batch_setting(batch_size)
            } else {
                1
            }),
    {
        let interval = parse_env_u64(interval_secs, DEFAULT_INTERVAL_SECS);
        let batch = parse_env_i64(batch_size, DEFAULT_BATCH_SIZE);
        InactivityWatchdogConfig {
            interval_secs: if interval >= 1 {
                interval
            } else {
                1
            },
            batch_size: if batch >= 1 {
                batch
            } else {
                1
            },
        }
    }
}

/// The configuration never lets the watchdog spin or sweep nothing: whatever
/// is configured, both the interval and the batch are at least one.
pub proof fn lemma_config_positive(interval_secs: Option<&str>, batch_size: Option<&str>)
    ensures
        (if interval_setting(interval_secs) >= 1 {
            interval_setting(interval_secs)
        } else {
            1
        }) >= 1,
        (if batch_setting(batch_size) >= 1 {
            batch_setting(batch_size)
        } else {
            1
        }) >= 1,
{
}

} // verus!
