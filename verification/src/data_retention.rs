//! Data retention: how long each kind of record is kept, and how a user's
//! data is anonymised when it is deleted without a hard delete.
use vstd::prelude::*;
use crate::text::{parse_i64, parse_u64, parsed_i64, parsed_u64, uuid_text, uuid_to_string};

verus! {

/// Default retention of notifications, in days.
pub const DEFAULT_NOTIFICATIONS_DAYS: i64 = 180;

/// Default retention of action logs, in days.
pub const DEFAULT_ACTION_LOGS_DAYS: i64 = 365;

/// Default retention of sessions, in days.
pub const DEFAULT_SESSIONS_DAYS: i64 = 30;

/// Default interval of the archive worker, in seconds.
pub const DEFAULT_ARCHIVE_INTERVAL_SECS: u64 = 3600;

/// How long records of one kind are kept and what happens to them after.
#[derive(Debug, Clone)]
pub struct RetentionPolicy {
    pub data_type: &'static str,
    pub table_name: &'static str,
    pub retention_days: i64,
    pub action: &'static str,
}

/// How many records one archive run moved.
#[derive(Debug, Clone, Copy, PartialEq, Eq, Structural)]
pub struct ArchiveRunResult {
    pub archived_notifications: i64,
    pub archived_action_logs: i64,
}

/// A user's request to delete their data.
#[derive(Debug, Clone, Copy, PartialEq, Eq, Structural)]
pub struct DeleteDataRequest {
    pub hard_delete: bool,
}

/// A number of days from its configuration value: the value when it reads
/// as an `i64`, else the default.
pub open spec fn days_setting(value: Option<&str>, default: i64) -> i64 {
    match value {
        Some(v) => match parsed_i64(v@) {
            Some(n) => n,
            None => default,
        },
        None => default,
    }
}

/// A number of seconds from its configuration value: the value when it reads
/// as a `u64`, else the default.
pub open spec fn secs_setting(value: Option<&str>, default: u64) -> u64 {
    match value {
        Some(v) => match parsed_u64(v@) {
            Some(n) => n,
            None => default,
        },
        None => default,
    }
}

/// A signed number setting, falling back to `default`.
pub fn read_i64(value: Option<&str>, default: i64) -> (r: i64)
    ensures
        r == days_setting(value, default),
{
    match value {
        Some(v) => match parse_i64(v) {
            Some(n) => n,
            None => default,
        },
        None => default,
    }
}

/// An unsigned number setting, falling back to `default`.
pub fn read_u64(value: Option<&str>, default: u64) -> (r: u64)
    ensures
        r == secs_setting(value, default),
{
    match value {
        Some(v) => match parse_u64(v) {
            Some(n) => n,
            None => default,
        },
        None => default,
    }
}

/// The e-mail address a softly deleted user is left with.
pub open spec fn anonymised_email_text(user_id: u128) -> Seq<char> {
    "deleted+"@ + uuid_text(user_id) + "@redacted.local"@
}

/// Retention rules and the anonymisation of deleted users.
pub struct DataRetentionService;

impl DataRetentionService {
    /// The retention policies, from the configured numbers of days of
    /// notifications, action logs and sessions (each falling back to its
    /// default): notifications and action logs are archived then deleted,
    /// sessions deleted.
    pub fn policies(
        notifications_days: Option<&str>,
        action_logs_days: Option<&str>,
        sessions_days: Option<&str>,
    ) -> (r: Vec<RetentionPolicy>)
        ensures
            r@.len() == 3,
            r@[0].data_type@ == "notifications"@,
            r@[0].table_name@ == "notifications"@,
            r@[0].retention_days == days_setting(notifications_days, DEFAULT_NOTIFICATIONS_DAYS),
            r@[0].action@ == "archive_then_delete"@,
            r@[1].data_type@ == "action_logs"@,
            r@[1].table_name@ == "action_logs"@,
            r@[1].retention_days == days_setting(action_logs_days, DEFAULT_ACTION_LOGS_DAYS),
            r@[1].action@ == "archive_then_delete"@,
            r@[2].data_type@ == "sessions"@,
            r@[2].table_name@ == "sessions"@,
            r@[2].retention_days == days_setting(sessions_days, DEFAULT_SESSIONS_DAYS),
            r@[2].action@ == "delete"@,
    {
        let mut r: Vec<RetentionPolicy> = Vec::new();
        r.push(
            RetentionPolicy {
                data_type: "notifications",
                table_name: "notifications",
                retention_days: read_i64(notifications_days, DEFAULT_NOTIFICATIONS_DAYS),
                action: "archive_then_delete",
            },
        );
        r.push(
            RetentionPolicy {
                data_type: "action_logs",
                table_name: "action_logs",
                retention_days: read_i64(action_logs_days, DEFAULT_ACTION_LOGS_DAYS),
                action: "archive_then_delete",
            },
        );
        r.push(
            RetentionPolicy {
                data_type: "sessions",
                table_name: "sessions",
                retention_days: read_i64(sessions_days, DEFAULT_SESSIONS_DAYS),
                action: "delete",
            },
        );
        r
    }

    /// The interval of the archive worker, from its configured value.
    pub fn archive_interval_secs(value: Option<&str>) -> (r: u64)
        ensures
            r == secs_setting(value, DEFAULT_ARCHIVE_INTERVAL_SECS),
    {
        read_u64(value, DEFAULT_ARCHIVE_INTERVAL_SECS)
    }

    /// The counts of an archive run from the numbers of rows each move
    /// affected.
    pub fn archive_result(notifications_rows: u64, action_log_rows: u64) -> (r: ArchiveRunResult)
        ensures
            r.archived_notifications == notifications_rows as i64,
            r.archived_action_logs == action_log_rows as i64,
    {
        ArchiveRunResult {
            archived_notifications: notifications_rows as i64,
            archived_action_logs: action_log_rows as i64,
        }
    }

    /// The address a softly deleted user's e-mail is replaced with:
    /// `deleted+<id>@redacted.local`.
    pub fn anonymised_email(user_id: u128) -> (r: String)
        ensures
            r@ == anonymised_email_text(user_id),
    {
        let mut r = "deleted+".to_owned();
        r.append(uuid_to_string(user_id).as_str());
        r.append("@redacted.local");
        r
    }
}

} // verus!
