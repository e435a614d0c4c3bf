use inheritx::data_retention::{ArchiveRunResult, DataRetentionService, DeleteDataRequest};
use inheritx::emergency_access_jobs::EmergencyAccessJobService;
use inheritx::inactivity_watchdog::{
    InactivityWatchdogConfig, DEFAULT_BATCH_SIZE, DEFAULT_INTERVAL_SECS,
};
use std::time::Duration;

#[test]
fn emergency_access_job_service_exists() {
    let _service = EmergencyAccessJobService;
}

#[test]
fn config_uses_safe_defaults() {
    let config = InactivityWatchdogConfig::from_env(None, None);
    assert_eq!(Duration::from_secs(config.interval_secs), Duration::from_secs(DEFAULT_INTERVAL_SECS));
    assert_eq!(config.batch_size, DEFAULT_BATCH_SIZE);
}

#[test]
fn config_applies_env_overrides() {
    let config = InactivityWatchdogConfig::from_env(Some("30"), Some("25"));
    assert_eq!(Duration::from_secs(config.interval_secs), Duration::from_secs(30));
    assert_eq!(config.batch_size, 25);
}

#[test]
fn config_rejects_zero_values() {
    let config = InactivityWatchdogConfig::from_env(Some("0"), Some("0"));
    assert_eq!(Duration::from_secs(config.interval_secs), Duration::from_secs(1));
    assert_eq!(config.batch_size, 1);
}

#[test]
fn config_ignores_unreadable_values() {
    let config = InactivityWatchdogConfig::from_env(Some("soon"), Some("-4"));
    assert_eq!(config.interval_secs, 3600);
    assert_eq!(config.batch_size, 1);
}

#[test]
fn retention_policies_use_defaults() {
    let p = DataRetentionService::policies(None, None, None);
    assert_eq!(p.len(), 3);
    assert_eq!(p[0].data_type, "notifications");
    assert_eq!(p[0].retention_days, 180);
    assert_eq!(p[0].action, "archive_then_delete");
    assert_eq!(p[1].table_name, "action_logs");
    assert_eq!(p[1].retention_days, 365);
    assert_eq!(p[2].data_type, "sessions");
    assert_eq!(p[2].retention_days, 30);
    assert_eq!(p[2].action, "delete");
}

#[test]
fn retention_policies_apply_overrides() {
    let p = DataRetentionService::policies(Some("90"), Some("bad"), Some("-1"));
    assert_eq!(p[0].retention_days, 90);
    assert_eq!(p[1].retention_days, 365);
    assert_eq!(p[2].retention_days, -1);
    assert_eq!(DataRetentionService::archive_interval_secs(None), 3600);
    assert_eq!(DataRetentionService::archive_interval_secs(Some("60")), 60);
}

#[test]
fn archive_result_counts_rows() {
    let r = DataRetentionService::archive_result(3, 4);
    assert_eq!(r, ArchiveRunResult { archived_notifications: 3, archived_action_logs: 4 });
    let req = DeleteDataRequest { hard_delete: false };
    assert!(!req.hard_delete);
}

#[test]
fn anonymised_email_names_the_user() {
    let email = DataRetentionService::anonymised_email(0x67e5_5044_10b1_426f_9247_bb68_0e5f_e0c8);
    assert_eq!(email, "deleted+67e55044-10b1-426f-9247-bb680e5fe0c8@redacted.local");
}
