use inheritx::compliance::{
    commit_poll_step, dispatch_realtime_event, get_realtime_compliance_listener,
    high_velocity_reason, needs_flag, realtime_checks, register_realtime_compliance_listener,
    should_screen_candidate, sudden_activity_reason, sanctions_hit_reason, flag_notification,
    abnormal_volume_reason, cumulative_volume_reason, AlertHistory, AlertKey, CommitPoll,
    ComplianceCheck, ComplianceEngine, EventType, LendingEvent, ListenerRegistry,
    RealtimeComplianceListener, ALERT_COOLDOWN_MICROS,
};
use inheritx::decimal::Dec;
use inheritx::error::ApiError;
use std::cell::RefCell;

struct RecordingListener {
    seen: RefCell<Vec<u128>>,
    fail: bool,
}

impl RealtimeComplianceListener for RecordingListener {
    fn on_event(&self, event: LendingEvent) -> Result<(), ApiError> {
        self.seen.borrow_mut().push(event.id);
        if self.fail {
            Err(ApiError::Internal("handler failure".to_string()))
        } else {
            Ok(())
        }
    }
}

fn borrow_event(id: u128) -> LendingEvent {
    LendingEvent {
        id,
        event_type: EventType::Borrow,
        user_id: 7,
        plan_id: Some(9),
        asset_code: "USDC".to_string(),
        amount: Dec { mantissa: 1000, scale: 0 },
        transaction_hash: None,
        block_number: None,
        event_timestamp: 1_700_000_000_000_000,
        created_at: 1_700_000_000_000_000,
    }
}

#[test]
fn test_compliance_engine_new() {
    let engine = ComplianceEngine::new(5, 15, Dec { mantissa: 50000, scale: 0 });
    assert_eq!(engine.velocity_threshold, 5);
    assert_eq!(engine.velocity_window_mins, 15);
    assert_eq!(engine.volume_threshold.mantissa, 50000);
}

#[test]
fn test_realtime_event_dispatch_does_not_block() {
    let mut registry = ListenerRegistry::new();
    let listener = RecordingListener { seen: RefCell::new(Vec::new()), fail: false };
    assert!(register_realtime_compliance_listener(&mut registry, listener).is_ok());
    let outcome = dispatch_realtime_event(&registry, borrow_event(42));
    assert!(matches!(outcome, Some(Ok(()))));
    let l = get_realtime_compliance_listener(&registry).unwrap();
    assert_eq!(*l.seen.borrow(), vec![42u128]);
}

#[test]
fn test_realtime_check_error_does_not_block_caller() {
    let mut registry = ListenerRegistry::new();
    let listener = RecordingListener { seen: RefCell::new(Vec::new()), fail: true };
    register_realtime_compliance_listener(&mut registry, listener).unwrap();
    let outcome = dispatch_realtime_event(&registry, borrow_event(43));
    assert!(matches!(outcome, Some(Err(ApiError::Internal(_)))));
    assert_eq!(*get_realtime_compliance_listener(&registry).unwrap().seen.borrow(), vec![43u128]);
}

#[test]
fn dispatch_without_listener_drops_the_event() {
    let registry: ListenerRegistry<RecordingListener> = ListenerRegistry::new();
    assert!(dispatch_realtime_event(&registry, borrow_event(1)).is_none());
    assert!(get_realtime_compliance_listener(&registry).is_none());
}

#[test]
fn second_listener_registration_is_refused() {
    let mut registry = ListenerRegistry::new();
    let first = RecordingListener { seen: RefCell::new(Vec::new()), fail: false };
    let second = RecordingListener { seen: RefCell::new(Vec::new()), fail: true };
    assert!(register_realtime_compliance_listener(&mut registry, first).is_ok());
    assert_eq!(
        register_realtime_compliance_listener(&mut registry, second),
        Err("real-time compliance listener already registered")
    );
    let kept = get_realtime_compliance_listener(&registry).unwrap();
    assert!(!kept.fail);
}

#[test]
fn dispatch_reaches_the_first_listener_only() {
    let mut registry = ListenerRegistry::new();
    let first = RecordingListener { seen: RefCell::new(Vec::new()), fail: false };
    let second = RecordingListener { seen: RefCell::new(Vec::new()), fail: true };
    register_realtime_compliance_listener(&mut registry, first).unwrap();
    assert!(register_realtime_compliance_listener(&mut registry, second).is_err());
    let outcome = dispatch_realtime_event(&registry, borrow_event(77));
    assert!(matches!(outcome, Some(Ok(()))));
    let kept = get_realtime_compliance_listener(&registry).unwrap();
    assert!(!kept.fail);
    assert_eq!(*kept.seen.borrow(), vec![77u128]);
}

#[test]
fn test_duplicate_alerts_are_suppressed_within_cooldown() {
    let mut engine = ComplianceEngine::new(3, 10, Dec { mantissa: 100000, scale: 0 });
    let now: i64 = 1_700_000_000_000_000;
    let first = engine.try_emit_violation_alert(11, "high_velocity", "high", now);
    assert!(first);
    let second = engine.try_emit_violation_alert(11, "high_velocity", "high", now + 1);
    assert!(!second);
}

#[test]
fn alert_is_raised_again_after_cooldown() {
    let mut history = AlertHistory::new();
    let key = || AlertKey { entity_id: 5, rule_id: "abnormal_volume".to_string(), severity: "high".to_string() };
    let t: i64 = 1_000_000_000;
    assert!(history.try_record(key(), t));
    assert!(!history.try_record(key(), t + ALERT_COOLDOWN_MICROS - 1));
    assert!(history.try_record(key(), t + ALERT_COOLDOWN_MICROS));
}

#[test]
fn alerts_differ_by_entity_rule_and_severity() {
    let mut engine = ComplianceEngine::new(3, 10, Dec { mantissa: 100000, scale: 0 });
    let now: i64 = 5_000_000_000;
    assert!(engine.try_emit_violation_alert(1, "high_velocity", "high", now));
    assert!(engine.try_emit_violation_alert(2, "high_velocity", "high", now));
    assert!(engine.try_emit_violation_alert(1, "abnormal_volume", "high", now));
    assert!(engine.try_emit_violation_alert(1, "high_velocity", "medium", now));
    assert!(!engine.try_emit_violation_alert(1, "high_velocity", "high", now));
}

#[test]
fn checks_depend_on_event_type() {
    assert_eq!(
        realtime_checks(EventType::Borrow),
        vec![
            ComplianceCheck::AbnormalVolume,
            ComplianceCheck::SuddenActivitySpike,
            ComplianceCheck::HighVelocity
        ]
    );
    assert_eq!(realtime_checks(EventType::Repay), vec![ComplianceCheck::HighVelocity]);
    assert!(realtime_checks(EventType::Liquidation).is_empty());
    assert!(realtime_checks(EventType::InterestAccrual).is_empty());
}

#[test]
fn commit_is_polled_five_times() {
    assert_eq!(commit_poll_step(1, true), CommitPoll::Committed);
    assert_eq!(commit_poll_step(1, false), CommitPoll::PollAgain);
    assert_eq!(commit_poll_step(4, false), CommitPoll::PollAgain);
    assert_eq!(commit_poll_step(5, false), CommitPoll::NotCommitted);
}

#[test]
fn velocity_counts_the_new_event() {
    let engine = ComplianceEngine::new(3, 10, Dec { mantissa: 100000, scale: 0 });
    assert_eq!(engine.velocity_violation(1), None);
    assert_eq!(engine.velocity_violation(2), Some(3));
    assert_eq!(engine.velocity_violation(9), Some(10));
}

#[test]
fn volume_at_threshold_is_abnormal() {
    let engine = ComplianceEngine::new(3, 10, Dec { mantissa: 100000, scale: 0 });
    assert!(engine.is_abnormal_volume(&Dec { mantissa: 10000000, scale: 2 }));
    assert!(engine.is_abnormal_volume(&Dec { mantissa: 100001, scale: 0 }));
    assert!(!engine.is_abnormal_volume(&Dec { mantissa: 9999999, scale: 2 }));
}

#[test]
fn dormancy_rule_needs_an_old_plan() {
    let day: i64 = 86_400_000_000;
    let now: i64 = 100 * day;
    assert!(ComplianceEngine::plan_old_enough(now - 30 * day, now));
    assert!(!ComplianceEngine::plan_old_enough(now - 29 * day, now));
}

#[test]
fn reasons_read_as_recorded() {
    assert_eq!(
        high_velocity_reason(5, 10),
        "High velocity detected: 5 borrowing events in last 10 minutes"
    );
    assert_eq!(
        abnormal_volume_reason(&Dec { mantissa: 150000, scale: 0 }, "USDC", &Dec { mantissa: 100000, scale: 0 }),
        "Abnormal volume detected: Borrowed 150000 USDC (Threshold: 100000)"
    );
    assert_eq!(
        cumulative_volume_reason(&Dec { mantissa: 1205, scale: 1 }, "XLM", 10, &Dec { mantissa: 100, scale: 0 }),
        "Abnormal cumulative volume detected: Net 120.5 XLM in 10 minutes (Threshold: 100)"
    );
    assert_eq!(
        sudden_activity_reason(),
        "Sudden activity spike: Borrowing after 30+ days of dormancy"
    );
    assert_eq!(sanctions_hit_reason("OFAC match"), "Sanctions screening hit: OFAC match");
    assert_eq!(
        flag_notification("x"),
        "ALARM: Your account has been flagged for abnormal activity: x. A compliance officer has been notified."
    );
}

#[test]
fn plan_is_not_flagged_twice_for_one_reason() {
    assert!(needs_flag(None, "r1"));
    assert!(needs_flag(Some("r2 | r3"), "r1"));
    assert!(!needs_flag(Some("r2 | r1"), "r1"));
}

#[test]
fn candidates_without_contact_are_not_screened() {
    assert!(!should_screen_candidate("", None));
    assert!(should_screen_candidate("a@b.c", None));
    assert!(should_screen_candidate("", Some("GABC")));
}

#[test]
fn other_alerts_do_not_suppress_each_other() {
    let mut engine = ComplianceEngine::new(3, 10, Dec { mantissa: 100000, scale: 0 });
    let now: i64 = 1_700_000_000_000_000;
    assert!(engine.try_emit_violation_alert(11, "high_velocity", "high", now));
    assert!(engine.try_emit_violation_alert(11, "high_velocity", "medium", now + 1));
    assert!(engine.try_emit_violation_alert(12, "high_velocity", "high", now + 2));
    assert!(!engine.try_emit_violation_alert(11, "high_velocity", "high", now + ALERT_COOLDOWN_MICROS - 1));
    assert!(engine.try_emit_violation_alert(11, "high_velocity", "high", now + ALERT_COOLDOWN_MICROS));
}
