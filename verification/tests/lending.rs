use inheritx::decimal::Dec;
use inheritx::lending::{
    collateral_asset_or_default, history_bucket, snapshot_interval_secs,
    InterestReconciliationService, LiquidationBotService, LoanCheck, RiskEngine, RiskTransition,
};

fn d(m: i128, s: u32) -> Dec {
    Dec { mantissa: m, scale: s }
}

fn same(a: Dec, m: i128, s: u32) -> bool {
    a.mantissa * 10i128.pow(s) == m * 10i128.pow(a.scale)
}

#[test]
fn discrepancy_above_threshold_is_flagged() {
    let svc = InterestReconciliationService { discrepancy_threshold: d(1, 0) };
    let far = svc.compare(&d(100, 0), &d(1025, 1)).unwrap();
    assert!(same(far.difference, 25, 1));
    assert!(far.exceeds_threshold);
    let near = svc.compare(&d(100, 0), &d(99, 0)).unwrap();
    assert!(same(near.difference, 1, 0));
    assert!(!near.exceeds_threshold);
}

#[test]
fn thresholds_by_collateral_asset() {
    let engine = RiskEngine { liquidation_threshold: d(75, 2) };
    assert!(same(engine.liquidation_threshold_for("usdc"), 95, 2));
    assert!(same(engine.liquidation_threshold_for("WETH"), 85, 2));
    assert!(same(engine.liquidation_threshold_for("wbtc"), 85, 2));
    assert!(same(engine.liquidation_threshold_for("stellar_xlm"), 80, 2));
    assert!(same(engine.liquidation_threshold_for("DOGE"), 75, 2));
}

#[test]
fn loan_turns_risky_below_threshold() {
    let engine = RiskEngine { liquidation_threshold: d(75, 2) };
    let check = engine.assess_loan(&d(100, 0), &d(1, 0), "USDC", Some(d(90, 0)), &d(1, 0), Some(false), None);
    match check {
        LoanCheck::Assessed(a) => {
            assert!(same(a.health_factor, 9, 1));
            assert!(a.is_risky);
            assert_eq!(a.transition, RiskTransition::BecameRisky);
        }
        other => panic!("unexpected {:?}", other),
    }
}

#[test]
fn override_never_marks_risky() {
    let engine = RiskEngine { liquidation_threshold: d(75, 2) };
    let check = engine.assess_loan(&d(100, 0), &d(1, 0), "ETH", Some(d(10, 0)), &d(1, 0), Some(true), Some(true));
    match check {
        LoanCheck::Assessed(a) => {
            assert!(!a.is_risky);
            assert_eq!(a.transition, RiskTransition::NoLongerRisky);
        }
        other => panic!("unexpected {:?}", other),
    }
}

#[test]
fn healthy_loan_and_worthless_debt() {
    let engine = RiskEngine { liquidation_threshold: d(75, 2) };
    match engine.assess_loan(&d(100, 0), &d(1, 0), "XLM", Some(d(200, 0)), &d(1, 0), None, None) {
        LoanCheck::Assessed(a) => {
            assert!(same(a.health_factor, 2, 0));
            assert!(!a.is_risky);
            assert_eq!(a.transition, RiskTransition::Unchanged);
        }
        other => panic!("unexpected {:?}", other),
    }
    assert!(matches!(
        engine.assess_loan(&d(100, 0), &d(0, 0), "XLM", None, &d(1, 0), None, None),
        LoanCheck::NoDebtValue
    ));
}

#[test]
fn warning_names_plan_and_factor() {
    let msg = RiskEngine::liquidation_warning(1, &d(9, 1));
    assert_eq!(
        msg,
        "WARNING: Your loan against plan 00000000-0000-0000-0000-000000000001 is at risk of liquidation. Health factor is now 0.90. Please add collateral or repay some debt."
    );
}

#[test]
fn liquidation_seizes_debt_plus_penalty_within_collateral() {
    let bot = LiquidationBotService { liquidation_penalty_rate: d(5, 2) };
    let plan = bot.plan_liquidation(&d(100, 0), Some("ETH".to_string()), Some(d(200, 0))).unwrap();
    assert!(same(plan.debt_covered, 100, 0));
    assert!(same(plan.liquidation_penalty, 5, 0));
    assert!(same(plan.collateral_seized, 105, 0));
    assert_eq!(plan.collateral_asset, "ETH");
    let capped = bot.plan_liquidation(&d(100, 0), None, Some(d(50, 0))).unwrap();
    assert!(same(capped.collateral_seized, 50, 0));
    assert_eq!(capped.collateral_asset, "USDC");
    let nothing = bot.plan_liquidation(&d(100, 0), None, None).unwrap();
    assert!(same(nothing.collateral_seized, 0, 0));
}

#[test]
fn liquidation_notice_reads_as_sent() {
    let msg = LiquidationBotService::liquidation_notice(2, &d(100, 0), "USDC", &d(105, 0), "ETH");
    assert_eq!(
        msg,
        "Your loan against plan 00000000-0000-0000-0000-000000000002 has been liquidated. 100 USDC debt was covered by seizing 105 ETH."
    );
}

#[test]
fn history_buckets_and_snapshot_interval() {
    assert_eq!(history_bucket("hourly"), "hour");
    assert_eq!(history_bucket("weekly"), "week");
    assert_eq!(history_bucket("monthly"), "month");
    assert_eq!(history_bucket("daily"), "day");
    assert_eq!(history_bucket("yearly"), "day");
    assert_eq!(snapshot_interval_secs(None), 3600);
    assert_eq!(snapshot_interval_secs(Some("120")), 120);
    assert_eq!(collateral_asset_or_default(None), "USDC");
}

#[test]
fn threshold_by_uppercased_symbol() {
    let engine = RiskEngine { liquidation_threshold: d(75, 2) };
    assert!(same(engine.threshold_for_uppercased("ETH"), 85, 2));
    assert!(same(engine.threshold_for_uppercased("USDC"), 95, 2));
    assert!(same(engine.threshold_for_uppercased("STELLAR_XLM"), 80, 2));
    assert!(same(engine.threshold_for_uppercased("eth"), 75, 2));
}

#[test]
fn uuid_text_is_hyphenated_lowercase_hex() {
    assert_eq!(
        inheritx::text::uuid_to_string(0xa1a2a3a4b1b2c1c2d1d2d3d4d5d6d7d8u128),
        "a1a2a3a4-b1b2-c1c2-d1d2-d3d4d5d6d7d8"
    );
    assert_eq!(inheritx::text::uuid_to_string(0), "00000000-0000-0000-0000-000000000000");
}
