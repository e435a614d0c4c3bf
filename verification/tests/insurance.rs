use inheritx::decimal::Dec;
use inheritx::error::ApiError;
use inheritx::insurance::{
    ClaimReview, FundStatus, InsuranceFundService, ProcessInsuranceClaimRequest, ReserveUpdate,
};

fn d(m: i128, s: u32) -> Dec {
    Dec { mantissa: m, scale: s }
}

fn same(a: Dec, m: i128, s: u32) -> bool {
    a.mantissa * 10i128.pow(s) == m * 10i128.pow(a.scale)
}

fn bad(msg: &str) -> ApiError {
    ApiError::BadRequest(msg.to_string())
}

#[test]
fn fund_status_text() {
    assert_eq!(FundStatus::Critical.as_str(), "critical");
    assert_eq!(FundStatus::from_str("insolvent"), Ok(FundStatus::Insolvent));
    assert_eq!(FundStatus::from_str("whatever"), Ok(FundStatus::Healthy));
}

#[test]
fn coverage_ratio_of_reserves() {
    let r = InsuranceFundService::calculate_coverage_ratio(d(300, 0), d(200, 0)).unwrap();
    assert!(same(r, 15, 1));
    let unbounded = InsuranceFundService::calculate_coverage_ratio(d(300, 0), d(0, 0)).unwrap();
    assert_eq!((unbounded.mantissa, unbounded.scale), (9999, 0));
}

#[test]
fn health_score_interpolates() {
    let score = InsuranceFundService::calculate_health_score(d(15, 1), d(1, 0), d(2, 0)).unwrap();
    assert!(same(score, 50, 0));
    let top = InsuranceFundService::calculate_health_score(d(3, 0), d(1, 0), d(2, 0)).unwrap();
    assert_eq!((top.mantissa, top.scale), (100, 0));
    let bottom = InsuranceFundService::calculate_health_score(d(1, 0), d(1, 0), d(2, 0)).unwrap();
    assert_eq!(bottom.mantissa, 0);
}

#[test]
fn status_follows_thresholds() {
    let t = (d(5, 1), d(1, 0), d(15, 1));
    assert_eq!(InsuranceFundService::determine_status(d(2, 0), t), FundStatus::Healthy);
    assert_eq!(InsuranceFundService::determine_status(d(12, 1), t), FundStatus::Warning);
    assert_eq!(InsuranceFundService::determine_status(d(6, 1), t), FundStatus::Critical);
    assert_eq!(InsuranceFundService::determine_status(d(4, 1), t), FundStatus::Insolvent);
}

#[test]
fn fund_metrics_note_status_changes() {
    let m = InsuranceFundService::evaluate_fund_metrics(d(100, 0), d(200, 0), d(5, 1), d(1, 0), d(15, 1), "healthy")
        .unwrap();
    assert_eq!(m.status, FundStatus::Critical);
    assert!(m.status_changed);
    assert_eq!(m.health_score.mantissa, 0);
    let same = InsuranceFundService::evaluate_fund_metrics(d(400, 0), d(200, 0), d(5, 1), d(1, 0), d(15, 1), "healthy")
        .unwrap();
    assert!(!same.status_changed);
    assert_eq!(
        InsuranceFundService::status_change_notice("Primary", FundStatus::Warning, &d(125, 2), &d(504, 1)),
        "Insurance Fund 'Primary' status changed to warning. Coverage ratio: 1.25, Health Score: 50"
    );
}

#[test]
fn transactions_move_the_balance() {
    let up = InsuranceFundService::balance_after("contribution", d(100, 0), d(5, 0)).unwrap();
    assert!(same(up, 105, 0));
    let down = InsuranceFundService::balance_after("fee", d(100, 0), d(5, 0)).unwrap();
    assert!(same(down, 95, 0));
    let same = InsuranceFundService::balance_after("transfer", d(100, 0), d(5, 0)).unwrap();
    assert_eq!(same.mantissa, 100);
    assert_eq!(InsuranceFundService::reserve_update("payout"), Ok(ReserveUpdate::Payout));
    assert_eq!(
        InsuranceFundService::reserve_update("gift"),
        Err(bad("Invalid transaction type: gift"))
    );
}

#[test]
fn claims_need_a_solvent_fund_and_a_claimant() {
    assert_eq!(
        InsuranceFundService::check_fund_accepts_claims("insolvent"),
        Err(bad("Fund is currently insolvent. New claims cannot be created."))
    );
    assert!(InsuranceFundService::check_fund_accepts_claims("warning").is_ok());
    assert_eq!(InsuranceFundService::resolve_claim_user_id(None, Some(4), Some(5)), Ok(4));
    assert_eq!(
        InsuranceFundService::resolve_claim_user_id(None, None, None),
        Err(bad("user_id is required when plan_id and loan_id are not provided"))
    );
}

#[test]
fn claim_review_rules() {
    let approve = ProcessInsuranceClaimRequest { approved: true, approved_amount: Some(d(50, 0)), rejection_reason: None };
    match InsuranceFundService::review_claim("pending", d(80, 0), None, &approve) {
        Ok(ClaimReview::Approve(a)) => assert_eq!(a.mantissa, 50),
        other => panic!("unexpected {:?}", other),
    }
    let too_much = ProcessInsuranceClaimRequest { approved: true, approved_amount: Some(d(90, 0)), rejection_reason: None };
    assert_eq!(
        InsuranceFundService::review_claim("pending", d(80, 0), None, &too_much).unwrap_err(),
        bad("Approved amount cannot exceed claimed amount")
    );
    let no_reason = ProcessInsuranceClaimRequest { approved: false, approved_amount: None, rejection_reason: Some("  ".to_string()) };
    assert_eq!(
        InsuranceFundService::review_claim("pending", d(80, 0), None, &no_reason).unwrap_err(),
        bad("Rejection reason is required when rejecting a claim")
    );
    let reject = ProcessInsuranceClaimRequest { approved: false, approved_amount: None, rejection_reason: Some("fraud".to_string()) };
    match InsuranceFundService::review_claim("approved", d(80, 0), Some(d(60, 0)), &reject) {
        Ok(ClaimReview::RejectApproved(a)) => assert_eq!(a.mantissa, 60),
        other => panic!("unexpected {:?}", other),
    }
    assert_eq!(
        InsuranceFundService::review_claim("paid", d(80, 0), None, &reject).unwrap_err(),
        bad("Claim cannot be processed from its current state")
    );
}

#[test]
fn payouts_need_approval_and_locked_reserves() {
    assert_eq!(
        InsuranceFundService::check_fund_can_approve("healthy", d(10, 0), d(11, 0)),
        Err(bad("Insufficient available fund reserves to approve this claim"))
    );
    assert!(InsuranceFundService::check_fund_can_approve("healthy", d(11, 0), d(11, 0)).is_ok());
    assert_eq!(
        InsuranceFundService::payout_amount("pending", Some(d(1, 0))).unwrap_err(),
        bad("Claim is not approved for payout")
    );
    assert_eq!(InsuranceFundService::payout_amount("approved", Some(d(7, 0))).map(|a| a.mantissa), Ok(7));
    assert_eq!(
        InsuranceFundService::check_locked_reserves(d(5, 0), d(6, 0)),
        Err(ApiError::Internal("Insufficient locked fund reserves for payout".to_string()))
    );
}

#[test]
fn dashboard_figures() {
    let p = InsuranceFundService::dashboard_coverage_percentage(d(0, 0), d(12, 1));
    assert_eq!(p.mantissa, 9999);
    assert_eq!(
        InsuranceFundService::health_status_description("critical"),
        "Fund coverage is critically low - immediate action required"
    );
    let change = InsuranceFundService::change_since(d(10, 0), Some(d(4, 0))).unwrap().unwrap();
    assert!(same(change, 6, 0));
    assert!(InsuranceFundService::change_since(d(10, 0), None).is_none());
}

#[test]
fn fund_status_text_round_trips() {
    for s in [FundStatus::Healthy, FundStatus::Warning, FundStatus::Critical, FundStatus::Insolvent] {
        assert_eq!(FundStatus::from_str(s.as_str()), Ok(s));
    }
}

#[test]
fn claim_notices_read_as_sent() {
    assert_eq!(
        InsuranceFundService::claim_decision_notice(true, &d(2500, 2), None),
        "Your insurance claim for 25.00 was approved"
    );
    assert_eq!(
        InsuranceFundService::claim_decision_notice(false, &d(1, 0), Some("duplicate")),
        "Your insurance claim was rejected: duplicate"
    );
    assert_eq!(
        InsuranceFundService::claim_decision_notice(false, &d(1, 0), None),
        "Your insurance claim was rejected: No reason provided"
    );
    assert_eq!(
        InsuranceFundService::payout_notice(&d(75, 0)),
        "Your insurance claim payout of 75 has been processed"
    );
    assert_eq!(
        InsuranceFundService::payout_description(0xff),
        "Insurance claim payout for claim 00000000-0000-0000-0000-0000000000ff"
    );
}
