use inheritx::error::ApiError;
use inheritx::governance::{
    FinalizeAction, GovernanceService, ParameterPayload, ParameterUpdateRequest, ProposalStatus,
    VoteColumn, VoteRequest,
};

fn bad(msg: &str) -> ApiError {
    ApiError::BadRequest(msg.to_string())
}

#[test]
fn status_text_round_trips() {
    for s in [ProposalStatus::Active, ProposalStatus::Passed, ProposalStatus::Rejected, ProposalStatus::Executed] {
        assert_eq!(ProposalStatus::from_str(s.as_str()), Ok(s));
    }
    assert_eq!(ProposalStatus::from_str("open"), Err(bad("Unknown proposal status: open")));
}

#[test]
fn parameter_in_range_is_accepted() {
    assert!(GovernanceService::validate_parameter("platform_fee_bps", "250").is_ok());
    assert!(GovernanceService::validate_parameter("governance_quorum", " 3 ").is_ok());
}

#[test]
fn parameter_errors_explain_themselves() {
    assert_eq!(
        GovernanceService::validate_parameter("", "1"),
        Err(bad("parameter_name must not be empty"))
    );
    assert_eq!(
        GovernanceService::validate_parameter("Fee", "1"),
        Err(bad("parameter_name 'Fee' contains invalid characters; only lowercase letters, digits, and underscores are allowed"))
    );
    assert_eq!(
        GovernanceService::validate_parameter("platform_fee_bps", ""),
        Err(bad("parameter_value for 'platform_fee_bps' must not be empty"))
    );
    assert_eq!(
        GovernanceService::validate_parameter("platform_fee_bps", "-5"),
        Err(bad("parameter_value '-5' for 'platform_fee_bps' is not a valid non-negative integer"))
    );
    assert_eq!(
        GovernanceService::validate_parameter("insurance_fund_fee_bps", "5001"),
        Err(bad("parameter_value 5001 for 'insurance_fund_fee_bps' is out of range [0, 5000] (Insurance fund contribution in basis points)"))
    );
    let unknown = GovernanceService::validate_parameter("max_loans", "1").unwrap_err();
    match unknown {
        ApiError::BadRequest(m) => assert!(m.starts_with("Unknown parameter 'max_loans'. Allowed parameters: governance_quorum")),
        other => panic!("unexpected {:?}", other),
    }
}

#[test]
fn direct_update_is_validated() {
    let req = ParameterUpdateRequest {
        parameter_name: "loan_max_duration_days".to_string(),
        parameter_value: "0".to_string(),
    };
    assert!(GovernanceService::check_parameter_update(&req).is_err());
}

#[test]
fn proposal_actions_are_checked() {
    let payload = ParameterPayload {
        parameter_name: Some("max_beneficiaries_per_plan".to_string()),
        parameter_value: Some("10".to_string()),
    };
    assert!(GovernanceService::validate_action("update_parameter", Some(&payload)).is_ok());
    assert_eq!(
        GovernanceService::validate_action("transfer_funds", Some(&payload)),
        Err(bad("Unsupported proposal action type: transfer_funds"))
    );
    assert_eq!(
        GovernanceService::validate_action("update_parameter", None),
        Err(bad("action_payload required for update_parameter proposals"))
    );
    let (n, v) = GovernanceService::check_action_for_execution("update_parameter", &payload).unwrap();
    assert_eq!((n.as_str(), v.as_str()), ("max_beneficiaries_per_plan", "10"));
    let missing = ParameterPayload { parameter_name: None, parameter_value: Some("1".to_string()) };
    assert_eq!(
        GovernanceService::check_action_for_execution("update_parameter", &missing),
        Err(bad("Missing parameter_name in action payload"))
    );
}

#[test]
fn votes_only_on_open_proposals() {
    assert!(GovernanceService::check_vote_allowed("active", 100, 100).is_ok());
    assert_eq!(
        GovernanceService::check_vote_allowed("active", 99, 100),
        Err(bad("Proposal is no longer active for voting"))
    );
    assert!(GovernanceService::check_vote_allowed("passed", 200, 100).is_err());
    assert_eq!(
        GovernanceService::check_vote_recorded(0),
        Err(bad("You have already voted on this proposal"))
    );
    assert!(GovernanceService::check_vote_recorded(1).is_ok());
    assert_eq!(GovernanceService::vote_column(&VoteRequest { supports: true }), VoteColumn::Yes);
    assert_eq!(GovernanceService::vote_column(&VoteRequest { supports: false }), VoteColumn::No);
}

#[test]
fn expired_proposal_is_decided_by_votes() {
    assert_eq!(GovernanceService::tally(3, 1, 4), ProposalStatus::Passed);
    assert_eq!(GovernanceService::tally(3, 1, 5), ProposalStatus::Rejected);
    assert_eq!(GovernanceService::tally(2, 2, 1), ProposalStatus::Rejected);
    assert_eq!(
        GovernanceService::evaluate_proposal_status("active", 10, 20, 0, 0, 1),
        Ok(ProposalStatus::Active)
    );
    assert_eq!(
        GovernanceService::evaluate_proposal_status("active", 30, 20, 5, 1, 3),
        Ok(ProposalStatus::Passed)
    );
    assert_eq!(
        GovernanceService::evaluate_proposal_status("executed", 30, 20, 5, 1, 3),
        Ok(ProposalStatus::Executed)
    );
}

#[test]
fn finalizing_follows_the_status() {
    assert_eq!(
        GovernanceService::finalize_action("active", 10, 20, 5, 0, 1),
        Err(bad("Proposal voting period has not ended yet"))
    );
    assert_eq!(
        GovernanceService::finalize_action("active", 30, 20, 5, 0, 1),
        Ok(FinalizeAction::Store(ProposalStatus::Passed))
    );
    assert_eq!(GovernanceService::finalize_action("passed", 30, 20, 0, 0, 1), Ok(FinalizeAction::Keep));
    assert_eq!(
        GovernanceService::finalize_action("executed", 30, 20, 0, 0, 1),
        Err(bad("Proposal has already been executed"))
    );
    assert!(GovernanceService::check_executable("passed").is_ok());
    assert_eq!(
        GovernanceService::check_executable("rejected"),
        Err(bad("Proposal has not passed and cannot be executed"))
    );
}

#[test]
fn quorum_setting_is_at_least_one() {
    assert_eq!(GovernanceService::quorum_threshold(None), 1);
    assert_eq!(GovernanceService::quorum_threshold(Some("7")), 7);
    assert_eq!(GovernanceService::quorum_threshold(Some("0")), 1);
    assert_eq!(GovernanceService::quorum_threshold(Some("many")), 1);
}
