//! Governance rules: proposal statuses, the protocol-parameter allowlist with
//! its value ranges, the voting gate, and how an expired proposal is decided.
//!
//! Instants are microseconds since the Unix epoch.

use vstd::prelude::*;

use crate::error::{is_bad_request, ApiError};
use crate::text::{
    concat2, concat3, decimal_string, parse_i32, parse_u64, parsed_i32, parsed_u64, str_eq, trim,
    trimmed, u64_to_string,
};

verus! {

/// The life-cycle state of a governance proposal.
#[derive(Debug, Clone, Copy, PartialEq, Eq, Structural)]
pub enum ProposalStatus {
    Active,
    Passed,
    Rejected,
    Executed,
}

/// The text each status is stored as.
pub open spec fn status_text(s: ProposalStatus) -> Seq<char> {
    match s {
        ProposalStatus::Active => "active"@,
        ProposalStatus::Passed => "passed"@,
        ProposalStatus::Rejected => "rejected"@,
        ProposalStatus::Executed => "executed"@,
    }
}

/// The status stored as `s`, if any.
pub open spec fn status_from_text(s: Seq<char>) -> Option<ProposalStatus> {
    if s == "active"@ {
        Some(ProposalStatus::Active)
    } else if s == "passed"@ {
        Some(ProposalStatus::Passed)
    } else if s == "rejected"@ {
        Some(ProposalStatus::Rejected)
    } else if s == "executed"@ {
        Some(ProposalStatus::Executed)
    } else {
        None
    }
}

pub open spec fn unknown_status_message(s: Seq<char>) -> Seq<char> {
    "Unknown proposal status: "@ + s
}

impl ProposalStatus {
    pub fn as_str(&self) -> (r: &'static str)
        ensures
            r@ == status_text(*self),
    {
        match self {
            ProposalStatus::Active => "active",
            ProposalStatus::Passed => "passed",
            ProposalStatus::Rejected => "rejected",
            ProposalStatus::Executed => "executed",
        }
    }

    /// Reads a stored status; any other text is a bad request.
    pub fn from_str(s: &str) -> (r: Result<ProposalStatus, ApiError>)
        ensures
            status_from_text(s@) is Some ==> r == Ok::<ProposalStatus, ApiError>(
                status_from_text(s@)->0,
            ),
            status_from_text(s@) is None ==> is_bad_request(r, unknown_status_message(s@)),
    {
        if str_eq(s, "active") {
            Ok(ProposalStatus::Active)
        } else if str_eq(s, "passed") {
            Ok(ProposalStatus::Passed)
        } else if str_eq(s, "rejected") {
            Ok(ProposalStatus::Rejected)
        } else if str_eq(s, "executed") {
            Ok(ProposalStatus::Executed)
        } else {
            Err(ApiError::BadRequest(concat2("Unknown proposal status: ", s)))
        }
    }
}

/// A vote on a proposal.
pub struct VoteRequest {
    pub supports: bool,
}

/// A direct protocol-parameter update.
pub struct ParameterUpdateRequest {
    pub parameter_name: String,
    pub parameter_value: String,
}

/// The fields of an `update_parameter` action payload that are strings:
/// `None` where the field is missing or not a string.
pub struct ParameterPayload {
    pub parameter_name: Option<String>,
    pub parameter_value: Option<String>,
}

/// An allowlisted protocol parameter: the inclusive range its value must lie
/// in, and what it governs.
pub struct ParameterRule {
    pub name: &'static str,
    pub min: u64,
    pub max: u64,
    pub description: &'static str,
}

/// The allowlist: each parameter with its inclusive `[min, max]` range.
pub open spec fn parameter_range(name: Seq<char>) -> Option<(u64, u64)> {
    if name == "governance_quorum"@ {
        Some((1u64, 1_000_000u64))
    } else if name == "governance_voting_period_days"@ {
        Some((1u64, 365u64))
    } else if name == "platform_fee_bps"@ {
        Some((0u64, 10_000u64))
    } else if name == "insurance_fund_fee_bps"@ {
        Some((0u64, 5_000u64))
    } else if name == "loan_liquidation_threshold_bps"@ {
        Some((1u64, 10_000u64))
    } else if name == "loan_max_duration_days"@ {
        Some((1u64, 3_650u64))
    } else if name == "loan_min_collateral_bps"@ {
        Some((1u64, 100_000u64))
    } else if name == "max_beneficiaries_per_plan"@ {
        Some((1u64, 100u64))
    } else if name == "claim_inactivity_period_days"@ {
        Some((1u64, 3_650u64))
    } else {
        None
    }
}

/// The description the allowlist gives each parameter.
pub open spec fn parameter_description(name: Seq<char>) -> Seq<char> {
    if name == "governance_quorum"@ {
        "Minimum votes required for a proposal to pass"@
    } else if name == "governance_voting_period_days"@ {
        "Duration of the voting period in days"@
    } else if name == "platform_fee_bps"@ {
        "Platform fee in basis points (0–100%)"@
    } else if name == "insurance_fund_fee_bps"@ {
        "Insurance fund contribution in basis points"@
    } else if name == "loan_liquidation_threshold_bps"@ {
        "Collateral ratio at which a loan is liquidated (basis points)"@
    } else if name == "loan_max_duration_days"@ {
        "Maximum allowed loan duration in days"@
    } else if name == "loan_min_collateral_bps"@ {
        "Minimum collateral ratio for new loans (basis points)"@
    } else if name == "max_beneficiaries_per_plan"@ {
        "Maximum number of beneficiaries allowed per inheritance plan"@
    } else {
        "Days of inactivity before a claim can be triggered"@
    }
}

/// The allowlisted names, in table order, joined by ", ".
pub open spec fn allowed_parameter_list() -> Seq<char> {
    "governance_quorum, governance_voting_period_days, platform_fee_bps, insurance_fund_fee_bps, loan_liquidation_threshold_bps, loan_max_duration_days, loan_min_collateral_bps, max_beneficiaries_per_plan, claim_inactivity_period_days"@
}

/// A character a parameter name may hold: `a`–`z`, `0`–`9` or `_`.
pub open spec fn is_name_char(c: char) -> bool {
    let n = c as u32;
    (97 <= n <= 122) || (48 <= n <= 57) || n == 95
}

pub open spec fn is_valid_name_text(s: Seq<char>) -> bool {
    forall|i: int| 0 <= i < s.len() ==> is_name_char(#[trigger] s[i])
}

pub open spec fn empty_name_message() -> Seq<char> {
    "parameter_name must not be empty"@
}

pub open spec fn invalid_name_message(name: Seq<char>) -> Seq<char> {
    "parameter_name '"@ + name
        + "' contains invalid characters; only lowercase letters, digits, and underscores are allowed"@
}

pub open spec fn unknown_parameter_message(name: Seq<char>) -> Seq<char> {
    "Unknown parameter '"@ + name + "'. Allowed parameters: "@ + allowed_parameter_list()
}

pub open spec fn empty_value_message(name: Seq<char>) -> Seq<char> {
    "parameter_value for '"@ + name + "' must not be empty"@
}

pub open spec fn not_integer_message(name: Seq<char>, value: Seq<char>) -> Seq<char> {
    "parameter_value '"@ + value + "' for '"@ + name + "' is not a valid non-negative integer"@
}

pub open spec fn out_of_range_message(name: Seq<char>, v: u64, lo: u64, hi: u64) -> Seq<char> {
    "parameter_value "@ + decimal_string(v as nat) + " for '"@ + name + "' is out of range ["@
        + decimal_string(lo as nat) + ", "@ + decimal_string(hi as nat) + "] ("@
        + parameter_description(name) + ")"@
}

/// The outcome of validating a parameter update: `Ok(())`, or the message of
/// the bad request it is refused with.
pub open spec fn parameter_verdict(name: Seq<char>, value: Seq<char>) -> Result<(), Seq<char>> {
    if name.len() == 0 {
        Err(empty_name_message())
    } else if !is_valid_name_text(name) {
        Err(invalid_name_message(name))
    } else if parameter_range(name) is None {
        Err(unknown_parameter_message(name))
    } else if value.len() == 0 {
        Err(empty_value_message(name))
    } else if parsed_u64(trimmed(value)) is None {
        Err(not_integer_message(name, value))
    } else {
        let v = parsed_u64(trimmed(value))->0;
        let (lo, hi) = parameter_range(name)->0;
        if v < lo || v > hi {
            Err(out_of_range_message(name, v, lo, hi))
        } else {
            Ok(())
        }
    }
}

/// `r` is what validating `name = value` answers.
pub open spec fn parameter_check_result(
    r: Result<(), ApiError>,
    name: Seq<char>,
    value: Seq<char>,
) -> bool {
    match parameter_verdict(name, value) {
        Ok(()) => r is Ok,
        Err(msg) => is_bad_request(r, msg),
    }
}

fn is_name_character(c: char) -> (r: bool)
    ensures
        r == is_name_char(c),
{
    let n = c as u32;
    (97 <= n && n <= 122) || (48 <= n && n <= 57) || n == 95
}

fn valid_name_text(s: &str) -> (r: bool)
    ensures
        r == is_valid_name_text(s@),
{
    let n = s.unicode_len();
    let mut i: usize = 0;
    while i < n
        invariant
            n == s@.len(),
            i <= n,
            forall|j: int| 0 <= j < i ==> is_name_char(#[trigger] s@[j]),
        decreases n - i,
    {
        if !is_name_character(s.get_char(i)) {
            return false;
        }
        i = i + 1;
    }
    true
}

fn rule(name: &'static str, min: u64, max: u64, description: &'static str) -> (r: ParameterRule)
    ensures
        r.name == name,
        r.min == min,
        r.max == max,
        r.description == description,
{
    ParameterRule { name, min, max, description }
}

/// Finds `name` in the allowlist.
pub fn find_parameter_rule(name: &str) -> (r: Option<ParameterRule>)
    ensures
        r is Some <==> parameter_range(name@) is Some,
        r is Some ==> (r->0.min, r->0.max) == parameter_range(name@)->0 && r->0.name@ == name@
            && r->0.description@ == parameter_description(name@),
{
    if str_eq(name, "governance_quorum") {
        Some(rule("governance_quorum", 1, 1_000_000, "Minimum votes required for a proposal to pass"))
    } else if str_eq(name, "governance_voting_period_days") {
        Some(rule("governance_voting_period_days", 1, 365, "Duration of the voting period in days"))
    } else if str_eq(name, "platform_fee_bps") {
        Some(rule("platform_fee_bps", 0, 10_000, "Platform fee in basis points (0–100%)"))
    } else if str_eq(name, "insurance_fund_fee_bps") {
        Some(rule("insurance_fund_fee_bps", 0, 5_000, "Insurance fund contribution in basis points"))
    } else if str_eq(name, "loan_liquidation_threshold_bps") {
        Some(
            rule(
                "loan_liquidation_threshold_bps",
                1,
                10_000,
                "Collateral ratio at which a loan is liquidated (basis points)",
            ),
        )
    } else if str_eq(name, "loan_max_duration_days") {
        Some(rule("loan_max_duration_days", 1, 3_650, "Maximum allowed loan duration in days"))
    } else if str_eq(name, "loan_min_collateral_bps") {
        Some(
            rule(
                "loan_min_collateral_bps",
                1,
                100_000,
                "Minimum collateral ratio for new loans (basis points)",
            ),
        )
    } else if str_eq(name, "max_beneficiaries_per_plan") {
        Some(
            rule(
                "max_beneficiaries_per_plan",
                1,
                100,
                "Maximum number of beneficiaries allowed per inheritance plan",
            ),
        )
    } else if str_eq(name, "claim_inactivity_period_days") {
        Some(
            rule(
                "claim_inactivity_period_days",
                1,
                3_650,
                "Days of inactivity before a claim can be triggered",
            ),
        )
    } else {
        None
    }
}

/// Where an action payload's field is missing, or `action_type` is not one
/// that proposals support.
pub open spec fn action_verdict(
    action_type: Seq<char>,
    payload: Option<ParameterPayload>,
) -> Result<(Seq<char>, Seq<char>), Seq<char>> {
    if action_type != "update_parameter"@ {
        Err("Unsupported proposal action type: "@ + action_type)
    } else if payload is None {
        Err("action_payload required for update_parameter proposals"@)
    } else if payload->0.parameter_name is None {
        Err("action_payload.parameter_name is required"@)
    } else if payload->0.parameter_value is None {
        Err("action_payload.parameter_value is required"@)
    } else {
        Ok((payload->0.parameter_name->0@, payload->0.parameter_value->0@))
    }
}

/// The bad request that executing a passed proposal's action answers, if any.
pub open spec fn apply_verdict(
    action_type: Seq<char>,
    payload: ParameterPayload,
) -> Result<(Seq<char>, Seq<char>), Seq<char>> {
    if action_type != "update_parameter"@ {
        Err("Unsupported proposal action type: "@ + action_type)
    } else if payload.parameter_name is None {
        Err("Missing parameter_name in action payload"@)
    } else if payload.parameter_value is None {
        Err("Missing parameter_value in action payload"@)
    } else {
        Ok((payload.parameter_name->0@, payload.parameter_value->0@))
    }
}

/// How a proposal is decided from its status and clock, before its votes are
/// counted: `Ok(Some(s))` settles it as `s`, `Ok(None)` means the votes decide.
pub open spec fn status_before_tally(status: Seq<char>, now: i64, expires_at: i64) -> Result<
    Option<ProposalStatus>,
    Seq<char>,
> {
    match status_from_text(status) {
        None => Err(unknown_status_message(status)),
        Some(current) => if current == ProposalStatus::Executed || current
            == ProposalStatus::Rejected {
            Ok(Some(current))
        } else if now <= expires_at {
            Ok(Some(ProposalStatus::Active))
        } else {
            Ok(None)
        },
    }
}

/// The outcome of counting the votes of an expired proposal.
pub open spec fn tally(yes_votes: i32, no_votes: i32, quorum: i32) -> ProposalStatus {
    if yes_votes + no_votes >= quorum && yes_votes > no_votes {
        ProposalStatus::Passed
    } else {
        ProposalStatus::Rejected
    }
}

/// What finalizing a proposal does.
#[derive(Debug, Clone, Copy, PartialEq, Eq, Structural)]
pub enum FinalizeAction {
    /// The proposal already carries its final passed/rejected status.
    Keep,
    /// The voting period is over: store this status.
    Store(ProposalStatus),
}

/// What `VoteRequest::supports` adds a vote to.
#[derive(Debug, Clone, Copy, PartialEq, Eq, Structural)]
pub enum VoteColumn {
    Yes,
    No,
}

/// The quorum the `governance_quorum` setting gives: its value read as an
/// `i32`, or 1 where it is missing or not a number, and never below 1.
pub open spec fn quorum_from(setting: Option<Seq<char>>) -> i32 {
    let v = match setting {
        Some(s) => match parsed_i32(s) {
            Some(q) => q,
            None => 1i32,
        },
        None => 1i32,
    };
    if v < 1 {
        1i32
    } else {
        v
    }
}

/// The governance rules.
pub struct GovernanceService;

impl GovernanceService {
    /// Validates a parameter name and value before anything is written: the
    /// name must be non-empty, of `a`–`z`, `0`–`9` and `_`, and allowlisted; the
    /// value must be non-empty and, trimmed, a `u64` in the parameter's range.
    pub fn validate_parameter(name: &str, value: &str) -> (r: Result<(), ApiError>)
        ensures
            parameter_check_result(r, name@, value@),
    {
        if name.unicode_len() == 0 {
            return Err(ApiError::BadRequest("parameter_name must not be empty".to_owned()));
        }
        if !valid_name_text(name) {
            return Err(
                ApiError::BadRequest(
                    concat3(
                        "parameter_name '",
                        name,
                        "' contains invalid characters; only lowercase letters, digits, and underscores are allowed",
                    ),
                ),
            );
        }
        let rule = match find_parameter_rule(name) {
            Some(rule) => rule,
            None => {
                let m = concat3(
                    "Unknown parameter '",
                    name,
                    "'. Allowed parameters: ",
                );
                let m = m.concat(
                    "governance_quorum, governance_voting_period_days, platform_fee_bps, insurance_fund_fee_bps, loan_liquidation_threshold_bps, loan_max_duration_days, loan_min_collateral_bps, max_beneficiaries_per_plan, claim_inactivity_period_days",
                );
                return Err(ApiError::BadRequest(m));
            },
        };
        if value.unicode_len() == 0 {
            return Err(
                ApiError::BadRequest(
                    concat3("parameter_value for '", name, "' must not be empty"),
                ),
            );
        }
        let parsed = match parse_u64(trim(value)) {
            Some(v) => v,
            None => {
                let m = concat3("parameter_value '", value, "' for '");
                let m = m.concat(name);
                let m = m.concat("' is not a valid non-negative integer");
                return Err(ApiError::BadRequest(m));
            },
        };
        if parsed < rule.min || parsed > rule.max {
            let m = concat2("parameter_value ", u64_to_string(parsed).as_str());
            let m = m.concat(" for '");
            let m = m.concat(name);
            let m = m.concat("' is out of range [");
            let m = m.concat(u64_to_string(rule.min).as_str());
            let m = m.concat(", ");
            let m = m.concat(u64_to_string(rule.max).as_str());
            let m = m.concat("] (");
            let m = m.concat(rule.description);
            let m = m.concat(")");
            return Err(ApiError::BadRequest(m));
        }
        Ok(())
    }

    /// Validates a direct parameter update.
    pub fn check_parameter_update(req: &ParameterUpdateRequest) -> (r: Result<(), ApiError>)
        ensures
            parameter_check_result(r, req.parameter_name@, req.parameter_value@),
    {
        Self::validate_parameter(req.parameter_name.as_str(), req.parameter_value.as_str())
    }

    /// Validates the action a new proposal carries: only `update_parameter`,
    /// with a payload whose parameter passes `validate_parameter`.
    pub fn validate_action(action_type: &str, payload: Option<&ParameterPayload>) -> (r: Result<
        (),
        ApiError,
    >)
        ensures
            ({
                let p = match payload {
                    Some(p) => Some(*p),
                    None => None,
                };
                match action_verdict(action_type@, p) {
                    Err(msg) => is_bad_request(r, msg),
                    Ok((name, value)) => parameter_check_result(r, name, value),
                }
            }),
    {
        if !str_eq(action_type, "update_parameter") {
            return Err(
                ApiError::BadRequest(concat2("Unsupported proposal action type: ", action_type)),
            );
        }
        let payload = match payload {
            Some(p) => p,
            None => {
                return Err(
                    ApiError::BadRequest(
                        "action_payload required for update_parameter proposals".to_owned(),
                    ),
                );
            },
        };
        let name = match &payload.parameter_name {
            Some(n) => n,
            None => {
                return Err(
                    ApiError::BadRequest("action_payload.parameter_name is required".to_owned()),
                );
            },
        };
        let value = match &payload.parameter_value {
            Some(v) => v,
            None => {
                return Err(
                    ApiError::BadRequest("action_payload.parameter_value is required".to_owned()),
                );
            },
        };
        Self::validate_parameter(name.as_str(), value.as_str())
    }

    /// Checks, at execution time, the action of a passed proposal, and gives the
    /// parameter name and value to write.
    pub fn check_action_for_execution(action_type: &str, payload: &ParameterPayload) -> (r: Result<
        (String, String),
        ApiError,
    >)
        ensures
            match apply_verdict(action_type@, *payload) {
                Err(msg) => is_bad_request(r, msg),
                Ok((name, value)) => match parameter_verdict(name, value) {
                    Err(msg) => is_bad_request(r, msg),
                    Ok(()) => r matches Ok((n, v)) && n@ == name && v@ == value,
                },
            },
    {
        if !str_eq(action_type, "update_parameter") {
            return Err(
                ApiError::BadRequest(concat2("Unsupported proposal action type: ", action_type)),
            );
        }
        let name = match &payload.parameter_name {
            Some(n) => n,
            None => {
                return Err(
                    ApiError::BadRequest("Missing parameter_name in action payload".to_owned()),
                );
            },
        };
        let value = match &payload.parameter_value {
            Some(v) => v,
            None => {
                return Err(
                    ApiError::BadRequest("Missing parameter_value in action payload".to_owned()),
                );
            },
        };
        match Self::validate_parameter(name.as_str(), value.as_str()) {
            Ok(()) => Ok((name.clone(), value.clone())),
            Err(e) => Err(e),
        }
    }

    /// Whether a vote may be cast: the proposal must be `active` and not past
    /// its expiry.
    pub fn check_vote_allowed(status: &str, expires_at: i64, now: i64) -> (r: Result<(), ApiError>)
        ensures
            r is Ok <==> (status@ == "active"@ && !(expires_at < now)),
            r is Err ==> is_bad_request(r, "Proposal is no longer active for voting"@),
    {
        if !str_eq(status, "active") || expires_at < now {
            return Err(ApiError::BadRequest("Proposal is no longer active for voting".to_owned()));
        }
        Ok(())
    }

    /// A vote is refused when the voter's vote was not recorded because one
    /// already exists.
    pub fn check_vote_recorded(rows_affected: u64) -> (r: Result<(), ApiError>)
        ensures
            r is Ok <==> rows_affected != 0,
            r is Err ==> is_bad_request(r, "You have already voted on this proposal"@),
    {
        if rows_affected == 0 {
            return Err(ApiError::BadRequest("You have already voted on this proposal".to_owned()));
        }
        Ok(())
    }

    /// The count a vote adds to.
    pub fn vote_column(req: &VoteRequest) -> (r: VoteColumn)
        ensures
            r == (if req.supports {
                VoteColumn::Yes
            } else {
                VoteColumn::No
            }),
    {
        if req.supports {
            VoteColumn::Yes
        } else {
            VoteColumn::No
        }
    }

    /// Decides a proposal from its status and clock before counting votes.
    pub fn status_before_tally(status: &str, now: i64, expires_at: i64) -> (r: Result<
        Option<ProposalStatus>,
        ApiError,
    >)
        ensures
            match status_before_tally(status@, now, expires_at) {
                Ok(o) => r == Ok::<Option<ProposalStatus>, ApiError>(o),
                Err(msg) => is_bad_request(r, msg),
            },
    {
        let current = ProposalStatus::from_str(status)?;
        if current == ProposalStatus::Executed || current == ProposalStatus::Rejected {
            return Ok(Some(current));
        }
        if now <= expires_at {
            return Ok(Some(ProposalStatus::Active));
        }
        Ok(None)
    }

    /// Counts the votes of an expired proposal: it passes with at least
    /// `quorum` votes and more yes than no votes.
    pub fn tally(yes_votes: i32, no_votes: i32, quorum: i32) -> (r: ProposalStatus)
        requires
            i32::MIN <= yes_votes + no_votes <= i32::MAX,
        ensures
            r == tally(yes_votes, no_votes, quorum),
            (r == ProposalStatus::Passed) == (yes_votes + no_votes >= quorum && yes_votes > no_votes),
            r == ProposalStatus::Passed || r == ProposalStatus::Rejected,
    {
        let total_votes = yes_votes + no_votes;
        if total_votes >= quorum && yes_votes > no_votes {
            ProposalStatus::Passed
        } else {
            ProposalStatus::Rejected
        }
    }

    /// Evaluates whether a proposal has passed or been rejected after its
    /// voting period, `quorum` being the current quorum setting.
    pub fn evaluate_proposal_status(
        status: &str,
        now: i64,
        expires_at: i64,
        yes_votes: i32,
        no_votes: i32,
        quorum: i32,
    ) -> (r: Result<ProposalStatus, ApiError>)
        requires
            i32::MIN <= yes_votes + no_votes <= i32::MAX,
        ensures
            match status_before_tally(status@, now, expires_at) {
                Ok(Some(s)) => r == Ok::<ProposalStatus, ApiError>(s),
                Ok(None) => r == Ok::<ProposalStatus, ApiError>(tally(yes_votes, no_votes, quorum)),
                Err(msg) => is_bad_request(r, msg),
            },
    {
        match Self::status_before_tally(status, now, expires_at)? {
            Some(s) => Ok(s),
            None => Ok(Self::tally(yes_votes, no_votes, quorum)),
        }
    }

    /// What finalizing a proposal does: an executed proposal is refused, a
    /// passed or rejected one is kept, an active one past its voting period is
    /// stored with the outcome of its votes, and one still in its voting period
    /// is refused.
    pub fn finalize_action(
        status: &str,
        now: i64,
        expires_at: i64,
        yes_votes: i32,
        no_votes: i32,
        quorum: i32,
    ) -> (r: Result<FinalizeAction, ApiError>)
        requires
            i32::MIN <= yes_votes + no_votes <= i32::MAX,
        ensures
            match status_from_text(status@) {
                None => is_bad_request(r, unknown_status_message(status@)),
                Some(ProposalStatus::Executed) => is_bad_request(
                    r,
                    "Proposal has already been executed"@,
                ),
                Some(ProposalStatus::Passed) => r == Ok::<FinalizeAction, ApiError>(
                    FinalizeAction::Keep,
                ),
                Some(ProposalStatus::Rejected) => r == Ok::<FinalizeAction, ApiError>(
                    FinalizeAction::Keep,
                ),
                Some(ProposalStatus::Active) => if now <= expires_at {
                    is_bad_request(r, "Proposal voting period has not ended yet"@)
                } else {
                    r == Ok::<FinalizeAction, ApiError>(
                        FinalizeAction::Store(tally(yes_votes, no_votes, quorum)),
                    )
                },
            },
    {
        let current = ProposalStatus::from_str(status)?;
        if current == ProposalStatus::Executed {
            return Err(ApiError::BadRequest("Proposal has already been executed".to_owned()));
        }
        if current == ProposalStatus::Passed || current == ProposalStatus::Rejected {
            return Ok(FinalizeAction::Keep);
        }
        let evaluated = Self::evaluate_proposal_status(
            status,
            now,
            expires_at,
            yes_votes,
            no_votes,
            quorum,
        )?;
        if evaluated == ProposalStatus::Active {
            return Err(
                ApiError::BadRequest("Proposal voting period has not ended yet".to_owned()),
            );
        }
        Ok(FinalizeAction::Store(evaluated))
    }

    /// Only a passed proposal may be executed.
    pub fn check_executable(finalized_status: &str) -> (r: Result<(), ApiError>)
        ensures
            match status_from_text(finalized_status@) {
                None => is_bad_request(r, unknown_status_message(finalized_status@)),
                Some(ProposalStatus::Passed) => r is Ok,
                Some(_) => is_bad_request(r, "Proposal has not passed and cannot be executed"@),
            },
    {
        let status = ProposalStatus::from_str(finalized_status)?;
        if status != ProposalStatus::Passed {
            return Err(
                ApiError::BadRequest("Proposal has not passed and cannot be executed".to_owned()),
            );
        }
        Ok(())
    }

    /// The quorum from the stored `governance_quorum` setting.
    pub fn quorum_threshold(setting: Option<&str>) -> (r: i32)
        ensures
            r == quorum_from(
                match setting {
                    Some(s) => Some(s@),
                    None => None,
                },
            ),
            r >= 1,
    {
        let v = match setting {
            Some(s) => match parse_i32(s) {
                Some(q) => q,
                None => 1,
            },
            None => 1,
        };
        if v < 1 {
            1
        } else {
            v
        }
    }
}

/// Reading back the text a status is stored as gives that status again.
pub proof fn lemma_status_text_round_trip(s: ProposalStatus)
    ensures
        status_from_text(status_text(s)) == Some(s),
{
    reveal_strlit("active");
    reveal_strlit("passed");
    reveal_strlit("rejected");
    reveal_strlit("executed");
    assert("passed"@[0] != "active"@[0]);
    assert("rejected"@[0] != "active"@[0] && "rejected"@[0] != "passed"@[0]);
    assert("executed"@[0] != "active"@[0] && "executed"@[0] != "passed"@[0] && "executed"@[0]
        != "rejected"@[0]);
}

/// A parameter update that passes validation names an allowlisted parameter
/// and a value that, trimmed, parses to a `u64` inside the parameter's range.
pub proof fn lemma_accepted_parameter_in_range(name: Seq<char>, value: Seq<char>)
    requires
        parameter_verdict(name, value) is Ok,
    ensures
        parameter_range(name) is Some,
        parsed_u64(trimmed(value)) is Some,
        ({
            let (lo, hi) = parameter_range(name)->0;
            lo <= parsed_u64(trimmed(value))->0 <= hi
        }),
{
}

/// A proposal still inside its voting period never settles as passed or
/// rejected: whatever its votes, it stays active.
pub proof fn lemma_open_proposal_stays_active(status: Seq<char>, now: i64, expires_at: i64)
    requires
        status_from_text(status) == Some(ProposalStatus::Active),
        now <= expires_at,
    ensures
        status_before_tally(status, now, expires_at) == Ok::<
            Option<ProposalStatus>,
            Seq<char>,
        >(Some(ProposalStatus::Active)),
{
}

/// A proposal passes only with more yes than no votes and at least the
/// quorum of votes in all.
pub proof fn lemma_tally_needs_majority_and_quorum(yes_votes: i32, no_votes: i32, quorum: i32)
    ensures
        tally(yes_votes, no_votes, quorum) == ProposalStatus::Passed ==> yes_votes > no_votes
            && yes_votes + no_votes >= quorum,
        yes_votes <= no_votes ==> tally(yes_votes, no_votes, quorum) == ProposalStatus::Rejected,
{
}

/// A simple majority with the quorum is enough: a proposal with at least
/// `quorum` votes in all and more yes than no votes passes, and every other
/// proposal is rejected.
pub proof fn lemma_majority_with_quorum_passes(yes_votes: i32, no_votes: i32, quorum: i32)
    ensures
        yes_votes + no_votes >= quorum && yes_votes > no_votes ==> tally(yes_votes, no_votes, quorum)
            == ProposalStatus::Passed,
        !(yes_votes + no_votes >= quorum && yes_votes > no_votes) ==> tally(
            yes_votes,
            no_votes,
            quorum,
        ) == ProposalStatus::Rejected,
{
}

} // verus!
