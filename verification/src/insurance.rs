//! Insurance-fund rules: the fund's coverage ratio, reserve health score and
//! status, how a transaction moves the fund's balance, and the claim life
//! cycle (pending, approved with reserves locked, rejected, paid out).
//!
//! Identifiers are the 128-bit values of UUIDs.

use vstd::prelude::*;

use crate::decimal::{
    lemma_dec_le_transitive, as_dec, aligned_difference, aligned_sum, fits_aligned, is_exact_difference, is_exact_sum, is_exact_quotient, quotient_representable, MAX_MANTISSA, dec_checked_add, dec_checked_div, dec_checked_mul, dec_checked_sub, dec_le, dec_le_spec,
    dec_lt, dec_lt_spec, dec_max, dec_min, decimal_checked_add, decimal_checked_div,
    decimal_checked_mul, decimal_checked_sub, pow10, Dec, dec_to_string_0dp, dec_to_string_2dp,
    decimal_text_0dp, decimal_text_2dp, dec_to_string, decimal_text,
};
use crate::error::{is_bad_request, is_internal, ApiError};
use crate::text::{concat2, is_blank, str_eq, trimmed, uuid_text, uuid_to_string};

verus! {

/// The status of an insurance fund, from best to worst.
#[derive(Debug, Clone, Copy, PartialEq, Eq, Structural)]
pub enum FundStatus {
    Healthy,
    Warning,
    Critical,
    Insolvent,
}

/// The text each status is stored as.
pub open spec fn fund_status_text(s: FundStatus) -> Seq<char> {
    match s {
        FundStatus::Healthy => "healthy"@,
        FundStatus::Warning => "warning"@,
        FundStatus::Critical => "critical"@,
        FundStatus::Insolvent => "insolvent"@,
    }
}

/// How a stored status is read: an unknown text reads as `Healthy`.
pub open spec fn fund_status_from_text(s: Seq<char>) -> FundStatus {
    if s == "healthy"@ {
        FundStatus::Healthy
    } else if s == "warning"@ {
        FundStatus::Warning
    } else if s == "critical"@ {
        FundStatus::Critical
    } else if s == "insolvent"@ {
        FundStatus::Insolvent
    } else {
        FundStatus::Healthy
    }
}

/// A status's standing: 3 for `Healthy` down to 0 for `Insolvent`.
pub open spec fn fund_status_rank(s: FundStatus) -> int {
    match s {
        FundStatus::Healthy => 3,
        FundStatus::Warning => 2,
        FundStatus::Critical => 1,
        FundStatus::Insolvent => 0,
    }
}

impl FundStatus {
    pub fn as_str(&self) -> (r: &'static str)
        ensures
            r@ == fund_status_text(*self),
    {
        match self {
            FundStatus::Healthy => "healthy",
            FundStatus::Warning => "warning",
            FundStatus::Critical => "critical",
            FundStatus::Insolvent => "insolvent",
        }
    }

    /// Reads a stored status. It never fails: an unknown text reads as
    /// `Healthy`.
    pub fn from_str(s: &str) -> (r: Result<FundStatus, ()>)
        ensures
            r == Ok::<FundStatus, ()>(fund_status_from_text(s@)),
    {
        if str_eq(s, "healthy") {
            Ok(FundStatus::Healthy)
        } else if str_eq(s, "warning") {
            Ok(FundStatus::Warning)
        } else if str_eq(s, "critical") {
            Ok(FundStatus::Critical)
        } else if str_eq(s, "insolvent") {
            Ok(FundStatus::Insolvent)
        } else {
            Ok(FundStatus::Healthy)
        }
    }
}

/// The decimal `n` (scale 0).
pub open spec fn whole(n: int) -> Dec {
    Dec { mantissa: n as i128, scale: 0 }
}

/// The smaller of two decimals, the first when they are equal.
pub open spec fn dec_min_spec(a: Dec, b: Dec) -> Dec {
    if dec_le_spec(a, b) {
        a
    } else {
        b
    }
}

/// The larger of two decimals, the second when they are equal.
pub open spec fn dec_max_spec(a: Dec, b: Dec) -> Dec {
    if dec_le_spec(a, b) {
        b
    } else {
        a
    }
}

/// The coverage ratio: reserves over liabilities, and 9999 (unbounded
/// coverage) when there are no liabilities. `None` where the division
/// overflows.
pub open spec fn coverage_ratio(reserves: Dec, liabilities: Dec) -> Option<Dec> {
    if liabilities.mantissa == 0 {
        Some(whole(9999))
    } else {
        as_dec(
            decimal_checked_div(
                reserves.mantissa,
                reserves.scale,
                liabilities.mantissa,
                liabilities.scale,
            ),
        )
    }
}

/// The reserve health score: 100 at or above the target ratio, 0 at or below
/// the minimum ratio, 50 when the two ratios coincide, and in between the
/// linear interpolation `(coverage - min) / (target - min) * 100` held within
/// `[0, 100]`. `None` where an operation overflows.
pub open spec fn health_score(coverage: Dec, min_ratio: Dec, target_ratio: Dec) -> Option<Dec> {
    if dec_le_spec(target_ratio, coverage) {
        Some(whole(100))
    } else if dec_le_spec(coverage, min_ratio) {
        Some(whole(0))
    } else {
        match as_dec(
            decimal_checked_sub(
                target_ratio.mantissa,
                target_ratio.scale,
                min_ratio.mantissa,
                min_ratio.scale,
            ),
        ) {
            None => None,
            Some(range) => if range.mantissa == 0 {
                Some(whole(50))
            } else {
                match as_dec(
                    decimal_checked_sub(
                        coverage.mantissa,
                        coverage.scale,
                        min_ratio.mantissa,
                        min_ratio.scale,
                    ),
                ) {
                    None => None,
                    Some(above) => match as_dec(
                        decimal_checked_div(above.mantissa, above.scale, range.mantissa, range.scale),
                    ) {
                        None => None,
                        Some(share) => match as_dec(
                            decimal_checked_mul(share.mantissa, share.scale, 100, 0),
                        ) {
                            None => None,
                            Some(score) => Some(
                                dec_max_spec(dec_min_spec(score, whole(100)), whole(0)),
                            ),
                        },
                    },
                }
            },
        }
    }
}

/// The status a coverage ratio gives against the critical, minimum and target
/// ratios.
pub open spec fn status_for(coverage: Dec, critical: Dec, min_ratio: Dec, target: Dec) -> FundStatus {
    if dec_le_spec(target, coverage) {
        FundStatus::Healthy
    } else if dec_le_spec(min_ratio, coverage) {
        FundStatus::Warning
    } else if dec_le_spec(critical, coverage) {
        FundStatus::Critical
    } else {
        FundStatus::Insolvent
    }
}

/// How a transaction changes the fund's reserves.
#[derive(Debug, Clone, Copy, PartialEq, Eq, Structural)]
pub enum ReserveUpdate {
    /// Adds to total and available reserves and to total contributions.
    Contribution,
    /// Takes from total and available reserves and adds to total payouts.
    Payout,
    /// Adds to total and available reserves and to the yield earned.
    Yield,
    /// Takes from total and available reserves (fees and penalties).
    Deduction,
}

/// The reserve update a transaction type makes, if it is one the fund knows.
pub open spec fn reserve_update_of(tx_type: Seq<char>) -> Option<ReserveUpdate> {
    if tx_type == "contribution"@ {
        Some(ReserveUpdate::Contribution)
    } else if tx_type == "payout"@ {
        Some(ReserveUpdate::Payout)
    } else if tx_type == "yield"@ {
        Some(ReserveUpdate::Yield)
    } else if tx_type == "fee"@ || tx_type == "penalty"@ {
        Some(ReserveUpdate::Deduction)
    } else {
        None
    }
}

/// The balance a transaction leaves the fund with: the reserves plus the
/// amount for contributions and yield, minus it for payouts, fees and
/// penalties, unchanged otherwise. `None` where the arithmetic overflows.
pub open spec fn balance_after(tx_type: Seq<char>, total: Dec, amount: Dec) -> Option<Dec> {
    if tx_type == "contribution"@ || tx_type == "yield"@ {
        as_dec(decimal_checked_add(total.mantissa, total.scale, amount.mantissa, amount.scale))
    } else if tx_type == "payout"@ || tx_type == "fee"@ || tx_type == "penalty"@ {
        as_dec(decimal_checked_sub(total.mantissa, total.scale, amount.mantissa, amount.scale))
    } else {
        Some(total)
    }
}

/// The review of a claim as an administrator requests it.
pub struct ProcessInsuranceClaimRequest {
    pub approved: bool,
    pub approved_amount: Option<Dec>,
    pub rejection_reason: Option<String>,
}

/// The first step of reviewing a claim, decided from the claim alone.
#[derive(Debug, Clone, Copy)]
pub enum ClaimReview {
    /// Approve this amount, once the fund shows it can lock it.
    Approve(Dec),
    /// Reject a pending claim.
    Reject,
    /// Reject an approved claim, returning this locked amount to the
    /// available reserves.
    RejectApproved(Dec),
}

pub open spec fn reason_is_blank(reason: Option<String>) -> bool {
    match reason {
        Some(r) => trimmed(r@).len() == 0,
        None => true,
    }
}

/// The first step of reviewing a claim with status `status`, claimed amount
/// `claimed` and approved amount `approved_amount`: `Ok` with the review, or
/// the message of the bad request the review is refused with.
pub open spec fn claim_review(
    status: Seq<char>,
    claimed: Dec,
    approved_amount: Option<Dec>,
    req: ProcessInsuranceClaimRequest,
) -> Result<ClaimReview, Seq<char>> {
    if status != "pending"@ && status != "approved"@ {
        Err("Claim cannot be processed from its current state"@)
    } else if req.approved {
        if status == "approved"@ {
            Err("Claim is already approved"@)
        } else {
            let amount = match req.approved_amount {
                Some(a) => a,
                None => claimed,
            };
            if dec_le_spec(amount, whole(0)) {
                Err("Approved amount must be greater than zero"@)
            } else if dec_lt_spec(claimed, amount) {
                Err("Approved amount cannot exceed claimed amount"@)
            } else {
                Ok(ClaimReview::Approve(amount))
            }
        }
    } else if reason_is_blank(req.rejection_reason) {
        Err("Rejection reason is required when rejecting a claim"@)
    } else if status == "approved"@ {
        Ok(
            ClaimReview::RejectApproved(
                match approved_amount {
                    Some(a) => a,
                    None => whole(0),
                },
            ),
        )
    } else {
        Ok(ClaimReview::Reject)
    }
}

/// A fund's metrics after a recomputation.
#[derive(Debug, Clone, Copy)]
pub struct FundMetrics {
    pub coverage_ratio: Dec,
    pub health_score: Dec,
    pub status: FundStatus,
    pub status_changed: bool,
}

/// The metrics of a fund: its coverage ratio, the health score and status
/// that ratio gives, and whether that status differs from the stored one.
pub open spec fn fund_metrics(
    total_reserves: Dec,
    liabilities: Dec,
    critical_ratio: Dec,
    min_ratio: Dec,
    target_ratio: Dec,
    stored_status: Seq<char>,
) -> Option<FundMetrics> {
    match coverage_ratio(total_reserves, liabilities) {
        None => None,
        Some(c) => match health_score(c, min_ratio, target_ratio) {
            None => None,
            Some(h) => {
                let status = status_for(c, critical_ratio, min_ratio, target_ratio);
                Some(
                    FundMetrics {
                        coverage_ratio: c,
                        health_score: h,
                        status,
                        status_changed: fund_status_from_text(stored_status) != status,
                    },
                )
            },
        },
    }
}

/// The notice of a fund's status change.
pub open spec fn status_change_text(
    fund_name: Seq<char>,
    status: FundStatus,
    coverage: Dec,
    health: Dec,
) -> Seq<char> {
    "Insurance Fund '"@ + fund_name + "' status changed to "@ + fund_status_text(status)
        + ". Coverage ratio: "@ + decimal_text_2dp(coverage.mantissa, coverage.scale)
        + ", Health Score: "@ + decimal_text_0dp(health.mantissa, health.scale)
}

/// The view of an optional text.
pub open spec fn opt_text(s: Option<&str>) -> Option<Seq<char>> {
    match s {
        Some(t) => Some(t@),
        None => None,
    }
}

/// The notice of a claim review.
pub open spec fn claim_decision_text(
    approved: bool,
    claimed_amount: Dec,
    rejection_reason: Option<Seq<char>>,
) -> Seq<char> {
    if approved {
        "Your insurance claim for "@ + decimal_text(claimed_amount.mantissa, claimed_amount.scale)
            + " was approved"@
    } else {
        "Your insurance claim was rejected: "@ + match rejection_reason {
            Some(r) => r,
            None => "No reason provided"@,
        }
    }
}

/// The transaction types are different words.
proof fn lemma_transaction_words_distinct()
    ensures
        "contribution"@ != "yield"@,
        "contribution"@ != "payout"@,
        "contribution"@ != "fee"@,
        "contribution"@ != "penalty"@,
        "yield"@ != "payout"@,
        "yield"@ != "fee"@,
        "yield"@ != "penalty"@,
        "payout"@ != "fee"@,
        "payout"@ != "penalty"@,
        "fee"@ != "penalty"@,
{
    reveal_strlit("contribution");
    reveal_strlit("yield");
    reveal_strlit("payout");
    reveal_strlit("fee");
    reveal_strlit("penalty");
    assert("contribution"@.len() != "yield"@.len());
    assert("contribution"@.len() != "payout"@.len());
    assert("contribution"@.len() != "fee"@.len());
    assert("contribution"@.len() != "penalty"@.len());
    assert("yield"@.len() != "payout"@.len());
    assert("yield"@.len() != "fee"@.len());
    assert("yield"@.len() != "penalty"@.len());
    assert("payout"@.len() != "fee"@.len());
    assert("payout"@.len() != "penalty"@.len());
    assert("fee"@.len() != "penalty"@.len());
}

/// `s` is the interpolated health score of coverage `c` between the minimum
/// `m` and the target `t`: as numbers, `s = 100 * (c - m) / (t - m)`.
pub open spec fn is_interpolated_score(s: Dec, c: Dec, m: Dec, t: Dec) -> bool {
    let pc = pow10(c.scale as nat);
    let pm = pow10(m.scale as nat);
    let pt = pow10(t.scale as nat);
    s.mantissa * (t.mantissa * pm - m.mantissa * pt) * pc == 100 * (c.mantissa * pm - m.mantissa
        * pc) * pow10(s.scale as nat) * pt
}

/// The coverage `c` lies strictly between the minimum `m` and the target `t`,
/// and every step of the interpolation is exact in `Decimal`: the two
/// differences fit, their quotient can be written as a decimal, and a hundred
/// times that quotient fits.
pub open spec fn interpolation_exact(c: Dec, m: Dec, t: Dec) -> bool {
    let range = as_dec(decimal_checked_sub(t.mantissa, t.scale, m.mantissa, m.scale))->0;
    let above = as_dec(decimal_checked_sub(c.mantissa, c.scale, m.mantissa, m.scale))->0;
    let share = as_dec(
        decimal_checked_div(above.mantissa, above.scale, range.mantissa, range.scale),
    )->0;
    &&& dec_lt_spec(m, c)
    &&& dec_lt_spec(c, t)
    &&& fits_aligned(t, m, aligned_difference(t, m))
    &&& fits_aligned(c, m, aligned_difference(c, m))
    &&& quotient_representable(above, range)
    &&& -MAX_MANTISSA <= share.mantissa * 100 <= MAX_MANTISSA
}

/// Cross-multiplying an exact quotient: from `sm * rm * pa == 100 * am * pr
/// * ps` with `rm * u == t * pr` and `am * v == n * pa`, `sm * v * t == 100 *
/// ps * u * n`.
proof fn lemma_scaled_quotient(
    sm: int,
    rm: int,
    pa: int,
    am: int,
    pr: int,
    ps: int,
    u: int,
    v: int,
    t: int,
    n: int,
)
    requires
        sm * rm * pa == 100 * am * pr * ps,
        rm * u == t * pr,
        am * v == n * pa,
        pa > 0,
        pr > 0,
    ensures
        sm * v * t == 100 * ps * u * n,
{
    let w = pa * pr;
    assert((sm * rm * pa) * (u * v) == (sm * v) * pa * (rm * u)) by (nonlinear_arith);
    assert((100 * am * pr * ps) * (u * v) == (100 * ps * u) * pr * (am * v)) by (nonlinear_arith);
    assert((sm * v) * pa * (t * pr) == (sm * v * t) * w) by (nonlinear_arith)
        requires
            w == pa * pr,
    ;
    assert((100 * ps * u) * pr * (n * pa) == (100 * ps * u * n) * w) by (nonlinear_arith)
        requires
            w == pa * pr,
    ;
    assert(w * (sm * v * t) == w * (100 * ps * u * n)) by (nonlinear_arith)
        requires
            (sm * v * t) * w == (100 * ps * u * n) * w,
    ;
    assert(w > 0) by (nonlinear_arith)
        requires
            w == pa * pr,
            pa > 0,
            pr > 0,
    ;
    vstd::arithmetic::mul::lemma_mul_equality_converse(w, sm * v * t, 100 * ps * u * n);
}

/// For a coverage strictly between the minimum and the target, the exact
/// difference between the target and the minimum is positive.
proof fn lemma_range_positive(c: Dec, m: Dec, t: Dec, range: Dec)
    requires
        dec_lt_spec(m, c),
        dec_lt_spec(c, t),
        is_exact_difference(range, t, m),
    ensures
        range.mantissa > 0,
{
    let pc = pow10(c.scale as nat);
    let pm = pow10(m.scale as nat);
    let pt = pow10(t.scale as nat);
    let pr = pow10(range.scale as nat);
    crate::decimal::lemma_pow10_positive(c.scale as nat);
    crate::decimal::lemma_pow10_positive(m.scale as nat);
    crate::decimal::lemma_pow10_positive(t.scale as nat);
    crate::decimal::lemma_pow10_positive(range.scale as nat);
    let cm = c.mantissa as int;
    let mm = m.mantissa as int;
    let tm = t.mantissa as int;
    let rm = range.mantissa as int;
    let big_t = tm * pm - mm * pt;
    assert(mm * pt < tm * pm) by (nonlinear_arith)
        requires
            mm * pc < cm * pm,
            cm * pt < tm * pc,
            pc > 0,
            pm > 0,
            pt > 0,
    {
        assert(mm * pc * pt < cm * pm * pt);
        assert(cm * pt * pm < tm * pc * pm);
        assert(mm * pt * pc < tm * pm * pc);
    }
    assert(rm > 0) by (nonlinear_arith)
        requires
            rm * pt * pm == big_t * pr,
            big_t > 0,
            pr > 0,
            pt > 0,
            pm > 0,
    {
        assert(big_t * pr > 0);
        if rm <= 0 {
            assert(rm * pt <= 0);
            assert(rm * pt * pm <= 0);
        }
    }
}

/// The arithmetic of the interpolation: from exact differences, an exact
/// quotient and an exact product, the score is `100 * (c - m) / (t - m)`
/// and lies strictly between 0 and 100.
proof fn lemma_interpolation_numbers(
    c: Dec,
    m: Dec,
    t: Dec,
    range: Dec,
    above: Dec,
    share: Dec,
    score: Dec,
)
    requires
        dec_lt_spec(m, c),
        dec_lt_spec(c, t),
        is_exact_difference(range, t, m),
        is_exact_difference(above, c, m),
        is_exact_quotient(share, above, range),
        score.mantissa * pow10(share.scale as nat) == share.mantissa * 100 * pow10(
            score.scale as nat,
        ),
    ensures
        is_interpolated_score(score, c, m, t),
        score.mantissa > 0,
        score.mantissa < 100 * pow10(score.scale as nat),
{
    let pc = pow10(c.scale as nat);
    let pm = pow10(m.scale as nat);
    let pt = pow10(t.scale as nat);
    let pr = pow10(range.scale as nat);
    let pa = pow10(above.scale as nat);
    let psh = pow10(share.scale as nat);
    let ps = pow10(score.scale as nat);
    crate::decimal::lemma_pow10_positive(c.scale as nat);
    crate::decimal::lemma_pow10_positive(m.scale as nat);
    crate::decimal::lemma_pow10_positive(t.scale as nat);
    crate::decimal::lemma_pow10_positive(range.scale as nat);
    crate::decimal::lemma_pow10_positive(above.scale as nat);
    crate::decimal::lemma_pow10_positive(share.scale as nat);
    crate::decimal::lemma_pow10_positive(score.scale as nat);
    let cm = c.mantissa as int;
    let mm = m.mantissa as int;
    let tm = t.mantissa as int;
    let rm = range.mantissa as int;
    let am = above.mantissa as int;
    let shm = share.mantissa as int;
    let sm = score.mantissa as int;
    let big_t = tm * pm - mm * pt;
    let big_n = cm * pm - mm * pc;
    assert(big_n > 0);
    assert(big_n * pt < big_t * pc) by (nonlinear_arith)
        requires
            cm * pt < tm * pc,
            pm > 0,
            big_n == cm * pm - mm * pc,
            big_t == tm * pm - mm * pt,
    {
        assert(cm * pt * pm < tm * pc * pm);
        assert(big_n * pt == cm * pm * pt - mm * pc * pt);
        assert(big_t * pc == tm * pm * pc - mm * pt * pc);
    }
    assert(big_t > 0) by (nonlinear_arith)
        requires
            big_n > 0,
            big_n * pt < big_t * pc,
            pt > 0,
            pc > 0,
    {
        assert(big_n * pt > 0);
    }
    let x = sm * rm * pa;
    let y = 100 * am * pr * ps;
    assert(psh * x == (sm * psh) * (rm * pa)) by (nonlinear_arith)
        requires
            x == sm * rm * pa,
    ;
    assert((shm * 100 * ps) * (rm * pa) == 100 * ps * (shm * rm * pa)) by (nonlinear_arith);
    assert(100 * ps * (am * pr * psh) == psh * y) by (nonlinear_arith)
        requires
            y == 100 * am * pr * ps,
    ;
    assert(psh * x == psh * y);
    vstd::arithmetic::mul::lemma_mul_equality_converse(psh, x, y);
    let u = pt * pm;
    let v = pc * pm;
    assert(rm * u == big_t * pr) by (nonlinear_arith)
        requires
            rm * pt * pm == big_t * pr,
            u == pt * pm,
    ;
    assert(am * v == big_n * pa) by (nonlinear_arith)
        requires
            am * pc * pm == big_n * pa,
            v == pc * pm,
    ;
    lemma_scaled_quotient(sm, rm, pa, am, pr, ps, u, v, big_t, big_n);
    let lhs = sm * big_t * pc;
    let rhs = 100 * big_n * ps * pt;
    assert(pm * lhs == sm * v * big_t) by (nonlinear_arith)
        requires
            v == pc * pm,
            lhs == sm * big_t * pc,
    ;
    assert(pm * rhs == 100 * ps * u * big_n) by (nonlinear_arith)
        requires
            u == pt * pm,
            rhs == 100 * big_n * ps * pt,
    ;
    vstd::arithmetic::mul::lemma_mul_equality_converse(pm, lhs, rhs);
    assert(sm > 0 && sm < 100 * ps) by (nonlinear_arith)
        requires
            sm * big_t * pc == 100 * big_n * ps * pt,
            big_t > 0,
            big_n > 0,
            pc > 0,
            pt > 0,
            ps > 0,
            big_n * pt < big_t * pc,
    {
        assert(100 * big_n * ps * pt > 0);
        assert(100 * ps * (big_n * pt) < 100 * ps * (big_t * pc));
    }
}

/// The insurance-fund rules.
pub struct InsuranceFundService;

impl InsuranceFundService {
    /// The coverage ratio of reserves against liabilities; 9999 when there are
    /// no liabilities. `None` where the division overflows.
    pub fn calculate_coverage_ratio(reserves: Dec, liabilities: Dec) -> (r: Option<Dec>)
        requires
            reserves.wf(),
            liabilities.wf(),
        ensures
            r == coverage_ratio(reserves, liabilities),
            r matches Some(c) ==> c.wf(),
            liabilities.mantissa != 0 && quotient_representable(reserves, liabilities) ==> r is Some
                && is_exact_quotient(r->0, reserves, liabilities),
    {
        if liabilities.is_zero() {
            return Some(Dec::new(9999, 0));
        }
        dec_checked_div(&reserves, &liabilities)
    }

    /// The reserve health score (0 to 100) of a coverage ratio against the
    /// minimum and target ratios. `None` where an operation overflows.
    pub fn calculate_health_score(coverage_ratio: Dec, min_ratio: Dec, target_ratio: Dec) -> (r:
        Option<Dec>)
        requires
            coverage_ratio.wf(),
            min_ratio.wf(),
            target_ratio.wf(),
        ensures
            r == health_score(coverage_ratio, min_ratio, target_ratio),
            r matches Some(s) ==> s.wf(),
            interpolation_exact(coverage_ratio, min_ratio, target_ratio) ==> (r matches Some(s)
                && is_interpolated_score(s, coverage_ratio, min_ratio, target_ratio)),
    {
        if dec_le(&target_ratio, &coverage_ratio) {
            return Some(Dec::new(100, 0));
        }
        if dec_le(&coverage_ratio, &min_ratio) {
            return Some(Dec::zero());
        }
        let range = match dec_checked_sub(&target_ratio, &min_ratio) {
            Some(r) => r,
            None => return None,
        };
        if range.is_zero() {
            proof {
                if interpolation_exact(coverage_ratio, min_ratio, target_ratio) {
                    lemma_range_positive(coverage_ratio, min_ratio, target_ratio, range);
                }
            }
            return Some(Dec::new(50, 0));
        }
        let above = match dec_checked_sub(&coverage_ratio, &min_ratio) {
            Some(a) => a,
            None => return None,
        };
        let share = match dec_checked_div(&above, &range) {
            Some(s) => s,
            None => return None,
        };
        let hundred = Dec::new(100, 0);
        let score = match dec_checked_mul(&share, &hundred) {
            Some(s) => s,
            None => return None,
        };
        proof {
            if interpolation_exact(coverage_ratio, min_ratio, target_ratio) {
                lemma_interpolation_numbers(
                    coverage_ratio,
                    min_ratio,
                    target_ratio,
                    range,
                    above,
                    share,
                    score,
                );
                assert(pow10(0) == 1);
            }
        }
        Some(dec_max(dec_min(score, hundred), Dec::zero()))
    }

    /// The fund status a coverage ratio gives against the `(critical, min,
    /// target)` ratios.
    pub fn determine_status(coverage_ratio: Dec, thresholds: (Dec, Dec, Dec)) -> (r: FundStatus)
        requires
            coverage_ratio.wf(),
            thresholds.0.wf(),
            thresholds.1.wf(),
            thresholds.2.wf(),
        ensures
            r == status_for(coverage_ratio, thresholds.0, thresholds.1, thresholds.2),
    {
        let (critical, min, target) = thresholds;
        if dec_le(&target, &coverage_ratio) {
            FundStatus::Healthy
        } else if dec_le(&min, &coverage_ratio) {
            FundStatus::Warning
        } else if dec_le(&critical, &coverage_ratio) {
            FundStatus::Critical
        } else {
            FundStatus::Insolvent
        }
    }

    /// The balance a transaction of `tx_type` leaves the fund with.
    pub fn balance_after(tx_type: &str, total_reserves: Dec, amount: Dec) -> (r: Option<Dec>)
        requires
            total_reserves.wf(),
            amount.wf(),
        ensures
            r == balance_after(tx_type@, total_reserves, amount),
            (tx_type@ == "contribution"@ || tx_type@ == "yield"@) && fits_aligned(
                total_reserves,
                amount,
                aligned_sum(total_reserves, amount),
            ) ==> r is Some && is_exact_sum(r->0, total_reserves, amount),
            (tx_type@ == "payout"@ || tx_type@ == "fee"@ || tx_type@ == "penalty"@) && fits_aligned(
                total_reserves,
                amount,
                aligned_difference(total_reserves, amount),
            ) ==> r is Some && is_exact_difference(r->0, total_reserves, amount),
            reserve_update_of(tx_type@) is None ==> r == Some(total_reserves),
    {
        proof {
            lemma_transaction_words_distinct();
        }
        if str_eq(tx_type, "contribution") || str_eq(tx_type, "yield") {
            dec_checked_add(&total_reserves, &amount)
        } else if str_eq(tx_type, "payout") || str_eq(tx_type, "fee") || str_eq(tx_type, "penalty") {
            dec_checked_sub(&total_reserves, &amount)
        } else {
            Some(total_reserves)
        }
    }

    /// The reserve update a transaction of `tx_type` makes; any other type is
    /// a bad request.
    pub fn reserve_update(tx_type: &str) -> (r: Result<ReserveUpdate, ApiError>)
        ensures
            reserve_update_of(tx_type@) is Some ==> r == Ok::<ReserveUpdate, ApiError>(
                reserve_update_of(tx_type@)->0,
            ),
            reserve_update_of(tx_type@) is None ==> is_bad_request(
                r,
                "Invalid transaction type: "@ + tx_type@,
            ),
    {
        if str_eq(tx_type, "contribution") {
            Ok(ReserveUpdate::Contribution)
        } else if str_eq(tx_type, "payout") {
            Ok(ReserveUpdate::Payout)
        } else if str_eq(tx_type, "yield") {
            Ok(ReserveUpdate::Yield)
        } else if str_eq(tx_type, "fee") || str_eq(tx_type, "penalty") {
            Ok(ReserveUpdate::Deduction)
        } else {
            Err(ApiError::BadRequest(concat2("Invalid transaction type: ", tx_type)))
        }
    }

    /// A new claim is refused while the fund is insolvent.
    pub fn check_fund_accepts_claims(fund_status: &str) -> (r: Result<(), ApiError>)
        ensures
            r is Ok <==> fund_status@ != "insolvent"@,
            r is Err ==> is_bad_request(
                r,
                "Fund is currently insolvent. New claims cannot be created."@,
            ),
    {
        if str_eq(fund_status, "insolvent") {
            return Err(
                ApiError::BadRequest(
                    "Fund is currently insolvent. New claims cannot be created.".to_owned(),
                ),
            );
        }
        Ok(())
    }

    /// The claimant: the user the request names, else the owner of the linked
    /// plan, else the owner of the linked loan.
    pub fn resolve_claim_user_id(
        user_id: Option<u128>,
        plan_owner: Option<u128>,
        loan_owner: Option<u128>,
    ) -> (r: Result<u128, ApiError>)
        ensures
            user_id is Some ==> r == Ok::<u128, ApiError>(user_id->0),
            user_id is None && plan_owner is Some ==> r == Ok::<u128, ApiError>(plan_owner->0),
            user_id is None && plan_owner is None && loan_owner is Some ==> r == Ok::<
                u128,
                ApiError,
            >(loan_owner->0),
            user_id is None && plan_owner is None && loan_owner is None ==> is_bad_request(
                r,
                "user_id is required when plan_id and loan_id are not provided"@,
            ),
    {
        if let Some(u) = user_id {
            return Ok(u);
        }
        if let Some(u) = plan_owner {
            return Ok(u);
        }
        if let Some(u) = loan_owner {
            return Ok(u);
        }
        Err(
            ApiError::BadRequest(
                "user_id is required when plan_id and loan_id are not provided".to_owned(),
            ),
        )
    }

    /// The first step of reviewing a claim, from the claim and the request.
    pub fn review_claim(
        status: &str,
        claimed_amount: Dec,
        approved_amount: Option<Dec>,
        req: &ProcessInsuranceClaimRequest,
    ) -> (r: Result<ClaimReview, ApiError>)
        requires
            claimed_amount.wf(),
            req.approved_amount matches Some(a) ==> a.wf(),
        ensures
            match claim_review(status@, claimed_amount, approved_amount, *req) {
                Ok(review) => r matches Ok(got) && got == review,
                Err(msg) => is_bad_request(r, msg),
            },
    {
        if !str_eq(status, "pending") && !str_eq(status, "approved") {
            return Err(
                ApiError::BadRequest("Claim cannot be processed from its current state".to_owned()),
            );
        }
        if req.approved {
            if str_eq(status, "approved") {
                return Err(ApiError::BadRequest("Claim is already approved".to_owned()));
            }
            let amount = match req.approved_amount {
                Some(a) => a,
                None => claimed_amount,
            };
            if dec_le(&amount, &Dec::zero()) {
                return Err(
                    ApiError::BadRequest("Approved amount must be greater than zero".to_owned()),
                );
            }
            if dec_lt(&claimed_amount, &amount) {
                return Err(
                    ApiError::BadRequest("Approved amount cannot exceed claimed amount".to_owned()),
                );
            }
            Ok(ClaimReview::Approve(amount))
        } else {
            let blank = match &req.rejection_reason {
                Some(reason) => is_blank(reason.as_str()),
                None => true,
            };
            if blank {
                return Err(
                    ApiError::BadRequest(
                        "Rejection reason is required when rejecting a claim".to_owned(),
                    ),
                );
            }
            if str_eq(status, "approved") {
                let amount = match approved_amount {
                    Some(a) => a,
                    None => Dec::zero(),
                };
                Ok(ClaimReview::RejectApproved(amount))
            } else {
                Ok(ClaimReview::Reject)
            }
        }
    }

    /// Whether the fund can lock `amount` for an approved claim: not while it
    /// is insolvent, and not beyond its available reserves.
    pub fn check_fund_can_approve(fund_status: &str, available_reserves: Dec, amount: Dec) -> (r:
        Result<(), ApiError>)
        requires
            available_reserves.wf(),
            amount.wf(),
        ensures
            fund_status@ == "insolvent"@ ==> is_bad_request(
                r,
                "Cannot approve claims while fund is insolvent"@,
            ),
            fund_status@ != "insolvent"@ && dec_lt_spec(available_reserves, amount)
                ==> is_bad_request(
                r,
                "Insufficient available fund reserves to approve this claim"@,
            ),
            r is Ok <==> (fund_status@ != "insolvent"@ && !dec_lt_spec(available_reserves, amount)),
    {
        if str_eq(fund_status, "insolvent") {
            return Err(
                ApiError::BadRequest("Cannot approve claims while fund is insolvent".to_owned()),
            );
        }
        if dec_lt(&available_reserves, &amount) {
            return Err(
                ApiError::BadRequest(
                    "Insufficient available fund reserves to approve this claim".to_owned(),
                ),
            );
        }
        Ok(())
    }

    /// The payout of a claim: only an approved claim with a payout amount
    /// set is paid.
    pub fn payout_amount(status: &str, payout_amount: Option<Dec>) -> (r: Result<Dec, ApiError>)
        ensures
            status@ != "approved"@ ==> is_bad_request(r, "Claim is not approved for payout"@),
            status@ == "approved"@ && payout_amount is None ==> is_bad_request(
                r,
                "Claim has no payout amount set"@,
            ),
            status@ == "approved"@ && payout_amount is Some ==> (r matches Ok(a) && a
                == payout_amount->0),
    {
        if !str_eq(status, "approved") {
            return Err(ApiError::BadRequest("Claim is not approved for payout".to_owned()));
        }
        match payout_amount {
            Some(a) => Ok(a),
            None => Err(ApiError::BadRequest("Claim has no payout amount set".to_owned())),
        }
    }

    /// A payout must be covered by the fund's locked reserves.
    pub fn check_locked_reserves(locked_reserves: Dec, payout: Dec) -> (r: Result<(), ApiError>)
        requires
            locked_reserves.wf(),
            payout.wf(),
        ensures
            r is Ok <==> !dec_lt_spec(locked_reserves, payout),
            r is Err ==> is_internal(r, "Insufficient locked fund reserves for payout"@),
    {
        if dec_lt(&locked_reserves, &payout) {
            return Err(
                ApiError::Internal("Insufficient locked fund reserves for payout".to_owned()),
            );
        }
        Ok(())
    }

    /// The coverage ratio the dashboard shows: 9999 when the fund covers no
    /// liabilities, else the stored ratio.
    pub fn dashboard_coverage_percentage(total_covered_liabilities: Dec, coverage_ratio: Dec) -> (r:
        Dec)
        ensures
            r == (if total_covered_liabilities.mantissa == 0 {
                whole(9999)
            } else {
                coverage_ratio
            }),
    {
        if total_covered_liabilities.is_zero() {
            Dec::new(9999, 0)
        } else {
            coverage_ratio
        }
    }

    /// The dashboard's description of a stored status.
    pub fn health_status_description(status: &str) -> (r: &'static str)
        ensures
            r@ == match fund_status_from_text(status@) {
                FundStatus::Healthy => "Fund is healthy with adequate coverage"@,
                FundStatus::Warning => "Fund coverage is below target - monitor closely"@,
                FundStatus::Critical => "Fund coverage is critically low - immediate action required"@,
                FundStatus::Insolvent => "Fund is insolvent - urgent intervention needed"@,
            },
    {
        let parsed = match FundStatus::from_str(status) {
            Ok(s) => s,
            Err(()) => FundStatus::Healthy,
        };
        match parsed {
            FundStatus::Healthy => "Fund is healthy with adequate coverage",
            FundStatus::Warning => "Fund coverage is below target - monitor closely",
            FundStatus::Critical => "Fund coverage is critically low - immediate action required",
            FundStatus::Insolvent => "Fund is insolvent - urgent intervention needed",
        }
    }

    /// The metrics of a fund with `total_reserves` against `liabilities`:
    /// coverage ratio, health score, status, and whether the status differs
    /// from the stored one. `None` where the arithmetic overflows.
    pub fn evaluate_fund_metrics(
        total_reserves: Dec,
        liabilities: Dec,
        critical_ratio: Dec,
        min_ratio: Dec,
        target_ratio: Dec,
        stored_status: &str,
    ) -> (r: Option<FundMetrics>)
        requires
            total_reserves.wf(),
            liabilities.wf(),
            critical_ratio.wf(),
            min_ratio.wf(),
            target_ratio.wf(),
        ensures
            r == fund_metrics(
                total_reserves,
                liabilities,
                critical_ratio,
                min_ratio,
                target_ratio,
                stored_status@,
            ),
    {
        let coverage = match Self::calculate_coverage_ratio(total_reserves, liabilities) {
            Some(c) => c,
            None => return None,
        };
        let health = match Self::calculate_health_score(coverage, min_ratio, target_ratio) {
            Some(h) => h,
            None => return None,
        };
        let status = Self::determine_status(coverage, (critical_ratio, min_ratio, target_ratio));
        let old_status = match FundStatus::from_str(stored_status) {
            Ok(s) => s,
            Err(()) => FundStatus::Healthy,
        };
        Some(
            FundMetrics {
                coverage_ratio: coverage,
                health_score: health,
                status,
                status_changed: old_status != status,
            },
        )
    }

    /// The notice sent to administrators when a fund's status changes.
    pub fn status_change_notice(
        fund_name: &str,
        status: FundStatus,
        coverage_ratio: &Dec,
        health_score: &Dec,
    ) -> (r: String)
        requires
            coverage_ratio.wf(),
            health_score.wf(),
        ensures
            r@ == status_change_text(fund_name@, status, *coverage_ratio, *health_score),
    {
        let mut r = "Insurance Fund '".to_owned();
        r.append(fund_name);
        r.append("' status changed to ");
        r.append(status.as_str());
        r.append(". Coverage ratio: ");
        r.append(dec_to_string_2dp(coverage_ratio).as_str());
        r.append(", Health Score: ");
        r.append(dec_to_string_0dp(health_score).as_str());
        r
    }

    /// The notice sent to a claimant once the claim is reviewed: the claimed
    /// amount when approved, the rejection reason (or that none was given)
    /// when rejected.
    pub fn claim_decision_notice(
        approved: bool,
        claimed_amount: &Dec,
        rejection_reason: Option<&str>,
    ) -> (r: String)
        requires
            claimed_amount.wf(),
        ensures
            r@ == claim_decision_text(approved, *claimed_amount, opt_text(rejection_reason)),
    {
        if approved {
            let mut r = "Your insurance claim for ".to_owned();
            r.append(dec_to_string(claimed_amount).as_str());
            r.append(" was approved");
            r
        } else {
            let mut r = "Your insurance claim was rejected: ".to_owned();
            match rejection_reason {
                Some(reason) => r.append(reason),
                None => r.append("No reason provided"),
            }
            r
        }
    }

    /// The notice sent to a claimant once the payout is made.
    pub fn payout_notice(payout_amount: &Dec) -> (r: String)
        requires
            payout_amount.wf(),
        ensures
            r@ == "Your insurance claim payout of "@ + decimal_text(
                payout_amount.mantissa,
                payout_amount.scale,
            ) + " has been processed"@,
    {
        let mut r = "Your insurance claim payout of ".to_owned();
        r.append(dec_to_string(payout_amount).as_str());
        r.append(" has been processed");
        r
    }

    /// The description of the fund transaction that records a payout.
    pub fn payout_description(claim_id: u128) -> (r: String)
        ensures
            r@ == "Insurance claim payout for claim "@ + uuid_text(claim_id),
    {
        let mut r = "Insurance claim payout for claim ".to_owned();
        r.append(uuid_to_string(claim_id).as_str());
        r
    }

    /// The change of a figure since an earlier snapshot, when there is one.
    /// The inner `None` stands where the subtraction overflows.
    pub fn change_since(current: Dec, earlier: Option<Dec>) -> (r: Option<Option<Dec>>)
        requires
            current.wf(),
            earlier matches Some(e) ==> e.wf(),
        ensures
            earlier is None ==> r is None,
            earlier is Some ==> r == Some(
                as_dec(
                    decimal_checked_sub(
                        current.mantissa,
                        current.scale,
                        earlier->0.mantissa,
                        earlier->0.scale,
                    ),
                ),
            ),
    {
        match earlier {
            Some(e) => Some(dec_checked_sub(&current, &e)),
            None => None,
        }
    }
}

/// Reading back the text a fund status is stored as gives that status again.
pub proof fn lemma_fund_status_round_trip(s: FundStatus)
    ensures
        fund_status_from_text(fund_status_text(s)) == s,
{
    reveal_strlit("healthy");
    reveal_strlit("warning");
    reveal_strlit("critical");
    reveal_strlit("insolvent");
    assert("warning"@[0] != "healthy"@[0]);
    assert("critical"@[0] != "healthy"@[0] && "critical"@[0] != "warning"@[0]);
    assert("insolvent"@[0] != "healthy"@[0] && "insolvent"@[0] != "warning"@[0] && "insolvent"@[0]
        != "critical"@[0]);
}

/// A higher coverage ratio never gives a worse fund status.
pub proof fn lemma_status_monotone(c1: Dec, c2: Dec, critical: Dec, min_ratio: Dec, target: Dec)
    requires
        dec_le_spec(c1, c2),
    ensures
        fund_status_rank(status_for(c1, critical, min_ratio, target)) <= fund_status_rank(
            status_for(c2, critical, min_ratio, target),
        ),
{
    if dec_le_spec(target, c1) {
        lemma_dec_le_transitive(target, c1, c2);
    }
    if dec_le_spec(min_ratio, c1) {
        lemma_dec_le_transitive(min_ratio, c1, c2);
    }
    if dec_le_spec(critical, c1) {
        lemma_dec_le_transitive(critical, c1, c2);
    }
}

/// A fund is healthy exactly when its coverage reaches the target ratio, and
/// insolvent exactly when its coverage is below the critical, minimum and
/// target ratios alike.
pub proof fn lemma_status_thresholds(c: Dec, critical: Dec, min_ratio: Dec, target: Dec)
    ensures
        (status_for(c, critical, min_ratio, target) == FundStatus::Healthy) == dec_le_spec(
            target,
            c,
        ),
        (status_for(c, critical, min_ratio, target) == FundStatus::Insolvent) == (!dec_le_spec(
            target,
            c,
        ) && !dec_le_spec(min_ratio, c) && !dec_le_spec(critical, c)),
{
}

/// The health score, whenever it is computed, lies between 0 and 100.
pub proof fn lemma_health_score_bounded(coverage: Dec, min_ratio: Dec, target: Dec)
    requires
        health_score(coverage, min_ratio, target) is Some,
    ensures
        dec_le_spec(whole(0), health_score(coverage, min_ratio, target)->0),
        dec_le_spec(health_score(coverage, min_ratio, target)->0, whole(100)),
{
    let s = health_score(coverage, min_ratio, target)->0;
    assert(pow10(0) == 1);
    if !dec_le_spec(target, coverage) && !dec_le_spec(coverage, min_ratio) {
        let range = as_dec(
            decimal_checked_sub(target.mantissa, target.scale, min_ratio.mantissa, min_ratio.scale),
        )->0;
        if range.mantissa != 0 {
            let above = as_dec(
                decimal_checked_sub(
                    coverage.mantissa,
                    coverage.scale,
                    min_ratio.mantissa,
                    min_ratio.scale,
                ),
            )->0;
            let share = as_dec(
                decimal_checked_div(above.mantissa, above.scale, range.mantissa, range.scale),
            )->0;
            let score = as_dec(decimal_checked_mul(share.mantissa, share.scale, 100, 0))->0;
            let m = dec_min_spec(score, whole(100));
            assert(dec_le_spec(m, whole(100)));
            if !dec_le_spec(m, whole(0)) {
                assert(whole(0).mantissa == 0 && whole(0).scale == 0);
                assert(m.mantissa * pow10(0) > 0 * pow10(m.scale as nat));
                assert(m.mantissa > 0);
                assert(pow10(m.scale as nat) > 0) by {
                    crate::decimal::lemma_pow10_positive(m.scale as nat);
                }
            }
        }
    }
}

/// An approval is for a positive amount that does not exceed the claim, and
/// only a pending claim is approved.
pub proof fn lemma_approval_within_claim(
    status: Seq<char>,
    claimed: Dec,
    approved_amount: Option<Dec>,
    req: ProcessInsuranceClaimRequest,
)
    requires
        claim_review(status, claimed, approved_amount, req) matches Ok(ClaimReview::Approve(_)),
    ensures
        ({
            let amount = claim_review(status, claimed, approved_amount, req)->Ok_0->Approve_0;
            &&& status == "pending"@
            &&& req.approved
            &&& !dec_le_spec(amount, whole(0))
            &&& dec_le_spec(amount, claimed)
        }),
{
}

/// A claim is rejected only with a reason that is not blank.
pub proof fn lemma_rejection_needs_reason(
    status: Seq<char>,
    claimed: Dec,
    approved_amount: Option<Dec>,
    req: ProcessInsuranceClaimRequest,
)
    requires
        !req.approved,
        claim_review(status, claimed, approved_amount, req) is Ok,
    ensures
        !reason_is_blank(req.rejection_reason),
{
}

/// The balance after a transaction moves the reserves the way its reserve
/// update does: contributions and yield add the amount, payouts, fees and
/// penalties take it away, and the balance is kept for any other type.
pub proof fn lemma_balance_follows_reserve_update(tx_type: Seq<char>, total: Dec, amount: Dec)
    ensures
        (reserve_update_of(tx_type) == Some(ReserveUpdate::Contribution) || reserve_update_of(tx_type)
            == Some(ReserveUpdate::Yield)) ==> balance_after(tx_type, total, amount) == as_dec(
            decimal_checked_add(total.mantissa, total.scale, amount.mantissa, amount.scale),
        ),
        (reserve_update_of(tx_type) == Some(ReserveUpdate::Payout) || reserve_update_of(tx_type)
            == Some(ReserveUpdate::Deduction)) ==> balance_after(tx_type, total, amount) == as_dec(
            decimal_checked_sub(total.mantissa, total.scale, amount.mantissa, amount.scale),
        ),
        reserve_update_of(tx_type) is None ==> balance_after(tx_type, total, amount) == Some(total),
        tx_type == "yield"@ || tx_type == "contribution"@ ==> balance_after(tx_type, total, amount)
            == as_dec(
            decimal_checked_add(total.mantissa, total.scale, amount.mantissa, amount.scale),
        ),
{
    lemma_transaction_words_distinct();
}

/// `Decimal`'s steps of the interpolation for coverage `c` between the
/// minimum `m` and the target `t` all succeed and are exact: the differences
/// `t - m` and `c - m`, their quotient, and a hundred times the quotient.
pub open spec fn interpolation_steps_exact(c: Dec, m: Dec, t: Dec) -> bool {
    let range_r = as_dec(decimal_checked_sub(t.mantissa, t.scale, m.mantissa, m.scale));
    let above_r = as_dec(decimal_checked_sub(c.mantissa, c.scale, m.mantissa, m.scale));
    let range = range_r->0;
    let above = above_r->0;
    let share_r = as_dec(
        decimal_checked_div(above.mantissa, above.scale, range.mantissa, range.scale),
    );
    let share = share_r->0;
    let score_r = as_dec(decimal_checked_mul(share.mantissa, share.scale, 100, 0));
    let score = score_r->0;
    &&& range_r is Some
    &&& is_exact_difference(range, t, m)
    &&& above_r is Some
    &&& is_exact_difference(above, c, m)
    &&& share_r is Some
    &&& is_exact_quotient(share, above, range)
    &&& score_r is Some
    &&& score.mantissa * pow10(share.scale as nat) == share.mantissa * 100 * pow10(
        score.scale as nat,
    )
}

/// The health score interpolates from the minimum up to the target: for a
/// coverage strictly between them, whenever `Decimal`'s subtractions,
/// division and multiplication are exact, the score is `100 * (coverage -
/// min) / (target - min)`, so a fund close to its minimum scores low.
pub proof fn lemma_health_score_interpolates(c: Dec, m: Dec, t: Dec)
    requires
        dec_lt_spec(m, c),
        dec_lt_spec(c, t),
        interpolation_steps_exact(c, m, t),
    ensures
        health_score(c, m, t) matches Some(s) && is_interpolated_score(s, c, m, t),
{
    let range = as_dec(decimal_checked_sub(t.mantissa, t.scale, m.mantissa, m.scale))->0;
    let above = as_dec(decimal_checked_sub(c.mantissa, c.scale, m.mantissa, m.scale))->0;
    let share = as_dec(
        decimal_checked_div(above.mantissa, above.scale, range.mantissa, range.scale),
    )->0;
    let score = as_dec(decimal_checked_mul(share.mantissa, share.scale, 100, 0))->0;
    lemma_range_positive(c, m, t, range);
    lemma_interpolation_numbers(c, m, t, range, above, share, score);
    assert(pow10(0) == 1);
}

} // verus!
