//! Lending risk rules: reconciliation of recorded against on-chain amounts,
//! the health of a loan and when it turns risky, what a liquidation seizes,
//! and the buckets of the lending history.
//!
//! Decimal arithmetic is `rust_decimal`'s checked arithmetic; where the
//! unchecked operators would overflow, the rules give `None` or `Overflow`.
use vstd::prelude::*;
use crate::decimal::{
    as_dec,
    is_exact_quotient,
    quotient_representable,
    dec_checked_add,
    dec_checked_div,
    dec_checked_mul,
    dec_checked_sub,
    dec_le_spec,
    dec_lt,
    dec_lt_spec,
    dec_to_string,
    dec_to_string_2dp,
    decimal_checked_add,
    decimal_checked_div,
    decimal_checked_mul,
    decimal_checked_sub,
    decimal_text,
    decimal_text_2dp,
    Dec,
};
use crate::text::{parse_u64, parsed_u64, str_eq, uppercase, to_uppercase, uuid_text, uuid_to_string};

verus! {

/// Interval of the reconciliation, risk and liquidation sweeps, in seconds.
pub const SWEEP_INTERVAL_SECS: u64 = 60;

/// Default interval of the lending snapshots, in seconds.
pub const DEFAULT_SNAPSHOT_INTERVAL_SECS: u64 = 3600;

/// Most history buckets returned.
pub const HISTORY_LIMIT: i64 = 365;

/// Id of the system liquidator: the nil UUID.
pub const SYSTEM_LIQUIDATOR_ID: u128 = 0;

/// The decimal zero.
pub open spec fn dec_zero() -> Dec {
    Dec { mantissa: 0, scale: 0 }
}

/// `|d|`.
pub open spec fn dec_abs(d: Dec) -> Dec {
    Dec {
        mantissa: if d.mantissa < 0 {
            (-d.mantissa) as i128
        } else {
            d.mantissa
        },
        scale: d.scale,
    }
}

// ── Reconciliation ─────────────────────────────────────────────────────────

/// How a recorded amount compares with the amount on chain.
#[derive(Debug, Clone, Copy)]
pub struct Discrepancy {
    pub difference: Dec,
    pub exceeds_threshold: bool,
}

/// Compares recorded yields or vault balances with the chain.
pub struct InterestReconciliationService {
    pub discrepancy_threshold: Dec,
}

impl InterestReconciliationService {
    /// The difference between the recorded and the on-chain amount, and
    /// whether it is above the threshold; `None` where the subtraction
    /// overflows.
    pub fn compare(&self, expected: &Dec, on_chain: &Dec) -> (r: Option<Discrepancy>)
        requires
            self.discrepancy_threshold.wf(),
            expected.wf(),
            on_chain.wf(),
        ensures
            r is Some <==> decimal_checked_sub(
                expected.mantissa,
                expected.scale,
                on_chain.mantissa,
                on_chain.scale,
            ) is Some,
            r matches Some(d) ==> {
                let diff = as_dec(
                    decimal_checked_sub(
                        expected.mantissa,
                        expected.scale,
                        on_chain.mantissa,
                        on_chain.scale,
                    ),
                )->0;
                &&& d.difference == dec_abs(diff)
                &&& d.exceeds_threshold == dec_lt_spec(self.discrepancy_threshold, dec_abs(diff))
            },
    {
        match dec_checked_sub(expected, on_chain) {
            Some(diff) => {
                let difference = diff.abs();
                let exceeds_threshold = dec_lt(&self.discrepancy_threshold, &difference);
                Some(Discrepancy { difference, exceeds_threshold })
            },
            None => None,
        }
    }
}

// ── Loan health ────────────────────────────────────────────────────────────

/// The collateral asset of a plan, USDC where the plan names none.
pub fn collateral_asset_or_default(asset: Option<String>) -> (r: String)
    ensures
        asset matches Some(a) ==> r == a,
        asset is None ==> r@ == "USDC"@,
{
    match asset {
        Some(a) => a,
        None => "USDC".to_owned(),
    }
}

/// The liquidation threshold for a collateral asset, by its uppercased
/// symbol: 0.95 for USDC, 0.85 for ETH, WETH, BTC and WBTC, 0.80 for XLM and
/// STELLAR_XLM, the engine-wide threshold otherwise.
pub open spec fn asset_threshold(upper: Seq<char>, default: Dec) -> Dec {
    if upper == "USDC"@ {
        Dec { mantissa: 95, scale: 2 }
    } else if upper == "ETH"@ || upper == "WETH"@ || upper == "BTC"@ || upper == "WBTC"@ {
        Dec { mantissa: 85, scale: 2 }
    } else if upper == "XLM"@ || upper == "STELLAR_XLM"@ {
        Dec { mantissa: 80, scale: 2 }
    } else {
        default
    }
}

/// How a loan's risk flag moves.
#[derive(Debug, Clone, Copy, PartialEq, Eq, Structural)]
pub enum RiskTransition {
    /// The loan just turned risky: its owner is warned.
    BecameRisky,
    /// The loan was risky and no longer is.
    NoLongerRisky,
    Unchanged,
}

/// The health of a loan and its risk flag.
#[derive(Debug, Clone, Copy)]
pub struct LoanAssessment {
    pub health_factor: Dec,
    pub is_risky: bool,
    pub transition: RiskTransition,
}

/// The outcome of a loan check.
#[derive(Debug, Clone, Copy)]
pub enum LoanCheck {
    /// The debt is worth nothing: the loan is left alone.
    NoDebtValue,
    Assessed(LoanAssessment),
    /// A value of the loan does not fit in a decimal.
    Overflow,
}

/// The risk flag's move from `was_risky` to `is_risky`.
pub open spec fn transition_of(is_risky: bool, was_risky: bool, overridden: bool) -> RiskTransition {
    if is_risky && !was_risky && !overridden {
        RiskTransition::BecameRisky
    } else if !is_risky && was_risky {
        RiskTransition::NoLongerRisky
    } else {
        RiskTransition::Unchanged
    }
}

/// The value of `amount` at `price`.
pub open spec fn value_at(amount: Dec, price: Dec) -> Option<Dec> {
    as_dec(decimal_checked_mul(amount.mantissa, amount.scale, price.mantissa, price.scale))
}

/// The check of a loan: the collateral and debt are valued at their prices;
/// a debt worth more than zero gives the health factor (collateral value over
/// debt value), and the loan is risky when that factor is below the asset's
/// threshold, unless the risk check is overridden.
pub open spec fn loan_check(
    default_threshold: Dec,
    total_debt: Dec,
    borrow_price: Dec,
    collateral_upper: Seq<char>,
    collateral_amount: Option<Dec>,
    collateral_price: Dec,
    was_risky: Option<bool>,
    risk_override_enabled: Option<bool>,
) -> LoanCheck {
    let amount = match collateral_amount {
        Some(a) => a,
        None => dec_zero(),
    };
    let overridden = match risk_override_enabled {
        Some(b) => b,
        None => false,
    };
    let was = match was_risky {
        Some(b) => b,
        None => false,
    };
    match (value_at(amount, collateral_price), value_at(total_debt, borrow_price)) {
        (Some(cv), Some(dv)) => if !dec_lt_spec(dec_zero(), dv) {
            LoanCheck::NoDebtValue
        } else {
            match as_dec(decimal_checked_div(cv.mantissa, cv.scale, dv.mantissa, dv.scale)) {
                Some(hf) => {
                    let risky = !overridden && dec_lt_spec(
                        hf,
                        asset_threshold(collateral_upper, default_threshold),
                    );
                    LoanCheck::Assessed(
                        LoanAssessment {
                            health_factor: hf,
                            is_risky: risky,
                            transition: transition_of(risky, was, overridden),
                        },
                    )
                },
                None => LoanCheck::Overflow,
            }
        },
        _ => LoanCheck::Overflow,
    }
}

/// How an assessment's flag and transition follow from the loan: it is
/// risky exactly when the risk check is not overridden and its health factor
/// is under the asset's threshold; its owner is newly warned exactly when it
/// is risky, was not flagged risky before and the check is not overridden;
/// and it is reported no longer risky exactly when it was flagged risky and
/// is not any more.
pub open spec fn assessment_follows_flags(
    check: LoanCheck,
    threshold: Dec,
    was_risky: Option<bool>,
    risk_override_enabled: Option<bool>,
) -> bool {
    check matches LoanCheck::Assessed(a) ==> {
        &&& a.is_risky == (risk_override_enabled != Some(true) && dec_lt_spec(
            a.health_factor,
            threshold,
        ))
        &&& (a.transition == RiskTransition::BecameRisky) == (a.is_risky && was_risky != Some(true)
            && risk_override_enabled != Some(true))
        &&& (a.transition == RiskTransition::NoLongerRisky) == (!a.is_risky && was_risky == Some(
            true,
        ))
    }
}

/// Where the collateral value `cv` and a positive debt value `dv` are known
/// and their quotient can be written exactly as a decimal, the check is an
/// assessment whose health factor is that exact quotient.
pub open spec fn exact_health_factor(check: LoanCheck, cv: Option<Dec>, dv: Option<Dec>) -> bool {
    match (cv, dv) {
        (Some(c), Some(d)) => dec_lt_spec(dec_zero(), d) && quotient_representable(c, d) ==> (
        check matches LoanCheck::Assessed(a) && is_exact_quotient(a.health_factor, c, d)),
        _ => true,
    }
}

/// The loan-health rules, with the threshold for assets without their own.
pub struct RiskEngine {
    pub liquidation_threshold: Dec,
}

/// Message warning an owner that their loan turned risky.
pub open spec fn liquidation_warning_text(plan_id: u128, health_factor: Dec) -> Seq<char> {
    "WARNING: Your loan against plan "@ + uuid_text(plan_id)
        + " is at risk of liquidation. Health factor is now "@ + decimal_text_2dp(
        health_factor.mantissa,
        health_factor.scale,
    ) + ". Please add collateral or repay some debt."@
}

impl RiskEngine {
    /// The liquidation threshold for a collateral asset.
    pub fn liquidation_threshold_for(&self, collateral_asset: &str) -> (r: Dec)
        ensures
            r == asset_threshold(uppercase(collateral_asset@), self.liquidation_threshold),
    {
        let upper = to_uppercase(collateral_asset);
        self.threshold_for_uppercased(upper.as_str())
    }

    /// The liquidation threshold for an uppercased collateral asset symbol.
    pub fn threshold_for_uppercased(&self, u: &str) -> (r: Dec)
        ensures
            r == asset_threshold(u@, self.liquidation_threshold),
    {
        if str_eq(u, "USDC") {
            Dec { mantissa: 95, scale: 2 }
        } else if str_eq(u, "ETH") || str_eq(u, "WETH") || str_eq(u, "BTC") || str_eq(u, "WBTC") {
            Dec { mantissa: 85, scale: 2 }
        } else if str_eq(u, "XLM") || str_eq(u, "STELLAR_XLM") {
            Dec { mantissa: 80, scale: 2 }
        } else {
            self.liquidation_threshold
        }
    }

    /// Checks one loan, its prices already fetched. An overridden risk check
    /// never marks a loan risky.
    pub fn assess_loan(
        &self,
        total_debt: &Dec,
        borrow_price: &Dec,
        collateral_asset: &str,
        collateral_amount: Option<Dec>,
        collateral_price: &Dec,
        was_risky: Option<bool>,
        risk_override_enabled: Option<bool>,
    ) -> (r: LoanCheck)
        requires
            self.liquidation_threshold.wf(),
            total_debt.wf(),
            borrow_price.wf(),
            collateral_price.wf(),
            collateral_amount matches Some(a) ==> a.wf(),
        ensures
            r == loan_check(
                self.liquidation_threshold,
                *total_debt,
                *borrow_price,
                uppercase(collateral_asset@),
                collateral_amount,
                *collateral_price,
                was_risky,
                risk_override_enabled,
            ),
            risk_override_enabled == Some(true) ==> (r matches LoanCheck::Assessed(a) ==> !a.is_risky
                && a.transition != RiskTransition::BecameRisky),
            assessment_follows_flags(
                r,
                asset_threshold(uppercase(collateral_asset@), self.liquidation_threshold),
                was_risky,
                risk_override_enabled,
            ),
            was_risky == Some(true) ==> !(r matches LoanCheck::Assessed(a) && a.transition
                == RiskTransition::BecameRisky),
            exact_health_factor(
                r,
                value_at(
                    match collateral_amount {
                        Some(a) => a,
                        None => dec_zero(),
                    },
                    *collateral_price,
                ),
                value_at(*total_debt, *borrow_price),
            ),
    {
        let amount = match collateral_amount {
            Some(a) => a,
            None => Dec::zero(),
        };
        let overridden = match risk_override_enabled {
            Some(b) => b,
            None => false,
        };
        let was = match was_risky {
            Some(b) => b,
            None => false,
        };
        let cv = dec_checked_mul(&amount, collateral_price);
        let dv = dec_checked_mul(total_debt, borrow_price);
        match (cv, dv) {
            (Some(cv), Some(dv)) => {
                if !dec_lt(&Dec::zero(), &dv) {
                    return LoanCheck::NoDebtValue;
                }
                match dec_checked_div(&cv, &dv) {
                    Some(hf) => {
                        let threshold = self.liquidation_threshold_for(collateral_asset);
                        let risky = !overridden && dec_lt(&hf, &threshold);
                        let transition = if risky && !was && !overridden {
                            RiskTransition::BecameRisky
                        } else if !risky && was {
                            RiskTransition::NoLongerRisky
                        } else {
                            RiskTransition::Unchanged
                        };
                        LoanCheck::Assessed(
                            LoanAssessment { health_factor: hf, is_risky: risky, transition },
                        )
                    },
                    None => LoanCheck::Overflow,
                }
            },
            _ => LoanCheck::Overflow,
        }
    }

    /// The warning sent when a loan turns risky.
    pub fn liquidation_warning(plan_id: u128, health_factor: &Dec) -> (r: String)
        requires
            health_factor.wf(),
        ensures
            r@ == liquidation_warning_text(plan_id, *health_factor),
    {
        let mut r = "WARNING: Your loan against plan ".to_owned();
        r.append(uuid_to_string(plan_id).as_str());
        r.append(" is at risk of liquidation. Health factor is now ");
        r.append(dec_to_string_2dp(health_factor).as_str());
        r.append(". Please add collateral or repay some debt.");
        r
    }
}

// ── Liquidation ────────────────────────────────────────────────────────────

/// What liquidating a loan takes: the whole debt is covered, a penalty is
/// added, and collateral worth both is seized, never more than there is.
#[derive(Debug)]
pub struct LiquidationPlan {
    pub collateral_asset: String,
    pub debt_covered: Dec,
    pub liquidation_penalty: Dec,
    pub collateral_seized: Dec,
}

/// Liquidates risky loans at a penalty rate.
pub struct LiquidationBotService {
    pub liquidation_penalty_rate: Dec,
}

/// Message telling an owner their loan was liquidated.
pub open spec fn liquidation_notice_text(
    plan_id: u128,
    debt: Dec,
    borrow_asset: Seq<char>,
    seized: Dec,
    collateral_asset: Seq<char>,
) -> Seq<char> {
    "Your loan against plan "@ + uuid_text(plan_id) + " has been liquidated. "@ + decimal_text(
        debt.mantissa,
        debt.scale,
    ) + " "@ + borrow_asset + " debt was covered by seizing "@ + decimal_text(
        seized.mantissa,
        seized.scale,
    ) + " "@ + collateral_asset + "."@
}

impl LiquidationBotService {
    /// The liquidation of a loan with `total_debt` against the plan's
    /// collateral (none counts as zero, of USDC where no asset is named);
    /// `None` where the penalty or the debt plus penalty overflows.
    pub fn plan_liquidation(
        &self,
        total_debt: &Dec,
        collateral_asset: Option<String>,
        collateral_amount: Option<Dec>,
    ) -> (r: Option<LiquidationPlan>)
        requires
            self.liquidation_penalty_rate.wf(),
            total_debt.wf(),
            collateral_amount matches Some(a) ==> a.wf(),
        ensures
            ({
                let amount = match collateral_amount {
                    Some(a) => a,
                    None => dec_zero(),
                };
                let penalty = as_dec(
                    decimal_checked_mul(
                        total_debt.mantissa,
                        total_debt.scale,
                        self.liquidation_penalty_rate.mantissa,
                        self.liquidation_penalty_rate.scale,
                    ),
                );
                let gross = match penalty {
                    Some(p) => as_dec(
                        decimal_checked_add(
                            total_debt.mantissa,
                            total_debt.scale,
                            p.mantissa,
                            p.scale,
                        ),
                    ),
                    None => None,
                };
                &&& (r is Some <==> gross is Some)
                &&& r matches Some(l) ==> {
                    &&& l.debt_covered == *total_debt
                    &&& l.liquidation_penalty == penalty->0
                    &&& l.collateral_seized == (if dec_lt_spec(amount, gross->0) {
                        amount
                    } else {
                        gross->0
                    })
                    &&& dec_le_spec(l.collateral_seized, amount)
                    &&& (collateral_asset matches Some(a) ==> l.collateral_asset == a)
                    &&& (collateral_asset is None ==> l.collateral_asset@ == "USDC"@)
                }
            }),
    {
        let amount = match collateral_amount {
            Some(a) => a,
            None => Dec::zero(),
        };
        let penalty = match dec_checked_mul(total_debt, &self.liquidation_penalty_rate) {
            Some(p) => p,
            None => return None,
        };
        let gross = match dec_checked_add(total_debt, &penalty) {
            Some(g) => g,
            None => return None,
        };
        let seized = if dec_lt(&amount, &gross) {
            amount
        } else {
            gross
        };
        proof {
            lemma_seizure_capped(amount, gross);
        }
        Some(
            LiquidationPlan {
                collateral_asset: collateral_asset_or_default(collateral_asset),
                debt_covered: *total_debt,
                liquidation_penalty: penalty,
                collateral_seized: seized,
            },
        )
    }

    /// The notice sent to the owner of a liquidated loan.
    pub fn liquidation_notice(
        plan_id: u128,
        debt: &Dec,
        borrow_asset: &str,
        seized: &Dec,
        collateral_asset: &str,
    ) -> (r: String)
        requires
            debt.wf(),
            seized.wf(),
        ensures
            r@ == liquidation_notice_text(plan_id, *debt, borrow_asset@, *seized, collateral_asset@),
    {
        let mut r = "Your loan against plan ".to_owned();
        r.append(uuid_to_string(plan_id).as_str());
        r.append(" has been liquidated. ");
        r.append(dec_to_string(debt).as_str());
        r.append(" ");
        r.append(borrow_asset);
        r.append(" debt was covered by seizing ");
        r.append(dec_to_string(seized).as_str());
        r.append(" ");
        r.append(collateral_asset);
        r.append(".");
        r
    }
}

/// The seized collateral never exceeds the collateral there is: where the
/// debt plus penalty is more, the whole collateral is taken, else exactly
/// the debt plus penalty.
pub proof fn lemma_seizure_capped(amount: Dec, gross: Dec)
    ensures
        ({
            let seized = if dec_lt_spec(amount, gross) {
                amount
            } else {
                gross
            };
            dec_le_spec(seized, amount) && dec_le_spec(seized, gross)
        }),
{
    crate::decimal::lemma_dec_le_total(amount, gross);
}

// ── Lending history ────────────────────────────────────────────────────────

/// The unit the history is bucketed by for a requested range: `hour` for
/// hourly, `week` for weekly, `month` for monthly, `day` for anything else.
pub open spec fn bucket_unit(range: Seq<char>) -> Seq<char> {
    if range == "hourly"@ {
        "hour"@
    } else if range == "weekly"@ {
        "week"@
    } else if range == "monthly"@ {
        "month"@
    } else {
        "day"@
    }
}

/// The bucket unit of a requested range.
pub fn history_bucket(range: &str) -> (r: &'static str)
    ensures
        r@ == bucket_unit(range@),
{
    if str_eq(range, "hourly") {
        "hour"
    } else if str_eq(range, "weekly") {
        "week"
    } else if str_eq(range, "monthly") {
        "month"
    } else {
        "day"
    }
}

/// The snapshot interval from its configured value: the value when it reads
/// as a `u64`, else one hour.
pub fn snapshot_interval_secs(value: Option<&str>) -> (r: u64)
    ensures
        r == (match value {
            Some(v) => match parsed_u64(v@) {
                Some(n) => n,
                None => DEFAULT_SNAPSHOT_INTERVAL_SECS,
            },
            None => DEFAULT_SNAPSHOT_INTERVAL_SECS,
        }),
{
    match value {
        Some(v) => match parse_u64(v) {
            Some(n) => n,
            None => DEFAULT_SNAPSHOT_INTERVAL_SECS,
        },
        None => DEFAULT_SNAPSHOT_INTERVAL_SECS,
    }
}

/// A loan's owner is warned once, when the loan turns risky: a loan whose
/// stored flag was already risky is never reported as newly risky, and the
/// flag and transition of every assessment follow from the health factor,
/// the stored flag and the override.
pub proof fn lemma_warning_only_when_newly_risky(
    default_threshold: Dec,
    total_debt: Dec,
    borrow_price: Dec,
    collateral_upper: Seq<char>,
    collateral_amount: Option<Dec>,
    collateral_price: Dec,
    was_risky: Option<bool>,
    risk_override_enabled: Option<bool>,
)
    ensures
        assessment_follows_flags(
            loan_check(
                default_threshold,
                total_debt,
                borrow_price,
                collateral_upper,
                collateral_amount,
                collateral_price,
                was_risky,
                risk_override_enabled,
            ),
            asset_threshold(collateral_upper, default_threshold),
            was_risky,
            risk_override_enabled,
        ),
        was_risky == Some(true) ==> !(loan_check(
            default_threshold,
            total_debt,
            borrow_price,
            collateral_upper,
            collateral_amount,
            collateral_price,
            was_risky,
            risk_override_enabled,
        ) matches LoanCheck::Assessed(a) && a.transition == RiskTransition::BecameRisky),
{
}

} // verus!
