//! Data of the estate optimizer: risk profiles, market data, beneficiary
//! profiles, optimizer settings and allocation recommendations, each with
//! the validation that decides whether it can be used.
//!
//! Scores are on a 0..=100 scale; percentages are basis points, 10000 being
//! the whole.
use vstd::prelude::*;

verus! {

/// Top of a score scale.
pub const MAX_SCALE: u32 = 100;

/// The whole, in basis points.
pub const MAX_BASIS_POINTS: u32 = 10000;

/// Top of an optimizer weight, and of the weights together.
pub const MAX_WEIGHT: u32 = 100;

// ── Risk profile ───────────────────────────────────────────────────────────

#[derive(Clone, Debug, PartialEq, Eq, Structural)]
pub enum RiskLevel {
    Conservative,
    Moderate,
    Aggressive,
    Custom,
}

#[derive(Clone, Debug, PartialEq, Eq, Structural)]
pub struct RiskProfile {
    pub level: RiskLevel,
    pub risk_tolerance: u32,
    pub time_horizon: u64,
    pub volatility_preference: u32,
    pub liquidity_needs: u32,
}

impl RiskProfile {
    /// The scores are on scale and the horizon is not empty.
    pub open spec fn valid(&self) -> bool {
        &&& self.risk_tolerance <= MAX_SCALE
        &&& self.volatility_preference <= MAX_SCALE
        &&& self.liquidity_needs <= MAX_SCALE
        &&& self.time_horizon > 0
    }

    /// Whether the profile is usable.
    pub fn validate(&self) -> (r: bool)
        ensures
            r == self.valid(),
    {
        self.risk_tolerance <= MAX_SCALE && self.volatility_preference <= MAX_SCALE
            && self.liquidity_needs <= MAX_SCALE && self.time_horizon > 0
    }
}

// ── Market data ────────────────────────────────────────────────────────────

#[derive(Clone, Debug, PartialEq, Eq)]
pub struct MarketData {
    pub asset_symbol: String,
    pub current_price: u64,
    pub price_change_24h: i32,
    pub volatility_30d: u32,
    pub market_cap: u64,
    pub liquidity_score: u32,
    pub last_updated: u64,
}

impl MarketData {
    /// The liquidity score is on scale and the asset is named.
    pub open spec fn valid(&self) -> bool {
        self.liquidity_score <= MAX_SCALE && self.asset_symbol@.len() > 0
    }

    /// Whether the data is usable.
    pub fn validate(&self) -> (r: bool)
        ensures
            r == self.valid(),
    {
        self.liquidity_score <= MAX_SCALE && self.asset_symbol.as_str().unicode_len() > 0
    }
}

// ── Beneficiary profile ────────────────────────────────────────────────────

#[derive(Clone, Debug, PartialEq, Eq, Structural)]
pub enum FinancialSituation {
    Student,
    EarlyCareer,
    Established,
    Retired,
    Dependent,
}

#[derive(Clone, Debug, PartialEq, Eq, Structural)]
pub enum NeedType {
    Education,
    Healthcare,
    Housing,
    Emergency,
    Investment,
    Business,
}

#[derive(Clone, Debug, PartialEq, Eq, Structural)]
pub enum Requirement {
    Accessibility,
    LegalGuardianship,
    TrustStructure,
    TaxExemption,
    RegularDistributions,
}

#[derive(Clone, Debug, PartialEq, Eq)]
pub struct BeneficiaryProfile {
    pub beneficiary_id: u32,
    pub age: u32,
    pub financial_situation: FinancialSituation,
    pub needs_priority: Vec<NeedType>,
    pub risk_capacity: RiskLevel,
    pub geographic_location: String,
    pub special_requirements: Vec<Requirement>,
}

impl BeneficiaryProfile {
    /// The beneficiary's location is given.
    pub open spec fn valid(&self) -> bool {
        self.geographic_location@.len() > 0
    }

    /// Whether the profile is usable.
    pub fn validate(&self) -> (r: bool)
        ensures
            r == self.valid(),
    {
        self.geographic_location.as_str().unicode_len() > 0
    }
}

// ── Optimizer settings ─────────────────────────────────────────────────────

#[derive(Clone, Debug, PartialEq, Eq, Structural)]
pub enum OptimizationGoal {
    MaximizeValue,
    MinimizeRisk,
    BalanceGrowthStability,
    TaxOptimization,
    LiquidityPreservation,
}

#[derive(Clone, Debug, PartialEq, Eq, Structural)]
pub enum RebalancingFrequency {
    Daily,
    Weekly,
    Monthly,
    Quarterly,
    Annually,
}

#[derive(Clone, Debug, PartialEq, Eq)]
pub struct AIEstateOptimizer {
    pub optimization_goals: Vec<OptimizationGoal>,
    pub rebalancing_frequency: RebalancingFrequency,
    pub tax_optimization_enabled: bool,
    pub market_conditions_weight: u32,
    pub beneficiary_needs_weight: u32,
    pub risk_adjustment_weight: u32,
}

impl AIEstateOptimizer {
    /// There is a goal, and the weights, alone and together, are at most the
    /// maximum weight.
    pub open spec fn valid(&self) -> bool {
        &&& self.optimization_goals@.len() > 0
        &&& self.market_conditions_weight <= MAX_WEIGHT
        &&& self.beneficiary_needs_weight <= MAX_WEIGHT
        &&& self.risk_adjustment_weight <= MAX_WEIGHT
        &&& self.market_conditions_weight + self.beneficiary_needs_weight
            + self.risk_adjustment_weight <= MAX_WEIGHT
    }

    /// Whether the settings are usable.
    pub fn validate(&self) -> (r: bool)
        ensures
            r == self.valid(),
    {
        let total_weight = (self.market_conditions_weight as u64) + (
        self.beneficiary_needs_weight as u64) + (self.risk_adjustment_weight as u64);
        self.optimization_goals.len() > 0 && self.market_conditions_weight <= MAX_WEIGHT
            && self.beneficiary_needs_weight <= MAX_WEIGHT && self.risk_adjustment_weight
            <= MAX_WEIGHT && total_weight <= MAX_WEIGHT as u64
    }
}

// ── Recommendations ────────────────────────────────────────────────────────

/// A chain an asset can be held on.
#[derive(Clone, Debug, PartialEq, Eq, Structural)]
pub enum SupportedChain {
    Stellar,
    Ethereum,
    Polygon,
    Bitcoin,
}

#[derive(Clone, Debug, PartialEq, Eq)]
pub struct AssetAllocation {
    pub asset_symbol: String,
    pub chain: SupportedChain,
    pub recommended_percentage: u32,
    pub current_percentage: u32,
    pub adjustment_reason: String,
}

impl AssetAllocation {
    /// Both percentages are at most the whole and the asset is named.
    pub open spec fn valid(&self) -> bool {
        &&& self.recommended_percentage <= MAX_BASIS_POINTS
        &&& self.current_percentage <= MAX_BASIS_POINTS
        &&& self.asset_symbol@.len() > 0
    }

    /// Whether the allocation is usable.
    pub fn validate(&self) -> (r: bool)
        ensures
            r == self.valid(),
    {
        self.recommended_percentage <= MAX_BASIS_POINTS && self.current_percentage
            <= MAX_BASIS_POINTS && self.asset_symbol.as_str().unicode_len() > 0
    }
}

#[derive(Clone, Debug, PartialEq, Eq)]
pub struct OptimizationRecommendation {
    pub plan_id: u64,
    pub recommended_allocations: Vec<AssetAllocation>,
    pub confidence_score: u32,
    pub expected_return: u32,
    pub risk_score: u32,
    pub reasoning: String,
    pub generated_at: u64,
}

/// The recommended percentages of the allocations, added up.
pub open spec fn total_recommended(allocations: Seq<AssetAllocation>) -> int
    decreases allocations.len(),
{
    if allocations.len() == 0 {
        0
    } else {
        total_recommended(allocations.drop_last()) + allocations.last().recommended_percentage
    }
}

proof fn lemma_total_recommended_monotone(allocations: Seq<AssetAllocation>, i: int)
    requires
        0 <= i <= allocations.len(),
    ensures
        total_recommended(allocations.take(i)) <= total_recommended(allocations),
    decreases allocations.len() - i,
{
    if i < allocations.len() {
        lemma_total_recommended_monotone(allocations, i + 1);
        assert(allocations.take(i + 1).drop_last() =~= allocations.take(i));
    } else {
        assert(allocations.take(i) =~= allocations);
    }
}

impl OptimizationRecommendation {
    /// The scores are on scale, there is an allocation, every allocation is
    /// valid, and the recommended percentages add up to at most the whole.
    pub open spec fn valid(&self) -> bool {
        &&& self.confidence_score <= MAX_SCALE
        &&& self.risk_score <= MAX_SCALE
        &&& self.recommended_allocations@.len() > 0
        &&& forall|i: int|
            0 <= i < self.recommended_allocations@.len()
                ==> #[trigger] self.recommended_allocations@[i].valid()
        &&& total_recommended(self.recommended_allocations@) <= MAX_BASIS_POINTS
    }

    /// Whether the recommendation is usable.
    pub fn validate(&self) -> (r: bool)
        ensures
            r == self.valid(),
    {
        if self.confidence_score > MAX_SCALE || self.risk_score > MAX_SCALE {
            return false;
        }
        if self.recommended_allocations.len() == 0 {
            return false;
        }
        let allocations = &self.recommended_allocations;
        let n = allocations.len();
        let mut total_bp: u32 = 0;
        let mut i: usize = 0;
        while i < n
            invariant
                n == allocations@.len(),
                allocations@ == self.recommended_allocations@,
                n > 0,
                self.confidence_score <= MAX_SCALE,
                self.risk_score <= MAX_SCALE,
                i <= n,
                total_bp == total_recommended(allocations@.take(i as int)),
                forall|k: int| 0 <= k < i ==> #[trigger] allocations@[k].valid(),
            decreases n - i,
        {
            let alloc = &allocations[i];
            assert(allocations@.take(i + 1).drop_last() =~= allocations@.take(i as int));
            assert(allocations@.take(i + 1).last() == allocations@[i as int]);
            if !alloc.validate() {
                assert(!self.recommended_allocations@[i as int].valid());
                return false;
            }
            total_bp = match total_bp.checked_add(alloc.recommended_percentage) {
                Some(v) => v,
                None => {
                    proof {
                        lemma_total_recommended_monotone(allocations@, i + 1);
                    }
                    return false;
                },
            };
            i = i + 1;
        }
        assert(allocations@.take(n as int) =~= allocations@);
        total_bp <= MAX_BASIS_POINTS
    }
}

/// In a valid recommendation no allocation is recommended more than the
/// whole, and the allocations never add up to more than the whole.
pub proof fn lemma_valid_recommendation_within_whole(rec: OptimizationRecommendation, i: int)
    requires
        rec.valid(),
        0 <= i < rec.recommended_allocations@.len(),
    ensures
        rec.recommended_allocations@[i].recommended_percentage <= MAX_BASIS_POINTS,
        total_recommended(rec.recommended_allocations@) <= MAX_BASIS_POINTS,
{
    assert(rec.recommended_allocations@[i].valid());
}

} // verus!
