use inheritx::ai_optimizer::{
    AIEstateOptimizer, AssetAllocation, BeneficiaryProfile, FinancialSituation, MarketData,
    NeedType, OptimizationGoal, OptimizationRecommendation, RebalancingFrequency, Requirement,
    RiskLevel, RiskProfile, SupportedChain,
};

fn allocation(symbol: &str, chain: SupportedChain, recommended: u32, current: u32, reason: &str) -> AssetAllocation {
    AssetAllocation {
        asset_symbol: symbol.to_string(),
        chain,
        recommended_percentage: recommended,
        current_percentage: current,
        adjustment_reason: reason.to_string(),
    }
}

fn make_recommendation(allocations: Vec<AssetAllocation>) -> OptimizationRecommendation {
    OptimizationRecommendation {
        plan_id: 1,
        recommended_allocations: allocations,
        confidence_score: 85,
        expected_return: 750,
        risk_score: 40,
        reasoning: "Diversified portfolio".to_string(),
        generated_at: 1_700_000_000,
    }
}

#[test]
fn risk_profile_valid() {
    let profile = RiskProfile {
        level: RiskLevel::Moderate,
        risk_tolerance: 50,
        time_horizon: 10,
        volatility_preference: 30,
        liquidity_needs: 40,
    };
    assert!(profile.validate());
}

#[test]
fn risk_profile_tolerance_exceeds_scale() {
    let profile = RiskProfile {
        level: RiskLevel::Aggressive,
        risk_tolerance: 101,
        time_horizon: 5,
        volatility_preference: 50,
        liquidity_needs: 50,
    };
    assert!(!profile.validate());
}

#[test]
fn risk_profile_zero_time_horizon() {
    let profile = RiskProfile {
        level: RiskLevel::Conservative,
        risk_tolerance: 20,
        time_horizon: 0,
        volatility_preference: 10,
        liquidity_needs: 10,
    };
    assert!(!profile.validate());
}

#[test]
fn risk_profile_volatility_exceeds_scale() {
    let profile = RiskProfile {
        level: RiskLevel::Custom,
        risk_tolerance: 50,
        time_horizon: 5,
        volatility_preference: 101,
        liquidity_needs: 50,
    };
    assert!(!profile.validate());
}

#[test]
fn risk_profile_liquidity_exceeds_scale() {
    let profile = RiskProfile {
        level: RiskLevel::Moderate,
        risk_tolerance: 50,
        time_horizon: 5,
        volatility_preference: 50,
        liquidity_needs: 101,
    };
    assert!(!profile.validate());
}

#[test]
fn risk_profile_boundary_values() {
    let profile = RiskProfile {
        level: RiskLevel::Moderate,
        risk_tolerance: 100,
        time_horizon: 1,
        volatility_preference: 100,
        liquidity_needs: 100,
    };
    assert!(profile.validate());
}

#[test]
fn risk_level_equality() {
    assert_eq!(RiskLevel::Conservative, RiskLevel::Conservative);
    assert_ne!(RiskLevel::Conservative, RiskLevel::Aggressive);
}

#[test]
fn market_data_valid() {
    let data = MarketData {
        asset_symbol: "USDC".to_string(),
        current_price: 1_000_000,
        price_change_24h: -50,
        volatility_30d: 200,
        market_cap: 30_000_000_000,
        liquidity_score: 95,
        last_updated: 1_700_000_000,
    };
    assert!(data.validate());
}

#[test]
fn market_data_liquidity_exceeds_scale() {
    let data = MarketData {
        asset_symbol: "BTC".to_string(),
        current_price: 50_000_000,
        price_change_24h: 100,
        volatility_30d: 500,
        market_cap: 1_000_000_000_000,
        liquidity_score: 101,
        last_updated: 1_700_000_000,
    };
    assert!(!data.validate());
}

#[test]
fn market_data_empty_symbol() {
    let data = MarketData {
        asset_symbol: "".to_string(),
        current_price: 1_000,
        price_change_24h: 0,
        volatility_30d: 100,
        market_cap: 1_000_000,
        liquidity_score: 50,
        last_updated: 1_700_000_000,
    };
    assert!(!data.validate());
}

#[test]
fn market_data_negative_price_change() {
    let data = MarketData {
        asset_symbol: "ETH".to_string(),
        current_price: 2_000_000,
        price_change_24h: -500,
        volatility_30d: 300,
        market_cap: 250_000_000_000,
        liquidity_score: 90,
        last_updated: 1_700_000_000,
    };
    assert!(data.validate());
}

#[test]
fn beneficiary_profile_valid() {
    let profile = BeneficiaryProfile {
        beneficiary_id: 1,
        age: 25,
        financial_situation: FinancialSituation::EarlyCareer,
        needs_priority: vec![NeedType::Education, NeedType::Healthcare],
        risk_capacity: RiskLevel::Moderate,
        geographic_location: "US".to_string(),
        special_requirements: vec![Requirement::TrustStructure],
    };
    assert!(profile.validate());
}

#[test]
fn beneficiary_profile_empty_location() {
    let profile = BeneficiaryProfile {
        beneficiary_id: 1,
        age: 30,
        financial_situation: FinancialSituation::Established,
        needs_priority: Vec::new(),
        risk_capacity: RiskLevel::Conservative,
        geographic_location: "".to_string(),
        special_requirements: Vec::new(),
    };
    assert!(!profile.validate());
}

#[test]
fn financial_situation_equality() {
    assert_eq!(FinancialSituation::Student, FinancialSituation::Student);
    assert_ne!(FinancialSituation::Student, FinancialSituation::Retired);
}

#[test]
fn need_type_equality() {
    assert_eq!(NeedType::Education, NeedType::Education);
    assert_ne!(NeedType::Education, NeedType::Housing);
}

#[test]
fn optimizer_config_valid() {
    let config = AIEstateOptimizer {
        optimization_goals: vec![OptimizationGoal::MaximizeValue, OptimizationGoal::TaxOptimization],
        rebalancing_frequency: RebalancingFrequency::Monthly,
        tax_optimization_enabled: true,
        market_conditions_weight: 40,
        beneficiary_needs_weight: 30,
        risk_adjustment_weight: 30,
    };
    assert!(config.validate());
}

#[test]
fn optimizer_config_empty_goals() {
    let config = AIEstateOptimizer {
        optimization_goals: Vec::new(),
        rebalancing_frequency: RebalancingFrequency::Weekly,
        tax_optimization_enabled: false,
        market_conditions_weight: 33,
        beneficiary_needs_weight: 33,
        risk_adjustment_weight: 34,
    };
    assert!(!config.validate());
}

#[test]
fn optimizer_config_weights_exceed_limit() {
    let config = AIEstateOptimizer {
        optimization_goals: vec![OptimizationGoal::MinimizeRisk],
        rebalancing_frequency: RebalancingFrequency::Quarterly,
        tax_optimization_enabled: true,
        market_conditions_weight: 50,
        beneficiary_needs_weight: 30,
        risk_adjustment_weight: 30,
    };
    assert!(!config.validate());
}

#[test]
fn optimizer_config_individual_weight_exceeds_max() {
    let config = AIEstateOptimizer {
        optimization_goals: vec![OptimizationGoal::BalanceGrowthStability],
        rebalancing_frequency: RebalancingFrequency::Annually,
        tax_optimization_enabled: false,
        market_conditions_weight: 101,
        beneficiary_needs_weight: 0,
        risk_adjustment_weight: 0,
    };
    assert!(!config.validate());
}

#[test]
fn optimization_goal_equality() {
    assert_eq!(OptimizationGoal::MaximizeValue, OptimizationGoal::MaximizeValue);
    assert_ne!(OptimizationGoal::MaximizeValue, OptimizationGoal::MinimizeRisk);
}

#[test]
fn rebalancing_frequency_equality() {
    assert_eq!(RebalancingFrequency::Daily, RebalancingFrequency::Daily);
    assert_ne!(RebalancingFrequency::Daily, RebalancingFrequency::Monthly);
}

#[test]
fn asset_allocation_valid() {
    let a = allocation("USDC", SupportedChain::Stellar, 5000, 4000, "Increase stablecoin exposure");
    assert!(a.validate());
}

#[test]
fn asset_allocation_percentage_exceeds_basis_points() {
    let a = allocation("ETH", SupportedChain::Ethereum, 10001, 3000, "Overweight");
    assert!(!a.validate());
}

#[test]
fn asset_allocation_empty_symbol() {
    let a = allocation("", SupportedChain::Polygon, 2000, 2000, "No change");
    assert!(!a.validate());
}

#[test]
fn recommendation_valid() {
    let rec = make_recommendation(vec![
        allocation("USDC", SupportedChain::Stellar, 6000, 5000, "Increase stability"),
        allocation("ETH", SupportedChain::Ethereum, 4000, 5000, "Reduce volatility"),
    ]);
    assert!(rec.validate());
}

#[test]
fn recommendation_empty_allocations() {
    let rec = make_recommendation(Vec::new());
    assert!(!rec.validate());
}

#[test]
fn recommendation_confidence_exceeds_scale() {
    let rec = OptimizationRecommendation {
        plan_id: 1,
        recommended_allocations: vec![allocation("USDC", SupportedChain::Stellar, 10000, 10000, "Hold")],
        confidence_score: 101,
        expected_return: 500,
        risk_score: 30,
        reasoning: "Test".to_string(),
        generated_at: 1_700_000_000,
    };
    assert!(!rec.validate());
}

#[test]
fn recommendation_risk_score_exceeds_scale() {
    let rec = OptimizationRecommendation {
        plan_id: 1,
        recommended_allocations: vec![allocation("BTC", SupportedChain::Bitcoin, 10000, 10000, "Hold")],
        confidence_score: 80,
        expected_return: 500,
        risk_score: 101,
        reasoning: "Test".to_string(),
        generated_at: 1_700_000_000,
    };
    assert!(!rec.validate());
}

#[test]
fn recommendation_allocations_exceed_total() {
    let rec = make_recommendation(vec![
        allocation("USDC", SupportedChain::Stellar, 6000, 5000, "Increase"),
        allocation("ETH", SupportedChain::Ethereum, 5000, 5000, "Hold"),
    ]);
    assert!(!rec.validate());
}

#[test]
fn recommendation_with_invalid_allocation() {
    let rec = make_recommendation(vec![allocation("", SupportedChain::Stellar, 10000, 10000, "Invalid")]);
    assert!(!rec.validate());
}

#[test]
fn recommendation_sum_overflow_is_refused() {
    let rec = make_recommendation(vec![
        allocation("A", SupportedChain::Stellar, 10000, 0, "x"),
        allocation("B", SupportedChain::Stellar, 10000, 0, "x"),
    ]);
    assert!(!rec.validate());
}

#[test]
fn risk_profile_clone_equals_original() {
    let profile = RiskProfile {
        level: RiskLevel::Moderate,
        risk_tolerance: 50,
        time_horizon: 10,
        volatility_preference: 30,
        liquidity_needs: 40,
    };
    assert_eq!(profile.clone(), profile);
}

#[test]
fn market_data_clone_equals_original() {
    let data = MarketData {
        asset_symbol: "USDC".to_string(),
        current_price: 1_000_000,
        price_change_24h: -50,
        volatility_30d: 200,
        market_cap: 30_000_000_000,
        liquidity_score: 95,
        last_updated: 1_700_000_000,
    };
    assert_eq!(data.clone(), data);
}

#[test]
fn optimizer_config_clone_equals_original() {
    let config = AIEstateOptimizer {
        optimization_goals: vec![OptimizationGoal::MaximizeValue],
        rebalancing_frequency: RebalancingFrequency::Monthly,
        tax_optimization_enabled: true,
        market_conditions_weight: 40,
        beneficiary_needs_weight: 30,
        risk_adjustment_weight: 30,
    };
    assert_eq!(config.clone(), config);
}

#[test]
fn recommendation_clone_equals_original() {
    let rec = make_recommendation(vec![allocation("USDC", SupportedChain::Stellar, 10000, 10000, "Hold")]);
    assert_eq!(rec.clone(), rec);
}
