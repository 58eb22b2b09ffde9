use mycelia::progression::{
    passive_income, passive_nutrient_generation, try_spend_nutrients, NutrientCosts, NutrientPurpose,
    NutrientSource, NutrientSpendFailed, NutrientsGained, NutrientsSpent, Nutrients, PassiveNutrientConfig,
    NUTRIENT_SCALE,
};
use mycelia::state::GameState;
use mycelia::stats::NetworkStats;

const N: u64 = NUTRIENT_SCALE;

#[test]
fn test_nutrient_source_variants() {
    let sources = [
        NutrientSource::EnemyDrop,
        NutrientSource::EnvironmentNode,
        NutrientSource::PassiveAbsorption,
        NutrientSource::Decomposition,
        NutrientSource::Debug,
    ];
    assert_eq!(sources.len(), 5);
}

#[test]
fn test_nutrient_source_equality() {
    assert_eq!(NutrientSource::EnemyDrop, NutrientSource::EnemyDrop);
    assert_ne!(NutrientSource::EnemyDrop, NutrientSource::Decomposition);
}

#[test]
fn test_nutrient_purpose_variants() {
    let purposes = [NutrientPurpose::Growth, NutrientPurpose::Ability, NutrientPurpose::Cleanse, NutrientPurpose::Debug];
    assert_eq!(purposes.len(), 4);
}

#[test]
fn test_nutrient_purpose_equality() {
    assert_eq!(NutrientPurpose::Growth, NutrientPurpose::Growth);
    assert_ne!(NutrientPurpose::Growth, NutrientPurpose::Ability);
}

#[test]
fn test_nutrients_gained_new() {
    let event = NutrientsGained::new(10 * N, NutrientSource::EnemyDrop);
    assert_eq!(event.amount, 10 * N);
    assert_eq!(event.source, NutrientSource::EnemyDrop);
}

#[test]
fn test_nutrients_spent_new() {
    let event = NutrientsSpent::new(5 * N, NutrientPurpose::Growth);
    assert_eq!(event.amount, 5 * N);
    assert_eq!(event.purpose, NutrientPurpose::Growth);
}

#[test]
fn test_nutrient_spend_failed_new() {
    let event = NutrientSpendFailed::new(50 * N, 20 * N, NutrientPurpose::Cleanse);
    assert_eq!(event.amount_needed, 50 * N);
    assert_eq!(event.amount_available, 20 * N);
    assert_eq!(event.purpose, NutrientPurpose::Cleanse);
}

#[test]
fn test_nutrient_spend_failed_deficit() {
    let event = NutrientSpendFailed::new(50 * N, 20 * N, NutrientPurpose::Cleanse);
    assert_eq!(event.deficit(), 30 * N);
}

#[test]
fn test_nutrients_default() {
    let nutrients = Nutrients::default();
    assert!(nutrients.current > 0);
    assert!(nutrients.max >= nutrients.current);
}

#[test]
fn test_nutrients_new() {
    let nutrients = Nutrients::new(25 * N, 75 * N);
    assert_eq!(nutrients.current, 25 * N);
    assert_eq!(nutrients.max, 75 * N);
}

#[test]
fn test_nutrients_add() {
    let mut nutrients = Nutrients::new(50 * N, 100 * N);
    nutrients.add(25 * N);
    assert_eq!(nutrients.current, 75 * N);
}

#[test]
fn test_nutrients_add_caps_at_max() {
    let mut nutrients = Nutrients::new(80 * N, 100 * N);
    nutrients.add(50 * N);
    assert_eq!(nutrients.current, 100 * N);
}

#[test]
fn test_nutrients_spend_success() {
    let mut nutrients = Nutrients::new(50 * N, 100 * N);
    assert!(nutrients.spend(30 * N));
    assert_eq!(nutrients.current, 20 * N);
}

#[test]
fn test_nutrients_spend_failure() {
    let mut nutrients = Nutrients::new(20 * N, 100 * N);
    assert!(!nutrients.spend(30 * N));
    assert_eq!(nutrients.current, 20 * N);
}

#[test]
fn test_nutrients_spend_exact_amount() {
    let mut nutrients = Nutrients::new(50 * N, 100 * N);
    assert!(nutrients.spend(50 * N));
    assert_eq!(nutrients.current, 0);
}

#[test]
fn test_nutrients_can_afford() {
    let nutrients = Nutrients::new(50 * N, 100 * N);
    assert!(nutrients.can_afford(50 * N));
    assert!(nutrients.can_afford(49 * N));
    assert!(!nutrients.can_afford(51 * N));
}

#[test]
fn test_nutrients_can_afford_zero() {
    let nutrients = Nutrients::new(0, 100 * N);
    assert!(nutrients.can_afford(0));
    assert!(!nutrients.can_afford(10));
}

#[test]
fn test_nutrients_percentage() {
    assert_eq!(Nutrients::new(25 * N, 100 * N).percentage(), 250);
}

#[test]
fn test_nutrients_percentage_full() {
    assert_eq!(Nutrients::new(100 * N, 100 * N).percentage(), 1000);
}

#[test]
fn test_nutrients_percentage_empty() {
    assert_eq!(Nutrients::new(0, 100 * N).percentage(), 0);
}

#[test]
fn test_nutrients_percentage_zero_max() {
    assert_eq!(Nutrients::new(0, 0).percentage(), 0);
}

#[test]
fn test_nutrients_increase_max() {
    let mut nutrients = Nutrients::new(50 * N, 100 * N);
    nutrients.increase_max(50 * N);
    assert_eq!(nutrients.max, 150 * N);
    assert_eq!(nutrients.current, 50 * N);
}

#[test]
fn test_nutrient_costs_default_positive() {
    let costs = NutrientCosts::default();
    assert!(costs.growth_cost > 0);
    assert!(costs.ability_cost_per_second > 0);
    assert!(costs.cleanse_base_cost > 0);
    assert!(costs.cleanse_level_multiplier > 0);
}

#[test]
fn test_nutrient_costs_cleanse_cost() {
    let costs = NutrientCosts::default();
    assert_eq!(costs.cleanse_cost(0), costs.cleanse_base_cost);
    assert_eq!(costs.cleanse_cost(500), costs.cleanse_base_cost + costs.cleanse_level_multiplier / 2);
    assert_eq!(costs.cleanse_cost(1000), costs.cleanse_base_cost + costs.cleanse_level_multiplier);
    assert_eq!(costs.cleanse_cost(500), 11 * N);
}

#[test]
fn test_passive_config_default_positive() {
    let config = PassiveNutrientConfig::default();
    assert!(config.per_segment_rate > 0);
    assert!(config.territory_bonus_rate > 0);
}

#[test]
fn test_spend_nutrients_success() {
    let mut nutrients = Nutrients::new(50 * N, 100 * N);
    assert!(nutrients.spend(30 * N));
    assert_eq!(nutrients.current, 20 * N);
}

#[test]
fn test_spend_nutrients_failure() {
    let mut nutrients = Nutrients::new(20 * N, 100 * N);
    assert!(!nutrients.spend(30 * N));
    assert_eq!(nutrients.current, 20 * N);
}

#[test]
fn spend_more_than_held_changes_nothing() {
    let mut nutrients = Nutrients::new(7, 100);
    assert!(!nutrients.spend(8));
    assert_eq!(nutrients, Nutrients::new(7, 100));
    assert!(nutrients.spend(7));
    assert_eq!(nutrients.current, 0);
}

#[test]
fn try_spend_reports_spend() {
    let mut nutrients = Nutrients::new(50 * N, 100 * N);
    let r = try_spend_nutrients(5 * N, NutrientPurpose::Growth, &mut nutrients);
    assert_eq!(r, Ok(NutrientsSpent::new(5 * N, NutrientPurpose::Growth)));
    assert_eq!(nutrients.current, 45 * N);
}

#[test]
fn try_spend_reports_shortfall() {
    let mut nutrients = Nutrients::new(20 * N, 100 * N);
    let r = try_spend_nutrients(50 * N, NutrientPurpose::Cleanse, &mut nutrients);
    let failed = r.unwrap_err();
    assert_eq!(failed, NutrientSpendFailed::new(50 * N, 20 * N, NutrientPurpose::Cleanse));
    assert_eq!(failed.deficit(), 30 * N);
    assert_eq!(nutrients.current, 20 * N);
}

#[test]
fn passive_income_over_one_second() {
    let config = PassiveNutrientConfig { per_segment_rate: 100, territory_bonus_rate: 1000 };
    let stats = NetworkStats { connected_segments: 10, territory_coverage: 100, ..NetworkStats::default() };
    assert_eq!(passive_income(&stats, &config, 1_000_000), 1100);
    let mut nutrients = Nutrients::new(0, 100 * N);
    let gained = passive_nutrient_generation(GameState::Playing, 1_000_000, &stats, &config, &mut nutrients);
    assert_eq!(gained, Some(NutrientsGained::new(1100, NutrientSource::PassiveAbsorption)));
    assert_eq!(nutrients.current, 1100);
}

#[test]
fn passive_income_needs_play() {
    let config = PassiveNutrientConfig::default();
    let stats = NetworkStats { connected_segments: 10, ..NetworkStats::default() };
    let mut nutrients = Nutrients::new(0, 100 * N);
    let gained = passive_nutrient_generation(GameState::Paused, 1_000_000, &stats, &config, &mut nutrients);
    assert_eq!(gained, None);
    assert_eq!(nutrients.current, 0);
}

#[test]
fn zero_income_reports_nothing() {
    let config = PassiveNutrientConfig::default();
    let stats = NetworkStats::default();
    let mut nutrients = Nutrients::new(3, 100);
    assert_eq!(passive_nutrient_generation(GameState::Playing, 16_000, &stats, &config, &mut nutrients), None);
    assert_eq!(nutrients.current, 3);
}

#[test]
fn passive_income_is_capped_by_the_pool() {
    let config = PassiveNutrientConfig::default();
    let stats = NetworkStats { connected_segments: 1000, ..NetworkStats::default() };
    let mut nutrients = Nutrients::new(99 * N, 100 * N);
    let gained = passive_nutrient_generation(GameState::Playing, 1_000_000, &stats, &config, &mut nutrients);
    assert_eq!(gained.unwrap().amount, 100 * N);
    assert_eq!(nutrients.current, 100 * N);
}

#[test]
fn passive_income_of_a_frame_rounds_down() {
    let config = PassiveNutrientConfig::default();
    let stats = NetworkStats { connected_segments: 10, territory_coverage: 100, ..NetworkStats::default() };
    assert_eq!(passive_income(&stats, &config, 16_000), 17);
}
