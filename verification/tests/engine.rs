//! Scenario tests for the colony engine: the fixed starting catalog and
//! the tick / build / research operations. All quantities are in
//! hundredths of a unit (`150_00` means `150.00`).

use colony_sim::colony::Colony;
use colony_sim::types::ColonyError;

#[test]
fn fresh_colony_matches_catalog() {
    let c = Colony::new();
    assert_eq!(c.day, 1);
    assert_eq!(c.population, 10_000);
    assert_eq!(c.happiness, 10_000);
    assert_eq!(c.tech_points, 0);
    assert_eq!(c.events.len(), 0);

    assert_eq!(c.resources.len(), 4);
    assert_eq!(c.resources[0].name, "Food");
    assert_eq!(c.resources[0].amount, 100_000);
    assert_eq!(c.resources[0].production_rate, 1_000);
    assert_eq!(c.resources[0].consumption_rate, 100);
    assert_eq!(c.resources[1].name, "Energy");
    assert_eq!(c.resources[1].amount, 50_000);
    assert_eq!(c.resources[2].name, "Minerals");
    assert_eq!(c.resources[2].amount, 20_000);
    assert_eq!(c.resources[3].name, "Water");
    assert_eq!(c.resources[3].amount, 80_000);

    assert_eq!(c.buildings.len(), 3);
    assert_eq!(c.buildings[0].name, "Farm");
    assert_eq!(c.buildings[0].quantity, 1);
    assert_eq!(c.buildings[0].construction_cost[0].resource, "Minerals");
    assert_eq!(c.buildings[0].construction_cost[0].amount, 5_000);
    assert_eq!(c.buildings[1].name, "Solar Panel");
    assert_eq!(c.buildings[2].name, "Water Extractor");

    assert_eq!(c.research.len(), 4);
    assert_eq!(c.research[0].name, "Advanced Farming");
    assert_eq!(c.research[0].cost, 10_000);
    assert!(!c.research[0].completed);
    assert_eq!(c.research[1].name, "Efficient Solar Cells");
    assert_eq!(c.research[2].name, "Hydroponics");
    assert_eq!(c.research[3].name, "Community Center");
}

#[test]
fn first_tick_exact_arithmetic() {
    let mut c = Colony::new();
    c.tick();
    // rates applied first: Food 1000.00 + 10.00 - 1.00 = 1009.00,
    // then the population of 100.00 eats 100.00 -> 909.00
    assert_eq!(c.resources[0].amount, 90_900);
    // Energy 500.00 + 5.00 - 1.00 = 504.00
    assert_eq!(c.resources[1].amount, 50_400);
    // Minerals 200.00 + 2.00 = 202.00
    assert_eq!(c.resources[2].amount, 20_200);
    // Water 800.00 + 8.00 - 2.00 = 806.00, minus 100.00 drunk -> 706.00
    assert_eq!(c.resources[3].amount, 70_600);
    // full rations: population grows by 1%
    assert_eq!(c.population, 10_100);
    // ration ratios stay at 1, happiness stays clamped at 100%
    assert_eq!(c.happiness, 10_000);
    // tech accrual: 0.1 * 101.00 * 100% = 10.10
    assert_eq!(c.tech_points, 1_010);
    assert_eq!(c.day, 2);
}

#[test]
fn build_farm_pays_cost_and_adds_rates() {
    let mut c = Colony::new();
    let r = c.build("Farm");
    assert!(r.is_ok());
    // Minerals 200.00 >= cost 50.00 -> 150.00 left
    assert_eq!(c.resources[2].amount, 15_000);
    assert_eq!(c.buildings[0].quantity, 2);
    // Food production 10.00 + 5.00
    assert_eq!(c.resources[0].production_rate, 1_500);
    // Energy consumption 1.00 + 1.00
    assert_eq!(c.resources[1].consumption_rate, 200);
    // Water consumption 2.00 + 2.00
    assert_eq!(c.resources[3].consumption_rate, 400);
}

#[test]
fn build_unknown_name_is_not_found() {
    let mut c = Colony::new();
    assert_eq!(c.build("Mall"), Err(ColonyError::NotFound));
    assert_eq!(c.resources[2].amount, 20_000);
}

#[test]
fn build_failure_changes_nothing() {
    let mut c = Colony::new();
    // Farm costs 50.00 minerals; 200.00 in stock pays for four farms.
    assert!(c.build("Farm").is_ok());
    assert!(c.build("Farm").is_ok());
    assert!(c.build("Farm").is_ok());
    assert!(c.build("Farm").is_ok());
    assert_eq!(c.resources[2].amount, 0);
    assert_eq!(c.buildings[0].quantity, 5);
    let food_prod = c.resources[0].production_rate;
    let water_cons = c.resources[3].consumption_rate;
    // The fifth fails naming the lacking resource, and nothing moves.
    match c.build("Farm") {
        Err(ColonyError::InsufficientResource(s)) => assert_eq!(s, "Minerals"),
        other => panic!("expected InsufficientResource, got {:?}", other),
    }
    assert_eq!(c.resources[2].amount, 0);
    assert_eq!(c.buildings[0].quantity, 5);
    assert_eq!(c.resources[0].production_rate, food_prod);
    assert_eq!(c.resources[3].consumption_rate, water_cons);
}

#[test]
fn research_without_points_fails_unchanged() {
    let mut c = Colony::new();
    assert_eq!(
        c.research("Advanced Farming"),
        Err(ColonyError::InsufficientTechPoints)
    );
    assert_eq!(c.tech_points, 0);
    assert_eq!(c.resources[0].production_rate, 1_000);
    assert!(!c.research[0].completed);
}

#[test]
fn research_advanced_farming_multiplies_production() {
    let mut c = Colony::new();
    c.set_tech_points(10_000);
    assert!(c.research("Advanced Farming").is_ok());
    assert_eq!(c.tech_points, 0);
    // Food production 10.00 * 1.5 = 15.00
    assert_eq!(c.resources[0].production_rate, 1_500);
    assert!(c.research[0].completed);
}

#[test]
fn research_unknown_name_is_not_found() {
    let mut c = Colony::new();
    assert_eq!(c.research("Alchemy"), Err(ColonyError::NotFound));
}

#[test]
fn research_twice_fails_already_completed() {
    let mut c = Colony::new();
    c.set_tech_points(20_000);
    assert!(c.research("Advanced Farming").is_ok());
    let tech = c.tech_points;
    let prod = c.resources[0].production_rate;
    assert_eq!(
        c.research("Advanced Farming"),
        Err(ColonyError::AlreadyCompleted)
    );
    // no further state change
    assert_eq!(c.tech_points, tech);
    assert_eq!(c.resources[0].production_rate, prod);
    assert!(c.research[0].completed);
}

#[test]
fn research_hydroponics_unlocks_building() {
    let mut c = Colony::new();
    c.set_tech_points(20_000);
    assert!(c.research("Hydroponics").is_ok());
    assert_eq!(c.buildings.len(), 4);
    assert_eq!(c.buildings[3].name, "Hydroponics Lab");
    assert_eq!(c.buildings[3].quantity, 0);
    // the unlocked building can then be built: 200.00 >= 100.00 minerals
    assert!(c.build("Hydroponics Lab").is_ok());
    assert_eq!(c.buildings[3].quantity, 1);
    assert_eq!(c.resources[2].amount, 10_000);
    // Food production 10.00 + 10.00
    assert_eq!(c.resources[0].production_rate, 2_000);
}

#[test]
fn research_community_center_boosts_population() {
    let mut c = Colony::new();
    c.set_tech_points(25_000);
    assert!(c.research("Community Center").is_ok());
    // happiness was already at the 100% cap
    assert_eq!(c.happiness, 10_000);
    // population 100.00 * 1.05 = 105.00
    assert_eq!(c.population, 10_500);
    assert_eq!(c.tech_points, 0);
}

#[test]
fn log_event_appends() {
    let mut c = Colony::new();
    c.log_event(String::from("day one"));
    assert_eq!(c.events.len(), 1);
    assert_eq!(c.events[0], "day one");
}

#[test]
fn empty_name_is_not_found() {
    let mut c = Colony::new();
    assert_eq!(c.build(""), Err(ColonyError::NotFound));
    assert_eq!(c.research(""), Err(ColonyError::NotFound));
}
