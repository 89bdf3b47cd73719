//! Tests for the fixed world-event catalog: exact mutations, messages,
//! and the injected selection by a drawn number.

use colony_sim::colony::{Colony, event_for_roll};
use colony_sim::types::ColonyEvent;

#[test]
fn solar_flare_scales_energy() {
    let mut c = Colony::new();
    let msg = c.apply_event(ColonyEvent::SolarFlare);
    // Energy 500.00 * 1.5 = 750.00
    assert_eq!(c.resources[1].amount, 75_000);
    assert_eq!(
        msg,
        "Solar Flare - A solar flare has increased energy production!"
    );
}

#[test]
fn meteor_strike_adds_minerals() {
    let mut c = Colony::new();
    let msg = c.apply_event(ColonyEvent::MeteorStrike);
    assert_eq!(c.resources[2].amount, 30_000);
    assert_eq!(
        msg,
        "Meteor Strike - A meteor strike has yielded additional minerals!"
    );
}

#[test]
fn disease_outbreak_shrinks_population_and_happiness() {
    let mut c = Colony::new();
    let msg = c.apply_event(ColonyEvent::DiseaseOutbreak);
    // population 100.00 * 0.9 = 90.00; happiness 100.00 - 10.00 = 90.00
    assert_eq!(c.population, 9_000);
    assert_eq!(c.happiness, 9_000);
    assert_eq!(
        msg,
        "Disease Outbreak - A disease outbreak has reduced the population and happiness."
    );
}

#[test]
fn technological_breakthrough_grants_tech_points() {
    let mut c = Colony::new();
    let msg = c.apply_event(ColonyEvent::TechnologicalBreakthrough);
    assert_eq!(c.tech_points, 5_000);
    assert_eq!(
        msg,
        "Technological Breakthrough - A technological breakthrough has yielded additional tech points!"
    );
}

#[test]
fn alien_artifact_grants_points_and_morale() {
    let mut c = Colony::new();
    let msg = c.apply_event(ColonyEvent::AlienArtifact);
    assert_eq!(c.tech_points, 10_000);
    // events do not clamp happiness to 100%; the next tick does
    assert_eq!(c.happiness, 10_500);
    assert_eq!(
        msg,
        "Alien Artifact Discovered - An alien artifact has been discovered, boosting research and morale!"
    );
    c.tick();
    assert!(c.happiness <= 10_000);
}

#[test]
fn water_source_adds_water() {
    let mut c = Colony::new();
    let msg = c.apply_event(ColonyEvent::WaterSourceFound);
    assert_eq!(c.resources[3].amount, 100_000);
    assert_eq!(
        msg,
        "Water Source Found - A new water source has been discovered!"
    );
}

#[test]
fn volunteer_program_boosts_happiness_and_population() {
    let mut c = Colony::new();
    let msg = c.apply_event(ColonyEvent::VolunteerProgram);
    assert_eq!(c.happiness, 11_500);
    // population 100.00 * 1.05 = 105.00
    assert_eq!(c.population, 10_500);
    assert_eq!(
        msg,
        "Volunteer Program - A successful volunteer program has boosted happiness and attracted new colonists!"
    );
}

#[test]
fn roll_selects_events_in_catalog_order() {
    assert_eq!(event_for_roll(0), ColonyEvent::SolarFlare);
    assert_eq!(event_for_roll(1), ColonyEvent::MeteorStrike);
    assert_eq!(event_for_roll(2), ColonyEvent::DiseaseOutbreak);
    assert_eq!(event_for_roll(3), ColonyEvent::TechnologicalBreakthrough);
    assert_eq!(event_for_roll(4), ColonyEvent::AlienArtifact);
    assert_eq!(event_for_roll(5), ColonyEvent::WaterSourceFound);
    assert_eq!(event_for_roll(6), ColonyEvent::VolunteerProgram);
    // a larger draw wraps around the catalog
    assert_eq!(event_for_roll(7), ColonyEvent::SolarFlare);
    assert_eq!(event_for_roll(13), ColonyEvent::VolunteerProgram);
}

#[test]
fn additions_saturate_at_the_cap() {
    let mut c = Colony::new();
    c.resources[2].amount = colony_sim::types::MAX_CENTI;
    c.apply_event(ColonyEvent::MeteorStrike);
    assert_eq!(c.resources[2].amount, colony_sim::types::MAX_CENTI);
    c.set_tech_points(colony_sim::types::MAX_CENTI);
    c.apply_event(ColonyEvent::TechnologicalBreakthrough);
    assert_eq!(c.tech_points, colony_sim::types::MAX_CENTI);
}
