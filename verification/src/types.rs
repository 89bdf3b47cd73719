//! Core data types of the colony engine.
//!
//! Every quantity (resource stock, rate, cost, population, happiness,
//! tech points) is a fixed-point number stored in hundredths of a unit,
//! so `150` means `1.50` units. Stocks and rates are capped at
//! [`MAX_CENTI`]; arithmetic that would pass the cap saturates there.

use vstd::prelude::*;

verus! {

/// Number of fixed-point steps per whole unit (two decimal places).
pub const CENTI: u64 = 100;

/// Upper cap for every stock, rate, cost, population and tech-point value,
/// in hundredths. Updates saturate here instead of overflowing.
pub const MAX_CENTI: u64 = 1_000_000_000_000;

/// Happiness is a percentage in `[0, 100]`, stored in hundredths.
pub const HAPPINESS_CAP: i64 = 10_000;

/// Largest accepted research multiplier / growth fraction, in hundredths
/// (a factor of at most 10000x).
pub const FACTOR_CAP: u64 = 1_000_000;

/// Number of entries in the fixed world-event catalog.
pub const EVENT_COUNT: u64 = 7;

/// A named stock with linear production and consumption rates,
/// all in hundredths.
pub struct Resource {
    pub name: String,
    pub amount: u64,
    pub production_rate: u64,
    pub consumption_rate: u64,
}

/// One per-resource entry of a building table: a rate delta or a cost,
/// in hundredths, keyed by resource name.
pub struct Delta {
    pub resource: String,
    pub amount: u64,
}

/// A constructible structure contributing per-unit rate deltas to the
/// resources it names.
pub struct Building {
    pub name: String,
    pub resource_production: Vec<Delta>,
    pub resource_consumption: Vec<Delta>,
    pub construction_cost: Vec<Delta>,
    pub construction_time: u64,
    pub quantity: u32,
}

/// One effect of a completed research item.
pub enum ResearchEffect {
    /// Multiply a resource's production rate by a factor in hundredths.
    ResourceProductionBoost(String, u64),
    /// Add a building to the registry (replacing one of the same name).
    NewBuilding(Building),
    /// One-time population increase by a fraction in hundredths.
    PopulationGrowthBoost(u64),
    /// Raise happiness by an amount in hundredths, capped at 100%.
    HappinessBoost(u64),
}

/// A one-shot unlockable upgrade gated by tech points.
pub struct Research {
    pub name: String,
    pub description: String,
    pub cost: u64,
    pub completed: bool,
    pub effects: Vec<ResearchEffect>,
}

/// A randomized world event. Selection is the caller's business (it
/// injects its source of randomness); application is engine logic.
#[derive(Clone, Copy, Debug, PartialEq, Eq)]
pub enum ColonyEvent {
    SolarFlare,
    MeteorStrike,
    DiseaseOutbreak,
    TechnologicalBreakthrough,
    AlienArtifact,
    WaterSourceFound,
    VolunteerProgram,
}

/// Why a `build` or `research` call was rejected.
#[derive(Debug, Clone, PartialEq, Eq)]
pub enum ColonyError {
    /// The named building or research item is not in its registry.
    NotFound,
    /// A construction cost exceeds the named resource's stock.
    InsufficientResource(String),
    /// The research item was already completed.
    AlreadyCompleted,
    /// The research cost exceeds the accumulated tech points.
    InsufficientTechPoints,
}

} // verus!
