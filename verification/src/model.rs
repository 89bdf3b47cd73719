//! Ghost model of the colony and the mathematical transition functions.
//!
//! Every mutating operation of [`crate::colony::Colony`] is specified as a
//! pure function on [`ColonyV`], the ghost view of the colony state. The
//! executable code is proved to compute exactly these functions.

use vstd::prelude::*;
use crate::types::{Resource, Delta, Building, ResearchEffect, Research, ColonyError, ColonyEvent,
    MAX_CENTI, HAPPINESS_CAP, FACTOR_CAP, EVENT_COUNT};

verus! {

/// Ghost view of a building: its delta tables as sequences.
pub struct BuildingV {
    pub name: String,
    pub resource_production: Seq<Delta>,
    pub resource_consumption: Seq<Delta>,
    pub construction_cost: Seq<Delta>,
    pub construction_time: u64,
    pub quantity: u32,
}

impl View for Building {
    type V = BuildingV;

    open spec fn view(&self) -> BuildingV {
        BuildingV {
            name: self.name,
            resource_production: self.resource_production@,
            resource_consumption: self.resource_consumption@,
            construction_cost: self.construction_cost@,
            construction_time: self.construction_time,
            quantity: self.quantity,
        }
    }
}

/// Ghost view of one research effect.
pub enum EffectV {
    ResourceProductionBoost(String, u64),
    NewBuilding(BuildingV),
    PopulationGrowthBoost(u64),
    HappinessBoost(u64),
}

impl View for ResearchEffect {
    type V = EffectV;

    open spec fn view(&self) -> EffectV {
        match self {
            ResearchEffect::ResourceProductionBoost(n, f) => EffectV::ResourceProductionBoost(
                *n,
                *f,
            ),
            ResearchEffect::NewBuilding(b) => EffectV::NewBuilding(b@),
            ResearchEffect::PopulationGrowthBoost(f) => EffectV::PopulationGrowthBoost(*f),
            ResearchEffect::HappinessBoost(a) => EffectV::HappinessBoost(*a),
        }
    }
}

/// Ghost view of a research item.
pub struct ResearchV {
    pub name: String,
    pub description: String,
    pub cost: u64,
    pub completed: bool,
    pub effects: Seq<EffectV>,
}

impl View for Research {
    type V = ResearchV;

    open spec fn view(&self) -> ResearchV {
        ResearchV {
            name: self.name,
            description: self.description,
            cost: self.cost,
            completed: self.completed,
            effects: self.effects@.map_values(|e: ResearchEffect| e@),
        }
    }
}

/// Ghost view of the whole colony state.
#[verifier::ext_equal]
pub struct ColonyV {
    pub resources: Seq<Resource>,
    pub buildings: Seq<BuildingV>,
    pub research: Seq<ResearchV>,
    pub population: int,
    pub happiness: int,
    pub tech_points: int,
    pub day: int,
    pub events: Seq<String>,
}

/// Ghost form of [`ColonyError`]: error payloads as character sequences.
pub enum ErrV {
    NotFound,
    InsufficientResource(Seq<char>),
    AlreadyCompleted,
    InsufficientTechPoints,
}

/// The building registry as a sequence of ghost views.
pub open spec fn building_views(bs: Seq<Building>) -> Seq<BuildingV> {
    bs.map_values(|b: Building| b@)
}

/// The research tree as a sequence of ghost views.
pub open spec fn research_views(items: Seq<Research>) -> Seq<ResearchV> {
    items.map_values(|r: Research| r@)
}

// ---------------------------------------------------------------------------
// small arithmetic helpers
// ---------------------------------------------------------------------------

pub open spec fn min_i(a: int, b: int) -> int {
    if a < b {
        a
    } else {
        b
    }
}

/// Clamp a stock or rate into `[0, MAX_CENTI]`.
pub open spec fn cap_stock(x: int) -> int {
    if x < 0 {
        0
    } else if x > MAX_CENTI {
        MAX_CENTI as int
    } else {
        x
    }
}

/// Saturate a non-negative quantity at `MAX_CENTI`.
pub open spec fn cap_high(x: int) -> int {
    if x > MAX_CENTI {
        MAX_CENTI as int
    } else {
        x
    }
}

/// Clamp raw happiness into `[-MAX_CENTI, MAX_CENTI]` (used by events,
/// which may push happiness outside the percentage range).
pub open spec fn cap_happy(x: int) -> int {
    if x > MAX_CENTI {
        MAX_CENTI as int
    } else if x < -(MAX_CENTI as int) {
        -(MAX_CENTI as int)
    } else {
        x
    }
}

/// Clamp happiness into the percentage range `[0, HAPPINESS_CAP]`.
pub open spec fn clamp_happy(x: int) -> int {
    if x < 0 {
        0
    } else if x > HAPPINESS_CAP {
        HAPPINESS_CAP as int
    } else {
        x
    }
}

// ---------------------------------------------------------------------------
// lookup by name (first match, as in the executable code)
// ---------------------------------------------------------------------------

/// Index of the first resource named `name`, or `-1`.
pub open spec fn res_idx(rs: Seq<Resource>, name: Seq<char>) -> int
    decreases rs.len(),
{
    if rs.len() == 0 {
        -1
    } else if rs[0].name@ == name {
        0
    } else {
        let j = res_idx(rs.skip(1), name);
        if j < 0 {
            -1
        } else {
            1 + j
        }
    }
}

/// Index of the first building named `name`, or `-1`.
pub open spec fn bldg_idx(bs: Seq<BuildingV>, name: Seq<char>) -> int
    decreases bs.len(),
{
    if bs.len() == 0 {
        -1
    } else if bs[0].name@ == name {
        0
    } else {
        let j = bldg_idx(bs.skip(1), name);
        if j < 0 {
            -1
        } else {
            1 + j
        }
    }
}

/// Index of the first research item named `name`, or `-1`.
pub open spec fn research_idx(items: Seq<ResearchV>, name: Seq<char>) -> int
    decreases items.len(),
{
    if items.len() == 0 {
        -1
    } else if items[0].name@ == name {
        0
    } else {
        let j = research_idx(items.skip(1), name);
        if j < 0 {
            -1
        } else {
            1 + j
        }
    }
}

pub proof fn lemma_res_idx(rs: Seq<Resource>, name: Seq<char>)
    ensures
        res_idx(rs, name) >= 0 ==> res_idx(rs, name) < rs.len() && rs[res_idx(rs, name)].name@
            == name && (forall|k: int| 0 <= k < res_idx(rs, name) ==> rs[k].name@ != name),
        res_idx(rs, name) < 0 ==> (forall|k: int| 0 <= k < rs.len() ==> rs[k].name@ != name),
    decreases rs.len(),
{
    if rs.len() > 0 && rs[0].name@ != name {
        lemma_res_idx(rs.skip(1), name);
        let j: int = res_idx(rs.skip(1), name);
        if j >= 0 {
            assert(rs.skip(1)[j] == rs[j + 1]);
            assert forall|k: int| 0 <= k < 1 + j implies rs[k].name@ != name by {
                if k >= 1 {
                    assert(rs.skip(1)[k - 1] == rs[k]);
                }
            };
        } else {
            assert forall|k: int| 0 <= k < rs.len() implies rs[k].name@ != name by {
                if k >= 1 {
                    assert(rs.skip(1)[k - 1] == rs[k]);
                }
            };
        }
    }
}

/// If `rs[i]` is the first slot named `name`, then `res_idx` finds it.
pub proof fn lemma_res_idx_of_match(rs: Seq<Resource>, name: Seq<char>, i: int)
    requires
        0 <= i < rs.len(),
        rs[i].name@ == name,
        forall|k: int| 0 <= k < i ==> rs[k].name@ != name,
    ensures
        res_idx(rs, name) == i,
{
    lemma_res_idx(rs, name);
}

/// In a ledger with unique names, every slot other than the one found
/// by `res_idx` carries a different name.
pub proof fn lemma_other_slots_differ(rs: Seq<Resource>, name: Seq<char>, j: int)
    requires
        forall|a: int, b: int| 0 <= a < b < rs.len() ==> rs[a].name@ != rs[b].name@,
        0 <= j < rs.len(),
        res_idx(rs, name) != j,
    ensures
        rs[j].name@ != name,
{
    lemma_res_idx(rs, name);
    let i: int = res_idx(rs, name);
    if i >= 0 {
        if j < i {
            assert(rs[j].name@ != rs[i].name@);
        } else {
            assert(rs[i].name@ != rs[j].name@);
        }
    }
}

pub proof fn lemma_bldg_idx(bs: Seq<BuildingV>, name: Seq<char>)
    ensures
        bldg_idx(bs, name) >= 0 ==> bldg_idx(bs, name) < bs.len() && bs[bldg_idx(bs, name)].name@
            == name && (forall|k: int| 0 <= k < bldg_idx(bs, name) ==> bs[k].name@ != name),
        bldg_idx(bs, name) < 0 ==> (forall|k: int| 0 <= k < bs.len() ==> bs[k].name@ != name),
    decreases bs.len(),
{
    if bs.len() > 0 && bs[0].name@ != name {
        lemma_bldg_idx(bs.skip(1), name);
        let j: int = bldg_idx(bs.skip(1), name);
        if j >= 0 {
            assert(bs.skip(1)[j] == bs[j + 1]);
            assert forall|k: int| 0 <= k < 1 + j implies bs[k].name@ != name by {
                if k >= 1 {
                    assert(bs.skip(1)[k - 1] == bs[k]);
                }
            };
        } else {
            assert forall|k: int| 0 <= k < bs.len() implies bs[k].name@ != name by {
                if k >= 1 {
                    assert(bs.skip(1)[k - 1] == bs[k]);
                }
            };
        }
    }
}

pub proof fn lemma_bldg_idx_of_match(bs: Seq<BuildingV>, name: Seq<char>, i: int)
    requires
        0 <= i < bs.len(),
        bs[i].name@ == name,
        forall|k: int| 0 <= k < i ==> bs[k].name@ != name,
    ensures
        bldg_idx(bs, name) == i,
{
    lemma_bldg_idx(bs, name);
}

pub proof fn lemma_research_idx(items: Seq<ResearchV>, name: Seq<char>)
    ensures
        research_idx(items, name) >= 0 ==> research_idx(items, name) < items.len()
            && items[research_idx(items, name)].name@ == name && (forall|k: int|
            0 <= k < research_idx(items, name) ==> items[k].name@ != name),
        research_idx(items, name) < 0 ==> (forall|k: int|
            0 <= k < items.len() ==> items[k].name@ != name),
    decreases items.len(),
{
    if items.len() > 0 && items[0].name@ != name {
        lemma_research_idx(items.skip(1), name);
        let j: int = research_idx(items.skip(1), name);
        if j >= 0 {
            assert(items.skip(1)[j] == items[j + 1]);
            assert forall|k: int| 0 <= k < 1 + j implies items[k].name@ != name by {
                if k >= 1 {
                    assert(items.skip(1)[k - 1] == items[k]);
                }
            };
        } else {
            assert forall|k: int| 0 <= k < items.len() implies items[k].name@ != name by {
                if k >= 1 {
                    assert(items.skip(1)[k - 1] == items[k]);
                }
            };
        }
    }
}

pub proof fn lemma_research_idx_of_match(items: Seq<ResearchV>, name: Seq<char>, i: int)
    requires
        0 <= i < items.len(),
        items[i].name@ == name,
        forall|k: int| 0 <= k < i ==> items[k].name@ != name,
    ensures
        research_idx(items, name) == i,
{
    lemma_research_idx(items, name);
}

/// `res_idx` depends only on the names.
pub proof fn lemma_res_idx_same_names(rs1: Seq<Resource>, rs2: Seq<Resource>, name: Seq<char>)
    requires
        rs1.len() == rs2.len(),
        forall|k: int| 0 <= k < rs1.len() ==> rs1[k].name@ == rs2[k].name@,
    ensures
        res_idx(rs1, name) == res_idx(rs2, name),
    decreases rs1.len(),
{
    if rs1.len() > 0 {
        assert(rs1[0].name@ == rs2[0].name@);
        if rs1[0].name@ != name {
            assert forall|k: int|
                0 <= k < rs1.skip(1).len() implies rs1.skip(1)[k].name@ == rs2.skip(1)[k].name@ by {
                assert(rs1.skip(1)[k] == rs1[k + 1]);
                assert(rs2.skip(1)[k] == rs2[k + 1]);
            };
            lemma_res_idx_same_names(rs1.skip(1), rs2.skip(1), name);
        }
    }
}

/// `research_idx` depends only on the names.
pub proof fn lemma_research_idx_same_names(
    items1: Seq<ResearchV>,
    items2: Seq<ResearchV>,
    name: Seq<char>,
)
    requires
        items1.len() == items2.len(),
        forall|k: int| 0 <= k < items1.len() ==> items1[k].name@ == items2[k].name@,
    ensures
        research_idx(items1, name) == research_idx(items2, name),
    decreases items1.len(),
{
    if items1.len() > 0 {
        assert(items1[0].name@ == items2[0].name@);
        if items1[0].name@ != name {
            assert forall|k: int|
                0 <= k < items1.skip(1).len() implies items1.skip(1)[k].name@ == items2.skip(
                1,
            )[k].name@ by {
                assert(items1.skip(1)[k] == items1[k + 1]);
                assert(items2.skip(1)[k] == items2[k + 1]);
            };
            lemma_research_idx_same_names(items1.skip(1), items2.skip(1), name);
        }
    }
}

// ---------------------------------------------------------------------------
// sums over delta tables
// ---------------------------------------------------------------------------

/// Total delta that the table `ds` assigns to the resource named `name`.
pub open spec fn delta_sum(ds: Seq<Delta>, name: Seq<char>) -> int
    decreases ds.len(),
{
    if ds.len() == 0 {
        0
    } else {
        (if ds[0].resource@ == name {
            ds[0].amount as int
        } else {
            0
        }) + delta_sum(ds.skip(1), name)
    }
}

pub proof fn lemma_delta_sum_nonneg(ds: Seq<Delta>, name: Seq<char>)
    ensures
        delta_sum(ds, name) >= 0,
    decreases ds.len(),
{
    if ds.len() > 0 {
        lemma_delta_sum_nonneg(ds.skip(1), name);
    }
}

/// One step of a left-to-right fold over the table.
pub proof fn lemma_delta_sum_step(ds: Seq<Delta>, name: Seq<char>, i: int)
    requires
        0 <= i < ds.len(),
    ensures
        delta_sum(ds.take(i + 1), name) == delta_sum(ds.take(i), name) + (if ds[i].resource@
            == name {
            ds[i].amount as int
        } else {
            0
        }),
    decreases i,
{
    if i == 0 {
        assert(ds.take(0) =~= Seq::<Delta>::empty());
        assert(ds.take(1).skip(1) =~= Seq::<Delta>::empty());
        assert(ds.take(1)[0] == ds[0]);
    } else {
        lemma_delta_sum_step(ds.skip(1), name, i - 1);
        assert(ds.take(i + 1).skip(1) =~= ds.skip(1).take(i));
        assert(ds.take(i).skip(1) =~= ds.skip(1).take(i - 1));
        assert(ds.take(i + 1)[0] == ds[0]);
        assert(ds.take(i)[0] == ds[0]);
        assert(ds.skip(1)[i - 1] == ds[i]);
    }
}

/// In a table with pairwise-distinct resource names, the total delta
/// for a named resource is exactly its single entry's amount.
pub proof fn lemma_delta_sum_unique_at(ds: Seq<Delta>, name: Seq<char>, k: int)
    requires
        forall|a: int, b: int| 0 <= a < b < ds.len() ==> ds[a].resource@ != ds[b].resource@,
        0 <= k < ds.len(),
        ds[k].resource@ == name,
    ensures
        delta_sum(ds, name) == ds[k].amount,
    decreases ds.len(),
{
    if k == 0 {
        assert forall|j: int|
            0 <= j < ds.skip(1).len() implies ds.skip(1)[j].resource@ != name by {
            assert(ds.skip(1)[j] == ds[j + 1]);
            assert(ds[0].resource@ != ds[j + 1].resource@);
        };
        lemma_delta_sum_absent(ds.skip(1), name);
    } else {
        assert(ds[0].resource@ != ds[k].resource@);
        assert forall|a: int, b: int|
            0 <= a < b < ds.skip(1).len() implies ds.skip(1)[a].resource@ != ds.skip(
            1,
        )[b].resource@ by {
            assert(ds.skip(1)[a] == ds[a + 1]);
            assert(ds.skip(1)[b] == ds[b + 1]);
        };
        assert(ds.skip(1)[k - 1] == ds[k]);
        lemma_delta_sum_unique_at(ds.skip(1), name, k - 1);
    }
}

/// A table whose entries never name `name` contributes nothing to it.
pub proof fn lemma_delta_sum_absent(ds: Seq<Delta>, name: Seq<char>)
    requires
        forall|k: int| 0 <= k < ds.len() ==> ds[k].resource@ != name,
    ensures
        delta_sum(ds, name) == 0,
    decreases ds.len(),
{
    if ds.len() > 0 {
        assert(forall|k: int| 0 <= k < ds.skip(1).len() ==> ds.skip(1)[k] == ds[k + 1]);
        lemma_delta_sum_absent(ds.skip(1), name);
    }
}

// ---------------------------------------------------------------------------
// well-formedness
// ---------------------------------------------------------------------------

pub open spec fn resource_ok(r: Resource) -> bool {
    r.amount <= MAX_CENTI && r.production_rate <= MAX_CENTI && r.consumption_rate <= MAX_CENTI
}

pub open spec fn deltas_ok(ds: Seq<Delta>) -> bool {
    (forall|k: int| 0 <= k < ds.len() ==> ds[k].amount <= MAX_CENTI) && (forall|j: int, k: int|
        0 <= j < k < ds.len() ==> ds[j].resource@ != ds[k].resource@)
}

pub open spec fn building_ok(b: BuildingV) -> bool {
    deltas_ok(b.resource_production) && deltas_ok(b.resource_consumption) && deltas_ok(
        b.construction_cost,
    )
}

pub open spec fn effect_ok(e: EffectV) -> bool {
    match e {
        EffectV::ResourceProductionBoost(_, f) => f <= FACTOR_CAP,
        EffectV::NewBuilding(b) => building_ok(b),
        EffectV::PopulationGrowthBoost(f) => f <= FACTOR_CAP,
        EffectV::HappinessBoost(a) => a <= MAX_CENTI,
    }
}

pub open spec fn research_ok(r: ResearchV) -> bool {
    r.cost <= MAX_CENTI && (forall|k: int| 0 <= k < r.effects.len() ==> effect_ok(r.effects[k]))
}

/// The colony invariant: every quantity within its bounds, ledger keys
/// unique, registry keys unique, and the four base resources present.
pub open spec fn wf(v: ColonyV) -> bool {
    &&& forall|j: int, k: int|
        0 <= j < k < v.resources.len() ==> v.resources[j].name@ != v.resources[k].name@
    &&& forall|k: int| 0 <= k < v.resources.len() ==> resource_ok(v.resources[k])
    &&& res_idx(v.resources, "Food"@) >= 0
    &&& res_idx(v.resources, "Water"@) >= 0
    &&& res_idx(v.resources, "Energy"@) >= 0
    &&& res_idx(v.resources, "Minerals"@) >= 0
    &&& forall|j: int, k: int|
        0 <= j < k < v.buildings.len() ==> v.buildings[j].name@ != v.buildings[k].name@
    &&& forall|k: int| 0 <= k < v.buildings.len() ==> building_ok(v.buildings[k])
    &&& forall|k: int| 0 <= k < v.research.len() ==> research_ok(v.research[k])
    &&& 0 <= v.population <= MAX_CENTI
    &&& -(MAX_CENTI as int) <= v.happiness <= MAX_CENTI
    &&& 0 <= v.tech_points <= MAX_CENTI
    &&& 0 <= v.day <= u32::MAX
}

// ---------------------------------------------------------------------------
// tick
// ---------------------------------------------------------------------------

/// Phase one of a tick: apply the linear rates and clamp into range.
pub open spec fn res_after_rates(r: Resource) -> Resource {
    Resource {
        name: r.name,
        amount: cap_stock(r.amount + r.production_rate - r.consumption_rate) as u64,
        production_rate: r.production_rate,
        consumption_rate: r.consumption_rate,
    }
}

/// Subtract an already-consumed amount from a stock (never below zero by
/// construction of the callers).
pub open spec fn res_minus(r: Resource, c: int) -> Resource {
    Resource {
        name: r.name,
        amount: (r.amount - c) as u64,
        production_rate: r.production_rate,
        consumption_rate: r.consumption_rate,
    }
}

/// One simulation step, in the exact order of the engine: rates, rations,
/// population growth, happiness drift, tech-point accrual, day counter.
pub open spec fn spec_tick(v: ColonyV) -> ColonyV {
    let rs1 = v.resources.map_values(|r: Resource| res_after_rates(r));
    let fi = res_idx(v.resources, "Food"@);
    let wi = res_idx(v.resources, "Water"@);
    let p = v.population;
    let food_consumed = min_i(p, rs1[fi].amount as int);
    let water_consumed = min_i(p, rs1[wi].amount as int);
    let rs2 = rs1.update(fi, res_minus(rs1[fi], food_consumed)).update(
        wi,
        res_minus(rs1[wi], water_consumed),
    );
    let full = food_consumed >= p && water_consumed >= p;
    let p1 = if full {
        min_i(p + p / 100, MAX_CENTI as int)
    } else {
        p - p / 100
    };
    let denom = if p1 < 100 {
        100
    } else {
        p1
    };
    let food_ratio = food_consumed * 100 / denom;
    let water_ratio = water_consumed * 100 / denom;
    let h1 = clamp_happy(v.happiness + (food_ratio + water_ratio - 100) * 5);
    let t1 = min_i(v.tech_points + p1 * h1 / 100_000, MAX_CENTI as int);
    let d1 = if v.day < u32::MAX {
        v.day + 1
    } else {
        v.day
    };
    ColonyV {
        resources: rs2,
        buildings: v.buildings,
        research: v.research,
        population: p1,
        happiness: h1,
        tech_points: t1,
        day: d1,
        events: v.events,
    }
}

// ---------------------------------------------------------------------------
// build
// ---------------------------------------------------------------------------

/// Whether the ledger can pay one cost entry: the named resource's stock
/// covers it, or the entry costs nothing and its resource is absent
/// (a missing resource counts as a stock of zero).
pub open spec fn cost_satisfied(rs: Seq<Resource>, d: Delta) -> bool {
    let i = res_idx(rs, d.resource@);
    if i >= 0 {
        rs[i].amount >= d.amount
    } else {
        d.amount == 0
    }
}

/// Index of the first cost entry the ledger cannot pay, or `-1`.
pub open spec fn first_unmet(rs: Seq<Resource>, ds: Seq<Delta>) -> int
    decreases ds.len(),
{
    if ds.len() == 0 {
        -1
    } else if !cost_satisfied(rs, ds[0]) {
        0
    } else {
        let j = first_unmet(rs, ds.skip(1));
        if j < 0 {
            -1
        } else {
            1 + j
        }
    }
}

pub proof fn lemma_first_unmet(rs: Seq<Resource>, ds: Seq<Delta>)
    ensures
        first_unmet(rs, ds) >= 0 ==> first_unmet(rs, ds) < ds.len() && !cost_satisfied(
            rs,
            ds[first_unmet(rs, ds)],
        ) && (forall|k: int| 0 <= k < first_unmet(rs, ds) ==> cost_satisfied(rs, ds[k])),
        first_unmet(rs, ds) < 0 ==> (forall|k: int|
            0 <= k < ds.len() ==> cost_satisfied(rs, ds[k])),
    decreases ds.len(),
{
    if ds.len() > 0 && cost_satisfied(rs, ds[0]) {
        lemma_first_unmet(rs, ds.skip(1));
        let j: int = first_unmet(rs, ds.skip(1));
        if j >= 0 {
            assert(ds.skip(1)[j] == ds[j + 1]);
            assert forall|k: int| 0 <= k < 1 + j implies cost_satisfied(rs, ds[k]) by {
                if k >= 1 {
                    assert(ds.skip(1)[k - 1] == ds[k]);
                }
            };
        } else {
            assert forall|k: int| 0 <= k < ds.len() implies cost_satisfied(rs, ds[k]) by {
                if k >= 1 {
                    assert(ds.skip(1)[k - 1] == ds[k]);
                }
            };
        }
    }
}

/// The ledger after a successful build: every cost paid, every per-unit
/// rate delta added (rates saturate at the cap).
pub open spec fn built_resource(r: Resource, b: BuildingV) -> Resource {
    Resource {
        name: r.name,
        amount: (r.amount - delta_sum(b.construction_cost, r.name@)) as u64,
        production_rate: cap_high(
            r.production_rate + delta_sum(b.resource_production, r.name@),
        ) as u64,
        consumption_rate: cap_high(
            r.consumption_rate + delta_sum(b.resource_consumption, r.name@),
        ) as u64,
    }
}

pub open spec fn bump_quantity(b: BuildingV) -> BuildingV {
    BuildingV {
        quantity: if b.quantity < u32::MAX {
            (b.quantity + 1) as u32
        } else {
            b.quantity
        },
        ..b
    }
}

/// The build operation: validate every cost against the current stocks,
/// then atomically pay the costs, bump the quantity and add the rates.
pub open spec fn spec_build(v: ColonyV, name: Seq<char>) -> (ColonyV, Option<ErrV>) {
    let bi = bldg_idx(v.buildings, name);
    if bi < 0 {
        (v, Some(ErrV::NotFound))
    } else {
        let b = v.buildings[bi];
        let k = first_unmet(v.resources, b.construction_cost);
        if k >= 0 {
            (v, Some(ErrV::InsufficientResource(b.construction_cost[k].resource@)))
        } else {
            (
                ColonyV {
                    resources: v.resources.map_values(|r: Resource| built_resource(r, b)),
                    buildings: v.buildings.update(bi, bump_quantity(b)),
                    ..v
                },
                None,
            )
        }
    }
}

// ---------------------------------------------------------------------------
// research
// ---------------------------------------------------------------------------

/// One research effect applied to the colony state.
pub open spec fn apply_effect(v: ColonyV, e: EffectV) -> ColonyV {
    match e {
        EffectV::ResourceProductionBoost(n, f) => {
            let i = res_idx(v.resources, n@);
            if i >= 0 {
                ColonyV {
                    resources: v.resources.update(
                        i,
                        Resource {
                            production_rate: cap_high(
                                v.resources[i].production_rate * f / 100,
                            ) as u64,
                            ..v.resources[i]
                        },
                    ),
                    ..v
                }
            } else {
                v
            }
        },
        EffectV::NewBuilding(b) => {
            let i = bldg_idx(v.buildings, b.name@);
            ColonyV {
                buildings: if i >= 0 {
                    v.buildings.update(i, b)
                } else {
                    v.buildings.push(b)
                },
                ..v
            }
        },
        EffectV::PopulationGrowthBoost(f) => ColonyV {
            population: cap_high(v.population * (100 + f) / 100),
            ..v
        },
        EffectV::HappinessBoost(a) => ColonyV {
            happiness: min_i(v.happiness + a, HAPPINESS_CAP as int),
            ..v
        },
    }
}

/// All effects of an item, applied left to right.
pub open spec fn apply_effects(v: ColonyV, es: Seq<EffectV>) -> ColonyV
    decreases es.len(),
{
    if es.len() == 0 {
        v
    } else {
        apply_effects(apply_effect(v, es[0]), es.skip(1))
    }
}

pub proof fn lemma_apply_effects_step(v: ColonyV, es: Seq<EffectV>, i: int)
    requires
        0 <= i < es.len(),
    ensures
        apply_effects(v, es.take(i + 1)) == apply_effect(apply_effects(v, es.take(i)), es[i]),
    decreases i,
{
    if i == 0 {
        assert(es.take(0) =~= Seq::<EffectV>::empty());
        assert(es.take(1).skip(1) =~= Seq::<EffectV>::empty());
        assert(es.take(1)[0] == es[0]);
        assert(apply_effects(v, es.take(0)) == v);
        assert(apply_effects(apply_effect(v, es[0]), es.take(1).skip(1)) == apply_effect(
            v,
            es[0],
        ));
        assert(apply_effects(v, es.take(1)) == apply_effects(
            apply_effect(v, es[0]),
            es.take(1).skip(1),
        ));
    } else {
        let v1 = apply_effect(v, es[0]);
        lemma_apply_effects_step(v1, es.skip(1), i - 1);
        assert(es.take(i + 1).skip(1) =~= es.skip(1).take(i));
        assert(es.take(i).skip(1) =~= es.skip(1).take(i - 1));
        assert(es.take(i + 1)[0] == es[0]);
        assert(es.take(i)[0] == es[0]);
        assert(es.skip(1)[i - 1] == es[i]);
        assert(apply_effects(v, es.take(i + 1)) == apply_effects(v1, es.skip(1).take(i)));
        assert(apply_effects(v, es.take(i)) == apply_effects(v1, es.skip(1).take(i - 1)));
    }
}

/// Effects never touch the research list, the day counter or the log.
pub proof fn lemma_apply_effects_frame(v: ColonyV, es: Seq<EffectV>)
    ensures
        apply_effects(v, es).research == v.research,
        apply_effects(v, es).tech_points == v.tech_points,
        apply_effects(v, es).day == v.day,
        apply_effects(v, es).events == v.events,
    decreases es.len(),
{
    if es.len() > 0 {
        lemma_apply_effects_frame(apply_effect(v, es[0]), es.skip(1));
    }
}

/// One well-formed effect applied to a well-formed colony leaves it
/// well-formed.
pub proof fn lemma_effect_preserves_wf(v: ColonyV, e: EffectV)
    requires
        wf(v),
        effect_ok(e),
    ensures
        wf(apply_effect(v, e)),
{
    match e {
        EffectV::ResourceProductionBoost(n, f) => {
            let i: int = res_idx(v.resources, n@);
            if i >= 0 {
                lemma_res_idx(v.resources, n@);
                let r0: int = v.resources[i].production_rate as int;
                assert(r0 * f >= 0) by (nonlinear_arith)
                    requires
                        r0 >= 0,
                        f >= 0,
                ;
                let rs2 = apply_effect(v, e).resources;
                assert forall|k: int|
                    0 <= k < rs2.len() implies rs2[k].name@ == v.resources[k].name@ by {}
                lemma_res_idx_same_names(rs2, v.resources, "Food"@);
                lemma_res_idx_same_names(rs2, v.resources, "Water"@);
                lemma_res_idx_same_names(rs2, v.resources, "Energy"@);
                lemma_res_idx_same_names(rs2, v.resources, "Minerals"@);
            }
        },
        EffectV::NewBuilding(b) => {
            lemma_bldg_idx(v.buildings, b.name@);
        },
        EffectV::PopulationGrowthBoost(f) => {
            assert(v.population * (100 + f) >= 0) by (nonlinear_arith)
                requires
                    v.population >= 0,
                    f >= 0,
            ;
        },
        EffectV::HappinessBoost(_) => {},
    }
}

/// Research effects keep happiness inside the percentage range: a
/// `HappinessBoost` only raises it and clamps at the cap, and no other
/// effect touches it.
pub proof fn lemma_effects_keep_happiness(v: ColonyV, es: Seq<EffectV>)
    requires
        0 <= v.happiness <= HAPPINESS_CAP,
    ensures
        0 <= apply_effects(v, es).happiness <= HAPPINESS_CAP,
    decreases es.len(),
{
    if es.len() > 0 {
        lemma_effects_keep_happiness(apply_effect(v, es[0]), es.skip(1));
    }
}

pub open spec fn mark_completed(r: ResearchV) -> ResearchV {
    ResearchV { completed: true, ..r }
}

/// The research operation: find the item, reject a completed one or an
/// unaffordable one, otherwise pay, mark completed and apply the effects.
pub open spec fn spec_research(v: ColonyV, name: Seq<char>) -> (ColonyV, Option<ErrV>) {
    let ri = research_idx(v.research, name);
    if ri < 0 {
        (v, Some(ErrV::NotFound))
    } else {
        let item = v.research[ri];
        if item.completed {
            (v, Some(ErrV::AlreadyCompleted))
        } else if v.tech_points < item.cost {
            (v, Some(ErrV::InsufficientTechPoints))
        } else {
            let paid = ColonyV {
                tech_points: v.tech_points - item.cost,
                research: v.research.update(ri, mark_completed(item)),
                ..v
            };
            (apply_effects(paid, item.effects), None)
        }
    }
}

/// How the executable result corresponds to the ghost outcome.
pub open spec fn err_matches(r: Result<(), ColonyError>, e: Option<ErrV>) -> bool {
    match r {
        Ok(()) => e is None,
        Err(ColonyError::NotFound) => e == Some(ErrV::NotFound),
        Err(ColonyError::InsufficientResource(s)) => (e matches Some(
            ErrV::InsufficientResource(n),
        ) && s@ == n),
        Err(ColonyError::AlreadyCompleted) => e == Some(ErrV::AlreadyCompleted),
        Err(ColonyError::InsufficientTechPoints) => e == Some(ErrV::InsufficientTechPoints),
    }
}

// ---------------------------------------------------------------------------
// events
// ---------------------------------------------------------------------------

/// A resource's stock scaled by a factor in hundredths, saturating.
pub open spec fn res_scaled(r: Resource, factor: int) -> Resource {
    Resource { amount: cap_high(r.amount * factor / 100) as u64, ..r }
}

/// A resource's stock raised by a flat amount in hundredths, saturating.
pub open spec fn res_plus(r: Resource, d: int) -> Resource {
    Resource { amount: cap_high(r.amount + d) as u64, ..r }
}

/// One world event applied to the colony state. Events mutate directly
/// and without validation; happiness is only kept inside the raw
/// representable range, not inside the percentage range.
pub open spec fn spec_event(v: ColonyV, e: ColonyEvent) -> ColonyV {
    match e {
        ColonyEvent::SolarFlare => {
            let i = res_idx(v.resources, "Energy"@);
            ColonyV { resources: v.resources.update(i, res_scaled(v.resources[i], 150)), ..v }
        },
        ColonyEvent::MeteorStrike => {
            let i = res_idx(v.resources, "Minerals"@);
            ColonyV { resources: v.resources.update(i, res_plus(v.resources[i], 10_000)), ..v }
        },
        ColonyEvent::DiseaseOutbreak => ColonyV {
            population: v.population * 90 / 100,
            happiness: cap_happy(v.happiness - 1_000),
            ..v
        },
        ColonyEvent::TechnologicalBreakthrough => ColonyV {
            tech_points: min_i(v.tech_points + 5_000, MAX_CENTI as int),
            ..v
        },
        ColonyEvent::AlienArtifact => ColonyV {
            tech_points: min_i(v.tech_points + 10_000, MAX_CENTI as int),
            happiness: cap_happy(v.happiness + 500),
            ..v
        },
        ColonyEvent::WaterSourceFound => {
            let i = res_idx(v.resources, "Water"@);
            ColonyV { resources: v.resources.update(i, res_plus(v.resources[i], 20_000)), ..v }
        },
        ColonyEvent::VolunteerProgram => ColonyV {
            happiness: cap_happy(v.happiness + 1_500),
            population: cap_high(v.population * 105 / 100),
            ..v
        },
    }
}

/// The event catalog in its fixed order, indexed modulo its size, so
/// that any drawn number selects an event.
pub open spec fn event_of(i: int) -> ColonyEvent {
    let k = i % (EVENT_COUNT as int);
    if k == 0 {
        ColonyEvent::SolarFlare
    } else if k == 1 {
        ColonyEvent::MeteorStrike
    } else if k == 2 {
        ColonyEvent::DiseaseOutbreak
    } else if k == 3 {
        ColonyEvent::TechnologicalBreakthrough
    } else if k == 4 {
        ColonyEvent::AlienArtifact
    } else if k == 5 {
        ColonyEvent::WaterSourceFound
    } else {
        ColonyEvent::VolunteerProgram
    }
}

/// The log line each event produces.
pub open spec fn event_message(e: ColonyEvent) -> Seq<char> {
    match e {
        ColonyEvent::SolarFlare => "Solar Flare - A solar flare has increased energy production!"@,
        ColonyEvent::MeteorStrike
            => "Meteor Strike - A meteor strike has yielded additional minerals!"@,
        ColonyEvent::DiseaseOutbreak
            => "Disease Outbreak - A disease outbreak has reduced the population and happiness."@,
        ColonyEvent::TechnologicalBreakthrough
            => "Technological Breakthrough - A technological breakthrough has yielded additional tech points!"@,
        ColonyEvent::AlienArtifact
            => "Alien Artifact Discovered - An alien artifact has been discovered, boosting research and morale!"@,
        ColonyEvent::WaterSourceFound
            => "Water Source Found - A new water source has been discovered!"@,
        ColonyEvent::VolunteerProgram
            => "Volunteer Program - A successful volunteer program has boosted happiness and attracted new colonists!"@,
    }
}

// ---------------------------------------------------------------------------
// the fixed starting catalog
// ---------------------------------------------------------------------------

pub open spec fn is_farm(b: BuildingV) -> bool {
    &&& b.name@ == "Farm"@
    &&& b.resource_production.len() == 1
    &&& b.resource_production[0].resource@ == "Food"@ && b.resource_production[0].amount == 500
    &&& b.resource_consumption.len() == 2
    &&& b.resource_consumption[0].resource@ == "Energy"@ && b.resource_consumption[0].amount
        == 100
    &&& b.resource_consumption[1].resource@ == "Water"@ && b.resource_consumption[1].amount
        == 200
    &&& b.construction_cost.len() == 1
    &&& b.construction_cost[0].resource@ == "Minerals"@ && b.construction_cost[0].amount
        == 5_000
    &&& b.construction_time == 500
    &&& b.quantity == 1
}

pub open spec fn is_solar_panel(b: BuildingV) -> bool {
    &&& b.name@ == "Solar Panel"@
    &&& b.resource_production.len() == 1
    &&& b.resource_production[0].resource@ == "Energy"@ && b.resource_production[0].amount
        == 300
    &&& b.resource_consumption.len() == 0
    &&& b.construction_cost.len() == 1
    &&& b.construction_cost[0].resource@ == "Minerals"@ && b.construction_cost[0].amount
        == 3_000
    &&& b.construction_time == 300
    &&& b.quantity == 1
}

pub open spec fn is_water_extractor(b: BuildingV) -> bool {
    &&& b.name@ == "Water Extractor"@
    &&& b.resource_production.len() == 1
    &&& b.resource_production[0].resource@ == "Water"@ && b.resource_production[0].amount == 400
    &&& b.resource_consumption.len() == 1
    &&& b.resource_consumption[0].resource@ == "Energy"@ && b.resource_consumption[0].amount
        == 200
    &&& b.construction_cost.len() == 1
    &&& b.construction_cost[0].resource@ == "Minerals"@ && b.construction_cost[0].amount
        == 4_000
    &&& b.construction_time == 400
    &&& b.quantity == 1
}

pub open spec fn is_hydroponics_lab(b: BuildingV) -> bool {
    &&& b.name@ == "Hydroponics Lab"@
    &&& b.resource_production.len() == 1
    &&& b.resource_production[0].resource@ == "Food"@ && b.resource_production[0].amount
        == 1_000
    &&& b.resource_consumption.len() == 2
    &&& b.resource_consumption[0].resource@ == "Energy"@ && b.resource_consumption[0].amount
        == 300
    &&& b.resource_consumption[1].resource@ == "Water"@ && b.resource_consumption[1].amount
        == 500
    &&& b.construction_cost.len() == 1
    &&& b.construction_cost[0].resource@ == "Minerals"@ && b.construction_cost[0].amount
        == 10_000
    &&& b.construction_time == 1_000
    &&& b.quantity == 0
}

/// The fixed starting state: four resources, three buildings, four
/// research items, population 100, happiness 100%, no tech points, day 1.
pub open spec fn is_initial(v: ColonyV) -> bool {
    &&& v.resources.len() == 4
    &&& v.resources[0].name@ == "Food"@ && v.resources[0].amount == 100_000
        && v.resources[0].production_rate == 1_000 && v.resources[0].consumption_rate == 100
    &&& v.resources[1].name@ == "Energy"@ && v.resources[1].amount == 50_000
        && v.resources[1].production_rate == 500 && v.resources[1].consumption_rate == 100
    &&& v.resources[2].name@ == "Minerals"@ && v.resources[2].amount == 20_000
        && v.resources[2].production_rate == 200 && v.resources[2].consumption_rate == 0
    &&& v.resources[3].name@ == "Water"@ && v.resources[3].amount == 80_000
        && v.resources[3].production_rate == 800 && v.resources[3].consumption_rate == 200
    &&& v.buildings.len() == 3
    &&& is_farm(v.buildings[0])
    &&& is_solar_panel(v.buildings[1])
    &&& is_water_extractor(v.buildings[2])
    &&& v.research.len() == 4
    &&& v.research[0].name@ == "Advanced Farming"@ && v.research[0].description@
        == "Increases food production by 50%"@ && v.research[0].cost == 10_000
        && !v.research[0].completed && v.research[0].effects.len() == 1
        && (v.research[0].effects[0] matches EffectV::ResourceProductionBoost(n, f) && n@
        == "Food"@ && f == 150)
    &&& v.research[1].name@ == "Efficient Solar Cells"@ && v.research[1].description@
        == "Increases energy production by 50%"@ && v.research[1].cost == 15_000
        && !v.research[1].completed && v.research[1].effects.len() == 1
        && (v.research[1].effects[0] matches EffectV::ResourceProductionBoost(n, f) && n@
        == "Energy"@ && f == 150)
    &&& v.research[2].name@ == "Hydroponics"@ && v.research[2].description@
        == "Unlocks Hydroponics Lab for food production"@ && v.research[2].cost == 20_000
        && !v.research[2].completed && v.research[2].effects.len() == 1
        && (v.research[2].effects[0] matches EffectV::NewBuilding(b) && is_hydroponics_lab(b))
    &&& v.research[3].name@ == "Community Center"@ && v.research[3].description@
        == "Boosts happiness and population growth"@ && v.research[3].cost == 25_000
        && !v.research[3].completed && v.research[3].effects.len() == 2
        && (v.research[3].effects[0] matches EffectV::HappinessBoost(a) && a == 1_000)
        && (v.research[3].effects[1] matches EffectV::PopulationGrowthBoost(f) && f == 5)
    &&& v.population == 10_000
    &&& v.happiness == 10_000
    &&& v.tech_points == 0
    &&& v.day == 1
    &&& v.events.len() == 0
}

} // verus!
