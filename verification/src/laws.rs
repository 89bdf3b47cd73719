//! The engine's global guarantees, stated and proved over the ghost
//! model. Together with the operation contracts in [`crate::colony`]
//! (every mutator requires and re-establishes [`crate::model::wf`]),
//! these laws hold after any sequence of `tick`, `build`, `research`
//! and event applications starting from [`crate::colony::Colony::new`].

use vstd::prelude::*;
use crate::model::{ColonyV, ErrV, bldg_idx, research_idx, lemma_research_idx,
    lemma_research_idx_same_names, lemma_apply_effects_frame, lemma_effects_keep_happiness,
    delta_sum, spec_build, spec_research, spec_tick, spec_event, mark_completed, apply_effects,
    cap_high, wf, res_idx};
use crate::types::{MAX_CENTI, HAPPINESS_CAP};

verus! {

/// Non-negativity: in every well-formed colony state every resource
/// amount, every rate, the population and the tech points are at least
/// zero (and at most the cap). Since `new` establishes well-formedness
/// and every mutating operation preserves it, this holds after every
/// sequence of calls.
pub proof fn lemma_non_negative(v: ColonyV)
    requires
        wf(v),
    ensures
        forall|j: int|
            0 <= j < v.resources.len() ==> 0 <= #[trigger] v.resources[j].amount <= MAX_CENTI
                && 0 <= v.resources[j].production_rate <= MAX_CENTI && 0
                <= v.resources[j].consumption_rate <= MAX_CENTI,
        0 <= v.population <= MAX_CENTI,
        0 <= v.tech_points <= MAX_CENTI,
{
}

/// Happiness bound after a tick: a tick always leaves happiness inside
/// the percentage range, whatever it was before.
pub proof fn lemma_tick_happiness_bound(v: ColonyV)
    ensures
        0 <= spec_tick(v).happiness <= HAPPINESS_CAP,
{
}

/// Happiness bound after research: research keeps happiness inside the
/// percentage range whenever it was inside before the call (a world
/// event may first push it outside; the next tick clamps it back).
pub proof fn lemma_research_happiness_bound(v: ColonyV, name: Seq<char>)
    requires
        0 <= v.happiness <= HAPPINESS_CAP,
    ensures
        0 <= spec_research(v, name).0.happiness <= HAPPINESS_CAP,
{
    let ri: int = research_idx(v.research, name);
    if ri >= 0 {
        let item = v.research[ri];
        if !item.completed && v.tech_points >= item.cost {
            let paid = ColonyV {
                tech_points: v.tech_points - item.cost,
                research: v.research.update(ri, mark_completed(item)),
                ..v
            };
            lemma_effects_keep_happiness(paid, item.effects);
        }
    }
}

/// Research idempotence: once `research` has succeeded for a name, a
/// second call with the same name fails with `AlreadyCompleted` and
/// changes nothing.
pub proof fn lemma_research_idempotent(v: ColonyV, name: Seq<char>)
    requires
        spec_research(v, name).1 is None,
    ensures
        spec_research(spec_research(v, name).0, name).0 == spec_research(v, name).0,
        spec_research(spec_research(v, name).0, name).1 == Some(ErrV::AlreadyCompleted),
{
    let ri: int = research_idx(v.research, name);
    lemma_research_idx(v.research, name);
    let item = v.research[ri];
    let paid = ColonyV {
        tech_points: v.tech_points - item.cost,
        research: v.research.update(ri, mark_completed(item)),
        ..v
    };
    let v1 = apply_effects(paid, item.effects);
    lemma_apply_effects_frame(paid, item.effects);
    assert(v1.research == paid.research);
    assert forall|k: int|
        0 <= k < v1.research.len() implies v1.research[k].name@ == v.research[k].name@ by {}
    lemma_research_idx_same_names(v1.research, v.research, name);
    assert(research_idx(v1.research, name) == ri);
    assert(v1.research[ri].completed);
}

/// Build atomicity: a `build` that fails with `InsufficientResource`
/// leaves the whole colony state — every amount, every rate, every
/// building quantity — exactly as it was.
pub proof fn lemma_build_atomic(v: ColonyV, name: Seq<char>)
    requires
        spec_build(v, name).1 matches Some(ErrV::InsufficientResource(_)),
    ensures
        spec_build(v, name).0 == v,
{
}

/// Conservation in build: a successful `build` decreases each stock by
/// exactly the listed construction cost for its resource (zero for an
/// unlisted one), raises each rate by exactly the building's per-unit
/// delta up to the cap, and leaves names untouched.
pub proof fn lemma_build_conserves(v: ColonyV, name: Seq<char>)
    requires
        wf(v),
        spec_build(v, name).1 is None,
    ensures
        ({
            let b = v.buildings[bldg_idx(v.buildings, name)];
            let v1 = spec_build(v, name).0;
            &&& v1.resources.len() == v.resources.len()
            &&& forall|j: int|
                0 <= j < v.resources.len() ==> #[trigger] v1.resources[j].amount
                    == v.resources[j].amount - delta_sum(
                    b.construction_cost,
                    v.resources[j].name@,
                )
            &&& forall|j: int|
                0 <= j < v.resources.len() ==> #[trigger] v1.resources[j].production_rate
                    == cap_high(
                    v.resources[j].production_rate + delta_sum(
                        b.resource_production,
                        v.resources[j].name@,
                    ),
                )
            &&& forall|j: int|
                0 <= j < v.resources.len() ==> #[trigger] v1.resources[j].consumption_rate
                    == cap_high(
                    v.resources[j].consumption_rate + delta_sum(
                        b.resource_consumption,
                        v.resources[j].name@,
                    ),
                )
            &&& forall|j: int|
                0 <= j < v.resources.len() ==> #[trigger] v1.resources[j].name
                    == v.resources[j].name
        }),
{
    crate::model::lemma_bldg_idx(v.buildings, name);
    let bi: int = bldg_idx(v.buildings, name);
    let b = v.buildings[bi];
    let cost = b.construction_cost;
    crate::model::lemma_first_unmet(v.resources, cost);
    assert forall|j: int|
        0 <= j < v.resources.len() implies 0 <= #[trigger] delta_sum(cost, v.resources[j].name@)
        <= v.resources[j].amount by {
        let nm = v.resources[j].name@;
        crate::model::lemma_delta_sum_nonneg(cost, nm);
        if exists|k: int| 0 <= k < cost.len() && cost[k].resource@ == nm {
            let k = choose|k: int| 0 <= k < cost.len() && cost[k].resource@ == nm;
            crate::model::lemma_delta_sum_unique_at(cost, nm, k);
            assert(crate::model::cost_satisfied(v.resources, cost[k]));
            crate::model::lemma_res_idx(v.resources, nm);
            let i: int = res_idx(v.resources, nm);
            assert(i >= 0);
            if i != j {
                if i < j {
                    assert(v.resources[i].name@ != v.resources[j].name@);
                } else {
                    assert(v.resources[j].name@ != v.resources[i].name@);
                }
            }
            assert(i == j);
        } else {
            crate::model::lemma_delta_sum_absent(cost, nm);
        }
    };
    let v1 = spec_build(v, name).0;
    assert(v1.resources.len() == v.resources.len());
    assert forall|j: int|
        0 <= j < v.resources.len() implies #[trigger] v1.resources[j] == crate::model::built_resource(
        v.resources[j],
        b,
    ) by {}
    assert forall|j: int|
        0 <= j < v.resources.len() implies #[trigger] v1.resources[j].amount
        == v.resources[j].amount - delta_sum(cost, v.resources[j].name@) by {}
    assert forall|j: int|
        0 <= j < v.resources.len() implies 0 <= #[trigger] delta_sum(
        b.resource_production,
        v.resources[j].name@,
    ) && 0 <= delta_sum(b.resource_consumption, v.resources[j].name@) by {
        crate::model::lemma_delta_sum_nonneg(b.resource_production, v.resources[j].name@);
        crate::model::lemma_delta_sum_nonneg(b.resource_consumption, v.resources[j].name@);
    };
}

/// A successful `build` increments exactly the built building's
/// quantity (by one, below the counter's limit) and leaves every other
/// building untouched.
pub proof fn lemma_build_quantity(v: ColonyV, name: Seq<char>)
    requires
        spec_build(v, name).1 is None,
    ensures
        ({
            let bi = bldg_idx(v.buildings, name);
            let v1 = spec_build(v, name).0;
            &&& v1.buildings.len() == v.buildings.len()
            &&& v.buildings[bi].quantity < u32::MAX ==> v1.buildings[bi].quantity
                == v.buildings[bi].quantity + 1
            &&& forall|j: int|
                0 <= j < v.buildings.len() && j != bi ==> v1.buildings[j] == v.buildings[j]
        }),
{
    crate::model::lemma_bldg_idx(v.buildings, name);
}

/// A failed `build` of any kind changes nothing.
pub proof fn lemma_build_failure_atomic(v: ColonyV, name: Seq<char>)
    requires
        spec_build(v, name).1 is Some,
    ensures
        spec_build(v, name).0 == v,
{
}

/// A failed `research` of any kind changes nothing.
pub proof fn lemma_research_failure_atomic(v: ColonyV, name: Seq<char>)
    requires
        spec_research(v, name).1 is Some,
    ensures
        spec_research(v, name).0 == v,
{
}

/// The day counter is monotonic: a tick never decreases it (it advances
/// by one until the counter's limit).
pub proof fn lemma_day_monotonic(v: ColonyV)
    ensures
        spec_tick(v).day >= v.day,
        v.day < u32::MAX ==> spec_tick(v).day == v.day + 1,
{
}

/// Events never touch the research tree, the day counter or the log.
pub proof fn lemma_event_frame(v: ColonyV, e: crate::types::ColonyEvent)
    ensures
        spec_event(v, e).research == v.research,
        spec_event(v, e).day == v.day,
        spec_event(v, e).events == v.events,
{
}

} // verus!
