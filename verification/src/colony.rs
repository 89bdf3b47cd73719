//! The colony and its three mutating operations, plus world events.

use vstd::prelude::*;
use crate::types::{Resource, Delta, Building, ResearchEffect, Research, ColonyError, ColonyEvent,
    MAX_CENTI, HAPPINESS_CAP, EVENT_COUNT};
use crate::model::{ColonyV, EffectV, lemma_effect_preserves_wf, res_idx, bldg_idx,
    research_idx, lemma_res_idx, lemma_res_idx_of_match, lemma_other_slots_differ,
    lemma_bldg_idx, lemma_bldg_idx_of_match, lemma_research_idx, lemma_research_idx_of_match,
    lemma_res_idx_same_names, delta_sum, lemma_delta_sum_nonneg, lemma_delta_sum_step,
    lemma_delta_sum_absent, res_after_rates, spec_tick, cost_satisfied, first_unmet,
    lemma_first_unmet, built_resource, bump_quantity, spec_build, apply_effect, apply_effects,
    lemma_apply_effects_step, mark_completed, spec_research, err_matches, spec_event,
    event_message, cap_high, is_initial, wf};

verus! {

/// One colony: the resource ledger, the building registry, the research
/// tree, the population/happiness/tech-point scalars, a day counter and
/// the event log.
///
/// Every mutating operation requires and preserves the invariant
/// [`wf`] over the ghost view; values produced by [`Colony::new`]
/// satisfy it.
pub struct Colony {
    pub resources: Vec<Resource>,
    pub buildings: Vec<Building>,
    pub research: Vec<Research>,
    pub population: u64,
    pub happiness: i64,
    pub tech_points: u64,
    pub day: u32,
    pub events: Vec<String>,
}

impl View for Colony {
    type V = ColonyV;

    open spec fn view(&self) -> ColonyV {
        ColonyV {
            resources: self.resources@,
            buildings: crate::model::building_views(self.buildings@),
            research: crate::model::research_views(self.research@),
            population: self.population as int,
            happiness: self.happiness as int,
            tech_points: self.tech_points as int,
            day: self.day as int,
            events: self.events@,
        }
    }
}

/// Index of the first resource with the given name, scanning in order.
fn find_resource(rs: &Vec<Resource>, name: &str) -> (o: Option<usize>)
    ensures
        match o {
            Some(i) => res_idx(rs@, name@) == i as int && i < rs@.len(),
            None => res_idx(rs@, name@) < 0,
        },
{
    let key: String = name.to_owned();
    let n: usize = rs.len();
    let mut j: usize = 0;
    while j < n
        invariant
            j <= n,
            n == rs@.len(),
            key@ == name@,
            forall|k: int| 0 <= k < j ==> rs@[k].name@ != name@,
        decreases n - j,
    {
        if rs[j].name == key {
            proof {
                lemma_res_idx_of_match(rs@, name@, j as int);
            }
            return Some(j);
        }
        j += 1;
    }
    proof {
        lemma_res_idx(rs@, name@);
    }
    None
}

/// Index of the first building with the given name.
fn find_building(bs: &Vec<Building>, name: &str) -> (o: Option<usize>)
    ensures
        ({
            let views = crate::model::building_views(bs@);
            match o {
                Some(i) => bldg_idx(views, name@) == i as int && i < bs@.len(),
                None => bldg_idx(views, name@) < 0,
            }
        }),
{
    let key: String = name.to_owned();
    let n: usize = bs.len();
    let mut j: usize = 0;
    while j < n
        invariant
            j <= n,
            n == bs@.len(),
            key@ == name@,
            forall|k: int| 0 <= k < j ==> bs@[k].name@ != name@,
        decreases n - j,
    {
        if bs[j].name == key {
            proof {
                lemma_bldg_idx_of_match(crate::model::building_views(bs@), name@, j as int);
            }
            return Some(j);
        }
        j += 1;
    }
    proof {
        lemma_bldg_idx(crate::model::building_views(bs@), name@);
    }
    None
}

/// Index of the first research item with the given name.
fn find_research(items: &Vec<Research>, name: &str) -> (o: Option<usize>)
    ensures
        ({
            let views = crate::model::research_views(items@);
            match o {
                Some(i) => research_idx(views, name@) == i as int && i < items@.len(),
                None => research_idx(views, name@) < 0,
            }
        }),
{
    let key: String = name.to_owned();
    let n: usize = items.len();
    let mut j: usize = 0;
    while j < n
        invariant
            j <= n,
            n == items@.len(),
            key@ == name@,
            forall|k: int| 0 <= k < j ==> items@[k].name@ != name@,
        decreases n - j,
    {
        if items[j].name == key {
            proof {
                lemma_research_idx_of_match(crate::model::research_views(items@), name@, j as int);
            }
            return Some(j);
        }
        j += 1;
    }
    proof {
        lemma_research_idx(crate::model::research_views(items@), name@);
    }
    None
}

/// Build one entry of a building's delta table.
fn delta(resource: &str, amount: u64) -> (d: Delta)
    ensures
        d.resource@ == resource@,
        d.amount == amount,
{
    Delta { resource: resource.to_owned(), amount }
}

fn resource(name: &str, amount: u64, production_rate: u64, consumption_rate: u64) -> (r:
    Resource)
    ensures
        r.name@ == name@,
        r.amount == amount,
        r.production_rate == production_rate,
        r.consumption_rate == consumption_rate,
{
    Resource { name: name.to_owned(), amount, production_rate, consumption_rate }
}

/// An element-wise copy of a delta table.
fn copy_deltas(ds: &Vec<Delta>) -> (out: Vec<Delta>)
    ensures
        out@ == ds@,
{
    let mut out: Vec<Delta> = Vec::new();
    let n: usize = ds.len();
    let mut i: usize = 0;
    while i < n
        invariant
            i <= n,
            n == ds@.len(),
            out@.len() == i,
            forall|k: int| 0 <= k < i ==> out@[k] == ds@[k],
        decreases n - i,
    {
        out.push(Delta { resource: ds[i].resource.clone(), amount: ds[i].amount });
        i += 1;
    }
    proof {
        assert(out@ =~= ds@);
    }
    out
}

/// A copy of a building with the same ghost view.
fn copy_building(b: &Building) -> (out: Building)
    ensures
        out@ == b@,
{
    Building {
        name: b.name.clone(),
        resource_production: copy_deltas(&b.resource_production),
        resource_consumption: copy_deltas(&b.resource_consumption),
        construction_cost: copy_deltas(&b.construction_cost),
        construction_time: b.construction_time,
        quantity: b.quantity,
    }
}

/// The Hydroponics Lab unlocked by the "Hydroponics" research item.
fn hydroponics_lab() -> (b: Building)
    ensures
        crate::model::is_hydroponics_lab(b@),
{
    let mut production: Vec<Delta> = Vec::new();
    production.push(delta("Food", 1_000));
    let mut consumption: Vec<Delta> = Vec::new();
    consumption.push(delta("Energy", 300));
    consumption.push(delta("Water", 500));
    let mut cost: Vec<Delta> = Vec::new();
    cost.push(delta("Minerals", 10_000));
    Building {
        name: "Hydroponics Lab".to_owned(),
        resource_production: production,
        resource_consumption: consumption,
        construction_cost: cost,
        construction_time: 1_000,
        quantity: 0,
    }
}

impl Colony {
    /// The colony invariant; see [`crate::model::wf`].
    pub open spec fn wf(self) -> bool {
        wf(self@)
    }

    /// A fresh colony holding the fixed starting catalog.
    pub fn new() -> (c: Colony)
        ensures
            c.wf(),
            is_initial(c@),
    {
        let mut resources: Vec<Resource> = Vec::new();
        resources.push(resource("Food", 100_000, 1_000, 100));
        resources.push(resource("Energy", 50_000, 500, 100));
        resources.push(resource("Minerals", 20_000, 200, 0));
        resources.push(resource("Water", 80_000, 800, 200));

        let mut farm_production: Vec<Delta> = Vec::new();
        farm_production.push(delta("Food", 500));
        let mut farm_consumption: Vec<Delta> = Vec::new();
        farm_consumption.push(delta("Energy", 100));
        farm_consumption.push(delta("Water", 200));
        let mut farm_cost: Vec<Delta> = Vec::new();
        farm_cost.push(delta("Minerals", 5_000));
        let farm = Building {
            name: "Farm".to_owned(),
            resource_production: farm_production,
            resource_consumption: farm_consumption,
            construction_cost: farm_cost,
            construction_time: 500,
            quantity: 1,
        };

        let mut solar_production: Vec<Delta> = Vec::new();
        solar_production.push(delta("Energy", 300));
        let solar_consumption: Vec<Delta> = Vec::new();
        let mut solar_cost: Vec<Delta> = Vec::new();
        solar_cost.push(delta("Minerals", 3_000));
        let solar = Building {
            name: "Solar Panel".to_owned(),
            resource_production: solar_production,
            resource_consumption: solar_consumption,
            construction_cost: solar_cost,
            construction_time: 300,
            quantity: 1,
        };

        let mut extractor_production: Vec<Delta> = Vec::new();
        extractor_production.push(delta("Water", 400));
        let mut extractor_consumption: Vec<Delta> = Vec::new();
        extractor_consumption.push(delta("Energy", 200));
        let mut extractor_cost: Vec<Delta> = Vec::new();
        extractor_cost.push(delta("Minerals", 4_000));
        let extractor = Building {
            name: "Water Extractor".to_owned(),
            resource_production: extractor_production,
            resource_consumption: extractor_consumption,
            construction_cost: extractor_cost,
            construction_time: 400,
            quantity: 1,
        };

        let mut buildings: Vec<Building> = Vec::new();
        buildings.push(farm);
        buildings.push(solar);
        buildings.push(extractor);

        let mut farming_effects: Vec<ResearchEffect> = Vec::new();
        farming_effects.push(ResearchEffect::ResourceProductionBoost("Food".to_owned(), 150));
        let mut solar_effects: Vec<ResearchEffect> = Vec::new();
        solar_effects.push(ResearchEffect::ResourceProductionBoost("Energy".to_owned(), 150));
        let mut hydroponics_effects: Vec<ResearchEffect> = Vec::new();
        hydroponics_effects.push(ResearchEffect::NewBuilding(hydroponics_lab()));
        let mut community_effects: Vec<ResearchEffect> = Vec::new();
        community_effects.push(ResearchEffect::HappinessBoost(1_000));
        community_effects.push(ResearchEffect::PopulationGrowthBoost(5));

        let mut research: Vec<Research> = Vec::new();
        research.push(Research {
            name: "Advanced Farming".to_owned(),
            description: "Increases food production by 50%".to_owned(),
            cost: 10_000,
            completed: false,
            effects: farming_effects,
        });
        research.push(Research {
            name: "Efficient Solar Cells".to_owned(),
            description: "Increases energy production by 50%".to_owned(),
            cost: 15_000,
            completed: false,
            effects: solar_effects,
        });
        research.push(Research {
            name: "Hydroponics".to_owned(),
            description: "Unlocks Hydroponics Lab for food production".to_owned(),
            cost: 20_000,
            completed: false,
            effects: hydroponics_effects,
        });
        research.push(Research {
            name: "Community Center".to_owned(),
            description: "Boosts happiness and population growth".to_owned(),
            cost: 25_000,
            completed: false,
            effects: community_effects,
        });

        let c = Colony {
            resources,
            buildings,
            research,
            population: 10_000,
            happiness: 10_000,
            tech_points: 0,
            day: 1,
            events: Vec::new(),
        };
        proof {
            lemma_base_names_distinct();
            assert(is_initial(c@));
            lemma_res_idx_of_match(c@.resources, "Food"@, 0);
            lemma_res_idx_of_match(c@.resources, "Energy"@, 1);
            lemma_res_idx_of_match(c@.resources, "Minerals"@, 2);
            lemma_res_idx_of_match(c@.resources, "Water"@, 3);
            assert(c.wf());
        }
        c
    }

    /// One simulation step: apply production/consumption rates (clamping
    /// stocks into `[0, MAX_CENTI]`), feed the population, grow or shrink
    /// it by 1%, drift happiness by the ration shortfall, accrue tech
    /// points, and advance the day.
    pub fn tick(&mut self)
        requires
            old(self).wf(),
        ensures
            final(self).wf(),
            final(self)@ == spec_tick(old(self)@),
            0 <= final(self)@.happiness <= HAPPINESS_CAP,
    {
        let ghost v0 = self@;
        let n: usize = self.resources.len();
        let mut i: usize = 0;
        while i < n
            invariant
                i <= n,
                n == self.resources@.len(),
                n == v0.resources.len(),
                forall|k: int|
                    0 <= k < i ==> self.resources@[k] == res_after_rates(v0.resources[k]),
                forall|k: int| i <= k < n ==> self.resources@[k] == v0.resources[k],
                forall|k: int| 0 <= k < n ==> crate::model::resource_ok(v0.resources[k]),
                self.buildings == old(self).buildings,
                self.research == old(self).research,
                self.population == old(self).population,
                self.happiness == old(self).happiness,
                self.tech_points == old(self).tech_points,
                self.day == old(self).day,
                self.events == old(self).events,
            decreases n - i,
        {
            proof {
                assert(self.resources@[i as int] == v0.resources[i as int]);
                assert(crate::model::resource_ok(v0.resources[i as int]));
            }
            let prod: u64 = self.resources[i].production_rate;
            let cons: u64 = self.resources[i].consumption_rate;
            let amt: u64 = self.resources[i].amount;
            let na: u64 = if prod >= cons {
                let s: u64 = amt + (prod - cons);
                if s > MAX_CENTI {
                    MAX_CENTI
                } else {
                    s
                }
            } else {
                let d: u64 = cons - prod;
                if amt >= d {
                    amt - d
                } else {
                    0
                }
            };
            self.resources[i].amount = na;
            i += 1;
        }
        let ghost rs1 = v0.resources.map_values(|r: Resource| res_after_rates(r));
        proof {
            assert(self.resources@ =~= rs1);
            assert forall|k: int|
                0 <= k < n implies self.resources@[k].name@ == v0.resources[k].name@ by {}
            lemma_res_idx_same_names(self.resources@, v0.resources, "Food"@);
            lemma_res_idx_same_names(self.resources@, v0.resources, "Water"@);
            lemma_res_idx(v0.resources, "Food"@);
            lemma_res_idx(v0.resources, "Water"@);
        }
        let fi: usize = match find_resource(&self.resources, "Food") {
            Some(i) => i,
            None => unreached(),
        };
        let wi: usize = match find_resource(&self.resources, "Water") {
            Some(i) => i,
            None => unreached(),
        };
        proof {
            lemma_base_names_distinct();
            assert(fi != wi);
        }
        let pop: u64 = self.population;
        let food_amt: u64 = self.resources[fi].amount;
        let water_amt: u64 = self.resources[wi].amount;
        let fc: u64 = if pop < food_amt {
            pop
        } else {
            food_amt
        };
        let wc: u64 = if pop < water_amt {
            pop
        } else {
            water_amt
        };
        self.resources[fi].amount = food_amt - fc;
        self.resources[wi].amount = water_amt - wc;

        let grow: u64 = pop / 100;
        assert(grow <= pop);
        let p1: u64 = if fc >= pop && wc >= pop {
            let s: u64 = pop + grow;
            if s > MAX_CENTI {
                MAX_CENTI
            } else {
                s
            }
        } else {
            pop - grow
        };
        self.population = p1;

        let denom: u64 = if p1 < 100 {
            100
        } else {
            p1
        };
        let fr: u64 = fc * 100 / denom;
        let wr: u64 = wc * 100 / denom;
        assert(fr <= fc * 100 && wr <= wc * 100);
        let drift: i64 = (fr as i64 + wr as i64 - 100) * 5;
        let h_raw: i64 = self.happiness + drift;
        let h1: i64 = if h_raw < 0 {
            0
        } else if h_raw > HAPPINESS_CAP {
            HAPPINESS_CAP
        } else {
            h_raw
        };
        self.happiness = h1;

        proof {
            assert(p1 <= MAX_CENTI);
            assert(0 <= h1 <= HAPPINESS_CAP);
            assert((p1 as int) * (h1 as int) <= 10_000_000_000_000_000) by (nonlinear_arith)
                requires
                    p1 as int <= 1_000_000_000_000,
                    0 <= h1 as int <= 10_000,
            ;
        }
        let t_add: u64 = p1 * (h1 as u64) / 100_000;
        assert(t_add <= p1 * (h1 as u64));
        let t_sum: u64 = self.tech_points + t_add;
        self.tech_points = if t_sum > MAX_CENTI {
            MAX_CENTI
        } else {
            t_sum
        };
        if self.day < u32::MAX {
            self.day = self.day + 1;
        }
        proof {
            let s = spec_tick(v0);
            assert(self.resources@ =~= s.resources);
            assert(self@ =~= s);
            assert forall|k: int|
                0 <= k < n implies self.resources@[k].name@ == v0.resources[k].name@ by {}
            lemma_res_idx_same_names(self.resources@, v0.resources, "Food"@);
            lemma_res_idx_same_names(self.resources@, v0.resources, "Water"@);
            lemma_res_idx_same_names(self.resources@, v0.resources, "Energy"@);
            lemma_res_idx_same_names(self.resources@, v0.resources, "Minerals"@);
            assert(wf(self@));
        }
    }

    /// Construct one unit of the named building. Every construction cost
    /// is validated against the current stocks first; on any shortfall the
    /// call fails with `InsufficientResource` for the first lacking entry
    /// and the colony is left untouched. On success the costs are paid,
    /// the quantity is incremented and the building's per-unit rates are
    /// added to the ledger (a cost or rate naming a resource absent from
    /// the ledger is skipped).
    pub fn build(&mut self, building_name: &str) -> (result: Result<(), ColonyError>)
        requires
            old(self).wf(),
        ensures
            final(self).wf(),
            final(self)@ == spec_build(old(self)@, building_name@).0,
            err_matches(result, spec_build(old(self)@, building_name@).1),
    {
        let ghost v0 = self@;
        let bi: usize = match find_building(&self.buildings, building_name) {
            Some(i) => i,
            None => {
                return Err(ColonyError::NotFound);
            },
        };
        let ghost bv = v0.buildings[bi as int];
        let ghost cost = bv.construction_cost;
        proof {
            lemma_bldg_idx(v0.buildings, building_name@);
            assert(crate::model::building_ok(bv));
            assert(self.buildings@[bi as int]@ == bv);
        }

        // Validate every cost entry against the current (unmodified) stocks.
        let m: usize = self.buildings[bi].construction_cost.len();
        let mut k: usize = 0;
        while k < m
            invariant
                k <= m,
                *self == *old(self),
                self@ == v0,
                crate::model::wf(v0),
                bldg_idx(v0.buildings, building_name@) == bi as int,
                v0.buildings[bi as int] == bv,
                bv.construction_cost == cost,
                bi < self.buildings@.len(),
                self.buildings@[bi as int]@ == bv,
                m == cost.len(),
                forall|j: int| 0 <= j < k ==> cost_satisfied(v0.resources, cost[j]),
            decreases m - k,
        {
            let camt: u64 = self.buildings[bi].construction_cost[k].amount;
            let avail: u64 = match find_resource(
                &self.resources,
                self.buildings[bi].construction_cost[k].resource.as_str(),
            ) {
                Some(ri) => self.resources[ri].amount,
                None => 0,
            };
            if avail < camt {
                proof {
                    assert(!cost_satisfied(v0.resources, cost[k as int]));
                    lemma_first_unmet(v0.resources, cost);
                    assert(first_unmet(v0.resources, cost) == k as int);
                }
                return Err(
                    ColonyError::InsufficientResource(
                        self.buildings[bi].construction_cost[k].resource.clone(),
                    ),
                );
            }
            k += 1;
        }
        proof {
            lemma_first_unmet(v0.resources, cost);
            assert(first_unmet(v0.resources, cost) < 0);
        }

        // Pay every cost entry.
        k = 0;
        while k < m
            invariant
                k <= m,
                m == cost.len(),
                v0.buildings[bi as int] == bv,
                bv.construction_cost == cost,
                bi < self.buildings@.len(),
                bi < v0.buildings.len(),
                self.buildings@[bi as int]@ == bv,
                self.resources@.len() == v0.resources.len(),
                forall|j: int|
                    0 <= j < v0.resources.len() ==> self.resources@[j].name
                        == v0.resources[j].name && self.resources@[j].production_rate
                        == v0.resources[j].production_rate && self.resources@[j].consumption_rate
                        == v0.resources[j].consumption_rate && self.resources@[j].amount
                        == v0.resources[j].amount - delta_sum(
                        cost.take(k as int),
                        v0.resources[j].name@,
                    ),
                forall|j: int| 0 <= j < m ==> cost_satisfied(v0.resources, cost[j]),
                crate::model::wf(v0),
                self.buildings == old(self).buildings,
                self.research == old(self).research,
                self.population == old(self).population,
                self.happiness == old(self).happiness,
                self.tech_points == old(self).tech_points,
                self.day == old(self).day,
                self.events == old(self).events,
            decreases m - k,
        {
            proof {
                assert forall|j: int|
                    0 <= j < v0.resources.len() implies self.resources@[j].name@
                    == v0.resources[j].name@ by {}
            }
            let camt: u64 = self.buildings[bi].construction_cost[k].amount;
            let ghost dname = cost[k as int].resource@;
            match find_resource(
                &self.resources,
                self.buildings[bi].construction_cost[k].resource.as_str(),
            ) {
                Some(ri) => {
                    proof {
                        assert(crate::model::building_ok(bv));
                        lemma_res_idx_same_names(self.resources@, v0.resources, dname);
                        assert(res_idx(v0.resources, dname) == ri as int);
                        lemma_res_idx(v0.resources, dname);
                        assert(cost_satisfied(v0.resources, cost[k as int]));
                        assert(v0.resources[ri as int].amount >= camt);
                        assert forall|j: int|
                            0 <= j < k implies cost.take(k as int)[j].resource@ != dname by {
                            assert(cost.take(k as int)[j] == cost[j]);
                            assert(cost[j].resource@ != cost[k as int].resource@);
                        }
                        lemma_delta_sum_absent(cost.take(k as int), dname);
                        assert(self.resources@[ri as int].amount == v0.resources[ri as int].amount);
                    }
                    self.resources[ri].amount = self.resources[ri].amount - camt;
                },
                None => {
                    proof {
                        lemma_res_idx_same_names(self.resources@, v0.resources, dname);
                    }
                },
            }
            proof {
                lemma_res_idx(v0.resources, dname);
                assert forall|j: int|
                    0 <= j < v0.resources.len() implies self.resources@[j].amount
                    == v0.resources[j].amount - delta_sum(
                    cost.take(k as int + 1),
                    v0.resources[j].name@,
                ) by {
                    lemma_delta_sum_step(cost, v0.resources[j].name@, k as int);
                    if res_idx(v0.resources, dname) != j {
                        lemma_other_slots_differ(v0.resources, dname, j);
                    }
                }
            }
            k += 1;
        }
        proof {
            assert(cost.take(m as int) =~= cost);
        }

        // One more unit built.
        let q: u32 = self.buildings[bi].quantity;
        if q < u32::MAX {
            self.buildings[bi].quantity = q + 1;
        }
        proof {
            assert(self.buildings@[bi as int]@ == bump_quantity(bv));
            assert(self@.buildings =~= v0.buildings.update(bi as int, bump_quantity(bv)));
        }

        // Add the per-unit production rates.
        let ghost prod = bv.resource_production;
        let np: usize = self.buildings[bi].resource_production.len();
        k = 0;
        while k < np
            invariant
                k <= np,
                np == prod.len(),
                bi < self.buildings@.len(),
                bi < v0.buildings.len(),
                v0.buildings[bi as int] == bv,
                self.buildings@[bi as int]@ == bump_quantity(bv),
                bump_quantity(bv).resource_production == prod,
                self@.buildings == v0.buildings.update(bi as int, bump_quantity(bv)),
                self.resources@.len() == v0.resources.len(),
                forall|j: int|
                    0 <= j < v0.resources.len() ==> self.resources@[j].name
                        == v0.resources[j].name && self.resources@[j].consumption_rate
                        == v0.resources[j].consumption_rate && self.resources@[j].amount
                        == v0.resources[j].amount - delta_sum(cost, v0.resources[j].name@)
                        && self.resources@[j].production_rate == cap_high(
                        v0.resources[j].production_rate + delta_sum(
                            prod.take(k as int),
                            v0.resources[j].name@,
                        ),
                    ),
                forall|j: int| 0 <= j < np ==> prod[j].amount <= MAX_CENTI,
                crate::model::wf(v0),
                self.research == old(self).research,
                self.population == old(self).population,
                self.happiness == old(self).happiness,
                self.tech_points == old(self).tech_points,
                self.day == old(self).day,
                self.events == old(self).events,
            decreases np - k,
        {
            proof {
                assert forall|j: int|
                    0 <= j < v0.resources.len() implies self.resources@[j].name@
                    == v0.resources[j].name@ by {}
            }
            let ramt: u64 = self.buildings[bi].resource_production[k].amount;
            let ghost dname = prod[k as int].resource@;
            match find_resource(
                &self.resources,
                self.buildings[bi].resource_production[k].resource.as_str(),
            ) {
                Some(ri) => {
                    proof {
                        lemma_res_idx_same_names(self.resources@, v0.resources, dname);
                        lemma_res_idx(v0.resources, dname);
                        lemma_delta_sum_nonneg(prod.take(k as int), dname);
                    }
                    let s: u64 = self.resources[ri].production_rate + ramt;
                    self.resources[ri].production_rate = if s > MAX_CENTI {
                        MAX_CENTI
                    } else {
                        s
                    };
                },
                None => {
                    proof {
                        lemma_res_idx_same_names(self.resources@, v0.resources, dname);
                    }
                },
            }
            proof {
                lemma_res_idx(v0.resources, dname);
                assert forall|j: int|
                    0 <= j < v0.resources.len() implies self.resources@[j].production_rate
                    == cap_high(
                    v0.resources[j].production_rate + delta_sum(
                        prod.take(k as int + 1),
                        v0.resources[j].name@,
                    ),
                ) by {
                    lemma_delta_sum_step(prod, v0.resources[j].name@, k as int);
                    lemma_delta_sum_nonneg(prod.take(k as int), v0.resources[j].name@);
                    if res_idx(v0.resources, dname) != j {
                        lemma_other_slots_differ(v0.resources, dname, j);
                    }
                }
            }
            k += 1;
        }
        proof {
            assert(prod.take(np as int) =~= prod);
        }

        // Add the per-unit consumption rates.
        let ghost cons = bv.resource_consumption;
        let nc: usize = self.buildings[bi].resource_consumption.len();
        k = 0;
        while k < nc
            invariant
                k <= nc,
                nc == cons.len(),
                bi < self.buildings@.len(),
                bi < v0.buildings.len(),
                v0.buildings[bi as int] == bv,
                self.buildings@[bi as int]@ == bump_quantity(bv),
                bump_quantity(bv).resource_consumption == cons,
                self@.buildings == v0.buildings.update(bi as int, bump_quantity(bv)),
                self.resources@.len() == v0.resources.len(),
                forall|j: int|
                    0 <= j < v0.resources.len() ==> self.resources@[j].name
                        == v0.resources[j].name && self.resources@[j].amount
                        == v0.resources[j].amount - delta_sum(cost, v0.resources[j].name@)
                        && self.resources@[j].production_rate == cap_high(
                        v0.resources[j].production_rate + delta_sum(prod, v0.resources[j].name@),
                    ) && self.resources@[j].consumption_rate == cap_high(
                        v0.resources[j].consumption_rate + delta_sum(
                            cons.take(k as int),
                            v0.resources[j].name@,
                        ),
                    ),
                forall|j: int| 0 <= j < nc ==> cons[j].amount <= MAX_CENTI,
                crate::model::wf(v0),
                self.research == old(self).research,
                self.population == old(self).population,
                self.happiness == old(self).happiness,
                self.tech_points == old(self).tech_points,
                self.day == old(self).day,
                self.events == old(self).events,
            decreases nc - k,
        {
            proof {
                assert forall|j: int|
                    0 <= j < v0.resources.len() implies self.resources@[j].name@
                    == v0.resources[j].name@ by {}
            }
            let ramt: u64 = self.buildings[bi].resource_consumption[k].amount;
            let ghost dname = cons[k as int].resource@;
            match find_resource(
                &self.resources,
                self.buildings[bi].resource_consumption[k].resource.as_str(),
            ) {
                Some(ri) => {
                    proof {
                        lemma_res_idx_same_names(self.resources@, v0.resources, dname);
                        lemma_res_idx(v0.resources, dname);
                        lemma_delta_sum_nonneg(cons.take(k as int), dname);
                    }
                    let s: u64 = self.resources[ri].consumption_rate + ramt;
                    self.resources[ri].consumption_rate = if s > MAX_CENTI {
                        MAX_CENTI
                    } else {
                        s
                    };
                },
                None => {
                    proof {
                        lemma_res_idx_same_names(self.resources@, v0.resources, dname);
                    }
                },
            }
            proof {
                lemma_res_idx(v0.resources, dname);
                assert forall|j: int|
                    0 <= j < v0.resources.len() implies self.resources@[j].consumption_rate
                    == cap_high(
                    v0.resources[j].consumption_rate + delta_sum(
                        cons.take(k as int + 1),
                        v0.resources[j].name@,
                    ),
                ) by {
                    lemma_delta_sum_step(cons, v0.resources[j].name@, k as int);
                    lemma_delta_sum_nonneg(cons.take(k as int), v0.resources[j].name@);
                    if res_idx(v0.resources, dname) != j {
                        lemma_other_slots_differ(v0.resources, dname, j);
                    }
                }
            }
            k += 1;
        }
        proof {
            assert(cons.take(nc as int) =~= cons);
            let s = spec_build(v0, building_name@);
            assert forall|j: int|
                0 <= j < v0.resources.len() implies self.resources@[j] == built_resource(
                v0.resources[j],
                bv,
            ) by {
                lemma_delta_sum_nonneg(cost, v0.resources[j].name@);
            }
            assert(self.resources@ =~= s.0.resources);
            assert(self@ =~= s.0);
            assert forall|j: int|
                0 <= j < v0.resources.len() implies self.resources@[j].name@
                == v0.resources[j].name@ by {}
            lemma_res_idx_same_names(self.resources@, v0.resources, "Food"@);
            lemma_res_idx_same_names(self.resources@, v0.resources, "Water"@);
            lemma_res_idx_same_names(self.resources@, v0.resources, "Energy"@);
            lemma_res_idx_same_names(self.resources@, v0.resources, "Minerals"@);
            assert forall|j: int|
                0 <= j < self.resources@.len() implies crate::model::resource_ok(
                self.resources@[j],
            ) by {
                lemma_delta_sum_nonneg(cost, v0.resources[j].name@);
                lemma_delta_sum_nonneg(prod, v0.resources[j].name@);
                lemma_delta_sum_nonneg(cons, v0.resources[j].name@);
            }
            assert(wf(self@));
        }
        Ok(())
    }

    /// Complete the named research item. An unknown name, an already
    /// completed item, or a cost above the accumulated tech points is
    /// rejected with the colony untouched; otherwise the cost is paid,
    /// the item is marked completed, and its effects are applied in
    /// order, irrevocably.
    pub fn research(&mut self, research_name: &str) -> (result: Result<(), ColonyError>)
        requires
            old(self).wf(),
        ensures
            final(self).wf(),
            final(self)@ == spec_research(old(self)@, research_name@).0,
            err_matches(result, spec_research(old(self)@, research_name@).1),
            0 <= old(self)@.happiness <= HAPPINESS_CAP ==> 0 <= final(self)@.happiness
                <= HAPPINESS_CAP,
    {
        let ghost v0 = self@;
        let ri: usize = match find_research(&self.research, research_name) {
            Some(i) => i,
            None => {
                return Err(ColonyError::NotFound);
            },
        };
        let ghost item = v0.research[ri as int];
        proof {
            lemma_research_idx(v0.research, research_name@);
            assert(crate::model::research_ok(item));
            assert(self.research@[ri as int]@ == item);
        }
        if self.research[ri].completed {
            return Err(ColonyError::AlreadyCompleted);
        }
        if self.tech_points < self.research[ri].cost {
            return Err(ColonyError::InsufficientTechPoints);
        }
        self.tech_points = self.tech_points - self.research[ri].cost;
        self.research[ri].completed = true;
        proof {
            assert(self.research@[ri as int]@ == mark_completed(item));
            assert(self@.research =~= v0.research.update(ri as int, mark_completed(item)));
            assert(self@ =~= ColonyV {
                tech_points: v0.tech_points - item.cost,
                research: v0.research.update(ri as int, mark_completed(item)),
                ..v0
            });
        }
        let ghost v1 = self@;

        let ne: usize = self.research[ri].effects.len();
        let mut k: usize = 0;
        while k < ne
            invariant
                k <= ne,
                ne == item.effects.len(),
                ri < self.research@.len(),
                crate::model::research_ok(item),
                crate::model::wf(v1),
                v1.research[ri as int] == mark_completed(item),
                self@ == apply_effects(v1, item.effects.take(k as int)),
                wf(self@),
                self.research@[ri as int]@.effects == item.effects,
            decreases ne - k,
        {
            let ghost pre = self@;
            proof {
                assert(item.effects[k as int] == self.research@[ri as int]@.effects[k as int]);
            }
            match &self.research[ri].effects[k] {
                ResearchEffect::ResourceProductionBoost(name, factor) => {
                    let f: u64 = *factor;
                    proof {
                        assert(crate::model::effect_ok(item.effects[k as int]));
                    }
                    match find_resource(&self.resources, name.as_str()) {
                        Some(i2) => {
                            let r: u64 = self.resources[i2].production_rate;
                            proof {
                                assert(crate::model::resource_ok(pre.resources[i2 as int]));
                                assert((r as int) * (f as int) <= 1_000_000_000_000_000_000)
                                    by (nonlinear_arith)
                                    requires
                                        r as int <= 1_000_000_000_000,
                                        f as int <= 1_000_000,
                                ;
                            }
                            let boosted: u64 = r * f / 100;
                            assert(boosted <= r * f);
                            self.resources[i2].production_rate = if boosted > MAX_CENTI {
                                MAX_CENTI
                            } else {
                                boosted
                            };
                            proof {
                                assert(self@.resources =~= pre.resources.update(
                                    i2 as int,
                                    Resource {
                                        production_rate: cap_high(
                                            pre.resources[i2 as int].production_rate * f / 100,
                                        ) as u64,
                                        ..pre.resources[i2 as int]
                                    },
                                ));
                                assert(self@ =~= apply_effect(pre, item.effects[k as int]));
                            }
                        },
                        None => {
                            proof {
                                assert(self@ =~= apply_effect(pre, item.effects[k as int]));
                            }
                        },
                    }
                },
                ResearchEffect::NewBuilding(b) => {
                    let nb: Building = copy_building(b);
                    let ghost nbv = nb@;
                    proof {
                        assert(item.effects[k as int] == EffectV::NewBuilding(nbv));
                    }
                    match find_building(&self.buildings, nb.name.as_str()) {
                        Some(i2) => {
                            self.buildings[i2] = nb;
                            proof {
                                assert(self@.buildings =~= pre.buildings.update(
                                    i2 as int,
                                    nbv,
                                ));
                                assert(self@ =~= apply_effect(pre, item.effects[k as int]));
                            }
                        },
                        None => {
                            self.buildings.push(nb);
                            proof {
                                assert(self@.buildings =~= pre.buildings.push(nbv));
                                assert(self@ =~= apply_effect(pre, item.effects[k as int]));
                            }
                        },
                    }
                },
                ResearchEffect::PopulationGrowthBoost(fraction) => {
                    let fr: u64 = *fraction;
                    let p: u64 = self.population;
                    proof {
                        assert(crate::model::effect_ok(item.effects[k as int]));
                        assert((p as int) * (100 + fr as int) <= 2_000_000_000_000_000_000)
                            by (nonlinear_arith)
                            requires
                                p as int <= 1_000_000_000_000,
                                fr as int <= 1_000_000,
                        ;
                    }
                    let boosted: u64 = p * (100 + fr) / 100;
                    assert(boosted <= p * (100 + fr));
                    self.population = if boosted > MAX_CENTI {
                        MAX_CENTI
                    } else {
                        boosted
                    };
                    proof {
                        assert(self@ =~= apply_effect(pre, item.effects[k as int]));
                    }
                },
                ResearchEffect::HappinessBoost(amount) => {
                    let amt: u64 = *amount;
                    proof {
                        assert(crate::model::effect_ok(item.effects[k as int]));
                    }
                    let h: i64 = self.happiness + (amt as i64);
                    self.happiness = if h > HAPPINESS_CAP {
                        HAPPINESS_CAP
                    } else {
                        h
                    };
                    proof {
                        assert(self@ =~= apply_effect(pre, item.effects[k as int]));
                    }
                },
            }
            proof {
                lemma_apply_effects_step(v1, item.effects, k as int);
                lemma_effect_preserves_wf(pre, item.effects[k as int]);
            }
            k += 1;
        }
        proof {
            assert(item.effects.take(ne as int) =~= item.effects);
            assert(self@ == apply_effects(v1, item.effects));
            assert(self@ == spec_research(v0, research_name@).0);
            if 0 <= v0.happiness <= HAPPINESS_CAP {
                crate::model::lemma_effects_keep_happiness(v1, item.effects);
            }
        }
        Ok(())
    }

    /// Apply one world event directly to the colony and return its log
    /// line. Selection is the caller's business: it picks the event (for
    /// example at random via [`event_for_roll`]) and hands it in, so a
    /// test can inject a fixed choice.
    pub fn apply_event(&mut self, event: ColonyEvent) -> (message: String)
        requires
            old(self).wf(),
        ensures
            final(self).wf(),
            final(self)@ == spec_event(old(self)@, event),
            message@ == event_message(event),
    {
        let ghost v0 = self@;
        let text: &str = match event {
            ColonyEvent::SolarFlare => {
                let i: usize = match find_resource(&self.resources, "Energy") {
                    Some(i) => i,
                    None => unreached(),
                };
                proof {
                    assert(crate::model::resource_ok(v0.resources[i as int]));
                }
                let a: u64 = self.resources[i].amount;
                let scaled: u64 = a * 150 / 100;
                self.resources[i].amount = if scaled > MAX_CENTI {
                    MAX_CENTI
                } else {
                    scaled
                };
                proof {
                    lemma_event_resources_wf(self, v0);
                }
                "Solar Flare - A solar flare has increased energy production!"
            },
            ColonyEvent::MeteorStrike => {
                let i: usize = match find_resource(&self.resources, "Minerals") {
                    Some(i) => i,
                    None => unreached(),
                };
                proof {
                    assert(crate::model::resource_ok(v0.resources[i as int]));
                }
                let a: u64 = self.resources[i].amount + 10_000;
                self.resources[i].amount = if a > MAX_CENTI {
                    MAX_CENTI
                } else {
                    a
                };
                proof {
                    lemma_event_resources_wf(self, v0);
                }
                "Meteor Strike - A meteor strike has yielded additional minerals!"
            },
            ColonyEvent::DiseaseOutbreak => {
                self.population = self.population * 90 / 100;
                let h: i64 = self.happiness - 1_000;
                self.happiness = if h < -(MAX_CENTI as i64) {
                    -(MAX_CENTI as i64)
                } else {
                    h
                };
                "Disease Outbreak - A disease outbreak has reduced the population and happiness."
            },
            ColonyEvent::TechnologicalBreakthrough => {
                let t: u64 = self.tech_points + 5_000;
                self.tech_points = if t > MAX_CENTI {
                    MAX_CENTI
                } else {
                    t
                };
                "Technological Breakthrough - A technological breakthrough has yielded additional tech points!"
            },
            ColonyEvent::AlienArtifact => {
                let t: u64 = self.tech_points + 10_000;
                self.tech_points = if t > MAX_CENTI {
                    MAX_CENTI
                } else {
                    t
                };
                let h: i64 = self.happiness + 500;
                self.happiness = if h > MAX_CENTI as i64 {
                    MAX_CENTI as i64
                } else {
                    h
                };
                "Alien Artifact Discovered - An alien artifact has been discovered, boosting research and morale!"
            },
            ColonyEvent::WaterSourceFound => {
                let i: usize = match find_resource(&self.resources, "Water") {
                    Some(i) => i,
                    None => unreached(),
                };
                proof {
                    assert(crate::model::resource_ok(v0.resources[i as int]));
                }
                let a: u64 = self.resources[i].amount + 20_000;
                self.resources[i].amount = if a > MAX_CENTI {
                    MAX_CENTI
                } else {
                    a
                };
                proof {
                    lemma_event_resources_wf(self, v0);
                }
                "Water Source Found - A new water source has been discovered!"
            },
            ColonyEvent::VolunteerProgram => {
                let h: i64 = self.happiness + 1_500;
                self.happiness = if h > MAX_CENTI as i64 {
                    MAX_CENTI as i64
                } else {
                    h
                };
                let p: u64 = self.population * 105 / 100;
                self.population = if p > MAX_CENTI {
                    MAX_CENTI
                } else {
                    p
                };
                "Volunteer Program - A successful volunteer program has boosted happiness and attracted new colonists!"
            },
        };
        proof {
            assert(self@ =~= spec_event(v0, event));
        }
        text.to_owned()
    }

    /// Set the tech-point accumulator directly (bounded by the cap).
    pub fn set_tech_points(&mut self, points: u64)
        requires
            old(self).wf(),
            points <= MAX_CENTI,
        ensures
            final(self).wf(),
            final(self)@ == (ColonyV { tech_points: points as int, ..old(self)@ }),
    {
        let ghost v0 = old(self)@;
        self.tech_points = points;
        proof {
            assert(self@ =~= (ColonyV { tech_points: points as int, ..v0 }));
        }
    }

    /// Append one entry to the colony's event log. The log only grows;
    /// nothing in the engine reads it back.
    pub fn log_event(&mut self, entry: String)
        requires
            old(self).wf(),
        ensures
            final(self).wf(),
            final(self)@ == (ColonyV { events: old(self)@.events.push(entry), ..old(self)@ }),
    {
        let ghost v0 = old(self)@;
        self.events.push(entry);
        proof {
            assert(self@ =~= (ColonyV { events: v0.events.push(entry), ..v0 }));
        }
    }
}

/// The event of the fixed catalog selected by a drawn number, taken
/// modulo the catalog size; see [`crate::model::event_of`].
pub fn event_for_roll(roll: u64) -> (e: ColonyEvent)
    ensures
        e == crate::model::event_of(roll as int),
{
    let k: u64 = roll % EVENT_COUNT;
    if k == 0 {
        ColonyEvent::SolarFlare
    } else if k == 1 {
        ColonyEvent::MeteorStrike
    } else if k == 2 {
        ColonyEvent::DiseaseOutbreak
    } else if k == 3 {
        ColonyEvent::TechnologicalBreakthrough
    } else if k == 4 {
        ColonyEvent::AlienArtifact
    } else if k == 5 {
        ColonyEvent::WaterSourceFound
    } else {
        ColonyEvent::VolunteerProgram
    }
}

/// After an event that changed only stock amounts, the ledger is still
/// well-formed.
proof fn lemma_event_resources_wf(c: &Colony, v0: ColonyV)
    requires
        crate::model::wf(v0),
        c@.resources.len() == v0.resources.len(),
        forall|k: int|
            0 <= k < v0.resources.len() ==> c@.resources[k].name@ == v0.resources[k].name@
                && c@.resources[k].amount <= MAX_CENTI && c@.resources[k].production_rate
                == v0.resources[k].production_rate && c@.resources[k].consumption_rate
                == v0.resources[k].consumption_rate,
        c@.buildings == v0.buildings,
        c@.research == v0.research,
        c@.population == v0.population,
        c@.happiness == v0.happiness,
        c@.tech_points == v0.tech_points,
        c@.day == v0.day,
    ensures
        crate::model::wf(c@),
{
    lemma_res_idx_same_names(c@.resources, v0.resources, "Food"@);
    lemma_res_idx_same_names(c@.resources, v0.resources, "Water"@);
    lemma_res_idx_same_names(c@.resources, v0.resources, "Energy"@);
    lemma_res_idx_same_names(c@.resources, v0.resources, "Minerals"@);
    assert forall|a: int, b: int|
        0 <= a < b < c@.resources.len() implies c@.resources[a].name@
        != c@.resources[b].name@ by {
        assert(v0.resources[a].name@ != v0.resources[b].name@);
    };
    assert forall|k: int|
        0 <= k < c@.resources.len() implies crate::model::resource_ok(c@.resources[k]) by {
        assert(crate::model::resource_ok(v0.resources[k]));
    };
}

/// The names of the fixed catalog are pairwise distinct.
proof fn lemma_base_names_distinct()
    ensures
        "Food"@ != "Energy"@,
        "Food"@ != "Minerals"@,
        "Food"@ != "Water"@,
        "Energy"@ != "Minerals"@,
        "Energy"@ != "Water"@,
        "Minerals"@ != "Water"@,
        "Farm"@ != "Solar Panel"@,
        "Farm"@ != "Water Extractor"@,
        "Solar Panel"@ != "Water Extractor"@,
{
    reveal_strlit("Food");
    reveal_strlit("Energy");
    reveal_strlit("Minerals");
    reveal_strlit("Water");
    reveal_strlit("Farm");
    reveal_strlit("Solar Panel");
    reveal_strlit("Water Extractor");
    assert("Food"@.len() == 4);
    assert("Energy"@.len() == 6);
    assert("Minerals"@.len() == 8);
    assert("Water"@.len() == 5);
    assert("Farm"@.len() == 4);
    assert("Solar Panel"@.len() == 11);
    assert("Water Extractor"@.len() == 15);
}

} // verus!
