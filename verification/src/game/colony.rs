//! Colony state: resources, population, buildings, and all player-facing rules.
//!
//! [`Colony`] is the domain model. The front end turns input into
//! [`Actions`](crate::game::actions::Actions); [`Game`](crate::game::Game)
//! applies actions and runs the daily tick.

use crate::game::balance::Balance;
use crate::game::building::{
    cap_all, clamped, count_kind, crews_valid, lemma_crews_stay_valid, lemma_spread, lemma_total_is_production, lemma_cap_all_total, lemma_drain, lemma_staffed_le_count,
    spread, staffed_kind, total_workers, workers_kind, Building, BuildingKind, BuildingList,
};
use crate::game::resource::ResourceKind;
use crate::text::{decimal, push_str, push_usize};
use vstd::prelude::*;

verus! {

/// The player's settlement: inventory, population caps, and building instances.
pub struct Colony {
    /// Display name (UI / logs).
    pub name: String,
    /// Current wood stockpile.
    pub wood: usize,
    /// Current stone stockpile.
    pub stone: usize,
    /// Current food in storage (subject to `max_food` and daily consumption).
    pub food: usize,
    /// Living settlers. Each assigned worker counts against this; gathering uses the rest.
    pub population: usize,
    /// Housing cap; increased by huts.
    pub max_population: usize,
    /// Food storage cap; increased by barns. Excess food spoils at end of tick.
    pub max_food: usize,
    /// Current days of starvation before death.
    pub starvation_days: usize,
    /// All built structures and their per-instance worker assignments.
    pub buildings: BuildingList,
}

/// `a - b`, or 0 when `b > a` (what `usize::saturating_sub` gives).
pub open spec fn sat_sub(a: int, b: int) -> int {
    if a > b {
        a - b
    } else {
        0
    }
}

/// The gather formula: `base + pop × percent / 100`.
pub open spec fn gather_formula(base: int, pop: int, percent: int) -> int {
    base + pop * percent / 100
}

/// Workers on the production kinds other than `kind`.
pub open spec fn other_workers(s: Seq<Building>, kind: BuildingKind) -> int {
    (if kind != BuildingKind::Farm {
        workers_kind(s, BuildingKind::Farm) as int
    } else {
        0
    }) + (if kind != BuildingKind::LumberYard {
        workers_kind(s, BuildingKind::LumberYard) as int
    } else {
        0
    }) + (if kind != BuildingKind::StoneQuarry {
        workers_kind(s, BuildingKind::StoneQuarry) as int
    } else {
        0
    })
}

/// The three production kinds together hold at most all workers.
pub proof fn lemma_production_workers_le_total(s: Seq<Building>)
    ensures
        workers_kind(s, BuildingKind::Farm) + workers_kind(s, BuildingKind::LumberYard)
            + workers_kind(s, BuildingKind::StoneQuarry) <= total_workers(s),
    decreases s.len(),
{
    if s.len() > 0 {
        lemma_production_workers_le_total(s.drop_last());
    }
}

/// Settler count of an understaffing warning, or none for this kind.
pub open spec fn understaffed_line(
    s: Seq<Building>,
    kind: BuildingKind,
    balance: &Balance,
) -> Option<Seq<char>> {
    let total = count_kind(s, kind);
    let needed = (total * kind.required(&balance.buildings)) as nat;
    let assigned = workers_kind(s, kind);
    if total == 0 || assigned >= needed {
        None
    } else {
        let idle = (total - staffed_kind(s, kind, &balance.buildings)) as nat;
        let (name, unit) = if kind == BuildingKind::Farm {
            ("farm"@, "farm"@)
        } else if kind == BuildingKind::LumberYard {
            ("lumber yard"@, "yard"@)
        } else {
            ("quarry"@, "quarry"@)
        };
        Some(
            decimal(idle) + " "@ + name + "(s) idle: "@ + decimal(assigned) + "/"@ + decimal(
                needed,
            ) + " workers assigned (need "@ + decimal(kind.required(&balance.buildings) as nat)
                + " per "@ + unit + ")"@,
        )
    }
}

/// The lines of an `Option`, kept in order.
pub open spec fn present_lines(
    a: Option<Seq<char>>,
    b: Option<Seq<char>>,
    c: Option<Seq<char>>,
) -> Seq<Seq<char>> {
    (if a is Some {
        seq![a->0]
    } else {
        seq![]
    }) + (if b is Some {
        seq![b->0]
    } else {
        seq![]
    }) + (if c is Some {
        seq![c->0]
    } else {
        seq![]
    })
}

impl Colony {
    /// Settlers assigned to buildings.
    pub open spec fn assigned(&self) -> nat {
        total_workers(self.buildings@)
    }

    /// Settlers not assigned to any building.
    pub open spec fn free(&self) -> int {
        sat_sub(self.population as int, self.assigned() as int)
    }

    /// Worker sums fit in `usize`.
    pub open spec fn sums_fit(&self) -> bool {
        total_workers(self.buildings@) <= usize::MAX
    }

    /// Slot counts of the production kinds fit in `usize`.
    pub open spec fn slots_fit(&self, balance: &Balance) -> bool {
        &&& count_kind(self.buildings@, BuildingKind::Farm) * BuildingKind::Farm.required(
            &balance.buildings,
        ) <= usize::MAX
        &&& count_kind(self.buildings@, BuildingKind::LumberYard)
            * BuildingKind::LumberYard.required(&balance.buildings) <= usize::MAX
        &&& count_kind(self.buildings@, BuildingKind::StoneQuarry)
            * BuildingKind::StoneQuarry.required(&balance.buildings) <= usize::MAX
    }

    /// What `gather_yield(kind)` computes: nothing without free settlers.
    pub open spec fn yield_of(&self, kind: ResourceKind, balance: &Balance) -> int {
        if self.free() == 0 {
            0
        } else {
            gather_formula(balance.gather.base_of(kind) as int, self.free(), kind.percent() as int)
        }
    }

    /// The yield formula for `kind` does not overflow.
    pub open spec fn yield_fits(&self, kind: ResourceKind, balance: &Balance) -> bool {
        &&& self.free() * kind.percent() <= usize::MAX
        &&& self.yield_of(kind, balance) <= usize::MAX
    }

    /// What one `gather(kind)` adds: the yield, with food capped by free storage.
    pub open spec fn gain_of(&self, kind: ResourceKind, balance: &Balance) -> int {
        if kind == ResourceKind::Food {
            let space = sat_sub(self.max_food as int, self.food as int);
            if self.yield_of(kind, balance) < space {
                self.yield_of(kind, balance)
            } else {
                space
            }
        } else {
            self.yield_of(kind, balance)
        }
    }

    /// The stock of `kind`.
    pub open spec fn stock(&self, kind: ResourceKind) -> usize {
        match kind {
            ResourceKind::Wood => self.wood,
            ResourceKind::Stone => self.stone,
            ResourceKind::Food => self.food,
        }
    }

    /// The colony with the stock of `kind` set to `v`.
    pub open spec fn with_stock(self, kind: ResourceKind, v: usize) -> Colony {
        match kind {
            ResourceKind::Wood => Colony { wood: v, ..self },
            ResourceKind::Stone => Colony { stone: v, ..self },
            ResourceKind::Food => Colony { food: v, ..self },
        }
    }

    /// Daily output of the staffed instances of `kind`.
    pub open spec fn passive_of(&self, kind: BuildingKind, balance: &Balance) -> int {
        staffed_kind(self.buildings@, kind, &balance.buildings) * kind.output(&balance.buildings)
    }

    /// The colony after a successful `build(kind)`.
    pub open spec fn built(self, kind: BuildingKind, balance: &Balance) -> Colony {
        let b = &balance.buildings;
        Colony {
            wood: (self.wood - kind.wood_cost(b)) as usize,
            stone: (self.stone - kind.stone_cost(b)) as usize,
            max_population: if kind == BuildingKind::Hut {
                (self.max_population + b.hut_max_population_increase) as usize
            } else {
                self.max_population
            },
            max_food: if kind == BuildingKind::Barn {
                (self.max_food + b.barn_max_food_storage_increase) as usize
            } else {
                self.max_food
            },
            ..self
        }
    }

    /// Food that end-of-day production adds (capped by free storage).
    pub open spec fn passive_food_added(&self, balance: &Balance) -> int {
        let gain = self.passive_of(BuildingKind::Farm, balance);
        let space = sat_sub(self.max_food as int, self.food as int);
        if gain < space {
            gain
        } else {
            space
        }
    }

    /// Built instances of `kind`.
    pub fn count(&self, kind: BuildingKind) -> (r: usize)
        ensures
            r == count_kind(self.buildings@, kind),
    {
        self.buildings.count(kind)
    }

    /// Total settlers assigned to all instances of `kind`.
    pub fn workers_on(&self, kind: BuildingKind) -> (r: usize)
        requires
            self.sums_fit(),
        ensures
            r == workers_kind(self.buildings@, kind),
    {
        self.buildings.workers_on(kind)
    }

    /// Maximum workers assignable to `kind` (sum of slots on all instances).
    pub fn workers_needed(&self, kind: BuildingKind, balance: &Balance) -> (r: usize)
        requires
            count_kind(self.buildings@, kind) * kind.required(&balance.buildings) <= usize::MAX,
        ensures
            r == count_kind(self.buildings@, kind) * kind.required(&balance.buildings),
    {
        self.buildings.workers_needed(kind, &balance.buildings)
    }

    /// How many instances of `kind` are fully staffed and producing.
    pub fn staffed(&self, kind: BuildingKind, balance: &Balance) -> (r: usize)
        ensures
            r == staffed_kind(self.buildings@, kind, &balance.buildings),
    {
        self.buildings.staffed(kind, &balance.buildings)
    }

    /// Settlers not assigned to any building — only these can gather.
    pub fn free_workers(&self) -> (r: usize)
        requires
            self.sums_fit(),
        ensures
            r == self.free(),
    {
        self.population.saturating_sub(self.buildings.total_assigned())
    }

    /// Total settlers assigned across all buildings.
    pub fn assigned_workers(&self) -> (r: usize)
        requires
            self.sums_fit(),
        ensures
            r == self.assigned(),
    {
        self.buildings.total_assigned()
    }

    /// `w <kind> <count>`: set total workers on a production type.
    ///
    /// Validates against slot capacity and total population (including other
    /// kinds), then distributes across instances via
    /// [`BuildingList::set_workers_on_kind`].
    pub fn set_workers(&mut self, kind: BuildingKind, count: usize, balance: &Balance) -> (r:
        Result<(), &'static str>)
        requires
            old(self).sums_fit(),
            kind.employs() ==> count_kind(old(self).buildings@, kind) * kind.required(
                &balance.buildings,
            ) <= usize::MAX,
        ensures
            !kind.employs() ==> r == Err::<(), &'static str>("That building does not use workers.")
                && *final(self) == *old(self),
            kind.employs() && count > count_kind(old(self).buildings@, kind) * kind.required(
                &balance.buildings,
            ) ==> r == Err::<(), &'static str>("Too many workers for that building type.")
                && *final(self) == *old(self),
            kind.employs() && count <= count_kind(old(self).buildings@, kind) * kind.required(
                &balance.buildings,
            ) && other_workers(old(self).buildings@, kind) + count > old(self).population ==> r
                == Err::<(), &'static str>(
                "Not enough settlers — lower another assignment or grow population.",
            ) && *final(self) == *old(self),
            kind.employs() && count <= count_kind(old(self).buildings@, kind) * kind.required(
                &balance.buildings,
            ) && other_workers(old(self).buildings@, kind) + count <= old(self).population ==> r
                == Ok::<(), &'static str>(()) && final(self).buildings@ == spread(
                old(self).buildings@,
                kind,
                kind.required(&balance.buildings) as nat,
                count as nat,
            ) && *final(self) == (Colony { buildings: final(self).buildings, ..*old(self) }),
            r is Ok ==> final(self).assigned() <= final(self).population,
    {
        if !kind.employs_workers() {
            return Err("That building does not use workers.");
        }
        let max = self.workers_needed(kind, balance);
        if count > max {
            return Err("Too many workers for that building type.");
        }
        proof {
            lemma_production_workers_le_total(self.buildings@);
        }
        let mut other: usize = 0;
        if kind != BuildingKind::Farm {
            other = other + self.workers_on(BuildingKind::Farm);
        }
        if kind != BuildingKind::LumberYard {
            other = other + self.workers_on(BuildingKind::LumberYard);
        }
        if kind != BuildingKind::StoneQuarry {
            other = other + self.workers_on(BuildingKind::StoneQuarry);
        }
        if count > self.population || other > self.population - count {
            return Err("Not enough settlers — lower another assignment or grow population.");
        }
        proof {
            use_type_invariant(&self.buildings);
            lemma_assignment_within_population(self, balance, kind, count as nat);
        }
        self.buildings.set_workers_on_kind(kind, count, &balance.buildings);
        Ok(())
    }

    /// Trim invalid assignments after a population drop or a new production building.
    pub fn clamp_workers(&mut self, balance: &Balance)
        requires
            old(self).sums_fit(),
        ensures
            final(self).buildings@ == clamped(
                old(self).buildings@,
                &balance.buildings,
                old(self).population as nat,
            ),
            *final(self) == (Colony { buildings: final(self).buildings, ..*old(self) }),
            final(self).sums_fit(),
            final(self).assigned() <= final(self).population,
    {
        proof {
            use_type_invariant(&self.buildings);
        }
        let pop = self.population;
        self.buildings.clamp_workers(&balance.buildings, pop);
        proof {
            lemma_crews_stay_valid(old(self).buildings@, BuildingKind::Hut, &balance.buildings, 0, pop as nat);
            lemma_drain(cap_all(old(self).buildings@, &balance.buildings), pop as nat);
            lemma_cap_all_total(old(self).buildings@, &balance.buildings);
        }
    }

    /// Appends one understaffing warning for `kind`, if it has one.
    fn push_understaffed(&self, kind: BuildingKind, balance: &Balance, messages: &mut Vec<String>)
        requires
            self.sums_fit(),
            self.slots_fit(balance),
            kind.employs(),
        ensures
            final(messages)@.map_values(|m: String| m@) == old(messages)@.map_values(
                |m: String| m@,
            ) + match understaffed_line(self.buildings@, kind, balance) {
                Some(l) => seq![l],
                None => seq![],
            },
    {
        let total = self.count(kind);
        if total == 0 {
            assert(old(messages)@.map_values(|m: String| m@) + seq![] =~= messages@.map_values(
                |m: String| m@,
            ));
            return;
        }
        let needed = self.workers_needed(kind, balance);
        let assigned = self.workers_on(kind);
        if assigned >= needed {
            assert(old(messages)@.map_values(|m: String| m@) + seq![] =~= messages@.map_values(
                |m: String| m@,
            ));
            return;
        }
        proof {
            lemma_staffed_le_count(self.buildings@, kind, &balance.buildings);
        }
        let idle = total - self.staffed(kind, balance);
        let per_building = kind.workers_required(&balance.buildings);
        let (name, unit) = match kind {
            BuildingKind::Farm => ("farm", "farm"),
            BuildingKind::LumberYard => ("lumber yard", "yard"),
            _ => ("quarry", "quarry"),
        };
        let mut m = String::new();
        push_usize(&mut m, idle);
        push_str(&mut m, " ");
        push_str(&mut m, name);
        push_str(&mut m, "(s) idle: ");
        push_usize(&mut m, assigned);
        push_str(&mut m, "/");
        push_usize(&mut m, needed);
        push_str(&mut m, " workers assigned (need ");
        push_usize(&mut m, per_building);
        push_str(&mut m, " per ");
        push_str(&mut m, unit);
        push_str(&mut m, ")");
        let ghost line = understaffed_line(self.buildings@, kind, balance);
        assert(line is Some);
        assert(m@ =~= line->0);
        let ghost before = messages@.map_values(|s: String| s@);
        messages.push(m);
        assert(messages@.map_values(|s: String| s@) =~= before + seq![line->0]);
    }

    /// Human-readable warnings for production buildings that are built but
    /// not fully staffed (farms, then lumber yards, then quarries).
    pub fn understaffed_messages(&self, balance: &Balance) -> (r: Vec<String>)
        requires
            self.sums_fit(),
            self.slots_fit(balance),
        ensures
            r@.map_values(|m: String| m@) == present_lines(
                understaffed_line(self.buildings@, BuildingKind::Farm, balance),
                understaffed_line(self.buildings@, BuildingKind::LumberYard, balance),
                understaffed_line(self.buildings@, BuildingKind::StoneQuarry, balance),
            ),
    {
        let mut messages: Vec<String> = Vec::new();
        assert(messages@.map_values(|m: String| m@) =~= Seq::<Seq<char>>::empty());
        self.push_understaffed(BuildingKind::Farm, balance, &mut messages);
        self.push_understaffed(BuildingKind::LumberYard, balance, &mut messages);
        self.push_understaffed(BuildingKind::StoneQuarry, balance, &mut messages);
        assert(messages@.map_values(|m: String| m@) =~= present_lines(
            understaffed_line(self.buildings@, BuildingKind::Farm, balance),
            understaffed_line(self.buildings@, BuildingKind::LumberYard, balance),
            understaffed_line(self.buildings@, BuildingKind::StoneQuarry, balance),
        ));
        messages
    }

    /// Expected gather yield for `kind` from current free settlers (does not mutate state).
    pub fn gather_yield(&self, kind: ResourceKind, balance: &Balance) -> (r: usize)
        requires
            self.sums_fit(),
            self.yield_fits(kind, balance),
        ensures
            r == self.yield_of(kind, balance),
    {
        let free = self.free_workers();
        if free == 0 {
            return 0;
        }
        Self::yield_from_pop(balance.gather.base(kind), free, kind.gather_percent())
    }

    /// Wood one `g wood` would bring.
    pub fn wood_yield(&self, balance: &Balance) -> (r: usize)
        requires
            self.sums_fit(),
            self.yield_fits(ResourceKind::Wood, balance),
        ensures
            r == self.yield_of(ResourceKind::Wood, balance),
    {
        self.gather_yield(ResourceKind::Wood, balance)
    }

    /// Stone one `g stone` would bring.
    pub fn stone_yield(&self, balance: &Balance) -> (r: usize)
        requires
            self.sums_fit(),
            self.yield_fits(ResourceKind::Stone, balance),
        ensures
            r == self.yield_of(ResourceKind::Stone, balance),
    {
        self.gather_yield(ResourceKind::Stone, balance)
    }

    /// Food one `g food` would gather before storage is considered.
    pub fn food_yield(&self, balance: &Balance) -> (r: usize)
        requires
            self.sums_fit(),
            self.yield_fits(ResourceKind::Food, balance),
        ensures
            r == self.yield_of(ResourceKind::Food, balance),
    {
        self.gather_yield(ResourceKind::Food, balance)
    }

    /// Active gathering (`g wood`, etc.): uses free settlers only.
    /// Food is capped by free storage.
    pub fn gather(&mut self, kind: ResourceKind, balance: &Balance) -> (r: Result<usize, &'static str>)
        requires
            old(self).sums_fit(),
            old(self).yield_fits(kind, balance),
            old(self).stock(kind) + old(self).gain_of(kind, balance) <= usize::MAX,
        ensures
            old(self).free() == 0 ==> r == Err::<usize, &'static str>(
                "No free settlers — everyone works at buildings. Grow population or leave fewer workers assigned.",
            ) && *final(self) == *old(self),
            old(self).free() > 0 ==> r == Ok::<usize, &'static str>(
                old(self).gain_of(kind, balance) as usize,
            ) && *final(self) == old(self).with_stock(
                kind,
                (old(self).stock(kind) + old(self).gain_of(kind, balance)) as usize,
            ),
    {
        if self.free_workers() == 0 {
            return Err(
                "No free settlers — everyone works at buildings. Grow population or leave fewer workers assigned.",
            );
        }
        let gather_yield = match kind {
            ResourceKind::Food => {
                let y = self.gather_yield(kind, balance);
                let space = self.max_food.saturating_sub(self.food);
                if y < space {
                    y
                } else {
                    space
                }
            },
            _ => self.gather_yield(kind, balance),
        };
        match kind {
            ResourceKind::Wood => self.wood = self.wood + gather_yield,
            ResourceKind::Stone => self.stone = self.stone + gather_yield,
            ResourceKind::Food => self.food = self.food + gather_yield,
        }
        Ok(gather_yield)
    }

    /// Construct one building: pay costs, add instance, apply hut/barn cap bonuses.
    pub fn build(&mut self, kind: BuildingKind, balance: &Balance) -> (r: Result<usize, &'static str>)
        requires
            kind == BuildingKind::Hut ==> old(self).max_population
                + balance.buildings.hut_max_population_increase <= usize::MAX,
            kind == BuildingKind::Barn ==> old(self).max_food
                + balance.buildings.barn_max_food_storage_increase <= usize::MAX,
        ensures
            old(self).wood < kind.wood_cost(&balance.buildings) ==> r == Err::<
                usize,
                &'static str,
            >("Not enough wood for this building!") && *final(self) == *old(self),
            old(self).wood >= kind.wood_cost(&balance.buildings) && old(self).stone
                < kind.stone_cost(&balance.buildings) ==> r == Err::<usize, &'static str>(
                "Not enough stone for this building!",
            ) && *final(self) == *old(self),
            old(self).wood >= kind.wood_cost(&balance.buildings) && old(self).stone
                >= kind.stone_cost(&balance.buildings) ==> r == Ok::<usize, &'static str>(1)
                && final(self).buildings@ == old(self).buildings@.push(
                Building { kind, assigned: 0 },
            ) && *final(self) == (Colony {
                buildings: final(self).buildings,
                ..old(self).built(kind, balance)
            }),
    {
        let wood_cost = kind.build_wood_cost(&balance.buildings);
        let stone_cost = kind.build_stone_cost(&balance.buildings);
        if self.wood < wood_cost {
            return Err("Not enough wood for this building!");
        }
        if self.stone < stone_cost {
            return Err("Not enough stone for this building!");
        }
        self.wood = self.wood - wood_cost;
        self.stone = self.stone - stone_cost;
        self.buildings.add(kind);
        match kind {
            BuildingKind::Hut => {
                self.max_population = self.max_population
                    + balance.buildings.hut_max_population_increase;
            },
            BuildingKind::Barn => {
                self.max_food = self.max_food + balance.buildings.barn_max_food_storage_increase;
            },
            _ => {},
        }
        Ok(1)
    }

    /// Daily passive wood from fully staffed lumber yards.
    pub fn passive_wood(&self, balance: &Balance) -> (r: usize)
        requires
            self.passive_of(BuildingKind::LumberYard, balance) <= usize::MAX,
        ensures
            r == self.passive_of(BuildingKind::LumberYard, balance),
    {
        self.staffed(BuildingKind::LumberYard, balance) * BuildingKind::LumberYard.passive_output(
            &balance.buildings,
        )
    }

    /// Daily passive stone from fully staffed quarries.
    pub fn passive_stone(&self, balance: &Balance) -> (r: usize)
        requires
            self.passive_of(BuildingKind::StoneQuarry, balance) <= usize::MAX,
        ensures
            r == self.passive_of(BuildingKind::StoneQuarry, balance),
    {
        self.staffed(BuildingKind::StoneQuarry, balance)
            * BuildingKind::StoneQuarry.passive_output(&balance.buildings)
    }

    /// Daily passive food from fully staffed farms.
    pub fn passive_food(&self, balance: &Balance) -> (r: usize)
        requires
            self.passive_of(BuildingKind::Farm, balance) <= usize::MAX,
        ensures
            r == self.passive_of(BuildingKind::Farm, balance),
    {
        self.staffed(BuildingKind::Farm, balance) * BuildingKind::Farm.passive_output(
            &balance.buildings,
        )
    }

    /// Apply end-of-day production; food gain is capped by remaining storage.
    /// Returns `(wood, stone, food_added, food_lost)`.
    pub fn apply_passive_income(&mut self, balance: &Balance) -> (r: (usize, usize, usize, usize))
        requires
            old(self).passive_of(BuildingKind::LumberYard, balance) <= usize::MAX,
            old(self).passive_of(BuildingKind::StoneQuarry, balance) <= usize::MAX,
            old(self).passive_of(BuildingKind::Farm, balance) <= usize::MAX,
            old(self).wood + old(self).passive_of(BuildingKind::LumberYard, balance) <= usize::MAX,
            old(self).stone + old(self).passive_of(BuildingKind::StoneQuarry, balance)
                <= usize::MAX,
        ensures
            r.0 == old(self).passive_of(BuildingKind::LumberYard, balance),
            r.1 == old(self).passive_of(BuildingKind::StoneQuarry, balance),
            r.2 == old(self).passive_food_added(balance),
            r.3 == old(self).passive_of(BuildingKind::Farm, balance) - old(self).passive_food_added(
                balance,
            ),
            *final(self) == (Colony {
                wood: (old(self).wood + r.0) as usize,
                stone: (old(self).stone + r.1) as usize,
                food: (old(self).food + r.2) as usize,
                ..*old(self)
            }),
    {
        let wood = self.passive_wood(balance);
        let stone = self.passive_stone(balance);
        let food_gain = self.passive_food(balance);
        let space = self.max_food.saturating_sub(self.food);
        let food = if food_gain < space {
            food_gain
        } else {
            space
        };
        let food_lost = food_gain.saturating_sub(food);
        self.food = self.food + food;
        self.wood = self.wood + wood;
        self.stone = self.stone + stone;
        (wood, stone, food, food_lost)
    }

    /// Gather formula: `base + pop × percent / 100`.
    pub fn yield_from_pop(base: usize, pop: usize, percent: usize) -> (r: usize)
        requires
            pop * percent <= usize::MAX,
            gather_formula(base as int, pop as int, percent as int) <= usize::MAX,
        ensures
            r == gather_formula(base as int, pop as int, percent as int),
    {
        base + pop * percent / 100
    }

    /// The starting colony.
    pub open spec fn is_start(&self) -> bool {
        &&& self.name@ == "Default colony"@
        &&& self.wood == 50
        &&& self.stone == 30
        &&& self.food == 20
        &&& self.population == 5
        &&& self.max_population == 5
        &&& self.max_food == 25
        &&& self.starvation_days == 0
        &&& self.buildings@ == seq![Building { kind: BuildingKind::Hut, assigned: 0 }]
    }
}

impl Default for Colony {
    fn default() -> (c: Self)
        ensures
            c.is_start(),
    {
        let mut buildings = BuildingList::default();
        buildings.add(BuildingKind::Hut);
        let mut name = String::new();
        push_str(&mut name, "Default colony");
        assert(name@ =~= "Default colony"@);
        Colony {
            name,
            wood: 50,
            stone: 30,
            food: 20,
            population: 5,
            max_population: 5,
            max_food: 25,
            starvation_days: 0,
            buildings,
        }
    }
}

/// Free and assigned settlers make up the population while no more are
/// assigned than live.
pub proof fn lemma_free_and_assigned(c: &Colony)
    ensures
        c.assigned() <= c.population ==> c.free() + c.assigned() == c.population,
        c.assigned() > c.population ==> c.free() == 0,
{
}

/// Gathering food never fills storage beyond its cap.
pub proof fn lemma_gathered_food_fits_storage(c: &Colony, b: &Balance)
    requires
        c.food <= c.max_food,
        c.yield_of(ResourceKind::Food, b) >= 0,
    ensures
        c.food + c.gain_of(ResourceKind::Food, b) <= c.max_food,
        c.gain_of(ResourceKind::Food, b) >= 0,
{
}

/// Without free settlers nothing can be gathered.
pub proof fn lemma_no_free_no_yield(c: &Colony, b: &Balance, kind: ResourceKind)
    ensures
        c.free() == 0 ==> c.yield_of(kind, b) == 0,
{
}

/// A successful `w <kind> <count>` never puts more settlers to work than
/// live, as long as huts and barns have nobody (which they never do).
pub proof fn lemma_assignment_within_population(
    c: &Colony,
    b: &Balance,
    kind: BuildingKind,
    count: nat,
)
    requires
        crews_valid(c.buildings@),
        kind.employs(),
        count <= count_kind(c.buildings@, kind) * kind.required(&b.buildings),
        other_workers(c.buildings@, kind) + count <= c.population,
    ensures
        crews_valid(spread(c.buildings@, kind, kind.required(&b.buildings) as nat, count)),
        total_workers(spread(c.buildings@, kind, kind.required(&b.buildings) as nat, count))
            <= c.population,
{
    let s = c.buildings@;
    let req = kind.required(&b.buildings) as nat;
    lemma_crews_stay_valid(s, kind, &b.buildings, count, 0);
    lemma_spread(s, kind, req, count);
    lemma_total_is_production(spread(s, kind, req, count));
}

/// The base of the gather formula for `kind`, read off the balance.
pub open spec fn gather_base(b: &Balance, kind: ResourceKind) -> int {
    match kind {
        ResourceKind::Wood => b.gather.gather_wood_base as int,
        ResourceKind::Stone => b.gather.gather_stone_base as int,
        ResourceKind::Food => b.gather.gather_food_base as int,
    }
}

/// A successful gather of wood or stone adds exactly the yield to that stock,
/// whatever the food storage; a gather of food adds the yield cut to the free
/// storage. The yield is the kind's base plus `free × percent / 100` (40 for
/// wood, 33 for stone, 50 for food). Nothing else of the colony changes.
pub proof fn lemma_gather_adds_yield(c0: &Colony, c1: &Colony, b: &Balance, kind: ResourceKind)
    requires
        c0.free() > 0,
        *c1 == c0.with_stock(kind, (c0.stock(kind) + c0.gain_of(kind, b)) as usize),
        c0.stock(kind) + c0.gain_of(kind, b) <= usize::MAX,
    ensures
        ({
            let pct: int = if kind == ResourceKind::Wood {
                40
            } else if kind == ResourceKind::Stone {
                33
            } else {
                50
            };
            let y = gather_base(b, kind) + c0.free() * pct / 100;
            let room = if c0.max_food >= c0.food {
                c0.max_food - c0.food
            } else {
                0
            };
            &&& kind == ResourceKind::Wood ==> c1.wood == c0.wood + y && c1.stone == c0.stone
                && c1.food == c0.food
            &&& kind == ResourceKind::Stone ==> c1.stone == c0.stone + y && c1.wood == c0.wood
                && c1.food == c0.food
            &&& kind == ResourceKind::Food ==> c1.food == c0.food + (if y < room {
                y
            } else {
                room
            }) && c1.wood == c0.wood && c1.stone == c0.stone
            &&& c1.population == c0.population && c1.max_food == c0.max_food
                && c1.max_population == c0.max_population && c1.buildings == c0.buildings
        }),
{
}

/// The wood and stone a build of `kind` costs, read off the balance.
pub open spec fn build_price(b: &Balance, kind: BuildingKind) -> (usize, usize) {
    let x = &b.buildings;
    match kind {
        BuildingKind::Hut => (x.build_hut_wood_cost, x.build_hut_stone_cost),
        BuildingKind::Barn => (x.build_barn_wood_cost, x.build_barn_stone_cost),
        BuildingKind::Farm => (x.build_farm_wood_cost, x.build_farm_stone_cost),
        BuildingKind::LumberYard => (x.build_lumber_yard_wood_cost, x.build_lumber_yard_stone_cost),
        BuildingKind::StoneQuarry => (x.build_stone_quarry_wood_cost, x.build_stone_quarry_stone_cost),
    }
}

/// A build that can be paid takes exactly its price in wood and in stone,
/// raises the housing cap only for a hut and the food cap only for a barn,
/// and changes nothing else of the colony but the building list.
pub proof fn lemma_build_pays_price(c0: &Colony, c1: &Colony, b: &Balance, kind: BuildingKind)
    requires
        c0.wood >= build_price(b, kind).0,
        c0.stone >= build_price(b, kind).1,
        kind == BuildingKind::Hut ==> c0.max_population + b.buildings.hut_max_population_increase
            <= usize::MAX,
        kind == BuildingKind::Barn ==> c0.max_food + b.buildings.barn_max_food_storage_increase
            <= usize::MAX,
        *c1 == (Colony { buildings: c1.buildings, ..c0.built(kind, b) }),
    ensures
        c1.wood == c0.wood - build_price(b, kind).0,
        c1.stone == c0.stone - build_price(b, kind).1,
        c1.max_population == c0.max_population + (if kind == BuildingKind::Hut {
            b.buildings.hut_max_population_increase as int
        } else {
            0
        }),
        c1.max_food == c0.max_food + (if kind == BuildingKind::Barn {
            b.buildings.barn_max_food_storage_increase as int
        } else {
            0
        }),
        c1.food == c0.food,
        c1.population == c0.population,
        c1.starvation_days == c0.starvation_days,
{
}

} // verus!
