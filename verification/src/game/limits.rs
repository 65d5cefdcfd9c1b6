//! Range checks for the front end. Each says, before a call, whether the
//! call's sums and products stay within `usize`, so that the front end can
//! stop where the arithmetic would overflow.

use crate::game::actions::Actions;
use crate::game::balance::Balance;
use crate::game::building::{
    clamped, count_kind, lemma_clamp_bounds, lemma_count_push, lemma_count_same_kinds,
    lemma_spread, lemma_staffed_le_count, lemma_total_spread, spread, staffed_kind, total_workers,
    workers_kind, Building, BuildingKind,
};
use crate::game::colony::Colony;
use crate::game::resource::ResourceKind;
use crate::game::{after_build, assignable, evening_fits, morning, output_of, slots_fit_in, Game};
use vstd::prelude::*;

verus! {

/// `a * x <= b * x` for `a <= b`.
pub proof fn lemma_mul_le(a: nat, b: nat, x: nat)
    requires
        a <= b,
    ensures
        a * x <= b * x,
{
    assert(a * x <= b * x) by (nonlinear_arith)
        requires
            a <= b,
    ;
}

impl Colony {
    /// Whether the crews can be summed in `usize`.
    pub fn crews_in_range(&self) -> (r: bool)
        ensures
            r == self.sums_fit(),
    {
        self.buildings.checked_total().is_some()
    }

    /// Whether the slots of the instances of `kind` can be counted in `usize`.
    fn slots_of_in_range(&self, kind: BuildingKind, balance: &Balance, extra: usize) -> (r: bool)
        requires
            extra <= 1,
        ensures
            r == ((count_kind(self.buildings@, kind) + extra) * kind.required(&balance.buildings)
                <= usize::MAX),
    {
        let n = self.count(kind);
        match n.checked_add(extra) {
            Some(m) => m.checked_mul(kind.workers_required(&balance.buildings)).is_some(),
            None => {
                proof {
                    lemma_mul_le(
                        usize::MAX as nat + 1,
                        (n + extra) as nat,
                        kind.required(&balance.buildings) as nat,
                    );
                }
                kind.workers_required(&balance.buildings) == 0
            },
        }
    }

    /// Whether the slot counts of the production kinds fit in `usize`.
    pub fn slots_in_range(&self, balance: &Balance) -> (r: bool)
        ensures
            r == self.slots_fit(balance),
    {
        self.slots_of_in_range(BuildingKind::Farm, balance, 0) && self.slots_of_in_range(
            BuildingKind::LumberYard,
            balance,
            0,
        ) && self.slots_of_in_range(BuildingKind::StoneQuarry, balance, 0)
    }

    /// Whether the yield formula of `kind` stays within `usize`.
    pub fn yield_in_range(&self, kind: ResourceKind, balance: &Balance) -> (r: bool)
        requires
            self.sums_fit(),
        ensures
            r == self.yield_fits(kind, balance),
    {
        let free = self.free_workers();
        match free.checked_mul(kind.gather_percent()) {
            Some(p) => balance.gather.base(kind).checked_add(p / 100).is_some(),
            None => false,
        }
    }

    /// Whether the daily output of `kind` fits in `usize`.
    pub fn passive_in_range(&self, kind: BuildingKind, balance: &Balance) -> (r: bool)
        ensures
            r == (self.passive_of(kind, balance) <= usize::MAX),
    {
        self.staffed(kind, balance).checked_mul(kind.passive_output(&balance.buildings)).is_some()
    }

    /// Whether `stock + count(kind) * output` fits in `usize`.
    fn stock_and_output_in_range(&self, stock: usize, kind: BuildingKind, balance: &Balance) -> (r:
        bool)
        ensures
            r == (stock + count_kind(self.buildings@, kind) * kind.output(&balance.buildings)
                <= usize::MAX),
    {
        match self.count(kind).checked_mul(kind.passive_output(&balance.buildings)) {
            Some(p) => stock.checked_add(p).is_some(),
            None => false,
        }
    }
}

/// The sums `day_in_range` tests: the crews, a day of hunger, a birth, and
/// each stock plus the output of every building of its kind as if fully
/// staffed.
pub open spec fn day_bounds_fit(g: &Game) -> bool {
    let c = &g.colony;
    let p = &g.balance.population;
    let x = &g.balance.buildings;
    let s = c.buildings@;
    &&& c.sums_fit()
    &&& c.food < c.population ==> c.starvation_days < usize::MAX
    &&& c.population < c.max_population ==> c.population + p.increase_cost <= usize::MAX
    &&& count_kind(s, BuildingKind::Farm) * BuildingKind::Farm.output(x) <= usize::MAX
    &&& c.wood + count_kind(s, BuildingKind::LumberYard) * BuildingKind::LumberYard.output(x)
        <= usize::MAX
    &&& c.stone + count_kind(s, BuildingKind::StoneQuarry) * BuildingKind::StoneQuarry.output(x)
        <= usize::MAX
}

/// `(count(kind) + 1) × required(kind)` fits in `usize`: the slots after one
/// more instance of `kind`.
pub open spec fn slots_after_one_more_fit(c: &Colony, b: &Balance, kind: BuildingKind) -> bool {
    (count_kind(c.buildings@, kind) + 1) * kind.required(&b.buildings) <= usize::MAX
}

/// The sums `action_in_range` tests for `action`.
pub open spec fn action_bounds_fit(g: &Game, action: Actions) -> bool {
    let c = &g.colony;
    let b = &g.balance;
    match action {
        Actions::Gather(kind) => {
            &&& c.sums_fit()
            &&& c.yield_fits(kind, b)
            &&& kind == ResourceKind::Wood ==> c.wood + c.yield_of(kind, b) <= usize::MAX
            &&& kind == ResourceKind::Stone ==> c.stone + c.yield_of(kind, b) <= usize::MAX
        },
        Actions::Build(kind) => {
            &&& kind == BuildingKind::Hut ==> c.max_population
                + b.buildings.hut_max_population_increase <= usize::MAX
            &&& kind == BuildingKind::Barn ==> c.max_food + b.buildings.barn_max_food_storage_increase
                <= usize::MAX
            &&& kind.employs() ==> {
                &&& c.sums_fit()
                &&& slots_after_one_more_fit(c, b, BuildingKind::Farm)
                &&& slots_after_one_more_fit(c, b, BuildingKind::LumberYard)
                &&& slots_after_one_more_fit(c, b, BuildingKind::StoneQuarry)
            }
        },
        Actions::SetWorkers { kind, count } => {
            &&& c.sums_fit()
            &&& kind.employs() ==> c.slots_fit(b)
            &&& total_workers(c.buildings@) + count <= usize::MAX
        },
        _ => true,
    }
}

/// Where the sums of `day_bounds_fit` fit, a day fits whatever the rolls.
pub proof fn lemma_day_bounds(g: &Game)
    requires
        day_bounds_fit(g),
    ensures
        forall|b: nat, d: nat| b < 100 && d < 100 ==> #[trigger] g.day_fits(b, d),
{
    let c = &g.colony;
    let p = &g.balance.population;
        let s = c.settlement();
    assert forall|b: nat, d: nat| b < 100 && d < 100 implies #[trigger] g.day_fits(
        b,
        d,
    ) by {
        let m = morning(s, p, b, d).0;
        let crews = clamped(m.buildings, &g.balance.buildings, m.population);
        lemma_clamp_bounds(m.buildings, &g.balance.buildings, m.population);
        let kinds = seq![
            BuildingKind::Farm,
            BuildingKind::LumberYard,
            BuildingKind::StoneQuarry,
        ];
        assert forall|i: int| 0 <= i < 3 implies output_of(
            crews,
            #[trigger] kinds[i],
            &g.balance,
        ) <= count_kind(s.buildings, kinds[i]) * kinds[i].output(
            &g.balance.buildings,
        ) by {
            let k = kinds[i];
            lemma_count_same_kinds(m.buildings, crews, k);
            lemma_staffed_le_count(crews, k, &g.balance.buildings);
            lemma_mul_le(
                staffed_kind(crews, k, &g.balance.buildings),
                count_kind(crews, k),
                k.output(&g.balance.buildings) as nat,
            );
        }
        assert(output_of(crews, kinds[0], &g.balance) <= count_kind(s.buildings, kinds[0])
            * kinds[0].output(&g.balance.buildings));
        assert(output_of(crews, kinds[1], &g.balance) <= count_kind(s.buildings, kinds[1])
            * kinds[1].output(&g.balance.buildings));
        assert(output_of(crews, kinds[2], &g.balance) <= count_kind(s.buildings, kinds[2])
            * kinds[2].output(&g.balance.buildings));
        assert(evening_fits(m, &g.balance));
    }
}

impl Game {
    /// Whether `tick` stays within `usize`, whatever the rolls. It looks at
    /// every building as if fully staffed, so it may say no a little before
    /// the day itself would overflow.
    pub fn day_in_range(&self) -> (r: bool)
        ensures
            r == day_bounds_fit(self),
            r ==> forall|b: nat, d: nat| b < 100 && d < 100 ==> #[trigger] self.day_fits(b, d),
    {
        let c = &self.colony;
        let p = &self.balance.population;
        if !c.crews_in_range() {
            return false;
        }
        if c.food < c.population && c.starvation_days == usize::MAX {
            return false;
        }
        if c.population < c.max_population && c.population.checked_add(p.increase_cost).is_none() {
            return false;
        }
        if !(c.stock_and_output_in_range(0, BuildingKind::Farm, &self.balance)
            && c.stock_and_output_in_range(c.wood, BuildingKind::LumberYard, &self.balance)
            && c.stock_and_output_in_range(c.stone, BuildingKind::StoneQuarry, &self.balance)) {
            return false;
        }
        proof {
            lemma_day_bounds(self);
        }
        true
    }

    /// Whether `process_action(action)` stays within `usize`. For building
    /// it counts the new instance whether or not it can be paid for.
    pub fn action_in_range(&self, action: Actions) -> (r: bool)
        ensures
            r == action_bounds_fit(self, action),
            r ==> self.action_fits(action),
    {
        let c = &self.colony;
        let b = &self.balance;
        match action {
            Actions::Gather(kind) => {
                if !c.crews_in_range() || !c.yield_in_range(kind, b) {
                    return false;
                }
                match kind {
                    ResourceKind::Wood => c.wood.checked_add(c.wood_yield(b)).is_some(),
                    ResourceKind::Stone => c.stone.checked_add(c.stone_yield(b)).is_some(),
                    ResourceKind::Food => {
                        proof {
                            assert(c.gain_of(kind, b) <= c.max_food - c.food || c.gain_of(kind, b)
                                == 0);
                        }
                        true
                    },
                }
            },
            Actions::Build(kind) => {
                if kind == BuildingKind::Hut && c.max_population.checked_add(
                    b.buildings.hut_max_population_increase,
                ).is_none() {
                    return false;
                }
                if kind == BuildingKind::Barn && c.max_food.checked_add(
                    b.buildings.barn_max_food_storage_increase,
                ).is_none() {
                    return false;
                }
                if !kind.employs_workers() {
                    return true;
                }
                let fits = c.crews_in_range() && c.slots_of_in_range(
                    BuildingKind::Farm,
                    b,
                    1,
                ) && c.slots_of_in_range(BuildingKind::LumberYard, b, 1) && c.slots_of_in_range(
                    BuildingKind::StoneQuarry,
                    b,
                    1,
                );
                proof {
                    if fits {
                        let s = c.buildings@;
                        let made = after_build(c, b, kind);
                        let x = Building { kind, assigned: 0 };
                        assert forall|k: BuildingKind| #![auto]
                            count_kind(made, k) <= count_kind(s, k) + 1 by {
                            lemma_count_push(s, x, k);
                        }
                        lemma_mul_le(
                            count_kind(made, BuildingKind::Farm),
                            count_kind(s, BuildingKind::Farm) + 1,
                            BuildingKind::Farm.required(&b.buildings) as nat,
                        );
                        lemma_mul_le(
                            count_kind(made, BuildingKind::LumberYard),
                            count_kind(s, BuildingKind::LumberYard) + 1,
                            BuildingKind::LumberYard.required(&b.buildings) as nat,
                        );
                        lemma_mul_le(
                            count_kind(made, BuildingKind::StoneQuarry),
                            count_kind(s, BuildingKind::StoneQuarry) + 1,
                            BuildingKind::StoneQuarry.required(&b.buildings) as nat,
                        );
                        assert(slots_fit_in(made, b));
                    }
                }
                fits
            },
            Actions::SetWorkers { kind, count } => {
                let total = match c.buildings.checked_total() {
                    Some(t) => t,
                    None => {
                        return false;
                    },
                };
                if kind.employs_workers() && !c.slots_in_range(b) {
                    return false;
                }
                let fits = total.checked_add(count).is_some();
                proof {
                    if fits && assignable(c, b, kind, count as nat) {
                        let s = c.buildings@;
                        let req = kind.required(&b.buildings) as nat;
                        lemma_spread(s, kind, req, count as nat);
                        lemma_total_spread(s, kind, req, count as nat);
                        assert(total_workers(spread(s, kind, req, count as nat)) <= total + count);
                    }
                }
                fits
            },
            _ => true,
        }
    }
}

} // verus!
