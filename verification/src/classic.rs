//! The classic colony: one counter per building kind, passive income from
//! every lumber yard and quarry, and a 180-day season.

use crate::game::colony::sat_sub;
use crate::game::dice::{roll_below, thread_rng};
use crate::game::{
    birth_text, consumed_text, lemma_with_logs_append, lemma_with_logs_one, log_line, spoiled_text,
    with_log, with_logs,
};
use crate::text::{decimal, push_str, push_usize, string_from};
use vstd::prelude::*;

verus! {

/// Most log lines kept.
pub const MAX_LOG_SIZE: usize = 100;

/// The last day of the season.
pub const LAST_DAY: usize = 180;

/// What the player can ask of the classic colony.
#[derive(PartialEq, Eq, Debug, Clone, Copy, Structural)]
pub enum Commands {
    GetWood,
    GetStone,
    GetFood,
    BuildHut,
    BuildLumberYard,
    BuildStoneQuarry,
    BuildBarn,
    Quit,
}

/// How a season ended, as far as the player is told.
#[derive(PartialEq, Eq, Debug, Clone, Copy, Structural)]
pub enum Ending {
    /// No settler was left.
    ColonyDead,
    /// The colony reached [`LAST_DAY`].
    SeasonOver,
}

/// The calendar of the season.
pub struct World {
    pub days: usize,
}

impl Default for World {
    fn default() -> (w: Self)
        ensures
            w.days == 1,
    {
        World { days: 1 }
    }
}

/// The classic colony: stocks, caps and one counter per building kind.
pub struct Colony {
    pub name: String,
    pub wood: usize,
    pub stone: usize,
    pub food: usize,
    pub population: usize,
    pub max_population: usize,
    pub max_food: usize,
    pub huts: usize,
    pub barns: usize,
    pub lumber_yards: usize,
    pub stone_quarries: usize,
}

/// The classic colony's costs, yields and growth rules.
pub struct Balance {
    // RESOURCES:
    // Wood
    pub gather_wood_base: usize,
    pub gather_wood_cost: usize,
    // Stone
    pub gather_stone_base: usize,
    pub gather_stone_cost: usize,
    // Food
    pub gather_food_base: usize,
    pub gather_food_cost: usize,
    // Pop
    pub population_increase_cost: usize,
    pub birth_chance_percent: u8,
    // BUILDINGS:
    // Hut
    pub hut_max_population_increase: usize,
    pub build_hut_wood_cost: usize,
    pub build_hut_stone_cost: usize,
    // Lumber
    pub build_lumber_yard_wood_cost: usize,
    pub build_lumber_yard_stone_cost: usize,
    /// +3 wood/day per yard.
    pub lumber_yard_wood_production: usize,
    // Quarry — +2 stone/day per quarry.
    pub build_stone_quarry_wood_cost: usize,
    pub build_stone_quarry_stone_cost: usize,
    pub stone_quarry_stone_production: usize,
    // Barn
    pub barn_max_food_storage_increase: usize,
    pub build_barn_wood_cost: usize,
    pub build_barn_stone_cost: usize,
}

/// The gather formula: `base + max(pop × percent / 100, min_bonus)`.
pub open spec fn pop_yield(base: int, pop: int, percent: int, min_bonus: int) -> int {
    let bonus = pop * percent / 100;
    base + if bonus > min_bonus {
        bonus
    } else {
        min_bonus
    }
}

/// The yield formula does not overflow.
pub open spec fn pop_yield_fits(base: int, pop: int, percent: int, min_bonus: int) -> bool {
    pop * percent <= usize::MAX && pop_yield(base, pop, percent, min_bonus) <= usize::MAX
}

/// Gather formula with a floor on the bonus: `base + max(pop × percent / 100, min_bonus)`.
pub fn yield_from_pop(base: usize, pop: usize, percent: usize, min_bonus: usize) -> (r: usize)
    requires
        pop_yield_fits(base as int, pop as int, percent as int, min_bonus as int),
    ensures
        r == pop_yield(base as int, pop as int, percent as int, min_bonus as int),
{
    let share = pop * percent / 100;
    let bonus = if share > min_bonus {
        share
    } else {
        min_bonus
    };
    base + bonus
}

impl Colony {
    pub open spec fn wood_gain(&self, b: &Balance) -> int {
        pop_yield(b.gather_wood_base as int, self.population as int, 40, 1)
    }

    pub open spec fn stone_gain(&self, b: &Balance) -> int {
        pop_yield(b.gather_stone_base as int, self.population as int, 33, 1)
    }

    pub open spec fn food_gain(&self, b: &Balance) -> int {
        pop_yield(b.gather_food_base as int, self.population as int, 50, 1)
    }

    /// Food a food gather adds: the yield, capped by free storage.
    pub open spec fn food_added(&self, b: &Balance) -> int {
        let space = sat_sub(self.max_food as int, self.food as int);
        if self.food_gain(b) < space {
            self.food_gain(b)
        } else {
            space
        }
    }

    pub open spec fn passive_wood_of(&self, b: &Balance) -> int {
        self.lumber_yards * b.lumber_yard_wood_production
    }

    pub open spec fn passive_stone_of(&self, b: &Balance) -> int {
        self.stone_quarries * b.stone_quarry_stone_production
    }

    /// Wood one gather would bring.
    pub fn wood_yield(&self, balance: &Balance) -> (r: usize)
        requires
            pop_yield_fits(balance.gather_wood_base as int, self.population as int, 40, 1),
        ensures
            r == self.wood_gain(balance),
    {
        yield_from_pop(balance.gather_wood_base, self.population, 40, 1)
    }

    /// Stone one gather would bring.
    pub fn stone_yield(&self, balance: &Balance) -> (r: usize)
        requires
            pop_yield_fits(balance.gather_stone_base as int, self.population as int, 33, 1),
        ensures
            r == self.stone_gain(balance),
    {
        yield_from_pop(balance.gather_stone_base, self.population, 33, 1)
    }

    /// Food one gather would bring before storage is considered.
    pub fn food_yield(&self, balance: &Balance) -> (r: usize)
        requires
            pop_yield_fits(balance.gather_food_base as int, self.population as int, 50, 1),
        ensures
            r == self.food_gain(balance),
    {
        yield_from_pop(balance.gather_food_base, self.population, 50, 1)
    }

    /// Gathers wood: the yield is added to the stock.
    pub fn gather_wood(&mut self, balance: &Balance) -> (r: Result<usize, &'static str>)
        requires
            pop_yield_fits(balance.gather_wood_base as int, old(self).population as int, 40, 1),
            old(self).wood + old(self).wood_gain(balance) <= usize::MAX,
        ensures
            r == Ok::<usize, &'static str>(old(self).wood_gain(balance) as usize),
            *final(self) == (Colony {
                wood: (old(self).wood + old(self).wood_gain(balance)) as usize,
                ..*old(self)
            }),
    {
        let gather_yield = self.wood_yield(balance);
        self.wood = self.wood + gather_yield;
        Ok(gather_yield)
    }

    /// Gathers stone: the yield is added to the stock.
    pub fn gather_stone(&mut self, balance: &Balance) -> (r: Result<usize, &'static str>)
        requires
            pop_yield_fits(balance.gather_stone_base as int, old(self).population as int, 33, 1),
            old(self).stone + old(self).stone_gain(balance) <= usize::MAX,
        ensures
            r == Ok::<usize, &'static str>(old(self).stone_gain(balance) as usize),
            *final(self) == (Colony {
                stone: (old(self).stone + old(self).stone_gain(balance)) as usize,
                ..*old(self)
            }),
    {
        let gather_yield = self.stone_yield(balance);
        self.stone = self.stone + gather_yield;
        Ok(gather_yield)
    }

    /// Gathers food; what does not fit in storage is not taken.
    pub fn gather_food(&mut self, balance: &Balance) -> (r: Result<usize, &'static str>)
        requires
            pop_yield_fits(balance.gather_food_base as int, old(self).population as int, 50, 1),
        ensures
            r == Ok::<usize, &'static str>(old(self).food_added(balance) as usize),
            *final(self) == (Colony {
                food: (old(self).food + old(self).food_added(balance)) as usize,
                ..*old(self)
            }),
    {
        let y = self.food_yield(balance);
        let space = self.max_food.saturating_sub(self.food);
        let gather_yield = if y < space {
            y
        } else {
            space
        };
        self.food = self.food + gather_yield;
        Ok(gather_yield)
    }

    /// Builds a hut, raising the housing cap.
    pub fn build_hut(&mut self, balance: &Balance) -> (r: Result<usize, &'static str>)
        requires
            old(self).huts < usize::MAX,
            old(self).max_population + balance.hut_max_population_increase <= usize::MAX,
        ensures
            old(self).wood < balance.build_hut_wood_cost ==> r == Err::<usize, &'static str>(
                "Not enough wood to build a hut!",
            ) && *final(self) == *old(self),
            old(self).wood >= balance.build_hut_wood_cost && old(self).stone
                < balance.build_hut_stone_cost ==> r == Err::<usize, &'static str>(
                "Not enough stone to build a hut!",
            ) && *final(self) == *old(self),
            old(self).wood >= balance.build_hut_wood_cost && old(self).stone
                >= balance.build_hut_stone_cost ==> r == Ok::<usize, &'static str>(1)
                && *final(self) == (Colony {
                wood: (old(self).wood - balance.build_hut_wood_cost) as usize,
                stone: (old(self).stone - balance.build_hut_stone_cost) as usize,
                huts: (old(self).huts + 1) as usize,
                max_population: (old(self).max_population
                    + balance.hut_max_population_increase) as usize,
                ..*old(self)
            }),
    {
        if self.wood < balance.build_hut_wood_cost {
            return Err("Not enough wood to build a hut!");
        }
        if self.stone < balance.build_hut_stone_cost {
            return Err("Not enough stone to build a hut!");
        }
        self.wood = self.wood - balance.build_hut_wood_cost;
        self.stone = self.stone - balance.build_hut_stone_cost;
        self.huts = self.huts + 1;
        self.max_population = self.max_population + balance.hut_max_population_increase;
        Ok(1)
    }

    /// Builds a barn, raising the food storage.
    pub fn build_barn(&mut self, balance: &Balance) -> (r: Result<usize, &'static str>)
        requires
            old(self).barns < usize::MAX,
            old(self).max_food + balance.barn_max_food_storage_increase <= usize::MAX,
        ensures
            old(self).wood < balance.build_barn_wood_cost ==> r == Err::<usize, &'static str>(
                "Not enough wood to build a barn!",
            ) && *final(self) == *old(self),
            old(self).wood >= balance.build_barn_wood_cost && old(self).stone
                < balance.build_barn_stone_cost ==> r == Err::<usize, &'static str>(
                "Not enough stone to build a barn!",
            ) && *final(self) == *old(self),
            old(self).wood >= balance.build_barn_wood_cost && old(self).stone
                >= balance.build_barn_stone_cost ==> r == Ok::<usize, &'static str>(1)
                && *final(self) == (Colony {
                wood: (old(self).wood - balance.build_barn_wood_cost) as usize,
                stone: (old(self).stone - balance.build_barn_stone_cost) as usize,
                barns: (old(self).barns + 1) as usize,
                max_food: (old(self).max_food + balance.barn_max_food_storage_increase) as usize,
                ..*old(self)
            }),
    {
        if self.wood < balance.build_barn_wood_cost {
            return Err("Not enough wood to build a barn!");
        }
        if self.stone < balance.build_barn_stone_cost {
            return Err("Not enough stone to build a barn!");
        }
        self.wood = self.wood - balance.build_barn_wood_cost;
        self.stone = self.stone - balance.build_barn_stone_cost;
        self.barns = self.barns + 1;
        self.max_food = self.max_food + balance.barn_max_food_storage_increase;
        Ok(1)
    }

    /// Builds a lumber yard.
    pub fn build_lumber_yard(&mut self, balance: &Balance) -> (r: Result<usize, &'static str>)
        requires
            old(self).lumber_yards < usize::MAX,
        ensures
            old(self).wood < balance.build_lumber_yard_wood_cost ==> r == Err::<
                usize,
                &'static str,
            >("Not enough wood to build a lumber yard!") && *final(self) == *old(self),
            old(self).wood >= balance.build_lumber_yard_wood_cost && old(self).stone
                < balance.build_lumber_yard_stone_cost ==> r == Err::<usize, &'static str>(
                "Not enough stone to build a lumber yard!",
            ) && *final(self) == *old(self),
            old(self).wood >= balance.build_lumber_yard_wood_cost && old(self).stone
                >= balance.build_lumber_yard_stone_cost ==> r == Ok::<usize, &'static str>(1)
                && *final(self) == (Colony {
                wood: (old(self).wood - balance.build_lumber_yard_wood_cost) as usize,
                stone: (old(self).stone - balance.build_lumber_yard_stone_cost) as usize,
                lumber_yards: (old(self).lumber_yards + 1) as usize,
                ..*old(self)
            }),
    {
        if self.wood < balance.build_lumber_yard_wood_cost {
            return Err("Not enough wood to build a lumber yard!");
        }
        if self.stone < balance.build_lumber_yard_stone_cost {
            return Err("Not enough stone to build a lumber yard!");
        }
        self.wood = self.wood - balance.build_lumber_yard_wood_cost;
        self.stone = self.stone - balance.build_lumber_yard_stone_cost;
        self.lumber_yards = self.lumber_yards + 1;
        Ok(1)
    }

    /// Builds a stone quarry.
    pub fn build_stone_quarry(&mut self, balance: &Balance) -> (r: Result<usize, &'static str>)
        requires
            old(self).stone_quarries < usize::MAX,
        ensures
            old(self).wood < balance.build_stone_quarry_wood_cost ==> r == Err::<
                usize,
                &'static str,
            >("Not enough wood to build a stone quarry!") && *final(self) == *old(self),
            old(self).wood >= balance.build_stone_quarry_wood_cost && old(self).stone
                < balance.build_stone_quarry_stone_cost ==> r == Err::<usize, &'static str>(
                "Not enough stone to build a stone quarry!",
            ) && *final(self) == *old(self),
            old(self).wood >= balance.build_stone_quarry_wood_cost && old(self).stone
                >= balance.build_stone_quarry_stone_cost ==> r == Ok::<usize, &'static str>(1)
                && *final(self) == (Colony {
                wood: (old(self).wood - balance.build_stone_quarry_wood_cost) as usize,
                stone: (old(self).stone - balance.build_stone_quarry_stone_cost) as usize,
                stone_quarries: (old(self).stone_quarries + 1) as usize,
                ..*old(self)
            }),
    {
        if self.wood < balance.build_stone_quarry_wood_cost {
            return Err("Not enough wood to build a stone quarry!");
        }
        if self.stone < balance.build_stone_quarry_stone_cost {
            return Err("Not enough stone to build a stone quarry!");
        }
        self.wood = self.wood - balance.build_stone_quarry_wood_cost;
        self.stone = self.stone - balance.build_stone_quarry_stone_cost;
        self.stone_quarries = self.stone_quarries + 1;
        Ok(1)
    }

    /// Wood all lumber yards produce in a day.
    pub fn passive_wood(&self, balance: &Balance) -> (r: usize)
        requires
            self.passive_wood_of(balance) <= usize::MAX,
        ensures
            r == self.passive_wood_of(balance),
    {
        self.lumber_yards * balance.lumber_yard_wood_production
    }

    /// Stone all quarries produce in a day.
    pub fn passive_stone(&self, balance: &Balance) -> (r: usize)
        requires
            self.passive_stone_of(balance) <= usize::MAX,
        ensures
            r == self.passive_stone_of(balance),
    {
        self.stone_quarries * balance.stone_quarry_stone_production
    }

    /// Adds a day's passive wood and stone; returns both.
    pub fn apply_passive_income(&mut self, balance: &Balance) -> (r: (usize, usize))
        requires
            old(self).passive_wood_of(balance) <= usize::MAX,
            old(self).passive_stone_of(balance) <= usize::MAX,
            old(self).wood + old(self).passive_wood_of(balance) <= usize::MAX,
            old(self).stone + old(self).passive_stone_of(balance) <= usize::MAX,
        ensures
            r == (old(self).passive_wood_of(balance) as usize, old(self).passive_stone_of(
                balance,
            ) as usize),
            *final(self) == (Colony {
                wood: (old(self).wood + r.0) as usize,
                stone: (old(self).stone + r.1) as usize,
                ..*old(self)
            }),
    {
        let wood = self.passive_wood(balance);
        let stone = self.passive_stone(balance);
        self.wood = self.wood + wood;
        self.stone = self.stone + stone;
        (wood, stone)
    }

    /// The starting colony.
    pub open spec fn is_start(&self) -> bool {
        &&& self.name@ == "Default colony"@
        &&& self.wood == 50
        &&& self.stone == 30
        &&& self.food == 25
        &&& self.population == 5
        &&& self.max_population == 5
        &&& self.max_food == 25
        &&& self.huts == 1
        &&& self.barns == 0
        &&& self.lumber_yards == 0
        &&& self.stone_quarries == 0
    }
}

impl Default for Colony {
    fn default() -> (c: Self)
        ensures
            c.is_start(),
    {
        Colony {
            name: string_from("Default colony"),
            wood: 50,
            stone: 30,
            food: 25,
            population: 5,
            max_population: 5,
            max_food: 25,
            huts: 1,
            barns: 0,
            lumber_yards: 0,
            stone_quarries: 0,
        }
    }
}

impl Balance {
    /// The shipped tuning.
    pub open spec fn is_default(&self) -> bool {
        &&& self.gather_wood_base == 5
        &&& self.gather_wood_cost == 1
        &&& self.gather_stone_base == 5
        &&& self.gather_stone_cost == 5
        &&& self.gather_food_base == 5
        &&& self.gather_food_cost == 0
        &&& self.population_increase_cost == 2
        &&& self.birth_chance_percent == 15
        &&& self.build_hut_wood_cost == 10
        &&& self.build_hut_stone_cost == 10
        &&& self.hut_max_population_increase == 5
        &&& self.build_lumber_yard_wood_cost == 20
        &&& self.build_lumber_yard_stone_cost == 50
        &&& self.build_stone_quarry_wood_cost == 50
        &&& self.build_stone_quarry_stone_cost == 20
        &&& self.barn_max_food_storage_increase == 15
        &&& self.build_barn_wood_cost == 20
        &&& self.build_barn_stone_cost == 30
        &&& self.lumber_yard_wood_production == 3
        &&& self.stone_quarry_stone_production == 2
    }
}

impl Default for Balance {
    fn default() -> (b: Self)
        ensures
            b.is_default(),
    {
        Balance {
            gather_wood_base: 5,
            gather_wood_cost: 1,
            gather_stone_base: 5,
            gather_stone_cost: 5,
            gather_food_base: 5,
            gather_food_cost: 0,
            population_increase_cost: 2,
            birth_chance_percent: 15,
            build_hut_wood_cost: 10,
            build_hut_stone_cost: 10,
            hut_max_population_increase: 5,
            build_lumber_yard_wood_cost: 20,
            build_lumber_yard_stone_cost: 50,
            build_stone_quarry_wood_cost: 50,
            build_stone_quarry_stone_cost: 20,
            barn_max_food_storage_increase: 15,
            build_barn_wood_cost: 20,
            build_barn_stone_cost: 30,
            lumber_yard_wood_production: 3,
            stone_quarry_stone_production: 2,
        }
    }
}

/// A classic game: colony, calendar, log, balance, and whether it is over.
pub struct Game {
    pub colony: Colony,
    pub world: World,
    pub logs: Vec<String>,
    pub balance: Balance,
    pub gameover: bool,
}

pub open spec fn starving_text() -> Seq<char> {
    "Not enough food! Colony is starving, population is decreasing (-1)"@
}

pub open spec fn passive_text(wood: nat, stone: nat) -> Seq<char> {
    "Passive income: +"@ + decimal(wood) + " wood, +"@ + decimal(stone) + " stone"@
}

/// Morning of a classic day: the settlers eat; a fed colony below its cap
/// may grow, a starving one loses a settler.
pub open spec fn classic_morning(c: Colony, b: &Balance, birth_roll: nat) -> (Colony, Seq<Seq<char>>) {
    let pop = c.population;
    if c.food < pop {
        (
            Colony { food: 0, population: sat_sub(pop as int, 1) as usize, ..c },
            seq![starving_text()],
        )
    } else {
        let food = (c.food - pop) as usize;
        let eaten = consumed_text(pop as nat);
        if pop < c.max_population && food >= pop + b.population_increase_cost && birth_roll
            < b.birth_chance_percent {
            (
                Colony {
                    food: (food - b.population_increase_cost) as usize,
                    population: (pop + 1) as usize,
                    ..c
                },
                seq![
                    eaten,
                    birth_text(b.birth_chance_percent as nat, b.population_increase_cost as nat),
                ],
            )
        } else {
            (Colony { food, ..c }, seq![eaten])
        }
    }
}

/// Evening of a classic day: excess food spoils, every yard and quarry produces.
pub open spec fn classic_evening(c: Colony, b: &Balance) -> (Colony, Seq<Seq<char>>) {
    let spoils = c.food > c.max_food;
    let food = if spoils {
        c.max_food
    } else {
        c.food
    };
    let spoil_texts = if spoils {
        seq![spoiled_text((c.food - c.max_food) as nat, c.max_food as nat, c.max_food as nat)]
    } else {
        seq![]
    };
    let w = c.passive_wood_of(b);
    let st = c.passive_stone_of(b);
    let income_texts = if w > 0 || st > 0 {
        seq![passive_text(w as nat, st as nat)]
    } else {
        seq![]
    };
    (
        Colony { food, wood: (c.wood + w) as usize, stone: (c.stone + st) as usize, ..c },
        spoil_texts + income_texts,
    )
}

/// What the player is told at the start of a classic day.
pub open spec fn classic_ending(c: Colony, days: nat) -> Option<Ending> {
    if c.population == 0 {
        Some(Ending::ColonyDead)
    } else if days == LAST_DAY {
        Some(Ending::SeasonOver)
    } else {
        None
    }
}

pub open spec fn classic_gathered_text(what: Seq<char>, gain: nat, cost: nat) -> Seq<char> {
    "Gathered "@ + what + " (+"@ + decimal(gain) + "), spent "@ + decimal(cost) + " food"@
}

pub open spec fn spent_text(wood: nat, stone: nat) -> Seq<char> {
    ", spent "@ + decimal(wood) + " wood, spent "@ + decimal(stone) + " stone"@
}

impl Game {
    pub open spec fn log_lines(&self) -> Seq<Seq<char>> {
        self.logs@.map_values(|s: String| s@)
    }

    /// `tick` stays within `usize`.
    pub open spec fn day_fits(&self) -> bool {
        let c = self.colony;
        let b = &self.balance;
        &&& self.world.days < usize::MAX
        &&& c.food >= c.population && c.population < c.max_population ==> c.population
            + b.population_increase_cost <= usize::MAX
        &&& c.passive_wood_of(b) <= usize::MAX
        &&& c.passive_stone_of(b) <= usize::MAX
        &&& c.wood + c.passive_wood_of(b) <= usize::MAX
        &&& c.stone + c.passive_stone_of(b) <= usize::MAX
    }

    /// `g1` is `g0` after one `tick` with the given birth roll, which returned `ending`.
    pub open spec fn ticked(g0: &Game, g1: &Game, ending: Option<Ending>, birth_roll: nat) -> bool {
        let (m, told) = classic_morning(g0.colony, &g0.balance, birth_roll);
        let (e, more) = classic_evening(m, &g0.balance);
        &&& g1.colony == e
        &&& g1.world.days == g0.world.days + 1
        &&& g1.balance == g0.balance
        &&& g1.gameover == (g0.gameover || ending is Some)
        &&& ending == classic_ending(g0.colony, g0.world.days as nat)
        &&& g1.log_lines() == with_logs(g0.log_lines(), g0.world.days as nat, told + more)
    }

    /// `process_command(command)` stays within `usize`.
    pub open spec fn command_fits(&self, command: Commands) -> bool {
        let c = self.colony;
        let b = &self.balance;
        match command {
            Commands::GetWood => pop_yield_fits(b.gather_wood_base as int, c.population as int, 40, 1)
                && c.wood + c.wood_gain(b) <= usize::MAX,
            Commands::GetStone => pop_yield_fits(
                b.gather_stone_base as int,
                c.population as int,
                33,
                1,
            ) && c.stone + c.stone_gain(b) <= usize::MAX,
            Commands::GetFood => pop_yield_fits(b.gather_food_base as int, c.population as int, 50, 1),
            Commands::BuildHut => c.huts < usize::MAX && c.max_population
                + b.hut_max_population_increase <= usize::MAX,
            Commands::BuildBarn => c.barns < usize::MAX && c.max_food
                + b.barn_max_food_storage_increase <= usize::MAX,
            Commands::BuildLumberYard => c.lumber_yards < usize::MAX,
            Commands::BuildStoneQuarry => c.stone_quarries < usize::MAX,
            Commands::Quit => true,
        }
    }

    /// `g1` is `g0` after `process_command(command)`.
    pub open spec fn commanded(g0: &Game, g1: &Game, command: Commands) -> bool {
        let c = g0.colony;
        let b = &g0.balance;
        let day = g0.world.days as nat;
        let logged = |t: Seq<char>| g1.log_lines() == with_log(g0.log_lines(), log_line(day, t));
        &&& g1.world == g0.world
        &&& g1.balance == g0.balance
        &&& g1.gameover == g0.gameover
        &&& match command {
            Commands::GetWood => g1.colony == (Colony {
                wood: (c.wood + c.wood_gain(b)) as usize,
                ..c
            }) && logged(
                classic_gathered_text("wood"@, c.wood_gain(b) as nat, b.gather_wood_cost as nat),
            ),
            Commands::GetStone => g1.colony == (Colony {
                stone: (c.stone + c.stone_gain(b)) as usize,
                ..c
            }) && logged(
                classic_gathered_text("stone"@, c.stone_gain(b) as nat, b.gather_stone_cost as nat),
            ),
            Commands::GetFood => g1.colony == (Colony {
                food: (c.food + c.food_added(b)) as usize,
                ..c
            }) && logged(
                classic_gathered_text("food"@, c.food_added(b) as nat, b.gather_food_cost as nat),
            ),
            Commands::BuildHut => if c.wood < b.build_hut_wood_cost {
                g1.colony == c && logged("Not enough wood to build a hut!"@)
            } else if c.stone < b.build_hut_stone_cost {
                g1.colony == c && logged("Not enough stone to build a hut!"@)
            } else {
                &&& g1.colony == (Colony {
                    wood: (c.wood - b.build_hut_wood_cost) as usize,
                    stone: (c.stone - b.build_hut_stone_cost) as usize,
                    huts: (c.huts + 1) as usize,
                    max_population: (c.max_population + b.hut_max_population_increase) as usize,
                    ..c
                })
                &&& logged(
                    "Huts (+1), max pop +"@ + decimal(b.hut_max_population_increase as nat)
                        + spent_text(b.build_hut_wood_cost as nat, b.build_hut_stone_cost as nat),
                )
            },
            Commands::BuildLumberYard => if c.wood < b.build_lumber_yard_wood_cost {
                g1.colony == c && logged("Not enough wood to build a lumber yard!"@)
            } else if c.stone < b.build_lumber_yard_stone_cost {
                g1.colony == c && logged("Not enough stone to build a lumber yard!"@)
            } else {
                &&& g1.colony == (Colony {
                    wood: (c.wood - b.build_lumber_yard_wood_cost) as usize,
                    stone: (c.stone - b.build_lumber_yard_stone_cost) as usize,
                    lumber_yards: (c.lumber_yards + 1) as usize,
                    ..c
                })
                &&& logged(
                    "Lumber yard built (+"@ + decimal(b.lumber_yard_wood_production as nat)
                        + " wood/day passive)"@ + spent_text(
                        b.build_lumber_yard_wood_cost as nat,
                        b.build_lumber_yard_stone_cost as nat,
                    ),
                )
            },
            Commands::BuildStoneQuarry => if c.wood < b.build_stone_quarry_wood_cost {
                g1.colony == c && logged("Not enough wood to build a stone quarry!"@)
            } else if c.stone < b.build_stone_quarry_stone_cost {
                g1.colony == c && logged("Not enough stone to build a stone quarry!"@)
            } else {
                &&& g1.colony == (Colony {
                    wood: (c.wood - b.build_stone_quarry_wood_cost) as usize,
                    stone: (c.stone - b.build_stone_quarry_stone_cost) as usize,
                    stone_quarries: (c.stone_quarries + 1) as usize,
                    ..c
                })
                &&& logged(
                    "Stone quarry built (+"@ + decimal(b.stone_quarry_stone_production as nat)
                        + " stone/day passive)"@ + spent_text(
                        b.build_stone_quarry_wood_cost as nat,
                        b.build_stone_quarry_stone_cost as nat,
                    ),
                )
            },
            Commands::BuildBarn => if c.wood < b.build_barn_wood_cost {
                g1.colony == c && logged("Not enough wood to build a barn!"@)
            } else if c.stone < b.build_barn_stone_cost {
                g1.colony == c && logged("Not enough stone to build a barn!"@)
            } else {
                let max_food = (c.max_food + b.barn_max_food_storage_increase) as usize;
                &&& g1.colony == (Colony {
                    wood: (c.wood - b.build_barn_wood_cost) as usize,
                    stone: (c.stone - b.build_barn_stone_cost) as usize,
                    barns: (c.barns + 1) as usize,
                    max_food,
                    ..c
                })
                &&& logged(
                    "Barn built (+"@ + decimal(b.barn_max_food_storage_increase as nat)
                        + " food storage, max "@ + decimal(max_food as nat) + ")"@ + spent_text(
                        b.build_barn_wood_cost as nat,
                        b.build_barn_stone_cost as nat,
                    ),
                )
            },
            Commands::Quit => g1.colony == c && g1.log_lines() == g0.log_lines(),
        }
    }
}

fn push_spent(m: &mut String, wood: usize, stone: usize)
    ensures
        final(m)@ == old(m)@ + spent_text(wood as nat, stone as nat),
{
    push_str(m, ", spent ");
    push_usize(m, wood);
    push_str(m, " wood, spent ");
    push_usize(m, stone);
    push_str(m, " stone");
    assert(m@ =~= old(m)@ + spent_text(wood as nat, stone as nat));
}

fn gathered_message(what: &str, gain: usize, cost: usize) -> (m: String)
    ensures
        m@ == classic_gathered_text(what@, gain as nat, cost as nat),
{
    let mut m = String::new();
    push_str(&mut m, "Gathered ");
    push_str(&mut m, what);
    push_str(&mut m, " (+");
    push_usize(&mut m, gain);
    push_str(&mut m, "), spent ");
    push_usize(&mut m, cost);
    push_str(&mut m, " food");
    assert(m@ =~= classic_gathered_text(what@, gain as nat, cost as nat));
    m
}

fn number_message(before: &str, n: usize, after: &str) -> (m: String)
    ensures
        m@ == before@ + decimal(n as nat) + after@,
{
    let mut m = String::new();
    push_str(&mut m, before);
    push_usize(&mut m, n);
    push_str(&mut m, after);
    assert(m@ =~= before@ + decimal(n as nat) + after@);
    m
}

impl Game {
    /// Append a log line prefixed with the current day; drop the oldest beyond
    /// [`MAX_LOG_SIZE`].
    pub fn logs(&mut self, text: String)
        ensures
            final(self).log_lines() == with_log(
                old(self).log_lines(),
                log_line(old(self).world.days as nat, text@),
            ),
            final(self).colony == old(self).colony,
            final(self).world == old(self).world,
            final(self).balance == old(self).balance,
            final(self).gameover == old(self).gameover,
    {
        let mut line = String::new();
        push_str(&mut line, "Day ");
        push_usize(&mut line, self.world.days);
        push_str(&mut line, " | ");
        push_str(&mut line, text.as_str());
        assert(line@ =~= log_line(self.world.days as nat, text@));
        let ghost before = self.log_lines();
        self.logs.push(line);
        assert(self.log_lines() =~= before.push(log_line(self.world.days as nat, text@)));
        let extra = self.logs.len().saturating_sub(MAX_LOG_SIZE);
        if extra > 0 {
            let kept = self.logs.split_off(extra);
            self.logs = kept;
            assert(self.log_lines() =~= before.push(log_line(self.world.days as nat, text@)).skip(
                extra as int,
            ));
        }
    }

    /// One day with the given birth roll: the end of the season is checked,
    /// then settlers eat, may be born or starve, excess food spoils, buildings
    /// produce, and the day advances.
    pub fn tick_with_roll(&mut self, birth_roll: u8) -> (r: Option<Ending>)
        requires
            old(self).day_fits(),
        ensures
            Game::ticked(old(self), final(self), r, birth_roll as nat),
    {
        let ending = if self.colony.population == 0 {
            Some(Ending::ColonyDead)
        } else if self.world.days == LAST_DAY {
            Some(Ending::SeasonOver)
        } else {
            None
        };
        if ending.is_some() {
            self.gameover = true;
        }
        let ghost l0 = self.log_lines();
        let ghost day = self.world.days as nat;
        let ghost c0 = self.colony;
        let ghost told: Seq<Seq<char>>;
        if self.colony.food < self.colony.population {
            self.colony.food = 0;
            self.logs(string_from("Not enough food! Colony is starving, population is decreasing (-1)"));
            self.colony.population = self.colony.population.saturating_sub(1);
            proof {
                told = seq![starving_text()];
                lemma_with_logs_one(l0, day, starving_text());
            }
        } else {
            self.colony.food = self.colony.food - self.colony.population;
            let pop = self.colony.population;
            self.logs(number_message("Colony consumes ", pop, " food"));
            let ghost t1 = consumed_text(pop as nat);
            proof {
                lemma_with_logs_one(l0, day, t1);
                told = seq![t1];
            }
            if self.colony.population < self.colony.max_population {
                let min_food = self.colony.population + self.balance.population_increase_cost;
                if self.colony.food >= min_food {
                    let chance = self.balance.birth_chance_percent;
                    if birth_roll < chance {
                        self.colony.food = self.colony.food.saturating_sub(
                            self.balance.population_increase_cost,
                        );
                        self.colony.population = self.colony.population + 1;
                        let cost = self.balance.population_increase_cost;
                        let mut m = number_message("Birth! population +1 (chance ", chance as usize, "%), food -");
                        push_usize(&mut m, cost);
                        assert(m@ =~= birth_text(chance as nat, cost as nat));
                        self.logs(m);
                        proof {
                            let t2 = birth_text(chance as nat, cost as nat);
                            lemma_with_logs_one(with_logs(l0, day, seq![t1]), day, t2);
                            lemma_with_logs_append(l0, day, seq![t1], seq![t2]);
                            assert(seq![t1] + seq![t2] =~= seq![t1, t2]);
                            told = seq![t1, t2];
                        }
                    }
                }
            }
        }
        assert(self.colony == classic_morning(c0, &self.balance, birth_roll as nat).0);
        assert(told == classic_morning(c0, &self.balance, birth_roll as nat).1);
        let ghost l1 = self.log_lines();
        let ghost spoil_texts: Seq<Seq<char>> = seq![];
        if self.colony.food > self.colony.max_food {
            let spoiled = self.colony.food - self.colony.max_food;
            self.colony.food = self.colony.max_food;
            let mut m = number_message("Spoiled ", spoiled, " food (storage ");
            push_usize(&mut m, self.colony.food);
            push_str(&mut m, "/");
            push_usize(&mut m, self.colony.max_food);
            push_str(&mut m, ")");
            assert(m@ =~= spoiled_text(spoiled as nat, self.colony.max_food as nat, self.colony.max_food as nat));
            self.logs(m);
            proof {
                spoil_texts = seq![spoiled_text(spoiled as nat, self.colony.max_food as nat, self.colony.max_food as nat)];
                lemma_with_logs_one(l1, day, spoil_texts[0]);
            }
        }
        let ghost l2 = self.log_lines();
        let (passive_wood, passive_stone) = self.colony.apply_passive_income(&self.balance);
        let ghost income_texts: Seq<Seq<char>> = seq![];
        if passive_wood > 0 || passive_stone > 0 {
            let mut m = number_message("Passive income: +", passive_wood, " wood, +");
            push_usize(&mut m, passive_stone);
            push_str(&mut m, " stone");
            assert(m@ =~= passive_text(passive_wood as nat, passive_stone as nat));
            self.logs(m);
            proof {
                income_texts = seq![passive_text(passive_wood as nat, passive_stone as nat)];
                lemma_with_logs_one(l2, day, income_texts[0]);
            }
        }
        proof {
            lemma_with_logs_append(l1, day, spoil_texts, income_texts);
            lemma_with_logs_append(l0, day, told, spoil_texts + income_texts);
        }
        self.world.days = self.world.days + 1;
        ending
    }

    /// One day, with the birth roll drawn from `rand`.
    pub fn tick(&mut self) -> (r: Option<Ending>)
        requires
            old(self).day_fits(),
        ensures
            exists|roll: nat| roll < 100 && #[trigger] Game::ticked(old(self), final(self), r, roll),
    {
        let mut rng = thread_rng();
        let roll = roll_below(&mut rng, 100);
        let r = self.tick_with_roll(roll);
        assert(Game::ticked(old(self), self, r, roll as nat));
        r
    }

    /// Apply one player command and log what came of it.
    pub fn process_command(&mut self, command: Commands)
        requires
            old(self).command_fits(command),
        ensures
            Game::commanded(old(self), final(self), command),
    {
        match command {
            Commands::GetWood => match self.colony.gather_wood(&self.balance) {
                Ok(gain) => self.logs(gathered_message("wood", gain, self.balance.gather_wood_cost)),
                Err(msg) => self.logs(string_from(msg)),
            },
            Commands::GetStone => match self.colony.gather_stone(&self.balance) {
                Ok(gain) => self.logs(
                    gathered_message("stone", gain, self.balance.gather_stone_cost),
                ),
                Err(msg) => self.logs(string_from(msg)),
            },
            Commands::GetFood => match self.colony.gather_food(&self.balance) {
                Ok(gain) => self.logs(gathered_message("food", gain, self.balance.gather_food_cost)),
                Err(msg) => self.logs(string_from(msg)),
            },
            Commands::BuildHut => match self.colony.build_hut(&self.balance) {
                Ok(gain) => {
                    let mut m = number_message("Huts (+", gain, "), max pop +");
                    push_usize(&mut m, self.balance.hut_max_population_increase);
                    push_spent(
                        &mut m,
                        self.balance.build_hut_wood_cost,
                        self.balance.build_hut_stone_cost,
                    );
                    assert(m@ =~= "Huts (+1), max pop +"@ + decimal(
                        self.balance.hut_max_population_increase as nat,
                    ) + spent_text(
                        self.balance.build_hut_wood_cost as nat,
                        self.balance.build_hut_stone_cost as nat,
                    )) by {
                        reveal_strlit("Huts (+");
                        reveal_strlit("), max pop +");
                        reveal_strlit("Huts (+1), max pop +");
                        assert(decimal(1) =~= seq!['1']);
                    }
                    self.logs(m);
                },
                Err(msg) => self.logs(string_from(msg)),
            },
            Commands::BuildLumberYard => match self.colony.build_lumber_yard(&self.balance) {
                Ok(_) => {
                    let mut m = number_message(
                        "Lumber yard built (+",
                        self.balance.lumber_yard_wood_production,
                        " wood/day passive)",
                    );
                    push_spent(
                        &mut m,
                        self.balance.build_lumber_yard_wood_cost,
                        self.balance.build_lumber_yard_stone_cost,
                    );
                    self.logs(m);
                },
                Err(msg) => self.logs(string_from(msg)),
            },
            Commands::BuildStoneQuarry => match self.colony.build_stone_quarry(&self.balance) {
                Ok(_) => {
                    let mut m = number_message(
                        "Stone quarry built (+",
                        self.balance.stone_quarry_stone_production,
                        " stone/day passive)",
                    );
                    push_spent(
                        &mut m,
                        self.balance.build_stone_quarry_wood_cost,
                        self.balance.build_stone_quarry_stone_cost,
                    );
                    self.logs(m);
                },
                Err(msg) => self.logs(string_from(msg)),
            },
            Commands::BuildBarn => match self.colony.build_barn(&self.balance) {
                Ok(_) => {
                    let mut m = number_message(
                        "Barn built (+",
                        self.balance.barn_max_food_storage_increase,
                        " food storage, max ",
                    );
                    push_usize(&mut m, self.colony.max_food);
                    push_str(&mut m, ")");
                    push_spent(
                        &mut m,
                        self.balance.build_barn_wood_cost,
                        self.balance.build_barn_stone_cost,
                    );
                    self.logs(m);
                },
                Err(msg) => self.logs(string_from(msg)),
            },
            Commands::Quit => {},
        }
    }
}

impl Default for Game {
    fn default() -> (g: Self)
        ensures
            g.colony.is_start(),
            g.world.days == 1,
            g.logs@.len() == 0,
            g.balance.is_default(),
            !g.gameover,
    {
        Game {
            colony: Colony::default(),
            world: World::default(),
            logs: Vec::with_capacity(100),
            balance: Balance::default(),
            gameover: false,
        }
    }
}

/// A classic day always advances the calendar by one, and leaves no more food
/// in storage than its cap.
pub proof fn lemma_classic_day(g0: &Game, g1: &Game, ending: Option<Ending>, birth_roll: nat)
    requires
        Game::ticked(g0, g1, ending, birth_roll),
    ensures
        g1.world.days == g0.world.days + 1,
        g1.colony.food <= g1.colony.max_food,
        g1.colony.max_food == g0.colony.max_food,
        g0.gameover ==> g1.gameover,
{
}

/// Passive income grows with each lumber yard and quarry.
pub proof fn lemma_passive_income_per_building(c: &Colony, b: &Balance)
    requires
        c.lumber_yards < usize::MAX,
    ensures
        c.passive_wood_of(b) == c.lumber_yards * b.lumber_yard_wood_production,
        c.passive_stone_of(b) == c.stone_quarries * b.stone_quarry_stone_production,
        (Colony { lumber_yards: (c.lumber_yards + 1) as usize, ..*c }).passive_wood_of(b)
            == c.passive_wood_of(b) + b.lumber_yard_wood_production,
{
    assert((c.lumber_yards + 1) * b.lumber_yard_wood_production == c.lumber_yards
        * b.lumber_yard_wood_production + b.lumber_yard_wood_production) by (nonlinear_arith);
}

/// The classic gathers: wood brings the wood base plus 40% of the
/// population, stone the stone base plus 33%, food the food base plus 50%,
/// each bonus at least 1; food is cut to the free storage.
pub proof fn lemma_classic_gains(c: &Colony, b: &Balance)
    ensures
        ({
            let pop = c.population as int;
            let bonus = |pct: int| if pop * pct / 100 > 1 {
                pop * pct / 100
            } else {
                1
            };
            let room = if c.max_food >= c.food {
                c.max_food - c.food
            } else {
                0
            };
            let food = b.gather_food_base + bonus(50);
            &&& c.wood_gain(b) == b.gather_wood_base + bonus(40)
            &&& c.stone_gain(b) == b.gather_stone_base + bonus(33)
            &&& c.food_gain(b) == food
            &&& c.food_added(b) == if food < room {
                food
            } else {
                room
            }
        }),
{
}

/// The classic morning: with too little food all of it is eaten and one
/// settler dies (if any is left); otherwise each settler eats one ration and
/// a birth, possible below the housing cap with `pop + increase_cost` food
/// left and a roll below the chance, costs `increase_cost` more food.
pub proof fn lemma_classic_morning(c: Colony, b: &Balance, birth_roll: nat)
    ensures
        ({
            let m = classic_morning(c, b, birth_roll).0;
            let pop = c.population as int;
            &&& c.food < pop ==> m.food == 0 && m.population == (if pop > 0 {
                pop - 1
            } else {
                0
            })
            &&& c.food >= pop ==> {
                let left = c.food - pop;
                let born = pop < c.max_population && left >= pop + b.population_increase_cost
                    && birth_roll < b.birth_chance_percent;
                &&& m.population == pop + (if born {
                    1int
                } else {
                    0
                })
                &&& m.food == left - (if born {
                    b.population_increase_cost as int
                } else {
                    0
                })
            }
            &&& m.wood == c.wood && m.stone == c.stone && m.max_food == c.max_food
                && m.max_population == c.max_population
        }),
{
}

/// The classic evening: food above the cap spoils, every lumber yard adds its
/// wood and every quarry its stone; nothing else changes.
pub proof fn lemma_classic_evening(c: Colony, b: &Balance)
    requires
        c.wood + c.lumber_yards * b.lumber_yard_wood_production <= usize::MAX,
        c.stone + c.stone_quarries * b.stone_quarry_stone_production <= usize::MAX,
    ensures
        ({
            let e = classic_evening(c, b).0;
            &&& e.food == (if c.food > c.max_food {
                c.max_food
            } else {
                c.food
            })
            &&& e.wood == c.wood + c.lumber_yards * b.lumber_yard_wood_production
            &&& e.stone == c.stone + c.stone_quarries * b.stone_quarry_stone_production
            &&& e.population == c.population && e.max_food == c.max_food
                && e.max_population == c.max_population && e.lumber_yards == c.lumber_yards
                && e.stone_quarries == c.stone_quarries
        }),
{
}

} // verus!
