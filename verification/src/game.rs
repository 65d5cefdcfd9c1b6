//! Colony simulation: state, balance, tick, player actions.

pub mod actions;
pub mod balance;
pub mod building;
pub mod colony;
pub mod commands;
pub mod events;
pub mod limits;
pub(crate) mod dice;
pub mod resource;
pub mod turn;
pub mod world;

pub use actions::Actions;
pub use balance::Balance;
pub use building::BuildingKind;
pub use colony::Colony;
pub use resource::ResourceKind;
pub use world::World;

use crate::game::balance::PopulationBalance;
use crate::game::building::{
    cap_all, clamped, count_kind, crews_valid, lemma_cap_all_total, lemma_crews_stay_valid,
    lemma_drain, spread, staffed_kind, total_workers, workers_kind, Building,
};
use crate::game::colony::{other_workers, present_lines, sat_sub, understaffed_line};
use crate::game::dice::{roll_below, thread_rng};
use crate::text::{decimal, push_str, push_usize, string_from};
use vstd::prelude::*;

verus! {

/// Most log lines kept.
pub const MAX_LOG_SIZE: usize = 100;

/// Survive this many days to win.
pub const WIN_DAY: usize = 365;

/// How a game ended, as far as the player is told.
#[derive(PartialEq, Eq, Debug, Clone, Copy, Structural)]
pub enum Ending {
    /// The last settler died.
    ColonyDead,
    /// The colony held out until [`WIN_DAY`].
    Victory,
}

/// Root game state: colony, calendar, balance tuning, and event log.
pub struct Game {
    /// Resources, population, buildings, worker assignments.
    pub colony: Colony,
    /// Day counter; incremented at end of each [`Self::tick`].
    pub world: World,
    /// Recent log lines (`Day N | …`), capped at [`MAX_LOG_SIZE`].
    pub logs: Vec<String>,
    /// Tunable constants (costs, yields, worker slots, birth rules).
    pub balance: Balance,
    /// Set when population hits 0 or day reaches [`WIN_DAY`].
    pub gameover: bool,
}

/// The numbers of a colony, as the daily simulation reads and writes them.
pub struct Settlement {
    pub wood: nat,
    pub stone: nat,
    pub food: nat,
    pub population: nat,
    pub max_population: nat,
    pub max_food: nat,
    pub starvation_days: nat,
    pub buildings: Seq<Building>,
}

impl Colony {
    pub open spec fn settlement(&self) -> Settlement {
        Settlement {
            wood: self.wood as nat,
            stone: self.stone as nat,
            food: self.food as nat,
            population: self.population as nat,
            max_population: self.max_population as nat,
            max_food: self.max_food as nat,
            starvation_days: self.starvation_days as nat,
            buildings: self.buildings@,
        }
    }
}

// ---------------------------------------------------------------------------
// The log.

/// One log line: the day, then the text.
pub open spec fn log_line(day: nat, text: Seq<char>) -> Seq<char> {
    "Day "@ + decimal(day) + " | "@ + text
}

/// `lines` with `line` appended, the oldest dropped beyond [`MAX_LOG_SIZE`].
pub open spec fn with_log(lines: Seq<Seq<char>>, line: Seq<char>) -> Seq<Seq<char>> {
    let l = lines.push(line);
    if l.len() > MAX_LOG_SIZE {
        l.skip(l.len() - MAX_LOG_SIZE)
    } else {
        l
    }
}

/// `texts` logged one after the other on `day`.
pub open spec fn with_logs(lines: Seq<Seq<char>>, day: nat, texts: Seq<Seq<char>>) -> Seq<
    Seq<char>,
>
    decreases texts.len(),
{
    if texts.len() == 0 {
        lines
    } else {
        with_log(with_logs(lines, day, texts.drop_last()), log_line(day, texts.last()))
    }
}

/// Logging two batches of texts is logging them one after the other.
pub proof fn lemma_with_logs_append(
    lines: Seq<Seq<char>>,
    day: nat,
    a: Seq<Seq<char>>,
    b: Seq<Seq<char>>,
)
    ensures
        with_logs(with_logs(lines, day, a), day, b) == with_logs(lines, day, a + b),
    decreases b.len(),
{
    if b.len() == 0 {
        assert(a + b =~= a);
    } else {
        lemma_with_logs_append(lines, day, a, b.drop_last());
        assert((a + b).drop_last() =~= a + b.drop_last());
        assert((a + b).last() == b.last());
    }
}

/// Logging one text.
pub proof fn lemma_with_logs_one(lines: Seq<Seq<char>>, day: nat, t: Seq<char>)
    ensures
        with_logs(lines, day, seq![t]) == with_log(lines, log_line(day, t)),
{
    assert(seq![t].drop_last() =~= Seq::<Seq<char>>::empty());
    assert(with_logs(lines, day, Seq::<Seq<char>>::empty()) == lines);
}

// ---------------------------------------------------------------------------
// The daily simulation.

pub open spec fn consumed_text(rations: nat) -> Seq<char> {
    "Colony consumes "@ + decimal(rations) + " food"@
}

pub open spec fn birth_text(chance: nat, cost: nat) -> Seq<char> {
    "Birth! population +1 (chance "@ + decimal(chance) + "%), food -"@ + decimal(cost)
}

pub open spec fn hungry_text(rations: nat, pop: nat, deficit: nat, day: nat, of: nat) -> Seq<
    char,
> {
    "Hungry: fed "@ + decimal(rations) + "/"@ + decimal(pop) + " ("@ + decimal(deficit)
        + " unfed, day "@ + decimal(day) + " of "@ + decimal(of) + ")"@
}

pub open spec fn death_text(guaranteed: bool, chance: nat) -> Seq<char> {
    if guaranteed {
        "A settler died of starvation (prolonged hunger)."@
    } else {
        "A settler died of starvation ("@ + decimal(chance) + "% roll failed)."@
    }
}

pub open spec fn spoiled_text(spoiled: nat, food: nat, max_food: nat) -> Seq<char> {
    "Spoiled "@ + decimal(spoiled) + " food (storage "@ + decimal(food) + "/"@ + decimal(max_food)
        + ")"@
}

pub open spec fn food_lost_text(lost: nat) -> Seq<char> {
    decimal(lost) + " food did not fit in storage"@
}

/// The daily death chance in percent: the per-settler chance times the
/// unfed settlers, at most 100.
pub open spec fn death_chance(percent: u8, deficit: nat) -> nat {
    let p = percent as nat * deficit;
    if p > 100 {
        100
    } else {
        p
    }
}

/// Whether a birth happens on a day when everyone was fed.
pub open spec fn birth_happens(s: Settlement, p: &PopulationBalance, birth_roll: nat) -> bool {
    &&& s.population >= p.min_population_for_birth
    &&& s.population < s.max_population
    &&& s.food >= s.population + p.increase_cost
    &&& birth_roll < p.birth_chance_percent
}

/// Morning: settlers eat; a fed colony may grow, a hungry one may lose a
/// settler. Gives the new numbers and the texts logged.
pub open spec fn morning(s: Settlement, p: &PopulationBalance, birth_roll: nat, death_roll: nat) -> (
    Settlement,
    Seq<Seq<char>>,
) {
    let pop = s.population;
    let rations = if s.food < pop {
        s.food
    } else {
        pop
    };
    let food = (s.food - rations) as nat;
    let deficit = (pop - rations) as nat;
    if deficit == 0 {
        let fed = Settlement { food, starvation_days: 0, ..s };
        let eaten = consumed_text(rations);
        if birth_happens(fed, p, birth_roll) {
            (
                Settlement {
                    food: (food - p.increase_cost) as nat,
                    population: pop + 1,
                    ..fed
                },
                seq![eaten, birth_text(p.birth_chance_percent as nat, p.increase_cost as nat)],
            )
        } else {
            (fed, seq![eaten])
        }
    } else {
        let days = s.starvation_days + 1;
        let hungry = Settlement { food, starvation_days: days, ..s };
        let told = hungry_text(rations, pop, deficit, days, p.starvation_days_to_death as nat);
        let chance = death_chance(p.starvation_death_chance_percent, deficit);
        let guaranteed = days >= p.starvation_days_to_death;
        if guaranteed || death_roll < chance {
            (
                Settlement { population: (pop - 1) as nat, ..hungry },
                seq![told, death_text(guaranteed, chance)],
            )
        } else {
            (hungry, seq![told])
        }
    }
}

/// Output of the staffed instances of `kind` among `s`.
pub open spec fn output_of(s: Seq<Building>, kind: BuildingKind, b: &Balance) -> nat {
    staffed_kind(s, kind, &b.buildings) * (kind.output(&b.buildings) as nat)
}

/// Evening: excess food spoils, crews are clamped, staffed buildings produce.
pub open spec fn evening(s: Settlement, b: &Balance) -> (Settlement, Seq<Seq<char>>) {
    let spoils = s.food > s.max_food;
    let food = if spoils {
        s.max_food
    } else {
        s.food
    };
    let spoil_texts = if spoils {
        seq![spoiled_text((s.food - s.max_food) as nat, s.max_food, s.max_food)]
    } else {
        seq![]
    };
    let crews = clamped(s.buildings, &b.buildings, s.population);
    let farm = output_of(crews, BuildingKind::Farm, b);
    let space = sat_sub(s.max_food as int, food as int);
    let added = if farm < space {
        farm as int
    } else {
        space
    };
    let lost = (farm - added) as nat;
    let lost_texts = if lost > 0 {
        seq![food_lost_text(lost)]
    } else {
        seq![]
    };
    (
        Settlement {
            wood: s.wood + output_of(crews, BuildingKind::LumberYard, b),
            stone: s.stone + output_of(crews, BuildingKind::StoneQuarry, b),
            food: (food + added) as nat,
            buildings: crews,
            ..s
        },
        spoil_texts + lost_texts,
    )
}

/// Everything one day changes.
pub struct DayOutcome {
    pub settlement: Settlement,
    pub days: nat,
    pub gameover: bool,
    pub texts: Seq<Seq<char>>,
    pub ending: Option<Ending>,
}

/// One call of `tick` on a colony in state `s` on day `days`, with the
/// given birth and death rolls.
pub open spec fn day_outcome(
    s: Settlement,
    b: &Balance,
    days: nat,
    gameover: bool,
    birth_roll: nat,
    death_roll: nat,
) -> DayOutcome {
    if s.population == 0 {
        DayOutcome {
            settlement: s,
            days,
            gameover: true,
            texts: seq![],
            ending: if gameover {
                None
            } else {
                Some(Ending::ColonyDead)
            },
        }
    } else if days >= WIN_DAY {
        DayOutcome { settlement: s, days, gameover: true, texts: seq![], ending: Some(Ending::Victory) }
    } else {
        let (m, told) = morning(s, &b.population, birth_roll, death_roll);
        if m.population == 0 {
            DayOutcome {
                settlement: m,
                days: days + 1,
                gameover: true,
                texts: told,
                ending: if gameover {
                    None
                } else {
                    Some(Ending::ColonyDead)
                },
            }
        } else {
            let (e, more) = evening(m, b);
            DayOutcome {
                settlement: e,
                days: days + 1,
                gameover: gameover || days + 1 >= WIN_DAY,
                texts: told + more,
                ending: if days + 1 >= WIN_DAY {
                    Some(Ending::Victory)
                } else {
                    None
                },
            }
        }
    }
}

/// The numbers of the evening fit in `usize`.
pub open spec fn evening_fits(m: Settlement, b: &Balance) -> bool {
    let crews = clamped(m.buildings, &b.buildings, m.population);
    &&& output_of(crews, BuildingKind::Farm, b) <= usize::MAX
    &&& m.wood + output_of(crews, BuildingKind::LumberYard, b) <= usize::MAX
    &&& m.stone + output_of(crews, BuildingKind::StoneQuarry, b) <= usize::MAX
}

impl Game {
    /// The log as text.
    pub open spec fn log_lines(&self) -> Seq<Seq<char>> {
        self.logs@.map_values(|s: String| s@)
    }

    /// `tick` with these rolls stays within `usize`.
    pub open spec fn day_fits(&self, birth_roll: nat, death_roll: nat) -> bool {
        let s = self.colony.settlement();
        let p = &self.balance.population;
        &&& total_workers(s.buildings) <= usize::MAX
        &&& s.food < s.population ==> s.starvation_days < usize::MAX
        &&& s.population < s.max_population ==> s.population + p.increase_cost <= usize::MAX
        &&& evening_fits(morning(s, p, birth_roll, death_roll).0, &self.balance)
    }

    /// `tick` with these rolls stays within `usize` where it computes at all:
    /// a living colony before [`WIN_DAY`].
    pub open spec fn day_guard(&self, birth_roll: nat, death_roll: nat) -> bool {
        self.colony.population > 0 && self.world.days < WIN_DAY ==> self.day_fits(
            birth_roll,
            death_roll,
        )
    }

    /// `g1` is `g0` after one `tick` with the given rolls, which returned `ending`.
    pub open spec fn ticked(
        g0: &Game,
        g1: &Game,
        ending: Option<Ending>,
        birth_roll: nat,
        death_roll: nat,
    ) -> bool {
        let out = day_outcome(
            g0.colony.settlement(),
            &g0.balance,
            g0.world.days as nat,
            g0.gameover,
            birth_roll,
            death_roll,
        );
        &&& g1.colony.settlement() == out.settlement
        &&& g1.colony.name == g0.colony.name
        &&& g1.world.days == out.days
        &&& g1.gameover == out.gameover
        &&& g1.balance == g0.balance
        &&& g1.log_lines() == with_logs(g0.log_lines(), g0.world.days as nat, out.texts)
        &&& ending == out.ending
    }
}

fn consumed_message(rations: usize) -> (m: String)
    ensures
        m@ == consumed_text(rations as nat),
{
    let mut m = String::new();
    push_str(&mut m, "Colony consumes ");
    push_usize(&mut m, rations);
    push_str(&mut m, " food");
    assert(m@ =~= consumed_text(rations as nat));
    m
}

fn birth_message(chance: u8, cost: usize) -> (m: String)
    ensures
        m@ == birth_text(chance as nat, cost as nat),
{
    let mut m = String::new();
    push_str(&mut m, "Birth! population +1 (chance ");
    push_usize(&mut m, chance as usize);
    push_str(&mut m, "%), food -");
    push_usize(&mut m, cost);
    assert(m@ =~= birth_text(chance as nat, cost as nat));
    m
}

fn hungry_message(rations: usize, pop: usize, deficit: usize, day: usize, of: usize) -> (m: String)
    ensures
        m@ == hungry_text(rations as nat, pop as nat, deficit as nat, day as nat, of as nat),
{
    let mut m = String::new();
    push_str(&mut m, "Hungry: fed ");
    push_usize(&mut m, rations);
    push_str(&mut m, "/");
    push_usize(&mut m, pop);
    push_str(&mut m, " (");
    push_usize(&mut m, deficit);
    push_str(&mut m, " unfed, day ");
    push_usize(&mut m, day);
    push_str(&mut m, " of ");
    push_usize(&mut m, of);
    push_str(&mut m, ")");
    assert(m@ =~= hungry_text(rations as nat, pop as nat, deficit as nat, day as nat, of as nat));
    m
}

fn death_message(guaranteed: bool, chance: u8) -> (m: String)
    ensures
        m@ == death_text(guaranteed, chance as nat),
{
    let mut m = String::new();
    if guaranteed {
        push_str(&mut m, "A settler died of starvation (prolonged hunger).");
    } else {
        push_str(&mut m, "A settler died of starvation (");
        push_usize(&mut m, chance as usize);
        push_str(&mut m, "% roll failed).");
    }
    assert(m@ =~= death_text(guaranteed, chance as nat));
    m
}

fn spoiled_message(spoiled: usize, food: usize, max_food: usize) -> (m: String)
    ensures
        m@ == spoiled_text(spoiled as nat, food as nat, max_food as nat),
{
    let mut m = String::new();
    push_str(&mut m, "Spoiled ");
    push_usize(&mut m, spoiled);
    push_str(&mut m, " food (storage ");
    push_usize(&mut m, food);
    push_str(&mut m, "/");
    push_usize(&mut m, max_food);
    push_str(&mut m, ")");
    assert(m@ =~= spoiled_text(spoiled as nat, food as nat, max_food as nat));
    m
}

fn food_lost_message(lost: usize) -> (m: String)
    ensures
        m@ == food_lost_text(lost as nat),
{
    let mut m = String::new();
    push_usize(&mut m, lost);
    push_str(&mut m, " food did not fit in storage");
    assert(m@ =~= food_lost_text(lost as nat));
    m
}

/// The day's death chance: `min(100, percent × deficit)`.
fn starvation_chance(percent: u8, deficit: usize) -> (c: u8)
    ensures
        c == death_chance(percent, deficit as nat),
{
    if deficit > 100 {
        if percent == 0 {
            assert(percent as nat * deficit as nat == 0) by (nonlinear_arith)
                requires
                    percent == 0,
            ;
            0
        } else {
            assert(percent as nat * deficit as nat > 100) by (nonlinear_arith)
                requires
                    percent >= 1,
                    deficit > 100,
            ;
            100
        }
    } else {
        assert(percent as nat * deficit as nat <= 255 * 100) by (nonlinear_arith)
            requires
                percent <= 255,
                deficit <= 100,
        ;
        let p: u32 = (percent as u32) * (deficit as u32);
        assert(p == percent as nat * deficit as nat);
        if p > 100 {
            100
        } else {
            p as u8
        }
    }
}

impl Game {
    /// Append a log line prefixed with the current day; drop the oldest beyond
    /// [`MAX_LOG_SIZE`].
    pub fn logs(&mut self, text: String)
        ensures
            final(self).log_lines() == with_log(
                old(self).log_lines(),
                log_line(old(self).world.days as nat, text@),
            ),
            final(self).colony == old(self).colony,
            final(self).world == old(self).world,
            final(self).balance == old(self).balance,
            final(self).gameover == old(self).gameover,
    {
        let mut line = String::new();
        push_str(&mut line, "Day ");
        push_usize(&mut line, self.world.days);
        push_str(&mut line, " | ");
        push_str(&mut line, text.as_str());
        assert(line@ =~= log_line(self.world.days as nat, text@));
        let ghost before = self.log_lines();
        self.logs.push(line);
        assert(self.log_lines() =~= before.push(log_line(self.world.days as nat, text@)));
        let extra = self.logs.len().saturating_sub(MAX_LOG_SIZE);
        if extra > 0 {
            let ghost full = self.logs@;
            let kept = self.logs.split_off(extra);
            self.logs = kept;
            assert(self.log_lines() =~= before.push(log_line(self.world.days as nat, text@)).skip(
                extra as int,
            ));
        }
    }

    /// Records the end of the game when the colony is dead or has reached
    /// [`WIN_DAY`]; says which ending the player is to be told of.
    fn check_end_conditions(&mut self) -> (r: Option<Ending>)
        ensures
            old(self).colony.population == 0 ==> final(self).gameover && r == (if old(self).gameover {
                None
            } else {
                Some(Ending::ColonyDead)
            }),
            old(self).colony.population != 0 && old(self).world.days >= WIN_DAY ==> final(self).gameover && r == Some(Ending::Victory),
            old(self).colony.population != 0 && old(self).world.days < WIN_DAY ==> final(self).gameover == old(self).gameover && r is None,
            final(self).colony == old(self).colony,
            final(self).world == old(self).world,
            final(self).balance == old(self).balance,
            final(self).logs == old(self).logs,
    {
        if self.colony.population == 0 {
            let told = if !self.gameover {
                Some(Ending::ColonyDead)
            } else {
                None
            };
            self.gameover = true;
            told
        } else if self.world.days >= WIN_DAY {
            self.gameover = true;
            Some(Ending::Victory)
        } else {
            None
        }
    }

    /// The morning of a day: rations, then a birth or a starvation death.
    fn feed_colony(&mut self, birth_roll: u8, death_roll: u8)
        requires
            old(self).colony.population > 0,
            old(self).colony.food < old(self).colony.population ==> old(self).colony.starvation_days < usize::MAX,
            old(self).colony.population < old(self).colony.max_population ==> old(self).colony.population + old(self).balance.population.increase_cost <= usize::MAX,
        ensures
            final(self).colony.settlement() == morning(
                old(self).colony.settlement(),
                &old(self).balance.population,
                birth_roll as nat,
                death_roll as nat,
            ).0,
            final(self).log_lines() == with_logs(
                old(self).log_lines(),
                old(self).world.days as nat,
                morning(
                    old(self).colony.settlement(),
                    &old(self).balance.population,
                    birth_roll as nat,
                    death_roll as nat,
                ).1,
            ),
            final(self).colony.name == old(self).colony.name,
            final(self).world == old(self).world,
            final(self).balance == old(self).balance,
            final(self).gameover == old(self).gameover,
    {
        let ghost s0 = self.colony.settlement();
        let ghost l0 = self.log_lines();
        let ghost day = self.world.days as nat;
        let pop = self.colony.population;
        let rations = if self.colony.food < pop {
            self.colony.food
        } else {
            pop
        };
        self.colony.food = self.colony.food - rations;
        let deficit = pop - rations;
        if deficit == 0 {
            self.colony.starvation_days = 0;
            self.logs(consumed_message(rations));
            let ghost t1 = consumed_text(rations as nat);
            proof {
                lemma_with_logs_one(l0, day, t1);
            }
            if self.colony.population >= self.balance.population.min_population_for_birth
                && self.colony.population < self.colony.max_population {
                let min_food = self.colony.population + self.balance.population.increase_cost;
                if self.colony.food >= min_food {
                    let chance = self.balance.population.birth_chance_percent;
                    if birth_roll < chance {
                        self.colony.food = self.colony.food.saturating_sub(
                            self.balance.population.increase_cost,
                        );
                        self.colony.population = self.colony.population + 1;
                        let cost = self.balance.population.increase_cost;
                        self.logs(birth_message(chance, cost));
                        proof {
                            let t2 = birth_text(chance as nat, cost as nat);
                            lemma_with_logs_one(with_logs(l0, day, seq![t1]), day, t2);
                            lemma_with_logs_append(l0, day, seq![t1], seq![t2]);
                            assert(seq![t1] + seq![t2] =~= seq![t1, t2]);
                        }
                    }
                }
            }
        } else {
            self.colony.starvation_days = self.colony.starvation_days + 1;
            let days = self.colony.starvation_days;
            let of = self.balance.population.starvation_days_to_death;
            self.logs(hungry_message(rations, pop, deficit, days, of));
            let ghost t1 = hungry_text(
                rations as nat,
                pop as nat,
                deficit as nat,
                days as nat,
                of as nat,
            );
            proof {
                lemma_with_logs_one(l0, day, t1);
            }
            let chance = starvation_chance(
                self.balance.population.starvation_death_chance_percent,
                deficit,
            );
            let guaranteed = days >= of;
            if guaranteed || death_roll < chance {
                self.colony.population = self.colony.population.saturating_sub(1);
                self.logs(death_message(guaranteed, chance));
                proof {
                    let t2 = death_text(guaranteed, chance as nat);
                    lemma_with_logs_one(with_logs(l0, day, seq![t1]), day, t2);
                    lemma_with_logs_append(l0, day, seq![t1], seq![t2]);
                    assert(seq![t1] + seq![t2] =~= seq![t1, t2]);
                }
            }
        }
    }

    /// The evening of a day: spoilage, worker clamp, passive production.
    fn close_day(&mut self)
        requires
            total_workers(old(self).colony.buildings@) <= usize::MAX,
            evening_fits(old(self).colony.settlement(), &old(self).balance),
        ensures
            final(self).colony.settlement() == evening(
                old(self).colony.settlement(),
                &old(self).balance,
            ).0,
            final(self).log_lines() == with_logs(
                old(self).log_lines(),
                old(self).world.days as nat,
                evening(old(self).colony.settlement(), &old(self).balance).1,
            ),
            final(self).colony.name == old(self).colony.name,
            final(self).world == old(self).world,
            final(self).balance == old(self).balance,
            final(self).gameover == old(self).gameover,
    {
        let ghost s0 = self.colony.settlement();
        let ghost l0 = self.log_lines();
        let ghost day = self.world.days as nat;
        let ghost spoil_texts: Seq<Seq<char>> = seq![];
        if self.colony.food > self.colony.max_food {
            let spoiled = self.colony.food - self.colony.max_food;
            self.colony.food = self.colony.max_food;
            self.logs(spoiled_message(spoiled, self.colony.food, self.colony.max_food));
            proof {
                spoil_texts = seq![
                    spoiled_text(spoiled as nat, self.colony.max_food as nat, self.colony.max_food as nat),
                ];
                lemma_with_logs_one(l0, day, spoil_texts[0]);
            }
        }
        let ghost l1 = self.log_lines();
        assert(l1 == with_logs(l0, day, spoil_texts));
        self.colony.clamp_workers(&self.balance);
        proof {
            lemma_drain(cap_all(s0.buildings, &self.balance.buildings), s0.population);
            lemma_cap_all_total(s0.buildings, &self.balance.buildings);
        }
        let (_, _, _, food_lost) = self.colony.apply_passive_income(&self.balance);
        let ghost lost_texts: Seq<Seq<char>> = seq![];
        if food_lost > 0 {
            self.logs(food_lost_message(food_lost));
            proof {
                lost_texts = seq![food_lost_text(food_lost as nat)];
                lemma_with_logs_one(l1, day, lost_texts[0]);
            }
        }
        proof {
            lemma_with_logs_append(l0, day, spoil_texts, lost_texts);
        }
    }

    /// End-of-day simulation with the day's rolls given: food, births or
    /// starvation, spoilage, worker clamp, passive income, day++.
    pub fn tick_with_rolls(&mut self, birth_roll: u8, death_roll: u8) -> (r: Option<Ending>)
        requires
            old(self).day_guard(birth_roll as nat, death_roll as nat),
        ensures
            Game::ticked(old(self), final(self), r, birth_roll as nat, death_roll as nat),
            old(self).colony.population > 0 && old(self).world.days < WIN_DAY ==> {
                &&& final(self).world.days == old(self).world.days + 1
                &&& final(self).colony.food <= final(self).colony.max_food
                &&& final(self).colony.max_food == old(self).colony.max_food
                &&& final(self).colony.max_population == old(self).colony.max_population
                &&& final(self).gameover == (old(self).gameover || final(self).colony.population
                    == 0 || final(self).world.days >= WIN_DAY)
                &&& final(self).colony.population > 0 ==> final(self).colony.assigned()
                    <= final(self).colony.population
            },
    {
        proof {
            use_type_invariant(&self.colony.buildings);
        }
        if self.colony.population == 0 {
            let r = self.check_end_conditions();
            assert(with_logs(old(self).log_lines(), old(self).world.days as nat, seq![])
                == old(self).log_lines());
            return r;
        }
        if self.world.days >= WIN_DAY {
            self.gameover = true;
            assert(with_logs(old(self).log_lines(), old(self).world.days as nat, seq![])
                == old(self).log_lines());
            return Some(Ending::Victory);
        }
        self.feed_colony(birth_roll, death_roll);
        if self.colony.population == 0 {
            let r = self.check_end_conditions();
            self.world.days = self.world.days + 1;
            return r;
        }
        let ghost l1 = self.log_lines();
        let ghost m = self.colony.settlement();
        self.close_day();
        proof {
            lemma_with_logs_append(
                old(self).log_lines(),
                old(self).world.days as nat,
                morning(
                    old(self).colony.settlement(),
                    &old(self).balance.population,
                    birth_roll as nat,
                    death_roll as nat,
                ).1,
                evening(m, &old(self).balance).1,
            );
        }
        self.world.days = self.world.days + 1;
        let r = self.check_end_conditions();
        proof {
            assert(Game::ticked(old(self), self, r, birth_roll as nat, death_roll as nat));
            lemma_day_keeps_crews_valid(old(self), self, r, birth_roll as nat, death_roll as nat);
            lemma_day_food_within_storage(
                old(self).colony.settlement(),
                &old(self).balance,
                old(self).world.days as nat,
                old(self).gameover,
                birth_roll as nat,
                death_roll as nat,
            );
        }
        r
    }

    /// End-of-day simulation: food, births, spoilage, worker clamp, passive
    /// income, day++. The birth and death rolls are drawn from `rand`.
    pub fn tick(&mut self) -> (r: Option<Ending>)
        requires
            forall|b: nat, d: nat| b < 100 && d < 100 ==> #[trigger] old(self).day_guard(b, d),
        ensures
            exists|b: nat, d: nat|
                b < 100 && d < 100 && #[trigger] Game::ticked(old(self), final(self), r, b, d),
            old(self).colony.population > 0 && old(self).world.days < WIN_DAY ==> {
                &&& final(self).world.days == old(self).world.days + 1
                &&& final(self).colony.food <= final(self).colony.max_food
                &&& final(self).colony.max_food == old(self).colony.max_food
                &&& final(self).colony.max_population == old(self).colony.max_population
                &&& final(self).gameover == (old(self).gameover || final(self).colony.population
                    == 0 || final(self).world.days >= WIN_DAY)
                &&& final(self).colony.population > 0 ==> final(self).colony.assigned()
                    <= final(self).colony.population
            },
    {
        let mut rng = thread_rng();
        let birth_roll = roll_below(&mut rng, 100);
        let death_roll = roll_below(&mut rng, 100);
        assert(old(self).day_guard(birth_roll as nat, death_roll as nat));
        let r = self.tick_with_rolls(birth_roll, death_roll);
        assert(Game::ticked(old(self), self, r, birth_roll as nat, death_roll as nat));
        r
    }
}

// ---------------------------------------------------------------------------
// Laws of the daily simulation.

/// Once over, a game stays over.
pub proof fn lemma_gameover_stays(
    s: Settlement,
    b: &Balance,
    days: nat,
    birth_roll: nat,
    death_roll: nat,
)
    ensures
        day_outcome(s, b, days, true, birth_roll, death_roll).gameover,
{
}

/// A day advances the calendar by exactly one, unless the colony was already
/// dead or the last day was already reached; then nothing but the game-over
/// flag changes.
pub proof fn lemma_day_advances(
    s: Settlement,
    b: &Balance,
    days: nat,
    gameover: bool,
    birth_roll: nat,
    death_roll: nat,
)
    ensures
        ({
            let out = day_outcome(s, b, days, gameover, birth_roll, death_roll);
            if s.population > 0 && days < WIN_DAY {
                out.days == days + 1
            } else {
                out.days == days && out.settlement == s && out.texts.len() == 0 && out.gameover
            }
        }),
{
}

/// After a full day the food in storage is within its cap.
pub proof fn lemma_day_food_within_storage(
    s: Settlement,
    b: &Balance,
    days: nat,
    gameover: bool,
    birth_roll: nat,
    death_roll: nat,
)
    requires
        s.population > 0,
        days < WIN_DAY,
        morning(s, &b.population, birth_roll, death_roll).0.population > 0,
    ensures
        day_outcome(s, b, days, gameover, birth_roll, death_roll).settlement.food <= s.max_food,
{
}

/// The population changes by at most one settler a day: it grows only when
/// everyone was fed, below the housing cap, with `pop + increase_cost` food
/// left after eating; it shrinks only when some settler went hungry.
pub proof fn lemma_population_step(
    s: Settlement,
    p: &PopulationBalance,
    birth_roll: nat,
    death_roll: nat,
)
    requires
        s.population > 0,
    ensures
        ({
            let m = morning(s, p, birth_roll, death_roll).0;
            &&& s.population - 1 <= m.population <= s.population + 1
            &&& m.population > s.population ==> {
                &&& s.food >= s.population
                &&& s.population < s.max_population
                &&& s.food - s.population >= s.population + p.increase_cost
                &&& birth_roll < p.birth_chance_percent
            }
            &&& m.population < s.population ==> s.food < s.population
        }),
{
}

/// The morning's food and hunger counter: when there is a ration for every
/// settler, each eats one, the hunger counter is cleared, and a birth costs
/// `increase_cost` more; otherwise all the food is eaten and the counter
/// grows by one. Stocks of wood and stone, the caps and the buildings stay.
pub proof fn lemma_morning_rations(s: Settlement, p: &PopulationBalance, birth_roll: nat, death_roll: nat)
    ensures
        ({
            let m = morning(s, p, birth_roll, death_roll).0;
            &&& s.food >= s.population ==> {
                &&& m.starvation_days == 0
                &&& m.food == s.food - s.population - (if m.population > s.population {
                    p.increase_cost as int
                } else {
                    0
                })
            }
            &&& s.food < s.population ==> m.starvation_days == s.starvation_days + 1 && m.food == 0
            &&& m.wood == s.wood
            &&& m.stone == s.stone
            &&& m.max_food == s.max_food
            &&& m.max_population == s.max_population
            &&& m.buildings == s.buildings
        }),
{
}

/// The evening's stocks: food above the cap spoils, then the farms' output
/// is added up to the cap; wood and stone grow by what the staffed lumber
/// yards and quarries give (crews clamped to the population first); the
/// population and the caps stay.
pub proof fn lemma_evening_stocks(s: Settlement, b: &Balance)
    ensures
        ({
            let e = evening(s, b).0;
            let crews = clamped(s.buildings, &b.buildings, s.population);
            let x = &b.buildings;
            let farm = staffed_kind(crews, BuildingKind::Farm, x) * x.farm_food_production;
            let kept = if s.food > s.max_food {
                s.max_food as int
            } else {
                s.food as int
            };
            &&& e.food == (if kept + farm > s.max_food {
                s.max_food as int
            } else {
                kept + farm
            })
            &&& e.wood == s.wood + staffed_kind(crews, BuildingKind::LumberYard, x)
                * x.lumber_yard_wood_production
            &&& e.stone == s.stone + staffed_kind(crews, BuildingKind::StoneQuarry, x)
                * x.stone_quarry_stone_production
            &&& e.buildings == crews
            &&& e.population == s.population
            &&& e.max_food == s.max_food
            &&& e.max_population == s.max_population
            &&& e.starvation_days == s.starvation_days
        }),
{
}

/// How a day ends: a colony found dead is reported dead once; one that
/// reaches the last day has won; a colony that dies during the day is
/// reported dead unless the game was already over; otherwise the game is won
/// exactly when the new day is the last.
pub proof fn lemma_day_ending(
    s: Settlement,
    b: &Balance,
    days: nat,
    gameover: bool,
    birth_roll: nat,
    death_roll: nat,
)
    ensures
        ({
            let out = day_outcome(s, b, days, gameover, birth_roll, death_roll);
            let dead = if gameover {
                None
            } else {
                Some(Ending::ColonyDead)
            };
            &&& s.population == 0 ==> out.ending == dead && out.gameover
            &&& s.population > 0 && days >= WIN_DAY ==> out.ending == Some(Ending::Victory)
                && out.gameover
            &&& s.population > 0 && days < WIN_DAY && out.settlement.population == 0 ==> out.ending
                == dead && out.gameover
            &&& s.population > 0 && days < WIN_DAY && out.settlement.population > 0 ==> out.ending
                == (if days + 1 >= WIN_DAY {
                Some(Ending::Victory)
            } else {
                None
            }) && out.gameover == (gameover || days + 1 >= WIN_DAY)
        }),
{
}

/// A starving colony whose hunger has lasted `starvation_days_to_death` days
/// loses a settler whatever the roll.
pub proof fn lemma_prolonged_hunger_kills(
    s: Settlement,
    p: &PopulationBalance,
    birth_roll: nat,
    death_roll: nat,
)
    requires
        s.population > 0,
        s.food < s.population,
        s.starvation_days + 1 >= p.starvation_days_to_death,
    ensures
        morning(s, p, birth_roll, death_roll).0.population == s.population - 1,
{
}

/// The log never holds more than [`MAX_LOG_SIZE`] lines once it holds no more.
pub proof fn lemma_log_capped(lines: Seq<Seq<char>>, day: nat, texts: Seq<Seq<char>>)
    requires
        lines.len() <= MAX_LOG_SIZE,
    ensures
        with_logs(lines, day, texts).len() <= MAX_LOG_SIZE,
    decreases texts.len(),
{
    if texts.len() > 0 {
        lemma_log_capped(lines, day, texts.drop_last());
    }
}

/// Logging keeps the newest line last.
pub proof fn lemma_log_newest_last(lines: Seq<Seq<char>>, line: Seq<char>)
    ensures
        with_log(lines, line).len() > 0,
        with_log(lines, line).last() == line,
{
}

// ---------------------------------------------------------------------------
// Player actions.

pub open spec fn gathered_text(label: Seq<char>, gain: nat, free: nat) -> Seq<char> {
    "Gathered "@ + label + " (+"@ + decimal(gain) + ") with "@ + decimal(free)
        + " free settler(s)"@
}

pub open spec fn built_text(kind: BuildingKind, b: &Balance, max_food: nat) -> Seq<char> {
    let x = &b.buildings;
    let spent = |w: usize, s: usize| ", spent "@ + decimal(w as nat) + " wood, "@ + decimal(s as nat)
        + " stone"@;
    match kind {
        BuildingKind::Hut => "Hut built (+1), max pop +"@ + decimal(
            x.hut_max_population_increase as nat,
        ) + spent(x.build_hut_wood_cost, x.build_hut_stone_cost),
        BuildingKind::Barn => "Barn built (+"@ + decimal(x.barn_max_food_storage_increase as nat)
            + " food storage, max "@ + decimal(max_food) + ")"@ + spent(
            x.build_barn_wood_cost,
            x.build_barn_stone_cost,
        ),
        BuildingKind::Farm => "Farm built (+"@ + decimal(x.farm_food_production as nat)
            + " food/day when "@ + decimal(x.farm_max_workers as nat) + " workers assigned)"@
            + spent(x.build_farm_wood_cost, x.build_farm_stone_cost),
        BuildingKind::LumberYard => "Lumber yard built (+"@ + decimal(
            x.lumber_yard_wood_production as nat,
        ) + " wood/day when "@ + decimal(x.lumber_yard_max_workers as nat)
            + " workers assigned)"@ + spent(
            x.build_lumber_yard_wood_cost,
            x.build_lumber_yard_stone_cost,
        ),
        BuildingKind::StoneQuarry => "Stone quarry built (+"@ + decimal(
            x.stone_quarry_stone_production as nat,
        ) + " stone/day when "@ + decimal(x.stone_quarry_max_workers as nat)
            + " workers assigned)"@ + spent(
            x.build_stone_quarry_wood_cost,
            x.build_stone_quarry_stone_cost,
        ),
    }
}

pub open spec fn set_workers_text(label: Seq<char>, count: nat) -> Seq<char> {
    "Set "@ + label + " workers to "@ + decimal(count) + "."@
}

pub open spec fn workers_text(farms: nat, lumber: nat, quarries: nat, free: nat) -> Seq<char> {
    "Workers: farms "@ + decimal(farms) + ", lumber "@ + decimal(lumber) + ", quarries "@
        + decimal(quarries) + " ("@ + decimal(free) + " free for gathering)"@
}

/// Understaffing warnings for a building list, farms first.
pub open spec fn understaffed_lines(s: Seq<Building>, b: &Balance) -> Seq<Seq<char>> {
    present_lines(
        understaffed_line(s, BuildingKind::Farm, b),
        understaffed_line(s, BuildingKind::LumberYard, b),
        understaffed_line(s, BuildingKind::StoneQuarry, b),
    )
}

/// Slot counts of the production kinds among `s` fit in `usize`.
pub open spec fn slots_fit_in(s: Seq<Building>, b: &Balance) -> bool {
    &&& count_kind(s, BuildingKind::Farm) * BuildingKind::Farm.required(&b.buildings)
        <= usize::MAX
    &&& count_kind(s, BuildingKind::LumberYard) * BuildingKind::LumberYard.required(&b.buildings)
        <= usize::MAX
    &&& count_kind(s, BuildingKind::StoneQuarry) * BuildingKind::StoneQuarry.required(
        &b.buildings,
    ) <= usize::MAX
}

/// Food that a food gather would bring beyond free storage.
pub open spec fn gather_overflow(c: &Colony, b: &Balance, kind: ResourceKind) -> nat {
    if kind == ResourceKind::Food {
        sat_sub(c.yield_of(kind, b), sat_sub(c.max_food as int, c.food as int)) as nat
    } else {
        0
    }
}

/// Whether the costs of `kind` can be paid.
pub open spec fn affordable(c: &Colony, b: &Balance, kind: BuildingKind) -> bool {
    c.wood >= kind.wood_cost(&b.buildings) && c.stone >= kind.stone_cost(&b.buildings)
}

/// The building list right after a `build(kind)` attempt.
pub open spec fn after_build(c: &Colony, b: &Balance, kind: BuildingKind) -> Seq<Building> {
    if affordable(c, b, kind) {
        c.buildings@.push(Building { kind, assigned: 0 })
    } else {
        c.buildings@
    }
}

/// Whether `set_workers(kind, count)` succeeds.
pub open spec fn assignable(c: &Colony, b: &Balance, kind: BuildingKind, count: nat) -> bool {
    &&& kind.employs()
    &&& count <= count_kind(c.buildings@, kind) * kind.required(&b.buildings)
    &&& other_workers(c.buildings@, kind) + count <= c.population
}

/// The text logged when `set_workers(kind, count)` fails.
pub open spec fn set_workers_error(c: &Colony, b: &Balance, kind: BuildingKind, count: nat) -> Seq<
    char,
> {
    if !kind.employs() {
        "That building does not use workers."@
    } else if count > count_kind(c.buildings@, kind) * kind.required(&b.buildings) {
        "Too many workers for that building type."@
    } else {
        "Not enough settlers — lower another assignment or grow population."@
    }
}

impl Game {
    /// `process_action(action)` stays within `usize`.
    pub open spec fn action_fits(&self, action: Actions) -> bool {
        let c = &self.colony;
        let b = &self.balance;
        match action {
            Actions::Gather(kind) => {
                &&& c.sums_fit()
                &&& c.yield_fits(kind, b)
                &&& c.stock(kind) + c.gain_of(kind, b) <= usize::MAX
            },
            Actions::Build(kind) => {
                &&& kind == BuildingKind::Hut ==> c.max_population
                    + b.buildings.hut_max_population_increase <= usize::MAX
                &&& kind == BuildingKind::Barn ==> c.max_food
                    + b.buildings.barn_max_food_storage_increase <= usize::MAX
                &&& kind.employs() ==> c.sums_fit() && slots_fit_in(after_build(c, b, kind), b)
            },
            Actions::SetWorkers { kind, count } => {
                &&& c.sums_fit()
                &&& kind.employs() ==> slots_fit_in(c.buildings@, b)
                &&& assignable(c, b, kind, count as nat) ==> total_workers(
                    spread(c.buildings@, kind, kind.required(&b.buildings) as nat, count as nat),
                ) <= usize::MAX
            },
            _ => true,
        }
    }

    /// `g1` is `g0` after `process_action(action)`.
    pub open spec fn acted(g0: &Game, g1: &Game, action: Actions) -> bool {
        let c0 = &g0.colony;
        let c1 = &g1.colony;
        let b = &g0.balance;
        let day = g0.world.days as nat;
        &&& g1.world == g0.world
        &&& g1.balance == g0.balance
        &&& g1.gameover == g0.gameover
        &&& match action {
            Actions::Gather(kind) => if c0.free() == 0 {
                &&& *c1 == *c0
                &&& g1.log_lines() == with_logs(
                    g0.log_lines(),
                    day,
                    seq![
                        "No free settlers — everyone works at buildings. Grow population or leave fewer workers assigned."@,
                    ],
                )
            } else {
                let lost = gather_overflow(c0, b, kind);
                &&& *c1 == c0.with_stock(kind, (c0.stock(kind) + c0.gain_of(kind, b)) as usize)
                &&& g1.log_lines() == with_logs(
                    g0.log_lines(),
                    day,
                    seq![gathered_text(kind.label_text(), c0.gain_of(kind, b) as nat, c0.free() as nat)]
                        + if lost > 0 {
                        seq![food_lost_text(lost)]
                    } else {
                        seq![]
                    },
                )
            },
            Actions::Build(kind) => {
                let made = after_build(c0, b, kind);
                let base = if affordable(c0, b, kind) {
                    c0.built(kind, b)
                } else {
                    *c0
                };
                let told = if c0.wood < kind.wood_cost(&b.buildings) {
                    "Not enough wood for this building!"@
                } else if c0.stone < kind.stone_cost(&b.buildings) {
                    "Not enough stone for this building!"@
                } else {
                    built_text(kind, b, base.max_food as nat)
                };
                &&& *c1 == (Colony { buildings: c1.buildings, ..base })
                &&& c1.buildings@ == if kind.employs() {
                    clamped(made, &b.buildings, c0.population as nat)
                } else {
                    made
                }
                &&& g1.log_lines() == with_logs(
                    g0.log_lines(),
                    day,
                    seq![told] + if kind.employs() {
                        understaffed_lines(c1.buildings@, b)
                    } else {
                        seq![]
                    },
                )
            },
            Actions::SetWorkers { kind, count } => if assignable(c0, b, kind, count as nat) {
                &&& *c1 == (Colony { buildings: c1.buildings, ..*c0 })
                &&& c1.buildings@ == spread(
                    c0.buildings@,
                    kind,
                    kind.required(&b.buildings) as nat,
                    count as nat,
                )
                &&& g1.log_lines() == with_logs(
                    g0.log_lines(),
                    day,
                    seq![
                        set_workers_text(kind.label_text(), count as nat),
                        workers_text(
                            workers_kind(c1.buildings@, BuildingKind::Farm),
                            workers_kind(c1.buildings@, BuildingKind::LumberYard),
                            workers_kind(c1.buildings@, BuildingKind::StoneQuarry),
                            c1.free() as nat,
                        ),
                    ] + understaffed_lines(c1.buildings@, b),
                )
            } else {
                &&& *c1 == *c0
                &&& g1.log_lines() == with_logs(
                    g0.log_lines(),
                    day,
                    seq![set_workers_error(c0, b, kind, count as nat)],
                )
            },
            _ => *c1 == *c0 && g1.log_lines() == g0.log_lines(),
        }
    }
}

fn gathered_message(label: &str, gain: usize, free: usize) -> (m: String)
    ensures
        m@ == gathered_text(label@, gain as nat, free as nat),
{
    let mut m = String::new();
    push_str(&mut m, "Gathered ");
    push_str(&mut m, label);
    push_str(&mut m, " (+");
    push_usize(&mut m, gain);
    push_str(&mut m, ") with ");
    push_usize(&mut m, free);
    push_str(&mut m, " free settler(s)");
    assert(m@ =~= gathered_text(label@, gain as nat, free as nat));
    m
}

fn push_spent(m: &mut String, wood: usize, stone: usize)
    ensures
        final(m)@ == old(m)@ + ", spent "@ + decimal(wood as nat) + " wood, "@ + decimal(
            stone as nat,
        ) + " stone"@,
{
    push_str(m, ", spent ");
    push_usize(m, wood);
    push_str(m, " wood, ");
    push_usize(m, stone);
    push_str(m, " stone");
    assert(m@ =~= old(m)@ + ", spent "@ + decimal(wood as nat) + " wood, "@ + decimal(
        stone as nat,
    ) + " stone"@);
}

fn set_workers_message(label: &str, count: usize) -> (m: String)
    ensures
        m@ == set_workers_text(label@, count as nat),
{
    let mut m = String::new();
    push_str(&mut m, "Set ");
    push_str(&mut m, label);
    push_str(&mut m, " workers to ");
    push_usize(&mut m, count);
    push_str(&mut m, ".");
    assert(m@ =~= set_workers_text(label@, count as nat));
    m
}

impl Game {
    /// Log current aggregate worker counts after a `w` command.
    fn log_worker_assignment(&mut self)
        requires
            old(self).colony.sums_fit(),
        ensures
            final(self).log_lines() == with_log(
                old(self).log_lines(),
                log_line(
                    old(self).world.days as nat,
                    workers_text(
                        workers_kind(old(self).colony.buildings@, BuildingKind::Farm),
                        workers_kind(old(self).colony.buildings@, BuildingKind::LumberYard),
                        workers_kind(old(self).colony.buildings@, BuildingKind::StoneQuarry),
                        old(self).colony.free() as nat,
                    ),
                ),
            ),
            final(self).colony == old(self).colony,
            final(self).world == old(self).world,
            final(self).balance == old(self).balance,
            final(self).gameover == old(self).gameover,
    {
        let mut m = String::new();
        push_str(&mut m, "Workers: farms ");
        push_usize(&mut m, self.colony.workers_on(BuildingKind::Farm));
        push_str(&mut m, ", lumber ");
        push_usize(&mut m, self.colony.workers_on(BuildingKind::LumberYard));
        push_str(&mut m, ", quarries ");
        push_usize(&mut m, self.colony.workers_on(BuildingKind::StoneQuarry));
        push_str(&mut m, " (");
        push_usize(&mut m, self.colony.free_workers());
        push_str(&mut m, " free for gathering)");
        assert(m@ =~= workers_text(
            workers_kind(self.colony.buildings@, BuildingKind::Farm),
            workers_kind(self.colony.buildings@, BuildingKind::LumberYard),
            workers_kind(self.colony.buildings@, BuildingKind::StoneQuarry),
            self.colony.free() as nat,
        ));
        self.logs(m);
    }

    /// Logs each understaffing warning of the colony.
    fn log_understaffed(&mut self)
        requires
            old(self).colony.sums_fit(),
            old(self).colony.slots_fit(&old(self).balance),
        ensures
            final(self).log_lines() == with_logs(
                old(self).log_lines(),
                old(self).world.days as nat,
                understaffed_lines(old(self).colony.buildings@, &old(self).balance),
            ),
            final(self).colony == old(self).colony,
            final(self).world == old(self).world,
            final(self).balance == old(self).balance,
            final(self).gameover == old(self).gameover,
    {
        let messages = self.colony.understaffed_messages(&self.balance);
        let ghost texts = understaffed_lines(old(self).colony.buildings@, &old(self).balance);
        let ghost l0 = self.log_lines();
        let ghost day = self.world.days as nat;
        let mut i: usize = 0;
        while i < messages.len()
            invariant
                i <= messages@.len(),
                messages@.map_values(|m: String| m@) == texts,
                self.log_lines() == with_logs(l0, day, texts.take(i as int)),
                self.colony == old(self).colony,
                self.world == old(self).world,
                self.balance == old(self).balance,
                self.gameover == old(self).gameover,
                day == self.world.days,
            decreases messages.len() - i,
        {
            let m = string_from(messages[i].as_str());
            assert(m@ == texts[i as int]);
            self.logs(m);
            assert(texts.take(i + 1).drop_last() =~= texts.take(i as int));
            i = i + 1;
        }
        assert(texts.take(i as int) =~= texts);
    }

    /// After a new production building: cap workers to valid slots and
    /// population, then warn about idle buildings.
    fn clamp_workers_after_build_change(&mut self)
        requires
            old(self).colony.sums_fit(),
            slots_fit_in(old(self).colony.buildings@, &old(self).balance),
        ensures
            final(self).colony.buildings@ == clamped(
                old(self).colony.buildings@,
                &old(self).balance.buildings,
                old(self).colony.population as nat,
            ),
            final(self).colony == (Colony {
                buildings: final(self).colony.buildings,
                ..old(self).colony
            }),
            final(self).log_lines() == with_logs(
                old(self).log_lines(),
                old(self).world.days as nat,
                understaffed_lines(final(self).colony.buildings@, &old(self).balance),
            ),
            final(self).world == old(self).world,
            final(self).balance == old(self).balance,
            final(self).gameover == old(self).gameover,
    {
        self.colony.clamp_workers(&self.balance);
        proof {
            let s0 = old(self).colony.buildings@;
            lemma_drain(cap_all(s0, &self.balance.buildings), self.colony.population as nat);
            assert forall|k: BuildingKind| #[trigger] count_kind(self.colony.buildings@, k)
                == count_kind(s0, k) by {
                crate::game::building::lemma_count_same_kinds(s0, self.colony.buildings@, k);
            }
        }
        self.log_understaffed();
    }

    fn worker_kind_label(kind: BuildingKind) -> (r: &'static str)
        ensures
            r@ == kind.label_text(),
    {
        kind.label()
    }

    /// Whether [`Self::process_action`] should clamp workers after handling the action.
    fn should_clamp_workers_after_action(action: &Actions) -> (r: bool)
        ensures
            r == (*action matches Actions::Build(kind) && kind.employs()),
    {
        match action {
            Actions::Build(kind) => kind.employs_workers(),
            _ => false,
        }
    }

    fn log_food_overflow(&mut self, lost: usize)
        ensures
            final(self).log_lines() == if lost > 0 {
                with_log(
                    old(self).log_lines(),
                    log_line(old(self).world.days as nat, food_lost_text(lost as nat)),
                )
            } else {
                old(self).log_lines()
            },
            final(self).colony == old(self).colony,
            final(self).world == old(self).world,
            final(self).balance == old(self).balance,
            final(self).gameover == old(self).gameover,
    {
        if lost > 0 {
            self.logs(food_lost_message(lost));
        }
    }

    fn log_build(&mut self, kind: BuildingKind)
        ensures
            final(self).log_lines() == with_log(
                old(self).log_lines(),
                log_line(
                    old(self).world.days as nat,
                    built_text(kind, &old(self).balance, old(self).colony.max_food as nat),
                ),
            ),
            final(self).colony == old(self).colony,
            final(self).world == old(self).world,
            final(self).balance == old(self).balance,
            final(self).gameover == old(self).gameover,
    {
        let b = &self.balance.buildings;
        let mut m = String::new();
        match kind {
            BuildingKind::Hut => {
                push_str(&mut m, "Hut built (+1), max pop +");
                push_usize(&mut m, b.hut_max_population_increase);
                push_spent(&mut m, b.build_hut_wood_cost, b.build_hut_stone_cost);
            },
            BuildingKind::Barn => {
                push_str(&mut m, "Barn built (+");
                push_usize(&mut m, b.barn_max_food_storage_increase);
                push_str(&mut m, " food storage, max ");
                push_usize(&mut m, self.colony.max_food);
                push_str(&mut m, ")");
                push_spent(&mut m, b.build_barn_wood_cost, b.build_barn_stone_cost);
            },
            BuildingKind::Farm => {
                push_str(&mut m, "Farm built (+");
                push_usize(&mut m, b.farm_food_production);
                push_str(&mut m, " food/day when ");
                push_usize(&mut m, b.farm_max_workers);
                push_str(&mut m, " workers assigned)");
                push_spent(&mut m, b.build_farm_wood_cost, b.build_farm_stone_cost);
            },
            BuildingKind::LumberYard => {
                push_str(&mut m, "Lumber yard built (+");
                push_usize(&mut m, b.lumber_yard_wood_production);
                push_str(&mut m, " wood/day when ");
                push_usize(&mut m, b.lumber_yard_max_workers);
                push_str(&mut m, " workers assigned)");
                push_spent(&mut m, b.build_lumber_yard_wood_cost, b.build_lumber_yard_stone_cost);
            },
            BuildingKind::StoneQuarry => {
                push_str(&mut m, "Stone quarry built (+");
                push_usize(&mut m, b.stone_quarry_stone_production);
                push_str(&mut m, " stone/day when ");
                push_usize(&mut m, b.stone_quarry_max_workers);
                push_str(&mut m, " workers assigned)");
                push_spent(
                    &mut m,
                    b.build_stone_quarry_wood_cost,
                    b.build_stone_quarry_stone_cost,
                );
            },
        }
        assert(m@ =~= built_text(kind, &self.balance, self.colony.max_food as nat));
        self.logs(m);
    }

    /// Apply one player action. Worker commands skip the day in the front end.
    pub fn process_action(&mut self, action: Actions)
        requires
            old(self).action_fits(action),
        ensures
            Game::acted(old(self), final(self), action),
    {
        let clamp_after = Self::should_clamp_workers_after_action(&action);
        let ghost l0 = self.log_lines();
        let ghost day = self.world.days as nat;
        match action {
            Actions::Gather(kind) => {
                let food_lost = if kind == ResourceKind::Food {
                    self.colony.food_yield(&self.balance).saturating_sub(
                        self.colony.max_food.saturating_sub(self.colony.food),
                    )
                } else {
                    0
                };
                match self.colony.gather(kind, &self.balance) {
                    Ok(gain) => {
                        let free = self.colony.free_workers();
                        self.logs(gathered_message(kind.label(), gain, free));
                        let ghost t1 = gathered_text(kind.label_text(), gain as nat, free as nat);
                        self.log_food_overflow(food_lost);
                        proof {
                            lemma_with_logs_one(l0, day, t1);
                            if food_lost > 0 {
                                let t2 = food_lost_text(food_lost as nat);
                                lemma_with_logs_one(with_logs(l0, day, seq![t1]), day, t2);
                                lemma_with_logs_append(l0, day, seq![t1], seq![t2]);
                                assert(seq![t1] + seq![t2] =~= seq![t1] + if food_lost > 0 {
                                    seq![t2]
                                } else {
                                    seq![]
                                });
                            } else {
                                assert(seq![t1] =~= seq![t1] + Seq::<Seq<char>>::empty());
                            }
                        }
                    },
                    Err(msg) => {
                        self.logs(string_from(msg));
                        proof {
                            lemma_with_logs_one(l0, day, msg@);
                        }
                    },
                }
            },
            Actions::Build(kind) => {
                match self.colony.build(kind, &self.balance) {
                    Ok(_) => self.log_build(kind),
                    Err(msg) => self.logs(string_from(msg)),
                }
                proof {
                    let told = if old(self).colony.wood < kind.wood_cost(&self.balance.buildings) {
                        "Not enough wood for this building!"@
                    } else if old(self).colony.stone < kind.stone_cost(&self.balance.buildings) {
                        "Not enough stone for this building!"@
                    } else {
                        built_text(kind, &self.balance, self.colony.max_food as nat)
                    };
                    lemma_with_logs_one(l0, day, told);
                }
            },
            Actions::SetWorkers { kind, count } => {
                match self.colony.set_workers(kind, count, &self.balance) {
                    Ok(()) => {
                        self.logs(set_workers_message(Self::worker_kind_label(kind), count));
                        self.log_worker_assignment();
                        let ghost l2 = self.log_lines();
                        proof {
                            crate::game::building::lemma_spread(
                                old(self).colony.buildings@,
                                kind,
                                kind.required(&self.balance.buildings) as nat,
                                count as nat,
                            );
                            assert forall|k: BuildingKind| #[trigger] count_kind(
                                self.colony.buildings@,
                                k,
                            ) == count_kind(old(self).colony.buildings@, k) by {
                                crate::game::building::lemma_count_same_kinds(
                                    old(self).colony.buildings@,
                                    self.colony.buildings@,
                                    k,
                                );
                            }
                        }
                        self.log_understaffed();
                        proof {
                            let t1 = set_workers_text(kind.label_text(), count as nat);
                            let t2 = workers_text(
                                workers_kind(self.colony.buildings@, BuildingKind::Farm),
                                workers_kind(self.colony.buildings@, BuildingKind::LumberYard),
                                workers_kind(self.colony.buildings@, BuildingKind::StoneQuarry),
                                self.colony.free() as nat,
                            );
                            lemma_with_logs_one(l0, day, t1);
                            lemma_with_logs_one(with_logs(l0, day, seq![t1]), day, t2);
                            lemma_with_logs_append(l0, day, seq![t1], seq![t2]);
                            assert(seq![t1] + seq![t2] =~= seq![t1, t2]);
                            lemma_with_logs_append(
                                l0,
                                day,
                                seq![t1, t2],
                                understaffed_lines(self.colony.buildings@, &self.balance),
                            );
                        }
                    },
                    Err(msg) => {
                        self.logs(string_from(msg));
                        proof {
                            lemma_with_logs_one(l0, day, msg@);
                        }
                    },
                }
            },
            _ => {},
        }
        if clamp_after {
            let ghost l1 = self.log_lines();
            proof {
                assert(self.colony.buildings@ == after_build(&old(self).colony, &self.balance, action->Build_0));
                if affordable(&old(self).colony, &self.balance, action->Build_0) {
                    assert(self.colony.buildings@.drop_last() =~= old(self).colony.buildings@);
                }
            }
            self.clamp_workers_after_build_change();
            proof {
                let k = action->Build_0;
                let told = if old(self).colony.wood < k.wood_cost(&self.balance.buildings) {
                    "Not enough wood for this building!"@
                } else if old(self).colony.stone < k.stone_cost(&self.balance.buildings) {
                    "Not enough stone for this building!"@
                } else {
                    built_text(
                        k,
                        &self.balance,
                        (if affordable(&old(self).colony, &self.balance, k) {
                            old(self).colony.built(k, &self.balance)
                        } else {
                            old(self).colony
                        }).max_food as nat,
                    )
                };
                lemma_with_logs_append(
                    l0,
                    day,
                    seq![told],
                    understaffed_lines(self.colony.buildings@, &self.balance),
                );
            }
        } else {
            proof {
                if action is Build {
                    assert(seq![
                        if old(self).colony.wood < action->Build_0.wood_cost(&self.balance.buildings) {
                            "Not enough wood for this building!"@
                        } else if old(self).colony.stone < action->Build_0.stone_cost(
                            &self.balance.buildings,
                        ) {
                            "Not enough stone for this building!"@
                        } else {
                            built_text(action->Build_0, &self.balance, self.colony.max_food as nat)
                        },
                    ] + Seq::<Seq<char>>::empty() =~= seq![
                        if old(self).colony.wood < action->Build_0.wood_cost(&self.balance.buildings) {
                            "Not enough wood for this building!"@
                        } else if old(self).colony.stone < action->Build_0.stone_cost(
                            &self.balance.buildings,
                        ) {
                            "Not enough stone for this building!"@
                        } else {
                            built_text(action->Build_0, &self.balance, self.colony.max_food as nat)
                        },
                    ]);
                }
            }
        }
    }
}

// ---------------------------------------------------------------------------
// Laws of play.

/// Huts and barns never get workers, whatever the player does.
pub proof fn lemma_action_keeps_crews_valid(g0: &Game, g1: &Game, action: Actions)
    requires
        Game::acted(g0, g1, action),
        crews_valid(g0.colony.buildings@),
    ensures
        crews_valid(g1.colony.buildings@),
{
    let s = g0.colony.buildings@;
    let b = &g0.balance;
    match action {
        Actions::Build(kind) => {
            lemma_crews_stay_valid(s, kind, &b.buildings, 0, 0);
            let made = after_build(&g0.colony, b, kind);
            lemma_crews_stay_valid(made, kind, &b.buildings, 0, g0.colony.population as nat);
        },
        Actions::SetWorkers { kind, count } => {
            lemma_crews_stay_valid(s, kind, &b.buildings, count as nat, 0);
        },
        _ => {},
    }
}

/// Huts and barns never get workers, whatever a day brings; and at the end
/// of a day no more settlers work than live.
pub proof fn lemma_day_keeps_crews_valid(
    g0: &Game,
    g1: &Game,
    ending: Option<Ending>,
    birth_roll: nat,
    death_roll: nat,
)
    requires
        Game::ticked(g0, g1, ending, birth_roll, death_roll),
        crews_valid(g0.colony.buildings@),
    ensures
        crews_valid(g1.colony.buildings@),
        g0.colony.population > 0 && g0.world.days < WIN_DAY && g1.colony.population > 0
            ==> g1.colony.assigned() <= g1.colony.population,
{
    let s = g0.colony.settlement();
    let m = morning(s, &g0.balance.population, birth_roll, death_roll).0;
    lemma_crews_stay_valid(s.buildings, BuildingKind::Hut, &g0.balance.buildings, 0, m.population);
}

impl Default for Game {
    fn default() -> (g: Self)
        ensures
            g.colony.is_start(),
            g.world.days == 1,
            g.logs@.len() == 0,
            g.balance.gather.is_default(),
            g.balance.population.is_default(),
            g.balance.buildings.is_default(),
            !g.gameover,
    {
        Game {
            colony: Colony::default(),
            world: World::default(),
            logs: Vec::with_capacity(100),
            balance: Balance::default(),
            gameover: false,
        }
    }
}

} // verus!
