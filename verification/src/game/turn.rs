//! One turn of play: what a read line does, and whether a day follows.
//!
//! Quitting ends the game and asking for help costs no day. Worker commands
//! and event answers are free turns. Every other action, and a line that is
//! empty or not understood (each logged with its message), is followed by
//! one day.

use crate::game::actions::Actions;
use crate::game::building::{
    cap_all, clamped, count_kind, lemma_cap_all_total, lemma_clamp_bounds, lemma_count_push,
    lemma_count_same_kinds, lemma_drain, total_workers, Building, BuildingKind,
};
use crate::game::dice::{roll_below, thread_rng};
use crate::game::limits::{action_bounds_fit, day_bounds_fit, lemma_day_bounds, lemma_mul_le};
use crate::game::resource::ResourceKind;
use crate::game::{affordable, after_build, lemma_day_advances, log_line, with_log, Ending, Game, WIN_DAY};
use crate::text::string_from;
use crate::ui::input::ActionInput;
use crate::ui::{EMPTY_COMMAND_MSG, INVALID_COMMAND_MSG};
use vstd::prelude::*;

verus! {

/// What became of a turn.
#[derive(PartialEq, Eq, Debug, Clone, Copy, Structural)]
pub enum TurnOutcome {
    /// The player asked to quit; nothing changed.
    Quit,
    /// The player asked for help; nothing changed.
    ShowHelp,
    /// The turn was played; `day_passed` tells whether a day followed, and
    /// `ending` what that day ended in, if anything.
    Played { day_passed: bool, ending: Option<Ending> },
}

/// Worker commands and event answers cost no day.
pub open spec fn free_turn(a: Actions) -> bool {
    a is SetWorkers || a is EventAnswer
}

impl Game {
    /// `g1` is `g0` with `text` logged on the current day, nothing else changed.
    pub open spec fn logged(g0: &Game, g1: &Game, text: Seq<char>) -> bool {
        &&& g1.colony == g0.colony
        &&& g1.world == g0.world
        &&& g1.balance == g0.balance
        &&& g1.gameover == g0.gameover
        &&& g1.log_lines() == with_log(g0.log_lines(), log_line(g0.world.days as nat, text))
    }

    /// `g1` is `g0` after one turn on `input` that gave `t`, a day (if one
    /// followed) having the given rolls.
    pub open spec fn turned(
        g0: &Game,
        g1: &Game,
        input: ActionInput,
        t: TurnOutcome,
        birth_roll: nat,
        death_roll: nat,
    ) -> bool {
        match input {
            ActionInput::Help => *g1 == *g0 && t == TurnOutcome::ShowHelp,
            ActionInput::Action(a) => if a == Actions::Quit {
                *g1 == *g0 && t == TurnOutcome::Quit
            } else if free_turn(a) {
                Game::acted(g0, g1, a) && t == (TurnOutcome::Played { day_passed: false, ending: None })
            } else {
                exists|mid: Game, e: Option<Ending>|
                    #![trigger Game::acted(g0, &mid, a), Game::ticked(&mid, g1, e, birth_roll, death_roll)]
                    t == (TurnOutcome::Played { day_passed: true, ending: e }) && Game::acted(
                        g0,
                        &mid,
                        a,
                    ) && Game::ticked(&mid, g1, e, birth_roll, death_roll)
            },
            ActionInput::Empty => exists|mid: Game, e: Option<Ending>|
                #![trigger Game::logged(g0, &mid, EMPTY_COMMAND_MSG@), Game::ticked(&mid, g1, e, birth_roll, death_roll)]
                t == (TurnOutcome::Played { day_passed: true, ending: e }) && Game::logged(
                    g0,
                    &mid,
                    EMPTY_COMMAND_MSG@,
                ) && Game::ticked(&mid, g1, e, birth_roll, death_roll),
            ActionInput::Invalid => exists|mid: Game, e: Option<Ending>|
                #![trigger Game::logged(g0, &mid, INVALID_COMMAND_MSG@), Game::ticked(&mid, g1, e, birth_roll, death_roll)]
                t == (TurnOutcome::Played { day_passed: true, ending: e }) && Game::logged(
                    g0,
                    &mid,
                    INVALID_COMMAND_MSG@,
                ) && Game::ticked(&mid, g1, e, birth_roll, death_roll),
        }
    }

    /// A turn on `input` with these rolls stays within `usize`.
    pub open spec fn turn_fits(&self, input: ActionInput, birth_roll: nat, death_roll: nat) -> bool {
        match input {
            ActionInput::Action(a) => a != Actions::Quit ==> {
                &&& self.action_fits(a)
                &&& !free_turn(a) ==> forall|mid: Game| #[trigger]
                    Game::acted(self, &mid, a) ==> mid.day_guard(birth_roll, death_roll)
            },
            ActionInput::Empty => self.day_guard(birth_roll, death_roll),
            ActionInput::Invalid => self.day_guard(birth_roll, death_roll),
            ActionInput::Help => true,
        }
    }

    /// Plays one turn on `input` with the given rolls for the day that may
    /// follow.
    pub fn play_turn_with_rolls(&mut self, input: ActionInput, birth_roll: u8, death_roll: u8) -> (t:
        TurnOutcome)
        requires
            old(self).turn_fits(input, birth_roll as nat, death_roll as nat),
        ensures
            Game::turned(old(self), final(self), input, t, birth_roll as nat, death_roll as nat),
    {
        match input {
            ActionInput::Help => TurnOutcome::ShowHelp,
            ActionInput::Action(a) => {
                if a == Actions::Quit {
                    return TurnOutcome::Quit;
                }
                let free = a.is_free_turn();
                self.process_action(a);
                if free {
                    return TurnOutcome::Played { day_passed: false, ending: None };
                }
                let ghost mid: Game = *self;
                assert(Game::acted(old(self), &mid, a));
                let e = self.tick_with_rolls(birth_roll, death_roll);
                assert(Game::ticked(&mid, self, e, birth_roll as nat, death_roll as nat));
                TurnOutcome::Played { day_passed: true, ending: e }
            },
            ActionInput::Empty => {
                self.logs(string_from(EMPTY_COMMAND_MSG));
                let ghost mid: Game = *self;
                assert(Game::logged(old(self), &mid, EMPTY_COMMAND_MSG@));
                let e = self.tick_with_rolls(birth_roll, death_roll);
                assert(Game::ticked(&mid, self, e, birth_roll as nat, death_roll as nat));
                TurnOutcome::Played { day_passed: true, ending: e }
            },
            ActionInput::Invalid => {
                self.logs(string_from(INVALID_COMMAND_MSG));
                let ghost mid: Game = *self;
                assert(Game::logged(old(self), &mid, INVALID_COMMAND_MSG@));
                let e = self.tick_with_rolls(birth_roll, death_roll);
                assert(Game::ticked(&mid, self, e, birth_roll as nat, death_roll as nat));
                TurnOutcome::Played { day_passed: true, ending: e }
            },
        }
    }

    /// Plays one turn on `input`; the rolls of a day that follows are drawn
    /// from `rand`.
    pub fn play_turn(&mut self, input: ActionInput) -> (t: TurnOutcome)
        requires
            forall|b: nat, d: nat| b < 100 && d < 100 ==> #[trigger] old(self).turn_fits(input, b, d),
        ensures
            exists|b: nat, d: nat|
                b < 100 && d < 100 && #[trigger] Game::turned(old(self), final(self), input, t, b, d),
    {
        let mut rng = thread_rng();
        let birth_roll = roll_below(&mut rng, 100);
        let death_roll = roll_below(&mut rng, 100);
        assert(old(self).turn_fits(input, birth_roll as nat, death_roll as nat));
        let t = self.play_turn_with_rolls(input, birth_roll, death_roll);
        assert(Game::turned(old(self), self, input, t, birth_roll as nat, death_roll as nat));
        t
    }
}

/// The sums a day after the action `a` may need, read off the state before
/// it: the crews, a day of hunger, a birth, and each stock (plus what a
/// gather of it brings) with the output of one more building of its kind
/// than there is, all as if fully staffed.
pub open spec fn turn_bounds_fit(g: &Game, a: Actions) -> bool {
    let c = &g.colony;
    let b = &g.balance;
    let x = &b.buildings;
    let s = c.buildings@;
    let wood_gain = if a == Actions::Gather(ResourceKind::Wood) {
        c.yield_of(ResourceKind::Wood, b)
    } else {
        0
    };
    let stone_gain = if a == Actions::Gather(ResourceKind::Stone) {
        c.yield_of(ResourceKind::Stone, b)
    } else {
        0
    };
    &&& total_workers(s) <= usize::MAX
    &&& c.starvation_days < usize::MAX
    &&& c.population + b.population.increase_cost <= usize::MAX
    &&& (count_kind(s, BuildingKind::Farm) + 1) * BuildingKind::Farm.output(x) <= usize::MAX
    &&& c.wood + wood_gain + (count_kind(s, BuildingKind::LumberYard) + 1)
        * BuildingKind::LumberYard.output(x) <= usize::MAX
    &&& c.stone + stone_gain + (count_kind(s, BuildingKind::StoneQuarry) + 1)
        * BuildingKind::StoneQuarry.output(x) <= usize::MAX
}

/// Appending an instance adds its crew to the total.
proof fn lemma_total_push(s: Seq<Building>, x: Building)
    ensures
        total_workers(s.push(x)) == total_workers(s) + x.assigned,
{
    assert(s.push(x).drop_last() =~= s);
}

/// After a gather or a build whose sums fit, the day that follows fits.
pub proof fn lemma_turn_day(g: &Game, mid: &Game, a: Actions)
    requires
        Game::acted(g, mid, a),
        a is Gather || a is Build,
        action_bounds_fit(g, a),
        turn_bounds_fit(g, a),
    ensures
        day_bounds_fit(mid),
{
    let c = &g.colony;
    let b = &g.balance;
    let x = &b.buildings;
    let s = c.buildings@;
    let t = mid.colony.buildings@;
    let kinds = seq![BuildingKind::Farm, BuildingKind::LumberYard, BuildingKind::StoneQuarry];
    if a is Build {
        let k = a->Build_0;
        let made = after_build(c, b, k);
        lemma_total_push(s, Building { kind: k, assigned: 0 });
        assert forall|j: int| 0 <= j < 3 implies count_kind(made, #[trigger] kinds[j])
            <= count_kind(s, kinds[j]) + 1 by {
            lemma_count_push(s, Building { kind: k, assigned: 0 }, kinds[j]);
        }
        if k.employs() {
            lemma_clamp_bounds(made, x, c.population as nat);
            lemma_drain(cap_all(made, x), c.population as nat);
            lemma_cap_all_total(made, x);
            assert forall|j: int| 0 <= j < 3 implies count_kind(t, #[trigger] kinds[j])
                == count_kind(made, kinds[j]) by {
                lemma_count_same_kinds(made, t, kinds[j]);
            }
        }
        assert forall|j: int| 0 <= j < 3 implies count_kind(t, #[trigger] kinds[j])
            <= count_kind(s, kinds[j]) + 1 by {}
    } else {
        assert(t == s);
    }
    assert forall|j: int| 0 <= j < 3 implies count_kind(t, #[trigger] kinds[j])
        * kinds[j].output(x) <= (count_kind(s, kinds[j]) + 1) * kinds[j].output(x) by {
        lemma_mul_le(count_kind(t, kinds[j]), count_kind(s, kinds[j]) + 1, kinds[j].output(x) as nat);
    }
    assert(count_kind(t, kinds[0]) * kinds[0].output(x) <= (count_kind(s, kinds[0]) + 1)
        * kinds[0].output(x));
    assert(count_kind(t, kinds[1]) * kinds[1].output(x) <= (count_kind(s, kinds[1]) + 1)
        * kinds[1].output(x));
    assert(count_kind(t, kinds[2]) * kinds[2].output(x) <= (count_kind(s, kinds[2]) + 1)
        * kinds[2].output(x));
}

/// Whether `stock + gain + (count + 1) × output` fits in `usize`.
fn sum_in_range(stock: usize, gain: usize, count: usize, output: usize) -> (r: bool)
    ensures
        r == (stock + gain + (count + 1) * output <= usize::MAX),
{
    let total = match stock.checked_add(gain) {
        Some(t) => t,
        None => {
            assert((count + 1) * output >= 0) by (nonlinear_arith);
            return false;
        },
    };
    match count.checked_add(1) {
        Some(n) => match n.checked_mul(output) {
            Some(p) => total.checked_add(p).is_some(),
            None => false,
        },
        None => {
            if output == 0 {
                assert((count + 1) * output == 0) by (nonlinear_arith)
                    requires
                        output == 0,
                ;
                true
            } else {
                assert((count + 1) * output > usize::MAX) by (nonlinear_arith)
                    requires
                        output >= 1,
                        count + 1 > usize::MAX,
                ;
                false
            }
        },
    }
}

impl Game {
    /// Whether `play_turn(input)` stays within `usize`, whatever the rolls.
    /// For a gather or a build it looks at the day after as if one more
    /// building of each producing kind stood and all were fully staffed, so
    /// it may say no a little before the turn itself would overflow.
    pub fn turn_in_range(&self, input: ActionInput) -> (r: bool)
        ensures
            r ==> forall|b: nat, d: nat| b < 100 && d < 100 ==> #[trigger] self.turn_fits(input, b, d),
            r == match input {
                ActionInput::Action(a) => a == Actions::Quit || (action_bounds_fit(self, a) && (
                free_turn(a) || turn_bounds_fit(self, a))),
                ActionInput::Empty => day_bounds_fit(self),
                ActionInput::Invalid => day_bounds_fit(self),
                ActionInput::Help => true,
            },
    {
        match input {
            ActionInput::Help => true,
            ActionInput::Empty => {
                let r = self.day_in_range();
                proof {
                    if r {
                        lemma_day_bounds(self);
                    }
                }
                r
            },
            ActionInput::Invalid => {
                let r = self.day_in_range();
                proof {
                    if r {
                        lemma_day_bounds(self);
                    }
                }
                r
            },
            ActionInput::Action(a) => {
                if a == Actions::Quit {
                    return true;
                }
                if !self.action_in_range(a) {
                    return false;
                }
                if a.is_free_turn() {
                    return true;
                }
                let c = &self.colony;
                let b = &self.balance;
                let x = &b.buildings;
                let total_fits = c.buildings.checked_total().is_some();
                let wood_gain = if a == Actions::Gather(ResourceKind::Wood) {
                    c.wood_yield(b)
                } else {
                    0
                };
                let stone_gain = if a == Actions::Gather(ResourceKind::Stone) {
                    c.stone_yield(b)
                } else {
                    0
                };
                let fits = total_fits && c.starvation_days < usize::MAX
                    && c.population.checked_add(b.population.increase_cost).is_some()
                    && sum_in_range(
                    0,
                    0,
                    c.count(BuildingKind::Farm),
                    BuildingKind::Farm.passive_output(x),
                ) && sum_in_range(
                    c.wood,
                    wood_gain,
                    c.count(BuildingKind::LumberYard),
                    BuildingKind::LumberYard.passive_output(x),
                ) && sum_in_range(
                    c.stone,
                    stone_gain,
                    c.count(BuildingKind::StoneQuarry),
                    BuildingKind::StoneQuarry.passive_output(x),
                );
                proof {
                    if fits {
                        assert(turn_bounds_fit(self, a));
                        assert forall|bb: nat, dd: nat| bb < 100 && dd < 100 implies #[trigger] self.turn_fits(
                            input,
                            bb,
                            dd,
                        ) by {
                            assert forall|mid: Game| #[trigger]
                                Game::acted(self, &mid, a) implies mid.day_guard(bb, dd) by {
                                lemma_turn_day(self, &mid, a);
                                lemma_day_bounds(&mid);
                            }
                        }
                    }
                }
                fits
            },
        }
    }
}

/// Which inputs cost a day: help and quit change nothing; a worker command
/// or an event answer leaves the calendar where it was; any other action,
/// and an empty or unreadable line, moves a living colony before the last
/// day one day on.
pub proof fn lemma_turn_days(
    g0: &Game,
    g1: &Game,
    input: ActionInput,
    t: TurnOutcome,
    birth_roll: nat,
    death_roll: nat,
)
    requires
        Game::turned(g0, g1, input, t, birth_roll, death_roll),
    ensures
        input == ActionInput::Help || input == ActionInput::Action(Actions::Quit) ==> *g1 == *g0,
        input matches ActionInput::Action(a) && a != Actions::Quit && free_turn(a) ==> g1.world.days
            == g0.world.days && t == (TurnOutcome::Played { day_passed: false, ending: None }),
        (input matches ActionInput::Action(a) && a != Actions::Quit && !free_turn(a)) || input
            == ActionInput::Empty || input == ActionInput::Invalid ==> {
            &&& t is Played
            &&& g0.colony.population > 0 && g0.world.days < WIN_DAY ==> g1.world.days
                == g0.world.days + 1
        },
{
    match input {
        ActionInput::Action(a) => {
            if a != Actions::Quit && !free_turn(a) {
                let (mid, e) = choose|mid: Game, e: Option<Ending>|
                    t == (TurnOutcome::Played { day_passed: true, ending: e }) && Game::acted(
                        g0,
                        &mid,
                        a,
                    ) && Game::ticked(&mid, g1, e, birth_roll, death_roll);
                lemma_day_advances(
                    mid.colony.settlement(),
                    &mid.balance,
                    mid.world.days as nat,
                    mid.gameover,
                    birth_roll,
                    death_roll,
                );
            }
        },
        ActionInput::Empty => {
            let (mid, e) = choose|mid: Game, e: Option<Ending>|
                t == (TurnOutcome::Played { day_passed: true, ending: e }) && Game::logged(
                    g0,
                    &mid,
                    EMPTY_COMMAND_MSG@,
                ) && Game::ticked(&mid, g1, e, birth_roll, death_roll);
            lemma_day_advances(
                mid.colony.settlement(),
                &mid.balance,
                mid.world.days as nat,
                mid.gameover,
                birth_roll,
                death_roll,
            );
        },
        ActionInput::Invalid => {
            let (mid, e) = choose|mid: Game, e: Option<Ending>|
                t == (TurnOutcome::Played { day_passed: true, ending: e }) && Game::logged(
                    g0,
                    &mid,
                    INVALID_COMMAND_MSG@,
                ) && Game::ticked(&mid, g1, e, birth_roll, death_roll);
            lemma_day_advances(
                mid.colony.settlement(),
                &mid.balance,
                mid.world.days as nat,
                mid.gameover,
                birth_roll,
                death_roll,
            );
        },
        ActionInput::Help => {},
    }
}

} // verus!
