//! Colony events: a fixed table of [`GameEvent`]s, each either a yes/no
//! [`EventEffect::Choice`] or an [`EventEffect::Auto`] effect.
//!
//! What an answer does is an [`Outcome`]; outcomes that hinge on chance take
//! a percent roll (`0..100`).
//!
//! If a choice costs resources and the colony cannot pay, the **no** outcome
//! (or a harsher one) is applied instead of blocking.

use crate::game::balance::Balance;
use crate::game::building::{clamped, BuildingKind};
use crate::game::colony::{sat_sub, Colony};
use crate::game::dice::{roll_below, thread_rng};
use crate::text::str_equal;
use vstd::prelude::*;

verus! {

/// Active event waiting for the player's y/n answer.
pub struct PendingEvent {
    /// Key into the event table (see [`find_event`]).
    pub event_id: &'static str,
}

/// What answering (or simply suffering) an event does to the colony.
#[derive(PartialEq, Eq, Debug, Clone, Copy, Structural)]
pub enum Outcome {
    /// Reinforce the palisade: 8 wood, or beasts take 6 food when there is too little wood.
    WildBeastsYes,
    /// Beasts take 6 food.
    WildBeastsNo,
    /// Burn 8 food; with less food the mold spreads as when refusing.
    BlightedBarnYes,
    /// The mold spreads: 15 food lost on a roll below 30, else 5.
    BlightedBarnNo,
    /// Watch-fires for 5 wood and 2 food; without them a settler may walk away (roll below 20).
    SleeplessNightsYes,
    /// A settler may walk into the dark (roll below 20).
    SleeplessNightsNo,
    /// 25 wood for 5 food.
    DryRootsYes,
    /// Nothing changes.
    DryRootsNo,
    /// 6 stone; a settler may be buried (roll below 15).
    HollowStoneYes,
    /// Nothing changes.
    HollowStoneNo,
    /// 15 wood for 3 food.
    AshenClearingYes,
    /// Nothing changes.
    AshenClearingNo,
    /// Burn 3 wood; without it a settler may die at the marks (roll below 15).
    WallSymbolsYes,
    /// A settler may die at the marks (roll below 15).
    WallSymbolsNo,
    /// Burn 6 food; without it the forest may take a settler (roll below 35).
    StumpTitheYes,
    /// Nothing changes.
    StumpTitheNo,
    /// 20 wood; a settler may not return (roll below 20).
    BlackforestYes,
    /// Nothing changes.
    BlackforestNo,
    /// The scout may not return (roll below 25).
    TreelineWhisperYes,
    /// 3 food lost.
    TreelineWhisperNo,
    /// 10 food; a digger may be pulled under (roll below 20).
    MovingRootsYes,
    /// 4 food lost.
    MovingRootsNo,
    /// 8 stone; something may not stay buried (roll below 25).
    BonePitYes,
    /// Nothing changes.
    BonePitNo,
    /// 12 stone; the wall may take a life (roll below 15).
    QuarryRuinsYes,
    /// Nothing changes.
    QuarryRuinsNo,
    /// 20 food on a roll below 50; else a settler, if any, is dragged under.
    SealedHatchYes,
    /// Nothing changes.
    SealedHatchNo,
    /// 3 food lost.
    AshFall,
}

/// What happens when an event fires.
#[derive(Debug, Clone, Copy)]
pub enum EventEffect {
    Choice { prompt: &'static str, on_yes: Outcome, on_no: Outcome },
    Auto(Outcome),
}

/// Random or scripted colony event.
#[derive(Debug, Clone, Copy)]
pub struct GameEvent {
    pub id: &'static str,
    pub title: &'static str,
    pub min_day: usize,
    /// Per-day chance (`0` if only `exact_day` should fire).
    pub chance_percent: u8,
    /// Guaranteed on this calendar day (checked before the chance roll).
    pub exact_day: Option<usize>,
    pub once: bool,
    pub cooldown_days: Option<usize>,
    /// Roll only if at least one instance exists (`None` = no requirement).
    pub requires_building: Option<BuildingKind>,
    pub effect: EventEffect,
}

/// The new stocks an outcome leaves, whether a settler dies, and the text told.
pub struct Effect {
    pub wood: int,
    pub stone: int,
    pub food: int,
    pub dies: bool,
    pub text: &'static str,
}

impl Outcome {
    /// The effect of this outcome on colony `c` with percent roll `roll`.
    pub open spec fn effect(self, c: &Colony, roll: u8) -> Effect {
        match self {
            Outcome::WildBeastsYes => {
                if c.wood < 8 {
                    Effect { wood: c.wood as int, stone: c.stone as int, food: sat_sub(c.food as int, 6), dies: false, text: "Too little timber — the palisade stayed weak. Beasts raided the edge stores. -6 food." }
                } else {
                    Effect { wood: c.wood - 8, stone: c.stone as int, food: c.food as int, dies: false, text: "The palisade is strengthened. -8 wood." }
                }
            },
            Outcome::WildBeastsNo => {
                Effect { wood: c.wood as int, stone: c.stone as int, food: sat_sub(c.food as int, 6), dies: false, text: "Provisions vanish from the edge stores. -6 food." }
            },
            Outcome::BlightedBarnYes => {
                if c.food < 8 {
                    if roll < 30 {
                        Effect { wood: c.wood as int, stone: c.stone as int, food: sat_sub(c.food as int, 15), dies: false, text: "The mold spread overnight. -15 food." }
                    } else {
                        Effect { wood: c.wood as int, stone: c.stone as int, food: sat_sub(c.food as int, 5), dies: false, text: "Only a little spoiled. -5 food — it could have been worse." }
                    }
                } else {
                    Effect { wood: c.wood as int, stone: c.stone as int, food: c.food - 8, dies: false, text: "You burned the infected stores. -8 food." }
                }
            },
            Outcome::BlightedBarnNo => {
                if roll < 30 {
                    Effect { wood: c.wood as int, stone: c.stone as int, food: sat_sub(c.food as int, 15), dies: false, text: "The mold spread overnight. -15 food." }
                } else {
                    Effect { wood: c.wood as int, stone: c.stone as int, food: sat_sub(c.food as int, 5), dies: false, text: "Only a little spoiled. -5 food — it could have been worse." }
                }
            },
            Outcome::SleeplessNightsYes => {
                if c.wood < 5 || c.food < 2 {
                    if c.population > 0 && roll < 20 {
                        Effect { wood: c.wood as int, stone: c.stone as int, food: c.food as int, dies: true, text: "A settler walked into the dark and did not return." }
                    } else {
                        Effect { wood: c.wood as int, stone: c.stone as int, food: c.food as int, dies: false, text: "The colony endured the nights, barely." }
                    }
                } else {
                    Effect { wood: c.wood - 5, stone: c.stone as int, food: c.food - 2, dies: false, text: "Watch-fires burn until dawn. -5 wood, -2 food." }
                }
            },
            Outcome::SleeplessNightsNo => {
                if c.population > 0 && roll < 20 {
                    Effect { wood: c.wood as int, stone: c.stone as int, food: c.food as int, dies: true, text: "A settler walked into the dark and did not return." }
                } else {
                    Effect { wood: c.wood as int, stone: c.stone as int, food: c.food as int, dies: false, text: "The colony endured the nights, barely." }
                }
            },
            Outcome::DryRootsYes => {
                Effect { wood: c.wood + 25, stone: c.stone as int, food: sat_sub(c.food as int, 5), dies: false, text: "Haulers returned laden. +25 wood, -5 food burned for drying fires." }
            },
            Outcome::DryRootsNo => {
                Effect { wood: c.wood as int, stone: c.stone as int, food: c.food as int, dies: false, text: "The hollow trees were left standing." }
            },
            Outcome::HollowStoneYes => {
                if c.population > 0 && roll < 15 {
                    Effect { wood: c.wood as int, stone: c.stone + 6, food: c.food as int, dies: true, text: "+6 stone. A collapse buried one worker." }
                } else {
                    Effect { wood: c.wood as int, stone: c.stone + 6, food: c.food as int, dies: false, text: "+6 stone from the hollow vein." }
                }
            },
            Outcome::HollowStoneNo => {
                Effect { wood: c.wood as int, stone: c.stone as int, food: c.food as int, dies: false, text: "The quarry sealed the suspicious face." }
            },
            Outcome::AshenClearingYes => {
                Effect { wood: c.wood + 15, stone: c.stone as int, food: sat_sub(c.food as int, 3), dies: false, text: "+15 wood. Ash spoiled rations in the sacks. -3 food." }
            },
            Outcome::AshenClearingNo => {
                Effect { wood: c.wood as int, stone: c.stone as int, food: c.food as int, dies: false, text: "The ashen clearing was avoided." }
            },
            Outcome::WallSymbolsYes => {
                if c.wood < 3 {
                    if c.population > 0 && roll < 15 {
                        Effect { wood: c.wood as int, stone: c.stone as int, food: c.food as int, dies: true, text: "A settler was found staring at the marks at dawn, then simply stopped breathing." }
                    } else {
                        Effect { wood: c.wood as int, stone: c.stone as int, food: c.food as int, dies: false, text: "The marks remain. The nights grow colder." }
                    }
                } else {
                    Effect { wood: c.wood - 3, stone: c.stone as int, food: c.food as int, dies: false, text: "The marked boards were burned. -3 wood." }
                }
            },
            Outcome::WallSymbolsNo => {
                if c.population > 0 && roll < 15 {
                    Effect { wood: c.wood as int, stone: c.stone as int, food: c.food as int, dies: true, text: "A settler was found staring at the marks at dawn, then simply stopped breathing." }
                } else {
                    Effect { wood: c.wood as int, stone: c.stone as int, food: c.food as int, dies: false, text: "The marks remain. The nights grow colder." }
                }
            },
            Outcome::StumpTitheYes => {
                if c.food < 6 {
                    if c.population > 0 && roll < 35 {
                        Effect { wood: c.wood as int, stone: c.stone as int, food: c.food as int, dies: true, text: "Without a tithe, the forest took flesh. A settler was found at the treeline." }
                    } else {
                        Effect { wood: c.wood as int, stone: c.stone as int, food: c.food as int, dies: false, text: "The stump was left hungry." }
                    }
                } else {
                    Effect { wood: c.wood as int, stone: c.stone as int, food: c.food - 6, dies: false, text: "Food burned at the stump until the resin stopped flowing. -6 food." }
                }
            },
            Outcome::StumpTitheNo => {
                Effect { wood: c.wood as int, stone: c.stone as int, food: c.food as int, dies: false, text: "The stump was left hungry." }
            },
            Outcome::BlackforestYes => {
                if c.population > 0 && roll < 20 {
                    Effect { wood: c.wood + 20, stone: c.stone as int, food: c.food as int, dies: true, text: "+20 wood from the black stand. The crewman never returned." }
                } else {
                    Effect { wood: c.wood + 20, stone: c.stone as int, food: c.food as int, dies: false, text: "+20 wood from the black stand." }
                }
            },
            Outcome::BlackforestNo => {
                Effect { wood: c.wood as int, stone: c.stone as int, food: c.food as int, dies: false, text: "The silent trees were left uncut." }
            },
            Outcome::TreelineWhisperYes => {
                if c.population > 0 && roll < 25 {
                    Effect { wood: c.wood as int, stone: c.stone as int, food: c.food as int, dies: true, text: "The scout never crossed back into the torchlight." }
                } else {
                    Effect { wood: c.wood as int, stone: c.stone as int, food: c.food as int, dies: false, text: "They returned deaf to the whispers, unable to say what they saw." }
                }
            },
            Outcome::TreelineWhisperNo => {
                Effect { wood: c.wood as int, stone: c.stone as int, food: sat_sub(c.food as int, 3), dies: false, text: "No watch was posted. -3 food lost to night thefts and dread." }
            },
            Outcome::MovingRootsYes => {
                if c.population > 0 && roll < 20 {
                    Effect { wood: c.wood as int, stone: c.stone as int, food: c.food + 10, dies: true, text: "+10 food from buried stores. One digger was pulled under." }
                } else {
                    Effect { wood: c.wood as int, stone: c.stone as int, food: c.food + 10, dies: false, text: "+10 food from buried stores in rotted cloth." }
                }
            },
            Outcome::MovingRootsNo => {
                Effect { wood: c.wood as int, stone: c.stone as int, food: sat_sub(c.food as int, 4), dies: false, text: "The field was left alone. The crop failed in patches. -4 food." }
            },
            Outcome::BonePitYes => {
                if c.population > 0 && roll < 25 {
                    Effect { wood: c.wood as int, stone: c.stone + 8, food: c.food as int, dies: true, text: "+8 stone. Something in the pit did not stay buried." }
                } else {
                    Effect { wood: c.wood as int, stone: c.stone + 8, food: c.food as int, dies: false, text: "+8 stone from the pit, sealed with cairn stones." }
                }
            },
            Outcome::BonePitNo => {
                Effect { wood: c.wood as int, stone: c.stone as int, food: c.food as int, dies: false, text: "The pit was filled and marked with warnings." }
            },
            Outcome::QuarryRuinsYes => {
                if c.population > 0 && roll < 15 {
                    Effect { wood: c.wood as int, stone: c.stone + 12, food: c.food as int, dies: true, text: "+12 stone from the ruin. The black wall took a life as it fell." }
                } else {
                    Effect { wood: c.wood as int, stone: c.stone + 12, food: c.food as int, dies: false, text: "+12 stone quarried from the ancient wall." }
                }
            },
            Outcome::QuarryRuinsNo => {
                Effect { wood: c.wood as int, stone: c.stone as int, food: c.food as int, dies: false, text: "The breach was sealed with rubble and chalk marks." }
            },
            Outcome::SealedHatchYes => {
                if roll < 50 {
                    Effect { wood: c.wood as int, stone: c.stone as int, food: c.food + 20, dies: false, text: "Sealed grain behind the hatch — imperial wax, still dry. +20 food." }
                } else {
                    if c.population > 0 {
                        Effect { wood: c.wood as int, stone: c.stone as int, food: c.food as int, dies: true, text: "Something below the hatch dragged them under." }
                    } else {
                        Effect { wood: c.wood as int, stone: c.stone as int, food: c.food as int, dies: false, text: "The hatch slammed shut on empty air." }
                    }
                }
            },
            Outcome::SealedHatchNo => {
                Effect { wood: c.wood as int, stone: c.stone as int, food: c.food as int, dies: false, text: "The hatch was buried again. The hut went up on another spot." }
            },
            Outcome::AshFall => {
                Effect { wood: c.wood as int, stone: c.stone as int, food: sat_sub(c.food as int, 3), dies: false, text: "Ash spoiled open stores. The fading reaches even clear sky. -3 food." }
            },
        }
    }

    /// The new stocks fit in `usize` and the crews can be summed.
    pub open spec fn fits(self, c: &Colony, roll: u8) -> bool {
        let e = self.effect(c, roll);
        &&& e.wood <= usize::MAX
        &&& e.stone <= usize::MAX
        &&& e.food <= usize::MAX
        &&& c.sums_fit()
    }

    /// `c1` is `c0` after this outcome with percent roll `roll`.
    pub open spec fn applied(self, c0: &Colony, c1: &Colony, b: &Balance, roll: u8) -> bool {
        let e = self.effect(c0, roll);
        &&& c1.wood == e.wood
        &&& c1.stone == e.stone
        &&& c1.food == e.food
        &&& if e.dies {
            &&& c1.population == c0.population - 1
            &&& c1.buildings@ == clamped(
                c0.buildings@,
                &b.buildings,
                (c0.population - 1) as nat,
            )
        } else {
            &&& c1.population == c0.population
            &&& c1.buildings == c0.buildings
        }
        &&& *c1 == (Colony {
            wood: c1.wood,
            stone: c1.stone,
            food: c1.food,
            population: c1.population,
            buildings: c1.buildings,
            ..*c0
        })
    }

    /// Applies this outcome with the given percent roll (`0..100`).
    pub fn apply_with_roll(self, colony: &mut Colony, balance: &Balance, roll: u8) -> (r: Result<
        &'static str,
        &'static str,
    >)
        requires
            self.fits(old(colony), roll),
        ensures
            self.applied(old(colony), final(colony), balance, roll),
            r == Ok::<&'static str, &'static str>(self.effect(old(colony), roll).text),
    {
        match self {
            Outcome::WildBeastsYes => {
                if colony.wood < 8 {
                    colony.food = colony.food.saturating_sub(6);
                    Ok("Too little timber — the palisade stayed weak. Beasts raided the edge stores. -6 food.")
                } else {
                    colony.wood = colony.wood - 8;
                    Ok("The palisade is strengthened. -8 wood.")
                }
            },
            Outcome::WildBeastsNo => {
                colony.food = colony.food.saturating_sub(6);
                Ok("Provisions vanish from the edge stores. -6 food.")
            },
            Outcome::BlightedBarnYes => {
                if colony.food < 8 {
                    if roll < 30 {
                        colony.food = colony.food.saturating_sub(15);
                        Ok("The mold spread overnight. -15 food.")
                    } else {
                        colony.food = colony.food.saturating_sub(5);
                        Ok("Only a little spoiled. -5 food — it could have been worse.")
                    }
                } else {
                    colony.food = colony.food - 8;
                    Ok("You burned the infected stores. -8 food.")
                }
            },
            Outcome::BlightedBarnNo => {
                if roll < 30 {
                    colony.food = colony.food.saturating_sub(15);
                    Ok("The mold spread overnight. -15 food.")
                } else {
                    colony.food = colony.food.saturating_sub(5);
                    Ok("Only a little spoiled. -5 food — it could have been worse.")
                }
            },
            Outcome::SleeplessNightsYes => {
                if colony.wood < 5 || colony.food < 2 {
                    if colony.population > 0 && roll < 20 {
                        colony.population = colony.population - 1;
                        colony.clamp_workers(balance);
                        Ok("A settler walked into the dark and did not return.")
                    } else {
                        Ok("The colony endured the nights, barely.")
                    }
                } else {
                    colony.wood = colony.wood - 5;
                    colony.food = colony.food - 2;
                    Ok("Watch-fires burn until dawn. -5 wood, -2 food.")
                }
            },
            Outcome::SleeplessNightsNo => {
                if colony.population > 0 && roll < 20 {
                    colony.population = colony.population - 1;
                    colony.clamp_workers(balance);
                    Ok("A settler walked into the dark and did not return.")
                } else {
                    Ok("The colony endured the nights, barely.")
                }
            },
            Outcome::DryRootsYes => {
                colony.wood = colony.wood + 25;
                colony.food = colony.food.saturating_sub(5);
                Ok("Haulers returned laden. +25 wood, -5 food burned for drying fires.")
            },
            Outcome::DryRootsNo => {
                Ok("The hollow trees were left standing.")
            },
            Outcome::HollowStoneYes => {
                if colony.population > 0 && roll < 15 {
                    colony.stone = colony.stone + 6;
                    colony.population = colony.population - 1;
                    colony.clamp_workers(balance);
                    Ok("+6 stone. A collapse buried one worker.")
                } else {
                    colony.stone = colony.stone + 6;
                    Ok("+6 stone from the hollow vein.")
                }
            },
            Outcome::HollowStoneNo => {
                Ok("The quarry sealed the suspicious face.")
            },
            Outcome::AshenClearingYes => {
                colony.wood = colony.wood + 15;
                colony.food = colony.food.saturating_sub(3);
                Ok("+15 wood. Ash spoiled rations in the sacks. -3 food.")
            },
            Outcome::AshenClearingNo => {
                Ok("The ashen clearing was avoided.")
            },
            Outcome::WallSymbolsYes => {
                if colony.wood < 3 {
                    if colony.population > 0 && roll < 15 {
                        colony.population = colony.population - 1;
                        colony.clamp_workers(balance);
                        Ok("A settler was found staring at the marks at dawn, then simply stopped breathing.")
                    } else {
                        Ok("The marks remain. The nights grow colder.")
                    }
                } else {
                    colony.wood = colony.wood - 3;
                    Ok("The marked boards were burned. -3 wood.")
                }
            },
            Outcome::WallSymbolsNo => {
                if colony.population > 0 && roll < 15 {
                    colony.population = colony.population - 1;
                    colony.clamp_workers(balance);
                    Ok("A settler was found staring at the marks at dawn, then simply stopped breathing.")
                } else {
                    Ok("The marks remain. The nights grow colder.")
                }
            },
            Outcome::StumpTitheYes => {
                if colony.food < 6 {
                    if colony.population > 0 && roll < 35 {
                        colony.population = colony.population - 1;
                        colony.clamp_workers(balance);
                        Ok("Without a tithe, the forest took flesh. A settler was found at the treeline.")
                    } else {
                        Ok("The stump was left hungry.")
                    }
                } else {
                    colony.food = colony.food - 6;
                    Ok("Food burned at the stump until the resin stopped flowing. -6 food.")
                }
            },
            Outcome::StumpTitheNo => {
                Ok("The stump was left hungry.")
            },
            Outcome::BlackforestYes => {
                if colony.population > 0 && roll < 20 {
                    colony.wood = colony.wood + 20;
                    colony.population = colony.population - 1;
                    colony.clamp_workers(balance);
                    Ok("+20 wood from the black stand. The crewman never returned.")
                } else {
                    colony.wood = colony.wood + 20;
                    Ok("+20 wood from the black stand.")
                }
            },
            Outcome::BlackforestNo => {
                Ok("The silent trees were left uncut.")
            },
            Outcome::TreelineWhisperYes => {
                if colony.population > 0 && roll < 25 {
                    colony.population = colony.population - 1;
                    colony.clamp_workers(balance);
                    Ok("The scout never crossed back into the torchlight.")
                } else {
                    Ok("They returned deaf to the whispers, unable to say what they saw.")
                }
            },
            Outcome::TreelineWhisperNo => {
                colony.food = colony.food.saturating_sub(3);
                Ok("No watch was posted. -3 food lost to night thefts and dread.")
            },
            Outcome::MovingRootsYes => {
                if colony.population > 0 && roll < 20 {
                    colony.food = colony.food + 10;
                    colony.population = colony.population - 1;
                    colony.clamp_workers(balance);
                    Ok("+10 food from buried stores. One digger was pulled under.")
                } else {
                    colony.food = colony.food + 10;
                    Ok("+10 food from buried stores in rotted cloth.")
                }
            },
            Outcome::MovingRootsNo => {
                colony.food = colony.food.saturating_sub(4);
                Ok("The field was left alone. The crop failed in patches. -4 food.")
            },
            Outcome::BonePitYes => {
                if colony.population > 0 && roll < 25 {
                    colony.stone = colony.stone + 8;
                    colony.population = colony.population - 1;
                    colony.clamp_workers(balance);
                    Ok("+8 stone. Something in the pit did not stay buried.")
                } else {
                    colony.stone = colony.stone + 8;
                    Ok("+8 stone from the pit, sealed with cairn stones.")
                }
            },
            Outcome::BonePitNo => {
                Ok("The pit was filled and marked with warnings.")
            },
            Outcome::QuarryRuinsYes => {
                if colony.population > 0 && roll < 15 {
                    colony.stone = colony.stone + 12;
                    colony.population = colony.population - 1;
                    colony.clamp_workers(balance);
                    Ok("+12 stone from the ruin. The black wall took a life as it fell.")
                } else {
                    colony.stone = colony.stone + 12;
                    Ok("+12 stone quarried from the ancient wall.")
                }
            },
            Outcome::QuarryRuinsNo => {
                Ok("The breach was sealed with rubble and chalk marks.")
            },
            Outcome::SealedHatchYes => {
                if roll < 50 {
                    colony.food = colony.food + 20;
                    Ok("Sealed grain behind the hatch — imperial wax, still dry. +20 food.")
                } else {
                    if colony.population > 0 {
                        colony.population = colony.population - 1;
                        colony.clamp_workers(balance);
                        Ok("Something below the hatch dragged them under.")
                    } else {
                        Ok("The hatch slammed shut on empty air.")
                    }
                }
            },
            Outcome::SealedHatchNo => {
                Ok("The hatch was buried again. The hut went up on another spot.")
            },
            Outcome::AshFall => {
                colony.food = colony.food.saturating_sub(3);
                Ok("Ash spoiled open stores. The fading reaches even clear sky. -3 food.")
            },
        }
    }

    /// Applies this outcome, drawing the percent roll from `rand`.
    pub fn apply(self, colony: &mut Colony, balance: &Balance) -> (r: Result<
        &'static str,
        &'static str,
    >)
        requires
            forall|roll: u8| roll < 100 ==> #[trigger] self.fits(old(colony), roll),
        ensures
            exists|roll: u8|
                roll < 100 && #[trigger] self.applied(old(colony), final(colony), balance, roll)
                    && r == Ok::<&'static str, &'static str>(self.effect(old(colony), roll).text),
    {
        let mut rng = thread_rng();
        let roll = roll_below(&mut rng, 100);
        assert(self.fits(old(colony), roll));
        self.apply_with_roll(colony, balance, roll)
    }
}

/// An outcome only ever takes a settler from a colony that has one.
pub proof fn lemma_deaths_need_settlers(o: Outcome, c: &Colony, roll: u8)
    ensures
        o.effect(c, roll).dies ==> c.population > 0,
{
}

/// When the colony cannot pay for "yes", answering yes does to the colony
/// what answering no does (for the wild beasts, the blighted barn, the
/// sleepless nights and the wall symbols).
pub proof fn lemma_unpaid_yes_is_no(c: &Colony, roll: u8)
    ensures
        c.wood < 8 ==> {
            let y = Outcome::WildBeastsYes.effect(c, roll);
            let n = Outcome::WildBeastsNo.effect(c, roll);
            y.wood == n.wood && y.stone == n.stone && y.food == n.food && y.dies == n.dies
        },
        c.food < 8 ==> Outcome::BlightedBarnYes.effect(c, roll) == Outcome::BlightedBarnNo.effect(
            c,
            roll,
        ),
        c.wood < 5 || c.food < 2 ==> Outcome::SleeplessNightsYes.effect(c, roll)
            == Outcome::SleeplessNightsNo.effect(c, roll),
        c.wood < 3 ==> Outcome::WallSymbolsYes.effect(c, roll) == Outcome::WallSymbolsNo.effect(
            c,
            roll,
        ),
{
}

/// All events, in the order they are considered each day.
pub open spec fn event_table() -> Seq<GameEvent> {
    seq![
        GameEvent {
            id: "wild_beasts",
            title: "Tracks circle the colony each night. Something waits just beyond the torchlight.",
            min_day: 8,
            chance_percent: 8,
            exact_day: None,
            once: false,
            cooldown_days: Some(25usize),
            requires_building: None,
            effect: EventEffect::Choice { prompt: "Reinforce the palisade with extra timber? (y/n)", on_yes: Outcome::WildBeastsYes, on_no: Outcome::WildBeastsNo },
        },
        GameEvent {
            id: "blighted_barn",
            title: "A sweet rot rises from the barn. The grain is speckled with black mold.",
            min_day: 8,
            chance_percent: 8,
            exact_day: None,
            once: false,
            cooldown_days: Some(35usize),
            requires_building: Some(BuildingKind::Barn),
            effect: EventEffect::Choice { prompt: "Burn the tainted stores immediately? (y/n)", on_yes: Outcome::BlightedBarnYes, on_no: Outcome::BlightedBarnNo },
        },
        GameEvent {
            id: "sleepless_nights",
            title: "For three nights half the camp has not slept. Scratches at the shutters, footsteps circling outside — never close enough to see.",
            min_day: 10,
            chance_percent: 7,
            exact_day: None,
            once: false,
            cooldown_days: Some(35usize),
            requires_building: None,
            effect: EventEffect::Choice { prompt: "Keep watch-fires burning through the dark hours? (y/n)", on_yes: Outcome::SleeplessNightsYes, on_no: Outcome::SleeplessNightsNo },
        },
        GameEvent {
            id: "dry_roots",
            title: "Lumberhands found hollow giants among the roots — dry as tinder, warm to the touch.",
            min_day: 12,
            chance_percent: 7,
            exact_day: None,
            once: false,
            cooldown_days: Some(25usize),
            requires_building: None,
            effect: EventEffect::Choice { prompt: "Fell them and haul the timber back? (y/n)", on_yes: Outcome::DryRootsYes, on_no: Outcome::DryRootsNo },
        },
        GameEvent {
            id: "hollow_stone",
            title: "The quarry face rings hollow. The foreman swears something moved in the dark behind the rock.",
            min_day: 15,
            chance_percent: 6,
            exact_day: None,
            once: false,
            cooldown_days: Some(30usize),
            requires_building: Some(BuildingKind::StoneQuarry),
            effect: EventEffect::Choice { prompt: "Go deeper and take what you can? (y/n)", on_yes: Outcome::HollowStoneYes, on_no: Outcome::HollowStoneNo },
        },
        GameEvent {
            id: "ashen_clearing",
            title: "A clearing of char-black trunks stands untouched by flame. The ash does not stir in the wind.",
            min_day: 14,
            chance_percent: 6,
            exact_day: None,
            once: false,
            cooldown_days: Some(30usize),
            requires_building: None,
            effect: EventEffect::Choice { prompt: "Cut timber from the dead stand? (y/n)", on_yes: Outcome::AshenClearingYes, on_no: Outcome::AshenClearingNo },
        },
        GameEvent {
            id: "wall_symbols",
            title: "Strange marks appeared overnight on fresh-cut boards. No settler admits to carving them.",
            min_day: 12,
            chance_percent: 5,
            exact_day: None,
            once: true,
            cooldown_days: None,
            requires_building: None,
            effect: EventEffect::Choice { prompt: "Tear down the boards and rebuild the wall? (y/n)", on_yes: Outcome::WallSymbolsYes, on_no: Outcome::WallSymbolsNo },
        },
        GameEvent {
            id: "stump_tithe",
            title: "Black resin weeps from an ancient stump at the treeline. Settlers wake with the same dream of roots closing around their ankles.",
            min_day: 16,
            chance_percent: 4,
            exact_day: None,
            once: true,
            cooldown_days: None,
            requires_building: None,
            effect: EventEffect::Choice { prompt: "Burn stores at its roots before the forest takes payment in flesh? (y/n)", on_yes: Outcome::StumpTitheYes, on_no: Outcome::StumpTitheNo },
        },
        GameEvent {
            id: "blackforest",
            title: "Lumberhands report timber deeper than your maps showed. The trees are enormous... and strangely silent.",
            min_day: 10,
            chance_percent: 5,
            exact_day: None,
            once: true,
            cooldown_days: None,
            requires_building: None,
            effect: EventEffect::Choice { prompt: "Send a crew to cut there? (y/n)", on_yes: Outcome::BlackforestYes, on_no: Outcome::BlackforestNo },
        },
        GameEvent {
            id: "treeline_whisper",
            title: "Whispers drift from the treeline after dark. Words in no tongue your settlers know.",
            min_day: 18,
            chance_percent: 4,
            exact_day: None,
            once: true,
            cooldown_days: None,
            requires_building: None,
            effect: EventEffect::Choice { prompt: "Send someone to the edge to learn what speaks? (y/n)", on_yes: Outcome::TreelineWhisperYes, on_no: Outcome::TreelineWhisperNo },
        },
        GameEvent {
            id: "moving_roots",
            title: "Farmhands swear the roots beneath the field shifted between dusk and dawn.",
            min_day: 20,
            chance_percent: 5,
            exact_day: None,
            once: true,
            cooldown_days: None,
            requires_building: Some(BuildingKind::Farm),
            effect: EventEffect::Choice { prompt: "Dig them up and see what lies underneath? (y/n)", on_yes: Outcome::MovingRootsYes, on_no: Outcome::MovingRootsNo },
        },
        GameEvent {
            id: "bone_pit",
            title: "Surveying the camp site, your diggers open a pit of bones — too long, too many joints.",
            min_day: 22,
            chance_percent: 4,
            exact_day: None,
            once: true,
            cooldown_days: None,
            requires_building: None,
            effect: EventEffect::Choice { prompt: "Take the flint and dressed stone, then bury the rest? (y/n)", on_yes: Outcome::BonePitYes, on_no: Outcome::BonePitNo },
        },
        GameEvent {
            id: "quarry_ruins",
            title: "Behind a quarry collapse, a wall of black stone stands seamless — older than the Empire, older than any map you carried.",
            min_day: 25,
            chance_percent: 4,
            exact_day: None,
            once: true,
            cooldown_days: None,
            requires_building: None,
            effect: EventEffect::Choice { prompt: "Break it apart for building stone? (y/n)", on_yes: Outcome::QuarryRuinsYes, on_no: Outcome::QuarryRuinsNo },
        },
        GameEvent {
            id: "sealed_hatch",
            title: "Digging a hut foundation, your settlers strike iron — a hatch sealed with wax and rust, buried far too deep for a fresh camp.",
            min_day: 30,
            chance_percent: 3,
            exact_day: None,
            once: true,
            cooldown_days: None,
            requires_building: None,
            effect: EventEffect::Choice { prompt: "Excavate and pry it open? (y/n)", on_yes: Outcome::SealedHatchYes, on_no: Outcome::SealedHatchNo },
        },
        GameEvent {
            id: "ash_fall",
            title: "Grey ash falls all day. No fire burns on the horizon to raise it. Rations taste of soot.",
            min_day: 15,
            chance_percent: 6,
            exact_day: None,
            once: false,
            cooldown_days: Some(20usize),
            requires_building: None,
            effect: EventEffect::Auto(Outcome::AshFall),
        },
    ]
}

/// The event table.
pub fn events() -> (v: Vec<GameEvent>)
    ensures
        v@ == event_table(),
{
    let mut v: Vec<GameEvent> = Vec::new();
    v.push(
        GameEvent {
            id: "wild_beasts",
            title: "Tracks circle the colony each night. Something waits just beyond the torchlight.",
            min_day: 8,
            chance_percent: 8,
            exact_day: None,
            once: false,
            cooldown_days: Some(25usize),
            requires_building: None,
            effect: EventEffect::Choice { prompt: "Reinforce the palisade with extra timber? (y/n)", on_yes: Outcome::WildBeastsYes, on_no: Outcome::WildBeastsNo },
        }
    );
    v.push(
        GameEvent {
            id: "blighted_barn",
            title: "A sweet rot rises from the barn. The grain is speckled with black mold.",
            min_day: 8,
            chance_percent: 8,
            exact_day: None,
            once: false,
            cooldown_days: Some(35usize),
            requires_building: Some(BuildingKind::Barn),
            effect: EventEffect::Choice { prompt: "Burn the tainted stores immediately? (y/n)", on_yes: Outcome::BlightedBarnYes, on_no: Outcome::BlightedBarnNo },
        }
    );
    v.push(
        GameEvent {
            id: "sleepless_nights",
            title: "For three nights half the camp has not slept. Scratches at the shutters, footsteps circling outside — never close enough to see.",
            min_day: 10,
            chance_percent: 7,
            exact_day: None,
            once: false,
            cooldown_days: Some(35usize),
            requires_building: None,
            effect: EventEffect::Choice { prompt: "Keep watch-fires burning through the dark hours? (y/n)", on_yes: Outcome::SleeplessNightsYes, on_no: Outcome::SleeplessNightsNo },
        }
    );
    v.push(
        GameEvent {
            id: "dry_roots",
            title: "Lumberhands found hollow giants among the roots — dry as tinder, warm to the touch.",
            min_day: 12,
            chance_percent: 7,
            exact_day: None,
            once: false,
            cooldown_days: Some(25usize),
            requires_building: None,
            effect: EventEffect::Choice { prompt: "Fell them and haul the timber back? (y/n)", on_yes: Outcome::DryRootsYes, on_no: Outcome::DryRootsNo },
        }
    );
    v.push(
        GameEvent {
            id: "hollow_stone",
            title: "The quarry face rings hollow. The foreman swears something moved in the dark behind the rock.",
            min_day: 15,
            chance_percent: 6,
            exact_day: None,
            once: false,
            cooldown_days: Some(30usize),
            requires_building: Some(BuildingKind::StoneQuarry),
            effect: EventEffect::Choice { prompt: "Go deeper and take what you can? (y/n)", on_yes: Outcome::HollowStoneYes, on_no: Outcome::HollowStoneNo },
        }
    );
    v.push(
        GameEvent {
            id: "ashen_clearing",
            title: "A clearing of char-black trunks stands untouched by flame. The ash does not stir in the wind.",
            min_day: 14,
            chance_percent: 6,
            exact_day: None,
            once: false,
            cooldown_days: Some(30usize),
            requires_building: None,
            effect: EventEffect::Choice { prompt: "Cut timber from the dead stand? (y/n)", on_yes: Outcome::AshenClearingYes, on_no: Outcome::AshenClearingNo },
        }
    );
    v.push(
        GameEvent {
            id: "wall_symbols",
            title: "Strange marks appeared overnight on fresh-cut boards. No settler admits to carving them.",
            min_day: 12,
            chance_percent: 5,
            exact_day: None,
            once: true,
            cooldown_days: None,
            requires_building: None,
            effect: EventEffect::Choice { prompt: "Tear down the boards and rebuild the wall? (y/n)", on_yes: Outcome::WallSymbolsYes, on_no: Outcome::WallSymbolsNo },
        }
    );
    v.push(
        GameEvent {
            id: "stump_tithe",
            title: "Black resin weeps from an ancient stump at the treeline. Settlers wake with the same dream of roots closing around their ankles.",
            min_day: 16,
            chance_percent: 4,
            exact_day: None,
            once: true,
            cooldown_days: None,
            requires_building: None,
            effect: EventEffect::Choice { prompt: "Burn stores at its roots before the forest takes payment in flesh? (y/n)", on_yes: Outcome::StumpTitheYes, on_no: Outcome::StumpTitheNo },
        }
    );
    v.push(
        GameEvent {
            id: "blackforest",
            title: "Lumberhands report timber deeper than your maps showed. The trees are enormous... and strangely silent.",
            min_day: 10,
            chance_percent: 5,
            exact_day: None,
            once: true,
            cooldown_days: None,
            requires_building: None,
            effect: EventEffect::Choice { prompt: "Send a crew to cut there? (y/n)", on_yes: Outcome::BlackforestYes, on_no: Outcome::BlackforestNo },
        }
    );
    v.push(
        GameEvent {
            id: "treeline_whisper",
            title: "Whispers drift from the treeline after dark. Words in no tongue your settlers know.",
            min_day: 18,
            chance_percent: 4,
            exact_day: None,
            once: true,
            cooldown_days: None,
            requires_building: None,
            effect: EventEffect::Choice { prompt: "Send someone to the edge to learn what speaks? (y/n)", on_yes: Outcome::TreelineWhisperYes, on_no: Outcome::TreelineWhisperNo },
        }
    );
    v.push(
        GameEvent {
            id: "moving_roots",
            title: "Farmhands swear the roots beneath the field shifted between dusk and dawn.",
            min_day: 20,
            chance_percent: 5,
            exact_day: None,
            once: true,
            cooldown_days: None,
            requires_building: Some(BuildingKind::Farm),
            effect: EventEffect::Choice { prompt: "Dig them up and see what lies underneath? (y/n)", on_yes: Outcome::MovingRootsYes, on_no: Outcome::MovingRootsNo },
        }
    );
    v.push(
        GameEvent {
            id: "bone_pit",
            title: "Surveying the camp site, your diggers open a pit of bones — too long, too many joints.",
            min_day: 22,
            chance_percent: 4,
            exact_day: None,
            once: true,
            cooldown_days: None,
            requires_building: None,
            effect: EventEffect::Choice { prompt: "Take the flint and dressed stone, then bury the rest? (y/n)", on_yes: Outcome::BonePitYes, on_no: Outcome::BonePitNo },
        }
    );
    v.push(
        GameEvent {
            id: "quarry_ruins",
            title: "Behind a quarry collapse, a wall of black stone stands seamless — older than the Empire, older than any map you carried.",
            min_day: 25,
            chance_percent: 4,
            exact_day: None,
            once: true,
            cooldown_days: None,
            requires_building: None,
            effect: EventEffect::Choice { prompt: "Break it apart for building stone? (y/n)", on_yes: Outcome::QuarryRuinsYes, on_no: Outcome::QuarryRuinsNo },
        }
    );
    v.push(
        GameEvent {
            id: "sealed_hatch",
            title: "Digging a hut foundation, your settlers strike iron — a hatch sealed with wax and rust, buried far too deep for a fresh camp.",
            min_day: 30,
            chance_percent: 3,
            exact_day: None,
            once: true,
            cooldown_days: None,
            requires_building: None,
            effect: EventEffect::Choice { prompt: "Excavate and pry it open? (y/n)", on_yes: Outcome::SealedHatchYes, on_no: Outcome::SealedHatchNo },
        }
    );
    v.push(
        GameEvent {
            id: "ash_fall",
            title: "Grey ash falls all day. No fire burns on the horizon to raise it. Rations taste of soot.",
            min_day: 15,
            chance_percent: 6,
            exact_day: None,
            once: false,
            cooldown_days: Some(20usize),
            requires_building: None,
            effect: EventEffect::Auto(Outcome::AshFall),
        }
    );
    assert(v@ =~= event_table());
    v
}

/// Index of the first event in `t` at or after `i` whose id is `id`, or -1.
pub open spec fn index_of_id(t: Seq<GameEvent>, id: Seq<char>, i: int) -> int
    decreases t.len() - i,
{
    if i < 0 || i >= t.len() {
        -1
    } else if t[i].id@ == id {
        i
    } else {
        index_of_id(t, id, i + 1)
    }
}

/// Lookup an event definition by [`GameEvent::id`] (as stored in [`PendingEvent`]).
pub fn find_event(id: &str) -> (r: Option<GameEvent>)
    ensures
        index_of_id(event_table(), id@, 0) < 0 ==> r is None,
        index_of_id(event_table(), id@, 0) >= 0 ==> r == Some(
            event_table()[index_of_id(event_table(), id@, 0)],
        ),
{
    let table = events();
    let mut i: usize = 0;
    while i < table.len()
        invariant
            table@ == event_table(),
            i <= table@.len(),
            index_of_id(event_table(), id@, 0) == index_of_id(event_table(), id@, i as int),
        decreases table.len() - i,
    {
        if str_equal(table[i].id, id) {
            return Some(table[i]);
        }
        i = i + 1;
    }
    None
}

impl GameEvent {
    /// Prompt for [`EventEffect::Choice`] events shown in the event screen.
    pub fn choice_prompt(&self) -> (r: Option<&'static str>)
        ensures
            r == match self.effect {
                EventEffect::Choice { prompt, .. } => Some(prompt),
                EventEffect::Auto(_) => None::<&'static str>,
            },
    {
        match self.effect {
            EventEffect::Choice { prompt, .. } => Some(prompt),
            EventEffect::Auto(_) => None,
        }
    }
}

/// No two events of `t` share an id.
pub open spec fn ids_distinct(t: Seq<GameEvent>) -> bool {
    forall|i: int, j: int| 0 <= i < j < t.len() ==> t[i].id@ != t[j].id@
}

/// With distinct ids, the search from `i` finds event `k` by its own id.
proof fn lemma_index_of_own(t: Seq<GameEvent>, k: int, i: int)
    requires
        ids_distinct(t),
        0 <= i <= k < t.len(),
    ensures
        index_of_id(t, t[k].id@, i) == k,
    decreases k - i,
{
    if i < k {
        assert(t[i].id@ != t[k].id@);
        lemma_index_of_own(t, k, i + 1);
    }
}

/// The search from `i` finds nothing when no event from `i` on has `id`.
proof fn lemma_index_of_absent(t: Seq<GameEvent>, id: Seq<char>, i: int)
    requires
        0 <= i <= t.len(),
        forall|j: int| i <= j < t.len() ==> t[j].id@ != id,
    ensures
        index_of_id(t, id, i) < 0,
    decreases t.len() - i,
{
    if i < t.len() {
        lemma_index_of_absent(t, id, i + 1);
    }
}

/// Every event is found by its own id (no two share one), and an unknown
/// or empty id finds none.
pub proof fn lemma_events_found_by_id(k: int)
    requires
        0 <= k < event_table().len(),
    ensures
        ids_distinct(event_table()),
        index_of_id(event_table(), event_table()[k].id@, 0) == k,
        index_of_id(event_table(), "no_such_event"@, 0) < 0,
        index_of_id(event_table(), ""@, 0) < 0,
{
    reveal_strlit("wild_beasts");
    reveal_strlit("blighted_barn");
    reveal_strlit("sleepless_nights");
    reveal_strlit("dry_roots");
    reveal_strlit("hollow_stone");
    reveal_strlit("ashen_clearing");
    reveal_strlit("wall_symbols");
    reveal_strlit("stump_tithe");
    reveal_strlit("blackforest");
    reveal_strlit("treeline_whisper");
    reveal_strlit("moving_roots");
    reveal_strlit("bone_pit");
    reveal_strlit("quarry_ruins");
    reveal_strlit("sealed_hatch");
    reveal_strlit("ash_fall");
    reveal_strlit("no_such_event");
    reveal_strlit("");
    let t = event_table();
    assert(t.len() == 15);
    assert(t[0].id@.len() == 11 && t[0].id@[0] == 'w');
    assert(t[1].id@.len() == 13 && t[1].id@[0] == 'b');
    assert(t[2].id@.len() == 16 && t[2].id@[0] == 's');
    assert(t[3].id@.len() == 9 && t[3].id@[0] == 'd');
    assert(t[4].id@.len() == 12 && t[4].id@[0] == 'h');
    assert(t[5].id@.len() == 14 && t[5].id@[0] == 'a');
    assert(t[6].id@.len() == 12 && t[6].id@[0] == 'w');
    assert(t[7].id@.len() == 11 && t[7].id@[0] == 's');
    assert(t[8].id@.len() == 11 && t[8].id@[0] == 'b');
    assert(t[9].id@.len() == 16 && t[9].id@[0] == 't');
    assert(t[10].id@.len() == 12 && t[10].id@[0] == 'm');
    assert(t[11].id@.len() == 8 && t[11].id@[0] == 'b');
    assert(t[12].id@.len() == 12 && t[12].id@[0] == 'q');
    assert(t[13].id@.len() == 12 && t[13].id@[0] == 's');
    assert(t[14].id@.len() == 8 && t[14].id@[0] == 'a');
    assert forall|i: int, j: int| 0 <= i < j < t.len() implies t[i].id@ != t[j].id@ by {
        if t[i].id@ == t[j].id@ {
            assert(t[i].id@.len() == t[j].id@.len());
            assert(t[i].id@[0] == t[j].id@[0]);
        }
    }
    assert forall|j: int| 0 <= j < t.len() implies t[j].id@ != "no_such_event"@ by {
        assert("no_such_event"@.len() == 13 && "no_such_event"@[0] == 'n');
    }
    assert forall|j: int| 0 <= j < t.len() implies t[j].id@ != ""@ by {
        assert(""@.len() == 0);
    }
    lemma_index_of_own(t, k, 0);
    lemma_index_of_absent(t, "no_such_event"@, 0);
    lemma_index_of_absent(t, ""@, 0);
}

/// Wood, stone and food after an outcome, and whether a settler is lost.
pub open spec fn stocks_after(o: Outcome, c: &Colony, roll: u8) -> (int, int, int, bool) {
    let e = o.effect(c, roll);
    (e.wood, e.stone, e.food, e.dies)
}

/// What each answer does to the stocks and to the settlers, for every roll:
/// the gains and costs named in the event texts (`+6 stone`, `-8 wood`, …),
/// losses of food never below zero, a cost that cannot be paid answered as
/// "no", and a settler lost only below the event's odds and only when there
/// is one. Stocks an outcome does not name stay as they were.
pub proof fn lemma_outcome_stocks(o: Outcome, c: &Colony, roll: u8)
    ensures
        ({
            let w = c.wood as int;
            let st = c.stone as int;
            let f = c.food as int;
            let alive = c.population > 0;
            let (w1, s1, f1, dies) = stocks_after(o, c, roll);
            match o {
                Outcome::WildBeastsYes => if w >= 8 {
                    w1 == w - 8 && s1 == st && f1 == f && !dies
                } else {
                    w1 == w && s1 == st && f1 == sat_sub(f, 6) && !dies
                },
                Outcome::WildBeastsNo => w1 == w && s1 == st && f1 == sat_sub(f, 6) && !dies,
                Outcome::BlightedBarnYes => if f >= 8 {
                    w1 == w && s1 == st && f1 == f - 8 && !dies
                } else {
                    w1 == w && s1 == st && f1 == sat_sub(f, if roll < 30 { 15 } else { 5 })
                        && !dies
                },
                Outcome::BlightedBarnNo => w1 == w && s1 == st && f1 == sat_sub(
                    f,
                    if roll < 30 { 15 } else { 5 },
                ) && !dies,
                Outcome::SleeplessNightsYes => if w >= 5 && f >= 2 {
                    w1 == w - 5 && s1 == st && f1 == f - 2 && !dies
                } else {
                    w1 == w && s1 == st && f1 == f && dies == (alive && roll < 20)
                },
                Outcome::SleeplessNightsNo => w1 == w && s1 == st && f1 == f && dies == (alive
                    && roll < 20),
                Outcome::DryRootsYes => w1 == w + 25 && s1 == st && f1 == sat_sub(f, 5) && !dies,
                Outcome::HollowStoneYes => w1 == w && s1 == st + 6 && f1 == f && dies == (alive
                    && roll < 15),
                Outcome::AshenClearingYes => w1 == w + 15 && s1 == st && f1 == sat_sub(f, 3)
                    && !dies,
                Outcome::WallSymbolsYes => if w >= 3 {
                    w1 == w - 3 && s1 == st && f1 == f && !dies
                } else {
                    w1 == w && s1 == st && f1 == f && dies == (alive && roll < 15)
                },
                Outcome::WallSymbolsNo => w1 == w && s1 == st && f1 == f && dies == (alive && roll
                    < 15),
                Outcome::StumpTitheYes => if f >= 6 {
                    w1 == w && s1 == st && f1 == f - 6 && !dies
                } else {
                    w1 == w && s1 == st && f1 == f && dies == (alive && roll < 35)
                },
                Outcome::BlackforestYes => w1 == w + 20 && s1 == st && f1 == f && dies == (alive
                    && roll < 20),
                Outcome::TreelineWhisperYes => w1 == w && s1 == st && f1 == f && dies == (alive
                    && roll < 25),
                Outcome::TreelineWhisperNo => w1 == w && s1 == st && f1 == sat_sub(f, 3) && !dies,
                Outcome::MovingRootsYes => w1 == w && s1 == st && f1 == f + 10 && dies == (alive
                    && roll < 20),
                Outcome::MovingRootsNo => w1 == w && s1 == st && f1 == sat_sub(f, 4) && !dies,
                Outcome::BonePitYes => w1 == w && s1 == st + 8 && f1 == f && dies == (alive && roll
                    < 25),
                Outcome::QuarryRuinsYes => w1 == w && s1 == st + 12 && f1 == f && dies == (alive
                    && roll < 15),
                Outcome::SealedHatchYes => if roll < 50 {
                    w1 == w && s1 == st && f1 == f + 20 && !dies
                } else {
                    w1 == w && s1 == st && f1 == f && dies == alive
                },
                Outcome::AshFall => w1 == w && s1 == st && f1 == sat_sub(f, 3) && !dies,
                _ => w1 == w && s1 == st && f1 == f && !dies,
            }
        }),
{
}

/// Applying an outcome leaves the colony with the stocks of
/// [`stocks_after`], one settler fewer exactly when one is lost, and its
/// name, caps and hunger counter as they were.
pub proof fn lemma_applied_stocks(o: Outcome, c0: &Colony, c1: &Colony, b: &Balance, roll: u8)
    requires
        o.applied(c0, c1, b, roll),
    ensures
        c1.wood == stocks_after(o, c0, roll).0,
        c1.stone == stocks_after(o, c0, roll).1,
        c1.food == stocks_after(o, c0, roll).2,
        c1.population == c0.population - (if stocks_after(o, c0, roll).3 {
            1int
        } else {
            0
        }),
        c1.name == c0.name,
        c1.max_food == c0.max_food,
        c1.max_population == c0.max_population,
        c1.starvation_days == c0.starvation_days,
{
}

} // verus!
