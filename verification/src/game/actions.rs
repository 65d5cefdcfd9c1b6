//! Player intents from the front end — the domain has no command-line parsing.

use crate::game::building::BuildingKind;
use crate::game::resource::ResourceKind;
use vstd::prelude::*;

verus! {

/// Everything the player can do in one turn (before the day advances,
/// except free-turn commands).
#[derive(PartialEq, Eq, Debug, Clone, Copy, Structural)]
pub enum Actions {
    /// Manual resource gathering using free settlers (`g wood`, …).
    Gather(ResourceKind),
    /// Pay costs and add one building instance (`b farm`, …).
    Build(BuildingKind),
    /// Set total workers on a production type (`w farm 2`, …).
    SetWorkers { kind: BuildingKind, count: usize },
    /// Answer a pending yes/no event (`y` / `n`).
    EventAnswer(bool),
    /// Exit the game loop.
    Quit,
}

impl Actions {
    /// `w` and answering a pending event (`y` / `n`) — no day passes.
    pub fn is_free_turn(&self) -> (r: bool)
        ensures
            r == (*self is SetWorkers || *self is EventAnswer),
    {
        match self {
            Actions::SetWorkers { .. } | Actions::EventAnswer(_) => true,
            _ => false,
        }
    }
}

} // verus!
