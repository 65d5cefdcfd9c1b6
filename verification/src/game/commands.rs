//! Player commands as the command-line front end spells them.

use vstd::prelude::*;

verus! {

/// Production building type for manual worker assignment (`w` command).
#[derive(PartialEq, Eq, Debug, Clone, Copy, Structural)]
pub enum WorkerSite {
    Farm,
    Lumber,
    Quarry,
}

/// Player commands parsed from command-line input.
#[derive(PartialEq, Eq, Debug, Clone, Copy, Structural)]
pub enum Commands {
    GetWood,
    GetStone,
    GetFood,
    BuildHut,
    BuildLumberYard,
    BuildStoneQuarry,
    BuildFarm,
    BuildBarn,
    DemolishFarm,
    DemolishLumberYard,
    DemolishStoneQuarry,
    SetWorkers { site: WorkerSite, count: usize },
    WorkersAuto,
    Quit,
}

impl Commands {
    /// Worker commands are free — re-render without advancing the day.
    pub fn is_worker_management(&self) -> (r: bool)
        ensures
            r == (*self is SetWorkers || *self is WorkersAuto),
    {
        match self {
            Commands::SetWorkers { .. } | Commands::WorkersAuto => true,
            _ => false,
        }
    }
}

} // verus!
