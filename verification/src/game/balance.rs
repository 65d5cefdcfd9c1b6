//! All tunable game constants — costs, yields, worker requirements, birth rules.

pub mod buildings;
pub mod gather;
pub mod population;

pub use buildings::BuildingsBalance;
pub use gather::GatherBalance;
pub use population::PopulationBalance;

use vstd::prelude::*;

verus! {

/// All tunable game constants — costs, yields, worker requirements, birth rules.
///
/// Change values here (or in the sub-structures' `Default`) to rebalance
/// without touching logic.
pub struct Balance {
    pub gather: GatherBalance,
    pub population: PopulationBalance,
    pub buildings: BuildingsBalance,
}

impl Default for Balance {
    fn default() -> (b: Self)
        ensures
            b.gather.is_default(),
            b.population.is_default(),
            b.buildings.is_default(),
    {
        Balance {
            gather: GatherBalance::default(),
            population: PopulationBalance::default(),
            buildings: BuildingsBalance::default(),
        }
    }
}

} // verus!
