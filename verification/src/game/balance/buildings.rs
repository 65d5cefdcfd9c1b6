//! Build costs, worker slots per instance, and passive output rates.

use vstd::prelude::*;

verus! {

/// Tunable constants for all building types.
///
/// Worker fields (`*_max_workers`) define how many settlers one instance needs
/// to be considered staffed; logic reads them via `BuildingKind::workers_required`.
pub struct BuildingsBalance {
    // --- Hut (housing) ---
    /// Population cap added per hut built.
    pub hut_max_population_increase: usize,
    pub build_hut_wood_cost: usize,
    pub build_hut_stone_cost: usize,
    // --- Lumber yard ---
    pub build_lumber_yard_wood_cost: usize,
    pub build_lumber_yard_stone_cost: usize,
    /// Wood per day per **fully staffed** yard.
    pub lumber_yard_wood_production: usize,
    /// Workers required per yard; partial crew → yard does not produce.
    pub lumber_yard_max_workers: usize,
    // --- Stone quarry ---
    pub build_stone_quarry_wood_cost: usize,
    pub build_stone_quarry_stone_cost: usize,
    pub stone_quarry_stone_production: usize,
    pub stone_quarry_max_workers: usize,
    // --- Farm ---
    pub build_farm_wood_cost: usize,
    pub build_farm_stone_cost: usize,
    pub farm_food_production: usize,
    pub farm_max_workers: usize,
    // --- Barn (storage) ---
    /// Food storage cap added per barn built.
    pub barn_max_food_storage_increase: usize,
    pub build_barn_wood_cost: usize,
    pub build_barn_stone_cost: usize,
}

impl BuildingsBalance {
    /// The shipped tuning.
    pub open spec fn is_default(&self) -> bool {
        &&& self.hut_max_population_increase == 3
        &&& self.build_hut_wood_cost == 12
        &&& self.build_hut_stone_cost == 12
        &&& self.build_lumber_yard_wood_cost == 12
        &&& self.build_lumber_yard_stone_cost == 15
        &&& self.lumber_yard_wood_production == 5
        &&& self.lumber_yard_max_workers == 2
        &&& self.build_stone_quarry_wood_cost == 18
        &&& self.build_stone_quarry_stone_cost == 18
        &&& self.stone_quarry_stone_production == 4
        &&& self.stone_quarry_max_workers == 2
        &&& self.build_farm_wood_cost == 18
        &&& self.build_farm_stone_cost == 18
        &&& self.farm_food_production == 2
        &&& self.farm_max_workers == 2
        &&& self.barn_max_food_storage_increase == 15
        &&& self.build_barn_wood_cost == 32
        &&& self.build_barn_stone_cost == 32
    }
}

impl Default for BuildingsBalance {
    fn default() -> (b: Self)
        ensures
            b.is_default(),
    {
        BuildingsBalance {
            hut_max_population_increase: 3,
            build_hut_wood_cost: 12,
            build_hut_stone_cost: 12,
            build_lumber_yard_wood_cost: 12,
            build_lumber_yard_stone_cost: 15,
            lumber_yard_wood_production: 5,
            lumber_yard_max_workers: 2,
            build_stone_quarry_wood_cost: 18,
            build_stone_quarry_stone_cost: 18,
            stone_quarry_stone_production: 4,
            stone_quarry_max_workers: 2,
            build_farm_wood_cost: 18,
            build_farm_stone_cost: 18,
            farm_food_production: 2,
            farm_max_workers: 2,
            barn_max_food_storage_increase: 15,
            build_barn_wood_cost: 32,
            build_barn_stone_cost: 32,
        }
    }
}

} // verus!
