//! Active gathering balance (base yields before the free-settler bonus).

use crate::game::resource::ResourceKind;
use vstd::prelude::*;

verus! {

/// Base gather amounts before [`ResourceKind::gather_percent`] scaling.
pub struct GatherBalance {
    /// Wood from `g wood` (before the percent bonus).
    pub gather_wood_base: usize,
    /// Stone from `g stone`.
    pub gather_stone_base: usize,
    /// Food from `g food`.
    pub gather_food_base: usize,
}

impl GatherBalance {
    /// The base yield configured for `kind`.
    pub open spec fn base_of(&self, kind: ResourceKind) -> usize {
        match kind {
            ResourceKind::Wood => self.gather_wood_base,
            ResourceKind::Stone => self.gather_stone_base,
            ResourceKind::Food => self.gather_food_base,
        }
    }

    /// Base yield for `kind`.
    pub fn base(&self, kind: ResourceKind) -> (r: usize)
        ensures
            r == self.base_of(kind),
    {
        match kind {
            ResourceKind::Wood => self.gather_wood_base,
            ResourceKind::Stone => self.gather_stone_base,
            ResourceKind::Food => self.gather_food_base,
        }
    }

    /// The shipped tuning.
    pub open spec fn is_default(&self) -> bool {
        &&& self.gather_wood_base == 3
        &&& self.gather_stone_base == 3
        &&& self.gather_food_base == 5
    }
}

impl Default for GatherBalance {
    fn default() -> (b: Self)
        ensures
            b.is_default(),
    {
        GatherBalance { gather_wood_base: 3, gather_stone_base: 3, gather_food_base: 5 }
    }
}

} // verus!
