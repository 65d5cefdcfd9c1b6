//! Global time.

use vstd::prelude::*;

verus! {

/// Global time — only `days` for now. Incremented at the very end of each
/// [`Game::tick`](crate::game::Game::tick).
pub struct World {
    pub days: usize,
}

impl Default for World {
    fn default() -> (w: Self)
        ensures
            w.days == 1,
    {
        World { days: 1 }
    }
}

} // verus!
