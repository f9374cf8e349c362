use vstd::prelude::*;

use crate::rules::PlayerPos;

verus! {

/// A heap of petals (the game's counters) with an optional capacity.
#[derive(Clone, Copy, Debug, PartialEq, Eq, Structural)]
pub struct Petals {
    pub count: u32,
    pub max: Option<u32>,
}

impl Petals {
    /// A heap of `n` petals with capacity `max`.
    pub fn new(n: u32, max: Option<u32>) -> (res: Petals)
        ensures
            res == (Petals { count: n, max }),
    {
        Petals { count: n, max }
    }
}

/// Where a heap of petals lies on the board.
#[derive(Clone, Copy, Debug, PartialEq, Eq, Structural)]
pub enum PetalsPosition {
    Distance,
    Dust,
    Aura(PlayerPos),
    Flare(PlayerPos),
    Life(PlayerPos),
}

} // verus!
