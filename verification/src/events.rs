//! Game events that carry a basic action with its cost and amount.

use vstd::prelude::*;

use crate::player_actions::BasicAction;
use crate::rules::PlayerPos;

verus! {

/// Something that happened in the game.
#[derive(Clone, Copy, Debug, PartialEq, Eq, Structural)]
pub enum GameEvent {
    DoBasicAction { pos: PlayerPos, cost: Option<EventCost>, action: BasicAction, amount: i32 },
}

/// What an event was paid with.
#[derive(Clone, Copy, Debug, PartialEq, Eq, Structural)]
pub enum EventCost {
    Vigor,
}

} // verus!
