//! Main-phase actions in which a basic action and its cost travel together
//! as one value.

use vstd::prelude::*;

verus! {

/// The index of a card in its owner's hand.
#[derive(Clone, Copy, Debug, PartialEq, Eq, Structural)]
pub struct HandSelector(pub usize);

/// The basic actions that move petals around.
#[derive(Clone, Copy, Debug, PartialEq, Eq, Structural, Hash)]
pub enum BasicAction {
    MoveForward,
    MoveBackward,
    Recover,
    Focus,
}

/// A card that may be played.
#[derive(Clone, Copy, Debug, PartialEq, Eq, Structural)]
pub enum PlayableCardSelector {
    Hand(HandSelector),
}

/// What a basic action is paid with.
#[derive(Clone, Copy, Debug, PartialEq, Eq, Structural)]
pub enum BasicActionCost {
    Hand(HandSelector),
    Vigor,
}

/// A basic action and what it is paid with.
#[derive(Clone, Copy, Debug, PartialEq, Eq, Structural)]
pub struct PlayBasicAction {
    pub action: BasicAction,
    pub cost: BasicActionCost,
}

impl PlayBasicAction {
    pub fn new(action: BasicAction, cost: BasicActionCost) -> (res: PlayBasicAction)
        ensures
            res.action == action,
            res.cost == cost,
    {
        PlayBasicAction { action, cost }
    }
}

/// What a player does in the main phase.
#[derive(Clone, Copy, Debug, PartialEq, Eq, Structural)]
pub enum MainPhaseAction {
    PlayBasicAction(PlayBasicAction),
    PlayCard(PlayableCardSelector),
    EndMainPhase,
}

} // verus!
