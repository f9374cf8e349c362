//! Players that decide without asking anyone.

use vstd::prelude::*;

use crate::rules::player_actions::{BasicAction, BasicActionCost, MainPhaseAction, PlayableCardSelector};
use crate::rules::states::ViewableState;

verus! {

/// A player that always ends its main phase at once.
pub struct IdlePlayer {}

impl IdlePlayer {
    /// The idle player's main-phase decision: end the main phase, whatever
    /// the board and the choices on offer.
    pub fn get_main_phase_action(
        &self,
        _state: &ViewableState,
        _playable_cards: &Vec<PlayableCardSelector>,
        _doable_basic_actions: &Vec<BasicAction>,
        _available_basic_action_costs: &Vec<BasicActionCost>,
    ) -> (res: MainPhaseAction)
        ensures
            res == MainPhaseAction::EndMainPhase,
    {
        MainPhaseAction::EndMainPhase
    }
}

} // verus!
