//! Messages between game and player that carry a main-phase request and its
//! answer.

use vstd::prelude::*;

use crate::net::frames::error::InvalidMessage;
use crate::player_actions::{BasicAction, BasicActionCost, MainPhaseAction, PlayableCardSelector};
use crate::rules::states::ViewableState;

verus! {

/// Why a message could not be read.
#[derive(Debug)]
pub enum Error {
    /// Not enough data is available to parse a message
    Incomplete,
    /// Invalid message encoding
    InvalidMessage(InvalidMessage),
}

/// A message from the game.
#[derive(Debug)]
pub enum GameMessageFrame {
    RequestMainPhaseAction(RequestMainPhaseAction),
}

/// A message from a player.
#[derive(Debug)]
pub enum PlayerMessageFrame {
    ResponseMainPhaseAction(ResponseMainPhaseAction),
}

/// A request from the game, as carried in a request frame.
#[derive(Debug)]
pub enum GameRequest {
    RequestMainPhaseAction(RequestMainPhaseAction),
}

/// A player's answer, as carried in a response frame.
#[derive(Debug)]
pub enum PlayerResponse {
    ResponseMainPhaseAction(ResponseMainPhaseAction),
}

/// The game asks for a main-phase action.
#[derive(Debug)]
pub struct RequestMainPhaseAction {
    pub state: ViewableState,
    pub playable_cards: Vec<PlayableCardSelector>,
    pub performable_basic_actions: Vec<BasicAction>,
    pub available_basic_action_costs: Vec<BasicActionCost>,
}

/// A player's main-phase action.
#[derive(Debug)]
pub struct ResponseMainPhaseAction {
    pub action: MainPhaseAction,
}

} // verus!
