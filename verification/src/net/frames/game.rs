use vstd::prelude::*;

use crate::rules::events::GameEvent;
use crate::rules::player_actions::{
    BasicAction, BasicActionCost, MainPhaseAction, PlayableCardSelector,
};
use crate::rules::states::{StateView, ViewableState};
use crate::rules::PlayerPos;

verus! {

/// A message from the game to a player.
#[derive(Debug)]
pub enum GameToPlayerMessage {
    Request(GameToPlayerRequest),
    Response(GameToPlayerResponse),
}

/// What the game asks of, or tells, a player.
#[derive(Debug)]
pub enum GameToPlayerRequest {
    /// The board as the player will see it when the game starts.
    InitializeGameState(StateView),
    /// The game starts; the player sits at `pos`.
    RequestGameStart { pos: PlayerPos },
    NotifyEvent(GameEvent),
    RequestMainPhaseAction(RequestMainPhaseAction),
    /// The board as the game sees it, for the player to compare with its own.
    CheckGameState(StateView),
}

/// The game asks the turn player for a main-phase action.
#[derive(Debug)]
pub struct RequestMainPhaseAction {
    pub state: ViewableState,
    pub playable_cards: Vec<PlayableCardSelector>,
    pub performable_basic_actions: Vec<BasicAction>,
    pub available_basic_action_costs: Vec<BasicActionCost>,
}

/// A player's main-phase action, sent back to the game.
#[derive(Debug)]
pub struct ResponseMainPhaseAction {
    pub action: MainPhaseAction,
}

/// The game's answer to a player's request.
#[derive(Debug)]
pub enum GameToPlayerResponse {
    State(ViewableState),
    Ack,
}

/// A message from a player to the game.
#[derive(Debug)]
pub enum PlayerToGameMessage {
    Response(PlayerToGameResponse),
    Request(PlayerToGameRequest),
}

/// A player's answer to the game's request.
#[derive(Debug, Clone, Copy, PartialEq, Eq, Structural)]
pub enum PlayerToGameResponse {
    AcknowledgeGameStart,
    MainPhaseAction(MainPhaseAction),
}

/// What a player asks of the game.
#[derive(Debug, Clone, Copy, PartialEq, Eq, Structural)]
pub enum PlayerToGameRequest {
    RequestState,
    RequestSurrender,
}

} // verus!
