use vstd::prelude::*;

use crate::rules::cards::{Card, CardSelector, CardsPosition};
use crate::rules::player_actions::BasicAction;
use crate::rules::states::{PetalsPosition, Phase};
use crate::rules::{GameResult, PlayerPos};

verus! {

/// One change to the board that a player can see.
#[derive(Clone, Copy, Debug, PartialEq, Eq, Structural)]
pub enum UpdateGameState {
    SetTurn { turn: u32, turn_player: PlayerPos },
    SetPhase(Phase),
    TransferPetals { from: PetalsPosition, to: PetalsPosition, amount: u32 },
    AddToVigor { player: PlayerPos, diff: i32 },
    TransferCard { from: CardSelector, to: CardSelector },
    /// A card leaves a pile whose cards the viewer cannot see; `card` is the
    /// card when the viewer may see it at its destination.
    TransferCardFromHidden { from: CardsPosition, to: CardSelector, card: Option<Card> },
}

/// Something that happened in the game.
#[derive(Clone, Copy, Debug, PartialEq, Eq, Structural)]
pub enum GameEvent {
    StateUpdated(UpdateGameState),
    PerformBasicAction { player: PlayerPos, action: BasicAction },
    GameEnd { result: GameResult },
}

} // verus!
