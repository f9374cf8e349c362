use vstd::prelude::*;

mod petals;
mod players_data;
mod state_view;
mod viewable_player_states;

pub use petals::{Petals, PetalsPosition};
pub use players_data::PlayersData;
pub use state_view::{
    BoardModel, CardsView, CardsViewMutRef, CardsViewRef, InvalidGameViewUpdateError, PileModel, PlayerModel,
    PlayerStateView, PlayerStateViews, StateView,
};
pub use viewable_player_states::{
    ViewableOpponentState, ViewablePlayerState, ViewablePlayerStates, ViewableSelfState,
    ViewableState,
};

verus! {

/// The phase of a turn.
#[derive(Clone, Copy, Debug, PartialEq, Eq, Structural)]
pub enum Phase {
    Beginning,
    Main,
    End,
}

} // verus!
