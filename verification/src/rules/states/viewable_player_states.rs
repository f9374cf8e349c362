use vstd::prelude::*;

use crate::rules::cards::Card;
use crate::rules::states::petals::Petals;
use crate::rules::states::players_data::PlayersData;
use crate::rules::states::Phase;
use crate::rules::PlayerPos;

verus! {

/// A player's side as that player sees it, or as the opponent sees it.
#[derive(Clone, Debug)]
pub enum ViewablePlayerState {
    SelfState(ViewableSelfState),
    Opponent(ViewableOpponentState),
}

/// The opponent's side: hidden piles are shown only by their size.
#[derive(Clone, Debug)]
pub struct ViewableOpponentState {
    pub hand_count: usize,
    pub deck_count: usize,
    pub enhancements: Vec<Card>,
    pub played_pile: Vec<Card>,
    pub discard_pile_count: usize,
    pub vigor: i32,
    pub aura: Petals,
    pub life: Petals,
    pub flare: Petals,
}

/// One's own side: hand and discard pile are shown card by card.
#[derive(Clone, Debug)]
pub struct ViewableSelfState {
    pub hands: Vec<Card>,
    pub deck_count: usize,
    pub enhancements: Vec<Card>,
    pub played_pile: Vec<Card>,
    pub discard_pile: Vec<Card>,
    pub vigor: i32,
    pub aura: Petals,
    pub life: Petals,
    pub flare: Petals,
}

/// The whole board as one player sees it.
#[derive(Clone, Debug)]
pub struct ViewableState {
    pub turn_number: u32,
    pub turn_player: PlayerPos,
    pub phase: Phase,
    pub distance: Petals,
    pub dust: Petals,
    pub player_states: ViewablePlayerStates,
}

pub type ViewablePlayerStates = PlayersData<ViewablePlayerState>;

impl ViewablePlayerState {
    pub open spec fn vigor(self) -> i32 {
        match self {
            ViewablePlayerState::SelfState(s) => s.vigor,
            ViewablePlayerState::Opponent(o) => o.vigor,
        }
    }

    pub open spec fn aura(self) -> Petals {
        match self {
            ViewablePlayerState::SelfState(s) => s.aura,
            ViewablePlayerState::Opponent(o) => o.aura,
        }
    }

    pub open spec fn life(self) -> Petals {
        match self {
            ViewablePlayerState::SelfState(s) => s.life,
            ViewablePlayerState::Opponent(o) => o.life,
        }
    }

    pub open spec fn flare(self) -> Petals {
        match self {
            ViewablePlayerState::SelfState(s) => s.flare,
            ViewablePlayerState::Opponent(o) => o.flare,
        }
    }

    /// The same side with vigor replaced.
    pub open spec fn with_vigor(self, vigor: i32) -> ViewablePlayerState {
        match self {
            ViewablePlayerState::SelfState(s) => ViewablePlayerState::SelfState(
                ViewableSelfState { vigor, ..s },
            ),
            ViewablePlayerState::Opponent(o) => ViewablePlayerState::Opponent(
                ViewableOpponentState { vigor, ..o },
            ),
        }
    }

    /// The same side with aura replaced.
    pub open spec fn with_aura(self, aura: Petals) -> ViewablePlayerState {
        match self {
            ViewablePlayerState::SelfState(s) => ViewablePlayerState::SelfState(
                ViewableSelfState { aura, ..s },
            ),
            ViewablePlayerState::Opponent(o) => ViewablePlayerState::Opponent(
                ViewableOpponentState { aura, ..o },
            ),
        }
    }

    /// The same side with life replaced.
    pub open spec fn with_life(self, life: Petals) -> ViewablePlayerState {
        match self {
            ViewablePlayerState::SelfState(s) => ViewablePlayerState::SelfState(
                ViewableSelfState { life, ..s },
            ),
            ViewablePlayerState::Opponent(o) => ViewablePlayerState::Opponent(
                ViewableOpponentState { life, ..o },
            ),
        }
    }

    /// The same side with flare replaced.
    pub open spec fn with_flare(self, flare: Petals) -> ViewablePlayerState {
        match self {
            ViewablePlayerState::SelfState(s) => ViewablePlayerState::SelfState(
                ViewableSelfState { flare, ..s },
            ),
            ViewablePlayerState::Opponent(o) => ViewablePlayerState::Opponent(
                ViewableOpponentState { flare, ..o },
            ),
        }
    }

    pub fn get_vigor(&self) -> (res: i32)
        ensures
            res == self.vigor(),
    {
        match self {
            ViewablePlayerState::SelfState(s) => s.vigor,
            ViewablePlayerState::Opponent(o) => o.vigor,
        }
    }

    /// Lends out vigor; everything else stays as it was.
    pub fn get_vigor_mut(&mut self) -> (res: &mut i32)
        ensures
            *res == old(self).vigor(),
            *final(self) == old(self).with_vigor(*final(res)),
    {
        match self {
            ViewablePlayerState::SelfState(s) => &mut s.vigor,
            ViewablePlayerState::Opponent(o) => &mut o.vigor,
        }
    }

    pub fn get_aura(&self) -> (res: &Petals)
        ensures
            *res == self.aura(),
    {
        match self {
            ViewablePlayerState::SelfState(s) => &s.aura,
            ViewablePlayerState::Opponent(o) => &o.aura,
        }
    }

    /// Lends out aura; everything else stays as it was.
    pub fn get_aura_mut(&mut self) -> (res: &mut Petals)
        ensures
            *res == old(self).aura(),
            *final(self) == old(self).with_aura(*final(res)),
    {
        match self {
            ViewablePlayerState::SelfState(s) => &mut s.aura,
            ViewablePlayerState::Opponent(o) => &mut o.aura,
        }
    }

    pub fn get_life(&self) -> (res: &Petals)
        ensures
            *res == self.life(),
    {
        match self {
            ViewablePlayerState::SelfState(s) => &s.life,
            ViewablePlayerState::Opponent(o) => &o.life,
        }
    }

    /// Lends out life; everything else stays as it was.
    pub fn get_life_mut(&mut self) -> (res: &mut Petals)
        ensures
            *res == old(self).life(),
            *final(self) == old(self).with_life(*final(res)),
    {
        match self {
            ViewablePlayerState::SelfState(s) => &mut s.life,
            ViewablePlayerState::Opponent(o) => &mut o.life,
        }
    }

    pub fn get_flare(&self) -> (res: &Petals)
        ensures
            *res == self.flare(),
    {
        match self {
            ViewablePlayerState::SelfState(s) => &s.flare,
            ViewablePlayerState::Opponent(o) => &o.flare,
        }
    }

    /// Lends out flare; everything else stays as it was.
    pub fn get_flare_mut(&mut self) -> (res: &mut Petals)
        ensures
            *res == old(self).flare(),
            *final(self) == old(self).with_flare(*final(res)),
    {
        match self {
            ViewablePlayerState::SelfState(s) => &mut s.flare,
            ViewablePlayerState::Opponent(o) => &mut o.flare,
        }
    }
}

/// Writing a value through one of the lending getters and reading it back
/// gives the written value; the other values are untouched.
pub proof fn lemma_viewable_write_read(state: ViewablePlayerState, vigor: i32, petals: Petals)
    ensures
        state.with_vigor(vigor).vigor() == vigor,
        state.with_vigor(vigor).aura() == state.aura(),
        state.with_aura(petals).aura() == petals,
        state.with_aura(petals).vigor() == state.vigor(),
        state.with_life(petals).life() == petals,
        state.with_life(petals).flare() == state.flare(),
        state.with_flare(petals).flare() == petals,
        state.with_flare(petals).life() == state.life(),
{
}

} // verus!
