use vstd::prelude::*;

use crate::rules::cards::CardsPosition;
use crate::rules::states::{BoardModel, PetalsPosition, PileModel};
use crate::rules::PlayerPos;

verus! {

/// A seat named from the viewer's side of the table.
#[derive(Debug, Clone, Copy, PartialEq, Eq, Structural)]
pub enum PlayerRelativePos {
    Me,
    Opponent,
}

impl PlayerRelativePos {
    pub open spec fn absolute(self, me: PlayerPos) -> PlayerPos {
        match self {
            PlayerRelativePos::Me => me,
            PlayerRelativePos::Opponent => me.spec_other(),
        }
    }

    /// The seat, for a viewer who sits at `me`.
    pub fn into_absolute(self, me: PlayerPos) -> (res: PlayerPos)
        ensures
            res == self.absolute(me),
    {
        match self {
            PlayerRelativePos::Me => me,
            PlayerRelativePos::Opponent => me.other(),
        }
    }
}

/// A heap of petals named from the viewer's side of the table.
#[derive(Debug, Clone, Copy, PartialEq, Eq, Structural)]
pub enum PetalsRelativePosition {
    Distance,
    Dust,
    Aura(PlayerRelativePos),
    Flare(PlayerRelativePos),
    Life(PlayerRelativePos),
}

impl PetalsRelativePosition {
    pub open spec fn absolute(self, me: PlayerPos) -> PetalsPosition {
        match self {
            PetalsRelativePosition::Distance => PetalsPosition::Distance,
            PetalsRelativePosition::Dust => PetalsPosition::Dust,
            PetalsRelativePosition::Aura(p) => PetalsPosition::Aura(p.absolute(me)),
            PetalsRelativePosition::Flare(p) => PetalsPosition::Flare(p.absolute(me)),
            PetalsRelativePosition::Life(p) => PetalsPosition::Life(p.absolute(me)),
        }
    }

    /// The heap, for a viewer who sits at `me`.
    pub fn into_absolute(self, me: PlayerPos) -> (res: PetalsPosition)
        ensures
            res == self.absolute(me),
    {
        match self {
            PetalsRelativePosition::Distance => PetalsPosition::Distance,
            PetalsRelativePosition::Dust => PetalsPosition::Dust,
            PetalsRelativePosition::Aura(p) => PetalsPosition::Aura(p.into_absolute(me)),
            PetalsRelativePosition::Flare(p) => PetalsPosition::Flare(p.into_absolute(me)),
            PetalsRelativePosition::Life(p) => PetalsPosition::Life(p.into_absolute(me)),
        }
    }
}

/// A pile named from the viewer's side of the table.
#[derive(Debug, Clone, Copy, PartialEq, Eq, Structural)]
pub enum CardsRelativePosition {
    Hand(PlayerRelativePos),
    Playing(PlayerRelativePos),
    Deck(PlayerRelativePos),
    Enhancements(PlayerRelativePos),
    Played(PlayerRelativePos),
    Discards(PlayerRelativePos),
}

impl CardsRelativePosition {
    pub open spec fn absolute(self, me: PlayerPos) -> CardsPosition {
        match self {
            CardsRelativePosition::Hand(p) => CardsPosition::Hand(p.absolute(me)),
            CardsRelativePosition::Playing(p) => CardsPosition::Playing(p.absolute(me)),
            CardsRelativePosition::Deck(p) => CardsPosition::Deck(p.absolute(me)),
            CardsRelativePosition::Enhancements(p) => CardsPosition::Enhancements(p.absolute(me)),
            CardsRelativePosition::Played(p) => CardsPosition::Played(p.absolute(me)),
            CardsRelativePosition::Discards(p) => CardsPosition::Discards(p.absolute(me)),
        }
    }

    /// The pile, for a viewer who sits at `me`.
    pub fn into_absolute(self, me: PlayerPos) -> (res: CardsPosition)
        ensures
            res == self.absolute(me),
    {
        match self {
            CardsRelativePosition::Hand(p) => CardsPosition::Hand(p.into_absolute(me)),
            CardsRelativePosition::Playing(p) => CardsPosition::Playing(p.into_absolute(me)),
            CardsRelativePosition::Deck(p) => CardsPosition::Deck(p.into_absolute(me)),
            CardsRelativePosition::Enhancements(p) => CardsPosition::Enhancements(
                p.into_absolute(me),
            ),
            CardsRelativePosition::Played(p) => CardsPosition::Played(p.into_absolute(me)),
            CardsRelativePosition::Discards(p) => CardsPosition::Discards(p.into_absolute(me)),
        }
    }
}

/// The two players see the table from opposite sides: what one calls "me"
/// the other calls "opponent", so both name the same seat, heap and pile.
pub proof fn lemma_relative_positions_agree(
    me: PlayerPos,
    p: PlayerRelativePos,
    petals: PetalsRelativePosition,
    cards: CardsRelativePosition,
)
    ensures
        p.absolute(me) != PlayerRelativePos::Me.absolute(me) <==> p == PlayerRelativePos::Opponent,
        PlayerRelativePos::Opponent.absolute(me) == PlayerRelativePos::Me.absolute(me.spec_other()),
        PlayerRelativePos::Me.absolute(me) == PlayerRelativePos::Opponent.absolute(me.spec_other()),
        cards.absolute(me).owner() == (match cards {
            CardsRelativePosition::Hand(r) => r,
            CardsRelativePosition::Playing(r) => r,
            CardsRelativePosition::Deck(r) => r,
            CardsRelativePosition::Enhancements(r) => r,
            CardsRelativePosition::Played(r) => r,
            CardsRelativePosition::Discards(r) => r,
        }).absolute(me),
{
}

/// A heap named from the viewer's side is the heap of that kind on the
/// board: the shared heaps are the distance and the dust, and "my" or "the
/// opponent's" aura, flare and life belong to the viewer's seat or to the
/// other seat.
pub proof fn lemma_relative_heaps_on_board(board: BoardModel, me: PlayerPos)
    ensures
        board.petals(PetalsRelativePosition::Distance.absolute(me)) == board.distance,
        board.petals(PetalsRelativePosition::Dust.absolute(me)) == board.dust,
        board.petals(PetalsRelativePosition::Aura(PlayerRelativePos::Me).absolute(me))
            == board.player_states[me].aura,
        board.petals(PetalsRelativePosition::Aura(PlayerRelativePos::Opponent).absolute(me))
            == board.player_states[me.spec_other()].aura,
        board.petals(PetalsRelativePosition::Flare(PlayerRelativePos::Me).absolute(me))
            == board.player_states[me].flare,
        board.petals(PetalsRelativePosition::Flare(PlayerRelativePos::Opponent).absolute(me))
            == board.player_states[me.spec_other()].flare,
        board.petals(PetalsRelativePosition::Life(PlayerRelativePos::Me).absolute(me))
            == board.player_states[me].life,
        board.petals(PetalsRelativePosition::Life(PlayerRelativePos::Opponent).absolute(me))
            == board.player_states[me.spec_other()].life,
{
}

/// A pile named from the viewer's side is the pile of that kind on the
/// board, on the viewer's seat for "me" and on the other seat for "the
/// opponent".
pub proof fn lemma_relative_piles_on_board(board: BoardModel, me: PlayerPos, r: PlayerRelativePos)
    ensures
        ({
            let seat = if r is Me { me } else { me.spec_other() };
            let side = board.player_states[seat];
            &&& board.pile(CardsRelativePosition::Hand(r).absolute(me)) == side.hand
            &&& board.pile(CardsRelativePosition::Deck(r).absolute(me)) == side.deck
            &&& board.pile(CardsRelativePosition::Discards(r).absolute(me)) == side.discard_pile
            &&& board.pile(CardsRelativePosition::Playing(r).absolute(me)) == PileModel::Open(
                side.playing,
            )
            &&& board.pile(CardsRelativePosition::Enhancements(r).absolute(me)) == PileModel::Open(
                side.enhancements,
            )
            &&& board.pile(CardsRelativePosition::Played(r).absolute(me)) == PileModel::Open(
                side.played_pile,
            )
        }),
{
}

} // verus!
