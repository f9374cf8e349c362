use vstd::prelude::*;

use crate::client::relative_positions::{
    CardsRelativePosition, PetalsRelativePosition, PlayerRelativePos,
};
use crate::rules::states::{BoardModel, StateView};
use crate::rules::PlayerPos;

verus! {

/// Which number a board label shows.
#[derive(Debug, Clone, Copy, PartialEq, Eq, Structural)]
pub enum StateStringPicker {
    Turn,
    Vigor(PlayerRelativePos),
    PetalsCount(PetalsRelativePosition),
    CardsCount(CardsRelativePosition),
}

/// A board label: the text section it fills and the number it shows.
#[derive(Debug, Clone, Copy, PartialEq, Eq, Structural)]
pub struct StateLabel {
    pub text_section_index: usize,
    pub picker: StateStringPicker,
}

impl StateLabel {
    pub fn new(text_section_index: usize, picker: StateStringPicker) -> (res: StateLabel)
        ensures
            res.text_section_index == text_section_index,
            res.picker == picker,
    {
        StateLabel { text_section_index, picker }
    }
}

/// The number a label shows, for a viewer at `me`.
pub open spec fn label_value(me: PlayerPos, board: BoardModel, picker: StateStringPicker) -> int {
    match picker {
        StateStringPicker::Turn => board.turn as int,
        StateStringPicker::Vigor(rp) => board.player_states[rp.absolute(me)].vigor as int,
        StateStringPicker::PetalsCount(pos) => board.petals(pos.absolute(me)).count as int,
        StateStringPicker::CardsCount(pos) => board.pile(pos.absolute(me)).len() as int,
    }
}

/// Returns the number a label shows, for a viewer at `me`; the caller
/// writes it out in decimal.
pub fn label_number(me: PlayerPos, state: &StateView, picker: &StateStringPicker) -> (res: i128)
    ensures
        res == label_value(me, state@, *picker),
{
    match picker {
        StateStringPicker::Turn => state.turn as i128,
        StateStringPicker::Vigor(rp) => state.player_states.index(rp.into_absolute(me)).vigor as i128,
        StateStringPicker::PetalsCount(pos) => state.petals(pos.into_absolute(me)).count as i128,
        StateStringPicker::CardsCount(pos) => state.cards_view(pos.into_absolute(me)).len() as i128,
    }
}

/// A label shows the number of the seat, heap or pile it names, as the
/// viewer at `me` sees the table: "me" names the viewer's seat and "the
/// opponent" the other seat; the shared heaps and the turn are the same for
/// every viewer; and the viewer's "opponent" label shows what the other
/// seat's viewer sees on its "me" label.
pub proof fn lemma_labels_show_named_values(me: PlayerPos, board: BoardModel, r: PlayerRelativePos)
    ensures
        ({
            let seat = if r is Me { me } else { me.spec_other() };
            let side = board.player_states[seat];
            &&& label_value(me, board, StateStringPicker::Turn) == board.turn
            &&& label_value(me, board, StateStringPicker::Vigor(r)) == side.vigor
            &&& label_value(me, board, StateStringPicker::PetalsCount(PetalsRelativePosition::Aura(r)))
                == side.aura.count
            &&& label_value(me, board, StateStringPicker::PetalsCount(PetalsRelativePosition::Flare(r)))
                == side.flare.count
            &&& label_value(me, board, StateStringPicker::PetalsCount(PetalsRelativePosition::Life(r)))
                == side.life.count
            &&& label_value(me, board, StateStringPicker::PetalsCount(PetalsRelativePosition::Distance))
                == board.distance.count
            &&& label_value(me, board, StateStringPicker::PetalsCount(PetalsRelativePosition::Dust))
                == board.dust.count
            &&& label_value(me, board, StateStringPicker::CardsCount(CardsRelativePosition::Hand(r)))
                == side.hand.len()
            &&& label_value(me, board, StateStringPicker::CardsCount(CardsRelativePosition::Deck(r)))
                == side.deck.len()
            &&& label_value(me, board, StateStringPicker::CardsCount(CardsRelativePosition::Discards(r)))
                == side.discard_pile.len()
            &&& label_value(me, board, StateStringPicker::CardsCount(CardsRelativePosition::Playing(r)))
                == side.playing.len()
            &&& label_value(
                me,
                board,
                StateStringPicker::CardsCount(CardsRelativePosition::Enhancements(r)),
            ) == side.enhancements.len()
            &&& label_value(me, board, StateStringPicker::CardsCount(CardsRelativePosition::Played(r)))
                == side.played_pile.len()
        }),
        label_value(me, board, StateStringPicker::Vigor(PlayerRelativePos::Opponent))
            == label_value(me.spec_other(), board, StateStringPicker::Vigor(PlayerRelativePos::Me)),
{
}

} // verus!
