use vstd::prelude::*;

use crate::rules::attack::Attack;
use crate::rules::PlayerPos;

mod yurina;

verus! {

/// A pile of cards, first card first.
pub type Cards = Vec<Card>;

/// A pile of cards on the board, named by kind and owner.
#[derive(Clone, Copy, Debug, PartialEq, Eq, Structural)]
pub enum CardsPosition {
    Hand(PlayerPos),
    Playing(PlayerPos),
    Deck(PlayerPos),
    Enhancements(PlayerPos),
    Played(PlayerPos),
    Discards(PlayerPos),
}

impl CardsPosition {
    /// The owner of the pile.
    pub open spec fn owner(self) -> PlayerPos {
        match self {
            CardsPosition::Hand(p) => p,
            CardsPosition::Playing(p) => p,
            CardsPosition::Deck(p) => p,
            CardsPosition::Enhancements(p) => p,
            CardsPosition::Played(p) => p,
            CardsPosition::Discards(p) => p,
        }
    }

    /// Returns the owner of the pile.
    pub fn get_player_pos(&self) -> (res: PlayerPos)
        ensures
            res == self.owner(),
    {
        match self {
            CardsPosition::Hand(p) => *p,
            CardsPosition::Playing(p) => *p,
            CardsPosition::Deck(p) => *p,
            CardsPosition::Enhancements(p) => *p,
            CardsPosition::Played(p) => *p,
            CardsPosition::Discards(p) => *p,
        }
    }
}

/// A place in a pile: where a card is taken from or put to.
#[derive(Clone, Copy, Debug, PartialEq, Eq, Structural)]
pub enum CardSelector {
    /// Just past the last card (putting appends).
    PushLast(CardsPosition),
    /// The last card.
    Last(CardsPosition),
    /// The first card.
    First(CardsPosition),
    /// The card at the given index.
    Index { position: CardsPosition, index: usize },
}

impl CardSelector {
    /// The pile the selector points into.
    pub open spec fn position(self) -> CardsPosition {
        match self {
            CardSelector::PushLast(p) => p,
            CardSelector::Last(p) => p,
            CardSelector::First(p) => p,
            CardSelector::Index { position, .. } => position,
        }
    }

    /// The index the selector names in a pile of `cards_len` cards.
    pub open spec fn index_in(self, cards_len: int) -> int {
        match self {
            CardSelector::Last(_) => cards_len - 1,
            CardSelector::First(_) => 0,
            CardSelector::Index { index, .. } => index as int,
            CardSelector::PushLast(_) => cards_len,
        }
    }

    /// Returns the pile the selector points into.
    pub fn cards_position(self) -> (res: CardsPosition)
        ensures
            res == self.position(),
    {
        match self {
            CardSelector::PushLast(p) => p,
            CardSelector::Last(p) => p,
            CardSelector::First(p) => p,
            CardSelector::Index { position, .. } => position,
        }
    }

    /// Returns the index the selector names in a pile of `cards_len` cards.
    /// The last card of an empty pile has no index.
    pub fn index(self, cards_len: usize) -> (res: usize)
        requires
            !(self is Last && cards_len == 0),
        ensures
            res == self.index_in(cards_len as int),
    {
        match self {
            CardSelector::Last(_) => cards_len - 1,
            CardSelector::First(_) => 0,
            CardSelector::Index { index, .. } => index,
            CardSelector::PushLast(_) => cards_len,
        }
    }
}

/// A card's identity.
#[derive(Clone, Copy, Debug, PartialEq, Eq, Structural)]
pub enum Card {
    Slash,
    Brandish,
}

/// Whether a card is a normal card or a special card with a flare cost.
#[derive(Clone, Copy, Debug, PartialEq, Eq, Structural)]
pub enum CardType {
    Normal,
    Special { flare_cost: u32 },
}

/// The sub-type printed on a card.
#[derive(Clone, Copy, Debug, PartialEq, Eq, Structural)]
pub enum CardSubType {
    NoSubType,
    Reaction,
    Throughout,
}

/// What happens when a card is played.
#[derive(Clone, Debug)]
pub enum CardPlayData {
    AttackCard { attack: Attack },
}

/// The printed data of a card.
#[derive(Clone, Debug)]
pub struct CardData {
    pub id_str: &'static str,
    pub card_type: CardType,
    pub card_sub_type: CardSubType,
    pub play_data: CardPlayData,
}

impl CardData {
    /// The card is a normal attack card with the given damage and range.
    pub open spec fn is_normal_attack(
        self,
        aura_damage: Option<u32>,
        life_damage: Option<u32>,
        range: Seq<i32>,
    ) -> bool {
        &&& self.card_type == CardType::Normal
        &&& self.card_sub_type == CardSubType::NoSubType
        &&& self.play_data matches CardPlayData::AttackCard { attack }
        &&& attack.base_damage.aura_damage == aura_damage
        &&& attack.base_damage.life_damage == life_damage
        &&& attack.range@ == range
    }
}

impl Card {
    /// The printed data of the card.
    pub open spec fn has_data(self, data: CardData) -> bool {
        match self {
            Card::Slash => {
                &&& data.id_str@ == yurina::slash_id()
                &&& data.is_normal_attack(Some(3), Some(1), seq![3i32, 4i32])
            },
            Card::Brandish => {
                &&& data.id_str@ == yurina::brandish_id()
                &&& data.is_normal_attack(Some(2), Some(2), seq![3i32])
            },
        }
    }

    /// Returns the printed data of the card.
    pub fn data(&self) -> (res: CardData)
        ensures
            self.has_data(res),
    {
        match self {
            Card::Slash => yurina::slash(),
            Card::Brandish => yurina::brandish(),
        }
    }
}

} // verus!
