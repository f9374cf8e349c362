//! A card catalogue keyed by a card's back and id, with its attack.

use vstd::prelude::*;

use crate::rules::attack::{Attack, AttackDamage};

verus! {

/// A card's identity.
#[derive(Clone, Copy, Debug, PartialEq, Eq, Structural)]
pub enum Card {
    Slash,
    Brandish,
}

/// The back of a card: normal cards and special cards look different.
#[derive(Clone, Copy, Debug, PartialEq, Eq, Structural)]
pub enum CardBack {
    Normal,
    Special,
}

/// The printed data of a card.
#[derive(Clone, Debug)]
pub struct CardData {
    pub basic_data: CardBasicData,
    pub play_data: CardPlayData,
}

/// What every card has: its back and its id.
#[derive(Clone, Debug)]
pub struct CardBasicData {
    pub card_back: CardBack,
    pub id_str: &'static str,
}

/// What happens when a card is played.
#[derive(Clone, Debug)]
pub enum CardPlayData {
    AttackCard(AttackCard),
}

/// An attack card's attack.
#[derive(Clone, Debug)]
pub struct AttackCard {
    pub attack: Attack,
}

impl CardData {
    /// A normal card with the given id that attacks with the given damage
    /// and range.
    pub open spec fn is_normal_attack(
        self,
        id: Seq<char>,
        aura_damage: Option<u32>,
        life_damage: Option<u32>,
        range: Seq<i32>,
    ) -> bool {
        &&& self.basic_data.card_back == CardBack::Normal
        &&& self.basic_data.id_str@ == id
        &&& self.play_data matches CardPlayData::AttackCard(card)
        &&& card.attack.base_damage.aura_damage == aura_damage
        &&& card.attack.base_damage.life_damage == life_damage
        &&& card.attack.range@ == range
    }
}

impl Card {
    /// Returns the printed data of the card.
    pub fn data(&self) -> (res: CardData)
        ensures
            match self {
                Card::Slash => res.is_normal_attack(
                    "NA-01-yurina-O-N1"@,
                    Some(3),
                    Some(1),
                    seq![3i32, 4i32],
                ),
                Card::Brandish => res.is_normal_attack(
                    "NA-02-yurina-O-N2"@,
                    Some(2),
                    Some(2),
                    seq![3i32],
                ),
            },
    {
        let mut range: Vec<i32> = Vec::new();
        range.push(3);
        match self {
            Card::Slash => {
                range.push(4);
                assert(range@ =~= seq![3i32, 4i32]);
                CardData {
                    basic_data: CardBasicData { card_back: CardBack::Normal, id_str: "NA-01-yurina-O-N1" },
                    play_data: CardPlayData::AttackCard(
                        AttackCard {
                            attack: Attack {
                                base_damage: AttackDamage { aura_damage: Some(3), life_damage: Some(1) },
                                range,
                            },
                        },
                    ),
                }
            },
            Card::Brandish => {
                assert(range@ =~= seq![3i32]);
                CardData {
                    basic_data: CardBasicData { card_back: CardBack::Normal, id_str: "NA-02-yurina-O-N2" },
                    play_data: CardPlayData::AttackCard(
                        AttackCard {
                            attack: Attack {
                                base_damage: AttackDamage { aura_damage: Some(2), life_damage: Some(2) },
                                range,
                            },
                        },
                    ),
                }
            },
        }
    }
}

} // verus!
