use vstd::prelude::*;

use crate::rules::attack::{Attack, AttackDamage};
use crate::rules::cards::{CardData, CardPlayData, CardSubType, CardType};

verus! {

pub open spec fn slash_id() -> Seq<char> {
    "NA-01-yurina-O-N1"@
}

pub open spec fn brandish_id() -> Seq<char> {
    "NA-02-yurina-O-N2"@
}

pub fn slash() -> (res: CardData)
    ensures
        res.id_str@ == slash_id(),
        res.is_normal_attack(Some(3), Some(1), seq![3i32, 4i32]),
{
    let mut range: Vec<i32> = Vec::new();
    range.push(3);
    range.push(4);
    assert(range@ =~= seq![3i32, 4i32]);
    CardData {
        id_str: "NA-01-yurina-O-N1",
        card_type: CardType::Normal,
        card_sub_type: CardSubType::NoSubType,
        play_data: CardPlayData::AttackCard {
            attack: Attack {
                base_damage: AttackDamage { aura_damage: Some(3), life_damage: Some(1) },
                range,
            },
        },
    }
}

pub fn brandish() -> (res: CardData)
    ensures
        res.id_str@ == brandish_id(),
        res.is_normal_attack(Some(2), Some(2), seq![3i32]),
{
    let mut range: Vec<i32> = Vec::new();
    range.push(3);
    assert(range@ =~= seq![3i32]);
    CardData {
        id_str: "NA-02-yurina-O-N2",
        card_type: CardType::Normal,
        card_sub_type: CardSubType::NoSubType,
        play_data: CardPlayData::AttackCard {
            attack: Attack {
                base_damage: AttackDamage { aura_damage: Some(2), life_damage: Some(2) },
                range,
            },
        },
    }
}

} // verus!
