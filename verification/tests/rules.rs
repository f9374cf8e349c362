use furuyoni_lib::cards as catalogue;
use furuyoni_lib::player_actions::{BasicAction as PairedBasicAction, BasicActionCost as PairedCost, PlayBasicAction};
use furuyoni_lib::rules::cards::{Card, CardPlayData, CardSelector, CardSubType, CardType, CardsPosition};
use furuyoni_lib::rules::states::{Petals, PlayersData, ViewableOpponentState, ViewablePlayerState};
use furuyoni_lib::rules::PlayerPos;

#[test]
fn other_player() {
    assert_eq!(PlayerPos::P1.other(), PlayerPos::P2);
    assert_eq!(PlayerPos::P2.other(), PlayerPos::P1);
    assert_eq!(PlayerPos::P1.other().other(), PlayerPos::P1);
    assert_eq!(PlayerPos::iter(), vec![PlayerPos::P1, PlayerPos::P2]);
}

#[test]
fn card_selector_index() {
    let pos = CardsPosition::Deck(PlayerPos::P2);
    assert_eq!(pos.get_player_pos(), PlayerPos::P2);
    assert_eq!(CardSelector::Last(pos).index(4), 3);
    assert_eq!(CardSelector::First(pos).index(4), 0);
    assert_eq!(CardSelector::PushLast(pos).index(4), 4);
    assert_eq!(CardSelector::Index { position: pos, index: 9 }.index(4), 9);
    assert_eq!(CardSelector::Index { position: pos, index: 9 }.cards_position(), pos);
}

#[test]
fn card_data() {
    let slash = Card::Slash.data();
    assert_eq!(slash.id_str, "NA-01-yurina-O-N1");
    assert_eq!(slash.card_type, CardType::Normal);
    assert_eq!(slash.card_sub_type, CardSubType::NoSubType);
    let CardPlayData::AttackCard { attack } = slash.play_data;
    assert_eq!(attack.base_damage.aura_damage, Some(3));
    assert_eq!(attack.base_damage.life_damage, Some(1));
    assert_eq!(attack.range, vec![3, 4]);
    let brandish = Card::Brandish.data();
    assert_eq!(brandish.id_str, "NA-02-yurina-O-N2");
    let CardPlayData::AttackCard { attack } = brandish.play_data;
    assert_eq!(attack.base_damage.aura_damage, Some(2));
    assert_eq!(attack.range, vec![3]);
}

#[test]
fn card_catalogue_by_back() {
    let d = catalogue::Card::Brandish.data();
    assert_eq!(d.basic_data.id_str, "NA-02-yurina-O-N2");
    assert_eq!(d.basic_data.card_back, catalogue::CardBack::Normal);
    let catalogue::CardPlayData::AttackCard(card) = d.play_data;
    assert_eq!(card.attack.base_damage.life_damage, Some(2));
}

#[test]
fn play_basic_action_new() {
    let a = PlayBasicAction::new(PairedBasicAction::Focus, PairedCost::Vigor);
    assert_eq!(a.action, PairedBasicAction::Focus);
    assert_eq!(a.cost, PairedCost::Vigor);
}

#[test]
fn players_data_index() {
    let mut d = PlayersData::new(1u32, 2u32);
    assert_eq!(*d.index(PlayerPos::P1), 1);
    assert_eq!(*d.index(PlayerPos::P2), 2);
    *d.index_mut(PlayerPos::P2) = 7;
    assert_eq!(*d.index(PlayerPos::P2), 7);
    assert_eq!(*d.index(PlayerPos::P1), 1);
}

#[test]
fn viewable_player_state_getters() {
    let mut s = ViewablePlayerState::Opponent(ViewableOpponentState {
        hand_count: 3,
        deck_count: 7,
        enhancements: vec![],
        played_pile: vec![],
        discard_pile_count: 0,
        vigor: 1,
        aura: Petals::new(3, Some(5)),
        life: Petals::new(10, None),
        flare: Petals::new(0, None),
    });
    assert_eq!(s.get_vigor(), 1);
    *s.get_vigor_mut() = 2;
    assert_eq!(s.get_vigor(), 2);
    s.get_aura_mut().count = 4;
    assert_eq!(s.get_aura().count, 4);
    s.get_life_mut().count = 9;
    assert_eq!(s.get_life().count, 9);
    s.get_flare_mut().count = 1;
    assert_eq!(s.get_flare().count, 1);
    assert_eq!(s.get_aura().count, 4);
}
