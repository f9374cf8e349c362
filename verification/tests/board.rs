use furuyoni_lib::rules::cards::{Card, CardSelector, CardsPosition};
use furuyoni_lib::rules::events::UpdateGameState;
use furuyoni_lib::rules::states::{
    CardsView, CardsViewMutRef, InvalidGameViewUpdateError, Petals, PetalsPosition, Phase, PlayerStateView,
    PlayersData, StateView,
};
use furuyoni_lib::rules::PlayerPos;

fn side(hand: CardsView, deck_len: usize) -> PlayerStateView {
    PlayerStateView {
        hand,
        deck: CardsView::Hidden { length: deck_len },
        playing: vec![],
        enhancements: vec![],
        played_pile: vec![Card::Brandish],
        discard_pile: CardsView::Hidden { length: 0 },
        vigor: 0,
        aura: Petals::new(3, Some(5)),
        life: Petals::new(10, None),
        flare: Petals::new(0, None),
    }
}

fn board() -> StateView {
    StateView {
        turn: 1,
        turn_player: PlayerPos::P1,
        phase: Phase::Beginning,
        distance: Petals::new(10, Some(10)),
        dust: Petals::new(0, None),
        player_states: PlayersData::new(
            side(CardsView::Open { cards: vec![Card::Slash, Card::Brandish] }, 5),
            side(CardsView::Hidden { length: 2 }, 5),
        ),
    }
}

fn total_petals(s: &StateView) -> u64 {
    let mut t = s.distance.count as u64 + s.dust.count as u64;
    for p in [PlayerPos::P1, PlayerPos::P2] {
        let ps = s.player_states.index(p);
        t += ps.aura.count as u64 + ps.life.count as u64 + ps.flare.count as u64;
    }
    t
}

fn hand_len(s: &StateView, p: PlayerPos) -> usize {
    s.cards_view(CardsPosition::Hand(p)).len()
}

#[test]
fn set_turn_and_phase() {
    let mut s = board();
    assert_eq!(s.apply_update(UpdateGameState::SetTurn { turn: 7, turn_player: PlayerPos::P2 }), Ok(()));
    assert_eq!(s.turn, 7);
    assert_eq!(s.turn_player, PlayerPos::P2);
    assert_eq!(s.apply_update(UpdateGameState::SetPhase(Phase::Main)), Ok(()));
    assert_eq!(s.phase, Phase::Main);
}

#[test]
fn transfer_petals_moves_and_keeps_total() {
    let mut s = board();
    let before = total_petals(&s);
    let u = UpdateGameState::TransferPetals {
        from: PetalsPosition::Distance,
        to: PetalsPosition::Aura(PlayerPos::P1),
        amount: 2,
    };
    assert_eq!(s.apply_update(u), Ok(()));
    assert_eq!(s.distance.count, 8);
    assert_eq!(s.petals(PetalsPosition::Aura(PlayerPos::P1)).count, 5);
    assert_eq!(total_petals(&s), before);
}

#[test]
fn transfer_petals_too_many_is_refused_unchanged() {
    let mut s = board();
    let before = s.clone();
    let u = UpdateGameState::TransferPetals {
        from: PetalsPosition::Dust,
        to: PetalsPosition::Life(PlayerPos::P2),
        amount: 1,
    };
    assert_eq!(s.apply_update(u), Err(InvalidGameViewUpdateError::InvalidPetalTransfer));
    assert_eq!(s, before);
}

#[test]
fn transfer_petals_over_max_is_refused_unchanged() {
    let mut s = board();
    let before = s.clone();
    // aura of P1 holds 3 of at most 5
    let u = UpdateGameState::TransferPetals {
        from: PetalsPosition::Distance,
        to: PetalsPosition::Aura(PlayerPos::P1),
        amount: 3,
    };
    assert_eq!(s.apply_update(u), Err(InvalidGameViewUpdateError::InvalidPetalTransfer));
    assert_eq!(s, before);
}

#[test]
fn transfer_petals_to_same_heap_keeps_it() {
    let mut s = board();
    let u = UpdateGameState::TransferPetals {
        from: PetalsPosition::Distance,
        to: PetalsPosition::Distance,
        amount: 4,
    };
    assert_eq!(s.apply_update(u), Ok(()));
    assert_eq!(s.distance, Petals::new(10, Some(10)));
}

#[test]
fn add_to_vigor() {
    let mut s = board();
    assert_eq!(s.apply_update(UpdateGameState::AddToVigor { player: PlayerPos::P2, diff: 2 }), Ok(()));
    assert_eq!(s.player_states.index(PlayerPos::P2).vigor, 2);
    assert_eq!(
        s.apply_update(UpdateGameState::AddToVigor { player: PlayerPos::P2, diff: -3 }),
        Err(InvalidGameViewUpdateError::NegativeVigor)
    );
    assert_eq!(s.player_states.index(PlayerPos::P2).vigor, 2);
    assert_eq!(s.apply_update(UpdateGameState::AddToVigor { player: PlayerPos::P2, diff: -2 }), Ok(()));
    assert_eq!(s.player_states.index(PlayerPos::P2).vigor, 0);
}

#[test]
fn transfer_card_between_open_piles() {
    let mut s = board();
    let u = UpdateGameState::TransferCard {
        from: CardSelector::First(CardsPosition::Hand(PlayerPos::P1)),
        to: CardSelector::PushLast(CardsPosition::Playing(PlayerPos::P1)),
    };
    assert_eq!(s.apply_update(u), Ok(()));
    assert_eq!(s.player_states.p1_data.playing, vec![Card::Slash]);
    assert_eq!(s.player_states.p1_data.hand, CardsView::Open { cards: vec![Card::Brandish] });
}

#[test]
fn transfer_card_to_hidden_pile_counts_it() {
    let mut s = board();
    let u = UpdateGameState::TransferCard {
        from: CardSelector::Last(CardsPosition::Played(PlayerPos::P2)),
        to: CardSelector::PushLast(CardsPosition::Discards(PlayerPos::P2)),
    };
    assert_eq!(s.apply_update(u), Ok(()));
    assert!(s.player_states.p2_data.played_pile.is_empty());
    assert_eq!(s.player_states.p2_data.discard_pile, CardsView::Hidden { length: 1 });
}

#[test]
fn transfer_card_from_hidden_source_is_mismatch() {
    let mut s = board();
    let before = s.clone();
    let u = UpdateGameState::TransferCard {
        from: CardSelector::First(CardsPosition::Hand(PlayerPos::P2)),
        to: CardSelector::PushLast(CardsPosition::Playing(PlayerPos::P2)),
    };
    assert_eq!(s.apply_update(u), Err(InvalidGameViewUpdateError::VisibilityMismatch));
    assert_eq!(s, before);
}

#[test]
fn transfer_card_out_of_bounds_source() {
    let mut s = board();
    let before = s.clone();
    let u = UpdateGameState::TransferCard {
        from: CardSelector::Index { position: CardsPosition::Hand(PlayerPos::P1), index: 2 },
        to: CardSelector::PushLast(CardsPosition::Playing(PlayerPos::P1)),
    };
    assert_eq!(s.apply_update(u), Err(InvalidGameViewUpdateError::CardSelectorOutOfBounds));
    assert_eq!(s, before);
}

#[test]
fn transfer_card_out_of_bounds_target_loses_card_from_source() {
    let mut s = board();
    let u = UpdateGameState::TransferCard {
        from: CardSelector::First(CardsPosition::Hand(PlayerPos::P1)),
        to: CardSelector::Index { position: CardsPosition::Playing(PlayerPos::P1), index: 3 },
    };
    assert_eq!(s.apply_update(u), Err(InvalidGameViewUpdateError::CardSelectorOutOfBounds));
    // the card already left the hand
    assert_eq!(hand_len(&s, PlayerPos::P1), 1);
    assert!(s.player_states.p1_data.playing.is_empty());
}

#[test]
fn draw_from_hidden_deck_into_open_hand() {
    let mut s = board();
    let u = UpdateGameState::TransferCardFromHidden {
        from: CardsPosition::Deck(PlayerPos::P1),
        to: CardSelector::PushLast(CardsPosition::Hand(PlayerPos::P1)),
        card: Some(Card::Slash),
    };
    assert!(s.update_is_defined(u));
    assert_eq!(s.apply_update(u), Ok(()));
    assert_eq!(s.player_states.p1_data.deck, CardsView::Hidden { length: 4 });
    assert_eq!(
        s.player_states.p1_data.hand,
        CardsView::Open { cards: vec![Card::Slash, Card::Brandish, Card::Slash] }
    );
}

#[test]
fn opponent_draw_stays_hidden() {
    let mut s = board();
    let u = UpdateGameState::TransferCardFromHidden {
        from: CardsPosition::Deck(PlayerPos::P2),
        to: CardSelector::PushLast(CardsPosition::Hand(PlayerPos::P2)),
        card: None,
    };
    assert_eq!(s.apply_update(u), Ok(()));
    assert_eq!(hand_len(&s, PlayerPos::P2), 3);
    assert_eq!(s.cards_view(CardsPosition::Deck(PlayerPos::P2)).len(), 4);
}

#[test]
fn unknown_card_into_open_pile_is_mismatch() {
    let mut s = board();
    let u = UpdateGameState::TransferCardFromHidden {
        from: CardsPosition::Deck(PlayerPos::P1),
        to: CardSelector::PushLast(CardsPosition::Hand(PlayerPos::P1)),
        card: None,
    };
    assert_eq!(s.apply_update(u), Err(InvalidGameViewUpdateError::VisibilityMismatch));
    assert_eq!(s.cards_view(CardsPosition::Deck(PlayerPos::P1)).len(), 4);
}

#[test]
fn hidden_transfer_from_open_pile_is_mismatch() {
    let mut s = board();
    let before = s.clone();
    let u = UpdateGameState::TransferCardFromHidden {
        from: CardsPosition::Hand(PlayerPos::P1),
        to: CardSelector::PushLast(CardsPosition::Discards(PlayerPos::P1)),
        card: None,
    };
    assert_eq!(s.apply_update(u), Err(InvalidGameViewUpdateError::VisibilityMismatch));
    assert_eq!(s, before);
}

#[test]
fn undefined_updates_are_detected() {
    let s = board();
    // the last card of an empty pile has no index
    let u = UpdateGameState::TransferCard {
        from: CardSelector::Last(CardsPosition::Playing(PlayerPos::P1)),
        to: CardSelector::PushLast(CardsPosition::Played(PlayerPos::P1)),
    };
    assert!(!s.update_is_defined(u));
    // an empty hidden pile cannot give a card
    let u = UpdateGameState::TransferCardFromHidden {
        from: CardsPosition::Discards(PlayerPos::P1),
        to: CardSelector::PushLast(CardsPosition::Played(PlayerPos::P1)),
        card: Some(Card::Slash),
    };
    assert!(!s.update_is_defined(u));
    let u = UpdateGameState::AddToVigor { player: PlayerPos::P1, diff: i32::MAX };
    assert!(s.update_is_defined(u));
    let mut s2 = board();
    s2.player_states.p1_data.vigor = 1;
    assert!(!s2.update_is_defined(u));
    let u = UpdateGameState::TransferPetals {
        from: PetalsPosition::Distance,
        to: PetalsPosition::Life(PlayerPos::P1),
        amount: 1,
    };
    assert!(s.update_is_defined(u));
}

#[test]
fn cards_view_from_hides_for_non_owner() {
    let cards = vec![Card::Slash, Card::Brandish, Card::Slash];
    assert_eq!(CardsView::from(&cards, true), CardsView::Open { cards: cards.clone() });
    assert_eq!(CardsView::from(&cards, false), CardsView::Hidden { length: 3 });
    let open = CardsView::from(&cards, true);
    assert_eq!(open.get_ref().len(), 3);
    assert_eq!(CardsView::from(&cards, false).get_ref().len(), 3);
}

#[test]
fn same_as_compares_boards() {
    let a = board();
    let mut b = board();
    assert!(a.same_as(&b));
    b.player_states.p2_data.deck = CardsView::Hidden { length: 6 };
    assert!(!a.same_as(&b));
    let mut c = board();
    c.player_states.p1_data.played_pile = vec![Card::Slash];
    assert!(!a.same_as(&c));
}

#[test]
fn error_messages() {
    assert_eq!(
        InvalidGameViewUpdateError::NegativeVigor.message(),
        "Vigor has been pushed to go below 0."
    );
    assert_eq!(
        InvalidGameViewUpdateError::VisibilityMismatch.message(),
        "The update and state's visibility(hidden/open) didn't match."
    );
}

#[test]
fn transfer_there_and_back_restores_board() {
    let mut s = board();
    let start = s.clone();
    let hand = CardsPosition::Hand(PlayerPos::P1);
    let played = CardsPosition::Played(PlayerPos::P1);
    let there = UpdateGameState::TransferCard {
        from: CardSelector::First(hand),
        to: CardSelector::First(played),
    };
    let back = UpdateGameState::TransferCard {
        from: CardSelector::First(played),
        to: CardSelector::First(hand),
    };
    assert_eq!(s.apply_update(there), Ok(()));
    assert_eq!(s.player_states.index(PlayerPos::P1).played_pile, vec![Card::Slash, Card::Brandish]);
    assert_eq!(s.apply_update(back), Ok(()));
    assert_eq!(s, start);
}

#[test]
fn lent_pile_length() {
    let mut cards = vec![Card::Slash, Card::Brandish];
    assert_eq!(CardsViewMutRef::Open { cards: &mut cards }.len(), 2);
    let mut length = 5usize;
    assert_eq!(CardsViewMutRef::Hidden { length: &mut length }.len(), 5);
}
