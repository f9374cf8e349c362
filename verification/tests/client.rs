use furuyoni_lib::client::animation::{
    card_move_animation, card_texture, spread_delay_millis, CardMoveAnimation,
};
use furuyoni_lib::client::labels::{label_number, StateLabel, StateStringPicker};
use furuyoni_lib::client::picker::{
    basic_action_pick_result, basic_action_pickable, main_phase_pick_result, main_phase_pickable,
    MainPhaseChoice, PickBasicActionResult, PickMainPhaseActionResult, Pickable,
};
use furuyoni_lib::client::post_office::{route_frame, Post};
use furuyoni_lib::client::relative_positions::{
    CardsRelativePosition, PetalsRelativePosition, PlayerRelativePos,
};
use furuyoni_lib::client::session::{
    outcome, BoardError, GameLogicError, GameOutcome, GameSession, SessionAction,
};
use furuyoni_lib::net::frames::{
    GameToPlayerMessage, GameToPlayerRequest, GameToPlayerResponse, LobbyToPlayerMessage,
    LobbyToPlayerRequest, LobbyToPlayerRequestData, RequestMainPhaseAction, ServerMessageFrame,
};
use furuyoni_lib::players::IdlePlayer;
use furuyoni_lib::rules::cards::{Card, CardSelector, CardsPosition};
use furuyoni_lib::rules::events::{GameEvent, UpdateGameState};
use furuyoni_lib::rules::player_actions::{BasicAction, BasicActionCost, MainPhaseAction};
use furuyoni_lib::rules::states::{
    CardsView, InvalidGameViewUpdateError, Petals, PetalsPosition, Phase, PlayerStateView,
    PlayersData, StateView, ViewableOpponentState, ViewablePlayerState, ViewableState,
};
use furuyoni_lib::rules::{GameResult, PlayerPos};

fn side(hand: CardsView) -> PlayerStateView {
    PlayerStateView {
        hand,
        deck: CardsView::Hidden { length: 5 },
        playing: vec![],
        enhancements: vec![],
        played_pile: vec![],
        discard_pile: CardsView::Hidden { length: 0 },
        vigor: 1,
        aura: Petals::new(3, Some(5)),
        life: Petals::new(10, None),
        flare: Petals::new(0, None),
    }
}

fn board() -> StateView {
    StateView {
        turn: 3,
        turn_player: PlayerPos::P1,
        phase: Phase::Main,
        distance: Petals::new(10, Some(10)),
        dust: Petals::new(0, None),
        player_states: PlayersData::new(
            side(CardsView::Open { cards: vec![Card::Slash] }),
            side(CardsView::Hidden { length: 2 }),
        ),
    }
}

fn viewable() -> ViewableState {
    let o = ViewableOpponentState {
        hand_count: 0,
        deck_count: 0,
        enhancements: vec![],
        played_pile: vec![],
        discard_pile_count: 0,
        vigor: 0,
        aura: Petals::new(0, None),
        life: Petals::new(0, None),
        flare: Petals::new(0, None),
    };
    ViewableState {
        turn_number: 1,
        turn_player: PlayerPos::P1,
        phase: Phase::Main,
        distance: Petals::new(10, None),
        dust: Petals::new(0, None),
        player_states: PlayersData::new(
            ViewablePlayerState::Opponent(o.clone()),
            ViewablePlayerState::Opponent(o),
        ),
    }
}

#[test]
fn relative_positions() {
    assert_eq!(PlayerRelativePos::Me.into_absolute(PlayerPos::P2), PlayerPos::P2);
    assert_eq!(PlayerRelativePos::Opponent.into_absolute(PlayerPos::P2), PlayerPos::P1);
    assert_eq!(
        PetalsRelativePosition::Aura(PlayerRelativePos::Opponent).into_absolute(PlayerPos::P1),
        PetalsPosition::Aura(PlayerPos::P2)
    );
    assert_eq!(PetalsRelativePosition::Dust.into_absolute(PlayerPos::P1), PetalsPosition::Dust);
    assert_eq!(
        CardsRelativePosition::Deck(PlayerRelativePos::Me).into_absolute(PlayerPos::P1),
        CardsPosition::Deck(PlayerPos::P1)
    );
}

#[test]
fn labels_show_numbers() {
    let s = board();
    let me = PlayerPos::P1;
    assert_eq!(label_number(me, &s, &StateStringPicker::Turn), 3);
    assert_eq!(label_number(me, &s, &StateStringPicker::Vigor(PlayerRelativePos::Opponent)), 1);
    assert_eq!(
        label_number(me, &s, &StateStringPicker::PetalsCount(PetalsRelativePosition::Distance)),
        10
    );
    assert_eq!(
        label_number(
            me,
            &s,
            &StateStringPicker::CardsCount(CardsRelativePosition::Hand(PlayerRelativePos::Opponent))
        ),
        2
    );
    assert_eq!(
        label_number(
            PlayerPos::P2,
            &s,
            &StateStringPicker::CardsCount(CardsRelativePosition::Hand(PlayerRelativePos::Opponent))
        ),
        1
    );
    let l = StateLabel::new(1, StateStringPicker::Turn);
    assert_eq!(l.text_section_index, 1);
}

#[test]
fn picker_offers() {
    let costs = vec![BasicActionCost::Vigor];
    assert!(main_phase_pickable(Pickable::EndMainPhase, &vec![]));
    assert!(!main_phase_pickable(Pickable::Vigor, &vec![]));
    assert!(main_phase_pickable(Pickable::Vigor, &costs));
    assert!(!main_phase_pickable(Pickable::Cancel, &costs));
    let actions = vec![BasicAction::Focus];
    assert!(basic_action_pickable(Pickable::Cancel, &vec![]));
    assert!(basic_action_pickable(Pickable::BasicAction(BasicAction::Focus), &actions));
    assert!(!basic_action_pickable(Pickable::BasicAction(BasicAction::Recover), &actions));
    assert_eq!(main_phase_pick_result(Pickable::Vigor), Some(PickMainPhaseActionResult::PayBasicActionCost(BasicActionCost::Vigor)));
    assert_eq!(main_phase_pick_result(Pickable::Cancel), None);
    assert_eq!(basic_action_pick_result(Pickable::Cancel), Some(PickBasicActionResult::Cancel));
    assert_eq!(basic_action_pick_result(Pickable::Vigor), None);
}

#[test]
fn main_phase_choice_steps() {
    let c = MainPhaseChoice::ChoosingCost;
    let c = c.click(Pickable::Cancel);
    assert_eq!(c, MainPhaseChoice::ChoosingCost);
    let c = c.click(Pickable::Vigor);
    assert_eq!(c, MainPhaseChoice::ChoosingAction(BasicActionCost::Vigor));
    assert_eq!(c.click(Pickable::Cancel), MainPhaseChoice::ChoosingCost);
    let done = c.click(Pickable::BasicAction(BasicAction::MoveForward));
    assert_eq!(
        done,
        MainPhaseChoice::Chosen(MainPhaseAction::PlayBasicAction {
            action: BasicAction::MoveForward,
            cost: BasicActionCost::Vigor
        })
    );
    assert_eq!(done.click(Pickable::EndMainPhase), done);
    assert_eq!(
        MainPhaseChoice::ChoosingCost.click(Pickable::EndMainPhase),
        MainPhaseChoice::Chosen(MainPhaseAction::EndMainPhase)
    );
}

#[test]
fn animations() {
    let me = PlayerPos::P1;
    let draw = card_move_animation(CardsPosition::Deck(me), CardsPosition::Hand(me), me);
    assert_eq!(draw, CardMoveAnimation::Draw);
    assert_eq!(draw.wait_millis(), 900);
    assert_eq!(draw.stage_millis(), vec![600, 600]);
    let other = card_move_animation(
        CardsPosition::Deck(PlayerPos::P2),
        CardsPosition::Hand(PlayerPos::P2),
        me,
    );
    assert_eq!(other, CardMoveAnimation::Slide);
    assert_eq!(other.wait_millis(), 200);
    assert_eq!(other.stage_millis(), vec![1000]);
    assert_eq!(spread_delay_millis(CardsPosition::Deck(me), me), 800);
    assert_eq!(spread_delay_millis(CardsPosition::Deck(PlayerPos::P2), me), 250);
    assert_eq!(card_texture(Some(Card::Slash)), "sprites/cardfront_empty.png");
    assert_eq!(card_texture(None), "sprites/cardback_normal.png");
}

#[test]
fn routing() {
    let f = ServerMessageFrame::GameMessage(GameToPlayerMessage::Response(GameToPlayerResponse::Ack));
    assert!(matches!(route_frame(f), Post::GameResponse(GameToPlayerResponse::Ack)));
    let f = ServerMessageFrame::GameMessage(GameToPlayerMessage::Request(
        GameToPlayerRequest::RequestGameStart { pos: PlayerPos::P2 },
    ));
    assert!(matches!(route_frame(f), Post::GameRequest(GameToPlayerRequest::RequestGameStart { pos: PlayerPos::P2 })));
    let f = ServerMessageFrame::LobbyMessage(LobbyToPlayerMessage::Request(
        LobbyToPlayerRequest::RequestData(LobbyToPlayerRequestData::AreYouAlive),
    ));
    assert!(matches!(route_frame(f), Post::Lobby(_)));
}

#[test]
fn outcomes() {
    assert_eq!(outcome(GameResult::Draw, PlayerPos::P1), GameOutcome::Draw);
    assert_eq!(outcome(GameResult::Winner(PlayerPos::P1), PlayerPos::P1), GameOutcome::Won);
    assert_eq!(outcome(GameResult::Winner(PlayerPos::P2), PlayerPos::P1), GameOutcome::Lost);
}

#[test]
fn session_flow() {
    let mut s = GameSession::new();
    // a game start before the board is known is refused
    assert!(matches!(
        s.handle(GameToPlayerRequest::RequestGameStart { pos: PlayerPos::P1 }),
        Err(GameLogicError::InvalidRequest(_))
    ));
    assert!(matches!(s.handle(GameToPlayerRequest::InitializeGameState(board())), Ok(SessionAction::Idle)));
    assert!(matches!(
        s.handle(GameToPlayerRequest::RequestGameStart { pos: PlayerPos::P1 }),
        Ok(SessionAction::StartGame { me: PlayerPos::P1 })
    ));
    let ev = GameEvent::StateUpdated(UpdateGameState::TransferCardFromHidden {
        from: CardsPosition::Deck(PlayerPos::P1),
        to: CardSelector::PushLast(CardsPosition::Hand(PlayerPos::P1)),
        card: Some(Card::Brandish),
    });
    let req = GameToPlayerRequest::NotifyEvent(ev);
    assert!(s.request_defined(&req));
    assert!(matches!(s.handle(req), Ok(SessionAction::ShowEvent(_))));
    match &s {
        GameSession::Playing { board, me } => {
            assert_eq!(*me, PlayerPos::P1);
            assert_eq!(board.player_states.p1_data.hand, CardsView::Open { cards: vec![Card::Slash, Card::Brandish] });
        }
        _ => panic!("not playing"),
    }
    let bad = GameToPlayerRequest::NotifyEvent(GameEvent::StateUpdated(UpdateGameState::AddToVigor {
        player: PlayerPos::P2,
        diff: -5,
    }));
    assert!(matches!(
        s.handle(bad),
        Err(GameLogicError::BoardError(BoardError::InvalidUpdate(InvalidGameViewUpdateError::NegativeVigor)))
    ));
    let req = GameToPlayerRequest::RequestMainPhaseAction(RequestMainPhaseAction {
        state: viewable(),
        playable_cards: vec![],
        performable_basic_actions: vec![BasicAction::Focus],
        available_basic_action_costs: vec![BasicActionCost::Vigor],
    });
    match s.handle(req) {
        Ok(SessionAction::ChooseMainPhaseAction { allowed_costs, allowed_actions }) => {
            assert_eq!(allowed_costs, vec![BasicActionCost::Vigor]);
            assert_eq!(allowed_actions, vec![BasicAction::Focus]);
        }
        _ => panic!("expected a main-phase choice"),
    }
    let mut expected = board();
    assert!(matches!(
        s.handle(GameToPlayerRequest::CheckGameState(expected.clone())),
        Ok(SessionAction::StateChecked { matches: false })
    ));
    expected.player_states.p1_data.hand = CardsView::Open { cards: vec![Card::Slash, Card::Brandish] };
    expected.player_states.p1_data.deck = CardsView::Hidden { length: 4 };
    assert!(matches!(
        s.handle(GameToPlayerRequest::CheckGameState(expected.clone())),
        Ok(SessionAction::StateChecked { matches: true })
    ));
    assert!(matches!(
        s.handle(GameToPlayerRequest::NotifyEvent(GameEvent::GameEnd { result: GameResult::Winner(PlayerPos::P2) })),
        Ok(SessionAction::Finish(GameOutcome::Lost))
    ));
    match &s {
        GameSession::Ended { board, result, me } => {
            assert!(board.same_as(&expected));
            assert_eq!(*result, GameResult::Winner(PlayerPos::P2));
            assert_eq!(*me, PlayerPos::P1);
        }
        _ => panic!("expected an ended session"),
    }
    assert!(matches!(
        s.handle(GameToPlayerRequest::NotifyEvent(GameEvent::PerformBasicAction {
            player: PlayerPos::P1,
            action: BasicAction::Focus
        })),
        Err(GameLogicError::InvalidRequest(_))
    ));
}

#[test]
fn idle_player_ends_main_phase() {
    let player = IdlePlayer {};
    let action = player.get_main_phase_action(
        &viewable(),
        &vec![],
        &vec![BasicAction::MoveForward],
        &vec![BasicActionCost::Vigor],
    );
    assert_eq!(action, MainPhaseAction::EndMainPhase);
}

#[test]
fn on_pick_follows_only_offered_clicks() {
    let costs = vec![BasicActionCost::Vigor];
    let actions = vec![BasicAction::MoveForward];
    let c = MainPhaseChoice::ChoosingCost;
    assert_eq!(c.on_pick(Pickable::Cancel, &costs, &actions), c);
    assert_eq!(c.on_pick(Pickable::BasicAction(BasicAction::MoveForward), &costs, &actions), c);
    assert_eq!(c.on_pick(Pickable::Vigor, &vec![], &actions), c);
    let c = c.on_pick(Pickable::Vigor, &costs, &actions);
    assert_eq!(c, MainPhaseChoice::ChoosingAction(BasicActionCost::Vigor));
    assert_eq!(c.on_pick(Pickable::BasicAction(BasicAction::Recover), &costs, &actions), c);
    assert_eq!(c.on_pick(Pickable::Vigor, &costs, &actions), c);
    let chosen = c.on_pick(Pickable::BasicAction(BasicAction::MoveForward), &costs, &actions);
    assert_eq!(
        chosen,
        MainPhaseChoice::Chosen(MainPhaseAction::PlayBasicAction {
            action: BasicAction::MoveForward,
            cost: BasicActionCost::Vigor
        })
    );
    assert_eq!(chosen.on_pick(Pickable::Cancel, &costs, &actions), chosen);
    assert_eq!(
        MainPhaseChoice::ChoosingCost.on_pick(Pickable::EndMainPhase, &vec![], &vec![]),
        MainPhaseChoice::Chosen(MainPhaseAction::EndMainPhase)
    );
}
