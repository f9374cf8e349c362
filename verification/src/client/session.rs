use vstd::prelude::*;

use crate::net::frames::game::GameToPlayerRequest;
use crate::net::message_receiver::RecvError;
use crate::net::message_sender::MessageSendError;
use crate::rules::events::{GameEvent, UpdateGameState};
use crate::rules::player_actions::{BasicAction, BasicActionCost};
use crate::rules::states::{BoardModel, InvalidGameViewUpdateError, StateView};
use crate::rules::{GameResult, PlayerPos};

verus! {

/// The client's board refused an update.
#[derive(Debug, Clone, Copy, PartialEq, Eq, Structural)]
pub enum BoardError {
    /// Tried to do an invalid update to the game state.
    InvalidUpdate(InvalidGameViewUpdateError),
}

/// Why a game session stopped.
#[derive(Debug)]
pub enum GameLogicError {
    /// Failed to receive a request from the server.
    RequestReceiveFailed(RecvError),
    /// Failed to send back a response to the server.
    ResponseSendFailed(MessageSendError),
    /// Received an invalid request from the server.
    InvalidRequest(GameToPlayerRequest),
    /// The board refused an update.
    BoardError(BoardError),
}

/// How the game ended, from the viewer's side.
#[derive(Debug, Clone, Copy, PartialEq, Eq, Structural)]
pub enum GameOutcome {
    Won,
    Lost,
    Draw,
}

/// How a result reads for the player at `me`.
pub open spec fn outcome_for(result: GameResult, me: PlayerPos) -> GameOutcome {
    match result {
        GameResult::Draw => GameOutcome::Draw,
        GameResult::Winner(p) => if p == me {
            GameOutcome::Won
        } else {
            GameOutcome::Lost
        },
    }
}

/// Returns how a result reads for the player at `me`.
pub fn outcome(result: GameResult, me: PlayerPos) -> (res: GameOutcome)
    ensures
        res == outcome_for(result, me),
{
    match result {
        GameResult::Draw => GameOutcome::Draw,
        GameResult::Winner(p) => if p == me {
            GameOutcome::Won
        } else {
            GameOutcome::Lost
        },
    }
}

/// Where a game session stands.
pub enum GameSession {
    /// Waiting for the board the game starts from.
    AwaitingInitialState,
    /// The board is known; waiting for the game to start.
    AwaitingGameStart { state: StateView },
    /// The game runs; the viewer sits at `me`.
    Playing { board: StateView, me: PlayerPos },
    /// The game is over; the board stays as the game left it.
    Ended { board: StateView, result: GameResult, me: PlayerPos },
}

/// The model of a game session.
pub enum SessionModel {
    AwaitingInitialState,
    AwaitingGameStart(BoardModel),
    Playing(BoardModel, PlayerPos),
    Ended(BoardModel, GameResult, PlayerPos),
}

impl View for GameSession {
    type V = SessionModel;

    open spec fn view(&self) -> SessionModel {
        match self {
            GameSession::AwaitingInitialState => SessionModel::AwaitingInitialState,
            GameSession::AwaitingGameStart { state } => SessionModel::AwaitingGameStart(state@),
            GameSession::Playing { board, me } => SessionModel::Playing(board@, *me),
            GameSession::Ended { board, result, me } => SessionModel::Ended(board@, *result, *me),
        }
    }
}

/// What the client does after handling a request.
#[derive(Debug)]
pub enum SessionAction {
    /// Nothing to show or send.
    Idle,
    /// Show the board from the seat `me`, then acknowledge the game start.
    StartGame { me: PlayerPos },
    /// Show an event on the board.
    ShowEvent(GameEvent),
    /// Let the player choose a main-phase action among these, and send it.
    ChooseMainPhaseAction {
        allowed_costs: Vec<BasicActionCost>,
        allowed_actions: Vec<BasicAction>,
    },
    /// The server's board was compared with the client's.
    StateChecked { matches: bool },
    /// Announce how the game ended.
    Finish(GameOutcome),
}

/// The request is one the session expects at this point.
pub open spec fn session_expects(s: SessionModel, req: GameToPlayerRequest) -> bool {
    match (s, req) {
        (SessionModel::AwaitingInitialState, GameToPlayerRequest::InitializeGameState(_)) => true,
        (SessionModel::AwaitingGameStart(_), GameToPlayerRequest::RequestGameStart { .. }) => true,
        (SessionModel::Playing(_, _), GameToPlayerRequest::NotifyEvent(_)) => true,
        (SessionModel::Playing(_, _), GameToPlayerRequest::RequestMainPhaseAction(_)) => true,
        (SessionModel::Playing(_, _), GameToPlayerRequest::CheckGameState(_)) => true,
        _ => false,
    }
}

/// Inputs on which handling a request is defined: a board update the session
/// applies must be defined on its board.
pub open spec fn session_request_defined(s: SessionModel, req: GameToPlayerRequest) -> bool {
    match (s, req) {
        (
            SessionModel::Playing(board, _),
            GameToPlayerRequest::NotifyEvent(GameEvent::StateUpdated(u)),
        ) => board.update_defined(u),
        _ => true,
    }
}

/// The session after handling a request. A request the session does not
/// expect leaves it as it was.
pub open spec fn session_after(s: SessionModel, req: GameToPlayerRequest) -> SessionModel {
    if !session_expects(s, req) {
        s
    } else {
        match (s, req) {
            (_, GameToPlayerRequest::InitializeGameState(state)) => SessionModel::AwaitingGameStart(
                state@,
            ),
            (SessionModel::AwaitingGameStart(board), GameToPlayerRequest::RequestGameStart { pos }) =>
                SessionModel::Playing(board, pos),
            (SessionModel::Playing(board, me), GameToPlayerRequest::NotifyEvent(event)) => match event {
                GameEvent::StateUpdated(u) => SessionModel::Playing(board.after_update(u).1, me),
                GameEvent::PerformBasicAction { .. } => s,
                GameEvent::GameEnd { result } => SessionModel::Ended(board, result, me),
            },
            _ => s,
        }
    }
}

/// The board update a request makes the session refuse, if any.
pub open spec fn session_update_error(s: SessionModel, req: GameToPlayerRequest) -> Option<
    InvalidGameViewUpdateError,
> {
    match (s, req) {
        (
            SessionModel::Playing(board, _),
            GameToPlayerRequest::NotifyEvent(GameEvent::StateUpdated(u)),
        ) => match board.after_update(u).0 {
            Err(e) => Some(e),
            Ok(_) => None,
        },
        _ => None,
    }
}

/// The action that answers an expected request the board did not refuse.
pub open spec fn session_action_is(s: SessionModel, req: GameToPlayerRequest, action: SessionAction) -> bool {
    match (s, req) {
        (_, GameToPlayerRequest::InitializeGameState(_)) => action is Idle,
        (_, GameToPlayerRequest::RequestGameStart { pos }) => action == SessionAction::StartGame {
            me: pos,
        },
        (SessionModel::Playing(_, me), GameToPlayerRequest::NotifyEvent(event)) => match event {
            GameEvent::GameEnd { result } => action == SessionAction::Finish(outcome_for(result, me)),
            _ => action == SessionAction::ShowEvent(event),
        },
        (_, GameToPlayerRequest::RequestMainPhaseAction(r)) => match action {
            SessionAction::ChooseMainPhaseAction { allowed_costs, allowed_actions } => {
                &&& allowed_costs@ == r.available_basic_action_costs@
                &&& allowed_actions@ == r.performable_basic_actions@
            },
            _ => false,
        },
        (SessionModel::Playing(board, _), GameToPlayerRequest::CheckGameState(state)) => action
            == SessionAction::StateChecked { matches: board == state@ },
        _ => false,
    }
}

impl GameSession {
    /// A session that waits for the first board.
    pub fn new() -> (res: GameSession)
        ensures
            res@ == SessionModel::AwaitingInitialState,
    {
        GameSession::AwaitingInitialState
    }

    /// Whether handling `request` is defined now (see
    /// `session_request_defined`); the caller stops the session when not.
    pub fn request_defined(&self, request: &GameToPlayerRequest) -> (res: bool)
        ensures
            res == session_request_defined(self@, *request),
    {
        match (self, request) {
            (
                GameSession::Playing { board, .. },
                GameToPlayerRequest::NotifyEvent(GameEvent::StateUpdated(u)),
            ) => board.update_is_defined(*u),
            _ => true,
        }
    }

    /// Handles one request from the game: records the board, starts the
    /// game, applies board updates, and says what the client does next. A
    /// request the session does not expect at this point is refused.
    pub fn handle(&mut self, request: GameToPlayerRequest) -> (res: Result<SessionAction, GameLogicError>)
        requires
            session_request_defined(old(self)@, request),
        ensures
            final(self)@ == session_after(old(self)@, request),
            !session_expects(old(self)@, request) ==> res == Err::<SessionAction, GameLogicError>(
                GameLogicError::InvalidRequest(request),
            ),
            session_expects(old(self)@, request) ==> match session_update_error(
                old(self)@,
                request,
            ) {
                Some(e) => res == Err::<SessionAction, GameLogicError>(
                    GameLogicError::BoardError(BoardError::InvalidUpdate(e)),
                ),
                None => res matches Ok(action) && session_action_is(old(self)@, request, action),
            },
    {
        let mut current = GameSession::AwaitingInitialState;
        std::mem::swap(self, &mut current);
        match current {
            GameSession::AwaitingInitialState => match request {
                GameToPlayerRequest::InitializeGameState(state) => {
                    *self = GameSession::AwaitingGameStart { state };
                    Ok(SessionAction::Idle)
                },
                r => {
                    *self = GameSession::AwaitingInitialState;
                    Err(GameLogicError::InvalidRequest(r))
                },
            },
            GameSession::AwaitingGameStart { state } => match request {
                GameToPlayerRequest::RequestGameStart { pos } => {
                    *self = GameSession::Playing { board: state, me: pos };
                    Ok(SessionAction::StartGame { me: pos })
                },
                r => {
                    *self = GameSession::AwaitingGameStart { state };
                    Err(GameLogicError::InvalidRequest(r))
                },
            },
            GameSession::Playing { board, me } => {
                let mut board = board;
                match request {
                    GameToPlayerRequest::NotifyEvent(event) => match event {
                        GameEvent::StateUpdated(update) => {
                            let applied = board.apply_update(update);
                            *self = GameSession::Playing { board, me };
                            match applied {
                                Ok(()) => Ok(SessionAction::ShowEvent(event)),
                                Err(e) => Err(GameLogicError::BoardError(BoardError::InvalidUpdate(e))),
                            }
                        },
                        GameEvent::PerformBasicAction { .. } => {
                            *self = GameSession::Playing { board, me };
                            Ok(SessionAction::ShowEvent(event))
                        },
                        GameEvent::GameEnd { result } => {
                            *self = GameSession::Ended { board, result, me };
                            Ok(SessionAction::Finish(outcome(result, me)))
                        },
                    },
                    GameToPlayerRequest::RequestMainPhaseAction(req) => {
                        *self = GameSession::Playing { board, me };
                        Ok(
                            SessionAction::ChooseMainPhaseAction {
                                allowed_costs: req.available_basic_action_costs,
                                allowed_actions: req.performable_basic_actions,
                            },
                        )
                    },
                    GameToPlayerRequest::CheckGameState(state) => {
                        let matches = board.same_as(&state);
                        *self = GameSession::Playing { board, me };
                        Ok(SessionAction::StateChecked { matches })
                    },
                    r => {
                        *self = GameSession::Playing { board, me };
                        Err(GameLogicError::InvalidRequest(r))
                    },
                }
            },
            GameSession::Ended { board, result, me } => {
                *self = GameSession::Ended { board, result, me };
                Err(GameLogicError::InvalidRequest(request))
            },
        }
    }
}

/// How a result reads from each seat: a draw is a draw for both players;
/// with a winner, the winner's seat reads it as won and the other seat as
/// lost, so the two seats never read a decided game alike.
pub proof fn lemma_outcome_by_seat(result: GameResult, me: PlayerPos)
    ensures
        result is Draw ==> outcome_for(result, me) == GameOutcome::Draw,
        result matches GameResult::Winner(p) ==> {
            &&& (outcome_for(result, me) == GameOutcome::Won <==> p == me)
            &&& (outcome_for(result, me) == GameOutcome::Lost <==> p != me)
        },
        outcome_for(GameResult::Winner(me), me) == GameOutcome::Won,
        outcome_for(GameResult::Winner(me.spec_other()), me) == GameOutcome::Lost,
        result is Winner ==> outcome_for(result, me) != outcome_for(result, me.spec_other()),
{
}

/// Once the viewer has a seat, it keeps it for the rest of the session.
pub proof fn lemma_seat_is_kept(s: SessionModel, req: GameToPlayerRequest)
    ensures
        s matches SessionModel::Playing(_, me) ==> match session_after(s, req) {
            SessionModel::Playing(_, me2) => me2 == me,
            SessionModel::Ended(_, _, me2) => me2 == me,
            _ => false,
        },
        s matches SessionModel::Ended(_, _, me) ==> session_after(s, req) == s,
{
}

/// A session that is over refuses every request and stays over, board
/// included.
pub proof fn lemma_ended_session_refuses(
    board: BoardModel,
    result: GameResult,
    me: PlayerPos,
    req: GameToPlayerRequest,
)
    ensures
        !session_expects(SessionModel::Ended(board, result, me), req),
        session_after(SessionModel::Ended(board, result, me), req) == SessionModel::Ended(
            board,
            result,
            me,
        ),
{
}

/// While the game runs, only a board update changes the board, and it
/// changes it exactly as the update says; the end of the game keeps the
/// board, and the session ends exactly on a game-end event.
pub proof fn lemma_board_changes_only_by_updates(
    board: BoardModel,
    me: PlayerPos,
    req: GameToPlayerRequest,
)
    ensures
        session_after(SessionModel::Playing(board, me), req) matches SessionModel::Playing(b2, _)
            ==> b2 == (match req {
            GameToPlayerRequest::NotifyEvent(GameEvent::StateUpdated(u)) => board.after_update(u).1,
            _ => board,
        }),
        session_after(SessionModel::Playing(board, me), req) matches SessionModel::Ended(b2, r, me2)
            ==> b2 == board && me2 == me && req == GameToPlayerRequest::NotifyEvent(
            GameEvent::GameEnd { result: r },
        ),
        req matches GameToPlayerRequest::NotifyEvent(GameEvent::GameEnd { result })
            ==> session_after(SessionModel::Playing(board, me), req) == SessionModel::Ended(
            board,
            result,
            me,
        ),
{
}

} // verus!
