pub mod base;
pub mod client;
pub mod error;
pub mod game;
pub mod lobby;
pub mod server;

pub use base::{encode_frame, frame_text, get_line, WithRequestId};

pub use error::{InvalidMessage, ParseError};
pub use client::ClientMessageFrame;
pub use game::{
    GameToPlayerMessage, GameToPlayerRequest, GameToPlayerResponse, PlayerToGameMessage,
    PlayerToGameRequest, PlayerToGameResponse, RequestMainPhaseAction, ResponseMainPhaseAction,
};
pub use lobby::{
    LobbyRoomInfo, LobbyToPlayerMessage, LobbyToPlayerRequest,
    LobbyToPlayerRequestData, LobbyToPlayerResponse, PlayerToLobbyMessage, PlayerToLobbyRequest,
    PlayerToLobbyResponse, PlayerToLobbyTryEnterRoom,
};
pub use server::ServerMessageFrame;
