use vstd::prelude::*;

verus! {

/// A message from the lobby to a player.
#[derive(Debug)]
pub enum LobbyToPlayerMessage {
    Request(LobbyToPlayerRequest),
    Response(LobbyToPlayerResponse),
}

/// What the lobby asks of a player. (Lobby notifications have no kinds yet,
/// so no message carries one.)
#[derive(Debug, Clone, Copy, PartialEq, Eq, Structural)]
pub enum LobbyToPlayerRequest {
    RequestData(LobbyToPlayerRequestData),
}

/// What the lobby asks a player.
#[derive(Debug, Clone, Copy, PartialEq, Eq, Structural)]
pub enum LobbyToPlayerRequestData {
    AreYouAlive,
}

/// The lobby's answer to a player's request.
#[derive(Debug)]
pub enum LobbyToPlayerResponse {
    RoomsList(Vec<LobbyRoomInfo>),
    RoonEnterSuccess(bool),
}

/// A room as the lobby lists it.
#[derive(Debug)]
pub struct LobbyRoomInfo {
    pub roon_id: u32,
    pub room_name: String,
    pub room_description: String,
    pub current_player_num: u32,
    pub max_player_num: u32,
}

/// A message from a player to the lobby.
#[derive(Debug)]
pub enum PlayerToLobbyMessage {
    Response(PlayerToLobbyResponse),
    Request(PlayerToLobbyRequest),
}

/// A player's answer to the lobby.
#[derive(Debug, Clone, Copy, PartialEq, Eq, Structural)]
pub enum PlayerToLobbyResponse {
    Ack,
}

/// What a player asks of the lobby.
#[derive(Debug, Clone, Copy, PartialEq, Eq, Structural)]
pub enum PlayerToLobbyRequest {
    GetRoomsList,
    TryEnterRoom(PlayerToLobbyTryEnterRoom),
}

/// A player asks to enter a room.
#[derive(Debug, Clone, Copy, PartialEq, Eq, Structural)]
pub struct PlayerToLobbyTryEnterRoom {
    pub room_id: u32,
    pub player_id: u32,
}

} // verus!
