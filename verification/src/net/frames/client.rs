use vstd::prelude::*;

use crate::net::frames::game::PlayerToGameMessage;
use crate::net::frames::lobby::PlayerToLobbyMessage;

verus! {

/// A frame sent by a client.
#[derive(Debug)]
pub enum ClientMessageFrame {
    PlayerToLobbyMessage(PlayerToLobbyMessage),
    PlayerToGameMessage(PlayerToGameMessage),
}

} // verus!
