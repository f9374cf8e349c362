use vstd::prelude::*;

use crate::net::frames::game::GameToPlayerMessage;
use crate::net::frames::lobby::LobbyToPlayerMessage;

verus! {

/// A frame sent by the server.
#[derive(Debug)]
pub enum ServerMessageFrame {
    LobbyMessage(LobbyToPlayerMessage),
    GameMessage(GameToPlayerMessage),
}

} // verus!
