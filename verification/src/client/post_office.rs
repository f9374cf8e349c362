use vstd::prelude::*;

use crate::net::frames::game::{GameToPlayerMessage, GameToPlayerRequest, GameToPlayerResponse};
use crate::net::frames::lobby::LobbyToPlayerMessage;
use crate::net::frames::server::ServerMessageFrame;

verus! {

/// Why the loop that receives the server's frames stopped.
#[derive(Debug, Clone, Copy, PartialEq, Eq, Structural)]
pub enum ReceivePostsError {
    /// Failed to send a message through a given channel.
    ChannelSendError,
    /// Failed to read a frame.
    FrameReadError,
}

/// Where a frame from the server is delivered.
#[derive(Debug)]
pub enum Post {
    /// To the game logic, which answers requests.
    GameRequest(GameToPlayerRequest),
    /// To whoever waits for an answer to its own request.
    GameResponse(GameToPlayerResponse),
    /// To the lobby, which the client does not handle yet.
    Lobby(LobbyToPlayerMessage),
}

/// Sorts a frame from the server by where it is delivered.
pub fn route_frame(frame: ServerMessageFrame) -> (res: Post)
    ensures
        match frame {
            ServerMessageFrame::GameMessage(GameToPlayerMessage::Request(r)) => res
                == Post::GameRequest(r),
            ServerMessageFrame::GameMessage(GameToPlayerMessage::Response(r)) => res
                == Post::GameResponse(r),
            ServerMessageFrame::LobbyMessage(m) => res == Post::Lobby(m),
        },
{
    match frame {
        ServerMessageFrame::GameMessage(msg) => match msg {
            GameToPlayerMessage::Request(req) => Post::GameRequest(req),
            GameToPlayerMessage::Response(resp) => Post::GameResponse(resp),
        },
        ServerMessageFrame::LobbyMessage(msg) => Post::Lobby(msg),
    }
}

} // verus!
