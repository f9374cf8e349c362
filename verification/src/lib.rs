//! Game rules, board-state bookkeeping and wire framing for a two-player card
//! duel, together with the client-side decisions that drive a game session.

pub mod cards;
pub mod client;
pub mod events;
pub mod messages;
pub mod net;
pub mod player_actions;
pub mod players;
pub mod rules;
