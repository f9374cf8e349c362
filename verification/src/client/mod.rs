//! Decisions of the game client: which side of the board a label shows,
//! which picks the player may make, how cards move on screen, and how a game
//! session reacts to what the server sends.

pub mod animation;
pub mod labels;
pub mod picker;
pub mod post_office;
pub mod relative_positions;
pub mod session;
