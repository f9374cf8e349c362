pub mod read;

pub use read::{ConnectionClosed as ConnectionClosedError, ParseError};
