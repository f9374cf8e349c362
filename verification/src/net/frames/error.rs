use vstd::prelude::*;

verus! {

/// Why a frame could not be read from a buffer.
#[derive(Debug, PartialEq, Eq)]
pub enum ParseError {
    /// Not enough data is available to parse a message
    Incomplete,
    /// Invalid message encoding
    InvalidMessage(InvalidMessage),
}

/// A description of an invalid message.
#[derive(Debug, PartialEq, Eq)]
pub struct InvalidMessage {
    pub err_str: String,
}

impl From<String> for InvalidMessage {
    fn from(str: String) -> (res: InvalidMessage) {
        InvalidMessage { err_str: str }
    }
}

impl vstd::std_specs::convert::FromSpecImpl<String> for InvalidMessage {
    open spec fn obeys_from_spec() -> bool {
        true
    }

    open spec fn from_spec(str: String) -> InvalidMessage {
        InvalidMessage { err_str: str }
    }
}

} // verus!
