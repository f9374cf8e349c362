use vstd::prelude::*;

verus! {

/// Sending a message failed.
#[derive(Debug, Clone, Copy, PartialEq, Eq, Structural)]
pub enum MessageSendError {
    ChannelClosed,
}

} // verus!
