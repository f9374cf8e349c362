use vstd::prelude::*;

verus! {

/// Receiving a message failed.
#[derive(Debug, Clone, Copy, PartialEq, Eq, Structural)]
pub enum RecvError {
    /// Channel has been closed.
    ChannelClosed,
}

} // verus!
