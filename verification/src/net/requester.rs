use vstd::prelude::*;

use crate::net::message_receiver::RecvError;
use crate::net::message_sender::MessageSendError;

verus! {

/// A request failed.
#[derive(Debug, Clone, Copy, PartialEq, Eq, Structural)]
pub enum RequestError {
    SenderError(MessageSendError),
    ReceiverError(RecvError),
    /// The request id sent is not matched with the response.
    RequestIdMismatch,
}

impl From<MessageSendError> for RequestError {
    fn from(err: MessageSendError) -> (res: RequestError) {
        RequestError::SenderError(err)
    }
}

impl vstd::std_specs::convert::FromSpecImpl<MessageSendError> for RequestError {
    open spec fn obeys_from_spec() -> bool {
        true
    }

    open spec fn from_spec(err: MessageSendError) -> RequestError {
        RequestError::SenderError(err)
    }
}

impl From<RecvError> for RequestError {
    fn from(err: RecvError) -> (res: RequestError) {
        RequestError::ReceiverError(err)
    }
}

impl vstd::std_specs::convert::FromSpecImpl<RecvError> for RequestError {
    open spec fn obeys_from_spec() -> bool {
        true
    }

    open spec fn from_spec(err: RecvError) -> RequestError {
        RequestError::ReceiverError(err)
    }
}

/// A notification failed.
#[derive(Debug, Clone, Copy, PartialEq, Eq, Structural)]
pub enum NotifyError {
    SenderError(MessageSendError),
}

impl From<MessageSendError> for NotifyError {
    fn from(err: MessageSendError) -> (res: NotifyError) {
        NotifyError::SenderError(err)
    }
}

impl vstd::std_specs::convert::FromSpecImpl<MessageSendError> for NotifyError {
    open spec fn obeys_from_spec() -> bool {
        true
    }

    open spec fn from_spec(err: MessageSendError) -> NotifyError {
        NotifyError::SenderError(err)
    }
}

} // verus!
