use vstd::prelude::*;

use crate::net::frames;

verus! {

/// The peer closed the connection.
#[derive(Debug, Clone, Copy, PartialEq, Eq, Structural)]
pub struct ConnectionClosed {
    is_clean_shutdown: bool,
}

impl ConnectionClosed {
    /// The connection closed with `buffered` unread bytes left over; it is a
    /// clean shutdown exactly when no partial frame was left.
    pub fn after_end_of_stream(buffered: usize) -> (res: ConnectionClosed)
        ensures
            res.is_clean() == (buffered == 0),
    {
        ConnectionClosed { is_clean_shutdown: buffered == 0 }
    }

    pub closed spec fn is_clean(self) -> bool {
        self.is_clean_shutdown
    }

    /// Whether the peer closed between frames.
    pub fn is_clean_shutdown(&self) -> (res: bool)
        ensures
            res == self.is_clean(),
    {
        self.is_clean_shutdown
    }
}

/// A frame arrived but could not be understood.
#[derive(Debug, PartialEq, Eq)]
pub struct ParseError {
    error_str: String,
}

impl ParseError {
    pub closed spec fn text(self) -> Seq<char> {
        self.error_str@
    }

    /// The description of the problem.
    pub fn error_str(&self) -> (res: &String)
        ensures
            res@ == self.text(),
    {
        &self.error_str
    }
}

/// What one attempt to parse a frame from the buffered bytes leads to: a
/// frame, a wait for more bytes (`None`), or a parse error that carries the
/// invalid message's description.
pub fn parse_outcome<T>(parsed: Result<T, frames::ParseError>) -> (res: Result<Option<T>, ParseError>)
    ensures
        match parsed {
            Ok(frame) => res == Ok::<Option<T>, ParseError>(Some(frame)),
            Err(frames::ParseError::Incomplete) => res == Ok::<Option<T>, ParseError>(None),
            Err(frames::ParseError::InvalidMessage(invalid)) => res matches Err(e) && e.text()
                == invalid.err_str@,
        },
{
    match parsed {
        Ok(frame) => Ok(Some(frame)),
        Err(frames::ParseError::Incomplete) => Ok(None),
        Err(frames::ParseError::InvalidMessage(invalid)) => Err(
            ParseError { error_str: invalid.err_str },
        ),
    }
}

} // verus!
