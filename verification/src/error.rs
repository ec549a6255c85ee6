//! The errors of a session and of the service around it.

use vstd::prelude::*;

verus! {

/// Why a session refused a command or came to an end.
#[derive(Debug, PartialEq, Eq)]
pub enum PlayerError {
    /// Nobody listens to the session's state any more.
    ChannelError,
    /// The command cannot be carried out as it stands.
    CommandError,
    /// The command needs playback, and the session has none.
    NoPlayback,
    /// Too many reconciliation ticks failed in a row.
    TooManyErrors,
}

/// Why one reconciliation tick failed. The session survives such a
/// failure; it only counts it.
#[derive(Debug, PartialEq, Eq, Clone, Copy)]
pub enum TickError {
    /// The provider could not be asked, or refused a call.
    Provider,
    /// The provider reports no item, an item that is not a track, or a
    /// track without an id.
    NoTrack,
    /// The provider plays a track that is not in the current element.
    UnexpectedItem,
    /// The session has no playback to reconcile.
    NoPlayback,
}

/// What the service answers a request that failed.
#[derive(Debug, PartialEq, Eq)]
pub enum GroovesError {
    NotFound,
    Unauthorized,
    Forbidden,
    InvalidRequest,
    InternalError(String),
}

impl GroovesError {
    /// The HTTP status that the error is answered with.
    pub open spec fn spec_status_code(self) -> u16 {
        match self {
            GroovesError::Unauthorized => 401,
            GroovesError::Forbidden => 403,
            GroovesError::InvalidRequest => 400,
            GroovesError::NotFound => 404,
            GroovesError::InternalError(_) => 500,
        }
    }

    /// The HTTP status that the error is answered with.
    pub fn status_code(&self) -> (code: u16)
        ensures
            code == self.spec_status_code(),
    {
        match self {
            GroovesError::Unauthorized => 401,
            GroovesError::Forbidden => 403,
            GroovesError::InvalidRequest => 400,
            GroovesError::NotFound => 404,
            GroovesError::InternalError(_) => 500,
        }
    }

    /// The text that is sent along: the message of an internal error, and
    /// nothing for the others.
    pub fn body(&self) -> (text: Option<String>)
        ensures
            match *self {
                GroovesError::InternalError(message) => text == Some(message),
                _ => text is None,
            },
    {
        match self {
            GroovesError::InternalError(message) => Some(message.clone()),
            _ => None,
        }
    }
}

} // verus!
