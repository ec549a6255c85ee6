//! What the service tells a client over its socket.

use vstd::prelude::*;

verus! {

/// A message to a client.
#[derive(Debug, PartialEq, Eq, Clone, Copy)]
pub enum OutgoingMessage {
    RequestToken,
    PlayerState,
    Reauthorize,
}

impl OutgoingMessage {
    /// The text that goes out for the message: its name as a JSON string.
    pub fn text(&self) -> (text: &'static str)
        ensures
            text@ == match *self {
                OutgoingMessage::RequestToken => "\"RequestToken\""@,
                OutgoingMessage::PlayerState => "\"PlayerState\""@,
                OutgoingMessage::Reauthorize => "\"Reauthorize\""@,
            },
    {
        match self {
            OutgoingMessage::RequestToken => "\"RequestToken\"",
            OutgoingMessage::PlayerState => "\"PlayerState\"",
            OutgoingMessage::Reauthorize => "\"Reauthorize\"",
        }
    }
}

} // verus!
