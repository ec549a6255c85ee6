//! Handles on a session, and the cell through which a task waits for one.

use crate::channel::{
    clone_receiver, clone_sender, receiver_failed, send_command, sender_closed, wake,
};
use crate::commands::Command;
use crate::state::PlaybackInfo;
use std::task::Waker;
use tokio::sync::mpsc::UnboundedSender;
use tokio::sync::watch;
use vstd::prelude::*;

verus! {

/// Whether a handle with these channel ends is live: its commands can
/// still be taken, and its session still publishes.
pub open spec fn spec_live(sender_closed: bool, receiver_failed: bool) -> bool {
    !sender_closed && !receiver_failed
}

/// Tells whether a handle with these channel ends is live.
pub fn live(sender_closed: bool, receiver_failed: bool) -> (live: bool)
    ensures
        live == spec_live(sender_closed, receiver_failed),
{
    !sender_closed && !receiver_failed
}

/// A handle on one session: the end that its commands go into, and the end
/// that its snapshots come out of. Copies of a handle belong to the same
/// session.
pub struct PlayerConnection {
    pub sender: UnboundedSender<Command>,
    pub receiver: watch::Receiver<Option<PlaybackInfo>>,
    session: Ghost<nat>,
}

impl PlayerConnection {
    /// The number of the session that the handle belongs to. The registry
    /// numbers the sessions as it takes them in, so two handles with one
    /// number were made from the same registration.
    pub closed spec fn session(&self) -> nat {
        self.session@
    }

    pub(crate) fn new(
        sender: UnboundedSender<Command>,
        receiver: watch::Receiver<Option<PlaybackInfo>>,
        session: Ghost<nat>,
    ) -> (connection: Self)
        ensures
            connection.session() == session@,
    {
        PlayerConnection { sender, receiver, session }
    }

    /// Tells whether the session behind the handle is still there: whether
    /// it still takes commands and still publishes. The answer is the
    /// channels' own, as [`live`] combines them.
    pub fn is_live(&self) -> (live: bool) {
        let closed = sender_closed(&self.sender);
        let failed = receiver_failed(&self.receiver);
        live(closed, failed)
    }

    /// Hands a command to the session, and tells whether its channel took
    /// it.
    pub fn send(&self, command: Command) -> (sent: bool) {
        send_command(&self.sender, command)
    }

    /// What a lookup of the handle comes to, by whether its session is
    /// live: a copy of the handle if it is, and nothing if it is not.
    pub fn if_live(&self, live: bool) -> (connection: Option<PlayerConnection>)
        ensures
            session_of(connection) == if live {
                Some(self.session())
            } else {
                None
            },
    {
        if live {
            Some(self.clone())
        } else {
            None
        }
    }
}

impl Clone for PlayerConnection {
    fn clone(&self) -> (copy: Self)
        ensures
            copy.session() == self.session(),
    {
        PlayerConnection {
            sender: clone_sender(&self.sender),
            receiver: clone_receiver(&self.receiver),
            session: self.session,
        }
    }
}

/// The session that a handle belongs to, for a handle that may be missing.
pub open spec fn session_of(connection: Option<PlayerConnection>) -> Option<nat> {
    match connection {
        Some(connection) => Some(connection.session()),
        None => None,
    }
}

/// What a task that waits for a session shares with the registry: the
/// handle, once there is one, and until then the callback that resumes the
/// task.
pub struct FutureConnectionData {
    pub connection: Option<PlayerConnection>,
    pub waker: Option<Waker>,
}

/// The mathematical value of a [`FutureConnectionData`].
pub ghost struct FutureConnectionView {
    /// The session that the wait was resolved with, if it was.
    pub resolved: Option<nat>,
    /// Whether a callback is stored.
    pub waiting: bool,
}

impl View for FutureConnectionData {
    type V = FutureConnectionView;

    open spec fn view(&self) -> FutureConnectionView {
        FutureConnectionView {
            resolved: session_of(self.connection),
            waiting: self.waker is Some,
        }
    }
}

impl FutureConnectionData {
    /// A wait that is not resolved and has no callback yet.
    pub fn new() -> (data: Self)
        ensures
            data@.resolved is None,
            !data@.waiting,
    {
        FutureConnectionData { connection: None, waker: None }
    }

    /// One poll of the wait. Once the wait is resolved, the poll hands out
    /// the handle and changes nothing. Until then it stores the callback,
    /// in place of an earlier one, and hands out nothing.
    pub fn poll(&mut self, waker: Waker) -> (ready: Option<PlayerConnection>)
        ensures
            session_of(ready) == old(self)@.resolved,
            final(self)@.resolved == old(self)@.resolved,
            old(self)@.resolved is Some ==> final(self)@ == old(self)@,
            old(self)@.resolved is None ==> final(self).waker == Some(waker),
    {
        match &self.connection {
            Some(connection) => Some(connection.clone()),
            None => {
                self.waker = Some(waker);
                None
            },
        }
    }

    /// Resolves the wait with a handle, and resumes the waiting task if it
    /// left a callback. The callback is taken out as it is used, so it is
    /// never used again.
    pub fn fulfill(&mut self, connection: PlayerConnection)
        ensures
            final(self)@.resolved == Some(connection.session()),
            !final(self)@.waiting,
    {
        self.connection = Some(connection);
        let waker = self.waker.take();
        if let Some(waker) = waker {
            wake(waker);
        }
    }
}

} // verus!
