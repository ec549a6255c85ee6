//! The registry of sessions: which user has which session, and who waits
//! for a session that is not there yet.
//!
//! The registry is plain data with one owner. A service shares it between
//! tasks behind a lock of its own, takes the lock for one call at a time,
//! and never waits while it holds it.

use crate::commands::Command;
use crate::connection::{session_of, FutureConnectionData, PlayerConnection};
use crate::state::PlaybackInfo;
use crate::user::{SpotifyCreds, User};
use std::collections::HashMap;
use std::task::Waker;
use tokio::sync::mpsc::UnboundedSender;
use tokio::sync::watch;
use vstd::prelude::*;

verus! {

/// One task that waits for a session of a user.
struct Waiter {
    user_id: i32,
    data: FutureConnectionData,
}

/// The mathematical value of a wait that the registry keeps.
pub ghost struct WaiterView {
    pub user_id: i32,
    /// The session that the wait was resolved with, if it was.
    pub resolved: Option<nat>,
    /// Whether a callback is stored.
    pub waiting: bool,
}

/// The mathematical value of a [`PlayerManager`].
pub ghost struct ManagerView {
    /// The session that is registered for each user who has one.
    pub players: Map<i32, nat>,
    /// The waits, by ticket. A ticket whose wait was dropped is free.
    pub waiters: Seq<Option<WaiterView>>,
    /// The number that the next session gets.
    pub next_session: nat,
}

/// A wait after a session of `user_id` was registered: a wait for that
/// user that was not resolved is resolved with the session and has given up
/// its callback; every other wait is as it was.
pub open spec fn fulfilled(waiter: Option<WaiterView>, user_id: i32, session: nat) -> Option<
    WaiterView,
> {
    match waiter {
        Some(waiter) => if waiter.user_id == user_id && waiter.resolved is None {
            Some(WaiterView { user_id, resolved: Some(session), waiting: false })
        } else {
            Some(waiter)
        },
        None => None,
    }
}

impl ManagerView {
    /// Whether the registry's numbering is in order: every session it
    /// knows has a number below the next one.
    pub open spec fn valid(self) -> bool {
        &&& forall|user_id: i32| #[trigger]
            self.players.contains_key(user_id) ==> self.players[user_id] < self.next_session
        &&& forall|ticket: int|
            0 <= ticket < self.waiters.len() ==> ((#[trigger] self.waiters[ticket]) matches Some(
                waiter,
            ) ==> (waiter.resolved matches Some(session) ==> session < self.next_session))
    }

    /// The registry after a session of `user_id` was registered: the
    /// session has the next number and takes the place of the user's
    /// earlier one, and the waits for the user are resolved with it.
    pub open spec fn with_player(self, user_id: i32) -> ManagerView {
        ManagerView {
            players: self.players.insert(user_id, self.next_session),
            waiters: self.waiters.map_values(
                |waiter: Option<WaiterView>| fulfilled(waiter, user_id, self.next_session),
            ),
            next_session: self.next_session + 1,
        }
    }

    /// Whether `ticket` is the first free ticket: the least one whose wait
    /// was dropped, or else the one after the last.
    pub open spec fn first_free(self, ticket: int) -> bool {
        &&& 0 <= ticket <= self.waiters.len()
        &&& ticket < self.waiters.len() ==> self.waiters[ticket] is None
        &&& forall|earlier: int| 0 <= earlier < ticket ==> (#[trigger] self.waiters[earlier]) is Some
    }

    /// The registry with `waiter` under `ticket`: in place of what was
    /// there, or at the end where the ticket is the one after the last.
    pub open spec fn with_waiter(self, ticket: int, waiter: Option<WaiterView>) -> ManagerView {
        ManagerView {
            waiters: if 0 <= ticket < self.waiters.len() {
                self.waiters.update(ticket, waiter)
            } else if ticket == self.waiters.len() {
                self.waiters.push(waiter)
            } else {
                self.waiters
            },
            ..self
        }
    }

    /// The wait under a ticket, if there is one.
    pub open spec fn waiter(self, ticket: int) -> Option<WaiterView> {
        if 0 <= ticket < self.waiters.len() {
            self.waiters[ticket]
        } else {
            None
        }
    }

    /// The session that the wait under a ticket was resolved with, if
    /// there is such a wait and it was resolved.
    pub open spec fn resolved(self, ticket: int) -> Option<nat> {
        match self.waiter(ticket) {
            Some(waiter) => waiter.resolved,
            None => None,
        }
    }

    /// The registry after a poll of the wait under `ticket`: a wait that
    /// is not resolved has a callback stored; nothing else changes.
    pub open spec fn polled(self, ticket: int) -> ManagerView {
        match self.waiter(ticket) {
            Some(waiter) => if waiter.resolved is None {
                self.with_waiter(ticket, Some(WaiterView { waiting: true, ..waiter }))
            } else {
                self
            },
            None => self,
        }
    }
}

/// What a task gets that asks to wait for a session.
pub enum Awaited {
    /// The user has a live session: here is its handle.
    Ready(PlayerConnection),
    /// The user has none. The wait is kept under this ticket: poll it with
    /// [`PlayerManager::poll_connection`], and hand the ticket back with
    /// [`PlayerManager::cancel`] when the wait is over or given up.
    Waiting(usize),
}

/// Where a command goes.
#[derive(Debug, PartialEq, Eq, Clone, Copy)]
pub enum Route {
    /// To the user's live session.
    Forward,
    /// To a session that has to be started for it.
    Start,
    /// Nowhere: a session would have to be started, and the user has no
    /// credentials with the provider.
    MissingToken,
    /// Nowhere: the user has no live session, and the command is not one
    /// that begins playback.
    NoPlayer,
}

/// Where a command goes, by whether the user has a live session, whether
/// the command begins playback, and whether the user has credentials.
pub open spec fn spec_route(live: bool, starts_playback: bool, has_token: bool) -> Route {
    if live {
        Route::Forward
    } else if !starts_playback {
        Route::NoPlayer
    } else if has_token {
        Route::Start
    } else {
        Route::MissingToken
    }
}

/// Decides where a command goes.
pub fn route(live: bool, starts_playback: bool, has_token: bool) -> (route: Route)
    ensures
        route == spec_route(live, starts_playback, has_token),
{
    if live {
        Route::Forward
    } else if !starts_playback {
        Route::NoPlayer
    } else if has_token {
        Route::Start
    } else {
        Route::MissingToken
    }
}

/// What became of a command that the registry was given.
#[derive(Debug, PartialEq, Eq)]
pub enum Dispatch {
    /// The user's live session took it.
    Sent,
    /// A session has to be started with these credentials; the command is
    /// handed back, to go to [`PlayerManager::start_player`] with the new
    /// session's channel ends.
    Start { creds: SpotifyCreds, command: Command },
}

/// Why the registry could not pass a command on.
#[derive(Debug, PartialEq, Eq, Clone, Copy)]
pub enum ManagerError {
    /// A session would have to be started, and the user has no credentials
    /// with the provider.
    NoToken,
    /// The user has no live session, and the command is not one that
    /// begins playback.
    NoPlayer,
    /// The session went away before it took the command.
    ChannelClosed,
}

/// What becomes of a command whose user has no live session.
pub open spec fn unrouted(user: User, command: Command) -> Result<Dispatch, ManagerError> {
    match spec_route(false, command@ is Play, user.token is Some) {
        Route::Start => Ok(Dispatch::Start { creds: user.token->0, command }),
        Route::MissingToken => Err(ManagerError::NoToken),
        _ => Err(ManagerError::NoPlayer),
    }
}

/// What forwarding a command comes to, by whether the session's channel
/// took it.
pub fn forwarded(sent: bool) -> (dispatched: Result<Dispatch, ManagerError>)
    ensures
        dispatched == if sent {
            Ok::<Dispatch, ManagerError>(Dispatch::Sent)
        } else {
            Err::<Dispatch, ManagerError>(ManagerError::ChannelClosed)
        },
{
    if sent {
        Ok(Dispatch::Sent)
    } else {
        Err(ManagerError::ChannelClosed)
    }
}

/// Registering a session keeps the registry's numbering in order.
pub proof fn lemma_registration_keeps_valid(registry: ManagerView, user_id: i32)
    requires
        registry.valid(),
    ensures
        registry.with_player(user_id).valid(),
{
    let after = registry.with_player(user_id);
    assert forall|ticket: int| 0 <= ticket < after.waiters.len() implies ((
    #[trigger] after.waiters[ticket]) matches Some(waiter) ==> (waiter.resolved matches Some(
        session,
    ) ==> session < after.next_session)) by {
        assert(after.waiters[ticket] == fulfilled(
            registry.waiters[ticket],
            user_id,
            registry.next_session,
        ));
    }
}

/// A registry knows no session of a user until one is registered for that
/// user: registering for another user, keeping or dropping a wait and
/// polling leave it so. Right after a session is registered for a user, it
/// is that user's session.
pub proof fn lemma_session_known_once_registered(
    registry: ManagerView,
    user_id: i32,
    other: i32,
    ticket: int,
    waiter: Option<WaiterView>,
)
    ensures
        registry.with_player(user_id).players.contains_key(user_id),
        registry.with_player(user_id).players[user_id] == registry.next_session,
        other != user_id ==> (registry.with_player(other).players.contains_key(user_id)
            <==> registry.players.contains_key(user_id)),
        registry.with_waiter(ticket, waiter).players == registry.players,
        registry.polled(ticket).players == registry.players,
{
}

/// However many tasks wait for a session of a user, one registration
/// resolves them all with the same session: the one that is then
/// registered for the user. It is a session that the registry did not know
/// before.
pub proof fn lemma_waiters_share_the_session(
    registry: ManagerView,
    user_id: i32,
    first: int,
    second: int,
)
    requires
        registry.valid(),
        registry.waiter(first) matches Some(waiter) && waiter.user_id == user_id
            && waiter.resolved is None,
        registry.waiter(second) matches Some(waiter) && waiter.user_id == user_id
            && waiter.resolved is None,
    ensures
        registry.with_player(user_id).resolved(first) == Some(registry.next_session),
        registry.with_player(user_id).resolved(second) == Some(registry.next_session),
        registry.with_player(user_id).players[user_id] == registry.next_session,
        forall|user_id: i32| #[trigger]
            registry.players.contains_key(user_id) ==> registry.players[user_id]
                != registry.next_session,
        forall|ticket: int| #[trigger] registry.resolved(ticket) != Some(registry.next_session),
{
    let after = registry.with_player(user_id);
    assert(after.waiters[first] == fulfilled(registry.waiters[first], user_id, registry.next_session));
    assert(after.waiters[second] == fulfilled(
        registry.waiters[second],
        user_id,
        registry.next_session,
    ));
}

/// A wait that was resolved stays resolved with the same session, whatever
/// is registered later, until its ticket is handed back.
pub proof fn lemma_resolved_wait_keeps_its_session(
    registry: ManagerView,
    user_id: i32,
    ticket: int,
)
    requires
        registry.resolved(ticket) is Some,
    ensures
        registry.with_player(user_id).resolved(ticket) == registry.resolved(ticket),
        registry.polled(ticket) == registry,
{
    let after = registry.with_player(user_id);
    assert(after.waiters[ticket] == fulfilled(registry.waiters[ticket], user_id, registry.next_session));
}

/// The first free ticket among the waits.
fn first_free_ticket(awaiting: &Vec<Option<Waiter>>) -> (ticket: usize)
    ensures
        0 <= ticket <= awaiting.len(),
        ticket < awaiting.len() ==> awaiting[ticket as int] is None,
        forall|earlier: int| 0 <= earlier < ticket ==> (#[trigger] awaiting[earlier]) is Some,
{
    let mut ticket: usize = 0;
    while ticket < awaiting.len()
        invariant
            ticket <= awaiting.len(),
            forall|earlier: int| 0 <= earlier < ticket ==> (#[trigger] awaiting[earlier]) is Some,
        decreases awaiting.len() - ticket,
    {
        if awaiting[ticket].is_none() {
            return ticket;
        }
        ticket += 1;
    }
    ticket
}

/// Resolves every wait for the user that is not resolved.
fn fulfill_all(awaiting: &mut Vec<Option<Waiter>>, user_id: i32, connection: &PlayerConnection)
    ensures
        waiters_view(final(awaiting)@) == waiters_view(old(awaiting)@).map_values(
            |waiter: Option<WaiterView>| fulfilled(waiter, user_id, connection.session()),
        ),
{
    let ghost before = waiters_view(awaiting@);
    let ghost session = connection.session();
    let mut i: usize = 0;
    while i < awaiting.len()
        invariant
            i <= awaiting.len(),
            awaiting.len() == before.len(),
            session == connection.session(),
            forall|j: int| 0 <= j < i ==> (#[trigger] waiters_view(awaiting@)[j]) == fulfilled(
                before[j],
                user_id,
                session,
            ),
            forall|j: int| i <= j < awaiting.len() ==> (#[trigger] waiters_view(awaiting@)[j])
                == before[j],
        decreases awaiting.len() - i,
    {
        let ghost earlier = waiters_view(awaiting@);
        match &mut awaiting[i] {
            Some(waiter) => {
                if waiter.user_id == user_id && waiter.data.connection.is_none() {
                    waiter.data.fulfill(connection.clone());
                }
            },
            None => {},
        }
        assert(waiters_view(awaiting@)[i as int] == fulfilled(earlier[i as int], user_id, session));
        assert forall|j: int| 0 <= j < awaiting.len() && j != i implies (
        #[trigger] waiters_view(awaiting@)[j]) == earlier[j] by {}
        i += 1;
    }
    assert(waiters_view(awaiting@) =~= before.map_values(
        |waiter: Option<WaiterView>| fulfilled(waiter, user_id, session),
    ));
}

/// The session of each user who has a handle in the map.
spec fn sessions(players: Map<i32, PlayerConnection>) -> Map<i32, nat> {
    Map::new(
        |user_id: i32| players.contains_key(user_id),
        |user_id: i32| players[user_id].session(),
    )
}

/// The mathematical value of a list of waits.
spec fn waiters_view(waiters: Seq<Option<Waiter>>) -> Seq<Option<WaiterView>> {
    waiters.map_values(|waiter: Option<Waiter>| waiter_view(waiter))
}

/// The mathematical value of the wait under one ticket.
spec fn waiter_view(waiter: Option<Waiter>) -> Option<WaiterView> {
    match waiter {
        Some(waiter) => Some(
            WaiterView {
                user_id: waiter.user_id,
                resolved: waiter.data@.resolved,
                waiting: waiter.data@.waiting,
            },
        ),
        None => None,
    }
}

/// The registry of sessions.
pub struct PlayerManager {
    players: HashMap<i32, PlayerConnection>,
    awaiting: Vec<Option<Waiter>>,
    next_session: Ghost<nat>,
}

impl View for PlayerManager {
    type V = ManagerView;

    closed spec fn view(&self) -> ManagerView {
        ManagerView {
            players: sessions(self.players@),
            waiters: waiters_view(self.awaiting@),
            next_session: self.next_session@,
        }
    }
}

impl PlayerManager {
    #[verifier::type_invariant]
    closed spec fn well_formed(&self) -> bool {
        self@.valid()
    }

    /// A registry without sessions and without waits.
    pub fn new() -> (manager: Self)
        ensures
            manager@.players == Map::<i32, nat>::empty(),
            manager@.waiters == Seq::<Option<WaiterView>>::empty(),
            manager@.valid(),
    {
        let manager = PlayerManager {
            players: HashMap::new(),
            awaiting: Vec::new(),
            next_session: Ghost(0),
        };
        assert(manager@.players =~= Map::<i32, nat>::empty());
        assert(manager@.waiters =~= Seq::<Option<WaiterView>>::empty());
        manager
    }

    /// Takes the waits out of the registry, to work on them.
    fn take_waiters(&mut self) -> (awaiting: Vec<Option<Waiter>>)
        ensures
            old(self)@.valid(),
            waiters_view(awaiting@) == old(self)@.waiters,
            final(self)@ == (ManagerView { waiters: Seq::empty(), ..old(self)@ }),
    {
        proof {
            use_type_invariant(&*self);
        }
        let mut awaiting: Vec<Option<Waiter>> = Vec::new();
        proof {
            let emptied = PlayerManager {
                players: self.players,
                awaiting: awaiting,
                next_session: self.next_session,
            };
            assert(emptied@.players == self@.players);
            assert(emptied@.next_session == self@.next_session);
            assert(emptied@.waiters.len() == 0);
            assert(emptied@.valid());
        }
        std::mem::swap(&mut awaiting, &mut self.awaiting);
        assert(self@.waiters =~= Seq::<Option<WaiterView>>::empty());
        awaiting
    }

    /// Puts the waits back.
    fn put_waiters(&mut self, awaiting: Vec<Option<Waiter>>)
        requires
            (ManagerView { waiters: waiters_view(awaiting@), ..old(self)@ }).valid(),
        ensures
            final(self)@ == (ManagerView { waiters: waiters_view(awaiting@), ..old(self)@ }),
    {
        let mut awaiting = awaiting;
        proof {
            let filled = PlayerManager {
                players: self.players,
                awaiting: awaiting,
                next_session: self.next_session,
            };
            assert(filled@ == (ManagerView { waiters: waiters_view(awaiting@), ..self@ }));
        }
        std::mem::swap(&mut awaiting, &mut self.awaiting);
    }

    /// Takes the handles out of the registry, to work on them.
    fn take_players(&mut self) -> (players: HashMap<i32, PlayerConnection>)
        ensures
            old(self)@.valid(),
            sessions(players@) == old(self)@.players,
            final(self)@ == (ManagerView { players: Map::empty(), ..old(self)@ }),
    {
        proof {
            use_type_invariant(&*self);
        }
        let mut players: HashMap<i32, PlayerConnection> = HashMap::new();
        proof {
            let emptied = PlayerManager {
                players: players,
                awaiting: self.awaiting,
                next_session: self.next_session,
            };
            assert(emptied@.players =~= Map::<i32, nat>::empty());
            assert(emptied@.waiters == self@.waiters);
            assert(emptied@.next_session == self@.next_session);
            assert(emptied@.valid());
        }
        std::mem::swap(&mut players, &mut self.players);
        assert(self@.players =~= Map::<i32, nat>::empty());
        players
    }

    /// Puts the handles back.
    fn put_players(&mut self, players: HashMap<i32, PlayerConnection>)
        requires
            (ManagerView { players: sessions(players@), ..old(self)@ }).valid(),
        ensures
            final(self)@ == (ManagerView { players: sessions(players@), ..old(self)@ }),
    {
        let mut players = players;
        proof {
            let filled = PlayerManager {
                players: players,
                awaiting: self.awaiting,
                next_session: self.next_session,
            };
            assert(filled@ == (ManagerView { players: sessions(players@), ..self@ }));
        }
        std::mem::swap(&mut players, &mut self.players);
    }

    /// Registers a session for a user, on the channel ends that its
    /// commands go into and its snapshots come out of, and hands out its
    /// handle. The session takes the place of an earlier one of the same
    /// user. Every wait for the user that is not resolved is resolved with
    /// the new session, and the tasks that left a callback are resumed.
    pub fn new_player(
        &mut self,
        user_id: i32,
        sender: UnboundedSender<Command>,
        receiver: watch::Receiver<Option<PlaybackInfo>>,
    ) -> (connection: PlayerConnection)
        ensures
            old(self)@.valid(),
            connection.session() == old(self)@.next_session,
            final(self)@ == old(self)@.with_player(user_id),
            final(self)@.valid(),
    {
        broadcast use vstd::std_specs::hash::group_hash_axioms;

        let ghost before = self@;
        let mut awaiting = self.take_waiters();
        let mut players = self.take_players();
        let connection = PlayerConnection::new(sender, receiver, Ghost(before.next_session));
        let stored = connection.clone();
        fulfill_all(&mut awaiting, user_id, &connection);
        players.insert(user_id, stored);
        assert(sessions(players@) =~= before.players.insert(user_id, before.next_session));
        proof {
            lemma_registration_keeps_valid(before, user_id);
        }
        self.next_session = Ghost(before.next_session + 1);
        self.put_players(players);
        self.put_waiters(awaiting);
        connection
    }

    /// Registers a session for a user as [`PlayerManager::new_player`] does,
    /// and hands it the command that it was started for. The session stays
    /// registered also where it did not take the command; the result is
    /// then `ChannelClosed`.
    pub fn start_player(
        &mut self,
        user_id: i32,
        sender: UnboundedSender<Command>,
        receiver: watch::Receiver<Option<PlaybackInfo>>,
        command: Command,
    ) -> (started: Result<PlayerConnection, ManagerError>)
        ensures
            old(self)@.valid(),
            final(self)@ == old(self)@.with_player(user_id),
            final(self)@.valid(),
            started matches Ok(connection) ==> connection.session() == old(self)@.next_session,
            started matches Err(error) ==> error == ManagerError::ChannelClosed,
    {
        let connection = self.new_player(user_id, sender, receiver);
        if connection.send(command) {
            Ok(connection)
        } else {
            Err(ManagerError::ChannelClosed)
        }
    }

    /// Looks up the session that is registered for a user, live or not.
    pub fn registered(&self, user_id: i32) -> (connection: Option<&PlayerConnection>)
        ensures
            match connection {
                Some(connection) => self@.players.contains_key(user_id) && connection.session()
                    == self@.players[user_id],
                None => !self@.players.contains_key(user_id),
            },
    {
        broadcast use vstd::std_specs::hash::group_hash_axioms;

        self.players.get(&user_id)
    }

    /// Looks up the live session of a user. A user without a registered
    /// session has none; a user with one has it as long as it is live, by
    /// [`PlayerConnection::is_live`]. A session that is no longer live
    /// stays registered until the next one takes its place.
    pub fn get_player_connection(&self, user_id: i32) -> (connection: Option<PlayerConnection>)
        ensures
            connection matches Some(connection) ==> self@.players.contains_key(user_id)
                && connection.session() == self@.players[user_id],
            !self@.players.contains_key(user_id) ==> connection is None,
    {
        match self.registered(user_id) {
            Some(player) => player.if_live(player.is_live()),
            None => None,
        }
    }

    /// Asks for the session of a user, and waits for it if need be. Where
    /// the user has a live session, its handle comes back at once and the
    /// registry is as it was. Otherwise a wait for the user is kept under
    /// the first free ticket.
    pub fn await_player_connection(&mut self, user_id: i32) -> (awaited: Awaited)
        ensures
            !old(self)@.players.contains_key(user_id) ==> awaited is Waiting,
            match awaited {
                Awaited::Ready(connection) => {
                    &&& old(self)@.players.contains_key(user_id)
                    &&& connection.session() == old(self)@.players[user_id]
                    &&& final(self)@ == old(self)@
                },
                Awaited::Waiting(ticket) => {
                    &&& old(self)@.first_free(ticket as int)
                    &&& final(self)@ == old(self)@.with_waiter(
                        ticket as int,
                        Some(WaiterView { user_id, resolved: None, waiting: false }),
                    )
                },
            },
    {
        if let Some(connection) = self.get_player_connection(user_id) {
            return Awaited::Ready(connection);
        }
        let ghost before = self@;
        let mut awaiting = self.take_waiters();
        let waiter = Waiter { user_id, data: FutureConnectionData::new() };
        let ticket = first_free_ticket(&awaiting);
        if ticket < awaiting.len() {
            awaiting.set(ticket, Some(waiter));
        } else {
            awaiting.push(Some(waiter));
        }
        assert(waiters_view(awaiting@) =~= before.with_waiter(
            ticket as int,
            Some(WaiterView { user_id, resolved: None, waiting: false }),
        ).waiters);
        self.put_waiters(awaiting);
        Awaited::Waiting(ticket)
    }

    /// One poll of the wait under a ticket, with the callback that resumes
    /// the polling task. A wait that is resolved hands out a handle on the
    /// session it was resolved with. One that is not stores the callback, in
    /// place of an earlier one, and hands out nothing; so does a ticket
    /// that stands for no wait, without storing anything.
    pub fn poll_connection(&mut self, ticket: usize, waker: Waker) -> (ready: Option<
        PlayerConnection,
    >)
        ensures
            session_of(ready) == old(self)@.resolved(ticket as int),
            final(self)@ == old(self)@.polled(ticket as int),
    {
        if ticket >= self.awaiting.len() {
            return None;
        }
        let ghost before = self@;
        let mut awaiting = self.take_waiters();
        assert(awaiting@.len() == before.waiters.len());
        let ready = match &mut awaiting[ticket] {
            Some(waiter) => waiter.data.poll(waker),
            None => None,
        };
        assert(waiters_view(awaiting@) =~= before.polled(ticket as int).waiters);
        self.put_waiters(awaiting);
        ready
    }

    /// Gives up the wait under a ticket, resolved or not: the ticket is
    /// free again. A ticket that stands for no wait changes nothing.
    pub fn cancel(&mut self, ticket: usize)
        ensures
            final(self)@ == if ticket < old(self)@.waiters.len() {
                old(self)@.with_waiter(ticket as int, None)
            } else {
                old(self)@
            },
    {
        if ticket >= self.awaiting.len() {
            return ;
        }
        let ghost before = self@;
        let mut awaiting = self.take_waiters();
        assert(awaiting@.len() == before.waiters.len());
        awaiting.set(ticket, None);
        assert(waiters_view(awaiting@) =~= before.with_waiter(ticket as int, None).waiters);
        self.put_waiters(awaiting);
    }

    /// Passes a command of a user on. Where the user has a live session,
    /// the command goes to it. Where they have none, a command that begins
    /// playback is handed back together with the user's credentials, for a
    /// session to be started with; without credentials it fails with
    /// `NoToken`, and every other command fails with `NoPlayer`. The
    /// registry itself does not change.
    pub fn send_command(&self, user: User, command: Command) -> (dispatched: Result<
        Dispatch,
        ManagerError,
    >)
        ensures
            !self@.players.contains_key(user.id) ==> dispatched == unrouted(user, command),
            self@.players.contains_key(user.id) ==> {
                ||| dispatched == Ok::<Dispatch, ManagerError>(Dispatch::Sent)
                ||| dispatched == Err::<Dispatch, ManagerError>(ManagerError::ChannelClosed)
                ||| dispatched == unrouted(user, command)
            },
    {
        let connection = self.get_player_connection(user.id);
        let starts_playback = command.starts_playback();
        match route(connection.is_some(), starts_playback, user.token.is_some()) {
            Route::Forward => {
                let sent = match connection {
                    Some(connection) => connection.send(command),
                    None => false,
                };
                forwarded(sent)
            },
            Route::Start => match user.token {
                Some(creds) => Ok(Dispatch::Start { creds, command }),
                None => Err(ManagerError::NoToken),
            },
            Route::MissingToken => Err(ManagerError::NoToken),
            Route::NoPlayer => Err(ManagerError::NoPlayer),
        }
    }
}

} // verus!
