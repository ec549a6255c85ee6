//! The decisions of a session actor. The actor owns the playback cursor,
//! takes commands, and holds the cursor against the provider's reports.
//!
//! The actor neither waits nor calls the provider. Whoever runs it hands
//! it one event at a time and does what it answers: make provider calls,
//! fetch the provider's report, sleep, or stop. One round of its loop
//! takes a command if one waits, then reconciles with the provider if the
//! session has playback, then sleeps.

use crate::channel::{publish, try_receive};
use crate::commands::{Command, CommandView};
use crate::error::{PlayerError, TickError};
use crate::provider::{
    calls_view, play_calls, play_element, ProviderCall, ProviderCallView, RemotePlayback,
    RemotePlaybackView,
};
use crate::state::{
    can_start, playback_view, starts, PlaybackInfo, PlaybackState, PlaybackStateView, TickResult,
};
use tokio::sync::mpsc::UnboundedReceiver;
use tokio::sync::watch;
use vstd::prelude::*;

verus! {

/// The number of reconciliation ticks that may fail in a row before the
/// session gives up.
pub const MAX_FAILURES: u8 = 5;

/// The seconds that the actor sleeps between two rounds.
pub const ROUND_INTERVAL_SECS: u64 = 2;

/// What the actor is to do after it has taken a command.
#[derive(Debug, PartialEq, Eq)]
pub enum Directive {
    /// End the session.
    Exit,
    /// Nothing: the command is known, and this session does not carry it
    /// out.
    Unsupported,
    /// Make these provider calls, in this order, up to the first that
    /// fails, and report with [`Player::command_done`] whether all went
    /// through.
    Perform(Vec<ProviderCall>),
}

/// What the actor waits for.
#[derive(Debug, PartialEq, Eq, Clone, Copy)]
pub enum Phase {
    /// The next round.
    Idle,
    /// The provider calls of a command.
    Command,
    /// The provider's report of its playback.
    Fetch,
    /// The provider calls of a reconciliation tick with this result.
    Tick(TickResult),
}

/// What happened while the actor waited.
#[derive(Debug, PartialEq, Eq)]
pub enum Event {
    /// A round begins, with the command that was waiting, if one was.
    Round(Option<Command>),
    /// The provider calls that the actor asked for were made, up to the
    /// first that failed; `true` if all went through.
    Performed(bool),
    /// The provider answered the question for its playback, with a report
    /// or with none.
    Playback(Option<RemotePlayback>),
    /// The provider could not be asked for its playback.
    PlaybackFailed,
}

/// What the actor asks for next.
#[derive(Debug, PartialEq, Eq)]
pub enum Action {
    /// Make these provider calls, in this order, up to the first that
    /// fails, and come back with [`Event::Performed`].
    Perform(Vec<ProviderCall>),
    /// Ask the provider for its playback, and come back with
    /// [`Event::Playback`] or [`Event::PlaybackFailed`].
    FetchPlayback,
    /// Sleep for [`ROUND_INTERVAL_SECS`], and come back with
    /// [`Event::Round`].
    Sleep,
    /// Stop: the session is over, with this result.
    Stop(Result<(), PlayerError>),
}

/// The mathematical value of an [`Event`].
pub ghost enum EventView {
    Round(Option<CommandView>),
    Performed(bool),
    Playback(Option<RemotePlaybackView>),
    PlaybackFailed,
}

impl View for Event {
    type V = EventView;

    open spec fn view(&self) -> EventView {
        match *self {
            Event::Round(Some(command)) => EventView::Round(Some(command@)),
            Event::Round(None) => EventView::Round(None),
            Event::Performed(went_through) => EventView::Performed(went_through),
            Event::Playback(playback) => EventView::Playback(playback_view(playback)),
            Event::PlaybackFailed => EventView::PlaybackFailed,
        }
    }
}

/// The mathematical value of an [`Action`].
pub ghost enum ActionView {
    Perform(Seq<ProviderCallView>),
    FetchPlayback,
    Sleep,
    Stop(Result<(), PlayerError>),
}

impl View for Action {
    type V = ActionView;

    open spec fn view(&self) -> ActionView {
        match *self {
            Action::Perform(calls) => ActionView::Perform(calls_view(calls@)),
            Action::FetchPlayback => ActionView::FetchPlayback,
            Action::Sleep => ActionView::Sleep,
            Action::Stop(result) => ActionView::Stop(result),
        }
    }
}

/// The mathematical value of a cursor that may be missing.
pub open spec fn state_option_view(state: Option<PlaybackState>) -> Option<PlaybackStateView> {
    match state {
        Some(state) => Some(state@),
        None => None,
    }
}

/// The kinds of answer that a command can get.
pub ghost enum DirectiveKind {
    Exit,
    Unsupported,
    /// The command is refused with this error.
    Refused(PlayerError),
    /// Provider calls are due.
    Perform,
}

/// The kind of answer that a command gets from a session with this
/// playback. `Play` is taken in every state, and refused where the
/// playlist cannot be started as asked. `Exit` and the queue commands are
/// answered in every state. Every other command needs playback.
pub open spec fn directive_kind(
    playback: Option<PlaybackStateView>,
    command: CommandView,
) -> DirectiveKind {
    match command {
        CommandView::Play { playlist, element_index, .. } => if can_start(playlist, element_index) {
            DirectiveKind::Perform
        } else {
            DirectiveKind::Refused(PlayerError::CommandError)
        },
        CommandView::Exit => DirectiveKind::Exit,
        CommandView::AddToQueue | CommandView::RemoveFromQueue => DirectiveKind::Unsupported,
        _ => if playback is Some {
            DirectiveKind::Perform
        } else {
            DirectiveKind::Refused(PlayerError::NoPlayback)
        },
    }
}

/// The provider call that a command stands for, for the commands that are
/// one call.
pub open spec fn single_call(command: CommandView) -> ProviderCallView {
    match command {
        CommandView::Pause => ProviderCallView::Pause,
        CommandView::Resume => ProviderCallView::Resume,
        CommandView::NextSong => ProviderCallView::NextTrack,
        _ => ProviderCallView::PreviousTrack,
    }
}

/// The cursor that a move to the next or to the previous element leaves.
pub open spec fn moved(state: PlaybackStateView, command: CommandView) -> PlaybackStateView {
    match command {
        CommandView::NextElement => state.incremented(),
        _ => state.decremented(),
    }
}

/// Whether `calls` and `pending` are what a command makes ready that
/// provider calls are due for. `Play` makes ready a cursor that starts the
/// playlist, on some order, and asks for the calls that start its first
/// element. A move to another element makes the moved cursor ready and
/// asks for the calls that start the element it points at. The other
/// commands make no cursor ready and ask for their one call.
pub open spec fn prepared(
    playback: Option<PlaybackStateView>,
    command: CommandView,
    calls: Seq<ProviderCallView>,
    pending: Option<PlaybackStateView>,
) -> bool {
    match command {
        CommandView::Play { playlist, element_index, .. } => {
            &&& pending matches Some(next)
            &&& starts(next, playlist, element_index)
            &&& calls == play_calls(next.element(), next.device_id)
        },
        CommandView::NextElement | CommandView::PrevElement => {
            &&& playback matches Some(state)
            &&& pending == Some(moved(state, command))
            &&& calls == play_calls(moved(state, command).element(), state.device_id)
        },
        _ => {
            &&& pending is None
            &&& calls == seq![single_call(command)]
        },
    }
}

/// Whatever cursor a command makes ready, it stands at the first song of
/// its element, and it is in order if the session's own cursor is.
pub proof fn lemma_prepared_cursor_starts_its_element(
    playback: Option<PlaybackStateView>,
    command: CommandView,
    calls: Seq<ProviderCallView>,
    pending: Option<PlaybackStateView>,
)
    requires
        prepared(playback, command, calls, pending),
        pending is Some,
        playback matches Some(state) ==> state.valid(),
    ensures
        pending->0.current_song == 0,
        pending->0.valid(),
{
    if let Some(state) = playback {
        crate::state::lemma_moves_keep_valid(state, None);
    }
}

/// [`MAX_FAILURES`] failed ticks in a row bring the failure count to
/// [`MAX_FAILURES`], whatever it was before; fewer do not, counted from
/// nought.
pub proof fn lemma_failures_in_a_row(failures: nat)
    ensures
        one_more_failure(
            one_more_failure(one_more_failure(one_more_failure(one_more_failure(failures)))),
        ) == MAX_FAILURES,
        one_more_failure(one_more_failure(one_more_failure(one_more_failure(0)))) < MAX_FAILURES,
{
}

/// The failure count after one more failed tick.
pub open spec fn one_more_failure(failures: nat) -> nat {
    if failures >= MAX_FAILURES {
        MAX_FAILURES as nat
    } else {
        failures + 1
    }
}

/// The mathematical value of a [`Player`].
pub ghost struct PlayerView {
    /// The cursor, while the session has playback.
    pub playback: Option<PlaybackStateView>,
    /// The cursor that the command in progress will leave, if the
    /// provider calls it asked for go through.
    pub pending: Option<PlaybackStateView>,
    /// How many reconciliation ticks have failed in a row.
    pub failures: nat,
    /// What the actor waits for.
    pub phase: Phase,
}

impl PlayerView {
    /// The session once the command in progress has ended: where its
    /// calls went through and it had made a cursor ready, that cursor is
    /// the session's; nothing is ready any more.
    pub open spec fn command_done(self, went_through: bool) -> PlayerView {
        PlayerView {
            playback: if went_through && self.pending is Some {
                self.pending
            } else {
                self.playback
            },
            pending: None,
            ..self
        }
    }

    /// Whether the round goes on from here with `action`, leaving `after`:
    /// with playback the provider is asked for its report, without it the
    /// round is over and the actor sleeps.
    pub open spec fn begins_tick(self, action: ActionView, after: PlayerView) -> bool {
        if self.playback is Some {
            &&& action == ActionView::FetchPlayback
            &&& after == PlayerView { phase: Phase::Fetch, ..self }
        } else {
            &&& action == ActionView::Sleep
            &&& after == PlayerView { phase: Phase::Idle, ..self }
        }
    }

    /// Whether a tick with this outcome ends with `action`, leaving
    /// `after`. A failed tick is counted, and stops the session with
    /// `TooManyErrors` once [`MAX_FAILURES`] have failed in a row. A tick
    /// that went through sets the count back to nought; where it changed
    /// the cursor a snapshot is published, and the session stops with
    /// `ChannelError` if nobody was there to take it. Otherwise the actor
    /// sleeps.
    pub open spec fn ends_tick(
        self,
        outcome: Result<TickResult, TickError>,
        action: ActionView,
        after: PlayerView,
    ) -> bool {
        match outcome {
            Err(_) => {
                &&& after == PlayerView {
                    failures: one_more_failure(self.failures),
                    phase: Phase::Idle,
                    ..self
                }
                &&& action == if after.failures >= MAX_FAILURES {
                    ActionView::Stop(Err(PlayerError::TooManyErrors))
                } else {
                    ActionView::Sleep
                }
            },
            Ok(result) => {
                &&& after == PlayerView { failures: 0, phase: Phase::Idle, ..self }
                &&& match result {
                    TickResult::Unchanged => action == ActionView::Sleep,
                    TickResult::Changed => if self.playback is Some {
                        ||| action == ActionView::Sleep
                        ||| action == ActionView::Stop(Err(PlayerError::ChannelError))
                    } else {
                        action == ActionView::Stop(Err(PlayerError::NoPlayback))
                    },
                }
            },
        }
    }

    /// Whether an event that the actor did not wait for is answered with
    /// `action`, leaving `after`: the actor drops what was in progress and
    /// sleeps until the next round.
    pub open spec fn out_of_turn(self, action: ActionView, after: PlayerView) -> bool {
        &&& action == ActionView::Sleep
        &&& after == PlayerView { pending: None, phase: Phase::Idle, ..self }
    }

    /// Whether the actor answers `event` with `action`, leaving `after`.
    pub open spec fn steps(self, event: EventView, action: ActionView, after: PlayerView) -> bool {
        match event {
            EventView::Round(None) => (PlayerView { pending: None, ..self }).begins_tick(
                action,
                after,
            ),
            EventView::Round(Some(command)) => match directive_kind(self.playback, command) {
                DirectiveKind::Exit => {
                    &&& action == ActionView::Stop(Ok(()))
                    &&& after == PlayerView { pending: None, phase: Phase::Idle, ..self }
                },
                DirectiveKind::Perform => {
                    &&& action matches ActionView::Perform(calls)
                    &&& prepared(self.playback, command, calls, after.pending)
                    &&& after == PlayerView { pending: after.pending, phase: Phase::Command, ..self }
                },
                _ => (PlayerView { pending: None, ..self }).begins_tick(action, after),
            },
            EventView::Performed(went_through) => match self.phase {
                Phase::Command => {
                    ||| self.command_done(went_through).begins_tick(action, after)
                    ||| {
                        &&& went_through
                        &&& self.pending is Some
                        &&& action == ActionView::Stop(Err(PlayerError::ChannelError))
                        &&& after == PlayerView {
                            phase: Phase::Idle,
                            ..self.command_done(went_through)
                        }
                    }
                },
                Phase::Tick(result) => self.ends_tick(
                    if went_through {
                        Ok(result)
                    } else {
                        Err(TickError::Provider)
                    },
                    action,
                    after,
                ),
                _ => self.out_of_turn(action, after),
            },
            EventView::Playback(playback) => match self.phase {
                Phase::Fetch => match self.playback {
                    None => self.ends_tick(Err(TickError::NoPlayback), action, after),
                    Some(state) => {
                        let ticked = state.tick(playback);
                        let reconciled = PlayerView { playback: Some(ticked.state), ..self };
                        match ticked.result {
                            Err(error) => reconciled.ends_tick(Err(error), action, after),
                            Ok(result) => if ticked.calls.len() > 0 {
                                &&& action == ActionView::Perform(ticked.calls)
                                &&& after == PlayerView { phase: Phase::Tick(result), ..reconciled }
                            } else {
                                reconciled.ends_tick(Ok(result), action, after)
                            },
                        }
                    },
                },
                _ => self.out_of_turn(action, after),
            },
            EventView::PlaybackFailed => match self.phase {
                Phase::Fetch => self.ends_tick(Err(TickError::Provider), action, after),
                _ => self.out_of_turn(action, after),
            },
        }
    }
}

/// The actor of one session.
pub struct Player {
    sender: watch::Sender<Option<PlaybackInfo>>,
    receiver: UnboundedReceiver<Command>,
    playback_state: Option<PlaybackState>,
    pending: Option<PlaybackState>,
    failures: u8,
    phase: Phase,
}

impl View for Player {
    type V = PlayerView;

    closed spec fn view(&self) -> PlayerView {
        PlayerView {
            playback: state_option_view(self.playback_state),
            pending: state_option_view(self.pending),
            failures: self.failures as nat,
            phase: self.phase,
        }
    }
}

impl Player {
    /// An actor without playback, on the given channel ends: the one its
    /// snapshots go into, and the one its commands come out of.
    pub fn new(
        sender: watch::Sender<Option<PlaybackInfo>>,
        receiver: UnboundedReceiver<Command>,
    ) -> (player: Self)
        ensures
            player@.playback is None,
            player@.pending is None,
            player@.failures == 0,
            player@.phase == Phase::Idle,
            player.sender_end() == sender,
            player.receiver_end() == receiver,
    {
        Player {
            sender,
            receiver,
            playback_state: None,
            pending: None,
            failures: 0,
            phase: Phase::Idle,
        }
    }

    /// Tells whether the session has playback.
    pub fn is_active(&self) -> (active: bool)
        ensures
            active == (self@.playback is Some),
    {
        self.playback_state.is_some()
    }

    /// The cursor, while the session has playback.
    pub fn playback_state(&self) -> (state: Option<&PlaybackState>)
        ensures
            match state {
                Some(state) => self@.playback == Some(state@),
                None => self@.playback is None,
            },
    {
        self.playback_state.as_ref()
    }

    /// How many reconciliation ticks have failed in a row.
    pub fn failures(&self) -> (failures: u8)
        ensures
            failures == self@.failures,
    {
        self.failures
    }

    /// What the actor waits for.
    pub fn phase(&self) -> (phase: Phase)
        ensures
            phase == self@.phase,
    {
        self.phase
    }

    /// Takes the next command out of the command channel, if one waits
    /// there. The session itself is left as it is.
    pub fn next_command(&mut self) -> (command: Option<Command>)
        ensures
            final(self)@ == old(self)@,
    {
        try_receive(&mut self.receiver)
    }

    /// The channel end that the actor's snapshots go into.
    pub closed spec fn sender_end(&self) -> watch::Sender<Option<PlaybackInfo>> {
        self.sender
    }

    /// The channel end that the actor's commands come out of.
    pub closed spec fn receiver_end(&self) -> UnboundedReceiver<Command> {
        self.receiver
    }

    /// One step of the actor: takes what happened while it waited, and
    /// says what it asks for next.
    ///
    /// A round takes the command, if there is one. `Exit` stops the
    /// session. A command that provider calls are due for asks for them,
    /// and goes on once they are made; every other command, and none, goes
    /// on at once. The round goes on with the reconciliation tick, if the
    /// session has playback: the provider is asked for its report, the
    /// cursor is held against it, and the calls that this asks for are
    /// made. Then the actor sleeps, or stops where the tick was one
    /// failure too many or a snapshot found no taker.
    pub fn step(&mut self, event: Event) -> (action: Action)
        ensures
            old(self)@.steps(event@, action@, final(self)@),
    {
        match event {
            Event::Round(None) => {
                self.pending = None;
                self.begin_tick()
            },
            Event::Round(Some(command)) => {
                match self.handle_command(command) {
                    Ok(Directive::Exit) => {
                        self.phase = Phase::Idle;
                        Action::Stop(Ok(()))
                    },
                    Ok(Directive::Perform(calls)) => {
                        self.phase = Phase::Command;
                        Action::Perform(calls)
                    },
                    Ok(Directive::Unsupported) => self.begin_tick(),
                    Err(_) => self.begin_tick(),
                }
            },
            Event::Performed(went_through) => {
                match self.phase {
                    Phase::Command => {
                        match self.command_done(went_through) {
                            Ok(()) => self.begin_tick(),
                            Err(error) => {
                                self.phase = Phase::Idle;
                                Action::Stop(Err(error))
                            },
                        }
                    },
                    Phase::Tick(result) => {
                        if went_through {
                            self.end_tick(Ok(result))
                        } else {
                            self.end_tick(Err(TickError::Provider))
                        }
                    },
                    _ => self.skip(),
                }
            },
            Event::Playback(playback) => {
                match self.phase {
                    Phase::Fetch => {
                        match self.tick(&playback) {
                            Ok((result, calls)) => {
                                if calls.len() > 0 {
                                    self.phase = Phase::Tick(result);
                                    Action::Perform(calls)
                                } else {
                                    self.end_tick(Ok(result))
                                }
                            },
                            Err(error) => self.end_tick(Err(error)),
                        }
                    },
                    _ => self.skip(),
                }
            },
            Event::PlaybackFailed => {
                match self.phase {
                    Phase::Fetch => self.end_tick(Err(TickError::Provider)),
                    _ => self.skip(),
                }
            },
        }
    }

    /// Goes on with the round after the command: to the reconciliation
    /// tick, if the session has playback.
    fn begin_tick(&mut self) -> (action: Action)
        ensures
            old(self)@.begins_tick(action@, final(self)@),
    {
        if self.playback_state.is_some() {
            self.phase = Phase::Fetch;
            Action::FetchPlayback
        } else {
            self.phase = Phase::Idle;
            Action::Sleep
        }
    }

    /// Ends the reconciliation tick, and with it the round.
    fn end_tick(&mut self, outcome: Result<TickResult, TickError>) -> (action: Action)
        ensures
            old(self)@.ends_tick(outcome, action@, final(self)@),
    {
        self.phase = Phase::Idle;
        match self.tick_done(outcome) {
            Ok(()) => Action::Sleep,
            Err(error) => Action::Stop(Err(error)),
        }
    }

    /// Answers an event that the actor did not wait for.
    fn skip(&mut self) -> (action: Action)
        ensures
            old(self)@.out_of_turn(action@, final(self)@),
    {
        self.pending = None;
        self.phase = Phase::Idle;
        Action::Sleep
    }

    /// Takes a command, and says what the actor is to do for it.
    ///
    /// `Play` is taken in every state. It is refused where the playlist
    /// has no element, or an element without songs, or not the element
    /// that is asked for; otherwise a cursor on a fresh order is made ready
    /// and the calls that start its first element are due. `Pause`,
    /// `Resume`, `NextSong` and `PrevSong` need playback and ask for one
    /// provider call each. `NextElement` and `PrevElement` need playback,
    /// make the moved cursor ready, and ask for the calls that start the
    /// element it points at. The queue commands are answered as
    /// unsupported, and `Exit` ends the session, in every state.
    ///
    /// The cursor itself does not change here: what was made ready takes
    /// its place in [`Player::command_done`], if the calls went through.
    pub fn handle_command(&mut self, command: Command) -> (handled: Result<Directive, PlayerError>)
        ensures
            final(self)@.playback == old(self)@.playback,
            final(self)@.failures == old(self)@.failures,
            final(self)@.phase == old(self)@.phase,
            match directive_kind(old(self)@.playback, command@) {
                DirectiveKind::Exit => {
                    &&& handled == Ok::<Directive, PlayerError>(Directive::Exit)
                    &&& final(self)@.pending is None
                },
                DirectiveKind::Unsupported => {
                    &&& handled == Ok::<Directive, PlayerError>(Directive::Unsupported)
                    &&& final(self)@.pending is None
                },
                DirectiveKind::Refused(error) => {
                    &&& handled == Err::<Directive, PlayerError>(error)
                    &&& final(self)@.pending is None
                },
                DirectiveKind::Perform => {
                    &&& handled matches Ok(Directive::Perform(calls))
                    &&& prepared(
                        old(self)@.playback,
                        command@,
                        calls_view(calls@),
                        final(self)@.pending,
                    )
                },
            },
    {
        self.pending = None;
        match command {
            Command::Play { playlist, element_index, .. } => {
                let next = PlaybackState::begin(playlist, element_index)?;
                let calls = play_element(next.get_current_element(), next.device_id());
                self.pending = Some(next);
                Ok(Directive::Perform(calls))
            },
            Command::Exit => Ok(Directive::Exit),
            Command::AddToQueue | Command::RemoveFromQueue => Ok(Directive::Unsupported),
            Command::Pause => self.single(ProviderCall::Pause),
            Command::Resume => self.single(ProviderCall::Resume),
            Command::NextSong => self.single(ProviderCall::NextTrack),
            Command::PrevSong => self.single(ProviderCall::PreviousTrack),
            Command::NextElement => {
                let mut next = match &self.playback_state {
                    Some(state) => state.clone_state(),
                    None => {
                        return Err(PlayerError::NoPlayback);
                    },
                };
                next.increment_current();
                let calls = play_element(next.get_current_element(), next.device_id());
                self.pending = Some(next);
                Ok(Directive::Perform(calls))
            },
            Command::PrevElement => {
                let mut next = match &self.playback_state {
                    Some(state) => state.clone_state(),
                    None => {
                        return Err(PlayerError::NoPlayback);
                    },
                };
                next.decrement_current();
                let calls = play_element(next.get_current_element(), next.device_id());
                self.pending = Some(next);
                Ok(Directive::Perform(calls))
            },
        }
    }

    /// The directive for a command that is one provider call, where the
    /// session has playback.
    fn single(&self, call: ProviderCall) -> (handled: Result<Directive, PlayerError>)
        ensures
            match self@.playback {
                None => handled == Err::<Directive, PlayerError>(PlayerError::NoPlayback),
                Some(_) => {
                    &&& handled matches Ok(Directive::Perform(calls))
                    &&& calls_view(calls@) == seq![call@]
                },
            },
    {
        if self.playback_state.is_none() {
            return Err(PlayerError::NoPlayback);
        }
        let mut calls: Vec<ProviderCall> = Vec::new();
        calls.push(call);
        assert(calls_view(calls@) =~= seq![call@]);
        Ok(Directive::Perform(calls))
    }

    /// Ends the command in progress. Where its provider calls went through
    /// and it had made a cursor ready, that cursor takes the place of the
    /// session's own, and a snapshot of it is published; the result is
    /// `ChannelError` where nobody was there to take the snapshot. Where
    /// the calls failed, the session is as it was before the command.
    pub fn command_done(&mut self, succeeded: bool) -> (done: Result<(), PlayerError>)
        ensures
            final(self)@ == old(self)@.command_done(succeeded),
            !(succeeded && old(self)@.pending is Some) ==> done is Ok,
            done matches Err(error) ==> error == PlayerError::ChannelError,
    {
        let pending = self.pending.take();
        if !succeeded {
            return Ok(());
        }
        match pending {
            Some(next) => {
                self.playback_state = Some(next);
                self.send_state()
            },
            None => Ok(()),
        }
    }

    /// Publishes a snapshot of the cursor. Without playback there is
    /// nothing to publish, and the result is `NoPlayback`; `ChannelError`
    /// where nobody was there to take the snapshot.
    pub fn send_state(&self) -> (sent: Result<(), PlayerError>)
        ensures
            self@.playback is None ==> sent == Err::<(), PlayerError>(PlayerError::NoPlayback),
            self@.playback is Some ==> sent is Ok || sent == Err::<(), PlayerError>(
                PlayerError::ChannelError,
            ),
    {
        match &self.playback_state {
            Some(state) => {
                let info = state.get_playback_info();
                published(publish(&self.sender, info))
            },
            None => Err(PlayerError::NoPlayback),
        }
    }

    /// One reconciliation tick: holds the cursor against the provider's
    /// report, as [`PlaybackState::tick`] says. Without playback the tick
    /// fails and nothing changes.
    pub fn tick(&mut self, playback: &Option<RemotePlayback>) -> (ticked: Result<
        (TickResult, Vec<ProviderCall>),
        TickError,
    >)
        ensures
            final(self)@.pending == old(self)@.pending,
            final(self)@.failures == old(self)@.failures,
            final(self)@.phase == old(self)@.phase,
            match old(self)@.playback {
                None => {
                    &&& final(self)@.playback is None
                    &&& ticked == Err::<(TickResult, Vec<ProviderCall>), TickError>(
                        TickError::NoPlayback,
                    )
                },
                Some(state) => {
                    &&& final(self)@.playback == Some(state.tick(playback_view(*playback)).state)
                    &&& match ticked {
                        Ok((result, calls)) => {
                            &&& state.tick(playback_view(*playback)).result == Ok::<
                                TickResult,
                                TickError,
                            >(result)
                            &&& calls_view(calls@) == state.tick(playback_view(*playback)).calls
                        },
                        Err(error) => {
                            &&& state.tick(playback_view(*playback)).result == Err::<
                                TickResult,
                                TickError,
                            >(error)
                            &&& state.tick(playback_view(*playback)).calls.len() == 0
                        },
                    }
                },
            },
    {
        let state = self.playback_state.take();
        match state {
            Some(mut state) => {
                let ticked = state.tick(playback);
                self.playback_state = Some(state);
                ticked
            },
            None => Err(TickError::NoPlayback),
        }
    }

    /// Ends a reconciliation tick, once the calls it asked for have been
    /// made: `outcome` is the tick's own result, or `TickError::Provider`
    /// where the provider could not be asked or refused a call.
    ///
    /// A tick that went through sets the failure count back to nought, and
    /// one that changed the cursor has a snapshot published. A tick that
    /// failed is counted, and with the fifth failure in a row the session
    /// is over: the result is `TooManyErrors`. Any `Err` ends the session.
    pub fn tick_done(&mut self, outcome: Result<TickResult, TickError>) -> (done: Result<
        (),
        PlayerError,
    >)
        ensures
            final(self)@.playback == old(self)@.playback,
            final(self)@.pending == old(self)@.pending,
            final(self)@.phase == old(self)@.phase,
            match outcome {
                Err(_) => {
                    &&& final(self)@.failures == one_more_failure(old(self)@.failures)
                    &&& done == if final(self)@.failures >= MAX_FAILURES {
                        Err::<(), PlayerError>(PlayerError::TooManyErrors)
                    } else {
                        Ok::<(), PlayerError>(())
                    }
                },
                Ok(TickResult::Unchanged) => {
                    &&& final(self)@.failures == 0
                    &&& done is Ok
                },
                Ok(TickResult::Changed) => {
                    &&& final(self)@.failures == 0
                    &&& old(self)@.playback is None ==> done == Err::<(), PlayerError>(
                        PlayerError::NoPlayback,
                    )
                    &&& old(self)@.playback is Some ==> done is Ok || done == Err::<
                        (),
                        PlayerError,
                    >(PlayerError::ChannelError)
                },
            },
    {
        match outcome {
            Ok(result) => {
                self.failures = 0;
                match result {
                    TickResult::Changed => self.send_state(),
                    TickResult::Unchanged => Ok(()),
                }
            },
            Err(_) => {
                if self.failures < MAX_FAILURES {
                    self.failures = self.failures + 1;
                } else {
                    self.failures = MAX_FAILURES;
                }
                if self.failures >= MAX_FAILURES {
                    Err(PlayerError::TooManyErrors)
                } else {
                    Ok(())
                }
            },
        }
    }
}

/// What publishing a snapshot comes to, by whether an observer took it.
pub fn published(sent: bool) -> (done: Result<(), PlayerError>)
    ensures
        done == if sent {
            Ok::<(), PlayerError>(())
        } else {
            Err::<(), PlayerError>(PlayerError::ChannelError)
        },
{
    if sent {
        Ok(())
    } else {
        Err(PlayerError::ChannelError)
    }
}

} // verus!
