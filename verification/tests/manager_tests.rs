use grooves_player::commands::Command;
use grooves_player::connection::{live, FutureConnectionData, PlayerConnection};
use grooves_player::manager::{
    forwarded, route, Awaited, Dispatch, ManagerError, PlayerManager, Route,
};
use grooves_player::player::Player;
use grooves_player::playlist::{Playlist, PlaylistElement, Song};
use grooves_player::state::PlaybackInfo;
use grooves_player::user::{SpotifyCreds, User};
use std::sync::atomic::{AtomicUsize, Ordering};
use std::sync::Arc;
use std::task::{Wake, Waker};
use tokio::sync::mpsc::{unbounded_channel, UnboundedReceiver, UnboundedSender};
use tokio::sync::watch;

struct Counter(AtomicUsize);

impl Wake for Counter {
    fn wake(self: Arc<Self>) {
        self.0.fetch_add(1, Ordering::SeqCst);
    }
}

fn counter() -> Arc<Counter> {
    Arc::new(Counter(AtomicUsize::new(0)))
}

fn woken(counter: &Arc<Counter>) -> usize {
    counter.0.load(Ordering::SeqCst)
}

struct Actor {
    commands: UnboundedReceiver<Command>,
    snapshots: watch::Sender<Option<PlaybackInfo>>,
}

fn channels() -> (
    UnboundedSender<Command>,
    watch::Receiver<Option<PlaybackInfo>>,
    Actor,
) {
    let (sender, commands) = unbounded_channel();
    let (snapshots, receiver) = watch::channel(None);
    (sender, receiver, Actor { commands, snapshots })
}

fn register(manager: &mut PlayerManager, user_id: i32) -> (PlayerConnection, Actor) {
    let (sender, receiver, actor) = channels();
    (manager.new_player(user_id, sender, receiver), actor)
}

fn playlist() -> Playlist {
    Playlist {
        id: 3,
        name: "mix".to_string(),
        owner_id: 1,
        elements: vec![PlaylistElement {
            name: "album".to_string(),
            image_url: "http://img".to_string(),
            artists: "artist".to_string(),
            songs: vec![Song {
                name: "song".to_string(),
                image_url: "http://img/0".to_string(),
                artists: "artist".to_string(),
                spotify_id: "track".to_string(),
            }],
        }],
    }
}

fn play() -> Command {
    Command::Play { playlist: playlist(), element_index: Some(0), song_index: None }
}

fn creds() -> SpotifyCreds {
    SpotifyCreds::new("access".to_string(), Some("refresh".to_string()))
}

fn user(id: i32, token: Option<SpotifyCreds>) -> User {
    User { id, spotify_id: format!("spotify{}", id), token }
}

fn ticket(awaited: Awaited) -> usize {
    match awaited {
        Awaited::Waiting(ticket) => ticket,
        Awaited::Ready(_) => panic!("a session was there"),
    }
}

#[test]
fn a_new_registry_knows_no_session() {
    let manager = PlayerManager::new();
    assert!(manager.get_player_connection(1).is_none());
    assert!(manager.get_player_connection(0).is_none());
    assert!(manager.get_player_connection(-5).is_none());
    assert!(manager.registered(1).is_none());
}

#[test]
fn a_registered_session_is_found() {
    let mut manager = PlayerManager::new();
    let (connection, _actor) = register(&mut manager, 1);
    let found = manager.get_player_connection(1).unwrap();
    assert!(found.sender.same_channel(&connection.sender));
    assert!(found.receiver.same_channel(&connection.receiver));
    assert!(manager.registered(1).unwrap().sender.same_channel(&connection.sender));
    assert!(manager.get_player_connection(2).is_none());
    assert!(manager.registered(2).is_none());
}

#[test]
fn a_session_whose_actor_is_gone_is_not_found() {
    let mut manager = PlayerManager::new();
    let (_connection, actor) = register(&mut manager, 1);
    assert!(manager.get_player_connection(1).is_some());
    drop(actor);
    assert!(manager.get_player_connection(1).is_none());
    assert!(manager.registered(1).is_some());
}

#[test]
fn a_session_that_stopped_listening_is_not_found() {
    let mut manager = PlayerManager::new();
    let (_connection, actor) = register(&mut manager, 1);
    let Actor { commands, snapshots } = actor;
    drop(commands);
    assert!(manager.get_player_connection(1).is_none());
    drop(snapshots);
    assert!(manager.get_player_connection(1).is_none());
}

#[test]
fn a_session_that_stopped_publishing_is_not_found() {
    let mut manager = PlayerManager::new();
    let (_connection, actor) = register(&mut manager, 1);
    let Actor { commands, snapshots } = actor;
    drop(snapshots);
    assert!(manager.get_player_connection(1).is_none());
    drop(commands);
}

#[test]
fn a_session_ended_by_failed_ticks_is_not_found() {
    let mut manager = PlayerManager::new();
    let (sender, commands) = unbounded_channel();
    let (snapshots, receiver) = watch::channel(None);
    let connection = manager.new_player(4, sender, receiver);
    let mut player = Player::new(snapshots, commands);
    assert!(connection.send(play()));
    let command = player.next_command().unwrap();
    player.handle_command(command).unwrap();
    player.command_done(true).unwrap();
    assert!(manager.get_player_connection(4).is_some());
    let mut ended = Ok(());
    for _ in 0..5 {
        assert!(ended.is_ok());
        ended = player.tick_done(Err(grooves_player::error::TickError::Provider));
    }
    assert_eq!(ended, Err(grooves_player::error::PlayerError::TooManyErrors));
    drop(player);
    assert!(manager.get_player_connection(4).is_none());
}

#[test]
fn a_later_session_takes_the_place_of_an_earlier_one() {
    let mut manager = PlayerManager::new();
    let (first, first_actor) = register(&mut manager, 1);
    let (second, _second_actor) = register(&mut manager, 1);
    let found = manager.get_player_connection(1).unwrap();
    assert!(found.sender.same_channel(&second.sender));
    assert!(!found.sender.same_channel(&first.sender));
    drop(first_actor);
    assert!(manager.get_player_connection(1).is_some());
}

#[test]
fn sessions_of_different_users_are_kept_apart() {
    let mut manager = PlayerManager::new();
    let (one, _a) = register(&mut manager, 1);
    let (two, _b) = register(&mut manager, 2);
    assert!(manager.get_player_connection(1).unwrap().sender.same_channel(&one.sender));
    assert!(manager.get_player_connection(2).unwrap().sender.same_channel(&two.sender));
    assert!(!one.sender.same_channel(&two.sender));
}

#[test]
fn awaiting_a_live_session_is_ready_at_once() {
    let mut manager = PlayerManager::new();
    let (connection, _actor) = register(&mut manager, 1);
    match manager.await_player_connection(1) {
        Awaited::Ready(found) => assert!(found.sender.same_channel(&connection.sender)),
        Awaited::Waiting(_) => panic!("the session was there"),
    }
}

#[test]
fn two_waiters_get_the_same_session() {
    let mut manager = PlayerManager::new();
    let first = ticket(manager.await_player_connection(9));
    let second = ticket(manager.await_player_connection(9));
    assert_ne!(first, second);
    let (first_counter, second_counter) = (counter(), counter());
    assert!(manager.poll_connection(first, Waker::from(first_counter.clone())).is_none());
    assert!(manager.poll_connection(second, Waker::from(second_counter.clone())).is_none());
    assert_eq!((woken(&first_counter), woken(&second_counter)), (0, 0));
    let (connection, _actor) = register(&mut manager, 9);
    assert_eq!((woken(&first_counter), woken(&second_counter)), (1, 1));
    let a = manager.poll_connection(first, Waker::from(first_counter.clone())).unwrap();
    let b = manager.poll_connection(second, Waker::from(second_counter.clone())).unwrap();
    assert!(a.sender.same_channel(&connection.sender));
    assert!(b.sender.same_channel(&connection.sender));
    assert!(a.receiver.same_channel(&b.receiver));
    assert_eq!((woken(&first_counter), woken(&second_counter)), (1, 1));
}

#[test]
fn a_waiter_is_woken_once() {
    let mut manager = PlayerManager::new();
    let waiting = ticket(manager.await_player_connection(9));
    let calls = counter();
    assert!(manager.poll_connection(waiting, Waker::from(calls.clone())).is_none());
    let (first, _first_actor) = register(&mut manager, 9);
    assert_eq!(woken(&calls), 1);
    let (_second, _second_actor) = register(&mut manager, 9);
    assert_eq!(woken(&calls), 1);
    let resolved = manager.poll_connection(waiting, Waker::from(calls.clone())).unwrap();
    assert!(resolved.sender.same_channel(&first.sender));
    assert_eq!(woken(&calls), 1);
}

#[test]
fn a_later_poll_replaces_the_callback() {
    let mut manager = PlayerManager::new();
    let waiting = ticket(manager.await_player_connection(9));
    let (early, late) = (counter(), counter());
    assert!(manager.poll_connection(waiting, Waker::from(early.clone())).is_none());
    assert!(manager.poll_connection(waiting, Waker::from(late.clone())).is_none());
    let (_connection, _actor) = register(&mut manager, 9);
    assert_eq!((woken(&early), woken(&late)), (0, 1));
}

#[test]
fn a_waiter_that_never_polled_is_resolved_all_the_same() {
    let mut manager = PlayerManager::new();
    let waiting = ticket(manager.await_player_connection(9));
    let (connection, _actor) = register(&mut manager, 9);
    let calls = counter();
    let resolved = manager.poll_connection(waiting, Waker::from(calls.clone())).unwrap();
    assert!(resolved.sender.same_channel(&connection.sender));
    assert_eq!(woken(&calls), 0);
}

#[test]
fn waiters_for_other_users_keep_waiting() {
    let mut manager = PlayerManager::new();
    let mine = ticket(manager.await_player_connection(1));
    let theirs = ticket(manager.await_player_connection(2));
    let (my_calls, their_calls) = (counter(), counter());
    manager.poll_connection(mine, Waker::from(my_calls.clone()));
    manager.poll_connection(theirs, Waker::from(their_calls.clone()));
    let (_connection, _actor) = register(&mut manager, 2);
    assert_eq!((woken(&my_calls), woken(&their_calls)), (0, 1));
    assert!(manager.poll_connection(mine, Waker::from(my_calls.clone())).is_none());
    assert!(manager.poll_connection(theirs, Waker::from(their_calls.clone())).is_some());
}

#[test]
fn awaiting_a_dead_session_waits_for_the_next() {
    let mut manager = PlayerManager::new();
    let (_old, actor) = register(&mut manager, 1);
    drop(actor);
    let waiting = ticket(manager.await_player_connection(1));
    let calls = counter();
    assert!(manager.poll_connection(waiting, Waker::from(calls.clone())).is_none());
    let (fresh, _actor) = register(&mut manager, 1);
    assert_eq!(woken(&calls), 1);
    let resolved = manager.poll_connection(waiting, Waker::from(calls.clone())).unwrap();
    assert!(resolved.sender.same_channel(&fresh.sender));
}

#[test]
fn tickets_are_reused_once_handed_back() {
    let mut manager = PlayerManager::new();
    assert_eq!(ticket(manager.await_player_connection(1)), 0);
    assert_eq!(ticket(manager.await_player_connection(1)), 1);
    assert_eq!(ticket(manager.await_player_connection(2)), 2);
    manager.cancel(1);
    assert_eq!(ticket(manager.await_player_connection(3)), 1);
    manager.cancel(0);
    manager.cancel(2);
    assert_eq!(ticket(manager.await_player_connection(4)), 0);
    assert_eq!(ticket(manager.await_player_connection(4)), 2);
    assert_eq!(ticket(manager.await_player_connection(4)), 3);
    manager.cancel(17);
    assert_eq!(ticket(manager.await_player_connection(4)), 4);
}

#[test]
fn a_cancelled_waiter_is_neither_woken_nor_resolved() {
    let mut manager = PlayerManager::new();
    let waiting = ticket(manager.await_player_connection(1));
    let calls = counter();
    manager.poll_connection(waiting, Waker::from(calls.clone()));
    manager.cancel(waiting);
    let (_connection, _actor) = register(&mut manager, 1);
    assert_eq!(woken(&calls), 0);
    assert!(manager.poll_connection(waiting, Waker::from(calls.clone())).is_none());
    assert!(manager.poll_connection(99, Waker::from(calls.clone())).is_none());
}

#[test]
fn a_command_goes_to_the_live_session() {
    let mut manager = PlayerManager::new();
    let (_connection, mut actor) = register(&mut manager, 1);
    assert_eq!(manager.send_command(user(1, None), Command::Pause), Ok(Dispatch::Sent));
    assert_eq!(manager.send_command(user(1, Some(creds())), play()), Ok(Dispatch::Sent));
    assert_eq!(actor.commands.try_recv().ok(), Some(Command::Pause));
    assert_eq!(actor.commands.try_recv().ok(), Some(play()));
    assert!(actor.commands.try_recv().is_err());
    actor.snapshots.send(None).unwrap();
}

#[test]
fn play_without_a_session_asks_for_one() {
    let manager = PlayerManager::new();
    assert_eq!(
        manager.send_command(user(1, Some(creds())), play()),
        Ok(Dispatch::Start { creds: creds(), command: play() })
    );
}

#[test]
fn play_without_credentials_fails() {
    let manager = PlayerManager::new();
    assert_eq!(manager.send_command(user(1, None), play()), Err(ManagerError::NoToken));
}

#[test]
fn other_commands_without_a_session_fail() {
    let mut manager = PlayerManager::new();
    let commands = || {
        vec![
            Command::Pause,
            Command::Resume,
            Command::NextSong,
            Command::PrevSong,
            Command::NextElement,
            Command::PrevElement,
            Command::AddToQueue,
            Command::RemoveFromQueue,
            Command::Exit,
        ]
    };
    for command in commands() {
        assert_eq!(
            manager.send_command(user(1, Some(creds())), command),
            Err(ManagerError::NoPlayer)
        );
    }
    let (_connection, actor) = register(&mut manager, 1);
    drop(actor);
    for command in commands() {
        assert_eq!(manager.send_command(user(1, None), command), Err(ManagerError::NoPlayer));
    }
    assert_eq!(
        manager.send_command(user(1, Some(creds())), play()),
        Ok(Dispatch::Start { creds: creds(), command: play() })
    );
}

#[test]
fn route_decides_by_session_command_and_credentials() {
    assert_eq!(route(true, true, true), Route::Forward);
    assert_eq!(route(true, true, false), Route::Forward);
    assert_eq!(route(true, false, true), Route::Forward);
    assert_eq!(route(true, false, false), Route::Forward);
    assert_eq!(route(false, true, true), Route::Start);
    assert_eq!(route(false, true, false), Route::MissingToken);
    assert_eq!(route(false, false, true), Route::NoPlayer);
    assert_eq!(route(false, false, false), Route::NoPlayer);
}

#[test]
fn forwarded_tells_a_closed_channel() {
    assert_eq!(forwarded(true), Ok(Dispatch::Sent));
    assert_eq!(forwarded(false), Err(ManagerError::ChannelClosed));
}

#[test]
fn live_needs_both_channel_ends() {
    assert!(live(false, false));
    assert!(!live(true, false));
    assert!(!live(false, true));
    assert!(!live(true, true));
}

#[test]
fn a_connection_tells_whether_it_is_live_and_sends() {
    let mut manager = PlayerManager::new();
    let (connection, mut actor) = register(&mut manager, 1);
    assert!(connection.is_live());
    assert!(connection.send(Command::Resume));
    assert_eq!(actor.commands.try_recv().ok(), Some(Command::Resume));
    let copy = connection.clone();
    assert!(copy.sender.same_channel(&connection.sender));
    assert!(copy.receiver.same_channel(&connection.receiver));
    drop(actor);
    assert!(!connection.is_live());
    assert!(!copy.is_live());
    assert!(!connection.send(Command::Resume));
}

#[test]
fn a_wait_cell_hands_out_what_it_was_fulfilled_with() {
    let mut manager = PlayerManager::new();
    let (connection, _actor) = register(&mut manager, 1);
    let mut cell = FutureConnectionData::new();
    assert!(cell.connection.is_none());
    assert!(cell.waker.is_none());
    let calls = counter();
    assert!(cell.poll(Waker::from(calls.clone())).is_none());
    assert!(cell.waker.is_some());
    cell.fulfill(connection.clone());
    assert_eq!(woken(&calls), 1);
    assert!(cell.waker.is_none());
    let ready = cell.poll(Waker::from(calls.clone())).unwrap();
    assert!(ready.sender.same_channel(&connection.sender));
    assert!(cell.waker.is_none());
    cell.fulfill(connection.clone());
    assert_eq!(woken(&calls), 1);
}

#[test]
fn a_wait_cell_without_a_callback_is_fulfilled_quietly() {
    let mut manager = PlayerManager::new();
    let (connection, _actor) = register(&mut manager, 1);
    let mut cell = FutureConnectionData::new();
    cell.fulfill(connection.clone());
    let calls = counter();
    let ready = cell.poll(Waker::from(calls.clone())).unwrap();
    assert!(ready.receiver.same_channel(&connection.receiver));
    assert_eq!(woken(&calls), 0);
}

#[test]
fn a_started_session_gets_its_command() {
    let mut manager = PlayerManager::new();
    let waiting = ticket(manager.await_player_connection(3));
    let calls = counter();
    manager.poll_connection(waiting, Waker::from(calls.clone()));
    let (sender, receiver, mut actor) = channels();
    let connection = manager.start_player(3, sender, receiver, play()).ok().unwrap();
    assert_eq!(actor.commands.try_recv().ok(), Some(play()));
    assert!(actor.commands.try_recv().is_err());
    assert!(manager.get_player_connection(3).unwrap().sender.same_channel(&connection.sender));
    assert_eq!(woken(&calls), 1);
    let resolved = manager.poll_connection(waiting, Waker::from(calls.clone())).unwrap();
    assert!(resolved.sender.same_channel(&connection.sender));
}

#[test]
fn a_started_session_that_is_gone_already_stays_registered() {
    let mut manager = PlayerManager::new();
    let (sender, receiver, actor) = channels();
    drop(actor);
    assert_eq!(
        manager.start_player(3, sender, receiver, play()).err(),
        Some(ManagerError::ChannelClosed)
    );
    assert!(manager.registered(3).is_some());
    assert!(manager.get_player_connection(3).is_none());
}

#[test]
fn users_and_credentials_are_copied() {
    let original = user(8, Some(creds()));
    let copy = original.clone();
    assert_eq!(copy, original);
    assert_eq!(copy.token.unwrap().access_token, "access");
}

#[test]
fn a_handle_is_handed_out_only_if_live() {
    let mut manager = PlayerManager::new();
    let (connection, _actor) = register(&mut manager, 1);
    assert!(connection.if_live(false).is_none());
    let copy = connection.if_live(true).unwrap();
    assert!(copy.sender.same_channel(&connection.sender));
    assert!(copy.receiver.same_channel(&connection.receiver));
}
