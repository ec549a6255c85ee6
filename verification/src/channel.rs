//! The channels between a session and the rest of the service, and the
//! callbacks that wake a waiting task. Nothing in this file is proved: it
//! says what the library takes on trust from tokio and std.
//!
//! A channel is shared with other tasks, so what a call on it returns
//! depends on what those tasks have done. No contract here promises
//! anything of a result.

use crate::commands::Command;
use crate::state::PlaybackInfo;
use std::task::Waker;
use tokio::sync::mpsc::{UnboundedReceiver, UnboundedSender};
use tokio::sync::watch;
use vstd::prelude::*;

verus! {

/// `tokio::sync::mpsc::UnboundedSender`, the sending half of a command
/// channel, as an opaque value.
#[verifier::external_type_specification]
#[verifier::external_body]
#[verifier::reject_recursive_types(T)]
pub struct ExUnboundedSender<T>(UnboundedSender<T>);

/// `tokio::sync::mpsc::UnboundedReceiver`, the receiving half of a command
/// channel, as an opaque value.
#[verifier::external_type_specification]
#[verifier::external_body]
#[verifier::reject_recursive_types(T)]
pub struct ExUnboundedReceiver<T>(UnboundedReceiver<T>);

/// `tokio::sync::watch::Sender`, the publishing half of a state channel, as
/// an opaque value.
#[verifier::external_type_specification]
#[verifier::external_body]
#[verifier::reject_recursive_types(T)]
pub struct ExWatchSender<T>(watch::Sender<T>);

/// `tokio::sync::watch::Receiver`, the observing half of a state channel,
/// as an opaque value.
#[verifier::external_type_specification]
#[verifier::external_body]
#[verifier::reject_recursive_types(T)]
pub struct ExWatchReceiver<T>(watch::Receiver<T>);

/// `std::task::Waker`, the callback that resumes a waiting task, as an
/// opaque value.
#[verifier::external_type_specification]
#[verifier::external_body]
pub struct ExWaker(Waker);

/// Calls `UnboundedSender::is_closed`: whether the receiving half of the
/// command channel is gone. Nothing is claimed of the answer.
#[verifier::external_body]
pub(crate) fn sender_closed(sender: &UnboundedSender<Command>) -> (closed: bool) {
    sender.is_closed()
}

/// Calls `watch::Receiver::has_changed` and tells whether it failed, which
/// it does once the publishing half is gone. Nothing is claimed of the
/// answer.
#[verifier::external_body]
pub(crate) fn receiver_failed(receiver: &watch::Receiver<Option<PlaybackInfo>>) -> (failed: bool) {
    receiver.has_changed().is_err()
}

/// Calls `UnboundedSender::send` and tells whether the command was taken.
/// Nothing is claimed of the answer.
#[verifier::external_body]
pub(crate) fn send_command(sender: &UnboundedSender<Command>, command: Command) -> (sent: bool) {
    sender.send(command).is_ok()
}

/// Calls `UnboundedReceiver::try_recv`: the next command that waits in the
/// channel, without waiting for one. Nothing is claimed of the answer.
#[verifier::external_body]
pub(crate) fn try_receive(receiver: &mut UnboundedReceiver<Command>) -> (command: Option<Command>) {
    receiver.try_recv().ok()
}

/// Calls `watch::Sender::send` with the snapshot and tells whether an
/// observer was there to take it. Nothing is claimed of the answer.
#[verifier::external_body]
pub(crate) fn publish(sender: &watch::Sender<Option<PlaybackInfo>>, info: PlaybackInfo) -> (sent:
    bool) {
    sender.send(Some(info)).is_ok()
}

/// Calls `Clone::clone` of `UnboundedSender`: another handle on the
/// sending half. Nothing is claimed of it.
#[verifier::external_body]
pub(crate) fn clone_sender(sender: &UnboundedSender<Command>) -> (copy: UnboundedSender<Command>) {
    sender.clone()
}

/// Calls `Clone::clone` of `watch::Receiver`: another handle on the
/// observing half. Nothing is claimed of it.
#[verifier::external_body]
pub(crate) fn clone_receiver(receiver: &watch::Receiver<Option<PlaybackInfo>>) -> (copy:
    watch::Receiver<Option<PlaybackInfo>>) {
    receiver.clone()
}

/// Calls `Waker::wake`, which resumes the task that left the callback.
#[verifier::external_body]
pub(crate) fn wake(waker: Waker) {
    waker.wake()
}

} // verus!
