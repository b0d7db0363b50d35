//! Non-blocking reads of the `crossbeam_channel` channels that connect the
//! engine's threads.
//!
//! What waits in a channel is up to the threads that send. So a reading end is
//! described by what it alone determines: the messages that were taken out
//! through it, in the order they came.

use crate::command::VoxCommand;
use crate::event::VoxEvent;
use crate::output::{AudioBinding, OutputControl};
use crate::tap::TapReader;
use crossbeam_channel::{Receiver, TryRecvError};
use vstd::prelude::*;

verus! {

/// `crossbeam_channel::Receiver`: the reading end of a channel.
#[verifier::external_type_specification]
#[verifier::external_body]
#[verifier::reject_recursive_types(T)]
pub struct ExReceiver<T>(Receiver<T>);

/// What a look at a channel shows.
#[derive(Debug, PartialEq)]
pub enum Received<T> {
    Message(T),
    Empty,
    /// Nothing is left and nobody can send any more.
    Disconnected,
}

impl<T> Received<T> {
    /// The message, if there is one.
    pub open spec fn message(self) -> Option<T> {
        match self {
            Received::Message(message) => Some(message),
            Received::Empty => None,
            Received::Disconnected => None,
        }
    }

    /// See [`Received::message`].
    pub fn ok(self) -> (message: Option<T>)
        ensures
            message == self.message(),
    {
        match self {
            Received::Message(message) => Some(message),
            Received::Empty => None,
            Received::Disconnected => None,
        }
    }
}

/// Every event the library has taken out through this end so far, in the order
/// they came.
pub uninterp spec fn heard(rx: Receiver<VoxEvent>) -> Seq<VoxEvent>;

/// Every command the library has taken out through this end so far, in the order
/// they came.
pub uninterp spec fn heard_commands(rx: Receiver<VoxCommand>) -> Seq<VoxCommand>;

/// Every output binding the library has taken out through this end so far, in the order
/// they came.
pub uninterp spec fn heard_bindings(rx: Receiver<AudioBinding>) -> Seq<AudioBinding>;

/// Every tap the library has taken out through this end so far, in the order
/// they came.
pub uninterp spec fn heard_taps(rx: Receiver<TapReader>) -> Seq<TapReader>;

/// Every request the library has taken out through this end so far, in the order
/// they came.
pub uninterp spec fn heard_requests(rx: Receiver<OutputControl>) -> Seq<OutputControl>;

/// `crossbeam_channel::Receiver::try_recv` on the channel of events: the next
/// event, if one waits, which leaves the channel and is the newest this end has
/// heard. Nothing else is heard. Whether one waits is up to the threads that send.
#[verifier::external_body]
pub(crate) fn next_event(rx: &mut Receiver<VoxEvent>) -> (received: Received<VoxEvent>)
    ensures
        heard(*final(rx)) == match received {
            Received::Message(event) => heard(*old(rx)).push(event),
            Received::Empty => heard(*old(rx)),
            Received::Disconnected => heard(*old(rx)),
        },
{
    match rx.try_recv() {
        Ok(event) => Received::Message(event),
        Err(TryRecvError::Empty) => Received::Empty,
        Err(TryRecvError::Disconnected) => Received::Disconnected,
    }
}

/// `crossbeam_channel::Receiver::try_recv` on the channel of commands: the next
/// command, if one waits, which leaves the channel and is the newest this end has
/// heard. Nothing else is heard. Whether one waits is up to the threads that send.
#[verifier::external_body]
pub(crate) fn next_command(rx: &mut Receiver<VoxCommand>) -> (received: Received<VoxCommand>)
    ensures
        heard_commands(*final(rx)) == match received {
            Received::Message(command) => heard_commands(*old(rx)).push(command),
            Received::Empty => heard_commands(*old(rx)),
            Received::Disconnected => heard_commands(*old(rx)),
        },
{
    match rx.try_recv() {
        Ok(command) => Received::Message(command),
        Err(TryRecvError::Empty) => Received::Empty,
        Err(TryRecvError::Disconnected) => Received::Disconnected,
    }
}

/// `crossbeam_channel::Receiver::try_iter` on the channel of output bindings,
/// collected: those that wait, oldest first. All of them leave the channel and are
/// heard. Which of them wait is up to the thread that sends.
#[verifier::external_body]
pub(crate) fn arrived_bindings(rx: &mut Receiver<AudioBinding>) -> (arrived: Vec<AudioBinding>)
    ensures
        heard_bindings(*final(rx)) == heard_bindings(*old(rx)) + arrived@,
{
    rx.try_iter().collect()
}

/// `crossbeam_channel::Receiver::try_iter` on the channel of taps,
/// collected: those that wait, oldest first. All of them leave the channel and are
/// heard. Which of them wait is up to the thread that sends.
#[verifier::external_body]
pub(crate) fn arrived_taps(rx: &mut Receiver<TapReader>) -> (arrived: Vec<TapReader>)
    ensures
        heard_taps(*final(rx)) == heard_taps(*old(rx)) + arrived@,
{
    rx.try_iter().collect()
}

/// `crossbeam_channel::Receiver::try_iter` on the channel of requests to the supervisor,
/// collected: those that wait, oldest first. All of them leave the channel and are
/// heard. Which of them wait is up to the threads that send.
#[verifier::external_body]
pub(crate) fn arrived_requests(rx: &mut Receiver<OutputControl>) -> (arrived: Vec<OutputControl>)
    ensures
        heard_requests(*final(rx)) == heard_requests(*old(rx)) + arrived@,
{
    rx.try_iter().collect()
}

} // verus!
