//! The hand-off channel between callers and the worker.

use crate::record::Record;
use crossbeam_channel::{Receiver, Sender, TryRecvError, TrySendError};
use vstd::prelude::*;

verus! {

/// The sending half of a crossbeam channel. Nothing is known of what the
/// channel holds: other threads fill and empty it at any time.
#[verifier::external_type_specification]
#[verifier::external_body]
#[verifier::reject_recursive_types(T)]
pub struct ExSender<T>(Sender<T>);

/// The receiving half of a crossbeam channel, of which as little is known.
#[verifier::external_type_specification]
#[verifier::external_body]
#[verifier::reject_recursive_types(T)]
pub struct ExReceiver<T>(Receiver<T>);

/// How an attempt to enqueue a record ended.
#[derive(Debug)]
pub enum SendOutcome {
    /// The record is in the channel.
    Queued,
    /// The channel was full; the record comes back.
    Full(Record),
    /// The receiving half is gone; the record comes back.
    Disconnected(Record),
}

/// Calls `Sender::try_send` of crossbeam-channel, which never blocks.
/// Trusted: where the record was not taken, the error hands back the very
/// record that was offered. Which of the three outcomes occurs depends on
/// the other threads.
#[verifier::external_body]
pub(crate) fn try_send(sender: &Sender<Record>, record: Record) -> (outcome: SendOutcome)
    ensures
        outcome matches SendOutcome::Full(back) ==> back == record,
        outcome matches SendOutcome::Disconnected(back) ==> back == record,
{
    match sender.try_send(record) {
        Ok(()) => SendOutcome::Queued,
        Err(TrySendError::Full(back)) => SendOutcome::Full(back),
        Err(TrySendError::Disconnected(back)) => SendOutcome::Disconnected(back),
    }
}

/// What a poll of the channel found.
#[derive(Debug)]
pub enum RecvOutcome {
    /// A record was waiting.
    Received(Record),
    /// Nothing was waiting.
    Empty,
    /// Nothing was waiting and every sender is gone.
    Disconnected,
}

/// Calls `Receiver::try_recv` of crossbeam-channel, which never blocks.
/// Nothing is claimed of the outcome: it depends on the other threads.
#[verifier::external_body]
pub(crate) fn try_recv(receiver: &Receiver<Record>) -> (outcome: RecvOutcome) {
    match receiver.try_recv() {
        Ok(record) => RecvOutcome::Received(record),
        Err(TryRecvError::Empty) => RecvOutcome::Empty,
        Err(TryRecvError::Disconnected) => RecvOutcome::Disconnected,
    }
}

} // verus!
