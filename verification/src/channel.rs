//! The parameter channel: handles of `crossbeam_channel` queues that carry
//! whole messages from the controller to the render path.

use crossbeam_channel::{Receiver, SendError, Sender, TrySendError};
use vstd::prelude::*;

verus! {

/// `crossbeam_channel::Receiver`: the receiving end of a queue. Nothing is
/// known of what it holds.
#[verifier::external_type_specification]
#[verifier::external_body]
#[verifier::reject_recursive_types(T)]
pub struct ExReceiver<T>(Receiver<T>);

/// `crossbeam_channel::Sender`: a sending end of a queue. Nothing is known of
/// the queue behind it.
#[verifier::external_type_specification]
#[verifier::external_body]
#[verifier::reject_recursive_types(T)]
pub struct ExSender<T>(Sender<T>);

/// `crossbeam_channel::SendError`: a tuple struct whose one public field is
/// the message that was not sent.
#[verifier::external_type_specification]
pub struct ExSendError<T>(SendError<T>);

/// `crossbeam_channel::TrySendError`: an enum of two variants, `Full` and
/// `Disconnected`, each holding the message that was not sent.
#[verifier::external_type_specification]
pub struct ExTrySendError<T>(TrySendError<T>);

/// One non-blocking poll of the queue, by `Receiver::try_recv`: the oldest
/// message that waits there, or `None` where none waits, whether or not a
/// sender is left. What waits there is up to the sending threads, so nothing
/// is claimed of the result.
#[verifier::external_body]
pub(crate) fn poll<T>(rx: &Receiver<T>) -> (polled: Option<T>) {
    rx.try_recv().ok()
}

/// `Sender::send`: hands `msg` to the queue, and fails where every receiver
/// of the queue is gone. On an unbounded queue the call returns at once; on a
/// bounded one it waits for room. Whether it fails is up to the receiving
/// side; the one claim is that a failure hands `msg` back in the error.
#[verifier::external_body]
fn send_to<T>(sender: &Sender<T>, msg: T) -> (sent: Result<(), SendError<T>>)
    ensures
        sent matches Err(error) ==> error.0 == msg,
{
    sender.send(msg)
}

/// `Sender::try_send`: hands `msg` to the queue without waiting, and fails
/// where the queue is full or every receiver is gone. Whether it fails is up
/// to the receiving side; the one claim is that a failure hands `msg` back in
/// the error.
#[verifier::external_body]
fn try_send_to<T>(sender: &Sender<T>, msg: T) -> (sent: Result<(), TrySendError<T>>)
    ensures
        sent matches Err(TrySendError::Full(back)) ==> back == msg,
        sent matches Err(TrySendError::Disconnected(back)) ==> back == msg,
{
    sender.try_send(msg)
}

/// `Sender::clone`: one more handle of the same queue. Nothing is claimed of
/// the result.
#[verifier::external_body]
fn another<T>(sender: &Sender<T>) -> (handle: Sender<T>) {
    sender.clone()
}

/// Senders of several queues that are served together: each message goes to
/// every one of them, in the order in which they were added.
#[derive(Debug)]
#[verifier::reject_recursive_types(T)]
pub struct MultiSender<T>(Vec<Sender<T>>);

impl<T: Copy> MultiSender<T> {
    /// The senders, in the order in which they are served.
    pub closed spec fn senders(&self) -> Seq<Sender<T>> {
        self.0@
    }

    /// The number of queues that a message goes to.
    pub open spec fn count(&self) -> nat {
        self.senders().len()
    }

    pub fn new() -> (senders: MultiSender<T>)
        ensures
            senders.senders() == Seq::<Sender<T>>::empty(),
    {
        MultiSender(Vec::new())
    }

    /// One more handle of each of the given senders, in their order.
    pub fn from(senders: &[Sender<T>]) -> (all: MultiSender<T>)
        ensures
            all.count() == senders@.len(),
    {
        let mut handles: Vec<Sender<T>> = Vec::new();
        let mut i: usize = 0;
        while i < senders.len()
            invariant
                i <= senders@.len(),
                handles@.len() == i,
            decreases senders@.len() - i,
        {
            handles.push(another(&senders[i]));
            i += 1;
        }
        MultiSender(handles)
    }

    /// Adds a sender behind those that are there.
    pub fn push(&mut self, sender: Sender<T>)
        ensures
            final(self).senders() == old(self).senders().push(sender),
    {
        self.0.push(sender)
    }

    /// Offers `msg` to every queue without waiting. The outcomes stand in the
    /// order of the senders; which of them fail is up to the queues, and each
    /// failure hands `msg` back.
    pub fn try_send(&self, msg: T) -> (outcomes: Vec<Result<(), TrySendError<T>>>)
        ensures
            outcomes@.len() == self.count(),
            forall|i: int|
                0 <= i < outcomes@.len() ==> match #[trigger] outcomes@[i] {
                    Ok(()) => true,
                    Err(TrySendError::Full(back)) => back == msg,
                    Err(TrySendError::Disconnected(back)) => back == msg,
                },
    {
        let mut outcomes: Vec<Result<(), TrySendError<T>>> = Vec::new();
        let mut i: usize = 0;
        while i < self.0.len()
            invariant
                i <= self.0@.len(),
                outcomes@.len() == i,
                forall|k: int|
                    0 <= k < i ==> match #[trigger] outcomes@[k] {
                        Ok(()) => true,
                        Err(TrySendError::Full(back)) => back == msg,
                        Err(TrySendError::Disconnected(back)) => back == msg,
                    },
            decreases self.0@.len() - i,
        {
            outcomes.push(try_send_to(&self.0[i], msg));
            i += 1;
        }
        outcomes
    }

    /// Sends `msg` to every queue. The outcomes stand in the order of the
    /// senders; which of them fail is up to the receivers, and each failure
    /// hands `msg` back.
    pub fn send(&self, msg: T) -> (outcomes: Vec<Result<(), SendError<T>>>)
        ensures
            outcomes@.len() == self.count(),
            forall|i: int|
                0 <= i < outcomes@.len() ==> ((#[trigger] outcomes@[i]) matches Err(error)
                    ==> error.0 == msg),
    {
        let mut outcomes: Vec<Result<(), SendError<T>>> = Vec::new();
        let mut i: usize = 0;
        while i < self.0.len()
            invariant
                i <= self.0@.len(),
                outcomes@.len() == i,
                forall|k: int|
                    0 <= k < i ==> ((#[trigger] outcomes@[k]) matches Err(error) ==> error.0
                        == msg),
            decreases self.0@.len() - i,
        {
            outcomes.push(send_to(&self.0[i], msg));
            i += 1;
        }
        outcomes
    }
}

} // verus!
