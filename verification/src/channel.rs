//! The bounded queue that carries messages from background tasks to the
//! node that started them. Both ends are tokio's; this module is the
//! library's whole contact with them.

use crate::model::Message;
use tokio::sync::mpsc::{Receiver, Sender};
use vstd::prelude::*;

verus! {

/// The number of messages that a node's channel holds before a sender has
/// to wait.
pub const CHANNEL_CAPACITY: usize = 32;

#[verifier::external_type_specification]
#[verifier::external_body]
#[verifier::reject_recursive_types(T)]
pub struct ExSender<T>(Sender<T>);

#[verifier::external_type_specification]
#[verifier::external_body]
#[verifier::reject_recursive_types(T)]
pub struct ExReceiver<T>(Receiver<T>);

/// The number of messages that the channel behind a receiver was made to
/// hold: what tokio calls its maximum capacity, which stays as it was
/// given when the channel was made.
pub uninterp spec fn channel_limit(rx: Receiver<Message>) -> usize;

/// Whether `tx` and `rx` are ends of one channel: what is sent on `tx` is
/// what `rx` receives. The ends of a channel are fixed when it is made; a
/// copy of a sender is an end of the same channel, and nothing moves an
/// end to another channel.
pub uninterp spec fn feeds(tx: Sender<Message>, rx: Receiver<Message>) -> bool;

/// `tokio::sync::mpsc::channel`: makes the two ends of one bounded channel
/// that holds `capacity` messages. tokio panics on a capacity of zero or
/// above its semaphore's limit of `usize::MAX >> 3` permits, which the
/// precondition leaves out.
#[verifier::external_body]
pub(crate) fn open_channel(capacity: usize) -> (ends: (Sender<Message>, Receiver<Message>))
    requires
        0 < capacity <= usize::MAX / 8,
    ensures
        channel_limit(ends.1) == capacity,
        feeds(ends.0, ends.1),
{
    tokio::sync::mpsc::channel(capacity)
}

/// `tokio::sync::mpsc::Receiver::try_recv`: takes the oldest pending
/// message without waiting, or reports that none is pending. What is
/// pending depends on what the senders have done by now, so nothing is
/// claimed of the result. The receiver stays the end of the channel that
/// it was, which holds as many messages as before.
#[verifier::external_body]
pub(crate) fn try_receive(rx: &mut Receiver<Message>) -> (next: Option<Message>)
    ensures
        channel_limit(*final(rx)) == channel_limit(*old(rx)),
        forall|tx: Sender<Message>| feeds(tx, *final(rx)) == feeds(tx, *old(rx)),
{
    match rx.try_recv() {
        Ok(message) => Some(message),
        Err(_) => None,
    }
}

/// `tokio::sync::mpsc::Receiver::max_capacity`: the number of messages
/// that the channel was made to hold.
#[verifier::external_body]
pub(crate) fn max_capacity(rx: &Receiver<Message>) -> (limit: usize)
    ensures
        limit == channel_limit(*rx),
{
    rx.max_capacity()
}

/// `Clone` for `tokio::sync::mpsc::Sender`: another handle to the sending
/// side of the same channel, so the copy feeds every receiver that the
/// sender feeds.
#[verifier::external_body]
pub(crate) fn another_sender(tx: &Sender<Message>) -> (copy: Sender<Message>)
    ensures
        forall|rx: Receiver<Message>| feeds(*tx, rx) ==> feeds(copy, rx),
{
    tx.clone()
}

} // verus!
