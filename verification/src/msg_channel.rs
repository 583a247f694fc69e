//! The request that a dispatch call sends to the router, and the one-shot
//! mailbox through which its reply comes back.

use vstd::prelude::*;
use crate::value::JsonValue;

verus! {

/// `flume::Sender`: the sending half of a channel. Nothing of it is visible.
#[verifier::external_type_specification]
#[verifier::external_body]
#[verifier::reject_recursive_types(T)]
pub struct ExSender<T>(flume::Sender<T>);

/// `flume::Receiver`: the receiving half of a channel. Nothing of it is visible.
#[verifier::external_type_specification]
#[verifier::external_body]
#[verifier::reject_recursive_types(T)]
pub struct ExReceiver<T>(flume::Receiver<T>);

/// Longest wait, in milliseconds, that a channel operation may be given: one
/// day. It keeps the deadline, which is the current instant plus the wait,
/// within what an instant can hold.
pub const MAX_WAIT_MS: u64 = 86_400_000;

/// The sending half of a reply mailbox. It is made together with its
/// request, cannot be copied, and is used up by its one `send`.
#[derive(Debug)]
pub struct ReplySender {
    tx: flume::Sender<Result<JsonValue, String>>,
}

/// The receiving half of a reply mailbox.
#[derive(Debug)]
pub struct ReplyReceiver {
    rx: flume::Receiver<Result<JsonValue, String>>,
}

/// What waiting on a channel ended with.
#[derive(Debug)]
pub enum Received<T> {
    /// A message arrived.
    Message(T),
    /// The wait ran out before a message arrived.
    TimedOut,
    /// Every sending half is gone and the channel is empty.
    Closed,
}

/// What waiting for a reply ended with: the reply, a timeout, or the news
/// that the request was dropped without a reply.
pub type Awaited = Received<Result<JsonValue, String>>;

/// What putting a message on a channel ended with.
#[derive(Clone, Copy, Debug, PartialEq, Eq, Structural)]
pub enum Enqueued {
    /// The message is on the channel.
    Sent,
    /// The channel stayed full for the whole wait.
    TimedOut,
    /// Every receiving half is gone.
    Closed,
}

/// `flume::bounded`: makes a channel that holds up to `cap` messages.
/// Nothing is claimed of the two halves.
pub assume_specification<T>[ flume::bounded::<T> ](cap: usize) -> (r: (
    flume::Sender<T>,
    flume::Receiver<T>,
));

/// The number of requests that a router's queue holds at most: the
/// capacity that the channel was made with, which it keeps for its lifetime.
pub uninterp spec fn queue_limit(queue: flume::Sender<MsgChannel>) -> nat;

/// `flume::bounded` for a router's queue: makes a channel of requests that
/// holds up to `cap` of them. The channel stores the capacity when it is
/// made and never changes it, so the sending half has `cap` as its limit.
#[verifier::external_body]
pub(crate) fn bounded_queue(cap: usize) -> (r: (
    flume::Sender<MsgChannel>,
    flume::Receiver<MsgChannel>,
))
    ensures
        queue_limit(r.0) == cap,
{
    flume::bounded(cap)
}

/// `flume::Sender::send` on a reply mailbox. Claims nothing of the outcome,
/// which depends on whether the receiving half still exists: it is `true`
/// when the reply was put into the mailbox. The call does not wait, since
/// the mailbox has room for one reply and no other is ever sent into it.
#[verifier::external_body]
fn send_into_mailbox(
    tx: flume::Sender<Result<JsonValue, String>>,
    reply: Result<JsonValue, String>,
) -> (delivered: bool) {
    tx.send(reply).is_ok()
}

/// `flume::Receiver::recv_timeout`, with the wait given in milliseconds.
/// Claims nothing of the outcome, which depends on time and on the sending
/// side.
#[verifier::external_body]
pub(crate) fn recv_within<T>(rx: &flume::Receiver<T>, millis: u64) -> (r: Received<T>)
    requires
        millis <= MAX_WAIT_MS,
{
    match rx.recv_timeout(std::time::Duration::from_millis(millis)) {
        Ok(message) => Received::Message(message),
        Err(flume::RecvTimeoutError::Timeout) => Received::TimedOut,
        Err(flume::RecvTimeoutError::Disconnected) => Received::Closed,
    }
}

/// `flume::Sender::send_timeout`, with the wait given in milliseconds.
/// Claims nothing of the outcome, which depends on time and on the
/// receiving side.
#[verifier::external_body]
pub(crate) fn send_within<T>(tx: &flume::Sender<T>, message: T, millis: u64) -> (r: Enqueued)
    requires
        millis <= MAX_WAIT_MS,
{
    match tx.send_timeout(message, std::time::Duration::from_millis(millis)) {
        Ok(()) => Enqueued::Sent,
        Err(flume::SendTimeoutError::Timeout(_)) => Enqueued::TimedOut,
        Err(flume::SendTimeoutError::Disconnected(_)) => Enqueued::Closed,
    }
}

/// `Clone` of `flume::Sender`: another handle to the same queue. The clone
/// is made of a clone of the pointer to the channel that the given handle
/// holds and of nothing else, so the two are equal as values.
#[verifier::external_body]
pub(crate) fn clone_queue(queue: &flume::Sender<MsgChannel>) -> (r: flume::Sender<MsgChannel>)
    ensures
        r == *queue,
{
    queue.clone()
}

impl ReplySender {
    /// Sends the reply and gives up the mailbox. Returns whether the reply
    /// was put into the mailbox; it was not if the caller has stopped
    /// waiting, which is no failure of the sender.
    pub fn send(self, reply: Result<JsonValue, String>) -> (delivered: bool) {
        send_into_mailbox(self.tx, reply)
    }
}

impl ReplyReceiver {
    /// Waits up to `millis` milliseconds for the reply.
    pub fn recv_timeout(&self, millis: u64) -> (r: Awaited)
        requires
            millis <= MAX_WAIT_MS,
    {
        recv_within(&self.rx, millis)
    }
}

/// A request to the router: which handler is called, with what, and where
/// the reply goes.
#[derive(Debug)]
pub struct MsgChannel {
    /// The namespace of the called function.
    pub namespace: String,
    /// The name of the called function.
    pub name: String,
    /// The arguments of the call.
    pub args: JsonValue,
    /// Where the reply is sent.
    pub res: ReplySender,
}

impl MsgChannel {
    /// Makes a request together with a fresh mailbox for its reply, and
    /// returns the request and the mailbox's receiving half.
    pub fn new(namespace: String, name: String, args: JsonValue) -> (r: (Self, ReplyReceiver))
        ensures
            r.0.namespace == namespace,
            r.0.name == name,
            r.0.args == args,
    {
        let (tx, rx) = flume::bounded(1);
        (MsgChannel { namespace, name, args, res: ReplySender { tx } }, ReplyReceiver { rx })
    }
}

} // verus!
