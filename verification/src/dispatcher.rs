//! The dispatch call: the script-visible way to reach a host handler.
//!
//! A call packs its arguments into a request with a fresh reply mailbox,
//! puts the request on the router's queue within a bounded wait, and waits,
//! again bounded, for the reply.

use vstd::prelude::*;
use crate::error::Error;
use crate::msg_channel::{send_within, Awaited, Enqueued, MsgChannel, Received};
use crate::value::JsonValue;

verus! {

/// How long a call waits for room on the router's queue, in milliseconds.
pub const ENQUEUE_WAIT_MS: u64 = 100;

/// How long a call waits for its reply, in milliseconds.
pub const REPLY_WAIT_MS: u64 = 500;

/// The failure, if any, that the outcome of enqueueing stands for.
pub open spec fn enqueue_failure_spec(enqueued: Enqueued) -> Option<Error> {
    match enqueued {
        Enqueued::Sent => None,
        Enqueued::TimedOut => Some(Error::EnqueueTimeout),
        Enqueued::Closed => Some(Error::Disconnected),
    }
}

/// Says how a call fails after an attempt to enqueue its request: not at
/// all if the request was sent, with `EnqueueTimeout` if the queue stayed
/// full, with `Disconnected` if the router is gone.
pub fn enqueue_failure(enqueued: Enqueued) -> (r: Option<Error>)
    ensures
        r == enqueue_failure_spec(enqueued),
{
    match enqueued {
        Enqueued::Sent => None,
        Enqueued::TimedOut => Some(Error::EnqueueTimeout),
        Enqueued::Closed => Some(Error::Disconnected),
    }
}

/// Whether `r` is the result of a call whose wait for the reply ended with `awaited`.
pub open spec fn is_reply_result(awaited: Awaited, r: Result<JsonValue, Error>) -> bool {
    match awaited {
        Received::Message(Ok(v)) => r == Ok::<JsonValue, Error>(v),
        Received::Message(Err(m)) => r == Err::<JsonValue, Error>(Error::HandlerError { msg: m }),
        Received::TimedOut => r == Err::<JsonValue, Error>(Error::ReplyTimeout),
        Received::Closed => r == Err::<JsonValue, Error>(Error::Disconnected),
    }
}

/// Turns the outcome of waiting for the reply into the result of the call:
/// the handler's value, the handler's message as a `HandlerError`,
/// `ReplyTimeout` if the wait ran out, `Disconnected` if the request was
/// dropped without a reply.
pub fn reply_result(awaited: Awaited) -> (r: Result<JsonValue, Error>)
    ensures
        is_reply_result(awaited, r),
{
    match awaited {
        Received::Message(Ok(v)) => Ok(v),
        Received::Message(Err(m)) => Err(Error::HandlerError { msg: m }),
        Received::TimedOut => Err(Error::ReplyTimeout),
        Received::Closed => Err(Error::Disconnected),
    }
}

/// The script's handle to the router's queue. Handles are copied freely; all
/// copies feed the same queue.
#[derive(Debug)]
pub struct Dispatcher {
    sender: flume::Sender<MsgChannel>,
}

impl Dispatcher {
    /// The sending half of the router's queue that the handle holds.
    pub closed spec fn queue(&self) -> flume::Sender<MsgChannel> {
        self.sender
    }

    /// Makes a handle from the sending half of the router's queue: the
    /// handle holds that sending half.
    pub fn new(sender: flume::Sender<MsgChannel>) -> (d: Self)
        ensures
            d.queue() == sender,
    {
        Dispatcher { sender }
    }

    /// Puts a request on the router's queue, waiting up to
    /// [`ENQUEUE_WAIT_MS`] for room. Whatever the queue does, a failure is
    /// `EnqueueTimeout` or `Disconnected`; [`enqueue_failure`] says which
    /// outcome gives which.
    pub fn submit(&self, msg: MsgChannel) -> (r: Result<(), Error>)
        ensures
            r matches Err(e) ==> (e is EnqueueTimeout || e is Disconnected),
    {
        match enqueue_failure(send_within(&self.sender, msg, ENQUEUE_WAIT_MS)) {
            Some(e) => Err(e),
            None => Ok(()),
        }
    }

    /// Calls the handler registered under `ns` and `name` with `args` and
    /// waits for its reply.
    ///
    /// Whatever the queue and the router do, a failure is one of four: the
    /// queue stayed full for [`ENQUEUE_WAIT_MS`], no reply came within
    /// [`REPLY_WAIT_MS`], the other side is gone, or the reply carried a
    /// failure message. [`enqueue_failure`] and [`reply_result`] say which
    /// outcome gives which result.
    pub fn dispatch(&self, ns: String, name: String, args: JsonValue) -> (r: Result<
        JsonValue,
        Error,
    >)
        ensures
            r matches Err(e) ==> (e is EnqueueTimeout || e is ReplyTimeout || e is Disconnected
                || e is HandlerError),
    {
        let (msg, res) = MsgChannel::new(ns, name, args);
        match self.submit(msg) {
            Err(e) => Err(e),
            Ok(()) => reply_result(res.recv_timeout(REPLY_WAIT_MS)),
        }
    }
}

impl Clone for Dispatcher {
    /// Another handle to the same queue.
    fn clone(&self) -> (r: Self)
        ensures
            r.queue() == self.queue(),
    {
        Dispatcher { sender: crate::msg_channel::clone_queue(&self.sender) }
    }
}

} // verus!
