//! The ways in which the bridge fails.

use vstd::prelude::*;
use vstd::string::StringExecFns;

verus! {

/// A failure of the engine or of a dispatch call.
#[derive(Debug)]
pub enum Error {
    /// The interpreter's runtime could not be created.
    RuntimeCreation,
    /// The interpreter's execution context could not be created.
    ContextCreation,
    /// The script did not compile.
    CompileError { msg: String },
    /// The script raised an exception or rejected its promise.
    ExecutionError { msg: String },
    /// The script went past its stack or heap budget.
    ResourceLimitExceeded,
    /// The request queue stayed full for the whole enqueue wait.
    EnqueueTimeout,
    /// No reply arrived within the reply wait.
    ReplyTimeout,
    /// The handler, or the router in its place, reported a failure.
    HandlerError { msg: String },
    /// A native string held data that is no valid text.
    EncodingError,
    /// The other end of a channel is gone: the router no longer takes
    /// requests, or the request was dropped without a reply.
    Disconnected,
    /// Two handlers were registered under one namespace and name.
    DuplicateRoute { route: String },
    /// A fetch call could not be carried out.
    FetchFailed { msg: String },
}

/// How a failed dispatch call appears to the script that made it.
#[derive(Clone, Copy, Debug, PartialEq, Eq, Structural)]
pub enum ScriptErrorClass {
    /// The host side could not be reached in time. Scripts do not tell a
    /// congested queue from a late reply: they retry or give up either way.
    UnreachableRuntime,
    /// The call was carried out and failed.
    Execution,
}

impl Error {
    /// The class under which a failed dispatch call reaches the script, and
    /// none for a failure that is no failure of a dispatch call. Both
    /// timeouts and a vanished router fall into one class.
    pub open spec fn script_class_spec(self) -> Option<ScriptErrorClass> {
        match self {
            Error::EnqueueTimeout => Some(ScriptErrorClass::UnreachableRuntime),
            Error::ReplyTimeout => Some(ScriptErrorClass::UnreachableRuntime),
            Error::Disconnected => Some(ScriptErrorClass::UnreachableRuntime),
            Error::HandlerError { .. } => Some(ScriptErrorClass::Execution),
            _ => None,
        }
    }

    /// Says under which class a failed dispatch call reaches the script.
    pub fn script_class(&self) -> (r: Option<ScriptErrorClass>)
        ensures
            r == self.script_class_spec(),
    {
        match self {
            Error::EnqueueTimeout => Some(ScriptErrorClass::UnreachableRuntime),
            Error::ReplyTimeout => Some(ScriptErrorClass::UnreachableRuntime),
            Error::Disconnected => Some(ScriptErrorClass::UnreachableRuntime),
            Error::HandlerError { .. } => Some(ScriptErrorClass::Execution),
            _ => None,
        }
    }

    /// The text that describes the failure.
    pub open spec fn message_spec(self) -> Seq<char> {
        match self {
            Error::RuntimeCreation => "Failed to create javascript runtime"@,
            Error::ContextCreation => "Failed to create javascript context"@,
            Error::CompileError { msg } => "Failed to compile javascript code: "@ + msg@,
            Error::ExecutionError { msg } => "Failed to execute javascript code: "@ + msg@,
            Error::ResourceLimitExceeded => "Javascript code exceeded its resource limits"@,
            Error::EnqueueTimeout => "Timed out while enqueueing the request"@,
            Error::ReplyTimeout => "Timed out while waiting for the reply"@,
            Error::HandlerError { msg } => "Javascript code returned an error: "@ + msg@,
            Error::EncodingError => "Malformed string data"@,
            Error::Disconnected => "The other side of the channel is gone"@,
            Error::DuplicateRoute { route } => "Duplicate handler for "@ + route@,
            Error::FetchFailed { msg } => "Failed to fetch: "@ + msg@,
        }
    }

    /// Describes the failure in words.
    pub fn message(&self) -> (r: String)
        ensures
            r@ == self.message_spec(),
    {
        match self {
            Error::RuntimeCreation => String::from_str("Failed to create javascript runtime"),
            Error::ContextCreation => String::from_str("Failed to create javascript context"),
            Error::CompileError { msg } => String::from_str(
                "Failed to compile javascript code: ",
            ).concat(msg.as_str()),
            Error::ExecutionError { msg } => String::from_str(
                "Failed to execute javascript code: ",
            ).concat(msg.as_str()),
            Error::ResourceLimitExceeded => String::from_str(
                "Javascript code exceeded its resource limits",
            ),
            Error::EnqueueTimeout => String::from_str("Timed out while enqueueing the request"),
            Error::ReplyTimeout => String::from_str("Timed out while waiting for the reply"),
            Error::HandlerError { msg } => String::from_str(
                "Javascript code returned an error: ",
            ).concat(msg.as_str()),
            Error::EncodingError => String::from_str("Malformed string data"),
            Error::Disconnected => String::from_str("The other side of the channel is gone"),
            Error::DuplicateRoute { route } => String::from_str("Duplicate handler for ").concat(
                route.as_str(),
            ),
            Error::FetchFailed { msg } => String::from_str("Failed to fetch: ").concat(
                msg.as_str(),
            ),
        }
    }
}

} // verus!
