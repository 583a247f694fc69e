//! The engine's life: the phases it goes through, and the source it runs.

use vstd::prelude::*;
use vstd::string::StringExecFns;
use crate::dispatcher::Dispatcher;
use crate::error::Error;
use crate::interpreter::{
    full_context, heap_budget, new_runtime, stack_budget, with_heap_budget, with_stack_budget,
};
use crate::limits::Limits;
use crate::msg_channel::{bounded_queue, queue_limit, MsgChannel};
use crate::text::{contains, occurs};

verus! {

/// The source as the interpreter compiles it: the given code as the body of
/// an asynchronous function that is the module's default export and takes
/// the initial value as `req`, so that a `return` in the code gives the
/// result of the run.
pub open spec fn wrapped_source(code: Seq<char>) -> Seq<char> {
    "export default async function(req) { "@ + code + " }"@
}

/// Wraps the given code as the body of the entry function.
pub fn wrap_source(code: &str) -> (r: String)
    ensures
        r@ == wrapped_source(code@),
{
    let mut out = String::from_str("export default async function(req) { ");
    out.append(code);
    out.append(" }");
    out
}

/// Why a sandbox faulted.
#[derive(Clone, Copy, Debug, PartialEq, Eq, Structural)]
pub enum Fault {
    RuntimeCreation,
    ContextCreation,
    /// The globals could not be bound.
    Binding,
    Compile,
    Execution,
    ResourceLimit,
}

/// Where an engine stands.
#[derive(Clone, Copy, Debug, PartialEq, Eq, Structural)]
pub enum Phase {
    /// Nothing is set up yet.
    Uninitialized,
    /// The limits are set and the globals are bound; no script runs.
    Initialized,
    /// A script runs.
    Running,
    /// The script produced its value.
    Completed,
    /// The set-up or the script failed.
    Faulted(Fault),
}

/// What happens to an engine.
#[derive(Clone, Copy, Debug, PartialEq, Eq, Structural)]
pub enum Event {
    /// The runtime could not be created.
    RuntimeFailed,
    /// The execution context could not be created.
    ContextFailed,
    /// The globals could not be bound.
    BindingFailed,
    /// The limits are set and the globals are bound.
    Ready,
    /// A run begins.
    Started,
    /// The script did not compile.
    CompileFailed,
    /// The script raised an exception or rejected its promise.
    ExecutionFailed,
    /// The script went past its stack or heap budget.
    LimitExceeded,
    /// The script produced its value.
    Finished,
}

impl Phase {
    /// Whether the phase is final: completed or faulted.
    pub open spec fn terminal(self) -> bool {
        self is Completed || self is Faulted
    }

    /// Whether the engine can take another run after this phase: it has
    /// finished a run, in whatever way, and was set up properly before.
    pub open spec fn reusable(self) -> bool {
        match self {
            Phase::Completed => true,
            Phase::Faulted(f) => f is Compile || f is Execution || f is ResourceLimit,
            _ => false,
        }
    }
}

/// The phase that follows when `event` happens in `phase`. An event that
/// has no place in a phase leaves the phase as it is.
pub open spec fn next_phase(phase: Phase, event: Event) -> Phase {
    match (phase, event) {
        (Phase::Uninitialized, Event::RuntimeFailed) => Phase::Faulted(Fault::RuntimeCreation),
        (Phase::Uninitialized, Event::ContextFailed) => Phase::Faulted(Fault::ContextCreation),
        (Phase::Uninitialized, Event::BindingFailed) => Phase::Faulted(Fault::Binding),
        (Phase::Uninitialized, Event::Ready) => Phase::Initialized,
        (Phase::Initialized, Event::Started) => Phase::Running,
        (Phase::Running, Event::CompileFailed) => Phase::Faulted(Fault::Compile),
        (Phase::Running, Event::ExecutionFailed) => Phase::Faulted(Fault::Execution),
        (Phase::Running, Event::LimitExceeded) => Phase::Faulted(Fault::ResourceLimit),
        (Phase::Running, Event::Finished) => Phase::Completed,
        _ => phase,
    }
}

/// Moves an engine on by one event.
pub fn advance(phase: Phase, event: Event) -> (next: Phase)
    ensures
        next == next_phase(phase, event),
{
    match (phase, event) {
        (Phase::Uninitialized, Event::RuntimeFailed) => Phase::Faulted(Fault::RuntimeCreation),
        (Phase::Uninitialized, Event::ContextFailed) => Phase::Faulted(Fault::ContextCreation),
        (Phase::Uninitialized, Event::BindingFailed) => Phase::Faulted(Fault::Binding),
        (Phase::Uninitialized, Event::Ready) => Phase::Initialized,
        (Phase::Initialized, Event::Started) => Phase::Running,
        (Phase::Running, Event::CompileFailed) => Phase::Faulted(Fault::Compile),
        (Phase::Running, Event::ExecutionFailed) => Phase::Faulted(Fault::Execution),
        (Phase::Running, Event::LimitExceeded) => Phase::Faulted(Fault::ResourceLimit),
        (Phase::Running, Event::Finished) => Phase::Completed,
        _ => phase,
    }
}

/// The phase of an engine that is made ready for another run: a reusable
/// phase becomes `Initialized`, any other phase stays.
pub open spec fn rearmed(phase: Phase) -> Phase {
    if phase.reusable() {
        Phase::Initialized
    } else {
        phase
    }
}

/// Makes an engine ready for another run. Nothing re-arms an engine by
/// itself; the caller decides.
pub fn rearm(phase: Phase) -> (next: Phase)
    ensures
        next == rearmed(phase),
{
    match phase {
        Phase::Completed => Phase::Initialized,
        Phase::Faulted(Fault::Compile) => Phase::Initialized,
        Phase::Faulted(Fault::Execution) => Phase::Initialized,
        Phase::Faulted(Fault::ResourceLimit) => Phase::Initialized,
        _ => phase,
    }
}

/// The failure that a fault is reported as, with the interpreter's words
/// where the fault carries any.
pub fn fault_error(fault: Fault, msg: String) -> (e: Error)
    ensures
        e == (match fault {
            Fault::RuntimeCreation => Error::RuntimeCreation,
            Fault::ContextCreation => Error::ContextCreation,
            Fault::Binding => Error::ExecutionError { msg },
            Fault::Compile => Error::CompileError { msg },
            Fault::Execution => Error::ExecutionError { msg },
            Fault::ResourceLimit => Error::ResourceLimitExceeded,
        }),
{
    match fault {
        Fault::RuntimeCreation => Error::RuntimeCreation,
        Fault::ContextCreation => Error::ContextCreation,
        Fault::Binding => Error::ExecutionError { msg },
        Fault::Compile => Error::CompileError { msg },
        Fault::Execution => Error::ExecutionError { msg },
        Fault::ResourceLimit => Error::ResourceLimitExceeded,
    }
}

/// What the interpreter reports when it fails.
#[derive(Debug)]
pub enum ScriptFailure {
    /// Memory could not be allocated.
    Allocation,
    /// The interpreter raised an exception, with the exception's message.
    Exception { message: String },
    /// Any other failure, in the interpreter's words.
    Other { message: String },
}

/// The step of a run at which the interpreter failed.
#[derive(Clone, Copy, Debug, PartialEq, Eq, Structural)]
pub enum Stage {
    Compile,
    Execute,
}

/// Whether an exception's message is one with which the interpreter reports
/// that a script went past its stack or heap budget.
pub open spec fn limit_message(message: Seq<char>) -> bool {
    occurs(message, "stack overflow"@) || occurs(message, "out of memory"@)
}

impl ScriptFailure {
    /// The interpreter's words, empty where it gave none.
    pub open spec fn words(self) -> Seq<char> {
        match self {
            ScriptFailure::Allocation => Seq::empty(),
            ScriptFailure::Exception { message } => message@,
            ScriptFailure::Other { message } => message@,
        }
    }

    /// Takes the interpreter's words out of the failure.
    pub fn into_words(self) -> (r: String)
        ensures
            r@ == self.words(),
    {
        match self {
            ScriptFailure::Allocation => String::new(),
            ScriptFailure::Exception { message } => message,
            ScriptFailure::Other { message } => message,
        }
    }

    /// Whether the failure is a violation of the stack or heap budget:
    /// memory could not be allocated, or an exception says so.
    pub open spec fn exceeds_limit(self) -> bool {
        match self {
            ScriptFailure::Allocation => true,
            ScriptFailure::Exception { message } => limit_message(message@),
            ScriptFailure::Other { .. } => false,
        }
    }
}

/// The fault that a failure of the interpreter amounts to: a violation of
/// the stack or heap budget is a `ResourceLimit` fault at either stage, any
/// other failure is a fault of the stage at which it came.
pub open spec fn fault_of_spec(stage: Stage, failure: ScriptFailure) -> Fault {
    if failure.exceeds_limit() {
        Fault::ResourceLimit
    } else {
        match stage {
            Stage::Compile => Fault::Compile,
            Stage::Execute => Fault::Execution,
        }
    }
}

/// Says what fault a failure of the interpreter amounts to.
pub fn fault_of(stage: Stage, failure: &ScriptFailure) -> (f: Fault)
    ensures
        f == fault_of_spec(stage, *failure),
{
    let exceeded = match failure {
        ScriptFailure::Allocation => true,
        ScriptFailure::Exception { message } => contains(message.as_str(), "stack overflow")
            || contains(message.as_str(), "out of memory"),
        ScriptFailure::Other { .. } => false,
    };
    if exceeded {
        Fault::ResourceLimit
    } else {
        match stage {
            Stage::Compile => Fault::Compile,
            Stage::Execute => Fault::Execution,
        }
    }
}

/// The event that a fault of a running script is recorded as.
pub fn fault_event(fault: Fault) -> (e: Event)
    ensures
        e == (match fault {
            Fault::RuntimeCreation => Event::RuntimeFailed,
            Fault::ContextCreation => Event::ContextFailed,
            Fault::Binding => Event::BindingFailed,
            Fault::Compile => Event::CompileFailed,
            Fault::Execution => Event::ExecutionFailed,
            Fault::ResourceLimit => Event::LimitExceeded,
        }),
{
    match fault {
        Fault::RuntimeCreation => Event::RuntimeFailed,
        Fault::ContextCreation => Event::ContextFailed,
        Fault::Binding => Event::BindingFailed,
        Fault::Compile => Event::CompileFailed,
        Fault::Execution => Event::ExecutionFailed,
        Fault::ResourceLimit => Event::LimitExceeded,
    }
}

/// Turns a failure of the interpreter during a run into the failure that
/// the run is reported with.
pub fn run_failure(stage: Stage, failure: ScriptFailure) -> (e: Error)
    ensures
        match fault_of_spec(stage, failure) {
            Fault::ResourceLimit => e is ResourceLimitExceeded,
            Fault::Compile => e matches Error::CompileError { msg } && msg@ == failure.words(),
            _ => e matches Error::ExecutionError { msg } && msg@ == failure.words(),
        },
{
    let fault = fault_of(stage, &failure);
    fault_error(fault, failure.into_words())
}

/// A failure of a running script, whatever it is, takes the engine from
/// `Running` to a fault after which it can run again.
pub proof fn lemma_run_failure_is_survivable(stage: Stage, failure: ScriptFailure)
    ensures
        next_phase(
            Phase::Running,
            match fault_of_spec(stage, failure) {
                Fault::ResourceLimit => Event::LimitExceeded,
                Fault::Compile => Event::CompileFailed,
                _ => Event::ExecutionFailed,
            },
        ).reusable(),
{
}

/// A final phase stays whatever happens.
pub proof fn lemma_terminal_stays(phase: Phase, event: Event)
    requires
        phase.terminal(),
    ensures
        next_phase(phase, event) == phase,
{
}

/// A script starts to run only in an engine that is set up and idle.
pub proof fn lemma_runs_from_initialized(phase: Phase, event: Event)
    requires
        next_phase(phase, event) is Running,
        !(phase is Running),
    ensures
        phase is Initialized,
        event is Started,
{
}

/// A run ends, in a value or in a fault of the script, only out of a running script.
pub proof fn lemma_ends_from_running(phase: Phase, event: Event)
    requires
        next_phase(phase, event) != phase,
        next_phase(phase, event).reusable(),
    ensures
        phase is Running,
{
}

/// One sandbox: an interpreter runtime with its limits, one execution
/// context, and the sending half of the router's queue.
pub struct JsEngine {
    #[allow(dead_code)]
    runtime: rquickjs::Runtime,
    /// The execution context in which scripts run.
    pub context: rquickjs::Context,
    sender: flume::Sender<MsgChannel>,
    limits: Limits,
    phase: Phase,
}

impl JsEngine {
    /// The limits that the engine was created with.
    pub closed spec fn limits(&self) -> Limits {
        self.limits
    }

    /// Where the engine stands.
    pub closed spec fn phase(&self) -> Phase {
        self.phase
    }

    /// The sending half of the router's queue that the engine holds.
    pub closed spec fn queue(&self) -> flume::Sender<MsgChannel> {
        self.sender
    }

    /// The interpreter runtime that the engine holds.
    pub closed spec fn runtime(&self) -> rquickjs::Runtime {
        self.runtime
    }

    /// Creates a sandbox with the given limits and a request queue that
    /// holds up to `queue_capacity` requests, and returns it with the
    /// receiving half of the queue.
    ///
    /// The interpreter decides whether its runtime and context can be made.
    /// Whatever it decides: an engine that is returned has a runtime with
    /// the given stack and heap budgets, a queue bounded by
    /// `queue_capacity`, and is not yet initialized,
    /// since its globals are still to be bound; a failure is
    /// `RuntimeCreation` or `ContextCreation`.
    pub fn create(limits: Limits, queue_capacity: usize) -> (r: Result<
        (JsEngine, flume::Receiver<MsgChannel>),
        Error,
    >)
        ensures
            r matches Ok(made) ==> {
                &&& made.0.limits() == limits
                &&& stack_budget(made.0.runtime()) == limits.max_stack_size
                &&& heap_budget(made.0.runtime()) == limits.memory_limit
                &&& made.0.phase() == Phase::Uninitialized
                &&& queue_limit(made.0.queue()) == queue_capacity
            },
            r matches Err(e) ==> e is RuntimeCreation || e is ContextCreation,
    {
        let runtime = match new_runtime() {
            Some(runtime) => runtime,
            None => {
                return Err(fault_error(Fault::RuntimeCreation, String::new()));
            },
        };
        let runtime = with_stack_budget(runtime, limits.max_stack_size);
        let runtime = with_heap_budget(runtime, limits.memory_limit);
        let context = match full_context(&runtime) {
            Some(context) => context,
            None => {
                return Err(fault_error(Fault::ContextCreation, String::new()));
            },
        };
        let (sender, receiver) = bounded_queue(queue_capacity);
        Ok((JsEngine { runtime, context, sender, limits, phase: Phase::Uninitialized }, receiver))
    }

    /// The limits that the engine was created with.
    pub fn configured_limits(&self) -> (l: Limits)
        ensures
            l == self.limits(),
    {
        self.limits
    }

    /// Where the engine stands.
    pub fn current_phase(&self) -> (p: Phase)
        ensures
            p == self.phase(),
    {
        self.phase
    }

    /// Records what happened to the engine and returns the phase it is in then.
    pub fn record(&mut self, event: Event) -> (p: Phase)
        ensures
            p == next_phase(old(self).phase(), event),
            final(self).phase() == p,
            final(self).limits() == old(self).limits(),
            final(self).queue() == old(self).queue(),
            final(self).runtime() == old(self).runtime(),
    {
        self.phase = advance(self.phase, event);
        self.phase
    }

    /// Makes the engine ready for another run, if it has finished one, and
    /// returns the phase it is in then.
    pub fn rearm(&mut self) -> (p: Phase)
        ensures
            p == rearmed(old(self).phase()),
            final(self).phase() == p,
            final(self).limits() == old(self).limits(),
            final(self).queue() == old(self).queue(),
            final(self).runtime() == old(self).runtime(),
    {
        self.phase = rearm(self.phase);
        self.phase
    }

    /// A handle through which scripts of this sandbox reach the router: it
    /// feeds the queue that the engine was created with.
    pub fn dispatcher(&self) -> (d: Dispatcher)
        ensures
            d.queue() == self.queue(),
    {
        Dispatcher::new(crate::msg_channel::clone_queue(&self.sender))
    }
}

} // verus!
