//! The interpreter's own types and calls, as the engine uses them.

use vstd::prelude::*;

verus! {

/// `rquickjs::Runtime`: an interpreter runtime. Nothing of it is visible.
#[verifier::external_type_specification]
#[verifier::external_body]
pub struct ExRuntime(rquickjs::Runtime);

/// `rquickjs::Context`: an execution context of a runtime. Nothing of it is visible.
#[verifier::external_type_specification]
#[verifier::external_body]
pub struct ExContext(rquickjs::Context);

/// `rquickjs::Runtime::new`: makes an interpreter runtime, and none where
/// the interpreter reports a failure, which it does when memory for the
/// runtime is lacking. Nothing is claimed of the outcome.
#[verifier::external_body]
pub(crate) fn new_runtime() -> (r: Option<rquickjs::Runtime>) {
    rquickjs::Runtime::new().ok()
}

/// The stack budget, in bytes, that a runtime was last given. The
/// interpreter takes zero as no limit.
pub uninterp spec fn stack_budget(runtime: rquickjs::Runtime) -> nat;

/// The heap budget, in bytes, that a runtime was last given. The
/// interpreter takes zero as no limit.
pub uninterp spec fn heap_budget(runtime: rquickjs::Runtime) -> nat;

/// `rquickjs::Runtime::set_max_stack_size`: hands the stack budget to the
/// interpreter and gives the runtime back. The runtime then has that stack
/// budget; the call does not touch its heap budget.
#[verifier::external_body]
pub(crate) fn with_stack_budget(runtime: rquickjs::Runtime, limit: usize) -> (r: rquickjs::Runtime)
    ensures
        stack_budget(r) == limit,
        heap_budget(r) == heap_budget(runtime),
{
    runtime.set_max_stack_size(limit);
    runtime
}

/// `rquickjs::Runtime::set_memory_limit`: hands the heap budget to the
/// interpreter and gives the runtime back. The runtime then has that heap
/// budget; the call does not touch its stack budget.
#[verifier::external_body]
pub(crate) fn with_heap_budget(runtime: rquickjs::Runtime, limit: usize) -> (r: rquickjs::Runtime)
    ensures
        heap_budget(r) == limit,
        stack_budget(r) == stack_budget(runtime),
{
    runtime.set_memory_limit(limit);
    runtime
}

/// `rquickjs::Context::full`: makes an execution context with all
/// intrinsics in the runtime, and none where the interpreter reports a
/// failure, which it does when memory for the context is lacking. Nothing is
/// claimed of the outcome.
#[verifier::external_body]
pub(crate) fn full_context(runtime: &rquickjs::Runtime) -> (r: Option<rquickjs::Context>) {
    rquickjs::Context::full(runtime).ok()
}

} // verus!
