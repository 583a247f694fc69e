//! Resource limits that a sandbox is created with.

use vstd::prelude::*;

verus! {

/// Default call-stack budget of a sandbox, in bytes.
pub const DEFAULT_MAX_STACK_SIZE: usize = 262144;

/// Default heap budget of a sandbox, in bytes.
pub const DEFAULT_MEMORY_LIMIT: usize = 2097152;

/// The byte budgets that a sandbox is created with and keeps for its lifetime.
#[derive(Clone, Copy, Debug, PartialEq, Eq, Structural)]
pub struct Limits {
    pub max_stack_size: usize,
    pub memory_limit: usize,
}

impl Limits {
    /// The limits that an engine gets when none are given.
    pub fn standard() -> (l: Limits)
        ensures
            l.max_stack_size == 256 * 1024,
            l.memory_limit == 2 * 1024 * 1024,
    {
        Limits { max_stack_size: DEFAULT_MAX_STACK_SIZE, memory_limit: DEFAULT_MEMORY_LIMIT }
    }
}

} // verus!
