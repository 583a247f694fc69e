//! A cancellation signal that several holders share: a deadline, which may
//! be absent, and a flag that any holder may set.

use std::sync::atomic::AtomicBool;
use std::sync::atomic::Ordering;
use std::sync::Arc;
use std::time::Instant;
use vstd::prelude::*;

verus! {

/// `std::time::Instant`: a reading of the monotonic clock. Nothing of it is visible.
#[verifier::external_type_specification]
#[verifier::external_body]
pub struct ExInstant(Instant);

/// `Instant::now`: the current instant. Nothing is claimed of it.
#[verifier::external_body]
fn now() -> (r: Instant) {
    Instant::now()
}

/// `<=` on `Instant`: whether `a` is not later than `b`. Nothing is claimed
/// of the outcome, since an instant shows nothing of itself.
#[verifier::external_body]
fn not_later(a: &Instant, b: &Instant) -> (r: bool) {
    a <= b
}

/// A shareable cancellation signal. Polling it is advisory: whoever polls
/// stops its own work when the signal is given.
#[derive(Debug)]
pub struct Cancellation {
    deadline: Option<Instant>,
    cancellation: Arc<AtomicBool>,
}

/// Whether work is cancelled, given whether a deadline exists and has been
/// reached and whether the flag is set: either one cancels.
pub open spec fn cancelled_when(deadline_reached: Option<bool>, flag: bool) -> bool {
    deadline_reached == Some(true) || flag
}

/// Decides whether work is cancelled from what polling found: whether the
/// deadline, if there is one, has been reached, and whether the flag is set.
pub fn is_cancelled(deadline_reached: Option<bool>, flag: bool) -> (r: bool)
    ensures
        r == cancelled_when(deadline_reached, flag),
{
    match deadline_reached {
        Some(reached) => reached || flag,
        None => flag,
    }
}

/// What polling a signal found, and what follows from it.
#[derive(Clone, Copy, Debug, PartialEq, Eq, Structural)]
pub struct Polled {
    /// Whether the deadline has been reached; none where there is no deadline.
    pub deadline_reached: Option<bool>,
    /// Whether the flag is set.
    pub flag: bool,
    /// Whether work is cancelled.
    pub cancelled: bool,
}

impl Cancellation {
    /// Whether the signal has a deadline.
    pub closed spec fn has_deadline(&self) -> bool {
        self.deadline.is_some()
    }

    /// The deadline, if there is one.
    pub closed spec fn deadline(&self) -> Option<Instant> {
        self.deadline
    }

    /// The shared flag.
    pub closed spec fn flag(&self) -> Arc<AtomicBool> {
        self.cancellation
    }

    /// Makes a signal from a deadline, which may be absent, and a shared flag.
    pub fn new(deadline: Option<Instant>, cancellation: Arc<AtomicBool>) -> (c: Cancellation)
        ensures
            c.deadline() == deadline,
            c.flag() == cancellation,
            c.has_deadline() == deadline.is_some(),
    {
        Cancellation { deadline, cancellation }
    }

    /// Polls the signal and shows what it found: the clock is read exactly
    /// where there is a deadline, the flag is read, and work is cancelled
    /// when the deadline has been reached or the flag is set.
    pub fn poll(&self) -> (p: Polled)
        ensures
            p.deadline_reached.is_some() == self.has_deadline(),
            p.cancelled == cancelled_when(p.deadline_reached, p.flag),
    {
        let deadline_reached = match &self.deadline {
            Some(d) => Some(not_later(d, &now())),
            None => None,
        };
        let flag = self.cancellation.load(Ordering::Relaxed);
        Polled { deadline_reached, flag, cancelled: is_cancelled(deadline_reached, flag) }
    }

    /// Whether work is cancelled at the moment of the call: what [`poll`](Self::poll) decides.
    pub fn cancelled(&self) -> (r: bool) {
        self.poll().cancelled
    }
}

impl Clone for Cancellation {
    /// Another holder of the same signal: the same deadline and the same flag.
    fn clone(&self) -> (r: Self)
        ensures
            r.deadline() == self.deadline(),
            r.flag() == self.flag(),
            r.has_deadline() == self.has_deadline(),
    {
        Cancellation { deadline: self.deadline, cancellation: self.cancellation.clone() }
    }
}

impl Default for Cancellation {
    /// A signal without a deadline, with a flag of its own that is not set.
    fn default() -> (r: Self)
        ensures
            !r.has_deadline(),
    {
        Cancellation { deadline: None, cancellation: Arc::new(AtomicBool::new(false)) }
    }
}

} // verus!
