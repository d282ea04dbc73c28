//! Single-task stepping harnesses that instrument waker traffic.
//!
//! A caller owns one suspended computation (a [`Task`]) and drives it by
//! hand, one step at a time, with no ambient scheduler.  While the task
//! runs, it may clone, invoke and release the suspension handle it was
//! given; the harness counts every such event in a shared counter block
//! (a [`Wakey`]) and lets the caller read the counts back as an oracle
//! for "did progress happen".
//!
//! Three harness variants exist, differing only in how they keep the
//! counter block alive:
//!
//! * [`Wookie`] stores it on the heap;
//! * [`Local`] stores it inline, with no allocation at all;
//! * [`Dummy`] keeps no counters and exists only to measure the bare
//!   cost of advancing a task once.

use vstd::prelude::*;

mod dummy;
mod local;
mod signal;
mod task;
mod wookie;

pub use dummy::Dummy;
pub use local::Local;
pub use signal::{spec_stats, wrapping_inc16, wrapping_sub16, Counts, Handle, Wakey};
pub use signal::{lemma_counts_pin_counters, lemma_evolves_trans, lemma_stats_pure};
pub use task::{
    lemma_countdown_step_deterministic, lemma_countdown_while_woken_exact,
    lemma_woken_steps_extend, woken_steps, Countdown, Task,
};
pub use wookie::{lemma_cross_variant_agreement, Wookie};

verus! {

/// The result of advancing a task one step: either its final value or a
/// signal that it is not yet ready.
#[derive(PartialEq, Eq, Debug)]
pub enum Poll<T> {
    /// The task finished and produced its value.
    Ready(T),
    /// The task is not yet ready; it may have arranged to be woken.
    Pending,
}

/// A point-in-time copy of the three waker counters of a [`Local`] or
/// [`Wookie`] harness.
#[derive(Clone, Copy, PartialEq, Eq, Structural, Debug)]
pub struct Stats {
    /// How many times a waker has been cloned.
    pub cloned: u16,
    /// How many times a waker has been dropped.  Waking by value counts
    /// here too, since it consumes the waker.
    pub dropped: u16,
    /// How many times a waker has been woken, by value or by reference.
    pub woken: u16,
}

impl Stats {
    /// The number of live wakers: `cloned - dropped`, wrapping on
    /// underflow when a task released more handles than it duplicated.
    pub fn live(&self) -> (r: u16)
        ensures
            r == wrapping_sub16(self.cloned, self.dropped),
    {
        if self.cloned >= self.dropped {
            self.cloned - self.dropped
        } else {
            let gap: u32 = 0x10000 + self.cloned as u32 - self.dropped as u32;
            gap as u16
        }
    }

    /// States that `cloned`, `dropped` and `woken` are the given values;
    /// the caller must establish the equalities before calling.
    pub fn assert_counts(&self, cloned: u16, dropped: u16, woken: u16)
        requires
            self.cloned == cloned,
            self.dropped == dropped,
            self.woken == woken,
    {
    }
}

/// States that a [`Poll`] is pending; the caller must establish it.
pub fn assert_pending<T>(poll: &Poll<T>)
    requires
        poll is Pending,
{
}

/// States that a [`Poll`] is ready and hands back the value inside.
pub fn assert_ready<T>(poll: Poll<T>) -> (r: T)
    requires
        poll is Ready,
    ensures
        poll == Poll::Ready(r),
{
    match poll {
        Poll::Ready(r) => r,
        Poll::Pending => vstd::pervasive::unreached(),
    }
}

} // verus!
