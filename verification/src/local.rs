//! The stack-only instrumented harness: counter block inline, no heap
//! allocation anywhere.

use vstd::prelude::*;

use crate::signal::{lemma_counts_pin_counters, spec_stats, wrapping_sub16, Counts, Wakey};
use crate::task::{lemma_woken_steps_extend, woken_steps, Task};
use crate::{Poll, Stats};

verus! {

/// An allocation-free single-task stepping harness that tracks wakers.
///
/// The counter block lives inline with the harness.  Because a task can
/// reach it only through the exclusive borrow lent to each poll, no
/// handle can outlive the harness and no unsafe lifetime precondition
/// is left to the caller.
pub struct Local<T> {
    /// The counter block every waker operation of the task lands in.
    pub wakey: Wakey,
    /// The computation being driven.
    pub task: T,
    /// How many times the task has been advanced, in total.
    pub polls: Ghost<nat>,
}

impl<T: Task> Local<T> {
    /// Wraps a task in a fresh harness with every counter at zero.
    pub fn new(task: T) -> (r: Local<T>)
        ensures
            r.wakey@ == (Counts { cloned: 0, dropped: 0, woken: 0 }),
            r.wakey.cloned == 0,
            r.wakey.dropped == 0,
            r.wakey.woken == 0,
            r.task == task,
            r.polls@ == 0,
    {
        Local { wakey: Wakey::new(), task, polls: Ghost(0nat) }
    }

    /// How many times the waker has been woken.  Cumulative, never
    /// reset, wraps on overflow.
    pub fn woken(&self) -> (r: u16)
        ensures
            r == self.wakey.woken,
    {
        self.wakey.woken
    }

    /// How many times the waker has been cloned.  Cumulative, never
    /// reset, wraps on overflow.
    pub fn cloned(&self) -> (r: u16)
        ensures
            r == self.wakey.cloned,
    {
        self.wakey.cloned
    }

    /// How many times a waker has been dropped.  Cumulative, never
    /// reset, wraps on overflow.
    pub fn dropped(&self) -> (r: u16)
        ensures
            r == self.wakey.dropped,
    {
        self.wakey.dropped
    }

    /// A snapshot of all three counters.  Two snapshots with no
    /// operation between them are identical: the result is a function
    /// of the counter state alone.
    pub fn stats(&self) -> (r: Stats)
        ensures
            r == spec_stats(self.wakey),
    {
        Stats { cloned: self.wakey.cloned, dropped: self.wakey.dropped, woken: self.wakey.woken }
    }

    /// The number of live wakers: `cloned - dropped`, wrapping on
    /// underflow when a task released more handles than it duplicated.
    pub fn live(&self) -> (r: u16)
        ensures
            r == wrapping_sub16(self.wakey.cloned, self.wakey.dropped),
    {
        if self.wakey.cloned >= self.wakey.dropped {
            self.wakey.cloned - self.wakey.dropped
        } else {
            let gap: u32 = 0x10000 + self.wakey.cloned as u32 - self.wakey.dropped as u32;
            gap as u16
        }
    }

    /// Advances the task exactly once, with a waker bound to this
    /// harness's counter block available to it.  The counters move only
    /// as the task's own waker traffic dictates, and never backwards;
    /// the step lands in the task's own relation, which carries the
    /// returned result and the exact counter deltas of a task that
    /// states them.
    pub fn poll(&mut self) -> (r: Poll<T::Output>)
        ensures
            old(self).wakey.evolves_to(final(self).wakey),
            final(self).polls@ == old(self).polls@ + 1,
            (r is Pending && final(self).wakey@.woken > old(self).wakey@.woken)
                ==> final(self).task.measure() < old(self).task.measure(),
            T::advance_rel(
                &old(self).task,
                &final(self).task,
                &old(self).wakey,
                &final(self).wakey,
                &r,
            ),
    {
        let r = self.task.advance(&mut self.wakey);
        proof {
            self.polls@ = self.polls@ + 1;
        }
        r
    }

    /// Polls the task repeatedly for as long as each poll caused at
    /// least one wake, stopping at completion or at quiescence.
    ///
    /// The number of polls spent is at most one more than the number of
    /// wakes observed; in particular, a task that does not wake at all
    /// is advanced exactly once.  The final state is reached by a run
    /// of pending, waking steps followed by one last step whose result
    /// is handed back: a ready result is the last step's own, and a
    /// pending result means that last step moved no woken counter —
    /// quiescence.
    pub fn poll_while_woken(&mut self) -> (r: Poll<T::Output>)
        ensures
            old(self).wakey.evolves_to(final(self).wakey),
            final(self).polls@ > old(self).polls@,
            final(self).polls@ + old(self).wakey@.woken
                <= old(self).polls@ + final(self).wakey@.woken + 1,
            final(self).wakey@.woken == old(self).wakey@.woken
                ==> final(self).polls@ == old(self).polls@ + 1,
            exists|j: nat, tm: T, wm: Wakey|
                #![auto]
                {
                    &&& woken_steps(old(self).task, old(self).wakey, tm, wm, j)
                    &&& T::advance_rel(&tm, &final(self).task, &wm, &final(self).wakey, &r)
                    &&& (r is Pending ==> final(self).wakey.woken == wm.woken)
                    &&& final(self).polls@ == old(self).polls@ + j + 1
                },
    {
        let mut woken: u16 = self.woken();
        let ghost mut j: nat = 0;
        proof {
            assert(woken_steps(old(self).task, old(self).wakey, self.task, self.wakey, j));
        }
        loop
            invariant
                woken == self.wakey.woken,
                old(self).wakey.evolves_to(self.wakey),
                self.polls@ >= old(self).polls@,
                self.polls@ + old(self).wakey@.woken <= old(self).polls@ + self.wakey@.woken,
                woken_steps(old(self).task, old(self).wakey, self.task, self.wakey, j),
                self.polls@ == old(self).polls@ + j,
            decreases self.task.measure(),
        {
            let ghost pre = *self;
            let r = self.poll();
            match r {
                Poll::Ready(v) => {
                    proof {
                        assert(T::advance_rel(&pre.task, &self.task, &pre.wakey, &self.wakey, &r));
                    }
                    return Poll::Ready(v);
                },
                Poll::Pending => {},
            }
            let w: u16 = self.woken();
            if w == woken {
                proof {
                    assert(T::advance_rel(&pre.task, &self.task, &pre.wakey, &self.wakey, &r));
                    assert(self.wakey.woken == pre.wakey.woken);
                }
                return Poll::Pending;
            }
            proof {
                if pre.wakey@.woken == self.wakey@.woken {
                    lemma_counts_pin_counters(pre.wakey, self.wakey);
                }
                assert(pre.wakey@.woken < self.wakey@.woken);
                assert(r == Poll::<T::Output>::Pending);
                lemma_woken_steps_extend(
                    old(self).task,
                    old(self).wakey,
                    pre.task,
                    pre.wakey,
                    self.task,
                    self.wakey,
                    j,
                );
                j = j + 1;
            }
            woken = w;
        }
    }
}

} // verus!
