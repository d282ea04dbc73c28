//! The heap-backed instrumented harness: the counter block lives in its
//! own allocation, at a stable address for the harness's whole life.

use vstd::prelude::*;

use crate::local::Local;
use crate::signal::{lemma_counts_pin_counters, spec_stats, wrapping_sub16, Counts, Wakey};
use crate::task::{lemma_woken_steps_extend, woken_steps, Task};
use crate::{Poll, Stats};

verus! {

/// A heap-backed single-task stepping harness that tracks wakers.
///
/// Behaves exactly like [`Local`]; the one difference is that the
/// counter block is kept in its own heap allocation rather than inline,
/// so its address is stable for as long as the harness lives.
pub struct Wookie<T> {
    /// The counter block every waker operation of the task lands in.
    pub wakey: Box<Wakey>,
    /// The computation being driven.
    pub task: T,
    /// How many times the task has been advanced, in total.
    pub polls: Ghost<nat>,
}

impl<T: Task> Wookie<T> {
    /// Wraps a task in a fresh harness with every counter at zero.
    pub fn new(task: T) -> (r: Wookie<T>)
        ensures
            r.wakey@ == (Counts { cloned: 0, dropped: 0, woken: 0 }),
            r.wakey.cloned == 0,
            r.wakey.dropped == 0,
            r.wakey.woken == 0,
            r.task == task,
            r.polls@ == 0,
    {
        Wookie { wakey: Box::new(Wakey::new()), task, polls: Ghost(0nat) }
    }

    /// How many times the waker has been woken.  Cumulative, never
    /// reset, wraps on overflow.
    pub fn woken(&self) -> (r: u16)
        ensures
            r == self.wakey.woken,
    {
        self.wakey.woken
    }

    /// How many times the waker has been cloned.  Cumulative, never
    /// reset, wraps on overflow.
    pub fn cloned(&self) -> (r: u16)
        ensures
            r == self.wakey.cloned,
    {
        self.wakey.cloned
    }

    /// How many times a waker has been dropped.  Cumulative, never
    /// reset, wraps on overflow.
    pub fn dropped(&self) -> (r: u16)
        ensures
            r == self.wakey.dropped,
    {
        self.wakey.dropped
    }

    /// A snapshot of all three counters.  Two snapshots with no
    /// operation between them are identical: the result is a function
    /// of the counter state alone.
    pub fn stats(&self) -> (r: Stats)
        ensures
            r == spec_stats(*self.wakey),
    {
        Stats { cloned: self.wakey.cloned, dropped: self.wakey.dropped, woken: self.wakey.woken }
    }

    /// The number of live wakers: `cloned - dropped`, wrapping on
    /// underflow when a task released more handles than it duplicated.
    pub fn live(&self) -> (r: u16)
        ensures
            r == wrapping_sub16(self.wakey.cloned, self.wakey.dropped),
    {
        if self.wakey.cloned >= self.wakey.dropped {
            self.wakey.cloned - self.wakey.dropped
        } else {
            let gap: u32 = 0x10000 + self.wakey.cloned as u32 - self.wakey.dropped as u32;
            gap as u16
        }
    }

    /// Advances the task exactly once, with a waker bound to this
    /// harness's counter block available to it.  The counters move only
    /// as the task's own waker traffic dictates, and never backwards;
    /// the step lands in the task's own relation, which carries the
    /// returned result and the exact counter deltas of a task that
    /// states them.
    pub fn poll(&mut self) -> (r: Poll<T::Output>)
        ensures
            old(self).wakey.evolves_to(*final(self).wakey),
            final(self).polls@ == old(self).polls@ + 1,
            (r is Pending && final(self).wakey@.woken > old(self).wakey@.woken)
                ==> final(self).task.measure() < old(self).task.measure(),
            T::advance_rel(
                &old(self).task,
                &final(self).task,
                &old(self).wakey,
                &final(self).wakey,
                &r,
            ),
    {
        let r = self.task.advance(&mut *self.wakey);
        proof {
            self.polls@ = self.polls@ + 1;
        }
        r
    }

    /// Polls the task repeatedly for as long as each poll caused at
    /// least one wake, stopping at completion or at quiescence.
    ///
    /// The number of polls spent is at most one more than the number of
    /// wakes observed; in particular, a task that does not wake at all
    /// is advanced exactly once.  The final state is reached by a run
    /// of pending, waking steps followed by one last step whose result
    /// is handed back: a ready result is the last step's own, and a
    /// pending result means that last step moved no woken counter —
    /// quiescence.
    pub fn poll_while_woken(&mut self) -> (r: Poll<T::Output>)
        ensures
            old(self).wakey.evolves_to(*final(self).wakey),
            final(self).polls@ > old(self).polls@,
            final(self).polls@ + old(self).wakey@.woken
                <= old(self).polls@ + final(self).wakey@.woken + 1,
            final(self).wakey@.woken == old(self).wakey@.woken
                ==> final(self).polls@ == old(self).polls@ + 1,
            exists|j: nat, tm: T, wm: Wakey|
                #![auto]
                {
                    &&& woken_steps(old(self).task, *old(self).wakey, tm, wm, j)
                    &&& T::advance_rel(&tm, &final(self).task, &wm, &final(self).wakey, &r)
                    &&& (r is Pending ==> final(self).wakey.woken == wm.woken)
                    &&& final(self).polls@ == old(self).polls@ + j + 1
                },
    {
        let mut woken: u16 = self.woken();
        let ghost mut j: nat = 0;
        proof {
            assert(woken_steps(old(self).task, *old(self).wakey, self.task, *self.wakey, j));
        }
        loop
            invariant
                woken == self.wakey.woken,
                old(self).wakey.evolves_to(*self.wakey),
                self.polls@ >= old(self).polls@,
                self.polls@ + old(self).wakey@.woken <= old(self).polls@ + self.wakey@.woken,
                woken_steps(old(self).task, *old(self).wakey, self.task, *self.wakey, j),
                self.polls@ == old(self).polls@ + j,
            decreases self.task.measure(),
        {
            let ghost pre = *self;
            let r = self.poll();
            match r {
                Poll::Ready(v) => {
                    proof {
                        assert(T::advance_rel(&pre.task, &self.task, &pre.wakey, &self.wakey, &r));
                    }
                    return Poll::Ready(v);
                },
                Poll::Pending => {},
            }
            let w: u16 = self.woken();
            if w == woken {
                proof {
                    assert(T::advance_rel(&pre.task, &self.task, &pre.wakey, &self.wakey, &r));
                    assert(self.wakey.woken == pre.wakey.woken);
                }
                return Poll::Pending;
            }
            proof {
                if pre.wakey@.woken == self.wakey@.woken {
                    lemma_counts_pin_counters(*pre.wakey, *self.wakey);
                }
                assert(pre.wakey@.woken < self.wakey@.woken);
                assert(r == Poll::<T::Output>::Pending);
                lemma_woken_steps_extend(
                    old(self).task,
                    *old(self).wakey,
                    pre.task,
                    *pre.wakey,
                    self.task,
                    *self.wakey,
                    j,
                );
                j = j + 1;
            }
            woken = w;
        }
    }
}

/// Law: the heap-backed and the stack-only harness are observationally
/// equivalent.  Their stepping operations carry the same contracts over
/// the same counter model, and every reading they expose is the same
/// function of the counter state alone — so two harnesses whose counter
/// blocks are equal report identical counters, statistics and live
/// counts, whatever tasks they carry.  Only the allocation discipline
/// differs.
pub proof fn lemma_cross_variant_agreement<A, B>(a: Local<A>, b: Wookie<B>)
    requires
        a.wakey == *b.wakey,
    ensures
        spec_stats(a.wakey) == spec_stats(*b.wakey),
        a.wakey.cloned == b.wakey.cloned,
        a.wakey.dropped == b.wakey.dropped,
        a.wakey.woken == b.wakey.woken,
        wrapping_sub16(a.wakey.cloned, a.wakey.dropped) == wrapping_sub16(
            b.wakey.cloned,
            b.wakey.dropped,
        ),
{
}

} // verus!
