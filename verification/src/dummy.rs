//! The no-op benchmark harness: no counters, no observations, just the
//! bare cost of advancing a task.

use vstd::prelude::*;

use crate::signal::{Counts, Wakey};
use crate::task::Task;
use crate::Poll;

verus! {

/// A single-task stepping harness whose waker bookkeeping is thrown
/// away, for measuring the intrinsic cost of a poll.
///
/// The harness keeps no counter block: each poll lends the task a
/// scratch one that is discarded afterwards, so polling changes no
/// externally observable state besides the task's own.  Accordingly
/// there are no counters to read and no `poll_while_woken`, since no
/// wake can be observed.
pub struct Dummy<T> {
    /// The computation being driven.
    pub task: T,
    /// How many times the task has been advanced, in total.
    pub polls: Ghost<nat>,
}

impl<T: Task> Dummy<T> {
    /// Wraps a task in a no-op harness.
    pub fn new(task: T) -> (r: Dummy<T>)
        ensures
            r.task == task,
            r.polls@ == 0,
    {
        Dummy { task, polls: Ghost(0nat) }
    }

    /// Advances the task exactly once.  The waker traffic of the step
    /// lands in a scratch block that is dropped when the step ends, so
    /// nothing observable changes besides the task itself — whose step,
    /// result included, lands in the task's own relation, taken from a
    /// block with every counter at zero.
    pub fn poll(&mut self) -> (r: Poll<T::Output>)
        ensures
            final(self).polls@ == old(self).polls@ + 1,
            exists|wpre: Wakey, wpost: Wakey|
                #![auto]
                {
                    &&& wpre.cloned == 0 && wpre.dropped == 0 && wpre.woken == 0
                    &&& wpre@ == (Counts { cloned: 0, dropped: 0, woken: 0 })
                    &&& T::advance_rel(&old(self).task, &final(self).task, &wpre, &wpost, &r)
                },
    {
        let mut scratch: Wakey = Wakey::new();
        let ghost scratch0 = scratch;
        let r = self.task.advance(&mut scratch);
        proof {
            self.polls@ = self.polls@ + 1;
            assert(T::advance_rel(&old(self).task, &self.task, &scratch0, &scratch, &r));
        }
        r
    }
}

} // verus!
