//! The interface a suspended computation presents to a harness, and a
//! small self-waking task for exercising the stepping loops.

use vstd::prelude::*;

use crate::signal::{wrapping_inc16, Wakey};
use crate::Poll;

verus! {

/// An opaque, caller-supplied suspended computation.
///
/// A harness drives it through the one operation `advance`: move one
/// step, with a waker available, and report either the final value or
/// not-yet-ready.  The harness never looks inside; what it relies on is
/// the contract below: the task touches the waker only through its
/// counting operations, so the counters never go backwards; each wake
/// that accompanies a pending result spends one unit of the task's
/// declared `measure`; and every step lands in the task's own declared
/// step relation `advance_rel`, through which a harness's contracts
/// transmit what a particular task did — its result and its waker
/// traffic — to the caller.
///
/// The measure and the relation are ghost.  The measure exists so that
/// driving the task while it keeps waking itself can be shown to
/// terminate.  A task whose implementation is not verified can still be
/// driven; it inherits the defaults (no self-wakes to spend, a relation
/// that says nothing), and what the harness promises about it is then
/// as unchecked as the task itself.
pub trait Task {
    /// The value the task produces when it completes.
    type Output;

    /// An upper bound on how many more polls may end with the task
    /// waking itself and still pending.  The default of zero suits a
    /// task that never wakes; a task that does declares its own bound.
    open spec fn measure(&self) -> nat {
        0
    }

    /// The task's step relation: what one `advance` from state `pre`
    /// with waker block `wpre` may leave behind (`post`, `wpost`) and
    /// return (`r`).  The default says nothing; a task with a verified
    /// implementation states here exactly what each step does, and the
    /// harness contracts carry it to the caller.
    open spec fn advance_rel(
        pre: &Self,
        post: &Self,
        wpre: &Wakey,
        wpost: &Wakey,
        r: &Poll<Self::Output>,
    ) -> bool {
        true
    }

    /// Advances the computation exactly one step, with `waker` available
    /// to it for the duration of the step.
    fn advance(&mut self, waker: &mut Wakey) -> (r: Poll<Self::Output>)
        ensures
            old(waker).evolves_to(*final(waker)),
            (r is Pending && final(waker)@.woken > old(waker)@.woken) ==> final(self).measure()
                < old(self).measure(),
            Self::advance_rel(old(self), final(self), old(waker), final(waker), &r),
    ;
}

/// A run of `j` advances from `(t0, w0)` landing at `(t1, w1)`, every
/// one of them pending and moving the on-screen woken counter: exactly
/// the steps after which the while-woken stepping loop polls again.
pub open spec fn woken_steps<T: Task>(t0: T, w0: Wakey, t1: T, w1: Wakey, j: nat) -> bool
    decreases j,
{
    if j == 0 {
        t1 == t0 && w1 == w0
    } else {
        exists|tm: T, wm: Wakey|
            #![auto]
            woken_steps(t0, w0, tm, wm, (j - 1) as nat)
                && T::advance_rel(&tm, &t1, &wm, &w1, &Poll::<T::Output>::Pending)
                && w1.woken != wm.woken
    }
}

/// Appending one pending step that moved the woken counter extends a
/// run by one.
pub proof fn lemma_woken_steps_extend<T: Task>(
    t0: T,
    w0: Wakey,
    tm: T,
    wm: Wakey,
    t1: T,
    w1: Wakey,
    j: nat,
)
    requires
        woken_steps(t0, w0, tm, wm, j),
        T::advance_rel(&tm, &t1, &wm, &w1, &Poll::<T::Output>::Pending),
        w1.woken != wm.woken,
    ensures
        woken_steps(t0, w0, t1, w1, j + 1),
{
    let jj: nat = (j + 1) as nat;
    assert((jj - 1) as nat == j);
    assert(woken_steps(t0, w0, tm, wm, (jj - 1) as nat));
    assert(woken_steps(t0, w0, t1, w1, jj));
}

/// A task that wakes itself a fixed number of times before completing,
/// and counts how often it has been advanced.
///
/// Every poll but the last wakes the waker by reference once and stays
/// pending; the last poll completes with the total number of polls, so
/// a caller can observe exactly how many advances a stepping loop made.
pub struct Countdown {
    /// How many more polls will wake and stay pending.
    pub remaining: u16,
    /// How many times the task has been advanced (wraps on overflow).
    pub polls: u16,
}

impl Task for Countdown {
    type Output = u16;

    open spec fn measure(&self) -> nat {
        self.remaining as nat
    }

    open spec fn advance_rel(
        pre: &Countdown,
        post: &Countdown,
        wpre: &Wakey,
        wpost: &Wakey,
        r: &Poll<u16>,
    ) -> bool {
        &&& post.polls == wrapping_inc16(pre.polls)
        &&& if pre.remaining == 0 {
            &&& *r == Poll::<u16>::Ready(wrapping_inc16(pre.polls))
            &&& post.remaining == 0
            &&& *wpost == *wpre
        } else {
            &&& *r is Pending
            &&& post.remaining == pre.remaining - 1
            &&& wpost@.woken == wpre@.woken + 1
            &&& wpost@.cloned == wpre@.cloned
            &&& wpost@.dropped == wpre@.dropped
            &&& wpost.woken == wrapping_inc16(wpre.woken)
            &&& wpost.cloned == wpre.cloned
            &&& wpost.dropped == wpre.dropped
        }
    }

    fn advance(&mut self, waker: &mut Wakey) -> (r: Poll<u16>) {
        self.polls = if self.polls == 0xFFFF {
            0
        } else {
            self.polls + 1
        };
        if self.remaining == 0 {
            Poll::Ready(self.polls)
        } else {
            self.remaining = self.remaining - 1;
            waker.wake_by_ref();
            Poll::Pending
        }
    }
}



/// What a run of pending, waking steps does to a countdown: each step
/// spends one unit of `remaining`, counts one poll, and wakes once.
proof fn lemma_countdown_run(t0: Countdown, w0: Wakey, tm: Countdown, wm: Wakey, j: nat)
    requires
        woken_steps(t0, w0, tm, wm, j),
    ensures
        j <= t0.remaining,
        tm.remaining == t0.remaining - j,
        t0.polls + j <= 0xFFFF ==> tm.polls == t0.polls + j,
        wm@.woken == w0@.woken + j,
        wm@.cloned == w0@.cloned,
        wm@.dropped == w0@.dropped,
    decreases j,
{
    if j != 0 {
        let (ta, wa) = choose|ta: Countdown, wa: Wakey|
            #![auto]
            woken_steps(t0, w0, ta, wa, (j - 1) as nat)
                && <Countdown as Task>::advance_rel(&ta, &tm, &wa, &wm, &Poll::<u16>::Pending)
                && wm.woken != wa.woken;
        lemma_countdown_run(t0, w0, ta, wa, (j - 1) as nat);
    }
}

/// Law: the while-woken stepping contract pins a countdown's outcome
/// exactly.  Any run the contract admits for a countdown with `n`
/// wakes left and a fresh poll count has exactly `n` pending steps, a
/// last step that completes with `n + 1`, and exactly `n` wakes in
/// total: `n + 1` advances, ending `Ready(n + 1)`.
pub proof fn lemma_countdown_while_woken_exact(
    t0: Countdown,
    w0: Wakey,
    tm: Countdown,
    wm: Wakey,
    t1: Countdown,
    w1: Wakey,
    r: Poll<u16>,
    j: nat,
)
    requires
        t0.polls == 0,
        t0.remaining < 0xFFFF,
        woken_steps(t0, w0, tm, wm, j),
        <Countdown as Task>::advance_rel(&tm, &t1, &wm, &w1, &r),
        r is Pending ==> w1.woken == wm.woken,
    ensures
        j == t0.remaining,
        r == Poll::<u16>::Ready((t0.remaining + 1) as u16),
        w1@.woken == w0@.woken + t0.remaining,
        w1@.cloned == w0@.cloned,
        w1@.dropped == w0@.dropped,
{
    lemma_countdown_run(t0, w0, tm, wm, j);
}

/// Law: a task whose step relation is a function of the pre-state —
/// the countdown is one — behaves identically under every harness
/// variant: from equal task and counter states, any two steps the
/// stepping contracts admit return the same result and land in the
/// same task state and the same counter readings.  With equal starting
/// states this carries the heap-backed and the stack-only harness in
/// lockstep, poll for poll.
pub proof fn lemma_countdown_step_deterministic(
    pre: Countdown,
    wpre: Wakey,
    ta: Countdown,
    wa: Wakey,
    ra: Poll<u16>,
    tb: Countdown,
    wb: Wakey,
    rb: Poll<u16>,
)
    requires
        <Countdown as Task>::advance_rel(&pre, &ta, &wpre, &wa, &ra),
        <Countdown as Task>::advance_rel(&pre, &tb, &wpre, &wb, &rb),
    ensures
        ta == tb,
        ra == rb,
        wa@ == wb@,
        wa.cloned == wb.cloned,
        wa.dropped == wb.dropped,
        wa.woken == wb.woken,
{
}

} // verus!
