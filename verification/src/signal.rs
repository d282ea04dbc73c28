//! The shared counter block behind every instrumented waker, and the
//! four-operation handle protocol (clone, wake, wake-by-reference, drop)
//! that mutates it.

use vstd::prelude::*;

use crate::Stats;

verus! {

/// What a `u16` counter wraps to after one more event.
pub open spec fn wrapping_inc16(x: u16) -> u16 {
    if x == 0xFFFF {
        0
    } else {
        (x + 1) as u16
    }
}

/// `a - b` on `u16`, wrapping on underflow.
pub open spec fn wrapping_sub16(a: u16, b: u16) -> u16 {
    if a >= b {
        (a - b) as u16
    } else {
        (a + 0x10000 - b) as u16
    }
}

/// The abstract value of a counter block: the three event counts as
/// they would be if the `u16` counters never wrapped.
pub struct Counts {
    /// Total handle-clone events.
    pub cloned: nat,
    /// Total handle-drop events (waking by value counts as a drop too).
    pub dropped: nat,
    /// Total wake events, by value or by reference.
    pub woken: nat,
}

/// The shared counter block a waker mutates on every lifecycle event.
///
/// The three `u16` counters are cumulative over the whole life of the
/// block, are never reset, and wrap on overflow.  Alongside each one a
/// ghost field counts how often it has wrapped, so that contracts can
/// speak of the true, unbounded event counts through [`Wakey::view`].
pub struct Wakey {
    /// How many times a waker has been cloned (wraps on overflow).
    pub cloned: u16,
    /// How many times a waker has been dropped (wraps on overflow).
    pub dropped: u16,
    /// How many times a waker has been woken (wraps on overflow).
    pub woken: u16,
    /// How often `cloned` has wrapped.
    pub cloned_wraps: Ghost<nat>,
    /// How often `dropped` has wrapped.
    pub dropped_wraps: Ghost<nat>,
    /// How often `woken` has wrapped.
    pub woken_wraps: Ghost<nat>,
}

impl View for Wakey {
    type V = Counts;

    open spec fn view(&self) -> Counts {
        Counts {
            cloned: self.cloned_wraps@ * 0x10000 + self.cloned as nat,
            dropped: self.dropped_wraps@ * 0x10000 + self.dropped as nat,
            woken: self.woken_wraps@ * 0x10000 + self.woken as nat,
        }
    }
}

/// The snapshot a harness reports for a given counter block.
pub open spec fn spec_stats(w: Wakey) -> Stats {
    Stats { cloned: w.cloned, dropped: w.dropped, woken: w.woken }
}

/// A suspension-handle token.
///
/// The token itself carries no authority: every operation on it goes
/// through exclusive access to the [`Wakey`] it was minted from, which
/// is what makes the protocol race-free without any atomics.  Waking by
/// value and dropping consume the token, so a well-behaved task releases
/// each clone exactly once; the counters themselves tolerate a malformed
/// caller that reports more drops than clones.
pub struct Handle;

impl Wakey {
    /// A fresh counter block with every count at zero.
    pub fn new() -> (w: Wakey)
        ensures
            w.cloned == 0,
            w.dropped == 0,
            w.woken == 0,
            w@ == (Counts { cloned: 0, dropped: 0, woken: 0 }),
    {
        Wakey {
            cloned: 0,
            dropped: 0,
            woken: 0,
            cloned_wraps: Ghost(0nat),
            dropped_wraps: Ghost(0nat),
            woken_wraps: Ghost(0nat),
        }
    }

    /// Every counter is at least what it was: the relation every handle
    /// operation, and hence every poll, maintains.
    pub open spec fn evolves_to(self, post: Wakey) -> bool {
        &&& self@.cloned <= post@.cloned
        &&& self@.dropped <= post@.dropped
        &&& self@.woken <= post@.woken
    }

    /// Records one clone event and nothing else.
    pub fn bump_cloned(&mut self)
        ensures
            final(self)@.cloned == old(self)@.cloned + 1,
            final(self)@.dropped == old(self)@.dropped,
            final(self)@.woken == old(self)@.woken,
            final(self).cloned == wrapping_inc16(old(self).cloned),
            final(self).dropped == old(self).dropped,
            final(self).woken == old(self).woken,
            old(self).evolves_to(*final(self)),
    {
        if self.cloned == 0xFFFF {
            self.cloned = 0;
            proof {
                self.cloned_wraps@ = self.cloned_wraps@ + 1;
            }
        } else {
            self.cloned = self.cloned + 1;
        }
    }

    /// Records one drop event and nothing else.
    pub fn bump_dropped(&mut self)
        ensures
            final(self)@.cloned == old(self)@.cloned,
            final(self)@.dropped == old(self)@.dropped + 1,
            final(self)@.woken == old(self)@.woken,
            final(self).cloned == old(self).cloned,
            final(self).dropped == wrapping_inc16(old(self).dropped),
            final(self).woken == old(self).woken,
            old(self).evolves_to(*final(self)),
    {
        if self.dropped == 0xFFFF {
            self.dropped = 0;
            proof {
                self.dropped_wraps@ = self.dropped_wraps@ + 1;
            }
        } else {
            self.dropped = self.dropped + 1;
        }
    }

    /// Records one wake event and nothing else.
    pub fn bump_woken(&mut self)
        ensures
            final(self)@.cloned == old(self)@.cloned,
            final(self)@.dropped == old(self)@.dropped,
            final(self)@.woken == old(self)@.woken + 1,
            final(self).cloned == old(self).cloned,
            final(self).dropped == old(self).dropped,
            final(self).woken == wrapping_inc16(old(self).woken),
            old(self).evolves_to(*final(self)),
    {
        if self.woken == 0xFFFF {
            self.woken = 0;
            proof {
                self.woken_wraps@ = self.woken_wraps@ + 1;
            }
        } else {
            self.woken = self.woken + 1;
        }
    }

    /// Duplicates the waker: one clone event, and a new token to release.
    pub fn clone_handle(&mut self) -> (h: Handle)
        ensures
            final(self)@.cloned == old(self)@.cloned + 1,
            final(self)@.dropped == old(self)@.dropped,
            final(self)@.woken == old(self)@.woken,
            final(self).cloned == wrapping_inc16(old(self).cloned),
            final(self).dropped == old(self).dropped,
            final(self).woken == old(self).woken,
            old(self).evolves_to(*final(self)),
    {
        self.bump_cloned();
        Handle
    }

    /// Wakes by value: one wake event, then one drop event, since the
    /// token is consumed and is no longer usable afterwards.
    pub fn wake(&mut self, _handle: Handle)
        ensures
            final(self)@.cloned == old(self)@.cloned,
            final(self)@.dropped == old(self)@.dropped + 1,
            final(self)@.woken == old(self)@.woken + 1,
            final(self).cloned == old(self).cloned,
            final(self).dropped == wrapping_inc16(old(self).dropped),
            final(self).woken == wrapping_inc16(old(self).woken),
            old(self).evolves_to(*final(self)),
    {
        self.bump_woken();
        self.bump_dropped();
    }

    /// Wakes by reference: one wake event only.  Works for the waker
    /// lent to the poll and for any clone; a cloned token must still be
    /// released separately.
    pub fn wake_by_ref(&mut self)
        ensures
            final(self)@.cloned == old(self)@.cloned,
            final(self)@.dropped == old(self)@.dropped,
            final(self)@.woken == old(self)@.woken + 1,
            final(self).cloned == old(self).cloned,
            final(self).dropped == old(self).dropped,
            final(self).woken == wrapping_inc16(old(self).woken),
            old(self).evolves_to(*final(self)),
    {
        self.bump_woken();
    }

    /// Releases the token: one drop event.
    pub fn drop_handle(&mut self, _handle: Handle)
        ensures
            final(self)@.cloned == old(self)@.cloned,
            final(self)@.dropped == old(self)@.dropped + 1,
            final(self)@.woken == old(self)@.woken,
            final(self).cloned == old(self).cloned,
            final(self).dropped == wrapping_inc16(old(self).dropped),
            final(self).woken == old(self).woken,
            old(self).evolves_to(*final(self)),
    {
        self.bump_dropped();
    }
}

/// Law: the counters are monotonically non-decreasing across any
/// sequence of handle operations.  Each single operation ensures
/// `evolves_to`; this transitivity carries it over a whole sequence.
pub proof fn lemma_evolves_trans(a: Wakey, b: Wakey, c: Wakey)
    requires
        a.evolves_to(b),
        b.evolves_to(c),
    ensures
        a.evolves_to(c),
{
}

/// Law: reading statistics is pure.  A snapshot is a function of the
/// counter state alone, so two reads with no operation between them
/// yield identical values.
pub proof fn lemma_stats_pure(a: Wakey, b: Wakey)
    requires
        a == b,
    ensures
        spec_stats(a) == spec_stats(b),
        wrapping_sub16(a.cloned, a.dropped) == wrapping_sub16(b.cloned, b.dropped),
{
}

/// The abstract counts determine the wrapped `u16` counters: a counter
/// that did not change abstractly did not change on screen either.
pub proof fn lemma_counts_pin_counters(a: Wakey, b: Wakey)
    ensures
        a@.cloned == b@.cloned ==> a.cloned == b.cloned,
        a@.dropped == b@.dropped ==> a.dropped == b.dropped,
        a@.woken == b@.woken ==> a.woken == b.woken,
{
    if a@.cloned == b@.cloned {
        assert(a.cloned == b.cloned) by (nonlinear_arith)
            requires
                a.cloned_wraps@ * 0x10000 + a.cloned as nat == b.cloned_wraps@ * 0x10000
                    + b.cloned as nat,
                a.cloned < 0x10000,
                b.cloned < 0x10000,
        ;
    }
    if a@.dropped == b@.dropped {
        assert(a.dropped == b.dropped) by (nonlinear_arith)
            requires
                a.dropped_wraps@ * 0x10000 + a.dropped as nat == b.dropped_wraps@ * 0x10000
                    + b.dropped as nat,
                a.dropped < 0x10000,
                b.dropped < 0x10000,
        ;
    }
    if a@.woken == b@.woken {
        assert(a.woken == b.woken) by (nonlinear_arith)
            requires
                a.woken_wraps@ * 0x10000 + a.woken as nat == b.woken_wraps@ * 0x10000
                    + b.woken as nat,
                a.woken < 0x10000,
                b.woken < 0x10000,
        ;
    }
}

} // verus!

