//! Snapshots, the live-handle derivation, wraparound at the counter
//! width, and the assertion helpers.

use wookie::{assert_pending, assert_ready, Handle, Local, Poll, Stats, Task, Wakey};

/// Clones and immediately releases its waker a fixed number of times in
/// a single poll.
struct ChurnClones {
    rounds: u32,
}

impl Task for ChurnClones {
    type Output = ();

    fn advance(&mut self, waker: &mut Wakey) -> Poll<()> {
        for _ in 0..self.rounds {
            let handle = waker.clone_handle();
            waker.drop_handle(handle);
        }
        Poll::Pending
    }
}

/// Releases a handle it never cloned: a malformed task the counters
/// must tolerate.
struct OverDrop;

impl Task for OverDrop {
    type Output = ();

    fn advance(&mut self, waker: &mut Wakey) -> Poll<()> {
        waker.drop_handle(Handle);
        Poll::Pending
    }
}

#[test]
fn stats_snapshot_matches_getters() {
    let mut h = Local::new(ChurnClones { rounds: 3 });
    assert_eq!(h.poll(), Poll::Pending);
    let s = h.stats();
    assert_eq!(s.cloned, 3);
    assert_eq!(s.dropped, 3);
    assert_eq!(s.woken, 0);
    assert_eq!((s.cloned, s.dropped, s.woken), (h.cloned(), h.dropped(), h.woken()));
    // A contract-level helper: its checks live in its requires, which are
    // erased here, so the assert_eq lines above carry the runtime check.
    s.assert_counts(3, 3, 0);
}

#[test]
fn stats_twice_without_operations_are_identical() {
    let mut h = Local::new(ChurnClones { rounds: 2 });
    h.poll();
    let first = h.stats();
    let second = h.stats();
    assert_eq!(first, second);
    assert_eq!(first.live(), second.live());
}

#[test]
fn stats_live_subtracts() {
    let s = Stats { cloned: 5, dropped: 2, woken: 9 };
    assert_eq!(s.live(), 3);
    let t = Stats { cloned: 4, dropped: 4, woken: 0 };
    assert_eq!(t.live(), 0);
}

#[test]
fn stats_live_wraps_on_underflow() {
    let s = Stats { cloned: 1, dropped: 3, woken: 0 };
    assert_eq!(s.live(), 0xFFFE);
}

#[test]
fn counters_wrap_at_the_width() {
    let mut h = Local::new(ChurnClones { rounds: 0x10000 });
    assert_eq!(h.poll(), Poll::Pending);
    assert_eq!(h.cloned(), 0);
    assert_eq!(h.dropped(), 0);
    assert_eq!(h.live(), 0);

    let mut g = Local::new(ChurnClones { rounds: 0x10001 });
    assert_eq!(g.poll(), Poll::Pending);
    assert_eq!(g.cloned(), 1);
    assert_eq!(g.dropped(), 1);
    assert_eq!(g.live(), 0);
}

#[test]
fn over_dropping_wraps_the_live_count() {
    let mut h = Local::new(OverDrop);
    assert_eq!(h.poll(), Poll::Pending);
    assert_eq!(h.cloned(), 0);
    assert_eq!(h.dropped(), 1);
    assert_eq!(h.live(), 0xFFFF);
}

#[test]
fn assertion_helpers() {
    assert_pending(&Poll::<u32>::Pending);
    assert_eq!(assert_ready(Poll::Ready(42)), 42);
    let v: u16 = assert_ready(Poll::Ready(7));
    assert_eq!(v, 7);
}
