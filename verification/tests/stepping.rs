//! Driving tasks through the three harness variants and watching the
//! waker counters.

use wookie::{Countdown, Dummy, Handle, Local, Poll, Task, Wakey, Wookie};

/// Completes immediately without touching its waker.
struct Done(u16);

impl Task for Done {
    type Output = u16;

    fn advance(&mut self, _waker: &mut Wakey) -> Poll<u16> {
        Poll::Ready(self.0)
    }
}

/// Clones its waker once, stores the clone, and stays pending.
struct CloneAndStash {
    stash: Option<Handle>,
}

impl Task for CloneAndStash {
    type Output = ();

    fn advance(&mut self, waker: &mut Wakey) -> Poll<()> {
        self.stash = Some(waker.clone_handle());
        Poll::Pending
    }
}

/// Clones its waker, wakes the clone by reference, drops it, and stays
/// pending.
struct CloneWakeRefDrop;

impl Task for CloneWakeRefDrop {
    type Output = ();

    fn advance(&mut self, waker: &mut Wakey) -> Poll<()> {
        let handle = waker.clone_handle();
        waker.wake_by_ref();
        waker.drop_handle(handle);
        Poll::Pending
    }
}

/// Clones its waker and wakes the clone by value, consuming it.
struct CloneWakeValue;

impl Task for CloneWakeValue {
    type Output = ();

    fn advance(&mut self, waker: &mut Wakey) -> Poll<()> {
        let handle = waker.clone_handle();
        waker.wake(handle);
        Poll::Pending
    }
}

/// Never wakes and never completes, but counts its advances.
struct NeverWake {
    advances: u32,
}

impl Task for NeverWake {
    type Output = ();

    fn advance(&mut self, _waker: &mut Wakey) -> Poll<()> {
        self.advances += 1;
        Poll::Pending
    }
}

#[test]
fn immediate_task_local() {
    let mut h = Local::new(Done(42));
    assert_eq!(h.poll(), Poll::Ready(42));
    assert_eq!(h.cloned(), 0);
    assert_eq!(h.dropped(), 0);
    assert_eq!(h.woken(), 0);
    assert_eq!(h.live(), 0);
}

#[test]
fn immediate_task_wookie() {
    let mut h = Wookie::new(Done(7));
    assert_eq!(h.poll(), Poll::Ready(7));
    assert_eq!(h.cloned(), 0);
    assert_eq!(h.dropped(), 0);
    assert_eq!(h.woken(), 0);
    assert_eq!(h.live(), 0);
}

#[test]
fn immediate_task_dummy() {
    let mut h = Dummy::new(Done(9));
    assert_eq!(h.poll(), Poll::Ready(9));
}

#[test]
fn clone_and_stash_counts_one_live() {
    let mut h = Local::new(CloneAndStash { stash: None });
    assert_eq!(h.poll(), Poll::Pending);
    assert_eq!(h.cloned(), 1);
    assert_eq!(h.dropped(), 0);
    assert_eq!(h.live(), 1);
    assert!(h.task.stash.is_some());
}

#[test]
fn clone_wake_ref_drop_counts() {
    let mut h = Local::new(CloneWakeRefDrop);
    assert_eq!(h.poll(), Poll::Pending);
    assert_eq!(h.cloned(), 1);
    assert_eq!(h.woken(), 1);
    assert_eq!(h.dropped(), 1);
    assert_eq!(h.live(), 0);
}

#[test]
fn wake_by_value_counts_wake_and_drop() {
    let mut h = Wookie::new(CloneWakeValue);
    assert_eq!(h.poll(), Poll::Pending);
    assert_eq!(h.cloned(), 1);
    assert_eq!(h.woken(), 1);
    assert_eq!(h.dropped(), 1);
    assert_eq!(h.live(), 0);
}

#[test]
fn countdown_advances_n_plus_one_times() {
    let mut h = Local::new(Countdown { remaining: 3, polls: 0 });
    assert_eq!(h.poll_while_woken(), Poll::Ready(4));
    assert_eq!(h.task.polls, 4);
    assert_eq!(h.woken(), 3);
    assert_eq!(h.cloned(), 0);
    assert_eq!(h.dropped(), 0);
}

#[test]
fn countdown_zero_completes_on_first_poll() {
    let mut h = Wookie::new(Countdown { remaining: 0, polls: 0 });
    assert_eq!(h.poll_while_woken(), Poll::Ready(1));
    assert_eq!(h.woken(), 0);
    assert_eq!(h.task.polls, 1);
}

#[test]
fn never_waking_task_gets_exactly_one_advance() {
    let mut h = Local::new(NeverWake { advances: 0 });
    assert_eq!(h.poll_while_woken(), Poll::Pending);
    assert_eq!(h.task.advances, 1);
    assert_eq!(h.woken(), 0);
}

#[test]
fn dummy_polls_change_only_the_task() {
    let mut h = Dummy::new(NeverWake { advances: 0 });
    assert_eq!(h.poll(), Poll::Pending);
    assert_eq!(h.poll(), Poll::Pending);
    assert_eq!(h.task.advances, 2);
}

#[test]
fn dummy_discards_waker_traffic() {
    let mut h = Dummy::new(CloneWakeRefDrop);
    assert_eq!(h.poll(), Poll::Pending);
    assert_eq!(h.poll(), Poll::Pending);
}

#[test]
fn cross_variant_counter_sequences_agree() {
    let mut a = Local::new(Countdown { remaining: 5, polls: 0 });
    let mut b = Wookie::new(Countdown { remaining: 5, polls: 0 });
    for _ in 0..6 {
        assert_eq!(a.poll(), b.poll());
        assert_eq!(a.cloned(), b.cloned());
        assert_eq!(a.dropped(), b.dropped());
        assert_eq!(a.woken(), b.woken());
        assert_eq!(a.live(), b.live());
        assert_eq!(a.stats(), b.stats());
    }
    assert_eq!(a.task.polls, b.task.polls);

    let mut c = Local::new(CloneWakeRefDrop);
    let mut d = Wookie::new(CloneWakeRefDrop);
    for _ in 0..4 {
        assert_eq!(c.poll(), d.poll());
        assert_eq!(c.stats(), d.stats());
        assert_eq!(c.live(), d.live());
    }
}

#[test]
fn counters_never_decrease() {
    let mut h = Local::new(CloneWakeRefDrop);
    let mut last = (h.cloned(), h.dropped(), h.woken());
    for _ in 0..5 {
        h.poll();
        let next = (h.cloned(), h.dropped(), h.woken());
        assert!(next.0 >= last.0);
        assert!(next.1 >= last.1);
        assert!(next.2 >= last.2);
        last = next;
    }
}
