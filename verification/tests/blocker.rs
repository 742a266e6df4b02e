use monkeys::{set_notifier, CoroutineId, CoroutineState, ExternalBlocker, ExternalNotifier, Scheduler};

struct Wakes(Vec<usize>);

impl ExternalNotifier for Wakes {
    fn poll(&self, blocker: &mut ExternalBlocker) {
        for &id in &self.0 {
            blocker.unblock_with(CoroutineId::from_usize(id));
        }
    }
}

#[test]
fn blocker_records_requests_in_order() {
    let mut b = ExternalBlocker::new();
    assert_eq!(b.len(), 0);
    b.unblock_with(CoroutineId(7));
    b.unblock_with(CoroutineId(3));
    assert_eq!(b.len(), 2);
    assert_eq!(b.at(0), CoroutineId(7));
    assert_eq!(b.at(1), CoroutineId(3));
}

#[test]
fn unit_notifier_wakes_nobody() {
    let mut sc: Scheduler<&str> = Scheduler::new();
    sc.add_co(CoroutineId(0), "waiter");
    let (id, h) = sc.pop_ready().unwrap();
    sc.settle(id, h, CoroutineState::BlockedOnCo(CoroutineId(9)), CoroutineId(5));
    sc.poll_notifier();
    assert!(sc.has_waiter(CoroutineId(9)));
    assert_eq!(sc.work_queue_len(), 0);
}

#[test]
fn notifier_wakes_waiters_in_order() {
    let mut sc: Scheduler<&str> = Scheduler::new();
    sc.add_co(CoroutineId(0), "a");
    sc.add_co(CoroutineId(1), "b");
    sc.add_co(CoroutineId(2), "c");
    // a waits on 10, b waits on 11, c waits on 12
    for on in 10..13 {
        let (id, h) = sc.pop_ready().unwrap();
        sc.settle(id, h, CoroutineState::BlockedOnCo(CoroutineId(on)), CoroutineId(99));
    }
    assert_eq!(sc.blocked_len(), 3);
    set_notifier(&mut sc, Box::new(Wakes(vec![12, 40, 10, 12])));
    sc.poll_notifier();
    assert_eq!(sc.blocked_len(), 1);
    assert!(sc.has_waiter(CoroutineId(11)));
    assert_eq!(sc.pop_ready(), Some((CoroutineId(2), "c")));
    assert_eq!(sc.pop_ready(), Some((CoroutineId(0), "a")));
    assert_eq!(sc.pop_ready(), None);
}

#[test]
fn unblock_twice_is_once() {
    let mut sc: Scheduler<&str> = Scheduler::new();
    sc.add_co(CoroutineId(0), "a");
    let (id, h) = sc.pop_ready().unwrap();
    sc.settle(id, h, CoroutineState::BlockedOnCo(CoroutineId(4)), CoroutineId(99));
    sc.unblock(CoroutineId(4));
    sc.unblock(CoroutineId(4));
    assert_eq!(sc.work_queue_len(), 1);
    assert_eq!(sc.blocked_len(), 0);
}

#[test]
fn poll_hands_back_what_was_named() {
    let mut sc: Scheduler<&str> = Scheduler::new();
    set_notifier(&mut sc, Box::new(Wakes(vec![3, 1])));
    let named = sc.poll_notifier();
    assert_eq!(named.len(), 2);
    assert_eq!(named.at(0), CoroutineId(3));
    assert_eq!(named.at(1), CoroutineId(1));
}

#[test]
fn wake_named_wakes_in_order_given() {
    let mut sc: Scheduler<&str> = Scheduler::new();
    sc.add_co(CoroutineId(0), "a");
    sc.add_co(CoroutineId(1), "b");
    for on in 10..12 {
        let (id, h) = sc.pop_ready().unwrap();
        sc.settle(id, h, CoroutineState::BlockedOnCo(CoroutineId(on)), CoroutineId(99));
    }
    let mut named = ExternalBlocker::new();
    named.unblock_with(CoroutineId(11));
    named.unblock_with(CoroutineId(10));
    named.unblock_with(CoroutineId(11));
    sc.wake_named(&named);
    assert_eq!(sc.pop_ready(), Some((CoroutineId(1), "b")));
    assert_eq!(sc.pop_ready(), Some((CoroutineId(0), "a")));
    assert_eq!(sc.pop_ready(), None);
}

#[test]
fn new_scheduler_polls_nobody_and_notifier_can_be_swapped() {
    let mut sc: Scheduler<&str> = Scheduler::new();
    assert_eq!(sc.poll_notifier().len(), 0);
    assert!(sc.replace_notifier(Some(Box::new(Wakes(vec![5])))).is_none());
    let named = monkeys::poll_with(&sc.replace_notifier(None));
    assert_eq!(named.len(), 1);
    assert_eq!(sc.poll_notifier().len(), 0);
}
