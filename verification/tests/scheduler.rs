use monkeys::{AfterRun, CoroutineId, CoroutineState, Scheduler, Stream};

fn assert_idle<H>(sc: &Scheduler<H>) {
    assert_eq!(sc.work_queue_len(), 0);
    assert_eq!(sc.blocked_len(), 0);
    assert_eq!(sc.ready_to_yield_len(), 0);
    assert_eq!(sc.completed_len(), 0);
}

#[test]
fn new_scheduler_is_idle() {
    let sc: Scheduler<u32> = Scheduler::new();
    assert_idle(&sc);
    assert!(!sc.has_completed(CoroutineId(0)));
    assert!(!sc.has_yielded(CoroutineId(0)));
}

#[test]
fn lone_coroutine_result_leaves_scheduler_idle() {
    let mut sc: Scheduler<u32> = Scheduler::new();
    let id = CoroutineId(0);
    let stream: Stream<(), u32> = Stream::for_coroutine(id);
    sc.add_co(id, 3);
    sc.requeue_yielded(id);
    let (ran, h) = sc.pop_ready().unwrap();
    assert_eq!(ran, id);
    let next = sc.settle(ran, h, CoroutineState::Complete, id);
    assert!(matches!(next, AfterRun::WaitOver));
    assert!(sc.has_completed(id));
    assert_eq!(stream.get(&mut sc), 3);
    assert_idle(&sc);
}

#[test]
fn awaiting_coroutine_is_woken_by_completion() {
    let mut sc: Scheduler<&str> = Scheduler::new();
    let outer = CoroutineId(0);
    let inner = CoroutineId(1);
    sc.add_co(outer, "outer");
    // the outer one runs, starts the inner one and awaits it
    let (id, h) = sc.pop_ready().unwrap();
    sc.add_co(inner, "inner");
    let next = sc.settle(id, h, CoroutineState::BlockedOnCo(inner), outer);
    assert!(matches!(next, AfterRun::KeepGoing));
    assert!(sc.has_waiter(inner));
    // the inner one completes and wakes the outer one
    let (id, h) = sc.pop_ready().unwrap();
    assert_eq!(id, inner);
    let next = sc.settle(id, h, CoroutineState::Complete, outer);
    assert!(matches!(next, AfterRun::KeepGoing));
    assert!(sc.has_completed(inner));
    assert_eq!(sc.blocked_len(), 0);
    // the outer one takes the inner result and completes
    let (id, h) = sc.pop_ready().unwrap();
    assert_eq!((id, h), (outer, "outer"));
    assert_eq!(sc.take_completed(inner), "inner");
    let next = sc.settle(id, h, CoroutineState::Complete, outer);
    assert!(matches!(next, AfterRun::WaitOver));
    assert_eq!(sc.take_completed(outer), "outer");
    assert_eq!(sc.work_queue_len(), 0);
    assert_eq!(sc.ready_to_yield_len(), 0);
    assert_eq!(sc.completed_len(), 0);
}

#[test]
fn unwanted_completion_is_let_go() {
    let mut sc: Scheduler<u32> = Scheduler::new();
    sc.add_co(CoroutineId(5), 5);
    let (id, h) = sc.pop_ready().unwrap();
    let next = sc.settle(id, h, CoroutineState::Complete, CoroutineId(6));
    assert!(matches!(next, AfterRun::Release(5)));
    assert_idle(&sc);
}

#[test]
fn unwanted_yield_is_handed_back_to_unwind() {
    let mut sc: Scheduler<u32> = Scheduler::new();
    sc.add_co(CoroutineId(5), 55);
    let (id, h) = sc.pop_ready().unwrap();
    let next = sc.settle(id, h, CoroutineState::ReadyToYield, CoroutineId(6));
    assert!(matches!(next, AfterRun::Kill(55)));
    assert_idle(&sc);
}

#[test]
fn yield_to_a_waiter_wakes_it() {
    let mut sc: Scheduler<&str> = Scheduler::new();
    sc.add_co(CoroutineId(0), "reader");
    let (id, h) = sc.pop_ready().unwrap();
    sc.settle(id, h, CoroutineState::BlockedOnCo(CoroutineId(1)), CoroutineId(9));
    sc.add_co(CoroutineId(1), "writer");
    let (id, h) = sc.pop_ready().unwrap();
    let next = sc.settle(id, h, CoroutineState::ReadyToYield, CoroutineId(9));
    assert!(matches!(next, AfterRun::KeepGoing));
    assert!(sc.has_yielded(CoroutineId(1)));
    assert_eq!(sc.pop_ready(), Some((CoroutineId(0), "reader")));
}

#[test]
fn second_waiter_replaces_the_first() {
    let mut sc: Scheduler<&str> = Scheduler::new();
    sc.add_co(CoroutineId(0), "first");
    sc.add_co(CoroutineId(1), "second");
    let (id, h) = sc.pop_ready().unwrap();
    sc.settle(id, h, CoroutineState::BlockedOnCo(CoroutineId(7)), CoroutineId(9));
    let (id, h) = sc.pop_ready().unwrap();
    let next = sc.settle(id, h, CoroutineState::BlockedOnCo(CoroutineId(7)), CoroutineId(9));
    assert!(matches!(next, AfterRun::Release("first")));
    assert_eq!(sc.blocked_len(), 1);
    sc.unblock(CoroutineId(7));
    assert_eq!(sc.pop_ready(), Some((CoroutineId(1), "second")));
}

#[test]
fn stream_of_yields_then_end_clears_scheduler() {
    let mut sc: Scheduler<u32> = Scheduler::new();
    let id = CoroutineId(3);
    let mut stream: Stream<u32, ()> = Stream::for_coroutine(id);
    sc.add_co(id, 0);
    let mut got = Vec::new();
    loop {
        assert!(!stream.is_done());
        sc.requeue_yielded(id);
        let (ran, h) = sc.pop_ready().unwrap();
        assert_eq!(ran, id);
        // the handle counts the values it has yielded
        let state = if h < 5 { CoroutineState::ReadyToYield } else { CoroutineState::Complete };
        let next = sc.settle(ran, h + 1, state, id);
        assert!(matches!(next, AfterRun::WaitOver));
        let item = match sc.get_yield_for(id) {
            None => None,
            Some(h) => {
                let v = h - 1;
                sc.restore_yielded(id, h);
                Some(v)
            }
        };
        match stream.record_next(item) {
            Some(v) => got.push(v),
            None => break,
        }
    }
    assert!(stream.is_done());
    assert_eq!(got, vec![0, 1, 2, 3, 4]);
    assert_idle(&sc);
}

#[test]
fn requeue_of_absent_coroutine_changes_nothing() {
    let mut sc: Scheduler<u32> = Scheduler::new();
    sc.requeue_yielded(CoroutineId(1));
    assert_idle(&sc);
}

#[test]
fn dropping_a_stream_forgets_its_coroutine() {
    let mut sc: Scheduler<u32> = Scheduler::new();
    let id = CoroutineId(2);
    let stream: Stream<u32, ()> = Stream::for_coroutine(id);
    sc.add_co(id, 20);
    let (ran, h) = sc.pop_ready().unwrap();
    sc.settle(ran, h, CoroutineState::ReadyToYield, id);
    assert!(sc.has_yielded(id));
    let gone = stream.release(&mut sc);
    assert_eq!(gone, (None, Some(20)));
    assert_idle(&sc);
    assert_eq!(stream.release(&mut sc), (None, None));
}

#[test]
fn drop_co_hands_back_a_completed_coroutine() {
    let mut sc: Scheduler<u32> = Scheduler::new();
    let id = CoroutineId(2);
    sc.add_co(id, 2);
    let (ran, h) = sc.pop_ready().unwrap();
    sc.settle(ran, h, CoroutineState::Complete, id);
    assert_eq!(sc.drop_co(id), (Some(2), None));
    assert_idle(&sc);
    assert_eq!(sc.drop_co(id), (None, None));
}

#[test]
fn filing_follows_the_coroutine() {
    let mut sc: Scheduler<u32> = Scheduler::new();
    let id = CoroutineId(6);
    assert!(!sc.is_filed(id));
    sc.add_co(id, 1);
    assert!(sc.is_filed(id));
    let (ran, h) = sc.pop_ready().unwrap();
    assert!(!sc.is_filed(id));
    sc.settle(ran, h, CoroutineState::BlockedOnCo(CoroutineId(7)), id);
    assert!(sc.is_filed(id));
    sc.unblock(CoroutineId(7));
    assert!(sc.is_filed(id));
    let (ran, h) = sc.pop_ready().unwrap();
    sc.settle(ran, h, CoroutineState::ReadyToYield, id);
    assert!(sc.is_filed(id));
    let lent = sc.get_yield_for(id).unwrap();
    assert!(!sc.is_filed(id));
    sc.restore_yielded(id, lent);
    assert!(sc.is_filed(id));
    sc.drop_co(id);
    assert!(!sc.is_filed(id));
}

#[test]
fn displaced_waiter_is_let_go() {
    let mut sc: Scheduler<&str> = Scheduler::new();
    sc.add_co(CoroutineId(0), "first");
    sc.add_co(CoroutineId(1), "second");
    let (id, h) = sc.pop_ready().unwrap();
    sc.settle(id, h, CoroutineState::BlockedOnCo(CoroutineId(7)), CoroutineId(9));
    let (id, h) = sc.pop_ready().unwrap();
    sc.settle(id, h, CoroutineState::BlockedOnCo(CoroutineId(7)), CoroutineId(9));
    assert!(!sc.is_filed(CoroutineId(0)));
    assert!(sc.is_filed(CoroutineId(1)));
}

#[test]
fn releasing_an_external_stream_changes_nothing() {
    let mut sc: Scheduler<u32> = Scheduler::new();
    let mut counter = monkeys::IdCounter::new();
    let (id, stream) = monkeys::new_empty_stream(&mut counter);
    sc.add_co(id, 1);
    let (ran, h) = sc.pop_ready().unwrap();
    sc.settle(ran, h, CoroutineState::Complete, id);
    assert_eq!(stream.release(&mut sc), (None, None));
    assert!(sc.has_completed(id));
}

#[test]
fn finished_coroutine_gives_no_more_values() {
    let mut sc: Scheduler<u32> = Scheduler::new();
    let id = CoroutineId(4);
    sc.add_co(id, 1);
    let (ran, h) = sc.pop_ready().unwrap();
    sc.settle(ran, h, CoroutineState::Complete, id);
    assert_eq!(sc.get_yield_for(id), None);
    assert_idle(&sc);
}

#[test]
fn done_stream_asks_nobody() {
    let mut stream: Stream<u32, ()> = Stream::for_coroutine(CoroutineId(8));
    assert_eq!(stream.next_source(), Some(CoroutineId(8)));
    assert_eq!(stream.record_next(Some(1)), Some(1));
    assert_eq!(stream.next_source(), Some(CoroutineId(8)));
    assert_eq!(stream.record_next::<u32>(None), None);
    assert_eq!(stream.next_source(), None);
    assert_eq!(stream.record_next(Some(2)), None);
    assert!(stream.is_done());
}
