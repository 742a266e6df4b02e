use vstd::prelude::*;

use crate::id::CoroutineId;
use crate::scheduler::{AfterRun, CoroutineState, SchedulerView};

verus! {

/// When the coroutine that the loop waits for has just completed or
/// yielded, the wait is over, whatever else the scheduler holds (the work
/// queue, the waiters, the tables); the coroutine is kept where the caller
/// looks for it: among the completed, or among the yielding ones.
pub proof fn awaited_run_ends_the_wait<H>(s: SchedulerView<H>, id: CoroutineId, co: H)
    ensures
        s.after_run(id, co, CoroutineState::Complete, id) == AfterRun::<H>::WaitOver,
        s.settled(id, co, CoroutineState::Complete, id).completed.contains_key(id.0),
        s.settled(id, co, CoroutineState::Complete, id).completed[id.0] == co,
        s.after_run(id, co, CoroutineState::ReadyToYield, id) == AfterRun::<H>::WaitOver,
        s.settled(id, co, CoroutineState::ReadyToYield, id).ready.contains_key(id.0),
        s.settled(id, co, CoroutineState::ReadyToYield, id).ready[id.0] == co,
{
}

/// A coroutine that completes or yields while another waits on it always
/// wakes that waiter, whatever the work queue holds: the waiter goes to the
/// back of the queue and leaves the waiting table, and the coroutine is kept
/// (completed, or yielding) under its own number.
pub proof fn finishing_wakes_the_waiter<H>(
    s: SchedulerView<H>,
    id: CoroutineId,
    co: H,
    wait_id: CoroutineId,
)
    requires
        s.blocked.contains_key(id.0),
    ensures
        ({
            let t = s.settled(id, co, CoroutineState::Complete, wait_id);
            &&& t.queue == s.queue.push(s.blocked[id.0])
            &&& t.blocked == s.blocked.remove(id.0)
            &&& t.completed == s.completed.insert(id.0, co)
            &&& t.ready == s.ready
        }),
        ({
            let t = s.settled(id, co, CoroutineState::ReadyToYield, wait_id);
            &&& t.queue == s.queue.push(s.blocked[id.0])
            &&& t.blocked == s.blocked.remove(id.0)
            &&& t.completed == s.completed
            &&& t.ready == s.ready.insert(id.0, co)
        }),
        id != wait_id ==> s.after_run(id, co, CoroutineState::Complete, wait_id)
            == AfterRun::<H>::KeepGoing && s.after_run(id, co, CoroutineState::ReadyToYield, wait_id)
            == AfterRun::<H>::KeepGoing,
{
}

/// What nobody wants is handed back and nothing is filed: a completed
/// coroutine to be dropped, a yielding one to be unwound.
pub proof fn unwanted_runs_are_handed_back<H>(
    s: SchedulerView<H>,
    id: CoroutineId,
    co: H,
    wait_id: CoroutineId,
)
    requires
        !s.blocked.contains_key(id.0),
        id != wait_id,
    ensures
        s.settled(id, co, CoroutineState::Complete, wait_id) == s,
        s.after_run(id, co, CoroutineState::Complete, wait_id) == AfterRun::Release(co),
        s.settled(id, co, CoroutineState::ReadyToYield, wait_id) == s,
        s.after_run(id, co, CoroutineState::ReadyToYield, wait_id) == AfterRun::Kill(co),
{
    assert(s.blocked.remove(id.0) =~= s.blocked);
    assert(s.settled(id, co, CoroutineState::Complete, wait_id) =~= s);
}

/// A coroutine that waits on another is filed as the waiter of that one,
/// and nothing else moves; a waiter it displaces is handed back.
pub proof fn waiting_files_under_the_awaited<H>(
    s: SchedulerView<H>,
    id: CoroutineId,
    co: H,
    on: CoroutineId,
    wait_id: CoroutineId,
)
    ensures
        ({
            let t = s.settled(id, co, CoroutineState::BlockedOnCo(on), wait_id);
            &&& t.blocked == s.blocked.insert(on.0, (id, co))
            &&& t.queue == s.queue
            &&& t.completed == s.completed
            &&& t.ready == s.ready
        }),
        s.after_run(id, co, CoroutineState::BlockedOnCo(on), wait_id) == (if s.blocked.contains_key(
            on.0,
        ) {
            AfterRun::Release(s.blocked[on.0].1)
        } else {
            AfterRun::<H>::KeepGoing
        }),
{
}

/// Starting a wait on a coroutine that sits among the yielding ones always
/// puts it at the back of the work queue, whatever the queue holds, so that
/// it runs on to its next value; otherwise nothing changes.
pub proof fn starting_a_wait_requeues_the_awaited<H>(s: SchedulerView<H>, wait_id: CoroutineId)
    ensures
        s.ready.contains_key(wait_id.0) ==> {
            let t = s.requeued(wait_id);
            &&& t.queue == s.queue.push((wait_id, s.ready[wait_id.0]))
            &&& t.ready == s.ready.remove(wait_id.0)
            &&& t.blocked == s.blocked
            &&& t.completed == s.completed
        },
        !s.ready.contains_key(wait_id.0) ==> s.requeued(wait_id) == s,
{
}

/// Waking the waiters of the coroutines named: afterwards no named
/// coroutine has a waiter left, every other waiter stays as it was, and
/// every waiter that left the waiting table is in the work queue.
pub proof fn naming_wakes_every_named_waiter<H>(s: SchedulerView<H>, ids: Seq<CoroutineId>)
    ensures
        forall|k: usize| #[trigger]
            s.unblock_all(ids).blocked.contains_key(k) <==> s.blocked.contains_key(k) && forall|j: int|
                0 <= j < ids.len() ==> #[trigger] ids[j].0 != k,
        forall|k: usize| #[trigger]
            s.unblock_all(ids).blocked.contains_key(k) ==> s.unblock_all(ids).blocked[k]
                == s.blocked[k],
        forall|k: usize|
            s.blocked.contains_key(k) && !s.unblock_all(ids).blocked.contains_key(k)
                ==> #[trigger] s.unblock_all(ids).queue.contains(s.blocked[k]),
        s.unblock_all(ids).queue.len() >= s.queue.len(),
        s.unblock_all(ids).queue.subrange(0, s.queue.len() as int) == s.queue,
    decreases ids.len(),
{
    let t = s.unblock_all(ids);
    if ids.len() == 0 {
        assert(t.queue.subrange(0, s.queue.len() as int) =~= s.queue);
    } else {
        let init = ids.drop_last();
        let last = ids.last();
        naming_wakes_every_named_waiter(s, init);
        let u = s.unblock_all(init);
        assert(t == u.unblock(last));
        assert forall|k: usize| #[trigger] t.blocked.contains_key(k) <==> s.blocked.contains_key(k)
            && forall|j: int| 0 <= j < ids.len() ==> #[trigger] ids[j].0 != k by {
            if t.blocked.contains_key(k) {
                assert(u.blocked.contains_key(k));
                assert forall|j: int| 0 <= j < ids.len() implies #[trigger] ids[j].0 != k by {
                    if j < ids.len() - 1 {
                        assert(init[j] == ids[j]);
                    }
                }
            }
            if s.blocked.contains_key(k) && forall|j: int| 0 <= j < ids.len() ==> #[trigger] ids[j].0 != k {
                assert forall|j: int| 0 <= j < init.len() implies #[trigger] init[j].0 != k by {
                    assert(init[j] == ids[j]);
                }
                assert(ids[ids.len() - 1].0 != k);
            }
        }
        assert forall|k: usize|
            s.blocked.contains_key(k) && !t.blocked.contains_key(k) implies #[trigger] t.queue.contains(
            s.blocked[k],
        ) by {
            if u.blocked.contains_key(k) {
                assert(k == last.0);
                assert(t.queue[t.queue.len() - 1] == u.blocked[k]);
            } else {
                assert(u.queue.contains(s.blocked[k]));
                let i = choose|i: int| 0 <= i < u.queue.len() && u.queue[i] == s.blocked[k];
                assert(t.queue[i] == u.queue[i]);
            }
        }
        assert(t.queue.len() >= u.queue.len());
        assert forall|i: int| 0 <= i < u.queue.len() implies t.queue[i] == u.queue[i] by {}
        assert(t.queue.subrange(0, s.queue.len() as int) =~= u.queue.subrange(0, s.queue.len() as int));
    }
}

/// Waking the coroutines named in one poll and then those named in the next
/// is the same as waking all of them, in that order, at once: names are
/// taken in the order given.
pub proof fn naming_in_turn_is_naming_in_order<H>(
    s: SchedulerView<H>,
    first: Seq<CoroutineId>,
    then: Seq<CoroutineId>,
)
    ensures
        s.unblock_all(first + then) == s.unblock_all(first).unblock_all(then),
    decreases then.len(),
{
    if then.len() == 0 {
        assert(first + then =~= first);
    } else {
        naming_in_turn_is_naming_in_order(s, first, then.drop_last());
        assert((first + then).drop_last() =~= first + then.drop_last());
        assert((first + then).last() == then.last());
    }
}

/// The work queue is first in, first out: a new coroutine joins at the back,
/// the front one leaves first, and nothing else changes.
pub proof fn queue_is_first_in_first_out<H>(s: SchedulerView<H>, id: CoroutineId, co: H)
    ensures
        s.added(id, co).queue == s.queue.push((id, co)),
        s.added(id, co).blocked == s.blocked,
        s.added(id, co).completed == s.completed,
        s.added(id, co).ready == s.ready,
        s.queue.len() > 0 ==> s.front_taken().queue == s.queue.subrange(1, s.queue.len() as int),
        s.front_taken().blocked == s.blocked,
        s.front_taken().completed == s.completed,
        s.front_taken().ready == s.ready,
{
}

/// Taking a value from a stream, filing the yielding coroutine again,
/// taking a result and forgetting a coroutine touch only the completed and
/// yielding tables, and only under that coroutine's number.
pub proof fn table_steps_touch_one_entry<H>(s: SchedulerView<H>, id: CoroutineId, co: H)
    ensures
        s.completed.contains_key(id.0) ==> s.yield_taken(id).completed == s.completed.remove(id.0)
            && s.yield_taken(id).ready == s.ready,
        !s.completed.contains_key(id.0) ==> s.yield_taken(id).ready == s.ready.remove(id.0)
            && s.yield_taken(id).completed == s.completed,
        s.yield_taken(id).queue == s.queue && s.yield_taken(id).blocked == s.blocked,
        s.restored(id, co).ready == s.ready.insert(id.0, co),
        s.restored(id, co).completed == s.completed,
        s.restored(id, co).queue == s.queue && s.restored(id, co).blocked == s.blocked,
        s.result_taken(id).completed == s.completed.remove(id.0),
        s.result_taken(id).ready == s.ready,
        s.result_taken(id).queue == s.queue && s.result_taken(id).blocked == s.blocked,
        s.forgotten(id).completed == s.completed.remove(id.0),
        s.forgotten(id).ready == s.ready.remove(id.0),
        s.forgotten(id).queue == s.queue && s.forgotten(id).blocked == s.blocked,
{
}

} // verus!
