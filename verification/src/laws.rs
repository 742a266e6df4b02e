use vstd::prelude::*;

use crate::filing::{settling_files_once, taking_a_yield_files_once};
use crate::id::CoroutineId;
use crate::scheduler::{AfterRun, CoroutineState, SchedulerView};

verus! {

/// Waking the waiter of a coroutine twice is the same as waking it once.
pub proof fn unblock_is_idempotent<H>(s: SchedulerView<H>, id: CoroutineId)
    ensures
        s.unblock(id).unblock(id) == s.unblock(id),
{
    if s.blocked.contains_key(id.0) {
        assert(!s.unblock(id).blocked.contains_key(id.0));
    }
}

/// Whatever the notifier names, polling it leaves the completed and yielding
/// coroutines alone, only appends to the work queue, and only takes
/// coroutines out of the waiting table, unchanged.
pub proof fn polling_only_wakes_waiters<H>(s: SchedulerView<H>, ids: Seq<CoroutineId>)
    ensures
        s.unblock_all(ids).completed == s.completed,
        s.unblock_all(ids).ready == s.ready,
        s.unblock_all(ids).queue.len() >= s.queue.len(),
        s.unblock_all(ids).queue.subrange(0, s.queue.len() as int) == s.queue,
        forall|k: usize| #[trigger]
            s.unblock_all(ids).blocked.contains_key(k) ==> s.blocked.contains_key(k)
                && s.unblock_all(ids).blocked[k] == s.blocked[k],
    decreases ids.len(),
{
    if ids.len() > 0 {
        polling_only_wakes_waiters(s, ids.drop_last());
        let before = s.unblock_all(ids.drop_last());
        let after = s.unblock_all(ids);
        assert(after == before.unblock(ids.last()));
        if before.blocked.contains_key(ids.last().0) {
            assert(after.queue.subrange(0, s.queue.len() as int) =~= before.queue.subrange(
                0,
                s.queue.len() as int,
            ));
        }
    } else {
        assert(s.unblock_all(ids).queue.subrange(0, s.queue.len() as int) =~= s.queue);
    }
}

/// Polling never loses a coroutine: what leaves the waiting table joins the
/// work queue.
pub proof fn polling_loses_no_coroutine<H>(s: SchedulerView<H>, ids: Seq<CoroutineId>)
    requires
        s.blocked.dom().finite(),
    ensures
        s.unblock_all(ids).blocked.dom().finite(),
        s.unblock_all(ids).queue.len() + s.unblock_all(ids).blocked.len() == s.queue.len()
            + s.blocked.len(),
    decreases ids.len(),
{
    if ids.len() > 0 {
        polling_loses_no_coroutine(s, ids.drop_last());
        let before = s.unblock_all(ids.drop_last());
        if before.blocked.contains_key(ids.last().0) {
            assert(before.blocked.dom().remove(ids.last().0).len() == before.blocked.dom().len()
                - 1);
        }
    }
}

/// When the loop learns that its wait is over, the coroutine it waited for
/// has just run, and is kept in exactly one place: among the completed or
/// among the yielding ones, not in the work queue, not as a waiter, and with
/// nobody left waiting on it. When the loop is told to unwind a coroutine,
/// that is the one that just ran, and nothing was filed.
pub proof fn wait_over_keeps_awaited<H>(
    s: SchedulerView<H>,
    id: CoroutineId,
    co: H,
    state: CoroutineState,
    wait_id: CoroutineId,
)
    requires
        s.filed_once(),
        !s.filed(id.0),
        !(state is Ready),
    ensures
        s.after_run(id, co, state, wait_id) is WaitOver ==> {
            let t = s.settled(id, co, state, wait_id);
            &&& id == wait_id
            &&& (t.completed.get(wait_id.0) == Some(co) || t.ready.get(wait_id.0) == Some(co))
            &&& !(t.completed.contains_key(wait_id.0) && t.ready.contains_key(wait_id.0))
            &&& !t.queued(wait_id.0)
            &&& !t.waiting(wait_id.0)
            &&& !t.blocked.contains_key(wait_id.0)
        },
        s.after_run(id, co, state, wait_id) is Kill ==> s.after_run(id, co, state, wait_id)
            == AfterRun::Kill(co) && s.settled(id, co, state, wait_id) == s && state
            is ReadyToYield,
{
    settling_files_once(s, id, co, state, wait_id);
    let t = s.settled(id, co, state, wait_id);
    if s.after_run(id, co, state, wait_id) is WaitOver {
        if t.queued(wait_id.0) {
            let i = choose|i: int| #![trigger t.queue[i]] 0 <= i < t.queue.len() && t.queue[i].0.0 == wait_id.0;
        }
        if t.waiting(wait_id.0) {
            let k = choose|k: usize| #![trigger t.blocked[k]] t.blocked.contains_key(k) && t.blocked[k].0.0 == wait_id.0;
        }
    }
}

/// A coroutine run to completion on an idle scheduler, and its result taken,
/// leaves the scheduler as it found it.
pub proof fn lone_coroutine_leaves_no_trace<H>(s: SchedulerView<H>, id: CoroutineId, co: H)
    requires
        s.queue.len() == 0,
        !s.blocked.contains_key(id.0),
        !s.completed.contains_key(id.0),
    ensures
        s.added(id, co).queue[0] == (id, co),
        ({
            let running = s.added(id, co).front_taken();
            &&& running.after_run(id, co, CoroutineState::Complete, id) is WaitOver
            &&& running.settled(id, co, CoroutineState::Complete, id).completed[id.0] == co
            &&& running.settled(id, co, CoroutineState::Complete, id).result_taken(id) == s
        }),
{
    let running = s.added(id, co).front_taken();
    assert(running.queue =~= s.queue);
    let done = running.settled(id, co, CoroutineState::Complete, id);
    assert(done.blocked =~= s.blocked);
    assert(done.completed.remove(id.0) =~= s.completed);
    assert(done.queue =~= s.queue);
}

/// Taking a yielding coroutine's value and filing it again leaves the
/// scheduler as it was.
pub proof fn lending_a_yield_restores<H>(s: SchedulerView<H>, id: CoroutineId)
    requires
        !s.completed.contains_key(id.0),
        s.ready.contains_key(id.0),
    ensures
        s.yield_taken(id).restored(id, s.ready[id.0]) == s,
{
    assert(s.yield_taken(id).restored(id, s.ready[id.0]).ready =~= s.ready);
}

/// A stream whose coroutine has ended, asked for one more value, gets
/// nothing, and the scheduler holds nothing more of that coroutine.
pub proof fn finished_stream_is_cleared<H>(s: SchedulerView<H>, id: CoroutineId)
    requires
        s.filed_once(),
        s.completed.contains_key(id.0),
    ensures
        !s.yield_taken(id).filed(id.0),
{
    taking_a_yield_files_once(s, id);
    assert(!s.yield_taken(id).filed_ids().contains(id.0));
}

/// Once a stream is gone, the scheduler keeps nothing of its coroutine among
/// the completed or yielding ones; forgetting it again changes nothing.
pub proof fn forgetting_clears<H>(s: SchedulerView<H>, id: CoroutineId)
    ensures
        !s.forgotten(id).completed.contains_key(id.0),
        !s.forgotten(id).ready.contains_key(id.0),
        s.forgotten(id).forgotten(id) == s.forgotten(id),
        s.forgotten(id).queue == s.queue,
        s.forgotten(id).blocked == s.blocked,
{
    assert(s.forgotten(id).forgotten(id).completed =~= s.forgotten(id).completed);
    assert(s.forgotten(id).forgotten(id).ready =~= s.forgotten(id).ready);
}

} // verus!
