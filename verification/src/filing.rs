use vstd::prelude::*;

use crate::id::CoroutineId;
use crate::scheduler::{CoroutineState, SchedulerView};

verus! {

/// A coroutine that the scheduler does not hold yet joins the work queue:
/// every coroutine is still held once, and the new one is held too.
pub proof fn adding_files_once<H>(s: SchedulerView<H>, id: CoroutineId, co: H)
    requires
        s.filed_once(),
        !s.filed(id.0),
    ensures
        s.added(id, co).filed_once(),
        s.added(id, co).filed_ids() == s.filed_ids().insert(id.0),
{
    let t = s.added(id, co);
    assert forall|i: int| 0 <= i < s.queue.len() implies t.queue[i] == s.queue[i] by {}
    assert(t.queue[s.queue.len() as int] == (id, co));
    assert forall|n: usize| t.queued(n) <==> s.queued(n) || n == id.0 by {
        if t.queued(n) {
            let i = choose|i: int| #![trigger t.queue[i]] 0 <= i < t.queue.len() && t.queue[i].0.0 == n;
            if i < s.queue.len() {
                assert(s.queue[i].0.0 == n);
            }
        }
        if s.queued(n) {
            let i = choose|i: int| #![trigger s.queue[i]] 0 <= i < s.queue.len() && s.queue[i].0.0 == n;
            assert(t.queue[i].0.0 == n);
        }
    }
    assert forall|i: int| 0 <= i < s.queue.len() implies s.queue[i].0.0 != id.0 by {
        if s.queue[i].0.0 == id.0 {
            assert(s.queued(id.0));
        }
    }
    assert forall|k: usize| s.blocked.contains_key(k) implies s.blocked[k].0.0 != id.0 by {
        if s.blocked[k].0.0 == id.0 {
            assert(s.waiting(id.0));
        }
    }
    assert forall|n: usize| #[trigger] t.filed_ids().contains(n) <==> s.filed_ids().insert(id.0).contains(n) by {
        assert(t.blocked == s.blocked);
        assert(t.waiting(n) == s.waiting(n));
        assert(t.queued(n) <==> s.queued(n) || n == id.0);
    }
    assert(t.filed_ids() =~= s.filed_ids().insert(id.0));
}

/// Taking the front of the work queue: every coroutine is still held once,
/// and the one taken is no longer held.
pub proof fn taking_front_files_once<H>(s: SchedulerView<H>)
    requires
        s.filed_once(),
        s.queue.len() > 0,
    ensures
        s.front_taken().filed_once(),
        s.front_taken().filed_ids() == s.filed_ids().remove(s.queue[0].0.0),
{
    let t = s.front_taken();
    assert forall|i: int| 0 <= i < t.queue.len() implies t.queue[i] == s.queue[i + 1] by {}
    let first = s.queue[0].0.0;
    assert forall|n: usize| t.queued(n) <==> s.queued(n) && n != first by {
        if t.queued(n) {
            let i = choose|i: int| #![trigger t.queue[i]] 0 <= i < t.queue.len() && t.queue[i].0.0 == n;
            assert(s.queue[i + 1].0.0 == n);
            assert(s.queue[0].0.0 != s.queue[i + 1].0.0);
        }
        if s.queued(n) && n != first {
            let i = choose|i: int| #![trigger s.queue[i]] 0 <= i < s.queue.len() && s.queue[i].0.0 == n;
            assert(i != 0);
            assert(t.queue[i - 1].0.0 == n);
        }
    }
    assert forall|k: usize| s.blocked.contains_key(k) implies s.blocked[k].0.0 != first by {
        assert(s.queue[0].0.0 != s.blocked[k].0.0);
    }
    assert(!s.completed.contains_key(first) && !s.ready.contains_key(first));
    assert forall|i: int, j: int|
        0 <= i < t.queue.len() && 0 <= j < t.queue.len() && i != j implies #[trigger] t.queue[i].0.0
        != #[trigger] t.queue[j].0.0 by {
        assert(s.queue[i + 1].0.0 != s.queue[j + 1].0.0);
    }
    assert forall|i: int, k: usize|
        0 <= i < t.queue.len() && t.blocked.contains_key(k) implies #[trigger] t.queue[i].0.0
        != #[trigger] t.blocked[k].0.0 by {
        assert(s.queue[i + 1].0.0 != s.blocked[k].0.0);
    }
    assert forall|i: int| #![trigger t.queue[i]] 0 <= i < t.queue.len() implies !t.completed.contains_key(
        t.queue[i].0.0,
    ) && !t.ready.contains_key(t.queue[i].0.0) by {
        assert(s.queue[i + 1] == t.queue[i]);
    }
    assert forall|n: usize| #[trigger] t.filed_ids().contains(n) <==> s.filed_ids().remove(first).contains(n) by {
        assert(t.blocked == s.blocked);
        assert(t.waiting(n) == s.waiting(n));
        assert(t.queued(n) <==> s.queued(n) && n != first);
        if n == first {
            assert(!s.waiting(first));
        }
    }
    assert(t.filed_ids() =~= s.filed_ids().remove(first));
}

proof fn queued_after_push<H>(s: SchedulerView<H>, t: SchedulerView<H>, e: (CoroutineId, H))
    requires
        t.queue == s.queue.push(e),
    ensures
        forall|n: usize| #[trigger] t.queued(n) <==> s.queued(n) || n == e.0.0,
{
    assert forall|n: usize| #[trigger] t.queued(n) <==> s.queued(n) || n == e.0.0 by {
        if t.queued(n) {
            let i = choose|i: int| #![trigger t.queue[i]] 0 <= i < t.queue.len() && t.queue[i].0.0 == n;
            if i < s.queue.len() {
                assert(s.queue[i] == t.queue[i]);
            }
        }
        if s.queued(n) {
            let i = choose|i: int| #![trigger s.queue[i]] 0 <= i < s.queue.len() && s.queue[i].0.0 == n;
            assert(t.queue[i] == s.queue[i]);
        }
        if n == e.0.0 {
            assert(t.queue[s.queue.len() as int] == e);
        }
    }
}

proof fn queued_unchanged<H>(s: SchedulerView<H>, t: SchedulerView<H>)
    requires
        t.queue == s.queue,
    ensures
        forall|n: usize| #[trigger] t.queued(n) == s.queued(n),
{
}

proof fn waiting_unchanged<H>(s: SchedulerView<H>, t: SchedulerView<H>)
    requires
        t.blocked == s.blocked,
    ensures
        forall|n: usize| #[trigger] t.waiting(n) == s.waiting(n),
{
}

proof fn waiting_after_remove<H>(s: SchedulerView<H>, t: SchedulerView<H>, k: usize)
    requires
        s.filed_once(),
        t.blocked == s.blocked.remove(k),
    ensures
        forall|n: usize| #[trigger] t.waiting(n) <==> s.waiting(n) && !(s.blocked.contains_key(k)
            && n == s.blocked[k].0.0),
{
    assert forall|n: usize| #[trigger] t.waiting(n) <==> s.waiting(n) && !(s.blocked.contains_key(k)
        && n == s.blocked[k].0.0) by {
        if t.waiting(n) {
            let j = choose|j: usize| #![trigger t.blocked[j]] t.blocked.contains_key(j) && t.blocked[j].0.0 == n;
            assert(s.blocked[j] == t.blocked[j]);
            if s.blocked.contains_key(k) {
                assert(j != k);
            }
        }
        if s.waiting(n) && !(s.blocked.contains_key(k) && n == s.blocked[k].0.0) {
            let j = choose|j: usize| #![trigger s.blocked[j]] s.blocked.contains_key(j) && s.blocked[j].0.0 == n;
            assert(j != k);
            assert(t.blocked[j] == s.blocked[j]);
        }
    }
}

proof fn waiting_after_insert<H>(s: SchedulerView<H>, t: SchedulerView<H>, k: usize, e: (CoroutineId, H))
    requires
        s.filed_once(),
        t.blocked == s.blocked.insert(k, e),
    ensures
        forall|n: usize| #[trigger] t.waiting(n) <==> (s.waiting(n) && !(s.blocked.contains_key(k)
            && n == s.blocked[k].0.0)) || n == e.0.0,
{
    assert forall|n: usize| #[trigger] t.waiting(n) <==> (s.waiting(n) && !(s.blocked.contains_key(k)
        && n == s.blocked[k].0.0)) || n == e.0.0 by {
        if t.waiting(n) {
            let j = choose|j: usize| #![trigger t.blocked[j]] t.blocked.contains_key(j) && t.blocked[j].0.0 == n;
            if j != k {
                assert(s.blocked[j] == t.blocked[j]);
                if s.blocked.contains_key(k) {
                    assert(s.blocked[j].0.0 != s.blocked[k].0.0);
                }
            }
        }
        if s.waiting(n) && !(s.blocked.contains_key(k) && n == s.blocked[k].0.0) {
            let j = choose|j: usize| #![trigger s.blocked[j]] s.blocked.contains_key(j) && s.blocked[j].0.0 == n;
            assert(j != k);
            assert(t.blocked[j] == s.blocked[j]);
        }
        if n == e.0.0 {
            assert(t.blocked[k] == e);
        }
    }
}

/// Waking a waiter moves it and keeps every coroutine held once; the set of
/// coroutines held stays the same.
pub proof fn unblocking_files_once<H>(s: SchedulerView<H>, id: CoroutineId)
    requires
        s.filed_once(),
    ensures
        s.unblock(id).filed_once(),
        s.unblock(id).filed_ids() == s.filed_ids(),
{
    let t = s.unblock(id);
    if s.blocked.contains_key(id.0) {
        let w = s.blocked[id.0];
        queued_after_push(s, t, w);
        waiting_after_remove(s, t, id.0);
        assert forall|i: int| 0 <= i < s.queue.len() implies t.queue[i] == s.queue[i] by {}
        assert(t.queue[s.queue.len() as int] == w);
        assert forall|i: int, j: int|
            0 <= i < t.queue.len() && 0 <= j < t.queue.len() && i != j implies #[trigger] t.queue[i].0.0
            != #[trigger] t.queue[j].0.0 by {
            if i < s.queue.len() && j < s.queue.len() {
                assert(s.queue[i].0.0 != s.queue[j].0.0);
            } else if i < s.queue.len() {
                assert(s.queue[i].0.0 != s.blocked[id.0].0.0);
            } else {
                assert(s.queue[j].0.0 != s.blocked[id.0].0.0);
            }
        }
        assert forall|i: int, k: usize|
            0 <= i < t.queue.len() && t.blocked.contains_key(k) implies #[trigger] t.queue[i].0.0
            != #[trigger] t.blocked[k].0.0 by {
            assert(t.blocked[k] == s.blocked[k]);
            if i < s.queue.len() {
                assert(s.queue[i].0.0 != s.blocked[k].0.0);
            } else {
                assert(s.blocked[id.0].0.0 != s.blocked[k].0.0);
            }
        }
        assert forall|i: int| #![trigger t.queue[i]] 0 <= i < t.queue.len() implies !t.completed.contains_key(
            t.queue[i].0.0,
        ) && !t.ready.contains_key(t.queue[i].0.0) by {
            if i < s.queue.len() {
                assert(s.queue[i] == t.queue[i]);
            }
        }
        assert forall|k1: usize, k2: usize|
            t.blocked.contains_key(k1) && t.blocked.contains_key(k2) && k1 != k2 implies #[trigger] t.blocked[k1].0.0
            != #[trigger] t.blocked[k2].0.0 by {
            assert(s.blocked[k1].0.0 != s.blocked[k2].0.0);
        }
        assert forall|k: usize| #![trigger t.blocked[k]] t.blocked.contains_key(k) implies !t.completed.contains_key(
            t.blocked[k].0.0,
        ) && !t.ready.contains_key(t.blocked[k].0.0) by {
            assert(s.blocked[k] == t.blocked[k]);
        }
        assert forall|n: usize| #[trigger] t.filed_ids().contains(n) <==> s.filed_ids().contains(n) by {
            if n == w.0.0 {
                assert(s.waiting(n));
            }
        }
        assert(t.filed_ids() =~= s.filed_ids());
    }
}

/// Waking the waiters of any coroutines, in any order, keeps every coroutine
/// held once, and the same coroutines held.
pub proof fn unblocking_all_files_once<H>(s: SchedulerView<H>, ids: Seq<CoroutineId>)
    requires
        s.filed_once(),
    ensures
        s.unblock_all(ids).filed_once(),
        s.unblock_all(ids).filed_ids() == s.filed_ids(),
    decreases ids.len(),
{
    if ids.len() > 0 {
        unblocking_all_files_once(s, ids.drop_last());
        unblocking_files_once(s.unblock_all(ids.drop_last()), ids.last());
    }
}

/// Putting a yielding coroutine back into the work queue keeps every
/// coroutine held once, and the same coroutines held.
pub proof fn requeuing_files_once<H>(s: SchedulerView<H>, wait_id: CoroutineId)
    requires
        s.filed_once(),
    ensures
        s.requeued(wait_id).filed_once(),
        s.requeued(wait_id).filed_ids() == s.filed_ids(),
{
    let t = s.requeued(wait_id);
    if s.ready.contains_key(wait_id.0) {
        let e = (wait_id, s.ready[wait_id.0]);
        queued_after_push(s, t, e);
        waiting_unchanged(s, t);
        assert forall|i: int| 0 <= i < s.queue.len() implies t.queue[i] == s.queue[i] by {}
        assert(t.queue[s.queue.len() as int] == e);
        assert forall|i: int, j: int|
            0 <= i < t.queue.len() && 0 <= j < t.queue.len() && i != j implies #[trigger] t.queue[i].0.0
            != #[trigger] t.queue[j].0.0 by {
            if i < s.queue.len() && j < s.queue.len() {
                assert(s.queue[i].0.0 != s.queue[j].0.0);
            } else if i < s.queue.len() {
                assert(!s.ready.contains_key(s.queue[i].0.0));
            } else {
                assert(!s.ready.contains_key(s.queue[j].0.0));
            }
        }
        assert forall|i: int, k: usize|
            0 <= i < t.queue.len() && t.blocked.contains_key(k) implies #[trigger] t.queue[i].0.0
            != #[trigger] t.blocked[k].0.0 by {
            if i < s.queue.len() {
                assert(s.queue[i].0.0 != s.blocked[k].0.0);
            } else {
                assert(!s.ready.contains_key(s.blocked[k].0.0));
            }
        }
        assert forall|i: int| #![trigger t.queue[i]] 0 <= i < t.queue.len() implies !t.completed.contains_key(
            t.queue[i].0.0,
        ) && !t.ready.contains_key(t.queue[i].0.0) by {
            if i < s.queue.len() {
                assert(s.queue[i] == t.queue[i]);
            } else {
                assert(!(s.completed.contains_key(wait_id.0) && s.ready.contains_key(wait_id.0)));
            }
        }
        assert forall|k: usize| #![trigger t.blocked[k]] t.blocked.contains_key(k) implies !t.completed.contains_key(
            t.blocked[k].0.0,
        ) && !t.ready.contains_key(t.blocked[k].0.0) by {
            assert(s.blocked[k] == t.blocked[k]);
        }
        assert forall|n: usize| !(#[trigger] t.completed.contains_key(n) && #[trigger] t.ready.contains_key(n)) by {
            assert(!(s.completed.contains_key(n) && s.ready.contains_key(n)));
        }
        assert forall|n: usize| #[trigger] t.filed_ids().contains(n) <==> s.filed_ids().contains(n) by {}
        assert(t.filed_ids() =~= s.filed_ids());
    }
}

/// Filing, in a table, a coroutine that the scheduler does not hold, after
/// waking its waiter: every coroutine is still held once.
proof fn woken_and_kept<H>(s: SchedulerView<H>, t: SchedulerView<H>, id: CoroutineId, co: H, in_ready: bool)
    requires
        s.filed_once(),
        !s.filed(id.0),
        t.queue == s.waiter_woken(id),
        t.blocked == s.blocked.remove(id.0),
        in_ready ==> t.completed == s.completed && t.ready == s.ready.insert(id.0, co),
        !in_ready ==> t.ready == s.ready && t.completed == s.completed.insert(id.0, co),
    ensures
        t.filed_once(),
        t.filed_ids() == s.filed_ids().insert(id.0),
{
    let u = s.unblock(id);
    unblocking_files_once(s, id);
    assert(t.queue == u.queue);
    assert(t.blocked == u.blocked);
    queued_unchanged(u, t);
    waiting_unchanged(u, t);
    assert(!u.filed(id.0)) by {
        assert(!s.filed_ids().contains(id.0));
        assert(!u.filed_ids().contains(id.0));
    }
    assert forall|i: int| #![trigger t.queue[i]] 0 <= i < t.queue.len() implies !t.completed.contains_key(
        t.queue[i].0.0,
    ) && !t.ready.contains_key(t.queue[i].0.0) by {
        assert(u.queue[i] == t.queue[i]);
        if t.queue[i].0.0 == id.0 {
            assert(u.queued(id.0));
        }
    }
    assert forall|k: usize| #![trigger t.blocked[k]] t.blocked.contains_key(k) implies !t.completed.contains_key(
        t.blocked[k].0.0,
    ) && !t.ready.contains_key(t.blocked[k].0.0) by {
        assert(u.blocked[k] == t.blocked[k]);
        if t.blocked[k].0.0 == id.0 {
            assert(u.waiting(id.0));
        }
    }
    assert forall|n: usize| !(#[trigger] t.completed.contains_key(n) && #[trigger] t.ready.contains_key(n)) by {
        assert(!(u.completed.contains_key(n) && u.ready.contains_key(n)));
    }
    assert forall|n: usize| #[trigger] t.filed_ids().contains(n) <==> u.filed_ids().insert(id.0).contains(n) by {}
    assert(t.filed_ids() =~= s.filed_ids().insert(id.0));
}

/// Filing the coroutine that has just run, which the scheduler did not hold,
/// keeps every coroutine held once. The coroutine is held afterwards unless
/// nobody wanted what it gave; a waiter that it displaces is let go.
pub proof fn settling_files_once<H>(
    s: SchedulerView<H>,
    id: CoroutineId,
    co: H,
    state: CoroutineState,
    wait_id: CoroutineId,
)
    requires
        s.filed_once(),
        !s.filed(id.0),
    ensures
        s.settled(id, co, state, wait_id).filed_once(),
        s.settled(id, co, state, wait_id).filed_ids() == (match state {
            CoroutineState::BlockedOnCo(on) => if s.blocked.contains_key(on.0) {
                s.filed_ids().remove(s.blocked[on.0].0.0).insert(id.0)
            } else {
                s.filed_ids().insert(id.0)
            },
            CoroutineState::Ready => s.filed_ids(),
            _ => if s.wanted(id, wait_id) {
                s.filed_ids().insert(id.0)
            } else {
                s.filed_ids()
            },
        }),
{
    let t = s.settled(id, co, state, wait_id);
    match state {
        CoroutineState::BlockedOnCo(on) => {
            let e = (id, co);
            queued_unchanged(s, t);
            waiting_after_insert(s, t, on.0, e);
            assert(!s.queued(id.0) && !s.waiting(id.0));
            assert forall|i: int| 0 <= i < s.queue.len() implies s.queue[i].0.0 != id.0 by {
                if s.queue[i].0.0 == id.0 {
                    assert(s.queued(id.0));
                }
            }
            assert forall|k: usize| s.blocked.contains_key(k) implies s.blocked[k].0.0 != id.0 by {
                if s.blocked[k].0.0 == id.0 {
                    assert(s.waiting(id.0));
                }
            }
            assert forall|k1: usize, k2: usize|
                t.blocked.contains_key(k1) && t.blocked.contains_key(k2) && k1 != k2 implies #[trigger] t.blocked[k1].0.0
                != #[trigger] t.blocked[k2].0.0 by {
                if k1 != on.0 && k2 != on.0 {
                    assert(s.blocked[k1].0.0 != s.blocked[k2].0.0);
                }
            }
            assert forall|i: int, k: usize|
                0 <= i < t.queue.len() && t.blocked.contains_key(k) implies #[trigger] t.queue[i].0.0
                != #[trigger] t.blocked[k].0.0 by {
                if k != on.0 {
                    assert(s.queue[i].0.0 != s.blocked[k].0.0);
                }
            }
            assert forall|k: usize| #![trigger t.blocked[k]] t.blocked.contains_key(k) implies !t.completed.contains_key(
                t.blocked[k].0.0,
            ) && !t.ready.contains_key(t.blocked[k].0.0) by {
                if k != on.0 {
                    assert(s.blocked[k] == t.blocked[k]);
                }
            }
            if s.blocked.contains_key(on.0) {
                let gone = s.blocked[on.0].0.0;
                assert(gone != id.0);
                assert forall|n: usize| #[trigger] t.filed_ids().contains(n) <==> s.filed_ids().remove(
                    gone,
                ).insert(id.0).contains(n) by {
                    if n == gone {
                        assert(!s.queued(gone)) by {
                            if s.queued(gone) {
                                let i = choose|i: int| #![trigger s.queue[i]] 0 <= i < s.queue.len() && s.queue[i].0.0 == gone;
                                assert(s.queue[i].0.0 != s.blocked[on.0].0.0);
                            }
                        }
                    }
                }
                assert(t.filed_ids() =~= s.filed_ids().remove(gone).insert(id.0));
            } else {
                assert forall|n: usize| #[trigger] t.filed_ids().contains(n) <==> s.filed_ids().insert(id.0).contains(n) by {}
                assert(t.filed_ids() =~= s.filed_ids().insert(id.0));
            }
        },
        CoroutineState::Complete => {
            if s.wanted(id, wait_id) {
                woken_and_kept(s, t, id, co, false);
            } else {
                assert(t.blocked =~= s.blocked);
                assert(t == s);
            }
        },
        CoroutineState::ReadyToYield => {
            if s.wanted(id, wait_id) {
                woken_and_kept(s, t, id, co, true);
            }
        },
        CoroutineState::Ready => {},
    }
}

/// A change of the completed and yielding tables alone, that takes no
/// coroutine in and files in them only coroutines held nowhere else, keeps
/// every coroutine held once.
proof fn tables_only<H>(s: SchedulerView<H>, t: SchedulerView<H>)
    requires
        s.filed_once(),
        t.queue == s.queue,
        t.blocked == s.blocked,
        forall|n: usize| #[trigger] t.completed.contains_key(n) ==> s.completed.contains_key(n),
        forall|n: usize| #[trigger] t.ready.contains_key(n) ==> s.ready.contains_key(n),
    ensures
        t.filed_once(),
{
    assert forall|i: int| #![trigger t.queue[i]] 0 <= i < t.queue.len() implies !t.completed.contains_key(
        t.queue[i].0.0,
    ) && !t.ready.contains_key(t.queue[i].0.0) by {
        assert(s.queue[i] == t.queue[i]);
    }
    assert forall|k: usize| #![trigger t.blocked[k]] t.blocked.contains_key(k) implies !t.completed.contains_key(
        t.blocked[k].0.0,
    ) && !t.ready.contains_key(t.blocked[k].0.0) by {
        assert(s.blocked[k] == t.blocked[k]);
    }
    assert forall|n: usize| !(#[trigger] t.completed.contains_key(n) && #[trigger] t.ready.contains_key(n)) by {
        assert(!(s.completed.contains_key(n) && s.ready.contains_key(n)));
    }
}

/// Asking a completed or yielding coroutine for its next value takes it out
/// of the scheduler (a yielding one until it is filed again).
pub proof fn taking_a_yield_files_once<H>(s: SchedulerView<H>, id: CoroutineId)
    requires
        s.filed_once(),
        s.completed.contains_key(id.0) || s.ready.contains_key(id.0),
    ensures
        s.yield_taken(id).filed_once(),
        s.yield_taken(id).filed_ids() == s.filed_ids().remove(id.0),
{
    let t = s.yield_taken(id);
    tables_only(s, t);
    queued_unchanged(s, t);
    waiting_unchanged(s, t);
    assert(!s.queued(id.0)) by {
        if s.queued(id.0) {
            let i = choose|i: int| #![trigger s.queue[i]] 0 <= i < s.queue.len() && s.queue[i].0.0 == id.0;
        }
    }
    assert(!s.waiting(id.0)) by {
        if s.waiting(id.0) {
            let k = choose|k: usize| #![trigger s.blocked[k]] s.blocked.contains_key(k) && s.blocked[k].0.0 == id.0;
        }
    }
    assert(!(s.completed.contains_key(id.0) && s.ready.contains_key(id.0)));
    assert forall|n: usize| #[trigger] t.filed_ids().contains(n) <==> s.filed_ids().remove(id.0).contains(n) by {}
    assert(t.filed_ids() =~= s.filed_ids().remove(id.0));
}

/// Taking a completed coroutine out for its result: it is held no more.
pub proof fn taking_a_result_files_once<H>(s: SchedulerView<H>, id: CoroutineId)
    requires
        s.filed_once(),
        s.completed.contains_key(id.0),
    ensures
        s.result_taken(id).filed_once(),
        s.result_taken(id).filed_ids() == s.filed_ids().remove(id.0),
{
    taking_a_yield_files_once(s, id);
    assert(s.result_taken(id) == s.yield_taken(id));
}

/// Forgetting a coroutine: it leaves the tables, and every coroutine is
/// still held once.
pub proof fn forgetting_files_once<H>(s: SchedulerView<H>, id: CoroutineId)
    requires
        s.filed_once(),
    ensures
        s.forgotten(id).filed_once(),
        s.forgotten(id).filed_ids() == (if s.completed.contains_key(id.0) || s.ready.contains_key(id.0) {
            s.filed_ids().remove(id.0)
        } else {
            s.filed_ids()
        }),
{
    let t = s.forgotten(id);
    if s.completed.contains_key(id.0) || s.ready.contains_key(id.0) {
        taking_a_yield_files_once(s, id);
        assert(t.completed =~= s.yield_taken(id).completed);
        assert(t.ready =~= s.yield_taken(id).ready);
        assert(t == s.yield_taken(id));
    } else {
        assert(t.completed =~= s.completed);
        assert(t.ready =~= s.ready);
        assert(t == s);
    }
}

/// Filing again a yielding coroutine that the scheduler does not hold.
pub proof fn restoring_files_once<H>(s: SchedulerView<H>, id: CoroutineId, co: H)
    requires
        s.filed_once(),
        !s.filed(id.0),
    ensures
        s.restored(id, co).filed_once(),
        s.restored(id, co).filed_ids() == s.filed_ids().insert(id.0),
{
    let t = s.restored(id, co);
    queued_unchanged(s, t);
    waiting_unchanged(s, t);
    assert forall|i: int| #![trigger t.queue[i]] 0 <= i < t.queue.len() implies !t.completed.contains_key(
        t.queue[i].0.0,
    ) && !t.ready.contains_key(t.queue[i].0.0) by {
        assert(s.queue[i] == t.queue[i]);
        if s.queue[i].0.0 == id.0 {
            assert(s.queued(id.0));
        }
    }
    assert forall|k: usize| #![trigger t.blocked[k]] t.blocked.contains_key(k) implies !t.completed.contains_key(
        t.blocked[k].0.0,
    ) && !t.ready.contains_key(t.blocked[k].0.0) by {
        assert(s.blocked[k] == t.blocked[k]);
        if s.blocked[k].0.0 == id.0 {
            assert(s.waiting(id.0));
        }
    }
    assert forall|n: usize| !(#[trigger] t.completed.contains_key(n) && #[trigger] t.ready.contains_key(n)) by {
        assert(!(s.completed.contains_key(n) && s.ready.contains_key(n)));
    }
    assert forall|n: usize| #[trigger] t.filed_ids().contains(n) <==> s.filed_ids().insert(id.0).contains(n) by {}
    assert(t.filed_ids() =~= s.filed_ids().insert(id.0));
}

} // verus!
