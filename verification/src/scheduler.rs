use vstd::prelude::*;

use std::collections::HashMap;
use std::collections::HashSet;
use std::collections::VecDeque;

use crate::filing;
use crate::id::CoroutineId;
use crate::notify::{ExternalBlocker, ExternalNotifier};

verus! {

broadcast use vstd::std_specs::hash::group_hash_axioms;

/// Where a coroutine stands after it has run for a while.
#[derive(Clone, Copy, Debug, PartialEq, Eq, Structural)]
pub enum CoroutineState {
    /// It waits for the coroutine with this identity to complete or yield.
    BlockedOnCo(CoroutineId),
    /// It has a value for its stream and waits to be asked for it.
    ReadyToYield,
    /// Its body has returned.
    Complete,
    /// It can run.
    Ready,
}

/// What the scheduler's loop does next, once a coroutine has run and been filed.
#[derive(Debug)]
pub enum AfterRun<H> {
    /// Take the next coroutine from the work queue.
    KeepGoing,
    /// The coroutine that the loop waits for has completed or yielded: stop.
    WaitOver,
    /// Nobody waits for this yielding coroutine: unwind it and go on.
    Kill(H),
    /// The scheduler lets this handle go (a completed coroutine that nobody
    /// wants, or a waiter displaced by a new one): drop it and go on.
    Release(H),
}

/// The scheduler as a value: the work queue, the coroutines that wait on
/// another one (keyed by the number of the one awaited), and the completed
/// and yielding coroutines (keyed by their own number). A coroutine is held
/// as its identity beside an opaque handle that runs it.
#[verifier::ext_equal]
pub struct SchedulerView<H> {
    pub queue: Seq<(CoroutineId, H)>,
    pub blocked: Map<usize, (CoroutineId, H)>,
    pub completed: Map<usize, H>,
    pub ready: Map<usize, H>,
}

impl<H> SchedulerView<H> {
    /// Wakes the coroutine that waits on `id`: it moves to the back of the
    /// work queue. Without such a waiter nothing changes.
    pub open spec fn unblock(self, id: CoroutineId) -> SchedulerView<H> {
        if self.blocked.contains_key(id.0) {
            SchedulerView {
                queue: self.queue.push(self.blocked[id.0]),
                blocked: self.blocked.remove(id.0),
                completed: self.completed,
                ready: self.ready,
            }
        } else {
            self
        }
    }

    /// Wakes the waiters of the given coroutines, one after the other.
    pub open spec fn unblock_all(self, ids: Seq<CoroutineId>) -> SchedulerView<H>
        decreases ids.len(),
    {
        if ids.len() == 0 {
            self
        } else {
            self.unblock_all(ids.drop_last()).unblock(ids.last())
        }
    }

    /// A new coroutine at the back of the work queue.
    pub open spec fn added(self, id: CoroutineId, co: H) -> SchedulerView<H> {
        SchedulerView { queue: self.queue.push((id, co)), ..self }
    }

    /// The work queue without its front.
    pub open spec fn front_taken(self) -> SchedulerView<H> {
        SchedulerView { queue: self.queue.drop_first(), ..self }
    }

    /// A yielding `wait_id` goes back to the end of the work queue; otherwise
    /// nothing changes.
    pub open spec fn requeued(self, wait_id: CoroutineId) -> SchedulerView<H> {
        if self.ready.contains_key(wait_id.0) {
            SchedulerView {
                queue: self.queue.push((wait_id, self.ready[wait_id.0])),
                ready: self.ready.remove(wait_id.0),
                ..self
            }
        } else {
            self
        }
    }

    /// Whether someone (a waiter, or the loop itself) wants what `id` gives.
    pub open spec fn wanted(self, id: CoroutineId, wait_id: CoroutineId) -> bool {
        self.blocked.contains_key(id.0) || id == wait_id
    }

    /// The waiter of `id`, if any, moves to the back of the work queue.
    pub open spec fn waiter_woken(self, id: CoroutineId) -> Seq<(CoroutineId, H)> {
        if self.blocked.contains_key(id.0) {
            self.queue.push(self.blocked[id.0])
        } else {
            self.queue
        }
    }

    /// Where the coroutine `id`, which has just run into `state`, is filed
    /// while the loop waits for `wait_id`.
    pub open spec fn settled(self, id: CoroutineId, co: H, state: CoroutineState, wait_id: CoroutineId) -> SchedulerView<H> {
        match state {
            CoroutineState::BlockedOnCo(on) => SchedulerView {
                blocked: self.blocked.insert(on.0, (id, co)),
                ..self
            },
            CoroutineState::Complete => SchedulerView {
                queue: self.waiter_woken(id),
                blocked: self.blocked.remove(id.0),
                completed: if self.wanted(id, wait_id) {
                    self.completed.insert(id.0, co)
                } else {
                    self.completed
                },
                ready: self.ready,
            },
            CoroutineState::ReadyToYield => if self.wanted(id, wait_id) {
                SchedulerView {
                    queue: self.waiter_woken(id),
                    blocked: self.blocked.remove(id.0),
                    completed: self.completed,
                    ready: self.ready.insert(id.0, co),
                }
            } else {
                self
            },
            CoroutineState::Ready => self,
        }
    }

    /// What the loop does after filing the coroutine `id`.
    pub open spec fn after_run(self, id: CoroutineId, co: H, state: CoroutineState, wait_id: CoroutineId) -> AfterRun<H> {
        match state {
            CoroutineState::ReadyToYield => if !self.wanted(id, wait_id) {
                AfterRun::Kill(co)
            } else if id == wait_id {
                AfterRun::WaitOver
            } else {
                AfterRun::KeepGoing
            },
            CoroutineState::Complete => if id == wait_id {
                AfterRun::WaitOver
            } else if self.blocked.contains_key(id.0) {
                AfterRun::KeepGoing
            } else {
                AfterRun::Release(co)
            },
            CoroutineState::BlockedOnCo(on) => if self.blocked.contains_key(on.0) {
                AfterRun::Release(self.blocked[on.0].1)
            } else {
                AfterRun::KeepGoing
            },
            CoroutineState::Ready => AfterRun::KeepGoing,
        }
    }

    /// Asking `id` for its next value: a completed `id` is let go; a yielding
    /// one is lent out of its table.
    pub open spec fn yield_taken(self, id: CoroutineId) -> SchedulerView<H> {
        if self.completed.contains_key(id.0) {
            SchedulerView { completed: self.completed.remove(id.0), ..self }
        } else {
            SchedulerView { ready: self.ready.remove(id.0), ..self }
        }
    }

    /// A yielding coroutine filed again.
    pub open spec fn restored(self, id: CoroutineId, co: H) -> SchedulerView<H> {
        SchedulerView { ready: self.ready.insert(id.0, co), ..self }
    }

    /// The completed `id` taken out for its result.
    pub open spec fn result_taken(self, id: CoroutineId) -> SchedulerView<H> {
        SchedulerView { completed: self.completed.remove(id.0), ..self }
    }

    /// The coroutine `id` forgotten by the tables of completed and yielding ones.
    pub open spec fn forgotten(self, id: CoroutineId) -> SchedulerView<H> {
        SchedulerView {
            completed: self.completed.remove(id.0),
            ready: self.ready.remove(id.0),
            ..self
        }
    }

    /// Whether the coroutine numbered `n` waits in the work queue.
    pub open spec fn queued(self, n: usize) -> bool {
        exists|i: int| #![trigger self.queue[i]] 0 <= i < self.queue.len() && self.queue[i].0.0 == n
    }

    /// Whether the coroutine numbered `n` waits on another one.
    pub open spec fn waiting(self, n: usize) -> bool {
        exists|k: usize| #![trigger self.blocked[k]] self.blocked.contains_key(k) && self.blocked[k].0.0 == n
    }

    /// Whether the scheduler holds the coroutine numbered `n` anywhere.
    pub open spec fn filed(self, n: usize) -> bool {
        self.queued(n) || self.waiting(n) || self.completed.contains_key(n) || self.ready.contains_key(n)
    }

    /// The numbers of the coroutines that the scheduler holds.
    pub open spec fn filed_ids(self) -> Set<usize> {
        Set::new(|n: usize| self.filed(n))
    }

    /// Each coroutine is held in one place only: once in the work queue, or
    /// as the waiter of one coroutine, or among the completed, or among the
    /// yielding ones.
    pub open spec fn filed_once(self) -> bool {
        &&& forall|i: int, j: int|
            0 <= i < self.queue.len() && 0 <= j < self.queue.len() && i != j
                ==> #[trigger] self.queue[i].0.0 != #[trigger] self.queue[j].0.0
        &&& forall|k1: usize, k2: usize|
            self.blocked.contains_key(k1) && self.blocked.contains_key(k2) && k1 != k2
                ==> #[trigger] self.blocked[k1].0.0 != #[trigger] self.blocked[k2].0.0
        &&& forall|i: int, k: usize|
            0 <= i < self.queue.len() && self.blocked.contains_key(k)
                ==> #[trigger] self.queue[i].0.0 != #[trigger] self.blocked[k].0.0
        &&& forall|i: int|
            #![trigger self.queue[i]]
            0 <= i < self.queue.len() ==> !self.completed.contains_key(self.queue[i].0.0)
                && !self.ready.contains_key(self.queue[i].0.0)
        &&& forall|k: usize|
            #![trigger self.blocked[k]]
            self.blocked.contains_key(k) ==> !self.completed.contains_key(self.blocked[k].0.0)
                && !self.ready.contains_key(self.blocked[k].0.0)
        &&& forall|n: usize| !(#[trigger] self.completed.contains_key(n) && #[trigger] self.ready.contains_key(n))
    }

    /// The handle kept in `table` under `id`, if any.
    pub open spec fn kept(table: Map<usize, H>, id: CoroutineId) -> Option<H> {
        if table.contains_key(id.0) {
            Some(table[id.0])
        } else {
            None
        }
    }
}

/// The scheduler of one thread's coroutines. `H` is the handle by which the
/// runtime resumes and unwinds a coroutine; the scheduler only files it.
/// Beside the queue and tables it keeps the numbers of the coroutines that it
/// holds, and the notifier: `None` stands for the notifier that never wakes
/// anyone.
pub struct Scheduler<H> {
    work_queue: VecDeque<(CoroutineId, H)>,
    blocked: HashMap<usize, (CoroutineId, H)>,
    completed: HashMap<usize, H>,
    ready_to_yield: HashMap<usize, H>,
    filed: HashSet<usize>,
    external_notifier: Option<Box<dyn ExternalNotifier>>,
}

impl<H> View for Scheduler<H> {
    type V = SchedulerView<H>;

    closed spec fn view(&self) -> SchedulerView<H> {
        SchedulerView {
            queue: self.work_queue@,
            blocked: self.blocked@,
            completed: self.completed@,
            ready: self.ready_to_yield@,
        }
    }
}

/// Polls the notifier `n` once with a fresh blocker, and hands back the
/// blocker with the coroutines that it named. Without a notifier nobody is
/// named.
pub fn poll_with(n: &Option<Box<dyn ExternalNotifier>>) -> (named: ExternalBlocker)
    ensures
        n is None ==> named.requested() == Seq::<CoroutineId>::empty(),
        n matches Some(b) ==> b.names(Seq::<CoroutineId>::empty(), named.requested()),
{
    let mut named = ExternalBlocker::new();
    if let Some(notifier) = n {
        notifier.poll(&mut named);
    }
    named
}

impl<H> Scheduler<H> {
    /// A scheduler in good order holds each coroutine in one place only.
    pub proof fn lemma_filed_once(&self)
        requires
            self.wf(),
        ensures
            self@.filed_once(),
    {
    }

    /// Every coroutine is held in one place only, and the numbers kept beside
    /// the tables are those of the coroutines held.
    pub closed spec fn wf(&self) -> bool {
        &&& self@.filed_once()
        &&& self.filed@ == self@.filed_ids()
    }

    /// The notifier that the scheduler polls; `None` never wakes anyone.
    pub closed spec fn notifier(&self) -> Option<Box<dyn ExternalNotifier>> {
        self.external_notifier
    }

    /// An idle scheduler whose notifier never wakes anyone.
    pub fn new() -> (sc: Scheduler<H>)
        ensures
            sc.wf(),
            sc@.queue == Seq::<(CoroutineId, H)>::empty(),
            sc@.blocked == Map::<usize, (CoroutineId, H)>::empty(),
            sc@.completed == Map::<usize, H>::empty(),
            sc@.ready == Map::<usize, H>::empty(),
            sc.notifier() is None,
    {
        let sc = Scheduler {
            work_queue: VecDeque::new(),
            blocked: HashMap::new(),
            completed: HashMap::new(),
            ready_to_yield: HashMap::new(),
            filed: HashSet::new(),
            external_notifier: None,
        };
        assert(sc@.filed_ids() =~= Set::<usize>::empty());
        sc
    }

    /// Whether the scheduler holds the coroutine `co_id` anywhere.
    pub fn is_filed(&self, co_id: CoroutineId) -> (b: bool)
        requires
            self.wf(),
        ensures
            b == self@.filed(co_id.0),
    {
        self.filed.contains(&co_id.0)
    }

    /// Puts a new coroutine, which the scheduler does not hold yet, at the
    /// back of the work queue.
    pub fn add_co(&mut self, id: CoroutineId, handle: H)
        requires
            old(self).wf(),
            !old(self)@.filed(id.0),
        ensures
            final(self).wf(),
            final(self).notifier() == old(self).notifier(),
            final(self)@ == old(self)@.added(id, handle),
    {
        proof {
            filing::adding_files_once(self@, id, handle);
        }
        self.work_queue.push_back((id, handle));
        self.filed.insert(id.0);
    }

    /// Wakes the coroutine that waits on `co_id`, if one does: it moves to the
    /// back of the work queue.
    pub fn unblock(&mut self, co_id: CoroutineId)
        requires
            old(self).wf(),
        ensures
            final(self).wf(),
            final(self).notifier() == old(self).notifier(),
            final(self)@ == old(self)@.unblock(co_id),
    {
        proof {
            filing::unblocking_files_once(self@, co_id);
        }
        if let Some(waiter) = self.blocked.remove(&co_id.0) {
            self.work_queue.push_back(waiter);
        } else {
            assert(self.blocked@ =~= old(self).blocked@);
        }
    }

    /// Wakes the waiters of the coroutines that `named` names, one after the
    /// other, in the order named.
    pub fn wake_named(&mut self, named: &ExternalBlocker)
        requires
            old(self).wf(),
        ensures
            final(self).wf(),
            final(self).notifier() == old(self).notifier(),
            final(self)@ == old(self)@.unblock_all(named.requested()),
    {
        let n = named.len();
        let ghost start = self@;
        let mut i: usize = 0;
        while i < n
            invariant
                i <= n,
                n == named.requested().len(),
                self.wf(),
                self.notifier() == old(self).notifier(),
                start == old(self)@,
                self@ == start.unblock_all(named.requested().take(i as int)),
            decreases n - i,
        {
            let id = named.at(i);
            proof {
                let ids = named.requested().take(i as int + 1);
                assert(ids.drop_last() =~= named.requested().take(i as int));
                assert(ids.last() == id);
            }
            self.unblock(id);
            i = i + 1;
        }
        proof {
            assert(named.requested().take(n as int) =~= named.requested());
        }
    }

    /// Polls the notifier, then wakes the waiters of the coroutines that it
    /// named, in the order named, and hands back what it named. Nothing else
    /// changes; a scheduler without a notifier wakes nobody.
    pub fn poll_notifier(&mut self) -> (named: ExternalBlocker)
        requires
            old(self).wf(),
        ensures
            final(self).wf(),
            final(self).notifier() == old(self).notifier(),
            final(self)@ == old(self)@.unblock_all(named.requested()),
            old(self).notifier() is None ==> named.requested() == Seq::<CoroutineId>::empty(),
            old(self).notifier() matches Some(b) ==> b.names(
                Seq::<CoroutineId>::empty(),
                named.requested(),
            ),
    {
        let named = poll_with(&self.external_notifier);
        self.wake_named(&named);
        named
    }

    /// Puts `n` in place of the notifier, and hands back the notifier that
    /// was there.
    pub fn replace_notifier(&mut self, n: Option<Box<dyn ExternalNotifier>>) -> (previous: Option<
        Box<dyn ExternalNotifier>,
    >)
        requires
            old(self).wf(),
        ensures
            final(self).wf(),
            previous == old(self).notifier(),
            final(self).notifier() == n,
            final(self)@ == old(self)@,
    {
        let mut previous = n;
        std::mem::swap(&mut self.external_notifier, &mut previous);
        previous
    }

    /// Where a wait starts: a coroutine that the caller waits for and that
    /// sits among the yielding ones is put back at the end of the work queue,
    /// so that it can go on to its next value.
    pub fn requeue_yielded(&mut self, wait_id: CoroutineId)
        requires
            old(self).wf(),
        ensures
            final(self).wf(),
            final(self).notifier() == old(self).notifier(),
            final(self)@ == old(self)@.requeued(wait_id),
    {
        proof {
            filing::requeuing_files_once(self@, wait_id);
        }
        if let Some(co) = self.ready_to_yield.remove(&wait_id.0) {
            self.work_queue.push_back((wait_id, co));
        } else {
            assert(self.ready_to_yield@ =~= old(self).ready_to_yield@);
        }
    }

    /// Takes the coroutine at the front of the work queue, if there is one;
    /// the scheduler holds it no more.
    pub fn pop_ready(&mut self) -> (next: Option<(CoroutineId, H)>)
        requires
            old(self).wf(),
        ensures
            final(self).wf(),
            final(self).notifier() == old(self).notifier(),
            old(self)@.queue.len() == 0 ==> next is None && final(self)@ == old(self)@,
            old(self)@.queue.len() > 0 ==> next == Some(old(self)@.queue[0]) && final(self)@
                == old(self)@.front_taken(),
            next matches Some(e) ==> !final(self)@.filed(e.0.0),
    {
        proof {
            if self@.queue.len() > 0 {
                filing::taking_front_files_once(self@);
            }
        }
        let next = self.work_queue.pop_front();
        proof {
            if old(self)@.queue.len() > 0 {
                assert(self.work_queue@ =~= old(self)@.queue.drop_first());
            }
        }
        if let Some(e) = &next {
            self.filed.remove(&e.0.0);
        }
        next
    }

    /// Files the coroutine `id`, which has just run and is now in `state`,
    /// while the loop waits for `wait_id`, and says what the loop does next.
    ///
    /// A coroutine that waits on another is filed under that one's number; one
    /// that completed or yielded wakes its waiter, and is kept when a waiter or
    /// the loop wants it. A completed coroutine that nobody wants, and a waiter
    /// displaced by a new one, are handed back to be dropped; a yielding one
    /// that nobody wants is handed back to be unwound.
    pub fn settle(&mut self, id: CoroutineId, co: H, state: CoroutineState, wait_id: CoroutineId) -> (next: AfterRun<H>)
        requires
            old(self).wf(),
            !old(self)@.filed(id.0),
            !(state is Ready),
        ensures
            final(self).wf(),
            final(self).notifier() == old(self).notifier(),
            final(self)@ == old(self)@.settled(id, co, state, wait_id),
            next == old(self)@.after_run(id, co, state, wait_id),
    {
        proof {
            filing::settling_files_once(self@, id, co, state, wait_id);
        }
        match state {
            CoroutineState::BlockedOnCo(on) => {
                let displaced = self.blocked.insert(on.0, (id, co));
                if let Some(gone) = &displaced {
                    self.filed.remove(&gone.0.0);
                }
                self.filed.insert(id.0);
                match displaced {
                    Some((_, handle)) => AfterRun::Release(handle),
                    None => AfterRun::KeepGoing,
                }
            },
            CoroutineState::Complete => {
                let waiter = self.blocked.remove(&id.0);
                proof {
                    if waiter is None {
                        assert(self.blocked@ =~= old(self).blocked@);
                    }
                }
                if waiter.is_none() && id != wait_id {
                    return AfterRun::Release(co);
                }
                self.completed.insert(id.0, co);
                self.filed.insert(id.0);
                if let Some(w) = waiter {
                    self.work_queue.push_back(w);
                }
                if id == wait_id {
                    AfterRun::WaitOver
                } else {
                    AfterRun::KeepGoing
                }
            },
            CoroutineState::ReadyToYield => {
                let waiter = self.blocked.remove(&id.0);
                proof {
                    if waiter is None {
                        assert(self.blocked@ =~= old(self).blocked@);
                    }
                }
                if waiter.is_some() || id == wait_id {
                    self.ready_to_yield.insert(id.0, co);
                    self.filed.insert(id.0);
                } else {
                    return AfterRun::Kill(co);
                }
                if let Some(w) = waiter {
                    self.work_queue.push_back(w);
                }
                if id == wait_id {
                    AfterRun::WaitOver
                } else {
                    AfterRun::KeepGoing
                }
            },
            CoroutineState::Ready => AfterRun::KeepGoing,
        }
    }

    /// How many coroutines wait in the work queue.
    pub fn work_queue_len(&self) -> (n: usize)
        ensures
            n == self@.queue.len(),
    {
        self.work_queue.len()
    }

    /// How many coroutines wait on another one.
    pub fn blocked_len(&self) -> (n: usize)
        ensures
            n == self@.blocked.len(),
    {
        self.blocked.len()
    }

    /// How many completed coroutines are kept for their result.
    pub fn completed_len(&self) -> (n: usize)
        ensures
            n == self@.completed.len(),
    {
        self.completed.len()
    }

    /// How many coroutines are kept with a value to yield.
    pub fn ready_to_yield_len(&self) -> (n: usize)
        ensures
            n == self@.ready.len(),
    {
        self.ready_to_yield.len()
    }

    /// Whether some coroutine waits on `co_id`.
    pub fn has_waiter(&self, co_id: CoroutineId) -> (b: bool)
        ensures
            b == self@.blocked.contains_key(co_id.0),
    {
        self.blocked.contains_key(&co_id.0)
    }

    /// Whether the coroutine `co_id` has completed and is kept for its result.
    pub fn has_completed(&self, co_id: CoroutineId) -> (b: bool)
        ensures
            b == self@.completed.contains_key(co_id.0),
    {
        self.completed.contains_key(&co_id.0)
    }

    /// Whether the coroutine `co_id` is kept with a value to yield.
    pub fn has_yielded(&self, co_id: CoroutineId) -> (b: bool)
        ensures
            b == self@.ready.contains_key(co_id.0),
    {
        self.ready_to_yield.contains_key(&co_id.0)
    }

    /// The first half of asking a stream for its next value, once the wait for
    /// it is over. A completed coroutine has nothing more to give: it is let go,
    /// and the answer is `None`. Otherwise its yielding handle is lent out, to
    /// take the value from, until `restore_yielded` files it again.
    pub fn get_yield_for(&mut self, co_id: CoroutineId) -> (lent: Option<H>)
        requires
            old(self).wf(),
            old(self)@.completed.contains_key(co_id.0) || old(self)@.ready.contains_key(co_id.0),
        ensures
            final(self).wf(),
            final(self).notifier() == old(self).notifier(),
            final(self)@ == old(self)@.yield_taken(co_id),
            !final(self)@.filed(co_id.0),
            lent == (if old(self)@.completed.contains_key(co_id.0) {
                None
            } else {
                Some(old(self)@.ready[co_id.0])
            }),
    {
        proof {
            filing::taking_a_yield_files_once(self@, co_id);
        }
        self.filed.remove(&co_id.0);
        if let Some(_) = self.completed.remove(&co_id.0) {
            return None;
        }
        proof {
            assert(self.completed@ =~= old(self).completed@);
        }
        self.ready_to_yield.remove(&co_id.0)
    }

    /// Files a yielding coroutine again after its value was taken.
    pub fn restore_yielded(&mut self, co_id: CoroutineId, co: H)
        requires
            old(self).wf(),
            !old(self)@.filed(co_id.0),
        ensures
            final(self).wf(),
            final(self).notifier() == old(self).notifier(),
            final(self)@ == old(self)@.restored(co_id, co),
    {
        proof {
            filing::restoring_files_once(self@, co_id, co);
        }
        self.ready_to_yield.insert(co_id.0, co);
        self.filed.insert(co_id.0);
    }

    /// Takes the result holder of a completed coroutine out of the scheduler.
    pub fn take_completed(&mut self, co_id: CoroutineId) -> (co: H)
        requires
            old(self).wf(),
            old(self)@.completed.contains_key(co_id.0),
        ensures
            final(self).wf(),
            final(self).notifier() == old(self).notifier(),
            co == old(self)@.completed[co_id.0],
            final(self)@ == old(self)@.result_taken(co_id),
            !final(self)@.filed(co_id.0),
    {
        proof {
            filing::taking_a_result_files_once(self@, co_id);
        }
        self.filed.remove(&co_id.0);
        let co = self.completed.remove(&co_id.0);
        co.unwrap()
    }

    /// Forgets the coroutine `co`, whose stream is gone: it leaves the tables
    /// of completed and of yielding coroutines, and its handles come back,
    /// completed one first, for the runtime to unwind.
    pub fn drop_co(&mut self, co: CoroutineId) -> (gone: (Option<H>, Option<H>))
        requires
            old(self).wf(),
        ensures
            final(self).wf(),
            final(self).notifier() == old(self).notifier(),
            gone.0 == SchedulerView::kept(old(self)@.completed, co),
            gone.1 == SchedulerView::kept(old(self)@.ready, co),
            final(self)@ == old(self)@.forgotten(co),
    {
        proof {
            filing::forgetting_files_once(self@, co);
        }
        let done = self.completed.remove(&co.0);
        let yielding = self.ready_to_yield.remove(&co.0);
        if done.is_some() || yielding.is_some() {
            self.filed.remove(&co.0);
        }
        proof {
            if done is None {
                assert(self.completed@ =~= old(self).completed@.remove(co.0));
            }
            if yielding is None {
                assert(self.ready_to_yield@ =~= old(self).ready_to_yield@.remove(co.0));
            }
        }
        (done, yielding)
    }
}

/// Replaces the notifier that the scheduler polls while it waits by `n`; the
/// coroutines and their filing stay as they are.
pub fn set_notifier<H>(sc: &mut Scheduler<H>, n: Box<dyn ExternalNotifier>)
    requires
        old(sc).wf(),
    ensures
        final(sc).wf(),
        final(sc).notifier() == Some(n),
        final(sc)@ == old(sc)@,
{
    let mut replaced = Some(n);
    std::mem::swap(&mut sc.external_notifier, &mut replaced);
}

} // verus!
