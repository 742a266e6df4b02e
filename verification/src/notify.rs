use vstd::prelude::*;

use crate::id::CoroutineId;

verus! {

/// What a notifier hands back while it is polled: the coroutines whose
/// outside event has arrived, in the order in which they were named.
pub struct ExternalBlocker {
    requests: Vec<CoroutineId>,
}

impl ExternalBlocker {
    /// The coroutines named so far, in order.
    pub closed spec fn requested(&self) -> Seq<CoroutineId> {
        self.requests@
    }

    /// A blocker that names no coroutine yet.
    pub fn new() -> (b: ExternalBlocker)
        ensures
            b.requested() == Seq::<CoroutineId>::empty(),
    {
        ExternalBlocker { requests: Vec::new() }
    }

    /// Asks the scheduler to wake the coroutine that waits on `co_id`, if one
    /// does. The request is recorded, and the scheduler wakes the waiters in
    /// the order named once the poll has returned (`Scheduler::wake_named`);
    /// a coroutine that the notifier starts during the same poll therefore
    /// joins the work queue before the waiters that it wakes.
    pub fn unblock_with(&mut self, co_id: CoroutineId)
        ensures
            final(self).requested() == old(self).requested().push(co_id),
    {
        self.requests.push(co_id);
    }

    /// The number of coroutines named so far.
    pub fn len(&self) -> (n: usize)
        ensures
            n == self.requested().len(),
    {
        self.requests.len()
    }

    /// The coroutine named at position `i`.
    pub fn at(&self, i: usize) -> (id: CoroutineId)
        requires
            i < self.requested().len(),
        ensures
            id == self.requested()[i as int],
    {
        self.requests[i]
    }
}

/// A source of outside events (timers, sockets, ...) that the scheduler polls
/// now and then while it waits; it wakes waiting coroutines through the blocker.
pub trait ExternalNotifier {
    /// Which coroutines a poll may name: those named before it are `before`,
    /// and those named after it are `after`. A notifier may narrow this down
    /// (the unit notifier names nobody); by default any naming is allowed.
    open spec fn names(&self, before: Seq<CoroutineId>, after: Seq<CoroutineId>) -> bool {
        true
    }

    /// Names, through the blocker, the coroutines whose outside event has
    /// arrived.
    fn poll(&self, blocker: &mut ExternalBlocker)
        ensures
            self.names(old(blocker).requested(), final(blocker).requested()),
    ;
}

/// The notifier that never wakes anyone.
impl ExternalNotifier for () {
    open spec fn names(&self, before: Seq<CoroutineId>, after: Seq<CoroutineId>) -> bool {
        after == before
    }

    fn poll(&self, blocker: &mut ExternalBlocker) {
    }
}

} // verus!
