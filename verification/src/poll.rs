use vstd::prelude::*;

verus! {

/// How many turns of the scheduler's loop pass without polling the notifier.
pub const POLL_SKIP: u32 = 10000;

/// Whether the turn that finds `count` turns counted polls the notifier.
pub open spec fn polls_at(count: nat) -> bool {
    count > POLL_SKIP
}

/// The count after one more turn.
pub open spec fn after_tick(count: nat) -> nat {
    if polls_at(count) {
        1
    } else {
        count + 1
    }
}

/// The count after `k` more turns.
pub open spec fn count_after(count: nat, k: nat) -> nat
    decreases k,
{
    if k == 0 {
        count
    } else {
        after_tick(count_after(count, (k - 1) as nat))
    }
}

/// Counts the turns of the scheduler's loop, so that the notifier is polled
/// only once in a while.
pub struct PollSkipper {
    skipped: u32,
}

impl PollSkipper {
    #[verifier::type_invariant]
    spec fn bounded(self) -> bool {
        self.skipped <= POLL_SKIP + 1
    }

    /// The turns counted since the last poll.
    pub closed spec fn count(self) -> nat {
        self.skipped as nat
    }

    /// A counter at the start of a wait.
    pub fn new() -> (p: PollSkipper)
        ensures
            p.count() == 0,
    {
        PollSkipper { skipped: 0 }
    }

    /// Counts one turn, and says whether the notifier is polled on it: when
    /// more than `POLL_SKIP` turns have passed, after which the count starts over.
    pub fn tick(&mut self) -> (poll_now: bool)
        ensures
            poll_now == polls_at(old(self).count()),
            final(self).count() == after_tick(old(self).count()),
    {
        proof {
            use_type_invariant(&*self);
        }
        let poll_now = self.skipped > POLL_SKIP;
        if poll_now {
            self.skipped = 1;
        } else {
            self.skipped = self.skipped + 1;
        }
        poll_now
    }
}

/// Counting from `count`, the next `k` turns find the counts `count`,
/// `count + 1`, ..., and none of them polls, as long as none of those counts
/// exceeds `POLL_SKIP`.
proof fn quiet_turns(count: nat, k: nat)
    requires
        count + k <= POLL_SKIP + 1,
    ensures
        count_after(count, k) == count + k,
        forall|j: nat| j < k ==> !#[trigger] polls_at(count_after(count, j)),
    decreases k,
{
    if k > 0 {
        quiet_turns(count, (k - 1) as nat);
        assert forall|j: nat| j < k implies !#[trigger] polls_at(count_after(count, j)) by {
            if j < k - 1 {
            } else {
                assert(count_after(count, j) == count + j);
            }
        }
    }
}

/// The notifier is polled once in every `POLL_SKIP + 1` turns: after a poll,
/// the next `POLL_SKIP` turns do not poll, the one after them does, and
/// the count is back where it was after the first poll; a
/// fresh counter first polls on its turn number `POLL_SKIP + 2`.
pub proof fn polls_once_per_period()
    ensures
        forall|j: nat| j < POLL_SKIP ==> !#[trigger] polls_at(count_after(1, j)),
        polls_at(count_after(1, POLL_SKIP as nat)),
        count_after(1, POLL_SKIP as nat + 1) == 1,
        forall|j: nat| j <= POLL_SKIP ==> !#[trigger] polls_at(count_after(0, j)),
        polls_at(count_after(0, POLL_SKIP as nat + 1)),
{
    quiet_turns(1, POLL_SKIP as nat);
    quiet_turns(0, POLL_SKIP as nat + 1);
}

} // verus!
