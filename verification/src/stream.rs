use vstd::prelude::*;

use std::marker::PhantomData;

use crate::id::{CoroutineId, IdCounter};
use crate::scheduler::{Scheduler, SchedulerView};

verus! {

/// The caller's side of a coroutine: a stream of values of type `Y` and a
/// final result of type `R`. An external stream stands for an event that
/// comes from outside (through the notifier) rather than from a coroutine.
pub struct Stream<Y, R> {
    is_done: bool,
    is_external: bool,
    co_id: CoroutineId,
    types: PhantomData<(Y, R)>,
}

impl<Y, R> Stream<Y, R> {
    /// The coroutine that the stream reads from.
    pub closed spec fn id(&self) -> CoroutineId {
        self.co_id
    }

    /// Whether the stream has given its last value.
    pub closed spec fn done(&self) -> bool {
        self.is_done
    }

    /// Whether the stream stands for an outside event.
    pub closed spec fn external(&self) -> bool {
        self.is_external
    }

    /// The stream of the coroutine `co_id`, which has values yet to give.
    pub fn for_coroutine(co_id: CoroutineId) -> (s: Stream<Y, R>)
        ensures
            s.id() == co_id,
            !s.done(),
            !s.external(),
    {
        Stream { is_done: false, is_external: false, co_id, types: PhantomData }
    }

    /// The coroutine that the stream reads from.
    pub fn co_id(&self) -> (id: CoroutineId)
        ensures
            id == self.id(),
    {
        self.co_id
    }

    /// Whether the stream has given its last value.
    pub fn is_done(&self) -> (b: bool)
        ensures
            b == self.done(),
    {
        self.is_done
    }

    /// Whether the stream stands for an outside event.
    pub fn is_external(&self) -> (b: bool)
        ensures
            b == self.external(),
    {
        self.is_external
    }

    /// The coroutine to ask for the stream's next value; a done stream asks
    /// nobody, and its answer is `None` from then on.
    pub fn next_source(&self) -> (source: Option<CoroutineId>)
        ensures
            source == (if self.done() {
                None
            } else {
                Some(self.id())
            }),
    {
        if self.is_done {
            None
        } else {
            Some(self.co_id)
        }
    }

    /// The answer to a request for the stream's next value, given what the
    /// coroutine gave when asked: a done stream answers nothing; otherwise
    /// the answer is what was given, and once that is nothing, the stream is
    /// done for good.
    pub fn record_next<T>(&mut self, item: Option<T>) -> (out: Option<T>)
        ensures
            out == next_answer(old(self).done(), item),
            final(self).done() == done_after(old(self).done(), item),
            final(self).id() == old(self).id(),
            final(self).external() == old(self).external(),
    {
        if self.is_done {
            return None;
        }
        if item.is_none() {
            self.is_done = true;
        }
        item
    }

    /// What goes when the stream goes: the scheduler forgets its coroutine,
    /// and hands back the handles that it kept of it, to be unwound. An
    /// external stream has no coroutine, and nothing changes.
    pub fn release<H>(&self, sc: &mut Scheduler<H>) -> (gone: (Option<H>, Option<H>))
        requires
            old(sc).wf(),
        ensures
            final(sc).wf(),
            final(sc).notifier() == old(sc).notifier(),
            self.external() ==> gone.0 is None && gone.1 is None && final(sc)@ == old(sc)@,
            !self.external() ==> gone.0 == SchedulerView::kept(old(sc)@.completed, self.id())
                && gone.1 == SchedulerView::kept(old(sc)@.ready, self.id()) && final(sc)@ == old(
                sc,
            )@.forgotten(self.id()),
    {
        if self.is_external {
            return (None, None);
        }
        sc.drop_co(self.co_id)
    }
}

impl<R> Stream<(), R> {
    /// Once its coroutine has completed, takes the handle that holds the
    /// result out of the scheduler.
    pub fn get<H>(self, sc: &mut Scheduler<H>) -> (co: H)
        requires
            old(sc).wf(),
            old(sc)@.completed.contains_key(self.id().0),
        ensures
            final(sc).wf(),
            final(sc).notifier() == old(sc).notifier(),
            !final(sc)@.filed(self.id().0),
            co == old(sc)@.completed[self.id().0],
            final(sc)@ == old(sc)@.result_taken(self.id()),
    {
        sc.take_completed(self.co_id)
    }
}

/// What successive requests for the next value answer, when the coroutine
/// would give `items[i]` on request `i` and the stream starts out done or
/// not: a done stream answers nothing and asks nothing; a stream that is
/// given nothing is done from then on.
pub open spec fn answers<T>(done: bool, items: Seq<Option<T>>) -> Seq<Option<T>>
    decreases items.len(),
{
    if items.len() == 0 {
        Seq::empty()
    } else {
        seq![next_answer(done, items[0])] + answers(done_after(done, items[0]), items.drop_first())
    }
}

/// The answer to one request for the next value of a stream that is done or
/// not, when the coroutine would give `item`.
pub open spec fn next_answer<T>(done: bool, item: Option<T>) -> Option<T> {
    if done {
        None
    } else {
        item
    }
}

/// Whether the stream is done after that request.
pub open spec fn done_after<T>(done: bool, item: Option<T>) -> bool {
    done || item is None
}

/// Successive requests for the next value, each one answered as
/// `record_next` answers it and each one starting where the last left off,
/// answer exactly `answers`: the coroutine's values in order up to the first
/// time it gives nothing, and nothing ever after (`stream_ends_for_good`).
pub proof fn nexts_follow_answers<T>(dones: Seq<bool>, items: Seq<Option<T>>, outs: Seq<Option<T>>)
    requires
        dones.len() == items.len() + 1,
        outs.len() == items.len(),
        forall|i: int|
            0 <= i < items.len() ==> #[trigger] outs[i] == next_answer(dones[i], items[i])
                && dones[i + 1] == done_after(dones[i], items[i]),
    ensures
        outs == answers(dones[0], items),
    decreases items.len(),
{
    if items.len() > 0 {
        assert forall|i: int| 0 <= i < items.len() - 1 implies #[trigger] outs.drop_first()[i]
            == next_answer(dones.drop_first()[i], items.drop_first()[i]) && dones.drop_first()[i + 1]
            == done_after(dones.drop_first()[i], items.drop_first()[i]) by {
            assert(outs[i + 1] == next_answer(dones[i + 1], items[i + 1]));
        }
        nexts_follow_answers(dones.drop_first(), items.drop_first(), outs.drop_first());
        assert(outs[0] == next_answer(dones[0], items[0]));
        assert(outs =~= seq![outs[0]] + outs.drop_first());
    }
}

/// A stream gives the values of its coroutine in order up to the first time
/// it is given nothing, and nothing ever after.
pub proof fn stream_ends_for_good<T>(items: Seq<Option<T>>, i: int)
    requires
        0 <= i < items.len(),
    ensures
        answers(false, items).len() == items.len(),
        answers(false, items)[i] == (if forall|j: int| 0 <= j < i ==> #[trigger] items[j] is Some {
            items[i]
        } else {
            None
        }),
    decreases items.len(),
{
    answers_len(false, items);
    if i > 0 {
        stream_ends_for_good(items.drop_first(), i - 1);
        if items[0] is None {
            answers_done(items.drop_first(), i - 1);
            assert(!(forall|j: int| 0 <= j < i ==> #[trigger] items[j] is Some)) by {
                assert(!(items[0] is Some));
            }
        } else {
            assert((forall|j: int| 0 <= j < i ==> #[trigger] items[j] is Some) == (forall|j: int|
                0 <= j < i - 1 ==> #[trigger] items.drop_first()[j] is Some)) by {
                if forall|j: int| 0 <= j < i - 1 ==> #[trigger] items.drop_first()[j] is Some {
                    assert forall|j: int| 0 <= j < i implies #[trigger] items[j] is Some by {
                        if j > 0 {
                            assert(items[j] == items.drop_first()[j - 1]);
                        }
                    }
                }
                if forall|j: int| 0 <= j < i ==> #[trigger] items[j] is Some {
                    assert forall|j: int| 0 <= j < i - 1 implies #[trigger] items.drop_first()[j] is Some by {
                        assert(items[j + 1] == items.drop_first()[j]);
                    }
                }
            }
        }
    }
}

proof fn answers_len<T>(done: bool, items: Seq<Option<T>>)
    ensures
        answers(done, items).len() == items.len(),
    decreases items.len(),
{
    if items.len() > 0 {
        let first = if done { None } else { items[0] };
        answers_len(done || first is None, items.drop_first());
    }
}

proof fn answers_done<T>(items: Seq<Option<T>>, i: int)
    requires
        0 <= i < items.len(),
    ensures
        answers(true, items)[i] is None,
    decreases items.len(),
{
    answers_len(true, items);
    if i > 0 {
        answers_done(items.drop_first(), i - 1);
    }
}

/// A stream for an outside event, with a fresh identity under which the
/// notifier can wake whoever awaits it.
pub fn new_empty_stream(counter: &mut IdCounter) -> (made: (CoroutineId, Stream<(), ()>))
    requires
        old(counter).next_id() < usize::MAX,
    ensures
        made.0.value() == old(counter).next_id(),
        final(counter).next_id() == old(counter).next_id() + 1,
        made.1.id() == made.0,
        made.1.external(),
        !made.1.done(),
{
    let co_id = CoroutineId::new(counter);
    let stream = Stream { is_done: false, is_external: true, co_id, types: PhantomData };
    (co_id, stream)
}

} // verus!
