use vstd::prelude::*;

verus! {

/// The identity of a coroutine: a plain number, handed out once per coroutine.
#[derive(Clone, Copy, PartialEq, Eq, Structural, Hash, Debug, Ord)]
pub struct CoroutineId(pub usize);

/// Source of fresh coroutine identities: each identity is the next number.
pub struct IdCounter {
    next: usize,
}

impl IdCounter {
    /// The identity that the counter hands out next.
    pub closed spec fn next_id(&self) -> nat {
        self.next as nat
    }

    /// A counter that starts at zero.
    pub fn new() -> (c: IdCounter)
        ensures
            c.next_id() == 0,
    {
        IdCounter { next: 0 }
    }

    /// The identity that the counter hands out next.
    pub fn peek(&self) -> (n: usize)
        ensures
            n == self.next_id(),
    {
        self.next
    }
}

impl CoroutineId {
    /// The number of this identity.
    pub open spec fn value(self) -> nat {
        self.0 as nat
    }

    /// A fresh identity: the counter's current number, after which the counter
    /// moves on by one.
    pub fn new(counter: &mut IdCounter) -> (id: CoroutineId)
        requires
            old(counter).next_id() < usize::MAX,
        ensures
            id.value() == old(counter).next_id(),
            final(counter).next_id() == old(counter).next_id() + 1,
    {
        let id = counter.next;
        counter.next = id + 1;
        CoroutineId(id)
    }

    /// The identity with the given number.
    pub fn from_usize(u: usize) -> (id: CoroutineId)
        ensures
            id.value() == u,
    {
        CoroutineId(u)
    }

    /// The number of this identity.
    pub fn as_usize(&self) -> (u: usize)
        ensures
            u == self.value(),
    {
        self.0
    }
}

} // verus!
