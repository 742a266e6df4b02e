use vstd::prelude::*;

use context::stack::ProtectedFixedSizeStack;

verus! {

/// The machine stacks that coroutines run on, from the `context` crate: a
/// region of memory with a guard page below it. Opaque here.
#[verifier::external_type_specification]
#[verifier::external_body]
pub struct ExProtectedFixedSizeStack(ProtectedFixedSizeStack);

/// How many stacks a new pool holds.
pub const INITIAL_STACKS: usize = 500;

/// Allocates one guarded stack of the platform's default size, through
/// `ProtectedFixedSizeStack::default` of `context`. Nothing is claimed of the
/// stack; that call panics when the system refuses the memory, which no
/// clause here excludes.
#[verifier::external_body]
fn allocate_stack() -> ProtectedFixedSizeStack {
    ProtectedFixedSizeStack::default()
}

/// How many stacks the pool's vector can hold without reallocating, through
/// `Vec::capacity`: at least as many as it holds. The number is the
/// allocator's choice, so nothing more is claimed of it.
#[verifier::external_body]
fn spare_capacity(v: &Vec<ProtectedFixedSizeStack>) -> (c: usize)
    ensures
        c >= v@.len(),
{
    v.capacity()
}

/// Stacks kept for reuse, so that starting a coroutine seldom allocates.
pub struct StackPool {
    pool: Vec<ProtectedFixedSizeStack>,
}

impl StackPool {
    /// The stacks in the pool; the last one is handed out first.
    pub closed spec fn stacks(&self) -> Seq<ProtectedFixedSizeStack> {
        self.pool@
    }

    /// A pool of `INITIAL_STACKS` freshly allocated stacks.
    pub fn new() -> (p: StackPool)
        ensures
            p.stacks().len() == INITIAL_STACKS,
    {
        let mut v: Vec<ProtectedFixedSizeStack> = Vec::with_capacity(INITIAL_STACKS);
        let mut i: usize = 0;
        while i < INITIAL_STACKS
            invariant
                i <= INITIAL_STACKS,
                v@.len() == i,
            decreases INITIAL_STACKS - i,
        {
            v.push(allocate_stack());
            i = i + 1;
        }
        StackPool { pool: v }
    }

    /// How many stacks the pool holds.
    pub fn len(&self) -> (n: usize)
        ensures
            n == self.stacks().len(),
    {
        self.pool.len()
    }

    /// Returns a stack to the pool.
    pub fn give(&mut self, stack: ProtectedFixedSizeStack)
        ensures
            final(self).stacks() == old(self).stacks().push(stack),
    {
        self.pool.push(stack);
    }

    /// Hands out the stack that came in last; an empty pool grows first.
    /// Should growth add nothing, a stack is allocated for the caller alone.
    pub fn get(&mut self) -> (stack: ProtectedFixedSizeStack)
        ensures
            old(self).stacks().len() > 0 ==> stack == old(self).stacks().last()
                && final(self).stacks() == old(self).stacks().drop_last(),
            old(self).stacks().len() == 0 ==> exists|c: nat| #[trigger]
                taken_after_growth(final(self).stacks().len(), c),
    {
        let ghost mut growth: nat = 0;
        let mut stack_opt = self.pool.pop();
        if stack_opt.is_none() {
            let ghost before = self.pool@;
            self.grow();
            proof {
                growth = choose|c: nat| c >= before.len() && #[trigger] grown(before, self.pool@, c);
            }
            stack_opt = self.pool.pop();
        }
        let stack = match stack_opt {
            Some(stack) => stack,
            None => allocate_stack(),
        };
        proof {
            if old(self).stacks().len() == 0 {
                assert(taken_after_growth(self.stacks().len(), growth));
            }
        }
        stack
    }

    /// Adds twice as many fresh stacks as the pool's vector can hold (which is
    /// at least as many as it holds), after the stacks already there.
    pub fn grow(&mut self)
        ensures
            exists|c: nat| c >= old(self).stacks().len() && #[trigger] grown(
                old(self).stacks(),
                final(self).stacks(),
                c,
            ),
    {
        let cap = spare_capacity(&self.pool);
        self.grow_by(cap);
    }

    /// Adds `2 * c` fresh stacks after the stacks already there.
    pub fn grow_by(&mut self, c: usize)
        ensures
            grown(old(self).stacks(), final(self).stacks(), c as nat),
    {
        let ghost start = self.pool@;
        let mut i: usize = 0;
        while i < c
            invariant
                i <= c,
                self.pool@.len() == start.len() + 2 * i,
                self.pool@.subrange(0, start.len() as int) == start,
            decreases c - i,
        {
            self.pool.push(allocate_stack());
            self.pool.push(allocate_stack());
            i = i + 1;
        }
    }
}

/// `after` is `before` followed by `2 * c` more stacks.
pub open spec fn grown(before: Seq<ProtectedFixedSizeStack>, after: Seq<ProtectedFixedSizeStack>, c: nat) -> bool {
    &&& after.len() == before.len() + 2 * c
    &&& after.subrange(0, before.len() as int) == before
}

/// The length of an empty pool that grew by `2 * c` stacks and then handed
/// one out; with no growth, it stays empty.
pub open spec fn taken_after_growth(len: nat, c: nat) -> bool {
    if c == 0 {
        len == 0
    } else {
        len + 1 == 2 * c
    }
}

/// What lending a stack does to a pool of `before`, leaving `after`: the
/// last stack of a non-empty pool is lent and leaves it; an empty pool first
/// grows by `2 * c` stacks for some `c` and lends one of them (with no growth
/// at all, the stack lent is allocated alone).
pub open spec fn lends(before: Seq<ProtectedFixedSizeStack>, after: Seq<ProtectedFixedSizeStack>, lent: ProtectedFixedSizeStack) -> bool {
    &&& before.len() > 0 ==> lent == before.last() && after == before.drop_last()
    &&& before.len() == 0 ==> exists|c: nat| #[trigger] taken_after_growth(after.len(), c)
}

/// Lending a stack and giving it back never loses a stack: a non-empty pool
/// is as it was, and an empty one ends up with the `2 * c` stacks it grew by,
/// or with the single stack allocated alone.
pub proof fn lend_and_return_loses_nothing(
    before: Seq<ProtectedFixedSizeStack>,
    after_lend: Seq<ProtectedFixedSizeStack>,
    lent: ProtectedFixedSizeStack,
)
    requires
        lends(before, after_lend, lent),
    ensures
        after_lend.push(lent).len() >= before.len(),
        before.len() > 0 ==> after_lend.push(lent) == before,
        before.len() == 0 ==> exists|c: nat|
            #[trigger] taken_after_growth(after_lend.len(), c) && after_lend.push(lent).len() == (
            if c == 0 {
                1
            } else {
                2 * c
            }),
{
    if before.len() > 0 {
        lend_and_return_restores(before);
    } else {
        let c = choose|c: nat| #[trigger] taken_after_growth(after_lend.len(), c);
        assert(taken_after_growth(after_lend.len(), c));
    }
}

/// Lending the pool's next stack and giving it back leaves a non-empty pool
/// as it was.
pub proof fn lend_and_return_restores(stacks: Seq<ProtectedFixedSizeStack>)
    requires
        stacks.len() > 0,
    ensures
        stacks.drop_last().push(stacks.last()) == stacks,
{
    assert(stacks.drop_last().push(stacks.last()) =~= stacks);
}

/// A stack lent out of a pool for one coroutine; it goes back to the pool
/// when the coroutine is gone.
pub struct PooledStack(Option<ProtectedFixedSizeStack>);

impl PooledStack {
    #[verifier::type_invariant]
    spec fn holds_stack(self) -> bool {
        self.0 is Some
    }

    /// The stack lent out.
    pub closed spec fn lent(self) -> ProtectedFixedSizeStack {
        self.0->Some_0
    }

    /// Lends out the pool's next stack.
    pub fn new(pool: &mut StackPool) -> (p: PooledStack)
        ensures
            lends(old(pool).stacks(), final(pool).stacks(), p.lent()),
    {
        PooledStack(Some(pool.get()))
    }

    /// The stack lent out.
    pub fn stack(&self) -> (s: &ProtectedFixedSizeStack)
        ensures
            *s == self.lent(),
    {
        proof {
            use_type_invariant(self);
        }
        self.0.as_ref().unwrap()
    }

    /// Returns the stack to the pool it came from.
    pub fn give_back(self, pool: &mut StackPool)
        ensures
            final(pool).stacks() == old(pool).stacks().push(self.lent()),
    {
        proof {
            use_type_invariant(&self);
        }
        let PooledStack(stack) = self;
        pool.give(stack.unwrap());
    }
}

} // verus!
