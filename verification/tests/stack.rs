use monkeys::{PooledStack, StackPool, INITIAL_STACKS};

#[test]
fn pool_lends_and_takes_back() {
    let mut pool = StackPool::new();
    assert_eq!(pool.len(), INITIAL_STACKS);
    let lent = PooledStack::new(&mut pool);
    assert_eq!(pool.len(), INITIAL_STACKS - 1);
    assert!(lent.stack().len() > 0);
    lent.give_back(&mut pool);
    assert_eq!(pool.len(), INITIAL_STACKS);
}

#[test]
fn empty_pool_grows() {
    let mut pool = StackPool::new();
    let mut held = Vec::new();
    for _ in 0..INITIAL_STACKS {
        held.push(pool.get());
    }
    assert_eq!(pool.len(), 0);
    let extra = pool.get();
    assert!(pool.len() >= 2 * INITIAL_STACKS - 1);
    assert_eq!(pool.len() % 2, 1);
    pool.give(extra);
    for s in held {
        pool.give(s);
    }
    assert!(pool.len() >= 3 * INITIAL_STACKS);
}

#[test]
fn grow_by_adds_twice_the_count() {
    let mut pool = StackPool::new();
    pool.grow_by(3);
    assert_eq!(pool.len(), INITIAL_STACKS + 6);
    pool.grow_by(0);
    assert_eq!(pool.len(), INITIAL_STACKS + 6);
}

#[test]
fn lend_and_return_on_empty_pool_keeps_the_stack() {
    let mut pool = StackPool::new();
    let mut held = Vec::new();
    for _ in 0..INITIAL_STACKS {
        held.push(pool.get());
    }
    assert_eq!(pool.len(), 0);
    let lent = PooledStack::new(&mut pool);
    let after_lend = pool.len();
    lent.give_back(&mut pool);
    assert_eq!(pool.len(), after_lend + 1);
    assert_eq!(pool.len() % 2, 0);
}
