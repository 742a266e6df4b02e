# monkeys

Coroutines with async/await/yield for Rust, on machine stacks switched by the
`context` crate.

- `src/` is the verified library: coroutine identities (`id`), the scheduler's
  work queue and tables with the decision taken after each run of a coroutine
  (`scheduler`), streams (`stream`), the notifier hook (`notify`), the polling
  rhythm (`poll`), the pool of machine stacks (`stack`), the order of
  identities (`order`), the proof that every operation keeps each coroutine
  filed in one place (`filing`), and the laws that tie these operations
  together (`laws`, and `poll`, `stream` and `stack` for their own).
- `app/` is the runtime around it: stack switching, the thread's scheduler,
  and the loop that runs coroutines until the awaited one completes or yields.
