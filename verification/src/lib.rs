//! Bookkeeping of a cooperative coroutine runtime: coroutine identities,
//! the scheduler's queues and tables, streams, the notifier hook and the
//! pool of machine stacks that coroutines run on.

pub mod filing;
pub mod id;
pub mod laws;
pub mod notify;
pub mod order;
pub mod poll;
pub mod scheduler;
pub mod stack;
pub mod stream;
pub mod transitions;

pub use id::{CoroutineId, IdCounter};
pub use notify::{ExternalBlocker, ExternalNotifier};
pub use scheduler::{poll_with, set_notifier, AfterRun, CoroutineState, Scheduler, SchedulerView};
pub use poll::{PollSkipper, POLL_SKIP};
pub use stream::{answers, new_empty_stream, Stream};
pub use stack::{PooledStack, StackPool, INITIAL_STACKS};
