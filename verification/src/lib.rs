//! Building blocks of concurrent programs: queues, futures and streams, thread
//! pools, and the steps of the locks under them.
//!
//! Every type here is the state of one monitor. An operation is one critical
//! section on that state, taken through `&mut`, and says in its result what has
//! to happen outside: a thread to start, to wake or to put to sleep, a callback
//! to invoke. An operation that may block is one turn of its waiting loop.
//!
//! The queues can also be used inside another monitor, through the traits `Queue`
//! and `SyncQueue`. Then it is the other monitor that says whom to wake.

pub mod util;
pub mod queue;
pub mod thread_pool;
pub mod linked_queue;
mod clock;
pub mod duration;
pub mod delay_queue;
pub mod run;
pub mod future;
pub mod locks;
