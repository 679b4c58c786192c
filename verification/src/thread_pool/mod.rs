//! Pools of worker threads.
pub mod laws;
pub mod pool;
pub mod state;
pub mod threads;
pub mod work_laws;

pub use self::threads::{Scheduled, ScheduledThreadPool, ThreadPool, WorkQueue};
