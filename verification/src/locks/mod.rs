//! The steps of parking a thread and of waiting on a condition variable.
pub mod lock_laws;
pub mod mutex;
pub mod park;

pub use self::park::{park, park_timed, Parker};
