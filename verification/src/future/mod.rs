//! Futures.
pub mod future;
pub mod laws;
pub mod share_laws;
pub mod val;

pub use self::future::{Cancel, Future, FutureError, FutureErrorKind, FutureResult, SyncFuture};
pub use self::val::{future, FutureVal};
