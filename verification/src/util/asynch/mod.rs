//! Asynchronous values.
//!
//! A `Future` is a proxy for the result of a computation which may not be
//! complete. A `Stream` is like a `Future`, except that it stands for a sequence
//! of values.
pub mod atomic_state;
pub mod cell;
pub mod combine;
pub mod compose;
pub mod compose_laws;
pub mod core_laws;
pub mod end_laws;
pub mod error;
pub mod future;
pub mod laws;
pub mod state;
pub mod stream;
pub mod receipt;
pub mod value;
pub mod value_laws;

pub use self::compose::Compose;
pub use self::error::{AsyncError, AsyncResult};
pub use self::future::{Complete, Future};
pub use self::receipt::Receipt;
pub use self::stream::{BusySender, Head, Sender, Stream, StreamIter};
pub use self::value::{Async, Cancel};
