//! A bounded first-in first-out queue on which callers may wait.
pub mod flow_laws;
pub mod inner;
pub mod list;
pub mod timeout;

pub use self::inner::LinkedQueue;
