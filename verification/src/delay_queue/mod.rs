//! A queue of delayed values.
pub mod delay;
pub mod heap;
pub mod inner;
pub mod order_laws;

pub use self::delay::{Delay, Delayed};
pub use self::inner::DelayQueue;
