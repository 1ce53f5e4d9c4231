//! A latching safety interlock over a monitored value.
//!
//! [`Interlock`] owns a value whose type implements [`Interlockable`] and a
//! two-state latch. An ordinary update that leaves the value not clear asserts
//! the latch; the latch then stays asserted until an explicit, successful
//! [`Interlock::try_clear_interlock`], whatever happens to the value meanwhile.

pub mod interlock;
pub mod interlockable;
pub mod state;

pub use interlock::Interlock;
pub use interlockable::Interlockable;
pub use state::{Error, InterlockState};
