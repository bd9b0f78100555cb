//! Shared countdown timers: the scheduling protocol behind a timer that
//! several machines wait on together.
//!
//! One participant starts a timer under an identifier, others join it by that
//! identifier, and all of them are woken at the same wall-clock second. This
//! crate holds the decisions of that protocol. Talking to the remote store,
//! sleeping and showing the notification are left to the caller.

pub mod clock;
pub mod error;
pub mod identity;
pub mod record;
pub mod session;
pub mod store;
pub mod text;
pub mod wake;
