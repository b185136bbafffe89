//! The countdown engine of a small desktop overlay, with the moments it
//! works on.
//!
//! [`countdown`] holds the state machine of one countdown: start, pause,
//! resume, restart, reset and the status query that tells when the expiry
//! is to be announced. [`laws`] states what holds of it whatever the clock
//! does. [`clock`] holds the moments the engine works on and the wall clock
//! of Athens. [`speech`] holds the spoken announcement, and [`screen`] the
//! size the overlay takes for the screen.

pub mod clock;
pub mod countdown;
pub mod laws;
pub mod screen;
pub mod speech;

pub use clock::{athens_time_at, TimeResponse, Timestamp};
pub use countdown::{
    CountdownError, CountdownState, CountdownStatus, Phase, StatusReport,
};
