//! Cooperative cancellation: a flag that a signal-handling thread sets
//! and that the main loop polls once per iteration.
//!
//! The flag is a shared atomic, so nothing can be promised about the
//! value a load returns — another holder of the token may store to it
//! between any two operations. The contracts therefore only fix how
//! [`StopToken::keep_running`] relates to the loaded value.

use vstd::prelude::*;

use core::sync::atomic::{AtomicBool, Ordering};

verus! {

/// A process-wide request to stop, set once and polled cooperatively.
pub struct StopToken {
    stop_requested: AtomicBool,
}

impl StopToken {
    /// A fresh token, with no stop requested yet.
    pub fn new() -> StopToken {
        StopToken { stop_requested: AtomicBool::new(false) }
    }

    /// Requests a stop. The only legal writer is the interrupt handler
    /// and the user-interface actions that ask the application to exit.
    pub fn request_stop(&self) {
        self.stop_requested.store(true, Ordering::Relaxed);
    }

    /// Whether a stop has been requested.
    pub fn is_stop_requested(&self) -> bool {
        self.stop_requested.load(Ordering::Relaxed)
    }

    /// Whether the main loop should keep running: the negation of one
    /// load of the flag.
    pub fn keep_running(&self) -> bool {
        !self.is_stop_requested()
    }
}

} // verus!
