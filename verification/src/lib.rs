//! A remote-control bridge: on each HTTP-triggered request it submits a
//! two-line shell script (open a private tunnel, drive a local WebSocket
//! control client) to a fleet-selected remote host, waits a fixed interval,
//! resolves the concrete target host, fetches the command's captured
//! standard-output log — falling back once to standard error when that
//! stream is not found — and returns the log lines as a JSON array.
//!
//! The whole decision flow lives in the verified state machine of
//! [`machine`]: each step takes the current state and the outcome of the
//! last external call, and emits the next state and the single action the
//! unverified driver must perform. The driver performs only I/O; every
//! rule — validation, command construction, target selection, the single
//! fallback, the error taxonomy — is proved here.

use vstd::prelude::*;

pub mod command;
pub mod error;
pub mod laws;
pub mod machine;
pub mod model;
pub mod respond;

verus! {

/// A request-level error carrying a diagnostic message, surfaced to the
/// HTTP caller as a generic failure.
pub struct AppError(pub String);

impl AppError {
    /// The diagnostic message carried by this error.
    pub fn message(&self) -> (r: &String)
        ensures
            r@ == self.0@,
    {
        &self.0
    }
}

} // verus!
