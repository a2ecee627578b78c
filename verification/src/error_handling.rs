//! Failure taxonomy of the session core.
//!
//! Startup failures are fatal: the caller must restore whatever was already
//! entered (the startup operation hands it the commands to do so) and
//! terminate. Every other failure is tick-local: it is reported and the tick
//! goes on with whatever data was gathered before the failure.

use vstd::prelude::*;

verus! {

/// A failure of the session lifecycle. `TerminalUnavailable` means the
/// terminal could not be put under application control at all (raw mode
/// entry failed); `IoFailure` covers every later terminal call that failed.
#[derive(Debug, Clone, Copy, PartialEq, Eq, Structural)]
pub enum SessionError {
    TerminalUnavailable,
    IoFailure,
}

/// A failure while draining the terminal's input. `SourceUnavailable` means
/// the input source could not be probed at all, `MalformedEvent` that an
/// event could not be decoded, `IoFailure` any other read error. All three
/// are tick-local and non-fatal.
#[derive(Debug, Clone, Copy, PartialEq, Eq, Structural)]
pub enum EventError {
    SourceUnavailable,
    MalformedEvent,
    IoFailure,
}

} // verus!
