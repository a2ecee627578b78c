//! The vocabulary of terminal actions the session core asks its caller to
//! perform. The core never touches the terminal itself: it returns sequences
//! of these commands, and the unverified shell executes them in order.

use vstd::prelude::*;

verus! {

/// One terminal control action, to be performed by the caller in the order
/// returned. `SetTitle` carries the new title text; `ClearTitle` asks for an
/// empty title. `Flush` forces every queued control sequence out before the
/// commands that follow it take effect.
#[derive(Debug, Clone, PartialEq, Eq)]
pub enum TermCommand {
    EnableMouseCapture,
    DisableMouseCapture,
    EnterAlternateScreen,
    LeaveAlternateScreen,
    SetTitle(String),
    ClearTitle,
    Flush,
    DisableRawMode,
}

} // verus!
