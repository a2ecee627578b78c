//! Session lifecycle: startup, exit-time restoration, and title updates.
//!
//! The session core decides, the caller performs. Startup is a fixed order of
//! terminal steps — enter raw mode, query the size, then queue the mode and
//! title commands — and the caller reports how far it got as a
//! [`SetupOutcome`]. From that report [`setup_terminal`] returns both the
//! commands that undo whatever was already entered and the final result:
//! a live [`CrosstermWindow`] on success, a fatal [`SessionError`] otherwise.
//! Restoration at exit is computed the same way and retires the window
//! record, which is what makes invoking it from every checkpoint harmless.

use vstd::prelude::*;

use crate::commands::TermCommand;
use crate::components::{CrosstermWindow, CrosstermWindowSettings};
use crate::error_handling::SessionError;

verus! {

/// How far the caller got while performing the startup steps in their fixed
/// order: raw mode entry, size query, then the queued mode/title commands.
/// `Completed(width, height)` reports the queried size after every step
/// succeeded.
#[derive(Debug, Clone, Copy, PartialEq, Eq, Structural)]
pub enum SetupOutcome {
    RawModeFailed,
    SizeQueryFailed,
    CommandFailed,
    Completed(u16, u16),
}

/// The mode and title commands startup asks the caller to queue once raw
/// mode is entered and the size is known: mouse capture first, then the
/// alternate screen, then the title, each only when the settings ask for it.
pub open spec fn spec_setup_commands(settings: CrosstermWindowSettings) -> Seq<TermCommand> {
    (if settings.mouse_capture {
        seq![TermCommand::EnableMouseCapture]
    } else {
        Seq::<TermCommand>::empty()
    }) + (if settings.alternate_screen {
        seq![TermCommand::EnterAlternateScreen]
    } else {
        Seq::<TermCommand>::empty()
    }) + (match settings.title {
        Some(t) => seq![TermCommand::SetTitle(t)],
        None => Seq::<TermCommand>::empty(),
    })
}

/// The window record a successful startup hands back: geometry from the size
/// query, title and mode flags from what was actually entered, and a live
/// session.
pub open spec fn spec_setup_window(
    settings: CrosstermWindowSettings,
    width: u16,
    height: u16,
) -> CrosstermWindow {
    CrosstermWindow {
        height: height,
        width: width,
        title: settings.title,
        alternate_screen: settings.alternate_screen,
        mouse_capture: settings.mouse_capture,
        active: true,
    }
}

/// What startup concludes from the caller's report: the commands that undo
/// whatever was already entered, and the result. Only raw mode is ever
/// entered before the later steps, so it is the only thing to undo; a
/// failure before raw mode was entered leaves nothing to restore.
pub open spec fn spec_setup(settings: CrosstermWindowSettings, outcome: SetupOutcome) -> (Seq<
    TermCommand,
>, Result<CrosstermWindow, SessionError>) {
    match outcome {
        SetupOutcome::RawModeFailed => (
            Seq::<TermCommand>::empty(),
            Err(SessionError::TerminalUnavailable),
        ),
        SetupOutcome::SizeQueryFailed => (
            seq![TermCommand::DisableRawMode],
            Err(SessionError::IoFailure),
        ),
        SetupOutcome::CommandFailed => (
            seq![TermCommand::DisableRawMode],
            Err(SessionError::IoFailure),
        ),
        SetupOutcome::Completed(width, height) => (
            Seq::<TermCommand>::empty(),
            Ok(spec_setup_window(settings, width, height)),
        ),
    }
}

/// The commands the caller must queue after entering raw mode and querying
/// the size, in order.
pub fn setup_commands(settings: &CrosstermWindowSettings) -> (cmds: Vec<TermCommand>)
    ensures
        cmds@ == spec_setup_commands(*settings),
{
    let mut cmds: Vec<TermCommand> = Vec::new();
    if settings.mouse_capture {
        cmds.push(TermCommand::EnableMouseCapture);
    }
    if settings.alternate_screen {
        cmds.push(TermCommand::EnterAlternateScreen);
    }
    match &settings.title {
        Some(t) => cmds.push(TermCommand::SetTitle(t.clone())),
        None => {},
    }
    assert(cmds@ =~= spec_setup_commands(*settings));
    cmds
}

/// Concludes the startup operation from the caller's report of how far the
/// fixed step order got. On success the returned window records exactly what
/// was entered; on any failure the result is fatal and the first component
/// holds the commands that must still run so that no mode outlives the
/// failed startup — raw mode is disabled whenever it had been entered.
pub fn setup_terminal(settings: &CrosstermWindowSettings, outcome: SetupOutcome) -> (r: (
    Vec<TermCommand>,
    Result<CrosstermWindow, SessionError>,
))
    ensures
        r.0@ == spec_setup(*settings, outcome).0,
        r.1 == spec_setup(*settings, outcome).1,
{
    match outcome {
        SetupOutcome::RawModeFailed => {
            (Vec::new(), Err(SessionError::TerminalUnavailable))
        },
        SetupOutcome::SizeQueryFailed | SetupOutcome::CommandFailed => {
            let mut cleanup: Vec<TermCommand> = Vec::new();
            cleanup.push(TermCommand::DisableRawMode);
            assert(cleanup@ =~= seq![TermCommand::DisableRawMode]);
            (cleanup, Err(SessionError::IoFailure))
        },
        SetupOutcome::Completed(width, height) => {
            let title = match &settings.title {
                Some(t) => Some(t.clone()),
                None => None,
            };
            let window = CrosstermWindow {
                height,
                width,
                title,
                alternate_screen: settings.alternate_screen,
                mouse_capture: settings.mouse_capture,
                active: true,
            };
            (Vec::new(), Ok(window))
        },
    }
}

/// The restoration commands for a live window: disable mouse capture if it
/// was enabled, leave the alternate screen if it was entered, then flush and
/// only then disable raw mode, so the restoring sequences are still
/// processed under the modes they need.
pub open spec fn spec_restore_commands(w: CrosstermWindow) -> Seq<TermCommand> {
    (if w.mouse_capture {
        seq![TermCommand::DisableMouseCapture]
    } else {
        Seq::<TermCommand>::empty()
    }) + (if w.alternate_screen {
        seq![TermCommand::LeaveAlternateScreen]
    } else {
        Seq::<TermCommand>::empty()
    }) + seq![TermCommand::Flush, TermCommand::DisableRawMode]
}

/// The window record after a restoration pass: retired when the pass was
/// effective, untouched otherwise.
pub open spec fn spec_retired(w: CrosstermWindow) -> CrosstermWindow {
    CrosstermWindow {
        height: w.height,
        width: w.width,
        title: w.title,
        alternate_screen: w.alternate_screen,
        mouse_capture: w.mouse_capture,
        active: false,
    }
}

/// The exit checkpoint as a whole: it emits the restoration commands and
/// retires the record exactly when an exit was requested and the session is
/// still live, and is a no-op otherwise.
pub open spec fn spec_restore(exit_requested: bool, w: CrosstermWindow) -> (Seq<TermCommand>, CrosstermWindow) {
    if exit_requested && w.active {
        (spec_restore_commands(w), spec_retired(w))
    } else {
        (Seq::<TermCommand>::empty(), w)
    }
}

/// The exit checkpoint. Safe to call from every phase boundary: only the
/// first call after an exit request returns the restoration commands and
/// retires the window; every other call returns no commands and changes
/// nothing.
pub fn restore_terminal_on_exit(exit_requested: bool, window: &mut CrosstermWindow) -> (cmds: Vec<
    TermCommand,
>)
    ensures
        cmds@ == spec_restore(exit_requested, *old(window)).0,
        *final(window) == spec_restore(exit_requested, *old(window)).1,
{
    if !exit_requested || !window.active {
        let cmds: Vec<TermCommand> = Vec::new();
        return cmds;
    }
    let mut cmds: Vec<TermCommand> = Vec::new();
    if window.mouse_capture {
        cmds.push(TermCommand::DisableMouseCapture);
    }
    if window.alternate_screen {
        cmds.push(TermCommand::LeaveAlternateScreen);
    }
    cmds.push(TermCommand::Flush);
    cmds.push(TermCommand::DisableRawMode);
    window.active = false;
    assert(cmds@ =~= spec_restore_commands(*old(window)));
    cmds
}

/// The per-tick title refresh: no commands while the title is unchanged;
/// a set-title command for the new value once it changed; and, when the
/// title was cleared, an empty-title command together with a `true` second
/// component — the non-fatal "title removed" diagnostic the caller logs.
pub open spec fn spec_title_commands(w: CrosstermWindow, changed: bool) -> Seq<TermCommand> {
    if !changed {
        Seq::<TermCommand>::empty()
    } else {
        match w.title {
            Some(t) => seq![TermCommand::SetTitle(t)],
            None => seq![TermCommand::ClearTitle],
        }
    }
}

/// Refreshes the terminal title. `changed` says whether the window's title
/// was modified since the last check; the result carries the commands to
/// queue and whether the "title removed" diagnostic should be reported.
pub fn update_title(window: &CrosstermWindow, changed: bool) -> (r: (Vec<TermCommand>, bool))
    ensures
        r.0@ == spec_title_commands(*window, changed),
        r.1 == (changed && window.title is None),
{
    let mut cmds: Vec<TermCommand> = Vec::new();
    if !changed {
        return (cmds, false);
    }
    let removed: bool;
    match &window.title {
        Some(t) => {
            cmds.push(TermCommand::SetTitle(t.clone()));
            removed = false;
        },
        None => {
            cmds.push(TermCommand::ClearTitle);
            removed = true;
        },
    }
    assert(cmds@ =~= spec_title_commands(*window, changed));
    (cmds, removed)
}

/// Restoration is idempotent: after one exit-time pass the window is
/// retired, so any later pass — however many there are — emits no commands
/// and leaves the record exactly as the first pass left it. Side effects
/// occur at most once.
pub proof fn lemma_restore_idempotent(w: CrosstermWindow)
    ensures
        spec_restore(true, spec_restore(true, w).1) == (
            Seq::<TermCommand>::empty(),
            spec_restore(true, w).1,
        ),
{
}

/// Mode symmetry: for every combination of requested modes, the window a
/// successful startup returns records exactly the modes that were entered,
/// and the restoration commands disable exactly those — never a mode that
/// was never entered — and always flush and disable raw mode.
pub proof fn lemma_mode_symmetry(settings: CrosstermWindowSettings, width: u16, height: u16)
    ensures
        ({
            let w = spec_setup_window(settings, width, height);
            let cmds = spec_restore_commands(w);
            &&& w.mouse_capture == settings.mouse_capture
            &&& w.alternate_screen == settings.alternate_screen
            &&& cmds.contains(TermCommand::DisableMouseCapture) == settings.mouse_capture
            &&& cmds.contains(TermCommand::LeaveAlternateScreen) == settings.alternate_screen
            &&& !cmds.contains(TermCommand::EnableMouseCapture)
            &&& !cmds.contains(TermCommand::EnterAlternateScreen)
            &&& cmds.contains(TermCommand::Flush)
            &&& cmds.contains(TermCommand::DisableRawMode)
        }),
{
    let w = spec_setup_window(settings, width, height);
    let cmds = spec_restore_commands(w);
    if settings.mouse_capture {
        assert(cmds[0] == TermCommand::DisableMouseCapture);
    }
    if settings.alternate_screen {
        let i: int = if settings.mouse_capture { 1 } else { 0 };
        assert(cmds[i] == TermCommand::LeaveAlternateScreen);
    }
    assert(cmds[cmds.len() - 2] == TermCommand::Flush);
    assert(cmds[cmds.len() - 1] == TermCommand::DisableRawMode);
}

/// A fatal startup never leaks raw mode: whenever a step fails after raw
/// mode was already entered, the commands that accompany the reported error
/// consist exactly of disabling raw mode; a failure to enter raw mode in the
/// first place leaves nothing to undo.
pub proof fn lemma_startup_failure_restores_raw(settings: CrosstermWindowSettings)
    ensures
        spec_setup(settings, SetupOutcome::SizeQueryFailed).0 == seq![TermCommand::DisableRawMode],
        spec_setup(settings, SetupOutcome::CommandFailed).0 == seq![TermCommand::DisableRawMode],
        spec_setup(settings, SetupOutcome::SizeQueryFailed).1 is Err,
        spec_setup(settings, SetupOutcome::CommandFailed).1 is Err,
        spec_setup(settings, SetupOutcome::RawModeFailed).0 == Seq::<TermCommand>::empty(),
        spec_setup(settings, SetupOutcome::RawModeFailed).1 is Err,
{
}

} // verus!
