//! The window record and the settings it is built from.
//!
//! A [`CrosstermWindow`] is the canonical record of the live session: the
//! terminal geometry, the title, and which modes were actually entered at
//! startup. Exactly one is created by a successful startup and it is retired
//! by the first effective restoration. Its fields are mutated only by the
//! session operations in [`crate::window`] and the resize synchronization in
//! [`crate::event`].

use vstd::prelude::*;

use crate::commands::TermCommand;

verus! {

/// Immutable settings the host supplies before the session starts.
#[derive(Debug, Clone)]
pub struct CrosstermWindowSettings {
    /// Initial window title, if any.
    pub title: Option<String>,
    /// Whether to switch to the alternate screen buffer.
    pub alternate_screen: bool,
    /// Whether to enable mouse event reporting.
    pub mouse_capture: bool,
}

impl Default for CrosstermWindowSettings {
    /// By default the session takes the alternate screen and captures the
    /// mouse, and leaves the title alone.
    fn default() -> (s: Self)
        ensures
            s.title is None,
            s.alternate_screen,
            s.mouse_capture,
    {
        Self { title: None, alternate_screen: true, mouse_capture: true }
    }
}

/// The live window record. `width`/`height` track the most recent resize;
/// `alternate_screen`/`mouse_capture` record which modes startup actually
/// entered (never what was merely requested); `active` is true until the
/// first effective restoration retires the record.
#[derive(Debug)]
pub struct CrosstermWindow {
    pub height: u16,
    pub width: u16,
    pub title: Option<String>,
    pub alternate_screen: bool,
    pub mouse_capture: bool,
    pub active: bool,
}

impl CrosstermWindow {
    /// Current height in character cells.
    pub fn height(&self) -> (r: u16)
        ensures
            r == self.height,
    {
        self.height
    }

    /// Current width in character cells.
    pub fn width(&self) -> (r: u16)
        ensures
            r == self.width,
    {
        self.width
    }

    /// Whether startup entered the alternate screen buffer.
    pub fn is_alternate_screen(&self) -> (r: bool)
        ensures
            r == self.alternate_screen,
    {
        self.alternate_screen
    }

    /// Whether startup enabled mouse event reporting.
    pub fn is_mouse_capture(&self) -> (r: bool)
        ensures
            r == self.mouse_capture,
    {
        self.mouse_capture
    }

    /// Whether the session behind this record is still live, i.e. no
    /// restoration has retired it yet.
    pub fn is_active(&self) -> (r: bool)
        ensures
            r == self.active,
    {
        self.active
    }

    /// The current title, if one is set.
    pub fn title(&self) -> (r: Option<&String>)
        ensures
            match r {
                Some(t) => self.title == Some(*t),
                None => self.title is None,
            },
    {
        self.title.as_ref()
    }

    /// Records a new title. The change reaches the terminal only when the
    /// caller performs the commands returned by the next title update.
    pub fn set_title(&mut self, title: String)
        ensures
            final(self).title == Some(title),
            final(self).height == old(self).height,
            final(self).width == old(self).width,
            final(self).alternate_screen == old(self).alternate_screen,
            final(self).mouse_capture == old(self).mouse_capture,
            final(self).active == old(self).active,
    {
        self.title = Some(title);
    }

    /// Switches mouse capture on or off: records the new mode and returns
    /// the command the caller must perform, or `None` when the mode already
    /// matches and nothing must be done.
    pub fn set_mouse_capture(&mut self, enable: bool) -> (cmd: Option<TermCommand>)
        ensures
            final(self).mouse_capture == enable,
            final(self).height == old(self).height,
            final(self).width == old(self).width,
            final(self).title == old(self).title,
            final(self).alternate_screen == old(self).alternate_screen,
            final(self).active == old(self).active,
            cmd == (if old(self).mouse_capture != enable {
                Some(if enable {
                    TermCommand::EnableMouseCapture
                } else {
                    TermCommand::DisableMouseCapture
                })
            } else {
                None::<TermCommand>
            }),
    {
        let changed = self.mouse_capture != enable;
        self.mouse_capture = enable;
        if changed {
            if enable {
                Some(TermCommand::EnableMouseCapture)
            } else {
                Some(TermCommand::DisableMouseCapture)
            }
        } else {
            None
        }
    }
}

} // verus!
