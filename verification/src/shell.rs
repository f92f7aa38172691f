//! The user-interface shell as the fetch sees it: a window with one status
//! text, which may be gone by the time the result arrives.
//!
//! Whoever delivers a result holds no claim on the window. Delivering to a
//! window that has been closed is the ordinary quiet case, not an error.

use vstd::prelude::*;
use crate::display::{display_line, display_text};
use crate::outcome::CoordinateResult;

verus! {

/// The shell after an attempt to set its status text: an open window shows
/// the new text, a closed one stays closed.
pub open spec fn with_status(shell: Option<Seq<char>>, text: Seq<char>) -> Option<Seq<char>> {
    match shell {
        Some(_) => Some(text),
        None => None,
    }
}

/// A window with a single read-only field bound to its status text.
///
/// Its model is the text the field shows while the window is open, and
/// `None` once the window has been closed.
pub struct StatusShell {
    window: Option<String>,
}

impl View for StatusShell {
    type V = Option<Seq<char>>;

    closed spec fn view(&self) -> Option<Seq<char>> {
        match self.window {
            Some(text) => Some(text@),
            None => None,
        }
    }
}

impl StatusShell {
    /// Opens the window, showing the given text.
    pub fn open(initial: String) -> (shell: StatusShell)
        ensures
            shell@ == Some(initial@),
    {
        StatusShell { window: Some(initial) }
    }

    /// Closes the window. Closing is final: nothing opens it again.
    pub fn close(&mut self)
        ensures
            final(self)@ is None,
    {
        self.window = None;
    }

    /// Whether the window is still there.
    pub fn is_open(&self) -> (open: bool)
        ensures
            open == (self@ is Some),
    {
        self.window.is_some()
    }

    /// The text the field shows; `None` once the window is closed.
    pub fn status_text(&self) -> (shown: Option<&str>)
        ensures
            match shown {
                Some(text) => self@ == Some(text@),
                None => self@ is None,
            },
    {
        match &self.window {
            Some(text) => Some(text.as_str()),
            None => None,
        }
    }

    /// Sets the status text. Any text is taken as it is and shown at once.
    /// On a closed window nothing happens; the return value says whether the
    /// text was applied.
    pub fn set_status_text(&mut self, text: String) -> (applied: bool)
        ensures
            final(self)@ == with_status(old(self)@, text@),
            applied == (old(self)@ is Some),
    {
        if self.window.is_some() {
            self.window = Some(text);
            true
        } else {
            false
        }
    }

    /// Shows the line that tells how the fetch ended, if the window is still
    /// there to show it.
    pub fn show_result(&mut self, result: &CoordinateResult) -> (applied: bool)
        ensures
            final(self)@ == with_status(old(self)@, display_line(result@)),
            applied == (old(self)@ is Some),
    {
        if self.window.is_some() {
            self.window = Some(display_text(result));
            true
        } else {
            false
        }
    }
}

/// Setting a status text on a closed window is a no-op, whatever the text.
pub proof fn closed_window_ignores_updates(text: Seq<char>)
    ensures
        with_status(None, text) == None::<Seq<char>>,
{
}

/// Setting the same status text twice leaves the shell as setting it once
/// does.
pub proof fn setting_twice_changes_nothing(shell: Option<Seq<char>>, text: Seq<char>)
    ensures
        with_status(with_status(shell, text), text) == with_status(shell, text),
{
}

/// The last status text set is the one shown: an update overwrites what was
/// there and keeps nothing of it.
pub proof fn last_update_wins(shell: Option<Seq<char>>, earlier: Seq<char>, later: Seq<char>)
    ensures
        with_status(with_status(shell, earlier), later) == with_status(shell, later),
{
}

/// An update neither opens nor closes the window.
pub proof fn update_keeps_the_window(shell: Option<Seq<char>>, text: Seq<char>)
    ensures
        with_status(shell, text) is Some <==> shell is Some,
        shell is Some ==> with_status(shell, text) == Some(text),
{
}

} // verus!
