//! The main window, as far as the shell governs it: shown or hidden.

use vstd::prelude::*;

verus! {

/// The label of the main window. The surrounding UI framework creates the
/// window; the shell only shows, focuses and hides it.
pub const MAIN_WINDOW: &'static str = "main";

/// Whether the main window is on screen.
#[derive(Clone, Copy, Debug, PartialEq, Eq, Structural)]
pub enum WindowState {
    Hidden,
    Visible,
}

/// What happened to the main window, as far as the shell tells events apart.
#[derive(Clone, Copy, Debug, PartialEq, Eq, Structural)]
pub enum WindowEvent {
    /// The user asked to close the window.
    CloseRequested,
    /// Anything else: a move, a resize, a change of focus.
    Other,
}

} // verus!
