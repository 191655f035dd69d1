//! Verified core of the PauseTime desktop shell.
//!
//! The shell keeps a break-reminder application alive in the system tray. Every
//! decision it takes is a function from a state and an event to the next state
//! and the effects that the host has to perform: showing and hiding the main
//! window, relaying tray clicks, keeping the tray's toggle label, muting the
//! system's audio output, and reading the one setting that decides whether the
//! window is shown at startup.

pub mod audio;
pub mod laws;
pub mod settings;
pub mod shell;
pub mod tray;
pub mod window;
