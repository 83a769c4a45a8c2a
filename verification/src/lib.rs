//! Startup sequencing for a desktop application shell.
//!
//! The library models the one-time bootstrap of an application: look up the
//! main window, open the debugging panel, request a window effect, register a
//! logging plugin, and finally hand control to the host's blocking run loop.
//! Which of these steps run depends on fixed build and platform flags; the
//! sequencing decisions live here as a verified state machine, while the host
//! framework performs each requested action and reports its outcome back.

pub mod config;
pub mod laws;
pub mod sequencer;
pub mod trace;
