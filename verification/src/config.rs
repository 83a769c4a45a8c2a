//! Fixed, process-lifetime configuration of the startup sequencer, and the
//! constants the sequencer hands to the host.

use vstd::prelude::*;

verus! {

/// How the sequencer reacts when no window is registered under the main
/// window label on a platform whose windows get the visual treatment.
#[derive(Clone, Copy, PartialEq, Eq, Structural, Debug)]
pub enum MissingWindowPolicy {
    /// A missing main window is a fatal setup error: setup stops at once and
    /// the run loop never starts.
    Abort,
    /// The window-scoped steps are skipped and setup carries on with the
    /// remaining steps.
    Continue,
}

/// Minimum severity accepted by the logging plugin, from silencing everything
/// to keeping everything.
#[derive(Clone, Copy, PartialEq, Eq, Structural, Debug)]
pub enum Severity {
    /// No messages at all.
    Off,
    /// Errors only.
    Error,
    /// Warnings and above.
    Warn,
    /// Informational messages and above.
    Info,
    /// Debugging messages and above.
    Debug,
    /// Everything, tracing included.
    Trace,
}

/// Build- and platform-derived flags, read-only and fixed for the lifetime of
/// the process, that gate which setup steps run.
#[derive(Clone, Copy, PartialEq, Eq, Structural, Debug)]
pub struct Config {
    /// True on the platform whose main window gets the visual effect and the
    /// debugging panel.
    pub target_platform: bool,
    /// True in debugging builds, which open the debugging panel and register
    /// the logging plugin.
    pub debug_build: bool,
    /// What to do when the main window cannot be found.
    pub missing_window: MissingWindowPolicy,
}

/// The identifier under which the host registers the application's main
/// window; window lookup uses exactly this label.
pub fn main_window_label() -> (label: &'static str)
    ensures
        label@ == "main"@,
        label@.len() == 4,
{
    proof {
        reveal_strlit("main");
    }
    "main"
}

/// The diagnostic printed when the host's run loop fails; it is never empty.
pub fn run_failure_diagnostic() -> (diagnostic: &'static str)
    ensures
        diagnostic@ == "error while running tauri application"@,
        diagnostic@.len() > 0,
{
    proof {
        reveal_strlit("error while running tauri application");
    }
    "error while running tauri application"
}

} // verus!
