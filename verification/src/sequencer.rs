//! The startup sequencer: a state machine that decides, step by step, which
//! setup action the host should perform next, from the fixed configuration
//! and from the outcome the host reports for each action.

use vstd::prelude::*;
use crate::config::{Config, MissingWindowPolicy, Severity};

verus! {

/// A condition that makes setup fail, so that the run loop never starts.
#[derive(Clone, Copy, PartialEq, Eq, Structural, Debug)]
pub enum SetupError {
    /// No window is registered under the main window label.
    WindowNotFound,
    /// The host rejected the registration of the logging plugin.
    PluginRegistration,
}

/// What the sequencer asks the host to do next.
#[derive(Clone, Copy, PartialEq, Eq, Structural, Debug)]
pub enum Action {
    /// Look up the window registered under the main window label.
    LookupWindow,
    /// Open the debugging panel on the main window.
    OpenDebugPanel,
    /// Request the translucency effect on the main window, with the given
    /// parameter; the sequencer discards the outcome.
    ApplyVisualEffect { enabled: bool },
    /// Build a logging plugin with the given minimum severity and register
    /// it with the host.
    RegisterLogPlugin { min_severity: Severity },
    /// Setup succeeded: enter the host's blocking run loop.
    StartRunLoop,
    /// Setup failed: abort before the run loop starts.
    FailSetup { error: SetupError },
    /// The run loop failed: terminate with the run-failure diagnostic and a
    /// failing exit status.
    FailRun,
    /// The run loop ended normally: nothing is left to do.
    Finish,
}

/// What the host reports back after performing an action.
#[derive(Clone, Copy, PartialEq, Eq, Structural, Debug)]
pub enum Event {
    /// Whether a window was found under the main window label.
    WindowLookup { found: bool },
    /// The debugging panel was opened; opening it cannot fail visibly.
    PanelOpened,
    /// Whether the visual effect could be applied.
    EffectResult { applied: bool },
    /// Whether the logging plugin was accepted by the host.
    PluginResult { registered: bool },
    /// Whether the run loop ran and ended without error.
    RunEnded { ok: bool },
}

/// Where the startup sequence stands.  The `Awaiting` phases are the setting-up
/// stage; `Exited` and the two failure phases are terminal.
#[derive(Clone, Copy, PartialEq, Eq, Structural, Debug)]
pub enum Phase {
    /// Nothing has happened yet.
    NotStarted,
    /// The host was asked to look up the main window.
    AwaitingWindow,
    /// The host was asked to open the debugging panel.
    AwaitingPanel,
    /// The host was asked to apply the visual effect.
    AwaitingEffect,
    /// The host was asked to register the logging plugin.
    AwaitingPlugin,
    /// Setup succeeded and the host was asked to start the run loop.
    Running,
    /// The run loop ended normally.
    Exited,
    /// Setup failed; the run loop never started.
    SetupFailed { error: SetupError },
    /// The run loop failed after a successful setup.
    RunFailed,
}

/// Whether a phase is terminal: no further event is expected in it.
pub open spec fn is_terminal(phase: Phase) -> bool {
    match phase {
        Phase::Exited => true,
        Phase::SetupFailed { .. } => true,
        Phase::RunFailed => true,
        _ => false,
    }
}

/// Whether a phase stands for a fatal end of the process: setup aborted, or
/// the run loop failed.
pub open spec fn is_fatal(phase: Phase) -> bool {
    match phase {
        Phase::SetupFailed { .. } => true,
        Phase::RunFailed => true,
        _ => false,
    }
}

/// Which event a phase expects from the host.  `NotStarted` and the terminal
/// phases expect none.
pub open spec fn event_fits(phase: Phase, event: Event) -> bool {
    match (phase, event) {
        (Phase::AwaitingWindow, Event::WindowLookup { .. }) => true,
        (Phase::AwaitingPanel, Event::PanelOpened) => true,
        (Phase::AwaitingEffect, Event::EffectResult { .. }) => true,
        (Phase::AwaitingPlugin, Event::PluginResult { .. }) => true,
        (Phase::Running, Event::RunEnded { .. }) => true,
        _ => false,
    }
}

/// Phase and action once the window-scoped steps are over (run or skipped):
/// in a debugging build the logging plugin is registered, with informational
/// messages and above kept; otherwise setup is complete and the run loop
/// starts.
pub open spec fn spec_after_platform(config: Config) -> (Phase, Action) {
    if config.debug_build {
        (Phase::AwaitingPlugin, (Action::RegisterLogPlugin { min_severity: Severity::Info }))
    } else {
        (Phase::Running, Action::StartRunLoop)
    }
}

/// The first transition, before any host reply: on the target platform setup
/// begins with the window lookup; elsewhere the window-scoped steps are
/// skipped altogether.
pub open spec fn spec_begin(config: Config) -> (Phase, Action) {
    if config.target_platform {
        (Phase::AwaitingWindow, Action::LookupWindow)
    } else {
        spec_after_platform(config)
    }
}

/// The full transition table of the sequencer: from the configuration, the
/// current phase and the host's event, the next phase and the next action.
pub open spec fn spec_transition(config: Config, phase: Phase, event: Event) -> (Phase, Action)
    recommends
        event_fits(phase, event),
{
    match (phase, event) {
        (Phase::AwaitingWindow, Event::WindowLookup { found }) => {
            if found {
                if config.debug_build {
                    (Phase::AwaitingPanel, Action::OpenDebugPanel)
                } else {
                    (Phase::AwaitingEffect, (Action::ApplyVisualEffect { enabled: true }))
                }
            } else {
                match config.missing_window {
                    MissingWindowPolicy::Abort => (
                        (Phase::SetupFailed { error: SetupError::WindowNotFound }),
                        (Action::FailSetup { error: SetupError::WindowNotFound }),
                    ),
                    MissingWindowPolicy::Continue => spec_after_platform(config),
                }
            }
        },
        (Phase::AwaitingPanel, Event::PanelOpened) => {
            (Phase::AwaitingEffect, (Action::ApplyVisualEffect { enabled: true }))
        },
        (Phase::AwaitingEffect, Event::EffectResult { .. }) => spec_after_platform(config),
        (Phase::AwaitingPlugin, Event::PluginResult { registered }) => {
            if registered {
                (Phase::Running, Action::StartRunLoop)
            } else {
                (
                    (Phase::SetupFailed { error: SetupError::PluginRegistration }),
                    (Action::FailSetup { error: SetupError::PluginRegistration }),
                )
            }
        },
        (Phase::Running, Event::RunEnded { ok }) => {
            if ok {
                (Phase::Exited, Action::Finish)
            } else {
                (Phase::RunFailed, Action::FailRun)
            }
        },
        _ => (phase, Action::Finish),
    }
}

/// The startup sequencer.  The host constructs it once, asks it for the first
/// action with `begin`, and after performing each action reports the outcome
/// with `on_event`, which yields the next action, until a terminal action
/// (`FailSetup`, `FailRun` or `Finish`) comes back.
pub struct Sequencer {
    /// The fixed flags the sequencer was started with.
    pub config: Config,
    /// Where the startup sequence stands.
    pub phase: Phase,
}

impl Sequencer {
    /// A sequencer that has not started yet.
    pub fn new(config: Config) -> (sequencer: Sequencer)
        ensures
            sequencer.config == config,
            sequencer.phase == Phase::NotStarted,
    {
        Sequencer { config, phase: Phase::NotStarted }
    }

    /// Whether the sequencer expects this event in its current phase; the
    /// host checks this before reporting an outcome.
    pub fn accepts(&self, event: &Event) -> (fits: bool)
        ensures
            fits == event_fits(self.phase, *event),
    {
        match (self.phase, *event) {
            (Phase::AwaitingWindow, Event::WindowLookup { .. }) => true,
            (Phase::AwaitingPanel, Event::PanelOpened) => true,
            (Phase::AwaitingEffect, Event::EffectResult { .. }) => true,
            (Phase::AwaitingPlugin, Event::PluginResult { .. }) => true,
            (Phase::Running, Event::RunEnded { .. }) => true,
            _ => false,
        }
    }

    /// Start the sequence: the first action follows the platform gate alone.
    pub fn begin(&mut self) -> (action: Action)
        requires
            old(self).phase == Phase::NotStarted,
        ensures
            final(self).config == old(self).config,
            (final(self).phase, action) == spec_begin(old(self).config),
    {
        if self.config.target_platform {
            self.phase = Phase::AwaitingWindow;
            Action::LookupWindow
        } else {
            self.proceed_after_platform()
        }
    }

    /// Report the outcome of the last requested action; the sequencer moves
    /// to the next phase and answers with the next action, exactly as the
    /// transition table says.
    pub fn on_event(&mut self, event: Event) -> (action: Action)
        requires
            event_fits(old(self).phase, event),
        ensures
            final(self).config == old(self).config,
            (final(self).phase, action) == spec_transition(
                old(self).config,
                old(self).phase,
                event,
            ),
    {
        match (self.phase, event) {
            (Phase::AwaitingWindow, Event::WindowLookup { found }) => {
                if found {
                    if self.config.debug_build {
                        self.phase = Phase::AwaitingPanel;
                        Action::OpenDebugPanel
                    } else {
                        self.phase = Phase::AwaitingEffect;
                        Action::ApplyVisualEffect { enabled: true }
                    }
                } else {
                    match self.config.missing_window {
                        MissingWindowPolicy::Abort => {
                            self.phase = Phase::SetupFailed { error: SetupError::WindowNotFound };
                            Action::FailSetup { error: SetupError::WindowNotFound }
                        },
                        MissingWindowPolicy::Continue => self.proceed_after_platform(),
                    }
                }
            },
            (Phase::AwaitingPanel, Event::PanelOpened) => {
                self.phase = Phase::AwaitingEffect;
                Action::ApplyVisualEffect { enabled: true }
            },
            (Phase::AwaitingEffect, Event::EffectResult { .. }) => self.proceed_after_platform(),
            (Phase::AwaitingPlugin, Event::PluginResult { registered }) => {
                if registered {
                    self.phase = Phase::Running;
                    Action::StartRunLoop
                } else {
                    self.phase = Phase::SetupFailed { error: SetupError::PluginRegistration };
                    Action::FailSetup { error: SetupError::PluginRegistration }
                }
            },
            (Phase::Running, Event::RunEnded { ok }) => {
                if ok {
                    self.phase = Phase::Exited;
                    Action::Finish
                } else {
                    self.phase = Phase::RunFailed;
                    Action::FailRun
                }
            },
            _ => unreached(),
        }
    }

    /// Move past the window-scoped steps: register the logging plugin in a
    /// debugging build, else declare setup complete and start the run loop.
    fn proceed_after_platform(&mut self) -> (action: Action)
        ensures
            final(self).config == old(self).config,
            (final(self).phase, action) == spec_after_platform(old(self).config),
    {
        if self.config.debug_build {
            self.phase = Phase::AwaitingPlugin;
            Action::RegisterLogPlugin { min_severity: Severity::Info }
        } else {
            self.phase = Phase::Running;
            Action::StartRunLoop
        }
    }
}

} // verus!
