//! Whole-startup view of the sequencer: which actions a complete startup
//! attempt issues, in order, and in which phase it ends, as a function of the
//! configuration and of the host's replies.

use vstd::prelude::*;
use crate::config::{Config, MissingWindowPolicy, Severity};
use crate::sequencer::{Action, Event, Phase, Sequencer, SetupError, is_fatal};

verus! {

/// The host's reply to each setup request, gathered in one place so that a
/// whole startup attempt can be examined as a function of them.  A reply is
/// only consulted when the corresponding step runs.
#[derive(Clone, Copy, PartialEq, Eq, Structural, Debug)]
pub struct HostReplies {
    /// Whether a window is registered under the main window label.
    pub window_found: bool,
    /// Whether the visual effect could be applied.
    pub effect_applied: bool,
    /// Whether the host accepted the logging plugin.
    pub plugin_registered: bool,
    /// Whether the run loop ran and ended without error.
    pub run_ok: bool,
}

/// Everything a complete startup attempt produced: the actions issued, in
/// order, and the phase it ended in.
#[derive(Clone, Debug)]
pub struct Trace {
    /// The actions issued to the host, first to last.
    pub actions: Vec<Action>,
    /// The terminal phase of the attempt.
    pub phase: Phase,
}

/// Whether the missing main window aborts setup: only on the target
/// platform, only when the lookup fails, and only under the aborting policy.
pub open spec fn spec_window_aborts(config: Config, replies: HostReplies) -> bool {
    config.target_platform && !replies.window_found
        && config.missing_window == MissingWindowPolicy::Abort
}

/// The window-scoped actions of an attempt: none off the target platform;
/// the lookup alone when the window is missing; otherwise the lookup, the
/// debugging panel in debugging builds, and the visual effect.
pub open spec fn spec_platform_actions(config: Config, replies: HostReplies) -> Seq<Action> {
    if !config.target_platform {
        seq![]
    } else if !replies.window_found {
        seq![Action::LookupWindow]
    } else if config.debug_build {
        seq![
            Action::LookupWindow,
            Action::OpenDebugPanel,
            (Action::ApplyVisualEffect { enabled: true }),
        ]
    } else {
        seq![Action::LookupWindow, (Action::ApplyVisualEffect { enabled: true })]
    }
}

/// The logging-plugin actions of an attempt: one registration, with
/// informational messages and above kept, in debugging builds that were not
/// aborted by the window lookup; none otherwise.
pub open spec fn spec_plugin_actions(config: Config, replies: HostReplies) -> Seq<Action> {
    if config.debug_build && !spec_window_aborts(config, replies) {
        seq![(Action::RegisterLogPlugin { min_severity: Severity::Info })]
    } else {
        seq![]
    }
}

/// How setup ends: aborted by the window lookup, failed on the plugin
/// registration, or successful.  Success is owed exactly when neither
/// failing step ran and failed.
pub open spec fn spec_setup_outcome(config: Config, replies: HostReplies) -> Result<
    (),
    SetupError,
> {
    if spec_window_aborts(config, replies) {
        Result::Err(SetupError::WindowNotFound)
    } else if config.debug_build && !replies.plugin_registered {
        Result::Err(SetupError::PluginRegistration)
    } else {
        Result::Ok(())
    }
}

/// Every action the setup stage issues, in order: the window-scoped steps,
/// then the plugin step, then either the start of the run loop or the abort.
pub open spec fn spec_setup_actions(config: Config, replies: HostReplies) -> Seq<Action> {
    spec_platform_actions(config, replies) + spec_plugin_actions(config, replies)
        + match spec_setup_outcome(config, replies) {
        Result::Ok(()) => seq![Action::StartRunLoop],
        Result::Err(error) => seq![(Action::FailSetup { error })],
    }
}

/// Every action a complete attempt issues: the setup actions, followed — only
/// when setup succeeded — by the end of the run loop.
pub open spec fn spec_run_actions(config: Config, replies: HostReplies) -> Seq<Action> {
    spec_setup_actions(config, replies) + match spec_setup_outcome(config, replies) {
        Result::Ok(()) => if replies.run_ok {
            seq![Action::Finish]
        } else {
            seq![Action::FailRun]
        },
        Result::Err(_) => seq![],
    }
}

/// The phase a complete attempt ends in: setup failure keeps the run loop
/// from starting; after a successful setup the attempt ends with the run
/// loop, normally or fatally.
pub open spec fn spec_final_phase(config: Config, replies: HostReplies) -> Phase {
    match spec_setup_outcome(config, replies) {
        Result::Err(error) => Phase::SetupFailed { error },
        Result::Ok(()) => if replies.run_ok {
            Phase::Exited
        } else {
            Phase::RunFailed
        },
    }
}

/// Run one complete startup attempt of the sequencer against the given host
/// replies, and return every action it issued together with the phase it
/// ended in.  This is the machine of `Sequencer` driven to the end, and it
/// issues exactly the actions the trace functions describe.
pub fn drive(config: Config, replies: HostReplies) -> (trace: Trace)
    ensures
        trace.actions@ == spec_run_actions(config, replies),
        trace.phase == spec_final_phase(config, replies),
{
    let mut sequencer = Sequencer::new(config);
    let mut actions: Vec<Action> = Vec::new();
    let mut action = sequencer.begin();
    actions.push(action);
    if config.target_platform {
        action = sequencer.on_event(Event::WindowLookup { found: replies.window_found });
        actions.push(action);
        if replies.window_found {
            if config.debug_build {
                action = sequencer.on_event(Event::PanelOpened);
                actions.push(action);
            }
            action = sequencer.on_event(Event::EffectResult { applied: replies.effect_applied });
            actions.push(action);
        }
    }
    if let Action::RegisterLogPlugin { .. } = action {
        action = sequencer.on_event(Event::PluginResult { registered: replies.plugin_registered });
        actions.push(action);
    }
    if let Action::StartRunLoop = action {
        action = sequencer.on_event(Event::RunEnded { ok: replies.run_ok });
        actions.push(action);
    }
    proof {
        assert(actions@ =~= spec_run_actions(config, replies));
    }
    Trace { actions, phase: sequencer.phase }
}

/// The process exit status equivalent of a terminal phase: zero exactly for
/// the phases that are not fatal, one for setup or run-loop failure.
pub fn exit_code(phase: &Phase) -> (code: i32)
    ensures
        (code != 0) <==> is_fatal(*phase),
        is_fatal(*phase) ==> code == 1,
{
    match phase {
        Phase::SetupFailed { .. } => 1,
        Phase::RunFailed => 1,
        _ => 0,
    }
}

} // verus!
