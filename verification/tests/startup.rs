use startup_sequencer::config::{
    main_window_label, run_failure_diagnostic, Config, MissingWindowPolicy, Severity,
};
use startup_sequencer::sequencer::{Action, Event, Phase, Sequencer, SetupError};
use startup_sequencer::trace::{drive, exit_code, HostReplies, Trace};

fn config(target_platform: bool, debug_build: bool) -> Config {
    Config {
        target_platform,
        debug_build,
        missing_window: MissingWindowPolicy::Abort,
    }
}

fn all_ok() -> HostReplies {
    HostReplies {
        window_found: true,
        effect_applied: true,
        plugin_registered: true,
        run_ok: true,
    }
}

#[test]
fn window_label_is_main() {
    assert_eq!(main_window_label(), "main");
}

#[test]
fn run_failure_diagnostic_is_not_empty() {
    assert_eq!(run_failure_diagnostic(), "error while running tauri application");
    assert!(!run_failure_diagnostic().is_empty());
}

#[test]
fn gating_target_platform_debug_build() {
    let trace = drive(config(true, true), all_ok());
    assert_eq!(
        trace.actions,
        vec![
            Action::LookupWindow,
            Action::OpenDebugPanel,
            Action::ApplyVisualEffect { enabled: true },
            Action::RegisterLogPlugin {
                min_severity: Severity::Info
            },
            Action::StartRunLoop,
            Action::Finish,
        ]
    );
    assert_eq!(trace.phase, Phase::Exited);
}

#[test]
fn gating_target_platform_release_build() {
    let trace = drive(config(true, false), all_ok());
    assert_eq!(
        trace.actions,
        vec![
            Action::LookupWindow,
            Action::ApplyVisualEffect { enabled: true },
            Action::StartRunLoop,
            Action::Finish,
        ]
    );
    assert_eq!(trace.phase, Phase::Exited);
}

#[test]
fn gating_other_platform_debug_build() {
    let trace = drive(config(false, true), all_ok());
    assert_eq!(
        trace.actions,
        vec![
            Action::RegisterLogPlugin {
                min_severity: Severity::Info
            },
            Action::StartRunLoop,
            Action::Finish,
        ]
    );
    assert_eq!(trace.phase, Phase::Exited);
}

#[test]
fn gating_other_platform_release_build() {
    let trace = drive(config(false, false), all_ok());
    assert_eq!(trace.actions, vec![Action::StartRunLoop, Action::Finish]);
    assert_eq!(trace.phase, Phase::Exited);
}

#[test]
fn effect_failure_changes_nothing_downstream() {
    for &target_platform in &[false, true] {
        for &debug_build in &[false, true] {
            let applied = drive(config(target_platform, debug_build), all_ok());
            let failed = drive(
                config(target_platform, debug_build),
                HostReplies {
                    effect_applied: false,
                    ..all_ok()
                },
            );
            assert_eq!(applied.actions, failed.actions);
            assert_eq!(applied.phase, failed.phase);
            assert_eq!(failed.phase, Phase::Exited);
        }
    }
}

#[test]
fn plugin_rejection_is_fatal() {
    let trace = drive(
        config(true, true),
        HostReplies {
            plugin_registered: false,
            ..all_ok()
        },
    );
    assert_eq!(
        trace.actions,
        vec![
            Action::LookupWindow,
            Action::OpenDebugPanel,
            Action::ApplyVisualEffect { enabled: true },
            Action::RegisterLogPlugin {
                min_severity: Severity::Info
            },
            Action::FailSetup {
                error: SetupError::PluginRegistration
            },
        ]
    );
    assert_eq!(
        trace.phase,
        Phase::SetupFailed {
            error: SetupError::PluginRegistration
        }
    );
    assert!(!trace.actions.contains(&Action::StartRunLoop));
    assert_eq!(exit_code(&trace.phase), 1);
}

#[test]
fn plugin_rejection_is_fatal_off_the_target_platform() {
    let trace = drive(
        config(false, true),
        HostReplies {
            plugin_registered: false,
            ..all_ok()
        },
    );
    assert_eq!(
        trace.actions,
        vec![
            Action::RegisterLogPlugin {
                min_severity: Severity::Info
            },
            Action::FailSetup {
                error: SetupError::PluginRegistration
            },
        ]
    );
    assert!(!trace.actions.contains(&Action::StartRunLoop));
}

#[test]
fn missing_window_aborts_setup() {
    let trace = drive(
        config(true, true),
        HostReplies {
            window_found: false,
            ..all_ok()
        },
    );
    assert_eq!(
        trace.actions,
        vec![
            Action::LookupWindow,
            Action::FailSetup {
                error: SetupError::WindowNotFound
            },
        ]
    );
    assert_eq!(
        trace.phase,
        Phase::SetupFailed {
            error: SetupError::WindowNotFound
        }
    );
    assert!(!trace.actions.contains(&Action::OpenDebugPanel));
    assert!(!trace.actions.contains(&Action::ApplyVisualEffect { enabled: true }));
    assert!(!trace.actions.contains(&Action::StartRunLoop));
    assert_eq!(exit_code(&trace.phase), 1);
}

#[test]
fn missing_window_skipped_under_continue_policy() {
    let lenient = Config {
        missing_window: MissingWindowPolicy::Continue,
        ..config(true, true)
    };
    let trace = drive(
        lenient,
        HostReplies {
            window_found: false,
            ..all_ok()
        },
    );
    assert_eq!(
        trace.actions,
        vec![
            Action::LookupWindow,
            Action::RegisterLogPlugin {
                min_severity: Severity::Info
            },
            Action::StartRunLoop,
            Action::Finish,
        ]
    );
    assert_eq!(trace.phase, Phase::Exited);

    let release = Config {
        missing_window: MissingWindowPolicy::Continue,
        ..config(true, false)
    };
    let trace = drive(
        release,
        HostReplies {
            window_found: false,
            ..all_ok()
        },
    );
    assert_eq!(
        trace.actions,
        vec![Action::LookupWindow, Action::StartRunLoop, Action::Finish]
    );
}

#[test]
fn run_loop_failure_is_fatal_with_diagnostic() {
    let trace = drive(
        config(false, false),
        HostReplies {
            run_ok: false,
            ..all_ok()
        },
    );
    assert_eq!(trace.actions, vec![Action::StartRunLoop, Action::FailRun]);
    assert_eq!(trace.phase, Phase::RunFailed);
    assert_ne!(exit_code(&trace.phase), 0);
    assert!(!run_failure_diagnostic().is_empty());
}

#[test]
fn end_to_end_target_debug_and_other_release() {
    let debug_trace = drive(config(true, true), all_ok());
    assert_eq!(
        debug_trace.actions,
        vec![
            Action::LookupWindow,
            Action::OpenDebugPanel,
            Action::ApplyVisualEffect { enabled: true },
            Action::RegisterLogPlugin {
                min_severity: Severity::Info
            },
            Action::StartRunLoop,
            Action::Finish,
        ]
    );
    let release_trace = drive(config(false, false), all_ok());
    assert_eq!(release_trace.actions, vec![Action::StartRunLoop, Action::Finish]);
    assert!(!release_trace.actions.contains(&Action::LookupWindow));
    assert!(!release_trace
        .actions
        .iter()
        .any(|a| matches!(a, Action::RegisterLogPlugin { .. })));
}

#[test]
fn sequencer_steps_one_event_at_a_time() {
    let mut sequencer = Sequencer::new(config(true, true));
    assert_eq!(sequencer.phase, Phase::NotStarted);
    assert!(!sequencer.accepts(&Event::PanelOpened));

    let action = sequencer.begin();
    assert_eq!(action, Action::LookupWindow);
    assert_eq!(sequencer.phase, Phase::AwaitingWindow);
    assert!(sequencer.accepts(&Event::WindowLookup { found: true }));
    assert!(!sequencer.accepts(&Event::PluginResult { registered: true }));

    let action = sequencer.on_event(Event::WindowLookup { found: true });
    assert_eq!(action, Action::OpenDebugPanel);
    assert_eq!(sequencer.phase, Phase::AwaitingPanel);

    let action = sequencer.on_event(Event::PanelOpened);
    assert_eq!(action, Action::ApplyVisualEffect { enabled: true });
    assert_eq!(sequencer.phase, Phase::AwaitingEffect);

    let action = sequencer.on_event(Event::EffectResult { applied: false });
    assert_eq!(
        action,
        Action::RegisterLogPlugin {
            min_severity: Severity::Info
        }
    );
    assert_eq!(sequencer.phase, Phase::AwaitingPlugin);

    let action = sequencer.on_event(Event::PluginResult { registered: true });
    assert_eq!(action, Action::StartRunLoop);
    assert_eq!(sequencer.phase, Phase::Running);

    let action = sequencer.on_event(Event::RunEnded { ok: true });
    assert_eq!(action, Action::Finish);
    assert_eq!(sequencer.phase, Phase::Exited);
    assert!(!sequencer.accepts(&Event::RunEnded { ok: true }));
    assert_eq!(exit_code(&sequencer.phase), 0);
}

#[test]
fn exit_codes_follow_the_phase() {
    assert_eq!(exit_code(&Phase::Exited), 0);
    assert_eq!(exit_code(&Phase::Running), 0);
    assert_eq!(
        exit_code(&Phase::SetupFailed {
            error: SetupError::WindowNotFound
        }),
        1
    );
    assert_eq!(
        exit_code(&Phase::SetupFailed {
            error: SetupError::PluginRegistration
        }),
        1
    );
    assert_eq!(exit_code(&Phase::RunFailed), 1);
}

#[test]
fn trace_is_cloneable_for_reporting() {
    let trace: Trace = drive(config(true, false), all_ok());
    let copy = trace.clone();
    assert_eq!(trace.actions, copy.actions);
    assert_eq!(trace.phase, copy.phase);
}
