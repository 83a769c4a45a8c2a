//! The guarantees of the startup sequencer, stated and proved over the trace
//! functions that `drive` is verified against: which actions an attempt can
//! issue at all, and how each failing step shapes the rest of the attempt.

use vstd::prelude::*;
use crate::config::{Config, MissingWindowPolicy, Severity};
use crate::sequencer::{Action, Phase, SetupError, is_fatal};
use crate::trace::{
    HostReplies, spec_final_phase, spec_platform_actions, spec_plugin_actions, spec_run_actions,
    spec_setup_actions, spec_setup_outcome, spec_window_aborts,
};

verus! {

/// An element is in a concatenation exactly when it is in one of the parts.
proof fn lemma_concat_contains(left: Seq<Action>, right: Seq<Action>, x: Action)
    ensures
        (left + right).contains(x) <==> left.contains(x) || right.contains(x),
{
    if left.contains(x) {
        let i = choose|i: int| 0 <= i < left.len() && left[i] == x;
        assert((left + right)[i] == x);
    }
    if right.contains(x) {
        let i = choose|i: int| 0 <= i < right.len() && right[i] == x;
        assert((left + right)[left.len() + i] == x);
    }
    if (left + right).contains(x) {
        let i = choose|i: int| 0 <= i < (left + right).len() && (left + right)[i] == x;
        if i < left.len() {
            assert(left[i] == x);
        } else {
            assert(right[i - left.len()] == x);
        }
    }
}

/// A one-action sequence contains exactly that action.
proof fn lemma_seq1_contains(a: Action, x: Action)
    ensures
        seq![a].contains(x) <==> x == a,
{
    if x == a {
        assert(seq![a][0] == x);
    }
    if seq![a].contains(x) {
        let i = choose|i: int| 0 <= i < seq![a].len() && seq![a][i] == x;
        assert(seq![a][i] == x);
    }
}

/// A two-action sequence contains exactly those two actions.
proof fn lemma_seq2_contains(a: Action, b: Action, x: Action)
    ensures
        seq![a, b].contains(x) <==> (x == a || x == b),
{
    if x == a {
        assert(seq![a, b][0] == x);
    }
    if x == b {
        assert(seq![a, b][1] == x);
    }
    if seq![a, b].contains(x) {
        let i = choose|i: int| 0 <= i < seq![a, b].len() && seq![a, b][i] == x;
        assert(seq![a, b][i] == x);
    }
}

/// A three-action sequence contains exactly those three actions.
proof fn lemma_seq3_contains(a: Action, b: Action, c: Action, x: Action)
    ensures
        seq![a, b, c].contains(x) <==> (x == a || x == b || x == c),
{
    if x == a {
        assert(seq![a, b, c][0] == x);
    }
    if x == b {
        assert(seq![a, b, c][1] == x);
    }
    if x == c {
        assert(seq![a, b, c][2] == x);
    }
    if seq![a, b, c].contains(x) {
        let i = choose|i: int| 0 <= i < seq![a, b, c].len() && seq![a, b, c][i] == x;
        assert(seq![a, b, c][i] == x);
    }
}

/// Exactly which actions a complete startup attempt issues: each possible
/// action appears precisely under its own gate — the window lookup on the
/// target platform, the debugging panel behind the platform, lookup and
/// build gates, the visual effect behind the platform and lookup gates, the
/// logging plugin behind the build gate unless the window lookup aborted,
/// and one closing action given by the setup outcome and the run result.
pub proof fn lemma_action_membership(config: Config, replies: HostReplies, x: Action)
    ensures
        spec_run_actions(config, replies).contains(x) <==> {
            ||| config.target_platform && x == Action::LookupWindow
            ||| config.target_platform && replies.window_found && config.debug_build && x
                == Action::OpenDebugPanel
            ||| config.target_platform && replies.window_found && x == (Action::ApplyVisualEffect {
                enabled: true,
            })
            ||| config.debug_build && !spec_window_aborts(config, replies) && x
                == (Action::RegisterLogPlugin { min_severity: Severity::Info })
            ||| spec_setup_outcome(config, replies) is Ok && x == Action::StartRunLoop
            ||| spec_setup_outcome(config, replies) is Err && x == (Action::FailSetup {
                error: spec_setup_outcome(config, replies)->Err_0,
            })
            ||| spec_setup_outcome(config, replies) is Ok && replies.run_ok && x == Action::Finish
            ||| spec_setup_outcome(config, replies) is Ok && !replies.run_ok && x
                == Action::FailRun
        },
{
    let platform = spec_platform_actions(config, replies);
    let plugin = spec_plugin_actions(config, replies);
    if config.target_platform {
        if !replies.window_found {
            lemma_seq1_contains(Action::LookupWindow, x);
        } else if config.debug_build {
            lemma_seq3_contains(
                Action::LookupWindow,
                Action::OpenDebugPanel,
                (Action::ApplyVisualEffect { enabled: true }),
                x,
            );
        } else {
            lemma_seq2_contains(
                Action::LookupWindow,
                (Action::ApplyVisualEffect { enabled: true }),
                x,
            );
        }
    }
    if config.debug_build && !spec_window_aborts(config, replies) {
        lemma_seq1_contains((Action::RegisterLogPlugin { min_severity: Severity::Info }), x);
    }
    match spec_setup_outcome(config, replies) {
        Result::Ok(()) => {
            lemma_seq1_contains(Action::StartRunLoop, x);
            if replies.run_ok {
                lemma_seq1_contains(Action::Finish, x);
            } else {
                lemma_seq1_contains(Action::FailRun, x);
            }
            lemma_concat_contains(platform, plugin, x);
            lemma_concat_contains(platform + plugin, seq![Action::StartRunLoop], x);
            lemma_concat_contains(
                spec_setup_actions(config, replies),
                if replies.run_ok {
                    seq![Action::Finish]
                } else {
                    seq![Action::FailRun]
                },
                x,
            );
        },
        Result::Err(error) => {
            lemma_seq1_contains((Action::FailSetup { error }), x);
            lemma_concat_contains(platform, plugin, x);
            lemma_concat_contains(platform + plugin, seq![(Action::FailSetup { error })], x);
            lemma_concat_contains(spec_setup_actions(config, replies), seq![], x);
            assert(spec_run_actions(config, replies) =~= spec_setup_actions(config, replies));
        },
    }
}

/// Branch gating: for every combination of platform and build mode — and
/// every set of host replies — the window-scoped actions are issued only on
/// the target platform, and the debugging-only actions only in debugging
/// builds: the lookup exactly on the target platform, the panel exactly when
/// platform, lookup and build gates all pass, the effect exactly when the
/// lookup succeeded on the target platform, and the plugin registration
/// exactly in debugging builds whose setup the lookup did not abort.
pub proof fn lemma_branch_gating(config: Config, replies: HostReplies)
    ensures
        spec_run_actions(config, replies).contains(Action::LookupWindow)
            <==> config.target_platform,
        spec_run_actions(config, replies).contains(Action::OpenDebugPanel)
            <==> (config.target_platform && replies.window_found && config.debug_build),
        spec_run_actions(config, replies).contains((Action::ApplyVisualEffect { enabled: true }))
            <==> (config.target_platform && replies.window_found),
        spec_run_actions(config, replies).contains(
            (Action::RegisterLogPlugin { min_severity: Severity::Info }),
        ) <==> (config.debug_build && !spec_window_aborts(config, replies)),
{
    lemma_action_membership(config, replies, Action::LookupWindow);
    lemma_action_membership(config, replies, Action::OpenDebugPanel);
    lemma_action_membership(config, replies, (Action::ApplyVisualEffect { enabled: true }));
    lemma_action_membership(
        config,
        replies,
        (Action::RegisterLogPlugin { min_severity: Severity::Info }),
    );
}

/// Idempotent discard: the outcome of the visual effect is consulted by
/// nothing — two attempts whose host replies differ only in it issue the
/// same actions, reach the same setup outcome and end in the same phase.
pub proof fn lemma_effect_discard(config: Config, replies: HostReplies, altered: HostReplies)
    requires
        altered.window_found == replies.window_found,
        altered.plugin_registered == replies.plugin_registered,
        altered.run_ok == replies.run_ok,
    ensures
        spec_run_actions(config, altered) == spec_run_actions(config, replies),
        spec_setup_outcome(config, altered) == spec_setup_outcome(config, replies),
        spec_final_phase(config, altered) == spec_final_phase(config, replies),
{
    assert(spec_platform_actions(config, altered) =~= spec_platform_actions(config, replies));
    assert(spec_plugin_actions(config, altered) =~= spec_plugin_actions(config, replies));
    assert(spec_setup_actions(config, altered) =~= spec_setup_actions(config, replies));
    assert(spec_run_actions(config, altered) =~= spec_run_actions(config, replies));
}

/// Fatal propagation: when the logging plugin is due and the host rejects
/// it, setup reports exactly that failure, the attempt ends in the
/// setup-failed phase, and the run loop is never started.
pub proof fn lemma_plugin_failure_fatal(config: Config, replies: HostReplies)
    requires
        config.debug_build,
        !replies.plugin_registered,
        !spec_window_aborts(config, replies),
    ensures
        spec_setup_outcome(config, replies) == Result::<(), SetupError>::Err(
            SetupError::PluginRegistration,
        ),
        spec_final_phase(config, replies) == (Phase::SetupFailed {
            error: SetupError::PluginRegistration,
        }),
        is_fatal(spec_final_phase(config, replies)),
        !spec_run_actions(config, replies).contains(Action::StartRunLoop),
{
    lemma_action_membership(config, replies, Action::StartRunLoop);
}

/// Fatal window lookup: when the main window is missing on the target
/// platform, neither of the further window-scoped actions — the debugging
/// panel and the visual effect — is ever issued; and under the aborting
/// policy setup fails with exactly the window error, the logging plugin is
/// never registered and the run loop never starts.
pub proof fn lemma_missing_window_gates(config: Config, replies: HostReplies)
    requires
        config.target_platform,
        !replies.window_found,
    ensures
        !spec_run_actions(config, replies).contains(Action::OpenDebugPanel),
        !spec_run_actions(config, replies).contains((Action::ApplyVisualEffect { enabled: true })),
        config.missing_window == MissingWindowPolicy::Abort ==> spec_setup_outcome(config, replies)
            == Result::<(), SetupError>::Err(SetupError::WindowNotFound),
        config.missing_window == MissingWindowPolicy::Abort ==> spec_final_phase(config, replies)
            == (Phase::SetupFailed { error: SetupError::WindowNotFound }),
        config.missing_window == MissingWindowPolicy::Abort ==> !spec_run_actions(
            config,
            replies,
        ).contains(Action::StartRunLoop),
        config.missing_window == MissingWindowPolicy::Abort ==> !spec_run_actions(
            config,
            replies,
        ).contains((Action::RegisterLogPlugin { min_severity: Severity::Info })),
{
    lemma_action_membership(config, replies, Action::OpenDebugPanel);
    lemma_action_membership(config, replies, (Action::ApplyVisualEffect { enabled: true }));
    lemma_action_membership(config, replies, Action::StartRunLoop);
    lemma_action_membership(
        config,
        replies,
        (Action::RegisterLogPlugin { min_severity: Severity::Info }),
    );
}

/// Run-loop failure reporting: after a setup that succeeded, a failing run
/// loop ends the attempt in the fatal run-failed phase, and the last action
/// issued is the order to terminate with the run-failure diagnostic.
pub proof fn lemma_run_failure_fatal(config: Config, replies: HostReplies)
    requires
        spec_setup_outcome(config, replies) is Ok,
        !replies.run_ok,
    ensures
        spec_final_phase(config, replies) == Phase::RunFailed,
        is_fatal(spec_final_phase(config, replies)),
        spec_run_actions(config, replies).len() > 0,
        spec_run_actions(config, replies).last() == Action::FailRun,
{
    assert(spec_run_actions(config, replies) == spec_setup_actions(config, replies)
        + seq![Action::FailRun]);
    assert(spec_run_actions(config, replies).last() == Action::FailRun);
}

} // verus!
