//! Updates of the session: when one is started, and how it runs.
use crate::config::{Config, NamesConfig};
use crate::context;
use crate::context::{record_reminder_latency_if_recent, ReminderType};
use crate::relaunch;
use crate::relaunch::{build_relaunch_claude_argv, plan_relaunch, RelaunchPlan};
use crate::state::{State, StateView};
use crate::text;
use crate::text::{text_eq, trim};
use crate::time;
use crate::time::{as_opt_str, current_minute, current_moment, stamp_over, stamp_under, Moment};
use vstd::prelude::*;
use vstd::string::{StrSliceExecFns, StringExecFns};

verus! {

/// How long an update may take before it counts as lost.
pub const UPDATE_STUCK_SECS: u64 = 3600;

/// The versions that were found.
#[derive(Debug, Clone)]
pub struct VersionSights {
    /// The version that runs in the pane.
    pub running: Option<String>,
    /// The version that is installed.
    pub installed: Option<String>,
}

/// Both versions are known.
pub open spec fn versions_known(v: VersionSights) -> bool {
    v.running is Some && v.installed is Some
}

/// Both versions are known and the same.
pub open spec fn versions_match(v: VersionSights) -> bool {
    versions_known(v) && v.running->0@ == v.installed->0@
}

/// What a look at the two versions shows.
#[derive(Debug, Clone, Copy, PartialEq, Eq, Structural)]
enum Comparison {
    Unknown,
    Same,
    Different,
}

/// Compares the two versions.
fn compare_versions(v: &VersionSights) -> (r: Comparison)
    ensures
        (r == Comparison::Unknown) == !versions_known(*v),
        (r == Comparison::Same) == versions_match(*v),
{
    match (&v.running, &v.installed) {
        (Some(running), Some(installed)) => {
            if text_eq(running.as_str(), installed.as_str()) {
                Comparison::Same
            } else {
                Comparison::Different
            }
        },
        _ => Comparison::Unknown,
    }
}

/// What came of the manual trigger.
#[derive(Debug, Clone, Copy, PartialEq, Eq, Structural)]
pub enum TriggerOutcome {
    /// There is no trigger.
    NoTrigger,
    /// There is one, but no pane was found.
    NoPane,
    /// A version could not be determined.
    UnknownVersion,
    /// The versions match and the update was not forced.
    UpToDate,
    /// An update starts.
    Started {
        /// Whether it was forced.
        force: bool,
    },
}

/// Whether the trigger's text forces the update.
pub open spec fn forced(content: Seq<char>) -> bool {
    text::trimmed(content) == "force"@
}

/// What comes of the manual trigger.
pub open spec fn trigger_outcome(
    content: Option<Seq<char>>,
    pane: Seq<char>,
    versions: VersionSights,
) -> TriggerOutcome {
    match content {
        None => TriggerOutcome::NoTrigger,
        Some(c) => if pane.len() == 0 {
            TriggerOutcome::NoPane
        } else if !versions_known(versions) {
            TriggerOutcome::UnknownVersion
        } else if versions_match(versions) && !forced(c) {
            TriggerOutcome::UpToDate
        } else {
            TriggerOutcome::Started { force: forced(c) }
        },
    }
}

/// The state once an update has begun.
pub open spec fn update_begun(s: StateView, stamp: Seq<char>) -> StateView {
    StateView {
        last_update_attempt: Some(stamp),
        update_in_progress: true,
        auto_update_count: (s.auto_update_count + 1) as u64,
        auto_update_interrupts_total: s.auto_update_interrupts_total.saturating_add(1),
        ..s
    }
}

/// Books the beginning of an update.
fn begin_update(state: &mut State, stamp: &str)
    requires
        old(state)@.auto_update_count < u64::MAX,
    ensures
        final(state)@ == update_begun(old(state)@, stamp@),
{
    proof {
        reveal(crate::state::state_view);
    }
    state.last_update_attempt = Some(stamp.to_owned());
    state.update_in_progress = true;
    state.auto_update_count = state.auto_update_count + 1;
    state.auto_update_interrupts_total = state.auto_update_interrupts_total.saturating_add(1);
}

/// Acts on the manual trigger: `content` is its text where there is one.
pub fn check_update_trigger(
    state: &mut State,
    content: Option<&str>,
    pane: &str,
    versions: &VersionSights,
    stamp: &str,
) -> (r: TriggerOutcome)
    requires
        old(state)@.auto_update_count < u64::MAX,
    ensures
        r == trigger_outcome(time::opt_str_view(content), pane@, *versions),
        final(state)@ == (if r is Started {
            update_begun(old(state)@, stamp@)
        } else {
            old(state)@
        }),
{
    let Some(c) = content else {
        return TriggerOutcome::NoTrigger;
    };
    let trimmed = trim(c);
    let force = text_eq(trimmed, "force");
    if pane.unicode_len() == 0 {
        return TriggerOutcome::NoPane;
    }
    match compare_versions(versions) {
        Comparison::Unknown => TriggerOutcome::UnknownVersion,
        Comparison::Same => {
            if !force {
                return TriggerOutcome::UpToDate;
            }
            begin_update(state, stamp);
            TriggerOutcome::Started { force }
        },
        Comparison::Different => {
            begin_update(state, stamp);
            TriggerOutcome::Started { force }
        },
    }
}

/// Whether the hourly look at the versions is due.
#[derive(Debug, Clone, Copy, PartialEq, Eq, Structural)]
pub enum UpdateGate {
    /// Updates are switched off, or there is no pane.
    Off,
    /// An update is running.
    InProgress,
    /// It is another minute of the hour.
    NotTime,
    /// The last attempt is too recent.
    CoolingDown,
    /// The versions are to be compared.
    Check,
}

/// An update counts as running.
pub open spec fn update_running(s: StateView, now: Moment) -> bool {
    s.update_in_progress && s.last_update_attempt is Some && !time::elapsed_over(
        s.last_update_attempt,
        now,
        UPDATE_STUCK_SECS as int,
    )
}

/// Whether the hourly look at the versions is due.
pub open spec fn update_gate(
    config: Config,
    s: StateView,
    pane: Seq<char>,
    minute: u32,
    now: Moment,
) -> UpdateGate {
    if !config.auto_update.enabled || pane.len() == 0 {
        UpdateGate::Off
    } else if update_running(s, now) {
        UpdateGate::InProgress
    } else if minute != config.auto_update.check_minute {
        UpdateGate::NotTime
    } else if time::elapsed_under(
        s.last_update_attempt,
        now,
        config.auto_update.cooldown_hours * 3600,
    ) {
        UpdateGate::CoolingDown
    } else {
        UpdateGate::Check
    }
}

/// Decides whether the hourly look at the versions is due.
pub fn auto_update_gate(config: &Config, state: &State, pane: &str, minute: u32, now: Moment) -> (r:
    UpdateGate)
    requires
        config.auto_update.cooldown_hours * 3600 <= u64::MAX,
    ensures
        r == update_gate(*config, state@, pane@, minute, now),
{
    proof {
        reveal(crate::state::state_view);
    }
    if !config.auto_update.enabled || pane.unicode_len() == 0 {
        return UpdateGate::Off;
    }
    if state.update_in_progress && state.last_update_attempt.is_some() && !stamp_over(
        as_opt_str(&state.last_update_attempt),
        now,
        UPDATE_STUCK_SECS,
    ) {
        return UpdateGate::InProgress;
    }
    if minute != config.auto_update.check_minute {
        return UpdateGate::NotTime;
    }
    if stamp_under(
        as_opt_str(&state.last_update_attempt),
        now,
        config.auto_update.cooldown_hours * 3600,
    ) {
        return UpdateGate::CoolingDown;
    }
    UpdateGate::Check
}

/// What came of the hourly look at the versions.
#[derive(Debug, Clone, Copy, PartialEq, Eq, Structural)]
pub enum AutoUpdateOutcome {
    /// The versions were not looked at.
    Skipped {
        /// Why not.
        gate: UpdateGate,
    },
    /// A version could not be determined.
    UnknownVersion,
    /// The versions match.
    UpToDate,
    /// They differ, but a hook reminded the session a moment ago.
    LeftToHook,
    /// An update starts.
    Started,
}

/// What comes of the hourly look at the versions.
pub open spec fn auto_outcome(
    config: Config,
    gate: UpdateGate,
    versions: VersionSights,
    hook_recent: bool,
) -> AutoUpdateOutcome {
    if gate != UpdateGate::Check {
        AutoUpdateOutcome::Skipped { gate }
    } else if !versions_known(versions) {
        AutoUpdateOutcome::UnknownVersion
    } else if versions_match(versions) {
        AutoUpdateOutcome::UpToDate
    } else if config.hybrid.enabled && hook_recent {
        AutoUpdateOutcome::LeftToHook
    } else {
        AutoUpdateOutcome::Started
    }
}

/// An update that is lost no longer counts as running.
pub open spec fn lost_update_cleared(s: StateView, gate: UpdateGate) -> StateView {
    if gate == UpdateGate::Off || gate == UpdateGate::InProgress {
        s
    } else {
        StateView { update_in_progress: false, ..s }
    }
}

/// The state after the hourly look at the versions.
pub open spec fn auto_applied(
    s: StateView,
    outcome: AutoUpdateOutcome,
    stamp: Seq<char>,
    since_reminder_ms: Option<i128>,
) -> StateView {
    match outcome {
        AutoUpdateOutcome::Skipped { gate } => lost_update_cleared(s, gate),
        AutoUpdateOutcome::UnknownVersion => lost_update_cleared(s, UpdateGate::Check),
        AutoUpdateOutcome::UpToDate => context::latency_recorded(
            StateView {
                last_update_check: Some(stamp),
                ..lost_update_cleared(s, UpdateGate::Check)
            },
            ReminderType::VersionUpdate,
            since_reminder_ms,
            false,
        ),
        AutoUpdateOutcome::LeftToHook => StateView {
            last_update_check: Some(stamp),
            ..lost_update_cleared(s, UpdateGate::Check)
        },
        AutoUpdateOutcome::Started => StateView {
            last_update_check: Some(stamp),
            fallback_update_count: s.fallback_update_count.saturating_add(1),
            ..update_begun(s, stamp)
        },
    }
}

/// Forgets an update that is lost.
fn clear_lost_update(state: &mut State, gate: UpdateGate)
    ensures
        final(state)@ == lost_update_cleared(old(state)@, gate),
{
    proof {
        reveal(crate::state::state_view);
    }
    match gate {
        UpdateGate::Off => {},
        UpdateGate::InProgress => {},
        _ => {
            state.update_in_progress = false;
        },
    }
}

/// Stamps the look at the versions.
fn note_update_check(state: &mut State, stamp: &str)
    ensures
        final(state)@ == (StateView { last_update_check: Some(stamp@), ..old(state)@ }),
{
    proof {
        reveal(crate::state::state_view);
    }
    state.last_update_check = Some(stamp.to_owned());
}

/// Counts an update that no reminder brought about.
fn count_fallback_update(state: &mut State)
    ensures
        final(state)@ == (StateView {
            fallback_update_count: old(state)@.fallback_update_count.saturating_add(1),
            ..old(state)@
        }),
{
    proof {
        reveal(crate::state::state_view);
    }
    state.fallback_update_count = state.fallback_update_count.saturating_add(1);
}

/// Books what came of the hourly look at the versions.
fn apply_auto_update(
    state: &mut State,
    outcome: AutoUpdateOutcome,
    stamp: &str,
    since_reminder_ms: Option<i128>,
)
    requires
        old(state)@.auto_update_count < u64::MAX,
    ensures
        final(state)@ == auto_applied(old(state)@, outcome, stamp@, since_reminder_ms),
{
    match outcome {
        AutoUpdateOutcome::Skipped { gate } => clear_lost_update(state, gate),
        AutoUpdateOutcome::UnknownVersion => clear_lost_update(state, UpdateGate::Check),
        AutoUpdateOutcome::UpToDate => {
            clear_lost_update(state, UpdateGate::Check);
            note_update_check(state, stamp);
            record_reminder_latency_if_recent(
                ReminderType::VersionUpdate,
                state,
                false,
                since_reminder_ms,
            );
        },
        AutoUpdateOutcome::LeftToHook => {
            clear_lost_update(state, UpdateGate::Check);
            note_update_check(state, stamp);
        },
        AutoUpdateOutcome::Started => {
            begin_update(state, stamp);
            note_update_check(state, stamp);
            count_fallback_update(state);
        },
    }
}

/// Looks at the versions, at a given minute and instant. `hook_recent` says that a hook
/// reminded the session within the grace period, `since_reminder_ms` how long ago one did.
pub fn check_auto_update_at(
    config: &Config,
    state: &mut State,
    pane: &str,
    versions: &VersionSights,
    hook_recent: bool,
    since_reminder_ms: Option<i128>,
    stamp: &str,
    minute: u32,
    now: Moment,
) -> (r: AutoUpdateOutcome)
    requires
        config.auto_update.cooldown_hours * 3600 <= u64::MAX,
        old(state)@.auto_update_count < u64::MAX,
    ensures
        r == auto_outcome(
            *config,
            update_gate(*config, old(state)@, pane@, minute, now),
            *versions,
            hook_recent,
        ),
        final(state)@ == auto_applied(old(state)@, r, stamp@, since_reminder_ms),
{
    let gate = auto_update_gate(config, state, pane, minute, now);
    let outcome = match gate {
        UpdateGate::Check => match compare_versions(versions) {
            Comparison::Unknown => AutoUpdateOutcome::UnknownVersion,
            Comparison::Same => AutoUpdateOutcome::UpToDate,
            Comparison::Different => {
                if config.hybrid.enabled && hook_recent {
                    AutoUpdateOutcome::LeftToHook
                } else {
                    AutoUpdateOutcome::Started
                }
            },
        },
        other => AutoUpdateOutcome::Skipped { gate: other },
    };
    apply_auto_update(state, outcome, stamp, since_reminder_ms);
    outcome
}

/// Looks at the versions, at the clock's minute and instant.
pub fn check_auto_update(
    config: &Config,
    state: &mut State,
    pane: &str,
    versions: &VersionSights,
    hook_recent: bool,
    since_reminder_ms: Option<i128>,
    stamp: &str,
) -> (r: AutoUpdateOutcome)
    requires
        config.auto_update.cooldown_hours * 3600 <= u64::MAX,
        old(state)@.auto_update_count < u64::MAX,
    ensures
        exists|minute: u32, now: Moment|
            r == auto_outcome(
                *config,
                #[trigger] update_gate(*config, old(state)@, pane@, minute, now),
                *versions,
                hook_recent,
            ) && minute < 60,
        final(state)@ == auto_applied(old(state)@, r, stamp@, since_reminder_ms),
{
    let minute: u32 = current_minute();
    let now = current_moment();
    check_auto_update_at(
        config,
        state,
        pane,
        versions,
        hook_recent,
        since_reminder_ms,
        stamp,
        minute,
        now,
    )
}

/// Books the end of an update.
pub fn finish_update(state: &mut State)
    ensures
        final(state)@ == (StateView { update_in_progress: false, ..old(state)@ }),
{
    proof {
        reveal(crate::state::state_view);
    }
    state.update_in_progress = false;
}

/// Remembers that the resume prompt was typed, so that the last clear asks for no second one.
pub fn note_update_resumed(state: &mut State)
    ensures
        final(state)@ == (StateView {
            post_clear_resume_injected_for: old(state)@.last_context_clear,
            ..old(state)@
        }),
{
    proof {
        reveal(crate::state::state_view);
    }
    state.post_clear_resume_injected_for = match &state.last_context_clear {
        Some(stamp) => Some(stamp.as_str().to_owned()),
        None => None,
    };
}

/// Plans the relaunch of a session that left for an update.
pub fn plan_update_relaunch(
    config: &Config,
    bin: &str,
    settings: Option<&str>,
    plugin_dir: Option<&str>,
    session_id: Option<&str>,
) -> (r: RelaunchPlan)
    ensures
        ({
            let launch = relaunch::relaunch_line(
                bin@,
                time::opt_str_view(settings),
                time::opt_str_view(plugin_dir),
                time::opt_str_view(session_id),
            );
            &&& r.script@ == relaunch::script_text(config.names, launch, "update"@)
            &&& r.inject@ == relaunch::inject_line(
                config.claude.relaunch_script@,
                relaunch::inline_launch(launch),
            )
        }),
{
    let launch = build_relaunch_claude_argv(bin, settings, plugin_dir, session_id);
    plan_relaunch(
        &config.names,
        config.claude.relaunch_script.as_str(),
        launch.as_str(),
        "update",
    )
}

/// Why an update was given up.
#[derive(Debug, Clone, Copy, PartialEq, Eq, Structural)]
pub enum UpdateFailure {
    /// The session did not leave in time.
    ExitTimeout,
    /// The relaunch script could not be written.
    ScriptUnwritten,
    /// The session did not come back.
    BinaryMissing {
        /// Whether the clean relaunch was used.
        clean: bool,
    },
    /// The consent dialog did not go away.
    DialogStuck {
        /// Whether the clean relaunch was used.
        clean: bool,
    },
}

impl UpdateFailure {
    /// The reason, as the log names it; an unwritten script is logged by its error alone.
    pub open spec fn reason_text(self) -> Option<Seq<char>> {
        match self {
            UpdateFailure::ExitTimeout => Some("exit_timeout"@),
            UpdateFailure::ScriptUnwritten => None,
            UpdateFailure::BinaryMissing { clean: true } => Some(
                "binary_not_found_after_clean_relaunch"@,
            ),
            UpdateFailure::BinaryMissing { clean: false } => Some(
                "binary_not_found_resume_inject_aborted"@,
            ),
            UpdateFailure::DialogStuck { clean: true } => Some(
                "bypass_dialog_stuck_after_clean_relaunch"@,
            ),
            UpdateFailure::DialogStuck { clean: false } => Some(
                "bypass_dialog_stuck_after_relaunch"@,
            ),
        }
    }

    /// The reason, as the log names it.
    pub fn reason(self) -> (r: Option<&'static str>)
        ensures
            time::opt_str_view(r) == self.reason_text(),
    {
        match self {
            UpdateFailure::ExitTimeout => Some("exit_timeout"),
            UpdateFailure::ScriptUnwritten => None,
            UpdateFailure::BinaryMissing { clean } => {
                if clean {
                    Some("binary_not_found_after_clean_relaunch")
                } else {
                    Some("binary_not_found_resume_inject_aborted")
                }
            },
            UpdateFailure::DialogStuck { clean } => {
                if clean {
                    Some("bypass_dialog_stuck_after_clean_relaunch")
                } else {
                    Some("bypass_dialog_stuck_after_relaunch")
                }
            },
        }
    }

    /// What the operator is told, where they are told anything: an unwritten script is only
    /// logged, and the dialog's own alert has gone out already.
    pub open spec fn alert_text(self, names: NamesConfig) -> Option<Seq<char>> {
        match self {
            UpdateFailure::ExitTimeout => Some(
                names.daemon@ + ": auto-update FAILED — "@ + names.product@ + " did not exit"@,
            ),
            UpdateFailure::BinaryMissing { clean: true } => Some(
                names.daemon@ + ": auto-update FAILED — "@ + names.short@
                    + " did not restart after clean-relaunch (cwsr). Operator must relaunch manually."@,
            ),
            UpdateFailure::BinaryMissing { clean: false } => Some(
                names.daemon@ + ": auto-update FAILED -- "@ + names.short@
                    + " did not restart even after a clean-restart fallback; resume prompt NOT injected (would have hit a raw shell). Operator must relaunch manually."@,
            ),
            _ => None,
        }
    }

    /// [`UpdateFailure::alert_text`], executable.
    pub fn alert_message(self, names: &NamesConfig) -> (r: Option<String>)
        ensures
            time::opt_string_view(r) == self.alert_text(*names),
    {
        match self {
            UpdateFailure::ExitTimeout => Some(
                names.daemon.clone().concat(": auto-update FAILED — ").concat(
                    names.product.as_str(),
                ).concat(" did not exit"),
            ),
            UpdateFailure::BinaryMissing { clean } => {
                if clean {
                    Some(
                        names.daemon.clone().concat(": auto-update FAILED — ").concat(
                            names.short.as_str(),
                        ).concat(
                            " did not restart after clean-relaunch (cwsr). Operator must relaunch manually.",
                        ),
                    )
                } else {
                    Some(
                        names.daemon.clone().concat(": auto-update FAILED -- ").concat(
                            names.short.as_str(),
                        ).concat(
                            " did not restart even after a clean-restart fallback; resume prompt NOT injected (would have hit a raw shell). Operator must relaunch manually.",
                        ),
                    )
                }
            },
            _ => None,
        }
    }
}

/// A step of a running update. Each is carried out, and reports whether it succeeded.
#[derive(Debug, Clone, Copy, PartialEq, Eq, Structural)]
pub enum UpdateStep {
    /// Interrupt the session and wait for it to be idle.
    Interrupt,
    /// Run the command that relaunches the session in one go.
    RunRelaunchCommand,
    /// Type the exit command.
    TypeExit,
    /// Confirm the exit dialog where it shows.
    ConfirmExit,
    /// Wait for the session to leave.
    WaitExit,
    /// Write the relaunch script.
    WriteScript,
    /// Type the relaunch line.
    TypeRelaunch,
    /// Wait for the session's process.
    WaitBinary {
        /// Whether the clean relaunch was used.
        clean: bool,
    },
    /// Run the restart command, where there is one.
    RunRestartCommand,
    /// Wait for the session's process once more.
    WaitBinaryAgain,
    /// Get past the consent dialog.
    SettleDialog {
        /// Whether the clean relaunch was used.
        clean: bool,
    },
    /// Wait for an idle prompt.
    WaitPrompt {
        /// Whether the clean relaunch was used.
        clean: bool,
    },
    /// Type the resume prompt.
    TypeResume {
        /// Whether the clean relaunch was used.
        clean: bool,
    },
    /// Remember that the resume prompt was typed.
    RecordResume,
    /// The update is complete.
    Complete {
        /// Whether the clean relaunch was used.
        clean: bool,
    },
    /// The update was given up.
    Failed {
        /// Why.
        why: UpdateFailure,
    },
}

impl UpdateStep {
    /// The update has come to an end.
    pub open spec fn is_end(self) -> bool {
        self is Complete || self is Failed
    }

    /// Whether the update has come to an end.
    pub fn ended(self) -> (r: bool)
        ensures
            r == self.is_end(),
    {
        match self {
            UpdateStep::Complete { clean } => true,
            UpdateStep::Failed { why } => true,
            _ => false,
        }
    }

    /// How long the step may take, in seconds, where it waits for something.
    pub fn budget_secs(self) -> (r: Option<u64>)
        ensures
            r == (match self {
                UpdateStep::Interrupt => Some(10u64),
                UpdateStep::ConfirmExit => Some(5u64),
                UpdateStep::WaitExit => Some(45u64),
                UpdateStep::WaitBinary { clean } => Some(120u64),
                UpdateStep::WaitBinaryAgain => Some(120u64),
                UpdateStep::WaitPrompt { clean } => Some(90u64),
                UpdateStep::RunRelaunchCommand => Some(60u64),
                UpdateStep::RunRestartCommand => Some(60u64),
                _ => None,
            }),
    {
        match self {
            UpdateStep::Interrupt => Some(10u64),
            UpdateStep::ConfirmExit => Some(5u64),
            UpdateStep::WaitExit => Some(45u64),
            UpdateStep::WaitBinary { clean } => Some(120u64),
            UpdateStep::WaitBinaryAgain => Some(120u64),
            UpdateStep::WaitPrompt { clean } => Some(90u64),
            UpdateStep::RunRelaunchCommand => Some(60u64),
            UpdateStep::RunRestartCommand => Some(60u64),
            _ => None,
        }
    }

    /// How long to wait between two looks at the pane, in milliseconds, where the step looks at
    /// it again and again.
    pub fn poll_millis(self) -> (r: Option<u64>)
        ensures
            r == (match self {
                UpdateStep::ConfirmExit => Some(500u64),
                _ => None,
            }),
    {
        match self {
            UpdateStep::ConfirmExit => Some(500u64),
            _ => None,
        }
    }

    /// How long to pause after the step, in seconds.
    pub fn pause_secs(self) -> (r: u64)
        ensures
            r == (match self {
                UpdateStep::Interrupt => 3u64,
                UpdateStep::WaitExit => 2u64,
                UpdateStep::WaitPrompt { clean } => 3u64,
                _ => 0u64,
            }),
    {
        match self {
            UpdateStep::Interrupt => 3u64,
            UpdateStep::WaitExit => 2u64,
            UpdateStep::WaitPrompt { clean } => 3u64,
            _ => 0u64,
        }
    }
}

/// The step that follows, when a step has succeeded or not. A step that the rest does not
/// depend on is followed by the same step either way.
pub open spec fn step_after(config: Config, step: UpdateStep, ok: bool) -> UpdateStep {
    match step {
        UpdateStep::Interrupt => if config.auto_update.relaunch_command@.len() > 0 {
            UpdateStep::RunRelaunchCommand
        } else {
            UpdateStep::TypeExit
        },
        UpdateStep::RunRelaunchCommand => UpdateStep::WaitBinary { clean: true },
        UpdateStep::TypeExit => UpdateStep::ConfirmExit,
        UpdateStep::ConfirmExit => UpdateStep::WaitExit,
        UpdateStep::WaitExit => if ok {
            UpdateStep::WriteScript
        } else {
            UpdateStep::Failed { why: UpdateFailure::ExitTimeout }
        },
        UpdateStep::WriteScript => if ok {
            UpdateStep::TypeRelaunch
        } else {
            UpdateStep::Failed { why: UpdateFailure::ScriptUnwritten }
        },
        UpdateStep::TypeRelaunch => UpdateStep::WaitBinary { clean: false },
        UpdateStep::WaitBinary { clean } => if ok {
            UpdateStep::SettleDialog { clean }
        } else if !clean && config.auto_respawn_on_hang.respawn_command@.len() > 0 {
            UpdateStep::RunRestartCommand
        } else {
            UpdateStep::Failed { why: UpdateFailure::BinaryMissing { clean } }
        },
        UpdateStep::RunRestartCommand => if ok {
            UpdateStep::WaitBinaryAgain
        } else {
            UpdateStep::Failed { why: UpdateFailure::BinaryMissing { clean: false } }
        },
        UpdateStep::WaitBinaryAgain => if ok {
            UpdateStep::SettleDialog { clean: false }
        } else {
            UpdateStep::Failed { why: UpdateFailure::BinaryMissing { clean: false } }
        },
        UpdateStep::SettleDialog { clean } => if ok {
            UpdateStep::WaitPrompt { clean }
        } else {
            UpdateStep::Failed { why: UpdateFailure::DialogStuck { clean } }
        },
        UpdateStep::WaitPrompt { clean } => UpdateStep::TypeResume { clean },
        UpdateStep::TypeResume { clean } => if clean {
            UpdateStep::RecordResume
        } else {
            UpdateStep::Complete { clean: false }
        },
        UpdateStep::RecordResume => UpdateStep::Complete { clean: true },
        UpdateStep::Complete { clean } => step,
        UpdateStep::Failed { why } => step,
    }
}

/// Decides how an update goes on after a step.
pub fn run_auto_update(config: &Config, step: UpdateStep, ok: bool) -> (r: UpdateStep)
    ensures
        r == step_after(*config, step, ok),
{
    match step {
        UpdateStep::Interrupt => {
            if config.auto_update.relaunch_command.len() > 0 {
                UpdateStep::RunRelaunchCommand
            } else {
                UpdateStep::TypeExit
            }
        },
        UpdateStep::TypeExit => UpdateStep::ConfirmExit,
        UpdateStep::ConfirmExit => UpdateStep::WaitExit,
        UpdateStep::WaitExit => {
            if ok {
                UpdateStep::WriteScript
            } else {
                UpdateStep::Failed { why: UpdateFailure::ExitTimeout }
            }
        },
        UpdateStep::WriteScript => {
            if ok {
                UpdateStep::TypeRelaunch
            } else {
                UpdateStep::Failed { why: UpdateFailure::ScriptUnwritten }
            }
        },
        UpdateStep::TypeRelaunch => UpdateStep::WaitBinary { clean: false },
        UpdateStep::WaitBinary { clean } => {
            if !clean && !ok && config.auto_respawn_on_hang.respawn_command.len() > 0 {
                UpdateStep::RunRestartCommand
            } else {
                after_relaunch(step, ok, clean)
            }
        },
        UpdateStep::RunRestartCommand => {
            if ok {
                UpdateStep::WaitBinaryAgain
            } else {
                UpdateStep::Failed { why: UpdateFailure::BinaryMissing { clean: false } }
            }
        },
        UpdateStep::WaitBinaryAgain => after_relaunch(step, ok, false),
        UpdateStep::SettleDialog { clean } => after_relaunch(step, ok, clean),
        UpdateStep::WaitPrompt { clean } => after_relaunch(step, ok, clean),
        UpdateStep::TypeResume { clean } => {
            if clean {
                UpdateStep::RecordResume
            } else {
                UpdateStep::Complete { clean: false }
            }
        },
        UpdateStep::RunRelaunchCommand => run_auto_update_clean_relaunch(step, ok),
        UpdateStep::RecordResume => run_auto_update_clean_relaunch(step, ok),
        UpdateStep::Complete { clean } => step,
        UpdateStep::Failed { why } => step,
    }
}

/// The steps that both kinds of relaunch share, from the wait for the process to the resume
/// prompt.
fn after_relaunch(step: UpdateStep, ok: bool, clean: bool) -> (r: UpdateStep)
    requires
        step == (UpdateStep::WaitBinary { clean }) || (step is WaitBinaryAgain && !clean) || step
            == (UpdateStep::SettleDialog { clean }) || step == (UpdateStep::WaitPrompt { clean }),
    ensures
        (step is WaitBinary || step is WaitBinaryAgain) && ok ==> r == (UpdateStep::SettleDialog {
            clean,
        }),
        (step is WaitBinary || step is WaitBinaryAgain) && !ok ==> r == (UpdateStep::Failed {
            why: UpdateFailure::BinaryMissing { clean },
        }),
        step is SettleDialog && ok ==> r == (UpdateStep::WaitPrompt { clean }),
        step is SettleDialog && !ok ==> r == (UpdateStep::Failed {
            why: UpdateFailure::DialogStuck { clean },
        }),
        step is WaitPrompt ==> r == (UpdateStep::TypeResume { clean }),
{
    match step {
        UpdateStep::SettleDialog { clean: _ } => {
            if ok {
                UpdateStep::WaitPrompt { clean }
            } else {
                UpdateStep::Failed { why: UpdateFailure::DialogStuck { clean } }
            }
        },
        UpdateStep::WaitPrompt { clean: _ } => UpdateStep::TypeResume { clean },
        _ => {
            if ok {
                UpdateStep::SettleDialog { clean }
            } else {
                UpdateStep::Failed { why: UpdateFailure::BinaryMissing { clean } }
            }
        },
    }
}

/// Decides how an update by the clean relaunch goes on after a step of its own; any other
/// step is left as it is.
pub fn run_auto_update_clean_relaunch(step: UpdateStep, ok: bool) -> (r: UpdateStep)
    ensures
        r == (match step {
            UpdateStep::RunRelaunchCommand => UpdateStep::WaitBinary { clean: true },
            UpdateStep::WaitBinary { clean: true } => if ok {
                UpdateStep::SettleDialog { clean: true }
            } else {
                UpdateStep::Failed { why: UpdateFailure::BinaryMissing { clean: true } }
            },
            UpdateStep::SettleDialog { clean: true } => if ok {
                UpdateStep::WaitPrompt { clean: true }
            } else {
                UpdateStep::Failed { why: UpdateFailure::DialogStuck { clean: true } }
            },
            UpdateStep::WaitPrompt { clean: true } => UpdateStep::TypeResume { clean: true },
            UpdateStep::TypeResume { clean: true } => UpdateStep::RecordResume,
            UpdateStep::RecordResume => UpdateStep::Complete { clean: true },
            _ => step,
        }),
{
    match step {
        UpdateStep::RunRelaunchCommand => UpdateStep::WaitBinary { clean: true },
        UpdateStep::WaitBinary { clean: true } => after_relaunch(step, ok, true),
        UpdateStep::SettleDialog { clean: true } => after_relaunch(step, ok, true),
        UpdateStep::WaitPrompt { clean: true } => after_relaunch(step, ok, true),
        UpdateStep::TypeResume { clean: true } => UpdateStep::RecordResume,
        UpdateStep::RecordResume => UpdateStep::Complete { clean: true },
        _ => step,
    }
}

/// The note of a completed update.
pub open spec fn complete_text(
    names: NamesConfig,
    old_version: Seq<char>,
    new_version: Seq<char>,
    clean: bool,
) -> Seq<char> {
    names.daemon@ + ": auto-update complete ("@ + old_version + " → "@ + new_version + (if clean {
        ", clean-relaunch)"@
    } else {
        ")"@
    })
}

/// Writes the note of a completed update.
pub fn update_complete_message(
    names: &NamesConfig,
    old_version: &str,
    new_version: &str,
    clean: bool,
) -> (r: String)
    ensures
        r@ == complete_text(*names, old_version@, new_version@, clean),
{
    let base = names.daemon.clone().concat(": auto-update complete (").concat(old_version).concat(
        " → ",
    ).concat(new_version);
    if clean {
        base.concat(", clean-relaunch)")
    } else {
        base.concat(")")
    }
}

/// The step that an update has come to after so many results.
pub open spec fn step_at(config: Config, results: Seq<bool>) -> UpdateStep
    decreases results.len(),
{
    if results.len() == 0 {
        UpdateStep::Interrupt
    } else {
        step_after(config, step_at(config, results.drop_last()), results.last())
    }
}

/// How many more steps an update may take.
pub open spec fn steps_left(step: UpdateStep) -> nat {
    match step {
        UpdateStep::Interrupt => 13,
        UpdateStep::TypeExit => 12,
        UpdateStep::ConfirmExit => 11,
        UpdateStep::WaitExit => 10,
        UpdateStep::WriteScript => 9,
        UpdateStep::TypeRelaunch => 8,
        UpdateStep::RunRelaunchCommand => 8,
        UpdateStep::WaitBinary { clean } => 7,
        UpdateStep::RunRestartCommand => 6,
        UpdateStep::WaitBinaryAgain => 5,
        UpdateStep::SettleDialog { clean } => 4,
        UpdateStep::WaitPrompt { clean } => 3,
        UpdateStep::TypeResume { clean } => 2,
        UpdateStep::RecordResume => 1,
        UpdateStep::Complete { clean } => 0,
        UpdateStep::Failed { why } => 0,
    }
}

/// Every step brings an update nearer to its end.
pub proof fn update_steps_run_out(config: Config, step: UpdateStep, ok: bool)
    requires
        !step.is_end(),
    ensures
        steps_left(step_after(config, step, ok)) < steps_left(step),
{
}

/// The resume prompt is never typed into a raw shell: before it, the session's process was
/// seen and the consent dialog was out of the way.
pub proof fn resume_typed_only_into_a_session(config: Config, results: Seq<bool>)
    requires
        step_at(config, results) is TypeResume,
    ensures
        results.len() >= 3,
        ({
            let before_prompt = results.drop_last().drop_last();
            let before_dialog = before_prompt.drop_last();
            &&& step_at(config, before_prompt) is SettleDialog
            &&& before_prompt.len() < results.len() && results[before_prompt.len() as int]
            &&& (step_at(config, before_dialog) is WaitBinary || step_at(
                config,
                before_dialog,
            ) is WaitBinaryAgain)
            &&& results[before_dialog.len() as int]
        }),
{
    let a = results.drop_last();
    assert(step_at(config, a) is WaitPrompt);
    assert(a.len() > 0);
    let b = a.drop_last();
    assert(step_at(config, b) is SettleDialog);
    assert(b.len() > 0);
    let c = b.drop_last();
    assert(step_at(config, b) == step_after(config, step_at(config, c), b.last()));
}

/// An update that is running is not started a second time, by the hourly look.
pub proof fn running_update_is_left_alone(
    config: Config,
    s: StateView,
    pane: Seq<char>,
    minute: u32,
    now: Moment,
    versions: VersionSights,
    hook_recent: bool,
    stamp: Seq<char>,
    since_reminder_ms: Option<i128>,
)
    requires
        update_running(s, now),
    ensures
        ({
            let outcome = auto_outcome(
                config,
                update_gate(config, s, pane, minute, now),
                versions,
                hook_recent,
            );
            outcome is Skipped && auto_applied(s, outcome, stamp, since_reminder_ms) == s
        }),
{
}

/// Matching versions never start an update, unless the trigger forces one.
pub proof fn matching_versions_start_nothing(
    config: Config,
    gate: UpdateGate,
    hook_recent: bool,
    content: Option<Seq<char>>,
    pane: Seq<char>,
    versions: VersionSights,
)
    requires
        versions_match(versions),
    ensures
        auto_outcome(config, gate, versions, hook_recent) != AutoUpdateOutcome::Started,
        trigger_outcome(content, pane, versions) is Started ==> forced(content->0),
{
}

/// An update fails only for the reason it names, and only where the step that the reason is
/// about did not succeed: the session did not leave, the script was not written, the process
/// did not come back or the restart command failed, or the consent dialog did not go away.
pub proof fn update_fails_for_its_reason(config: Config, step: UpdateStep, ok: bool)
    requires
        !step.is_end(),
    ensures
        ({
            let next = step_after(config, step, ok);
            &&& next == (UpdateStep::Failed { why: UpdateFailure::ExitTimeout }) <==> step
                == UpdateStep::WaitExit && !ok
            &&& next == (UpdateStep::Failed { why: UpdateFailure::ScriptUnwritten }) <==> step
                == UpdateStep::WriteScript && !ok
            &&& next == (UpdateStep::Failed { why: UpdateFailure::BinaryMissing { clean: true } })
                <==> step == (UpdateStep::WaitBinary { clean: true }) && !ok
            &&& next == (UpdateStep::Failed { why: UpdateFailure::BinaryMissing { clean: false } })
                <==> !ok && (step == UpdateStep::RunRestartCommand || step
                == UpdateStep::WaitBinaryAgain || (step == (UpdateStep::WaitBinary { clean: false })
                && config.auto_respawn_on_hang.respawn_command@.len() == 0))
            &&& next == (UpdateStep::Failed { why: UpdateFailure::DialogStuck { clean: true } })
                <==> step == (UpdateStep::SettleDialog { clean: true }) && !ok
            &&& next == (UpdateStep::Failed { why: UpdateFailure::DialogStuck { clean: false } })
                <==> step == (UpdateStep::SettleDialog { clean: false }) && !ok
            &&& ok ==> !(next is Failed)
        }),
{
}

/// An update goes on whether or not the interrupt was confirmed, the exit was typed or
/// confirmed, the relaunch was typed or run, or the prompt showed in time: the step after
/// these does not depend on how they went.
pub proof fn update_goes_on_regardless(config: Config, step: UpdateStep, one: bool, other: bool)
    requires
        step == UpdateStep::Interrupt || step == UpdateStep::RunRelaunchCommand || step
            == UpdateStep::TypeExit || step == UpdateStep::ConfirmExit || step
            == UpdateStep::TypeRelaunch || step is WaitPrompt || step is TypeResume || step
            == UpdateStep::RecordResume,
    ensures
        step_after(config, step, one) == step_after(config, step, other),
        !(step_after(config, step, one) is Failed),
        step is WaitPrompt ==> step_after(config, step, one) is TypeResume,
{
}

/// The steps of an update that leaves the session and starts it again, in order.
pub open spec fn plain_update() -> Seq<UpdateStep> {
    seq![
        UpdateStep::Interrupt,
        UpdateStep::TypeExit,
        UpdateStep::ConfirmExit,
        UpdateStep::WaitExit,
        UpdateStep::WriteScript,
        UpdateStep::TypeRelaunch,
        UpdateStep::WaitBinary { clean: false },
        UpdateStep::SettleDialog { clean: false },
        UpdateStep::WaitPrompt { clean: false },
        UpdateStep::TypeResume { clean: false },
        UpdateStep::Complete { clean: false },
    ]
}

/// The steps of an update by the command that relaunches the session in one go, in order.
pub open spec fn clean_update() -> Seq<UpdateStep> {
    seq![
        UpdateStep::Interrupt,
        UpdateStep::RunRelaunchCommand,
        UpdateStep::WaitBinary { clean: true },
        UpdateStep::SettleDialog { clean: true },
        UpdateStep::WaitPrompt { clean: true },
        UpdateStep::TypeResume { clean: true },
        UpdateStep::RecordResume,
        UpdateStep::Complete { clean: true },
    ]
}

/// An update whose waits and whose script succeed comes to its end: by leaving the session and
/// starting it again, or in one go where a command is configured for that. The resume prompt
/// of the latter is remembered before the update is complete.
pub proof fn successful_update_completes(config: Config, results: Seq<bool>)
    requires
        forall|i: int| 0 <= i < results.len() ==> #[trigger] results[i],
    ensures
        config.auto_update.relaunch_command@.len() == 0 && results.len() < plain_update().len()
            ==> step_at(config, results) == plain_update()[results.len() as int],
        config.auto_update.relaunch_command@.len() > 0 && results.len() < clean_update().len()
            ==> step_at(config, results) == clean_update()[results.len() as int],
    decreases results.len(),
{
    if results.len() > 0 {
        let before = results.drop_last();
        assert forall|i: int| 0 <= i < before.len() implies #[trigger] before[i] by {
            assert(results[i]);
        }
        successful_update_completes(config, before);
        assert(results[results.len() - 1]);
    }
}

/// A session that does not come back after a plain relaunch is restarted once by the command
/// for that, where there is one, and waited for again; after a relaunch in one go it is not.
pub proof fn lost_session_is_restarted_once(config: Config, ok: bool)
    ensures
        config.auto_respawn_on_hang.respawn_command@.len() > 0 ==> step_after(
            config,
            UpdateStep::WaitBinary { clean: false },
            false,
        ) == UpdateStep::RunRestartCommand,
        step_after(config, UpdateStep::RunRestartCommand, true) == UpdateStep::WaitBinaryAgain,
        step_after(config, UpdateStep::WaitBinaryAgain, true) == (UpdateStep::SettleDialog {
            clean: false,
        }),
        forall|step: UpdateStep| #[trigger]
            step_after(config, step, ok) == UpdateStep::RunRestartCommand ==> step == (
            UpdateStep::WaitBinary { clean: false }) && !ok,
        forall|step: UpdateStep| #[trigger]
            step_after(config, step, ok) == UpdateStep::WaitBinaryAgain ==> step
                == UpdateStep::RunRestartCommand && ok,
{
}

/// An update keeps to its way: with a command that relaunches in one go nothing is typed to
/// make the session leave, and no other restart is tried; without one, that command is never
/// run.
pub proof fn update_keeps_to_its_way(config: Config, results: Seq<bool>)
    ensures
        config.auto_update.relaunch_command@.len() > 0 ==> !(step_at(config, results) is TypeExit)
            && !(step_at(config, results) is ConfirmExit) && !(step_at(config, results) is WaitExit)
            && !(step_at(config, results) is WriteScript) && !(step_at(config, results)
            is TypeRelaunch) && !(step_at(config, results) is RunRestartCommand) && !(step_at(
            config,
            results,
        ) is WaitBinaryAgain) && (step_at(config, results) matches UpdateStep::Complete { clean }
            ==> clean) && (step_at(config, results) matches UpdateStep::WaitBinary { clean }
            ==> clean) && (step_at(config, results) matches UpdateStep::SettleDialog { clean }
            ==> clean) && (step_at(config, results) matches UpdateStep::WaitPrompt { clean }
            ==> clean) && (step_at(config, results) matches UpdateStep::TypeResume { clean }
            ==> clean),
        config.auto_update.relaunch_command@.len() == 0 ==> !(step_at(config, results)
            is RunRelaunchCommand) && !(step_at(config, results) is RecordResume) && (step_at(
            config,
            results,
        ) matches UpdateStep::Complete { clean } ==> !clean) && (step_at(config, results) matches
            UpdateStep::WaitBinary { clean } ==> !clean) && (step_at(config, results) matches
            UpdateStep::SettleDialog { clean } ==> !clean) && (step_at(config, results) matches
            UpdateStep::WaitPrompt { clean } ==> !clean) && (step_at(config, results) matches
            UpdateStep::TypeResume { clean } ==> !clean),
    decreases results.len(),
{
    if results.len() > 0 {
        update_keeps_to_its_way(config, results.drop_last());
    }
}

/// An end is an end: whatever is reported afterwards, the update stays as it ended.
pub proof fn ended_update_stays_ended(config: Config, step: UpdateStep, ok: bool)
    requires
        step is Complete || step is Failed,
    ensures
        step_after(config, step, ok) == step,
{
}

/// The versions are compared in the configured minute only, where updates are on and there is
/// a pane, where no update begun within the last hour still runs, and where the last attempt
/// is at least the configured hours old.
pub proof fn versions_are_compared_when_due(
    config: Config,
    s: StateView,
    pane: Seq<char>,
    minute: u32,
    now: Moment,
)
    ensures
        update_gate(config, s, pane, minute, now) == UpdateGate::Check <==> {
            &&& config.auto_update.enabled
            &&& pane.len() > 0
            &&& minute == config.auto_update.check_minute
            &&& s.update_in_progress ==> s.last_update_attempt is None || time::elapsed_over(
                s.last_update_attempt,
                now,
                3600,
            )
            &&& !time::elapsed_under(
                s.last_update_attempt,
                now,
                config.auto_update.cooldown_hours * 3600,
            )
        },
        config.auto_update.enabled && pane.len() > 0 && s.update_in_progress
            && s.last_update_attempt is Some && !time::elapsed_over(s.last_update_attempt, now, 3600)
            ==> update_gate(config, s, pane, minute, now) == UpdateGate::InProgress,
        !config.auto_update.enabled || pane.len() == 0 <==> update_gate(config, s, pane, minute, now)
            == UpdateGate::Off,
        update_gate(config, s, pane, minute, now) == UpdateGate::NotTime ==> minute
            != config.auto_update.check_minute,
        update_gate(config, s, pane, minute, now) == UpdateGate::CoolingDown ==> minute
            == config.auto_update.check_minute && time::elapsed_under(
            s.last_update_attempt,
            now,
            config.auto_update.cooldown_hours * 3600,
        ),
        update_gate(config, s, pane, minute, now) == UpdateGate::InProgress
            ==> s.update_in_progress,
{
}

/// An update starts by itself exactly where the versions are due to be compared, both are
/// known, they differ, and no hook reminded the session a moment ago.
pub proof fn different_versions_start_an_update(
    config: Config,
    gate: UpdateGate,
    versions: VersionSights,
    hook_recent: bool,
)
    ensures
        ({
            let outcome = auto_outcome(config, gate, versions, hook_recent);
            let differ = versions.running is Some && versions.installed is Some
                && versions.running->0@ != versions.installed->0@;
            let same = versions.running is Some && versions.installed is Some
                && versions.running->0@ == versions.installed->0@;
            &&& outcome == AutoUpdateOutcome::Started <==> gate == UpdateGate::Check && differ
                && !(config.hybrid.enabled && hook_recent)
            &&& outcome == AutoUpdateOutcome::LeftToHook <==> gate == UpdateGate::Check && differ
                && config.hybrid.enabled && hook_recent
            &&& outcome == AutoUpdateOutcome::UpToDate <==> gate == UpdateGate::Check && same
            &&& outcome == AutoUpdateOutcome::UnknownVersion <==> gate == UpdateGate::Check && (
            versions.running is None || versions.installed is None)
            &&& outcome is Skipped <==> gate != UpdateGate::Check
        }),
{
}

/// The manual trigger starts an update at any time: exactly where there is a pane, both
/// versions are known, and they differ or the trigger says `force`.
pub proof fn trigger_starts_an_update(
    content: Option<Seq<char>>,
    pane: Seq<char>,
    versions: VersionSights,
)
    ensures
        trigger_outcome(content, pane, versions) is Started <==> content is Some && pane.len() > 0
            && versions.running is Some && versions.installed is Some && (versions.running->0@
            != versions.installed->0@ || text::trimmed(content->0) == "force"@),
        trigger_outcome(content, pane, versions) matches TriggerOutcome::Started { force } ==> force
            == (text::trimmed(content->0) == "force"@),
        trigger_outcome(content, pane, versions) == TriggerOutcome::NoTrigger <==> content is None,
        trigger_outcome(content, pane, versions) == TriggerOutcome::NoPane <==> content is Some
            && pane.len() == 0,
        trigger_outcome(content, pane, versions) == TriggerOutcome::UnknownVersion <==> content
            is Some && pane.len() > 0 && (versions.running is None || versions.installed is None),
{
}

/// An update that has begun is on record with its stamp and is counted; nothing else of the
/// state changes.
pub proof fn begun_update_is_on_record(s: StateView, stamp: Seq<char>)
    requires
        s.auto_update_count < u64::MAX,
    ensures
        ({
            let n = update_begun(s, stamp);
            &&& n.update_in_progress
            &&& n.last_update_attempt == Some(stamp)
            &&& n.auto_update_count == s.auto_update_count + 1
            &&& s.auto_update_interrupts_total < u64::MAX ==> n.auto_update_interrupts_total
                == s.auto_update_interrupts_total + 1
            &&& n == (StateView {
                update_in_progress: n.update_in_progress,
                last_update_attempt: n.last_update_attempt,
                auto_update_count: n.auto_update_count,
                auto_update_interrupts_total: n.auto_update_interrupts_total,
                ..s
            })
        }),
{
}

/// A look at the versions begins an update only where its outcome says so, stamps itself where
/// both versions were known, and forgets an update that was lost; a look that was skipped
/// because updates are off or one is running leaves everything as it was.
pub proof fn look_at_versions_is_booked(
    s: StateView,
    outcome: AutoUpdateOutcome,
    stamp: Seq<char>,
    since_reminder_ms: Option<i128>,
)
    requires
        s.auto_update_count < u64::MAX,
    ensures
        ({
            let n = auto_applied(s, outcome, stamp, since_reminder_ms);
            &&& outcome == AutoUpdateOutcome::Started ==> n.update_in_progress
                && n.last_update_attempt == Some(stamp) && n.auto_update_count
                == s.auto_update_count + 1 && n.last_update_check == Some(stamp)
            &&& outcome == AutoUpdateOutcome::Started && s.fallback_update_count < u64::MAX
                ==> n.fallback_update_count == s.fallback_update_count + 1
            &&& outcome != AutoUpdateOutcome::Started ==> n.last_update_attempt
                == s.last_update_attempt && n.auto_update_count == s.auto_update_count
                && n.fallback_update_count == s.fallback_update_count
            &&& outcome == AutoUpdateOutcome::UpToDate || outcome == AutoUpdateOutcome::LeftToHook
                ==> n.last_update_check == Some(stamp) && !n.update_in_progress
            &&& outcome == AutoUpdateOutcome::UnknownVersion || outcome == (
            AutoUpdateOutcome::Skipped { gate: UpdateGate::NotTime }) || outcome == (
            AutoUpdateOutcome::Skipped { gate: UpdateGate::CoolingDown }) ==> n == (StateView {
                update_in_progress: false,
                ..s
            })
            &&& outcome == (AutoUpdateOutcome::Skipped { gate: UpdateGate::Off }) || outcome == (
            AutoUpdateOutcome::Skipped { gate: UpdateGate::InProgress }) ==> n == s
        }),
{
}

/// Two updates lie at least the configured hours apart, by the hourly look: within them after
/// one has begun, none begins.
pub proof fn updates_keep_their_distance(
    config: Config,
    s: StateView,
    stamp: Seq<char>,
    pane: Seq<char>,
    minute: u32,
    later: Moment,
    versions: VersionSights,
    hook_recent: bool,
)
    requires
        time::elapsed_under(Some(stamp), later, config.auto_update.cooldown_hours * 3600),
    ensures
        auto_outcome(
            config,
            update_gate(config, update_begun(s, stamp), pane, minute, later),
            versions,
            hook_recent,
        ) is Skipped,
{
}

/// Every step that waits for something has a bound on how long, and no other has; the two waits
/// for the process are the longest, and asking the session to exit is given less time than its
/// exit.
pub proof fn waits_are_bounded(
    step: UpdateStep,
    budget: Option<u64>,
    pause: u64,
    poll: Option<u64>,
)
    requires
        call_ensures(UpdateStep::budget_secs, (step,), budget),
        call_ensures(UpdateStep::pause_secs, (step,), pause),
        call_ensures(UpdateStep::poll_millis, (step,), poll),
    ensures
        budget is Some <==> step is Interrupt || step is ConfirmExit || step is WaitExit || step
            is WaitBinary || step is WaitBinaryAgain || step is WaitPrompt || step
            is RunRelaunchCommand || step is RunRestartCommand,
        budget == Some(120u64) <==> step is WaitBinary || step is WaitBinaryAgain,
        budget == Some(90u64) <==> step is WaitPrompt,
        budget == Some(60u64) <==> step is RunRelaunchCommand || step is RunRestartCommand,
        budget == Some(45u64) <==> step is WaitExit,
        budget == Some(10u64) <==> step is Interrupt,
        budget == Some(5u64) <==> step is ConfirmExit,
        poll is Some <==> step is ConfirmExit,
        poll matches Some(ms) ==> ms == 500,
        pause == 3 <==> step is Interrupt || step is WaitPrompt,
        pause == 2 <==> step is WaitExit,
        pause == 0 || pause == 2 || pause == 3,
{
}

/// From a relaunch command on, an update takes the steps of every update that was relaunched by
/// one.
pub proof fn relaunch_command_takes_the_common_steps(
    config: Config,
    step: UpdateStep,
    ok: bool,
    next: UpdateStep,
)
    requires
        call_ensures(run_auto_update_clean_relaunch, (step, ok), next),
        step is RunRelaunchCommand || step == (UpdateStep::SettleDialog { clean: true }) || step
            == (UpdateStep::WaitPrompt { clean: true }) || step == (UpdateStep::TypeResume {
            clean: true,
        }),
    ensures
        next == step_after(config, step, ok),
{
}

} // verus!
