//! One cycle of the watchdog: the order of its steps, and what ends it early.
use crate::config::Config;
use crate::context_monitor;
use crate::context_monitor::{ContextObs, ContextOutcome};
use crate::foreground;
use crate::foreground::ForegroundObs;
use crate::fresh_clear;
use crate::fresh_clear::{ClearedObs, FreshClearOutcome, PostClearOutcome};
use crate::malformed;
use crate::malformed::MalformedObs;
use crate::session;
use crate::session::{DeadOutcome, RestartedObs, RestartedOutcome, RetryStatus};
use crate::state::{State, StateView, StatusSnapshot};
use crate::stuck;
use crate::stuck::StuckOutcome;
use crate::time::Moment;
use crate::watcher_inject;
use crate::watcher_inject::InjectObs;
use crate::wedged;
use crate::wedged::WedgeDecision;
use vstd::prelude::*;

verus! {

/// A step of the cycle.
#[derive(Debug, Clone, Copy, PartialEq, Eq, Structural)]
pub enum CyclePhase {
    /// Read the session's status.
    Status,
    /// There is no status: look for a wedged pane, with [`crate::wedged::handle_wedged_pane`].
    WedgeWithoutStatus,
    /// There is no session: [`crate::session::note_session_absent`].
    Absent,
    /// Resume a session that was restarted: [`crate::session::post_restart_step`].
    PostRestart,
    /// Take note of the status: [`crate::session::note_status`].
    Reading,
    /// Look for a request that is retried:
    /// [`crate::api_retry::update_api_retry_state`].
    ApiPoll,
    /// The session looks dead: count it, and take a second look, with
    /// [`crate::session::note_dead_check`] and [`crate::session::self_heal_step`].
    SecondLook,
    /// Deal with a session that looks dead: [`crate::session::dead_session_step`].
    DeadSession,
    /// Look for the manual update trigger: [`crate::update::check_update_trigger`].
    UpdateTrigger,
    /// Compare the versions: [`crate::update::check_auto_update_at`].
    AutoUpdate,
    /// Look for a session that is logged out: [`crate::login::check_reauth`].
    Reauth,
    /// Look for a login that expires: [`crate::login::check_login_expiry`].
    LoginExpiry,
    /// Resume a session whose context was cleared: [`crate::fresh_clear::post_clear_step`].
    PostClear,
    /// Resume a session that was cleared a moment ago:
    /// [`crate::fresh_clear::fresh_clear_step`].
    FreshClear,
    /// Check the acknowledgements: [`crate::stuck::check_ack_stale`].
    AckStale,
    /// Look for a question that awaits an answer:
    /// [`crate::ask_question::check_ask_question_stale`].
    AskQuestion,
    /// Check the foreground: [`crate::foreground::check_foreground_inner`].
    Foreground,
    /// Check the context: [`crate::context_monitor::note_context_tokens`] and
    /// [`crate::context_monitor::context_monitor_step`].
    Context,
    /// Look for a wedged pane: [`crate::wedged::handle_wedged_pane`].
    Wedged,
    /// Look for malformed calls: [`crate::malformed::malformed_step`].
    Malformed,
    /// Look at the watchers: [`crate::watcher_round::observe_watchers`] and
    /// [`crate::watcher_inject::watcher_inject_step`].
    Watchers,
    /// Look for a hang: [`crate::respawn::check_auto_respawn`].
    AutoRespawn,
    /// Act on the verdict, with [`crate::stuck::finish_check`].
    Verdict,
    /// The cycle is over.
    Over,
}

/// What a step came to, as far as the order of the steps depends on it.
#[derive(Debug, Clone, Copy, PartialEq, Eq, Structural)]
pub enum PhaseResult {
    /// The status was looked for.
    Status {
        /// There is one.
        present: bool,
        /// Where there is none, there is a pane.
        fallback_pane: bool,
    },
    /// A wedged pane was looked for.
    Wedge {
        /// What came of that.
        decision: WedgeDecision,
    },
    /// A restarted session was looked at.
    Restarted {
        /// What came of that.
        outcome: RestartedOutcome,
    },
    /// A retried request was looked for.
    Polled {
        /// The session looks dead.
        looks_dead: bool,
    },
    /// A second look was taken.
    SecondLook {
        /// It found the session alive.
        healed: bool,
    },
    /// A cleared session was looked at.
    PostClear {
        /// What came of that.
        outcome: PostClearOutcome,
    },
    /// A freshly cleared session was looked at.
    FreshClear {
        /// What came of that.
        outcome: FreshClearOutcome,
    },
    /// The step is done, and nothing depends on what came of it.
    Done,
}

/// The step that follows. A result that does not belong to the step ends the cycle.
pub open spec fn phase_after(phase: CyclePhase, result: PhaseResult) -> CyclePhase {
    match (phase, result) {
        (CyclePhase::Status, PhaseResult::Status { present, fallback_pane }) => if present {
            CyclePhase::PostRestart
        } else if fallback_pane {
            CyclePhase::WedgeWithoutStatus
        } else {
            CyclePhase::Absent
        },
        (CyclePhase::WedgeWithoutStatus, PhaseResult::Wedge { decision }) => if decision.wedged() {
            CyclePhase::Over
        } else {
            CyclePhase::Absent
        },
        (CyclePhase::PostRestart, PhaseResult::Restarted { outcome }) => if outcome
            == RestartedOutcome::NotApplicable {
            CyclePhase::Reading
        } else {
            CyclePhase::Over
        },
        (CyclePhase::Reading, PhaseResult::Done) => CyclePhase::ApiPoll,
        (CyclePhase::ApiPoll, PhaseResult::Polled { looks_dead }) => if looks_dead {
            CyclePhase::SecondLook
        } else {
            CyclePhase::UpdateTrigger
        },
        (CyclePhase::SecondLook, PhaseResult::SecondLook { healed }) => if healed {
            CyclePhase::Over
        } else {
            CyclePhase::DeadSession
        },
        (CyclePhase::UpdateTrigger, PhaseResult::Done) => CyclePhase::AutoUpdate,
        (CyclePhase::AutoUpdate, PhaseResult::Done) => CyclePhase::Reauth,
        (CyclePhase::Reauth, PhaseResult::Done) => CyclePhase::LoginExpiry,
        (CyclePhase::LoginExpiry, PhaseResult::Done) => CyclePhase::PostClear,
        (CyclePhase::PostClear, PhaseResult::PostClear { outcome }) => if outcome.ends_cycle() {
            CyclePhase::Over
        } else {
            CyclePhase::FreshClear
        },
        (CyclePhase::FreshClear, PhaseResult::FreshClear { outcome }) => if outcome.ends_cycle() {
            CyclePhase::Over
        } else {
            CyclePhase::AckStale
        },
        (CyclePhase::AckStale, PhaseResult::Done) => CyclePhase::AskQuestion,
        (CyclePhase::AskQuestion, PhaseResult::Done) => CyclePhase::Foreground,
        (CyclePhase::Foreground, PhaseResult::Done) => CyclePhase::Context,
        (CyclePhase::Context, PhaseResult::Done) => CyclePhase::Wedged,
        (CyclePhase::Wedged, PhaseResult::Done) => CyclePhase::Malformed,
        (CyclePhase::Malformed, PhaseResult::Done) => CyclePhase::Watchers,
        (CyclePhase::Watchers, PhaseResult::Done) => CyclePhase::AutoRespawn,
        (CyclePhase::AutoRespawn, PhaseResult::Done) => CyclePhase::Verdict,
        _ => CyclePhase::Over,
    }
}

/// Decides which step follows.
pub fn check_cycle(phase: CyclePhase, result: PhaseResult) -> (r: CyclePhase)
    ensures
        r == phase_after(phase, result),
{
    match (phase, result) {
        (CyclePhase::Status, PhaseResult::Status { present, fallback_pane }) => {
            if present {
                CyclePhase::PostRestart
            } else if fallback_pane {
                CyclePhase::WedgeWithoutStatus
            } else {
                CyclePhase::Absent
            }
        },
        (CyclePhase::WedgeWithoutStatus, PhaseResult::Wedge { decision }) => {
            if decision.is_wedged() {
                CyclePhase::Over
            } else {
                CyclePhase::Absent
            }
        },
        (CyclePhase::PostRestart, PhaseResult::Restarted { outcome }) => match outcome {
            RestartedOutcome::NotApplicable => CyclePhase::Reading,
            _ => CyclePhase::Over,
        },
        (CyclePhase::Reading, PhaseResult::Done) => CyclePhase::ApiPoll,
        (CyclePhase::ApiPoll, PhaseResult::Polled { looks_dead }) => {
            if looks_dead {
                CyclePhase::SecondLook
            } else {
                CyclePhase::UpdateTrigger
            }
        },
        (CyclePhase::SecondLook, PhaseResult::SecondLook { healed }) => {
            if healed {
                CyclePhase::Over
            } else {
                CyclePhase::DeadSession
            }
        },
        (CyclePhase::UpdateTrigger, PhaseResult::Done) => CyclePhase::AutoUpdate,
        (CyclePhase::AutoUpdate, PhaseResult::Done) => CyclePhase::Reauth,
        (CyclePhase::Reauth, PhaseResult::Done) => CyclePhase::LoginExpiry,
        (CyclePhase::LoginExpiry, PhaseResult::Done) => CyclePhase::PostClear,
        (CyclePhase::PostClear, PhaseResult::PostClear { outcome }) => {
            if outcome.is_final() {
                CyclePhase::Over
            } else {
                CyclePhase::FreshClear
            }
        },
        (CyclePhase::FreshClear, PhaseResult::FreshClear { outcome }) => {
            if outcome.is_final() {
                CyclePhase::Over
            } else {
                CyclePhase::AckStale
            }
        },
        (CyclePhase::AckStale, PhaseResult::Done) => CyclePhase::AskQuestion,
        (CyclePhase::AskQuestion, PhaseResult::Done) => CyclePhase::Foreground,
        (CyclePhase::Foreground, PhaseResult::Done) => CyclePhase::Context,
        (CyclePhase::Context, PhaseResult::Done) => CyclePhase::Wedged,
        (CyclePhase::Wedged, PhaseResult::Done) => CyclePhase::Malformed,
        (CyclePhase::Malformed, PhaseResult::Done) => CyclePhase::Watchers,
        (CyclePhase::Watchers, PhaseResult::Done) => CyclePhase::AutoRespawn,
        (CyclePhase::AutoRespawn, PhaseResult::Done) => CyclePhase::Verdict,
        _ => CyclePhase::Over,
    }
}

/// The step is taken at all: the looks at logins need their monitor and a pane, the look at
/// the watchers its monitor.
pub open spec fn phase_applies(config: Config, phase: CyclePhase, pane: Seq<char>) -> bool {
    match phase {
        CyclePhase::Reauth => config.reauth.enabled && pane.len() > 0,
        CyclePhase::LoginExpiry => config.reauth.enabled && config.reauth.expiry_watch_enabled
            && pane.len() > 0,
        CyclePhase::Watchers => config.watcher_monitor.enabled,
        _ => true,
    }
}

/// Whether the step is taken at all. One that is not counts as done.
pub fn phase_due(config: &Config, phase: CyclePhase, pane: &str) -> (r: bool)
    ensures
        r == phase_applies(*config, phase, pane@),
{
    match phase {
        CyclePhase::Reauth => config.reauth.enabled && !pane.is_empty(),
        CyclePhase::LoginExpiry => config.reauth.enabled && config.reauth.expiry_watch_enabled
            && !pane.is_empty(),
        CyclePhase::Watchers => config.watcher_monitor.enabled,
        _ => true,
    }
}

/// What was read of the session in this cycle.
#[derive(Debug, Clone)]
pub struct Readings {
    /// The pane that the status names.
    pub status_pane: String,
    /// The count of tokens as the status shows it.
    pub raw_tokens: u64,
    /// The shells that the session runs.
    pub bashes: u64,
    /// The pane that stands in where there is no status.
    pub fallback_pane: String,
    /// The pane to go by, once the status was taken note of.
    pub pane: String,
    /// The count of tokens with misreadings bridged.
    pub tokens: u64,
    /// The size of the context, by the session's own records where they have it.
    pub context_tokens: u64,
}

/// What a step goes by: empty or zero where it goes by nothing of the kind.
#[derive(Debug, Clone, Copy)]
pub struct StepInputs<'a> {
    /// The pane it looks at.
    pub pane: &'a str,
    /// The count of tokens it judges by.
    pub tokens: u64,
    /// The sample of the context that it compares with the one before.
    pub sample: u64,
    /// The shells it takes for activity.
    pub bashes: u64,
}

/// The pane that a step looks at: without a status the one that stands in, before the status
/// was taken note of the one it names, and from then on the one to go by.
pub open spec fn step_pane(phase: CyclePhase, readings: Readings) -> Seq<char> {
    match phase {
        CyclePhase::Status => ""@,
        CyclePhase::WedgeWithoutStatus => readings.fallback_pane@,
        CyclePhase::Absent => ""@,
        CyclePhase::PostRestart => readings.status_pane@,
        CyclePhase::Reading => readings.status_pane@,
        CyclePhase::Over => ""@,
        _ => readings.pane@,
    }
}

/// The count of tokens that a step judges by. A restarted session is taken at its word; what
/// tells a live session from a dead or cleared one goes by the bridged count; the note on a
/// wedged pane names the size of the context.
pub open spec fn step_tokens(phase: CyclePhase, readings: Readings) -> u64 {
    match phase {
        CyclePhase::PostRestart => readings.raw_tokens,
        CyclePhase::Reading => readings.raw_tokens,
        CyclePhase::ApiPoll => readings.tokens,
        CyclePhase::PostClear => readings.tokens,
        CyclePhase::FreshClear => readings.tokens,
        CyclePhase::Foreground => readings.tokens,
        CyclePhase::Context => readings.tokens,
        CyclePhase::Wedged => readings.context_tokens,
        CyclePhase::Malformed => readings.tokens,
        CyclePhase::Verdict => readings.tokens,
        _ => 0,
    }
}

/// The sample of the context that a step compares with the one before: a reset shows in the
/// session's own records.
pub open spec fn step_sample(phase: CyclePhase, readings: Readings) -> u64 {
    if phase == CyclePhase::Context {
        readings.context_tokens
    } else {
        0
    }
}

/// The shells that a step takes for activity.
pub open spec fn step_bashes(phase: CyclePhase, readings: Readings) -> u64 {
    match phase {
        CyclePhase::Reading => readings.bashes,
        CyclePhase::ApiPoll => readings.bashes,
        CyclePhase::DeadSession => readings.bashes,
        CyclePhase::FreshClear => readings.bashes,
        CyclePhase::AckStale => readings.bashes,
        CyclePhase::Watchers => readings.bashes,
        CyclePhase::Verdict => readings.bashes,
        _ => 0,
    }
}

/// Picks out of the readings what a step goes by.
pub fn step_inputs<'a>(phase: CyclePhase, readings: &'a Readings) -> (r: StepInputs<'a>)
    ensures
        r.pane@ == step_pane(phase, *readings),
        r.tokens == step_tokens(phase, *readings),
        r.sample == step_sample(phase, *readings),
        r.bashes == step_bashes(phase, *readings),
{
    let pane: &'a str = match phase {
        CyclePhase::Status => "",
        CyclePhase::WedgeWithoutStatus => readings.fallback_pane.as_str(),
        CyclePhase::Absent => "",
        CyclePhase::PostRestart => readings.status_pane.as_str(),
        CyclePhase::Reading => readings.status_pane.as_str(),
        CyclePhase::Over => "",
        _ => readings.pane.as_str(),
    };
    let tokens: u64 = match phase {
        CyclePhase::PostRestart => readings.raw_tokens,
        CyclePhase::Reading => readings.raw_tokens,
        CyclePhase::ApiPoll => readings.tokens,
        CyclePhase::PostClear => readings.tokens,
        CyclePhase::FreshClear => readings.tokens,
        CyclePhase::Foreground => readings.tokens,
        CyclePhase::Context => readings.tokens,
        CyclePhase::Wedged => readings.context_tokens,
        CyclePhase::Malformed => readings.tokens,
        CyclePhase::Verdict => readings.tokens,
        _ => 0,
    };
    let sample: u64 = match phase {
        CyclePhase::Context => readings.context_tokens,
        _ => 0,
    };
    let bashes: u64 = match phase {
        CyclePhase::Reading => readings.bashes,
        CyclePhase::ApiPoll => readings.bashes,
        CyclePhase::DeadSession => readings.bashes,
        CyclePhase::FreshClear => readings.bashes,
        CyclePhase::AckStale => readings.bashes,
        CyclePhase::Watchers => readings.bashes,
        CyclePhase::Verdict => readings.bashes,
        _ => 0,
    };
    StepInputs { pane, tokens, sample, bashes }
}

/// The counters of the state leave room for one more cycle.
pub open spec fn counters_have_room(s: StateView) -> bool {
    &&& s.restart_count < u64::MAX
    &&& s.wedged_consecutive < u32::MAX
    &&& s.wedged_clear_count < u64::MAX
    &&& s.consecutive_dead_checks < u32::MAX
    &&& s.consecutive_fast_detections < u32::MAX
    &&& s.consecutive_failures < u32::MAX
    &&& s.alert_count < u32::MAX
    &&& s.heartbeat_stale_count < u64::MAX
    &&& s.malformed_tool_call_consecutive < u32::MAX
    &&& s.watcher_inject_count < u64::MAX
    &&& s.thinking_interrupt_count < u32::MAX
    &&& s.auto_update_count < u64::MAX
}

/// Whether the counters of the state leave room for one more cycle.
pub fn state_has_room(state: &State) -> (r: bool)
    ensures
        r == counters_have_room(state@),
{
    proof {
        reveal(crate::state::state_view);
    }
    state.restart_count < u64::MAX && state.wedged_consecutive < u32::MAX
        && state.wedged_clear_count < u64::MAX && state.consecutive_dead_checks < u32::MAX
        && state.consecutive_fast_detections < u32::MAX && state.consecutive_failures < u32::MAX
        && state.alert_count < u32::MAX && state.heartbeat_stale_count < u64::MAX
        && state.malformed_tool_call_consecutive < u32::MAX && state.watcher_inject_count
        < u64::MAX && state.thinking_interrupt_count < u32::MAX && state.auto_update_count
        < u64::MAX
}

/// The configured spans fit their units.
pub open spec fn spans_fit(config: Config) -> bool {
    &&& fresh_clear::ack_stale_secs(config) <= u64::MAX
    &&& config.auto_update.cooldown_hours * 3600 <= u64::MAX
}

/// Whether the configured spans fit their units.
pub fn config_spans_fit(config: &Config) -> (r: bool)
    ensures
        r == spans_fit(*config),
{
    config.ack.stale_minutes <= 0xffff_ffff_ffff_ffff / 60 && config.auto_update.cooldown_hours
        <= 0xffff_ffff_ffff_ffff / 3600
}

/// How many steps may still follow.
pub open spec fn phases_left(phase: CyclePhase) -> nat {
    match phase {
        CyclePhase::Status => 21,
        CyclePhase::WedgeWithoutStatus => 20,
        CyclePhase::Absent => 1,
        CyclePhase::PostRestart => 20,
        CyclePhase::Reading => 19,
        CyclePhase::ApiPoll => 18,
        CyclePhase::SecondLook => 17,
        CyclePhase::DeadSession => 1,
        CyclePhase::UpdateTrigger => 16,
        CyclePhase::AutoUpdate => 15,
        CyclePhase::Reauth => 14,
        CyclePhase::LoginExpiry => 13,
        CyclePhase::PostClear => 12,
        CyclePhase::FreshClear => 11,
        CyclePhase::AckStale => 10,
        CyclePhase::AskQuestion => 9,
        CyclePhase::Foreground => 8,
        CyclePhase::Context => 7,
        CyclePhase::Wedged => 6,
        CyclePhase::Malformed => 5,
        CyclePhase::Watchers => 4,
        CyclePhase::AutoRespawn => 3,
        CyclePhase::Verdict => 2,
        CyclePhase::Over => 0,
    }
}

/// Every cycle comes to its end.
pub proof fn cycles_end(phase: CyclePhase, result: PhaseResult)
    requires
        phase != CyclePhase::Over,
    ensures
        phases_left(phase_after(phase, result)) < phases_left(phase),
{
}

/// A session that looks dead is dealt with or found alive, and no further step is taken: it
/// is neither told about its context or its watchers nor judged stuck in the same cycle.
pub proof fn dead_session_ends_the_cycle(result: PhaseResult, healed: bool)
    ensures
        phase_after(CyclePhase::DeadSession, result) == CyclePhase::Over,
        phase_after(CyclePhase::SecondLook, PhaseResult::SecondLook { healed })
            == CyclePhase::DeadSession || phase_after(
            CyclePhase::SecondLook,
            PhaseResult::SecondLook { healed },
        ) == CyclePhase::Over,
{
}

/// The verdict is acted on last, once the acknowledgements were checked and every monitor had
/// its turn: each of these steps follows only the one before it.
pub proof fn verdict_comes_last(phase: CyclePhase, result: PhaseResult)
    ensures
        phase_after(CyclePhase::Verdict, result) == CyclePhase::Over,
        phase_after(phase, result) == CyclePhase::Verdict ==> phase == CyclePhase::AutoRespawn,
        phase_after(phase, result) == CyclePhase::AutoRespawn ==> phase == CyclePhase::Watchers,
        phase_after(phase, result) == CyclePhase::Watchers ==> phase == CyclePhase::Malformed,
        phase_after(phase, result) == CyclePhase::Malformed ==> phase == CyclePhase::Wedged,
        phase_after(phase, result) == CyclePhase::Wedged ==> phase == CyclePhase::Context,
        phase_after(phase, result) == CyclePhase::Context ==> phase == CyclePhase::Foreground,
        phase_after(phase, result) == CyclePhase::Foreground ==> phase == CyclePhase::AskQuestion,
        phase_after(phase, result) == CyclePhase::AskQuestion ==> phase == CyclePhase::AckStale,
        phase_after(phase, result) == CyclePhase::AckStale ==> phase == CyclePhase::FreshClear,
{
}

/// Every step that ends a cycle before the verdict leaves the cycle's stamp.
pub proof fn early_ends_are_stamped(
    config: Config,
    s: StateView,
    restarted: RestartedOutcome,
    retry: RetryStatus,
    dead: DeadOutcome,
    post_clear: PostClearOutcome,
    fresh: FreshClearOutcome,
    obs: ClearedObs,
    stamp: Seq<char>,
    now: Moment,
)
    ensures
        session::absent_next(s, stamp, now).last_check == Some(stamp),
        restarted != RestartedOutcome::NotApplicable ==> session::restarted_applied(
            s,
            restarted,
            stamp,
        ).last_check == Some(stamp),
        session::healed(s, retry, stamp).last_check == Some(stamp),
        session::dead_applied(config, s, dead, stamp, now).last_check == Some(stamp),
        post_clear.ends_cycle() ==> fresh_clear::post_clear_applied(
            s,
            post_clear,
            obs,
            stamp,
        ).last_check == Some(stamp),
        fresh.ends_cycle() ==> fresh_clear::fresh_clear_applied(s, fresh, stamp).last_check == Some(
            stamp,
        ),
{
}

/// The verdict leaves the cycle's stamp too, unless it ends in an alert's cooldown, which
/// leaves that of the cycle before.
pub proof fn verdict_is_stamped(
    s: StateView,
    outcome: StuckOutcome,
    reason: Seq<char>,
    status: StatusSnapshot,
    stamp: Seq<char>,
)
    ensures
        stuck::stuck_next(s, outcome, reason, status, stamp).last_check == (if outcome
            == StuckOutcome::AlertCooldown {
            s.last_check
        } else {
            Some(stamp)
        }),
{
}

/// While a request is retried nothing interrupts the session: the foreground is not judged,
/// the context is not cleared, a wedged pane is not recovered, a malformed call is not
/// corrected and missing watchers are not brought up.
pub proof fn retry_holds_every_interrupt_back(
    config: Config,
    s: StateView,
    pane: Seq<char>,
    tokens: u64,
    foreground_obs: ForegroundObs,
    context_obs: ContextObs,
    banner: bool,
    malformed_obs: MalformedObs,
    missing: Seq<String>,
    consumer: Seq<char>,
    inject_obs: InjectObs,
    stamp: Seq<char>,
    now: Moment,
)
    requires
        context_obs.api_retrying,
        malformed_obs.api_retrying,
        inject_obs.api_retrying,
    ensures
        !(foreground::foreground_report(
            config,
            s,
            pane,
            tokens,
            true,
            foreground_obs,
            stamp,
            now,
        ) is Checked),
        context_monitor::context_outcome(config, s, context_obs, stamp, now)
            != ContextOutcome::Fired,
        !(wedged::wedge_decision(config.context_monitor, s, pane, banner, true, now) is Recover),
        !(malformed::malformed_outcome(config, s, pane, malformed_obs, now) is Told),
        !(watcher_inject::inject_outcome(config, s, pane, missing, consumer, inject_obs, now)
            is Fired),
{
}

/// A restarted session that waits for its prompt ends the cycle: no monitor runs in a cycle in
/// which the resume prompt was typed, or in which a shutdown, the consent dialog, a menu or a
/// busy pane held it back. Where no session waits, the cycle goes on.
pub proof fn restarted_session_ends_the_cycle(
    config: Config,
    s: StateView,
    pane: Seq<char>,
    tokens: u64,
    obs: RestartedObs,
    outcome: RestartedOutcome,
)
    ensures
        outcome == RestartedOutcome::NotApplicable ==> phase_after(
            CyclePhase::PostRestart,
            PhaseResult::Restarted { outcome },
        ) == CyclePhase::Reading,
        outcome != RestartedOutcome::NotApplicable ==> phase_after(
            CyclePhase::PostRestart,
            PhaseResult::Restarted { outcome },
        ) == CyclePhase::Over,
        s.pending_resume_inject && pane.len() > 0 && tokens > 0 <==> phase_after(
            CyclePhase::PostRestart,
            PhaseResult::Restarted {
                outcome: session::restarted_outcome(config, s, pane, tokens, obs),
            },
        ) == CyclePhase::Over,
{
}

/// A cycle without a status looks for a wedged pane where there is a pane at all. A pane that
/// shows a wedge banner ends the cycle; otherwise the session is absent, and that ends it.
pub proof fn absent_session_ends_the_cycle(
    present: bool,
    fallback_pane: bool,
    confirmed: bool,
    retry: bool,
    result: PhaseResult,
)
    ensures
        ({
            let first = phase_after(
                CyclePhase::Status,
                PhaseResult::Status { present, fallback_pane },
            );
            &&& present <==> first == CyclePhase::PostRestart
            &&& !present && fallback_pane <==> first == CyclePhase::WedgeWithoutStatus
            &&& !present && !fallback_pane <==> first == CyclePhase::Absent
        }),
        forall|decision: WedgeDecision|
            (decision == WedgeDecision::Off || decision == (WedgeDecision::Clear { confirmed }))
                ==> #[trigger] phase_after(
                CyclePhase::WedgeWithoutStatus,
                PhaseResult::Wedge { decision },
            ) == CyclePhase::Absent,
        forall|decision: WedgeDecision|
            (decision == WedgeDecision::Counting || decision == WedgeDecision::ApiRetry || decision
                == WedgeDecision::CoolingDown || decision == (WedgeDecision::Recover { retry }))
                ==> #[trigger] phase_after(
                CyclePhase::WedgeWithoutStatus,
                PhaseResult::Wedge { decision },
            ) == CyclePhase::Over,
        phase_after(CyclePhase::Absent, result) == CyclePhase::Over,
{
}

/// A session that looks dead gets its second look, and one that does not goes on to the
/// monitors. The second look either finds it alive, and the cycle is over, or it is dealt
/// with; nothing else leads there.
pub proof fn second_look_decides(
    looks_dead: bool,
    healed: bool,
    phase: CyclePhase,
    result: PhaseResult,
)
    ensures
        looks_dead <==> phase_after(CyclePhase::ApiPoll, PhaseResult::Polled { looks_dead })
            == CyclePhase::SecondLook,
        !looks_dead <==> phase_after(CyclePhase::ApiPoll, PhaseResult::Polled { looks_dead })
            == CyclePhase::UpdateTrigger,
        healed <==> phase_after(CyclePhase::SecondLook, PhaseResult::SecondLook { healed })
            == CyclePhase::Over,
        !healed <==> phase_after(CyclePhase::SecondLook, PhaseResult::SecondLook { healed })
            == CyclePhase::DeadSession,
        phase_after(phase, result) == CyclePhase::SecondLook ==> phase == CyclePhase::ApiPoll
            && result == (PhaseResult::Polled { looks_dead: true }),
        phase_after(phase, result) == CyclePhase::DeadSession ==> phase == CyclePhase::SecondLook
            && result == (PhaseResult::SecondLook { healed: false }),
{
}

/// A cleared session that was prompted, or that was seen to need no prompt, ends the cycle; so
/// does one that was cleared a moment ago, whatever is done about it, unless the reading is not
/// that of a fresh clear or the pane is busy.
pub proof fn cleared_session_ends_the_cycle(
    post_clear: PostClearOutcome,
    fresh: FreshClearOutcome,
)
    ensures
        phase_after(CyclePhase::PostClear, PhaseResult::PostClear { outcome: post_clear }) == (
        match post_clear {
            PostClearOutcome::Inject => CyclePhase::Over,
            PostClearOutcome::HeldByAck => CyclePhase::Over,
            PostClearOutcome::NotDue => CyclePhase::FreshClear,
            PostClearOutcome::NotApplicable => CyclePhase::FreshClear,
        }),
        phase_after(CyclePhase::FreshClear, PhaseResult::FreshClear { outcome: fresh }) == (
        match fresh {
            FreshClearOutcome::NotApplicable => CyclePhase::AckStale,
            FreshClearOutcome::Busy => CyclePhase::AckStale,
            FreshClearOutcome::Teardown => CyclePhase::Over,
            FreshClearOutcome::Interactive => CyclePhase::Over,
            FreshClearOutcome::Counting => CyclePhase::Over,
            FreshClearOutcome::CoolingDown => CyclePhase::Over,
            FreshClearOutcome::HeldByAck => CyclePhase::Over,
            FreshClearOutcome::HeldByActivity => CyclePhase::Over,
            FreshClearOutcome::Inject { .. } => CyclePhase::Over,
        }),
{
}

/// The step that a cycle has come to after so many results.
pub open spec fn phase_at(results: Seq<PhaseResult>) -> CyclePhase
    decreases results.len(),
{
    if results.len() == 0 {
        CyclePhase::Status
    } else {
        phase_after(phase_at(results.drop_last()), results.last())
    }
}

/// The steps of a cycle over a session that runs and that nothing settles early, in order.
pub open spec fn full_cycle() -> Seq<CyclePhase> {
    seq![
        CyclePhase::Status,
        CyclePhase::PostRestart,
        CyclePhase::Reading,
        CyclePhase::ApiPoll,
        CyclePhase::UpdateTrigger,
        CyclePhase::AutoUpdate,
        CyclePhase::Reauth,
        CyclePhase::LoginExpiry,
        CyclePhase::PostClear,
        CyclePhase::FreshClear,
        CyclePhase::AckStale,
        CyclePhase::AskQuestion,
        CyclePhase::Foreground,
        CyclePhase::Context,
        CyclePhase::Wedged,
        CyclePhase::Malformed,
        CyclePhase::Watchers,
        CyclePhase::AutoRespawn,
        CyclePhase::Verdict,
        CyclePhase::Over,
    ]
}

/// The result of a step of such a cycle settles nothing.
pub open spec fn unsettled(step: CyclePhase, result: PhaseResult) -> bool {
    match step {
        CyclePhase::Status => result matches PhaseResult::Status { present, .. } && present,
        CyclePhase::PostRestart => result == (PhaseResult::Restarted {
            outcome: RestartedOutcome::NotApplicable,
        }),
        CyclePhase::ApiPoll => result == (PhaseResult::Polled { looks_dead: false }),
        CyclePhase::PostClear => result == (PhaseResult::PostClear {
            outcome: PostClearOutcome::NotApplicable,
        }) || result == (PhaseResult::PostClear { outcome: PostClearOutcome::NotDue }),
        CyclePhase::FreshClear => result == (PhaseResult::FreshClear {
            outcome: FreshClearOutcome::NotApplicable,
        }) || result == (PhaseResult::FreshClear { outcome: FreshClearOutcome::Busy }),
        _ => result == PhaseResult::Done,
    }
}

/// A cycle over a session that runs takes every monitor in its order, down to the verdict, as
/// long as no step settles it.
pub proof fn unsettled_cycle_takes_every_step(results: Seq<PhaseResult>)
    requires
        results.len() < full_cycle().len(),
        forall|i: int|
            0 <= i < results.len() ==> unsettled(full_cycle()[i], #[trigger] results[i]),
    ensures
        phase_at(results) == full_cycle()[results.len() as int],
    decreases results.len(),
{
    if results.len() > 0 {
        let before = results.drop_last();
        assert forall|i: int| 0 <= i < before.len() implies unsettled(
            full_cycle()[i],
            #[trigger] before[i],
        ) by {
            assert(results[i] == before[i]);
        }
        unsettled_cycle_takes_every_step(before);
        assert(unsettled(full_cycle()[results.len() - 1], results[results.len() - 1]));
    }
}

/// A monitor is only reached from the one before it, and only by a result of that one: a
/// result of another step ends the cycle.
pub proof fn steps_follow_their_own_results(phase: CyclePhase, result: PhaseResult)
    ensures
        ({
            let next = phase_after(phase, result);
            &&& next == CyclePhase::PostRestart || next == CyclePhase::WedgeWithoutStatus ==> phase
                == CyclePhase::Status && result is Status
            &&& next == CyclePhase::Absent ==> (phase == CyclePhase::Status && result is Status)
                || (phase == CyclePhase::WedgeWithoutStatus && result is Wedge)
            &&& next == CyclePhase::Reading ==> phase == CyclePhase::PostRestart && result
                is Restarted
            &&& next == CyclePhase::ApiPoll ==> phase == CyclePhase::Reading && result is Done
            &&& next == CyclePhase::UpdateTrigger ==> phase == CyclePhase::ApiPoll && result
                is Polled
            &&& next == CyclePhase::AutoUpdate ==> phase == CyclePhase::UpdateTrigger && result
                is Done
            &&& next == CyclePhase::Reauth ==> phase == CyclePhase::AutoUpdate && result is Done
            &&& next == CyclePhase::LoginExpiry ==> phase == CyclePhase::Reauth && result is Done
            &&& next == CyclePhase::PostClear ==> phase == CyclePhase::LoginExpiry && result is Done
            &&& next == CyclePhase::FreshClear ==> phase == CyclePhase::PostClear && result
                is PostClear
            &&& next == CyclePhase::AckStale ==> phase == CyclePhase::FreshClear && result
                is FreshClear
            &&& next == CyclePhase::AskQuestion || next == CyclePhase::Foreground || next
                == CyclePhase::Context || next == CyclePhase::Wedged || next
                == CyclePhase::Malformed || next == CyclePhase::Watchers || next
                == CyclePhase::AutoRespawn || next == CyclePhase::Verdict ==> result is Done
            &&& next != CyclePhase::Status
        }),
{
}

/// Only the looks at logins and at the watchers can be switched off as steps: the former with
/// their monitor or for want of a pane, the latter with theirs.
pub proof fn steps_are_left_out_with_their_monitor(
    config: Config,
    phase: CyclePhase,
    pane: Seq<char>,
)
    ensures
        !phase_applies(config, phase, pane) ==> phase == CyclePhase::Reauth || phase
            == CyclePhase::LoginExpiry || phase == CyclePhase::Watchers,
        phase_applies(config, CyclePhase::Reauth, pane) <==> config.reauth.enabled && pane.len()
            > 0,
        phase_applies(config, CyclePhase::LoginExpiry, pane) <==> phase_applies(
            config,
            CyclePhase::Reauth,
            pane,
        ) && config.reauth.expiry_watch_enabled,
        phase_applies(config, CyclePhase::Watchers, pane) <==> config.watcher_monitor.enabled,
{
}

/// Before the status was taken note of, a step goes by what the status shows; from then on by
/// the pane to go by and the bridged count of tokens. A reset and a wedge are judged by the
/// size of the context, and no step mixes the raw count with the bridged one.
pub proof fn steps_go_by_their_readings(phase: CyclePhase, r: Readings)
    ensures
        phase == CyclePhase::PostRestart || phase == CyclePhase::Reading ==> step_pane(phase, r)
            == r.status_pane@ && step_tokens(phase, r) == r.raw_tokens,
        step_pane(CyclePhase::WedgeWithoutStatus, r) == r.fallback_pane@,
        phase == CyclePhase::ApiPoll || phase == CyclePhase::PostClear || phase
            == CyclePhase::FreshClear || phase == CyclePhase::Foreground || phase
            == CyclePhase::Context || phase == CyclePhase::Malformed || phase
            == CyclePhase::Verdict ==> step_pane(phase, r) == r.pane@ && step_tokens(phase, r)
            == r.tokens,
        step_sample(CyclePhase::Context, r) == r.context_tokens,
        step_pane(CyclePhase::Wedged, r) == r.pane@ && step_tokens(CyclePhase::Wedged, r)
            == r.context_tokens,
        phase == CyclePhase::SecondLook || phase == CyclePhase::DeadSession || phase
            == CyclePhase::UpdateTrigger || phase == CyclePhase::AutoUpdate || phase
            == CyclePhase::Reauth || phase == CyclePhase::LoginExpiry || phase
            == CyclePhase::AckStale || phase == CyclePhase::AskQuestion || phase
            == CyclePhase::Watchers || phase == CyclePhase::AutoRespawn ==> step_pane(phase, r)
            == r.pane@,
        phase == CyclePhase::Reading || phase == CyclePhase::ApiPoll || phase
            == CyclePhase::DeadSession || phase == CyclePhase::FreshClear || phase
            == CyclePhase::AckStale || phase == CyclePhase::Watchers || phase
            == CyclePhase::Verdict ==> step_bashes(phase, r) == r.bashes,
{
}

/// A configuration fits exactly if the time after which acknowledgements are stale and the
/// time between two updates can be counted in seconds.
pub proof fn fitting_spans_count_in_seconds(config: Config)
    ensures
        spans_fit(config) <==> config.ack.stale_minutes * 60 <= u64::MAX
            && config.auto_update.cooldown_hours * 3600 <= u64::MAX,
{
}

} // verus!
