//! A session that no longer acknowledges events: when it counts as stuck, and how often the
//! operator hears of it. The end of a cycle.
use crate::config::{Config, NamesConfig};
use crate::fresh_clear;
use crate::liveness;
use crate::liveness::{heartbeat_stale_liveness_reason, main_loop_actively_turning_at};
use crate::obligation;
use crate::obligation::{obligation_escalation_decision_at, ObligationDecision};
use crate::state::{FailureDetail, FailureDetailView, State, StateView, StatusSnapshot};
use crate::text;
use crate::text::decimal_text;
use crate::time;
use crate::time::{as_opt_str, stamp_under, Moment};
use vstd::prelude::*;
use vstd::string::StringExecFns;

verus! {

/// What is seen of the session when its acknowledgements are checked.
#[derive(Debug, Clone, Copy, PartialEq, Eq, Structural)]
pub struct AckObs {
    /// Age of the last event acknowledgement.
    pub ack_age_secs: Option<u64>,
    /// A workload heartbeat speaks against the session being stuck.
    pub workload_fresh: bool,
    /// Subagents that are alive.
    pub active_subagents: u32,
    /// Shells that the session runs.
    pub bashes: u64,
    /// Watchers that run.
    pub watchmen: u32,
}

/// What a check of the acknowledgements came to.
#[derive(Debug, Clone, Copy, PartialEq, Eq, Structural)]
pub enum AckVerdict {
    /// They are fresh, or there is no stamp of one.
    Fresh,
    /// They are stale, but the session is otherwise alive.
    Excused,
    /// They are stale, and nothing speaks for the session.
    Stuck {
        /// Whole minutes since the last one.
        stale_minutes: u64,
    },
}

/// The first sign that the session is otherwise alive, if there is one.
pub open spec fn life_sign(config: Config, s: StateView, obs: AckObs, now: Moment) -> Option<
    Seq<char>,
> {
    liveness::liveness_reason(
        obs.workload_fresh,
        obs.active_subagents,
        s.thinking_start is Some,
        liveness::actively_turning(
            s,
            obs.bashes,
            config.watcher_monitor.active_window_secs,
            now,
        ),
    )
}

/// The session is otherwise alive.
pub open spec fn excused(config: Config, s: StateView, obs: AckObs, now: Moment) -> bool {
    life_sign(config, s, obs, now) is Some
}

/// The last acknowledgement is older than it may be.
pub open spec fn ack_stale(config: Config, obs: AckObs) -> bool {
    obs.ack_age_secs matches Some(age) && age >= fresh_clear::ack_stale_secs(config)
}

/// Why stale acknowledgements are not held against the session; nothing where they are fresh,
/// or are held against it.
pub open spec fn ack_excuse_text(config: Config, s: StateView, obs: AckObs, now: Moment) -> Option<
    Seq<char>,
> {
    if ack_stale(config, obs) {
        life_sign(config, s, obs, now)
    } else {
        None
    }
}

/// What a check of the acknowledgements comes to.
pub open spec fn ack_verdict(config: Config, s: StateView, obs: AckObs, now: Moment) -> AckVerdict {
    match obs.ack_age_secs {
        Some(age) => if age < fresh_clear::ack_stale_secs(config) {
            AckVerdict::Fresh
        } else if excused(config, s, obs, now) {
            AckVerdict::Excused
        } else {
            AckVerdict::Stuck { stale_minutes: age / 60 }
        },
        None => AckVerdict::Fresh,
    }
}

/// The state after a check of the acknowledgements.
pub open spec fn ack_next(s: StateView, verdict: AckVerdict) -> StateView {
    if verdict is Stuck {
        StateView { heartbeat_stale_count: (s.heartbeat_stale_count + 1) as u64, ..s }
    } else {
        s
    }
}

/// [`life_sign`], executable.
fn find_life_sign(config: &Config, state: &State, obs: AckObs, now: Moment) -> (r: Option<
    &'static str,
>)
    ensures
        time::opt_str_view(r) == life_sign(*config, state@, obs, now),
{
    proof {
        reveal(crate::state::state_view);
    }
    let turning = main_loop_actively_turning_at(
        state,
        obs.bashes,
        config.watcher_monitor.active_window_secs,
        now,
    );
    heartbeat_stale_liveness_reason(
        obs.workload_fresh,
        obs.active_subagents,
        state.thinking_start.is_some(),
        turning,
    )
}

/// [`ack_excuse_text`], executable.
pub fn ack_excuse(config: &Config, state: &State, obs: AckObs, now: Moment) -> (r: Option<
    &'static str,
>)
    requires
        fresh_clear::ack_stale_secs(*config) <= u64::MAX,
    ensures
        time::opt_str_view(r) == ack_excuse_text(*config, state@, obs, now),
{
    let Some(age) = obs.ack_age_secs else {
        return None;
    };
    if age < config.ack.stale_minutes * 60 {
        return None;
    }
    find_life_sign(config, state, obs, now)
}

/// Decides about the acknowledgements.
fn decide_ack(config: &Config, state: &State, obs: AckObs, now: Moment) -> (r: AckVerdict)
    requires
        fresh_clear::ack_stale_secs(*config) <= u64::MAX,
    ensures
        r == ack_verdict(*config, state@, obs, now),
{
    let Some(age) = obs.ack_age_secs else {
        return AckVerdict::Fresh;
    };
    if age < config.ack.stale_minutes * 60 {
        return AckVerdict::Fresh;
    }
    match find_life_sign(config, state, obs, now) {
        Some(_) => AckVerdict::Excused,
        None => AckVerdict::Stuck { stale_minutes: age / 60 },
    }
}

/// Counts a stale acknowledgement.
fn count_stale(state: &mut State)
    requires
        old(state)@.heartbeat_stale_count < u64::MAX,
    ensures
        final(state)@ == (StateView {
            heartbeat_stale_count: (old(state)@.heartbeat_stale_count + 1) as u64,
            ..old(state)@
        }),
{
    proof {
        reveal(crate::state::state_view);
    }
    state.heartbeat_stale_count = state.heartbeat_stale_count + 1;
}

/// Checks the acknowledgements.
pub fn check_ack_stale(config: &Config, state: &mut State, obs: AckObs, now: Moment) -> (r: AckVerdict)
    requires
        fresh_clear::ack_stale_secs(*config) <= u64::MAX,
        old(state)@.heartbeat_stale_count < u64::MAX,
    ensures
        r == ack_verdict(*config, old(state)@, obs, now),
        final(state)@ == ack_next(old(state)@, r),
{
    let verdict = decide_ack(config, state, obs, now);
    match verdict {
        AckVerdict::Stuck { stale_minutes } => count_stale(state),
        _ => {},
    }
    verdict
}

/// Why the session counts as stuck.
pub open spec fn stuck_text(stale_minutes: u64, threshold_minutes: u64, watchmen: u32) -> Seq<char> {
    "no event ack for "@ + text::decimal(stale_minutes as nat) + "min (threshold="@
        + text::decimal(threshold_minutes as nat) + "min, watchmen="@ + text::decimal(
        watchmen as nat,
    ) + ")"@
}

/// Writes why the session counts as stuck.
pub fn stuck_reason(stale_minutes: u64, threshold_minutes: u64, watchmen: u32) -> (r: String)
    ensures
        r@ == stuck_text(stale_minutes, threshold_minutes, watchmen),
{
    let age = decimal_text(stale_minutes);
    let threshold = decimal_text(threshold_minutes);
    let count = decimal_text(watchmen as u64);
    "no event ack for ".to_owned().concat(age.as_str()).concat("min (threshold=").concat(
        threshold.as_str(),
    ).concat("min, watchmen=").concat(count.as_str()).concat(")")
}

/// How the operator and the session hear of a stuck session.
#[derive(Debug, Clone, Copy, PartialEq, Eq, Structural)]
pub enum AlertDelivery {
    /// There is no pane to alert.
    NoPane,
    /// An obligation is armed, or stays armed.
    Armed,
    /// The session is interrupted.
    Escalated,
}

/// What came of a cycle's verdict.
#[derive(Debug, Clone, Copy, PartialEq, Eq, Structural)]
pub enum StuckOutcome {
    /// The session is not stuck.
    Fine,
    /// It is, for the first time in a row.
    FirstFailure,
    /// It is, but the last alert is too recent.
    AlertCooldown,
    /// It is, and that is alerted.
    Alerted {
        /// How.
        delivery: AlertDelivery,
        /// Whether the operator gets a message.
        use_pingme: bool,
    },
}

/// Seconds that must lie between the last alert of an episode and the next.
pub open spec fn alert_cooldown(tiers: Seq<u64>, alert_count: u32) -> u64 {
    if alert_count < tiers.len() {
        tiers[alert_count as int]
    } else if tiers.len() > 0 {
        tiers.last()
    } else {
        3600
    }
}

/// Picks the seconds that must lie between the last alert of an episode and the next.
pub fn alert_cooldown_secs(tiers: &Vec<u64>, alert_count: u32) -> (r: u64)
    ensures
        r == alert_cooldown(tiers@, alert_count),
{
    if (alert_count as u64) < (tiers.len() as u64) {
        tiers[alert_count as usize]
    } else if tiers.len() > 0 {
        tiers[tiers.len() - 1]
    } else {
        3600
    }
}

/// How a stuck session's alert is delivered.
pub open spec fn delivery(
    config: Config,
    s: StateView,
    has_pane: bool,
    active_subagents: u32,
    now: Moment,
) -> AlertDelivery {
    if !has_pane {
        AlertDelivery::NoPane
    } else if obligation::obligation_decision(
        s.heartbeat_obligation_armed_at,
        config.general.obligation_dwell_secs,
        active_subagents,
        now,
    ) == ObligationDecision::Escalate {
        AlertDelivery::Escalated
    } else {
        AlertDelivery::Armed
    }
}

/// What comes of a cycle's verdict.
pub open spec fn stuck_outcome(
    config: Config,
    s: StateView,
    stuck: bool,
    has_pane: bool,
    active_subagents: u32,
    now: Moment,
) -> StuckOutcome {
    if !stuck {
        StuckOutcome::Fine
    } else if s.consecutive_failures == 0 {
        StuckOutcome::FirstFailure
    } else if time::elapsed_under(
        s.last_alert,
        now,
        alert_cooldown(config.alerts.escalation_tiers@, s.alert_count) as int,
    ) {
        StuckOutcome::AlertCooldown
    } else {
        StuckOutcome::Alerted {
            delivery: delivery(config, s, has_pane, active_subagents, now),
            use_pingme: s.alert_count < config.alerts.max_pingme_alerts,
        }
    }
}

/// The state once a failure is noted.
pub open spec fn failure_noted(
    s: StateView,
    reason: Seq<char>,
    status: StatusSnapshot,
    stamp: Seq<char>,
) -> StateView {
    StateView {
        consecutive_failures: (s.consecutive_failures + 1) as u32,
        last_failure: Some(stamp),
        last_failure_detail: Some(
            FailureDetailView {
                bashes: status.bashes,
                watchmen: status.watchmen,
                stuck_reason: reason,
            },
        ),
        ..s
    }
}

/// The state without any failure.
pub open spec fn failures_cleared(s: StateView) -> StateView {
    StateView {
        consecutive_failures: 0,
        alert_count: 0,
        heartbeat_obligation_armed_at: None,
        ..s
    }
}

/// The state once an alert went out.
pub open spec fn alert_sent(s: StateView, how: AlertDelivery, stamp: Seq<char>) -> StateView {
    StateView {
        alert_count: (s.alert_count + 1) as u32,
        heartbeat_obligation_armed_at: match how {
            AlertDelivery::NoPane => s.heartbeat_obligation_armed_at,
            AlertDelivery::Armed => match s.heartbeat_obligation_armed_at {
                Some(at) => Some(at),
                None => Some(stamp),
            },
            AlertDelivery::Escalated => None,
        },
        last_alert: Some(stamp),
        ..s
    }
}

/// The state once a cycle is over.
pub open spec fn check_closed(s: StateView, status: StatusSnapshot, stamp: Seq<char>) -> StateView {
    StateView { last_check: Some(stamp), last_status: Some(status), ..s }
}

/// The state after a cycle's verdict. A cycle that ends in an alert's cooldown leaves the
/// stamp and the figures of the last one.
pub open spec fn stuck_next(
    s: StateView,
    outcome: StuckOutcome,
    reason: Seq<char>,
    status: StatusSnapshot,
    stamp: Seq<char>,
) -> StateView {
    match outcome {
        StuckOutcome::Fine => check_closed(failures_cleared(s), status, stamp),
        StuckOutcome::FirstFailure => check_closed(
            failure_noted(s, reason, status, stamp),
            status,
            stamp,
        ),
        StuckOutcome::AlertCooldown => failure_noted(s, reason, status, stamp),
        StuckOutcome::Alerted { delivery, use_pingme } => check_closed(
            alert_sent(failure_noted(s, reason, status, stamp), delivery, stamp),
            status,
            stamp,
        ),
    }
}

/// Decides how an alert is delivered.
fn decide_delivery(
    config: &Config,
    state: &State,
    has_pane: bool,
    active_subagents: u32,
    now: Moment,
) -> (r: AlertDelivery)
    ensures
        r == delivery(*config, state@, has_pane, active_subagents, now),
{
    proof {
        reveal(crate::state::state_view);
    }
    if !has_pane {
        return AlertDelivery::NoPane;
    }
    match obligation_escalation_decision_at(
        as_opt_str(&state.heartbeat_obligation_armed_at),
        config.general.obligation_dwell_secs,
        active_subagents,
        now,
    ) {
        ObligationDecision::Escalate => AlertDelivery::Escalated,
        _ => AlertDelivery::Armed,
    }
}

/// Decides about a cycle's verdict.
fn decide_stuck(
    config: &Config,
    state: &State,
    stuck: bool,
    has_pane: bool,
    active_subagents: u32,
    now: Moment,
) -> (r: StuckOutcome)
    ensures
        r == stuck_outcome(*config, state@, stuck, has_pane, active_subagents, now),
{
    proof {
        reveal(crate::state::state_view);
    }
    if !stuck {
        return StuckOutcome::Fine;
    }
    if state.consecutive_failures == 0 {
        return StuckOutcome::FirstFailure;
    }
    let cooldown: u64 = alert_cooldown_secs(&config.alerts.escalation_tiers, state.alert_count);
    if stamp_under(as_opt_str(&state.last_alert), now, cooldown) {
        return StuckOutcome::AlertCooldown;
    }
    StuckOutcome::Alerted {
        delivery: decide_delivery(config, state, has_pane, active_subagents, now),
        use_pingme: state.alert_count < config.alerts.max_pingme_alerts,
    }
}

/// Notes a failure.
fn note_failure(state: &mut State, reason: &str, status: StatusSnapshot, stamp: &str)
    requires
        old(state)@.consecutive_failures < u32::MAX,
    ensures
        final(state)@ == failure_noted(old(state)@, reason@, status, stamp@),
{
    proof {
        reveal(crate::state::state_view);
    }
    state.consecutive_failures = state.consecutive_failures + 1;
    state.last_failure = Some(stamp.to_owned());
    state.last_failure_detail =
    Some(
        FailureDetail {
            bashes: status.bashes,
            watchmen: status.watchmen,
            stuck_reason: reason.to_owned(),
        },
    );
}

/// Clears every failure.
fn clear_failures(state: &mut State)
    ensures
        final(state)@ == failures_cleared(old(state)@),
{
    proof {
        reveal(crate::state::state_view);
    }
    state.consecutive_failures = 0;
    state.alert_count = 0;
    state.heartbeat_obligation_armed_at = None;
}

/// Counts an alert.
fn count_alert(state: &mut State, stamp: &str)
    requires
        old(state)@.alert_count < u32::MAX,
    ensures
        final(state)@ == (StateView {
            alert_count: (old(state)@.alert_count + 1) as u32,
            last_alert: Some(stamp@),
            ..old(state)@
        }),
{
    proof {
        reveal(crate::state::state_view);
    }
    state.alert_count = state.alert_count + 1;
    state.last_alert = Some(stamp.to_owned());
}

/// Arms or disarms the obligation, as the alert was delivered.
fn settle_obligation(state: &mut State, how: AlertDelivery, stamp: &str)
    ensures
        final(state)@ == (StateView {
            heartbeat_obligation_armed_at: match how {
                AlertDelivery::NoPane => old(state)@.heartbeat_obligation_armed_at,
                AlertDelivery::Armed => match old(state)@.heartbeat_obligation_armed_at {
                    Some(at) => Some(at),
                    None => Some(stamp@),
                },
                AlertDelivery::Escalated => None,
            },
            ..old(state)@
        }),
{
    proof {
        reveal(crate::state::state_view);
    }
    match how {
        AlertDelivery::NoPane => {},
        AlertDelivery::Armed => {
            if state.heartbeat_obligation_armed_at.is_none() {
                state.heartbeat_obligation_armed_at = Some(stamp.to_owned());
            }
        },
        AlertDelivery::Escalated => {
            state.heartbeat_obligation_armed_at = None;
        },
    }
}

/// Closes a cycle.
fn close_check(state: &mut State, status: StatusSnapshot, stamp: &str)
    ensures
        final(state)@ == check_closed(old(state)@, status, stamp@),
{
    proof {
        reveal(crate::state::state_view);
    }
    state.last_check = Some(stamp.to_owned());
    state.last_status = Some(status);
}

/// Acts on a cycle's verdict, and closes the cycle. `reason` says why the session is stuck,
/// where it is; `has_pane` that there is a pane to alert.
pub fn finish_check(
    config: &Config,
    state: &mut State,
    reason: Option<&str>,
    status: StatusSnapshot,
    has_pane: bool,
    active_subagents: u32,
    stamp: &str,
    now: Moment,
) -> (r: StuckOutcome)
    requires
        old(state)@.consecutive_failures < u32::MAX,
        old(state)@.alert_count < u32::MAX,
    ensures
        r == stuck_outcome(
            *config,
            old(state)@,
            reason is Some,
            has_pane,
            active_subagents,
            now,
        ),
        final(state)@ == stuck_next(
            old(state)@,
            r,
            match reason {
                Some(why) => why@,
                None => Seq::empty(),
            },
            status,
            stamp@,
        ),
{
    let outcome = decide_stuck(config, state, reason.is_some(), has_pane, active_subagents, now);
    let Some(why) = reason else {
        clear_failures(state);
        close_check(state, status, stamp);
        return outcome;
    };
    note_failure(state, why, status, stamp);
    match outcome {
        StuckOutcome::AlertCooldown => {},
        StuckOutcome::Alerted { delivery, use_pingme } => {
            count_alert(state, stamp);
            settle_obligation(state, delivery, stamp);
            close_check(state, status, stamp);
        },
        _ => {
            close_check(state, status, stamp);
        },
    }
    outcome
}

/// The alert for a stuck session.
pub open spec fn alert_text(names: NamesConfig, reason: Seq<char>, failures: u32) -> Seq<char> {
    names.short@ + " stuck: "@ + reason + ". "@ + text::decimal(failures as nat)
        + " consecutive checks failed."@
}

/// Writes the alert for a stuck session.
pub fn stuck_alert_message(names: &NamesConfig, reason: &str, failures: u32) -> (r: String)
    ensures
        r@ == alert_text(*names, reason@, failures),
{
    let count = decimal_text(failures as u64);
    names.short.clone().concat(" stuck: ").concat(reason).concat(". ").concat(count.as_str()).concat(
        " consecutive checks failed.",
    )
}

/// A single failed check is never alerted.
pub proof fn first_failure_is_not_alerted(
    config: Config,
    s: StateView,
    stuck: bool,
    has_pane: bool,
    active_subagents: u32,
    now: Moment,
)
    requires
        s.consecutive_failures == 0,
    ensures
        !(stuck_outcome(config, s, stuck, has_pane, active_subagents, now) is Alerted),
{
}

/// A session that acknowledges events again is as new: no failures, no alerts, no obligation.
pub proof fn recovery_clears_the_episode(
    config: Config,
    s: StateView,
    has_pane: bool,
    active_subagents: u32,
    reason: Seq<char>,
    status: StatusSnapshot,
    stamp: Seq<char>,
    now: Moment,
)
    ensures
        ({
            let n = stuck_next(
                s,
                stuck_outcome(config, s, false, has_pane, active_subagents, now),
                reason,
                status,
                stamp,
            );
            &&& n.consecutive_failures == 0
            &&& n.alert_count == 0
            &&& n.heartbeat_obligation_armed_at is None
        }),
{
}

/// Between two alerts lies the tier of the first: until it has passed, none goes out.
pub proof fn alerts_keep_their_distance(
    config: Config,
    s: StateView,
    outcome: StuckOutcome,
    reason: Seq<char>,
    status: StatusSnapshot,
    stamp: Seq<char>,
    has_pane: bool,
    active_subagents: u32,
    later: Moment,
)
    requires
        outcome is Alerted,
        s.consecutive_failures < u32::MAX,
        s.alert_count < u32::MAX,
        time::elapsed_under(
            Some(stamp),
            later,
            alert_cooldown(config.alerts.escalation_tiers@, (s.alert_count + 1) as u32) as int,
        ),
    ensures
        stuck_outcome(
            config,
            stuck_next(s, outcome, reason, status, stamp),
            true,
            has_pane,
            active_subagents,
            later,
        ) == StuckOutcome::AlertCooldown,
{
}

/// Whatever speaks for the session's life keeps a stale acknowledgement from counting.
pub proof fn life_excuses_a_stale_ack(config: Config, s: StateView, obs: AckObs, now: Moment)
    requires
        obs.workload_fresh || obs.active_subagents > 0 || s.thinking_start is Some,
    ensures
        !(ack_verdict(config, s, obs, now) is Stuck),
{
}

/// A session that ran a tool call less than the active window ago is never judged stuck, also
/// between two calls; nor is one that runs a shell, thinks, has live subagents or a workload
/// that gives signs of life. A stale acknowledgement with none of these is held against it,
/// with the whole minutes since, and a fresh or missing one never is.
pub proof fn only_a_lifeless_session_is_stuck(config: Config, s: StateView, obs: AckObs, now: Moment)
    ensures
        ({
            let stale = obs.ack_age_secs is Some && obs.ack_age_secs->0 >= config.ack.stale_minutes
                * 60;
            let alive = obs.workload_fresh || obs.active_subagents > 0 || s.thinking_start is Some
                || obs.bashes > 0 || time::elapsed_under(
                s.last_active_at,
                now,
                config.watcher_monitor.active_window_secs as int,
            );
            let verdict = ack_verdict(config, s, obs, now);
            &&& verdict is Stuck <==> stale && !alive
            &&& verdict == AckVerdict::Excused <==> stale && alive
            &&& verdict == AckVerdict::Fresh <==> !stale
            &&& verdict matches AckVerdict::Stuck { stale_minutes } ==> stale_minutes * 60
                <= obs.ack_age_secs->0 < (stale_minutes + 1) * 60
            &&& ack_excuse_text(config, s, obs, now) is Some <==> stale && alive
        }),
{
}

/// An excuse names the first sign of life, in a fixed order: the workload, the subagents,
/// thinking, and activity last.
pub proof fn excuse_names_the_first_sign(config: Config, s: StateView, obs: AckObs, now: Moment)
    requires
        obs.ack_age_secs matches Some(age) && age >= config.ack.stale_minutes * 60,
    ensures
        ({
            let excuse = ack_excuse_text(config, s, obs, now);
            &&& obs.workload_fresh ==> excuse == Some("workload_heartbeat_fresh"@)
            &&& !obs.workload_fresh && obs.active_subagents > 0 ==> excuse == Some(
                "active_subagents"@,
            )
            &&& !obs.workload_fresh && obs.active_subagents == 0 && s.thinking_start is Some
                ==> excuse == Some("loop_thinking"@)
            &&& !obs.workload_fresh && obs.active_subagents == 0 && s.thinking_start is None && (
            obs.bashes > 0 || time::elapsed_under(
                s.last_active_at,
                now,
                config.watcher_monitor.active_window_secs as int,
            )) ==> excuse == Some("loop_actively_turning"@)
        }),
{
}

/// A stale acknowledgement that is held against the session is counted, and nothing else is
/// ever changed by the check.
pub proof fn stuck_sessions_are_counted(s: StateView, verdict: AckVerdict)
    requires
        s.heartbeat_stale_count < u64::MAX,
    ensures
        ack_next(s, verdict).heartbeat_stale_count == s.heartbeat_stale_count + (if verdict
            is Stuck {
            1int
        } else {
            0
        }),
        ack_next(s, verdict) == (StateView {
            heartbeat_stale_count: ack_next(s, verdict).heartbeat_stale_count,
            ..s
        }),
{
}

/// The alerts of an episode follow the configured tiers in their order; the last tier stands
/// for every alert beyond them, and without tiers an hour lies between two alerts.
pub proof fn alerts_follow_their_tiers(tiers: Seq<u64>, alert_count: u32)
    ensures
        alert_count < tiers.len() ==> alert_cooldown(tiers, alert_count)
            == tiers[alert_count as int],
        0 < tiers.len() <= alert_count ==> alert_cooldown(tiers, alert_count) == tiers[tiers.len()
            - 1],
        tiers.len() == 0 ==> alert_cooldown(tiers, alert_count) == 3600,
{
}

/// A session that is stuck again is alerted as soon as the tier since the last alert has
/// passed, or where there was none, and not before; its first failure in a row never is.
pub proof fn second_failure_is_alerted(
    config: Config,
    s: StateView,
    stuck: bool,
    has_pane: bool,
    active_subagents: u32,
    now: Moment,
)
    ensures
        ({
            let outcome = stuck_outcome(config, s, stuck, has_pane, active_subagents, now);
            let tier = alert_cooldown(config.alerts.escalation_tiers@, s.alert_count) as int;
            &&& !stuck <==> outcome == StuckOutcome::Fine
            &&& stuck && s.consecutive_failures == 0 <==> outcome == StuckOutcome::FirstFailure
            &&& stuck && s.consecutive_failures > 0 && !time::elapsed_under(s.last_alert, now, tier)
                <==> outcome is Alerted
            &&& stuck && s.consecutive_failures > 0 && time::elapsed_under(s.last_alert, now, tier)
                <==> outcome == StuckOutcome::AlertCooldown
            &&& outcome matches StuckOutcome::Alerted { delivery: how, use_pingme } ==> use_pingme
                == (s.alert_count < config.alerts.max_pingme_alerts) && how == delivery(
                config,
                s,
                has_pane,
                active_subagents,
                now,
            )
        }),
{
}

/// Without a pane nothing is typed. With one, an alert arms an obligation first, where a dwell
/// is set; it interrupts the session only once the obligation has stood for the dwell and no
/// subagent is alive.
pub proof fn alert_interrupts_only_after_its_dwell(
    config: Config,
    s: StateView,
    has_pane: bool,
    active_subagents: u32,
    now: Moment,
)
    ensures
        ({
            let how = delivery(config, s, has_pane, active_subagents, now);
            &&& how == AlertDelivery::NoPane <==> !has_pane
            &&& how == AlertDelivery::Escalated <==> has_pane && (
            config.general.obligation_dwell_secs == 0 || (active_subagents == 0
                && time::elapsed_at_least(
                s.heartbeat_obligation_armed_at,
                now,
                config.general.obligation_dwell_secs as int,
            )))
        }),
{
}

/// A failed check is on record with what was seen; an alert is counted and stamped, and arms,
/// keeps or ends the obligation as it was delivered.
pub proof fn failures_and_alerts_are_on_record(
    s: StateView,
    outcome: StuckOutcome,
    reason: Seq<char>,
    status: StatusSnapshot,
    stamp: Seq<char>,
)
    requires
        s.consecutive_failures < u32::MAX,
        s.alert_count < u32::MAX,
    ensures
        ({
            let n = stuck_next(s, outcome, reason, status, stamp);
            &&& outcome != StuckOutcome::Fine ==> n.consecutive_failures == s.consecutive_failures
                + 1 && n.last_failure == Some(stamp) && n.last_failure_detail == Some(
                FailureDetailView {
                    bashes: status.bashes,
                    watchmen: status.watchmen,
                    stuck_reason: reason,
                },
            )
            &&& outcome == StuckOutcome::Fine ==> n.last_failure == s.last_failure
                && n.last_failure_detail == s.last_failure_detail && n.last_alert == s.last_alert
            &&& outcome is Alerted ==> n.alert_count == s.alert_count + 1 && n.last_alert == Some(
                stamp,
            )
            &&& outcome == StuckOutcome::FirstFailure || outcome == StuckOutcome::AlertCooldown
                ==> n.alert_count == s.alert_count && n.last_alert == s.last_alert
                && n.heartbeat_obligation_armed_at == s.heartbeat_obligation_armed_at
            &&& outcome matches StuckOutcome::Alerted { delivery: how, .. } ==> {
                &&& how == AlertDelivery::NoPane ==> n.heartbeat_obligation_armed_at
                    == s.heartbeat_obligation_armed_at
                &&& how == AlertDelivery::Escalated ==> n.heartbeat_obligation_armed_at is None
                &&& how == AlertDelivery::Armed && s.heartbeat_obligation_armed_at is Some
                    ==> n.heartbeat_obligation_armed_at == s.heartbeat_obligation_armed_at
                &&& how == AlertDelivery::Armed && s.heartbeat_obligation_armed_at is None
                    ==> n.heartbeat_obligation_armed_at == Some(stamp)
            }
            &&& outcome != StuckOutcome::AlertCooldown ==> n.last_status == Some(status)
                && n.last_check == Some(stamp)
            &&& outcome == StuckOutcome::AlertCooldown ==> n.last_status == s.last_status
        }),
{
}

/// A verdict leaves alone what the other monitors go by: the activity of the session, the
/// clocks of every interrupt, and what is known of its watchers, its context and its restarts.
pub proof fn verdict_moves_no_other_clock(
    s: StateView,
    outcome: StuckOutcome,
    reason: Seq<char>,
    status: StatusSnapshot,
    stamp: Seq<char>,
)
    ensures
        ({
            let n = stuck_next(s, outcome, reason, status, stamp);
            &&& n.last_active_at == s.last_active_at
            &&& n.last_interrupt_at == s.last_interrupt_at
            &&& n.thinking_start == s.thinking_start
            &&& n.last_context_clear == s.last_context_clear
            &&& n.last_watcher_inject == s.last_watcher_inject
            &&& n.watcher_health == s.watcher_health
            &&& n.hang_signal_history == s.hang_signal_history
            &&& n.last_restart == s.last_restart
            &&& n.consecutive_suppressions == s.consecutive_suppressions
            &&& n.heartbeat_stale_count == s.heartbeat_stale_count
        }),
{
}

} // verus!
