//! Missing watchers: whether the session is told to start them again, and how loudly.
use crate::config::{Config, NamesConfig};
use crate::interrupts;
use crate::interrupts::try_claim_global_interrupt_at;
use crate::liveness;
use crate::liveness::watcher_down_actively_turning_at;
use crate::obligation;
use crate::obligation::{watcher_down_obligation_decision_at, ObligationDecision};
use crate::state::{State, StateView};
use crate::suppression;
use crate::suppression::{
    record_suppression, reset_suppression, should_escalate_suppression_at,
    watcher_down_suppression_capped, EscalationReason,
};
use crate::text;
use crate::text::decimal_text;
use crate::time;
use crate::time::{as_opt_str, Moment};
use crate::watcher_health;
use crate::watchers;
use crate::watchers::{consumer_watcher_missing, watcher_inject_due_at};
use vstd::prelude::*;
use vstd::string::{StrSliceExecFns, StringExecFns};

verus! {

/// What is seen when an inject for missing watchers is decided.
#[derive(Debug, Clone, Copy, PartialEq, Eq, Structural)]
pub struct InjectObs {
    /// The longest down time among the missing watchers.
    pub max_down_secs: Option<u64>,
    /// Shells that the session runs.
    pub bashes: u64,
    /// The session retries a request.
    pub api_retrying: bool,
    /// Subagents that are alive.
    pub active_subagents: u32,
}

/// What came of the missing watchers.
#[derive(Debug, Clone, Copy, PartialEq, Eq, Structural)]
pub enum InjectOutcome {
    /// No watcher calls for an inject, or there is no pane.
    AllClear,
    /// The last inject is too recent.
    NotDue,
    /// The session retries a request.
    HeldByRetry,
    /// The session is at work: the inject is put off, and that is counted.
    Suppressed,
    /// Another interrupt fired a moment ago.
    InterruptCooldown,
    /// An obligation is armed, or stays armed.
    Armed,
    /// The inject fires.
    Fired {
        /// Why it could no longer be put off, where it had been.
        escalation: Option<EscalationReason>,
        /// A watcher has been down for too long to put it off.
        capped: bool,
    },
}

/// The event consumer is among the missing watchers.
pub open spec fn consumer_down(missing: Seq<String>, consumer: Seq<char>) -> bool {
    consumer.len() > 0 && watcher_health::name_listed(missing, consumer)
}

/// A watcher has been down for too long to put the inject off.
pub open spec fn down_capped(config: Config, obs: InjectObs) -> bool {
    config.watcher_monitor.max_suppress_secs > 0 && (obs.max_down_secs matches Some(d) && d
        >= config.watcher_monitor.max_suppress_secs)
}

/// Why the inject can no longer be put off.
pub open spec fn forced_by(config: Config, s: StateView, now: Moment) -> Option<EscalationReason> {
    suppression::escalation(
        s,
        config.suppression.max_consecutive_suppressions,
        config.suppression.max_suppression_window_secs,
        now,
    )
}

/// The session is at work, which puts the inject off.
pub open spec fn turning(
    config: Config,
    s: StateView,
    missing: Seq<String>,
    consumer: Seq<char>,
    obs: InjectObs,
    now: Moment,
) -> bool {
    liveness::watcher_down_turning(
        s,
        obs.bashes,
        config.watcher_monitor.suppress_inject_when_active,
        config.watcher_monitor.active_window_secs,
        consumer_down(missing, consumer),
        s.wedged_consecutive > 0,
        now,
    )
}

/// The global interrupt cooldown lets the inject pass.
pub open spec fn gate_open(config: Config, s: StateView, now: Moment) -> bool {
    config.general.global_cooldown_exempt_watcher_down || interrupts::claim_granted(
        s,
        config.general.post_interrupt_cooldown_secs,
        config.general.global_cooldown_backoff_base,
        config.general.global_cooldown_max_secs,
        now,
    )
}

/// What comes of the missing watchers.
pub open spec fn inject_outcome(
    config: Config,
    s: StateView,
    pane: Seq<char>,
    missing: Seq<String>,
    consumer: Seq<char>,
    obs: InjectObs,
    now: Moment,
) -> InjectOutcome {
    if missing.len() == 0 || pane.len() == 0 {
        InjectOutcome::AllClear
    } else if !watchers::inject_due(
        s.last_watcher_inject,
        config.watcher_monitor.inject_cooldown,
        now,
    ) {
        InjectOutcome::NotDue
    } else if obs.api_retrying {
        InjectOutcome::HeldByRetry
    } else if turning(config, s, missing, consumer, obs, now) && forced_by(config, s, now) is None
        && !down_capped(config, obs) {
        InjectOutcome::Suppressed
    } else if !gate_open(config, s, now) {
        InjectOutcome::InterruptCooldown
    } else if obligation::watcher_down_decision(
        forced_by(config, s, now) is Some || consumer_down(missing, consumer) || down_capped(
            config,
            obs,
        ),
        s.watcher_down_obligation_armed_at,
        config.general.obligation_dwell_secs,
        obs.active_subagents,
        now,
    ) != ObligationDecision::Escalate {
        InjectOutcome::Armed
    } else {
        InjectOutcome::Fired {
            escalation: forced_by(config, s, now),
            capped: down_capped(config, obs),
        }
    }
}

/// The state once the global interrupt is claimed, where the inject needs a claim.
pub open spec fn gate_passed(config: Config, s: StateView, stamp: Seq<char>, now: Moment) -> StateView {
    if config.general.global_cooldown_exempt_watcher_down {
        s
    } else {
        interrupts::claim_next(
            s,
            config.general.post_interrupt_cooldown_secs,
            config.general.global_cooldown_backoff_base,
            config.general.global_cooldown_max_secs,
            now,
            stamp,
        )
    }
}

/// The state once the obligation is armed.
pub open spec fn watcher_armed(s: StateView, stamp: Seq<char>) -> StateView {
    StateView {
        watcher_down_obligation_armed_at: match s.watcher_down_obligation_armed_at {
            Some(at) => Some(at),
            None => Some(stamp),
        },
        ..s
    }
}

/// The state without the obligation.
pub open spec fn watcher_disarmed(s: StateView) -> StateView {
    StateView { watcher_down_obligation_armed_at: None, ..s }
}

/// The state once the inject has fired.
pub open spec fn inject_booked(s: StateView, stamp: Seq<char>) -> StateView {
    StateView {
        last_watcher_inject: Some(stamp),
        last_interrupt_at: Some(stamp),
        watcher_inject_count: (s.watcher_inject_count + 1) as u64,
        watcher_down_interrupts_total: s.watcher_down_interrupts_total.saturating_add(1),
        ..s
    }
}

/// The state after the decision about missing watchers.
pub open spec fn inject_next(
    config: Config,
    s: StateView,
    pane: Seq<char>,
    missing: Seq<String>,
    consumer: Seq<char>,
    obs: InjectObs,
    stamp: Seq<char>,
    now: Moment,
) -> StateView {
    match inject_outcome(config, s, pane, missing, consumer, obs, now) {
        InjectOutcome::AllClear => watcher_disarmed(s),
        InjectOutcome::NotDue => s,
        InjectOutcome::HeldByRetry => s,
        InjectOutcome::Suppressed => suppression::suppression_recorded(s, stamp),
        InjectOutcome::InterruptCooldown => s,
        InjectOutcome::Armed => watcher_armed(gate_passed(config, s, stamp, now), stamp),
        InjectOutcome::Fired { escalation, capped } => suppression::suppression_cleared(
            inject_booked(watcher_disarmed(gate_passed(config, s, stamp, now)), stamp),
        ),
    }
}

/// What is known before the global interrupt is claimed.
#[derive(Debug, Clone, Copy, PartialEq, Eq, Structural)]
enum Verdict {
    Settled { outcome: InjectOutcome },
    Ready { forced: bool, escalation: Option<EscalationReason>, capped: bool },
}

/// Decides about missing watchers, short of the global interrupt.
fn decide_inject(
    config: &Config,
    state: &State,
    pane: &str,
    missing: &Vec<String>,
    consumer: &str,
    obs: InjectObs,
    now: Moment,
) -> (r: Verdict)
    ensures
        r matches Verdict::Settled { outcome } ==> outcome == inject_outcome(
            *config,
            state@,
            pane@,
            missing@,
            consumer@,
            obs,
            now,
        ) && (outcome is AllClear || outcome is NotDue || outcome is HeldByRetry || outcome
            is Suppressed),
        r matches Verdict::Ready { forced, escalation, capped } ==> {
            &&& forced == (forced_by(*config, state@, now) is Some || consumer_down(
                missing@,
                consumer@,
            ) || down_capped(*config, obs))
            &&& escalation == forced_by(*config, state@, now)
            &&& capped == down_capped(*config, obs)
            &&& inject_outcome(*config, state@, pane@, missing@, consumer@, obs, now) == (
            if !gate_open(*config, state@, now) {
                InjectOutcome::InterruptCooldown
            } else if obligation::watcher_down_decision(
                forced,
                state@.watcher_down_obligation_armed_at,
                config.general.obligation_dwell_secs,
                obs.active_subagents,
                now,
            ) != ObligationDecision::Escalate {
                InjectOutcome::Armed
            } else {
                InjectOutcome::Fired { escalation, capped }
            })
        },
{
    proof {
        reveal(crate::state::state_view);
    }
    if missing.len() == 0 || pane.unicode_len() == 0 {
        return Verdict::Settled { outcome: InjectOutcome::AllClear };
    }
    if !watcher_inject_due_at(
        as_opt_str(&state.last_watcher_inject),
        config.watcher_monitor.inject_cooldown,
        now,
    ) {
        return Verdict::Settled { outcome: InjectOutcome::NotDue };
    }
    if obs.api_retrying {
        return Verdict::Settled { outcome: InjectOutcome::HeldByRetry };
    }
    let consumer_is_down = consumer_watcher_missing(missing.as_slice(), consumer);
    let at_work = watcher_down_actively_turning_at(
        state,
        obs.bashes,
        config.watcher_monitor.suppress_inject_when_active,
        config.watcher_monitor.active_window_secs,
        consumer_is_down,
        state.wedged_consecutive > 0,
        now,
    );
    let escalation = should_escalate_suppression_at(
        state,
        config.suppression.max_consecutive_suppressions,
        config.suppression.max_suppression_window_secs,
        now,
    );
    let capped = watcher_down_suppression_capped(
        obs.max_down_secs,
        config.watcher_monitor.max_suppress_secs,
    );
    if at_work && escalation.is_none() && !capped {
        return Verdict::Settled { outcome: InjectOutcome::Suppressed };
    }
    Verdict::Ready {
        forced: escalation.is_some() || consumer_is_down || capped,
        escalation,
        capped,
    }
}

/// Claims the global interrupt, where the inject needs a claim. Says whether it may pass.
fn pass_gate(config: &Config, state: &mut State, stamp: &str, now: Moment) -> (r: bool)
    ensures
        r == gate_open(*config, old(state)@, now),
        final(state)@ == gate_passed(*config, old(state)@, stamp@, now),
{
    if config.general.global_cooldown_exempt_watcher_down {
        return true;
    }
    try_claim_global_interrupt_at(
        state,
        config.general.post_interrupt_cooldown_secs,
        config.general.global_cooldown_backoff_base,
        config.general.global_cooldown_max_secs,
        stamp,
        now,
    )
}

/// Whether the obligation has been held for long enough.
fn obligation_due(config: &Config, state: &State, forced: bool, active_subagents: u32, now: Moment) -> (r:
    bool)
    ensures
        r == (obligation::watcher_down_decision(
            forced,
            state@.watcher_down_obligation_armed_at,
            config.general.obligation_dwell_secs,
            active_subagents,
            now,
        ) == ObligationDecision::Escalate),
{
    proof {
        reveal(crate::state::state_view);
    }
    match watcher_down_obligation_decision_at(
        forced,
        as_opt_str(&state.watcher_down_obligation_armed_at),
        config.general.obligation_dwell_secs,
        active_subagents,
        now,
    ) {
        ObligationDecision::Escalate => true,
        _ => false,
    }
}

/// Arms the obligation, unless it is armed.
fn arm_watchers(state: &mut State, stamp: &str)
    ensures
        final(state)@ == watcher_armed(old(state)@, stamp@),
{
    proof {
        reveal(crate::state::state_view);
    }
    if state.watcher_down_obligation_armed_at.is_none() {
        state.watcher_down_obligation_armed_at = Some(stamp.to_owned());
    }
}

/// Disarms the obligation.
fn disarm_watchers(state: &mut State)
    ensures
        final(state)@ == watcher_disarmed(old(state)@),
{
    proof {
        reveal(crate::state::state_view);
    }
    state.watcher_down_obligation_armed_at = None;
}

/// Books an inject.
fn book_inject(state: &mut State, stamp: &str)
    requires
        old(state)@.watcher_inject_count < u64::MAX,
    ensures
        final(state)@ == inject_booked(old(state)@, stamp@),
{
    proof {
        reveal(crate::state::state_view);
    }
    state.last_watcher_inject = Some(stamp.to_owned());
    state.last_interrupt_at = Some(stamp.to_owned());
    state.watcher_inject_count = state.watcher_inject_count + 1;
    state.watcher_down_interrupts_total = state.watcher_down_interrupts_total.saturating_add(1);
}

/// Decides what comes of the missing watchers. `consumer` names the watcher that reads the
/// events.
pub fn watcher_inject_step(
    config: &Config,
    state: &mut State,
    pane: &str,
    missing: &Vec<String>,
    consumer: &str,
    obs: InjectObs,
    stamp: &str,
    now: Moment,
) -> (r: InjectOutcome)
    requires
        old(state)@.watcher_inject_count < u64::MAX,
    ensures
        r == inject_outcome(*config, old(state)@, pane@, missing@, consumer@, obs, now),
        final(state)@ == inject_next(
            *config,
            old(state)@,
            pane@,
            missing@,
            consumer@,
            obs,
            stamp@,
            now,
        ),
{
    match decide_inject(config, state, pane, missing, consumer, obs, now) {
        Verdict::Settled { outcome } => {
            match outcome {
                InjectOutcome::AllClear => disarm_watchers(state),
                InjectOutcome::Suppressed => record_suppression(state, stamp),
                _ => {},
            }
            outcome
        },
        Verdict::Ready { forced, escalation, capped } => {
            if !pass_gate(config, state, stamp, now) {
                return InjectOutcome::InterruptCooldown;
            }
            if !obligation_due(config, state, forced, obs.active_subagents, now) {
                arm_watchers(state, stamp);
                return InjectOutcome::Armed;
            }
            disarm_watchers(state);
            book_inject(state, stamp);
            reset_suppression(state);
            InjectOutcome::Fired { escalation, capped }
        },
    }
}

/// The names, each behind `prefix`, with commas between them.
pub open spec fn listed(prefix: Seq<char>, names: Seq<String>) -> Seq<char>
    decreases names.len(),
{
    if names.len() == 0 {
        Seq::empty()
    } else if names.len() == 1 {
        prefix + names[0]@
    } else {
        listed(prefix, names.drop_last()) + ", "@ + prefix + names.last()@
    }
}

/// Lists names, each behind `prefix`, with commas between them.
pub fn list_names(prefix: &str, names: &Vec<String>) -> (r: String)
    ensures
        r@ == listed(prefix@, names@),
{
    if names.len() == 0 {
        proof {
            reveal_strlit("");
            assert(""@ =~= Seq::<char>::empty());
        }
        return "".to_owned();
    }
    let mut out = prefix.to_owned().concat(names[0].as_str());
    let mut i: usize = 1;
    proof {
        assert(names@.take(1)[0] == names@[0]);
    }
    while i < names.len()
        invariant
            1 <= i <= names@.len(),
            out@ == listed(prefix@, names@.take(i as int)),
        decreases names@.len() - i,
    {
        proof {
            let longer = names@.take(i + 1);
            assert(longer.drop_last() =~= names@.take(i as int));
            assert(longer.last() == names@[i as int]);
        }
        out = out.concat(", ").concat(prefix).concat(names[i].as_str());
        i = i + 1;
    }
    assert(names@.take(names@.len() as int) =~= names@);
    out
}

/// Why an inject fires.
pub open spec fn reason_text(missing: Seq<String>) -> Seq<char> {
    text::decimal(missing.len()) + " watcher(s) missing: "@ + listed(Seq::empty(), missing)
}

/// The names alone.
fn bare_list(names: &Vec<String>) -> (r: String)
    ensures
        r@ == listed(Seq::empty(), names@),
{
    proof {
        reveal_strlit("");
        assert(""@ =~= Seq::<char>::empty());
    }
    list_names("", names)
}

/// Writes why an inject fires.
pub fn watcher_down_reason(missing: &Vec<String>) -> (r: String)
    ensures
        r@ == reason_text(missing@),
{
    let list = bare_list(missing);
    decimal_text(missing.len() as u64).concat(" watcher(s) missing: ").concat(list.as_str())
}

/// The note of an inject that is put off.
pub open spec fn suppressed_text(names: NamesConfig, missing: Seq<String>) -> Seq<char> {
    "["@ + names.tag@ + "] watcher-down (inject suppressed: main loop active): "@ + listed(
        Seq::empty(),
        missing,
    )
}

/// Writes the note of an inject that is put off.
pub fn watcher_suppressed_message(names: &NamesConfig, missing: &Vec<String>) -> (r: String)
    ensures
        r@ == suppressed_text(*names, missing@),
{
    let list = bare_list(missing);
    "[".to_owned().concat(names.tag.as_str()).concat(
        "] watcher-down (inject suppressed: main loop active): ",
    ).concat(list.as_str())
}

/// The demand that an armed obligation carries.
pub open spec fn demand_text(names: NamesConfig, missing: Seq<String>) -> Seq<char> {
    "["@ + names.tag@ + "] WATCHER(S) DOWN: "@ + listed(Seq::empty(), missing)
        + ". Restart them with: "@ + listed("watcher-ctl run "@, missing)
}

/// Writes the demand that an armed obligation carries.
pub fn watcher_obligation_message(names: &NamesConfig, missing: &Vec<String>) -> (r: String)
    ensures
        r@ == demand_text(*names, missing@),
{
    let list = bare_list(missing);
    let commands = list_names("watcher-ctl run ", missing);
    "[".to_owned().concat(names.tag.as_str()).concat("] WATCHER(S) DOWN: ").concat(list.as_str()).concat(
        ". Restart them with: ",
    ).concat(commands.as_str())
}

/// The inject itself.
pub open spec fn restart_text(names: NamesConfig, missing: Seq<String>) -> Seq<char> {
    "["@ + names.tag@ + "] WATCHER(S) DOWN: "@ + listed(Seq::empty(), missing)
        + ". You MUST restart them NOW. Run these as background tasks immediately: "@ + listed(
        "watcher-ctl run "@,
        missing,
    )
}

/// Writes the inject itself.
pub fn watcher_restart_prompt(names: &NamesConfig, missing: &Vec<String>) -> (r: String)
    ensures
        r@ == restart_text(*names, missing@),
{
    let list = bare_list(missing);
    let commands = list_names("watcher-ctl run ", missing);
    "[".to_owned().concat(names.tag.as_str()).concat("] WATCHER(S) DOWN: ").concat(list.as_str()).concat(
        ". You MUST restart them NOW. Run these as background tasks immediately: ",
    ).concat(commands.as_str())
}

/// A session at work cannot put the inject off for ever: once the run of suppressions is
/// capped, or a watcher has been down for too long, nothing is put off any more.
pub proof fn suppression_is_bounded(
    config: Config,
    s: StateView,
    pane: Seq<char>,
    missing: Seq<String>,
    consumer: Seq<char>,
    obs: InjectObs,
    now: Moment,
)
    requires
        forced_by(config, s, now) is Some || down_capped(config, obs),
    ensures
        inject_outcome(config, s, pane, missing, consumer, obs, now) != InjectOutcome::Suppressed,
        inject_outcome(config, s, pane, missing, consumer, obs, now) != InjectOutcome::Armed,
{
}

/// The event consumer's absence is never put off and never left to an obligation: where the
/// cooldowns allow it and the session retries nothing, it fires at once.
pub proof fn consumer_absence_fires_at_once(
    config: Config,
    s: StateView,
    pane: Seq<char>,
    missing: Seq<String>,
    consumer: Seq<char>,
    obs: InjectObs,
    now: Moment,
)
    requires
        consumer_down(missing, consumer),
        pane.len() > 0,
        watchers::inject_due(
            s.last_watcher_inject,
            config.watcher_monitor.inject_cooldown,
            now,
        ),
        !obs.api_retrying,
        gate_open(config, s, now),
    ensures
        inject_outcome(config, s, pane, missing, consumer, obs, now) is Fired,
{
    assert(missing.len() > 0);
}

/// An inject ends the run of suppressions, and starts the cooldown.
pub proof fn inject_starts_its_cooldown(
    config: Config,
    s: StateView,
    pane: Seq<char>,
    missing: Seq<String>,
    consumer: Seq<char>,
    obs: InjectObs,
    stamp: Seq<char>,
    now: Moment,
    later_pane: Seq<char>,
    later_missing: Seq<String>,
    later_obs: InjectObs,
    later: Moment,
)
    requires
        inject_outcome(config, s, pane, missing, consumer, obs, now) is Fired,
        time::elapsed_under(Some(stamp), later, config.watcher_monitor.inject_cooldown as int),
    ensures
        ({
            let n = inject_next(config, s, pane, missing, consumer, obs, stamp, now);
            &&& n.consecutive_suppressions == 0
            &&& !(inject_outcome(
                config,
                n,
                later_pane,
                later_missing,
                consumer,
                later_obs,
                later,
            ) is Fired)
        }),
{
}

/// When no watcher is missing any more, the obligation is gone.
pub proof fn recovery_disarms(
    config: Config,
    s: StateView,
    pane: Seq<char>,
    consumer: Seq<char>,
    obs: InjectObs,
    stamp: Seq<char>,
    now: Moment,
)
    ensures
        inject_next(
            config,
            s,
            pane,
            Seq::empty(),
            consumer,
            obs,
            stamp,
            now,
        ).watcher_down_obligation_armed_at is None,
{
}

/// What comes of missing watchers, in the order in which its reasons count: whether any is
/// missing, the last inject, a retry, work that puts the inject off, the global interrupt, and
/// the obligation, which the event consumer's absence, an overlong run of suppressions and an
/// overlong down time pass by.
pub proof fn inject_reasons_count_in_their_order(
    config: Config,
    s: StateView,
    pane: Seq<char>,
    missing: Seq<String>,
    consumer: Seq<char>,
    obs: InjectObs,
    now: Moment,
)
    ensures
        ({
            let outcome = inject_outcome(config, s, pane, missing, consumer, obs, now);
            let w = config.watcher_monitor;
            let down = missing.len() > 0 && pane.len() > 0;
            let recent = time::elapsed_under(
                s.last_watcher_inject,
                now,
                w.inject_cooldown as int,
            );
            let consumer_gone = consumer.len() > 0 && exists|i: int|
                0 <= i < missing.len() && (#[trigger] missing[i])@ == consumer;
            let active = obs.bashes > 0 || time::elapsed_under(
                s.last_active_at,
                now,
                w.active_window_secs as int,
            );
            let runs = s.consecutive_suppressions;
            let cap = config.suppression.max_consecutive_suppressions;
            let bound = config.suppression.max_suppression_window_secs;
            let forced = runs > 0 && ((cap > 0 && runs >= cap) || (bound > 0 && time::elapsed_over(
                s.first_suppression_at,
                now,
                bound as int,
            )));
            let capped = w.max_suppress_secs > 0 && obs.max_down_secs is Some
                && obs.max_down_secs->0 >= w.max_suppress_secs;
            let put_off = w.suppress_inject_when_active && active && !consumer_gone
                && s.wedged_consecutive == 0 && !forced && !capped;
            let passes = config.general.global_cooldown_exempt_watcher_down
                || interrupts::claim_granted(
                s,
                config.general.post_interrupt_cooldown_secs,
                config.general.global_cooldown_backoff_base,
                config.general.global_cooldown_max_secs,
                now,
            );
            let dwell = config.general.obligation_dwell_secs;
            let ripe = forced || capped || consumer_gone || dwell == 0 || (obs.active_subagents == 0
                && time::elapsed_at_least(s.watcher_down_obligation_armed_at, now, dwell as int));
            let due = down && !recent && !obs.api_retrying;
            &&& outcome == InjectOutcome::AllClear <==> !down
            &&& outcome == InjectOutcome::NotDue <==> down && recent
            &&& outcome == InjectOutcome::HeldByRetry <==> down && !recent && obs.api_retrying
            &&& outcome == InjectOutcome::Suppressed <==> due && put_off
            &&& outcome == InjectOutcome::InterruptCooldown <==> due && !put_off && !passes
            &&& outcome == InjectOutcome::Armed <==> due && !put_off && passes && !ripe
            &&& outcome is Fired <==> due && !put_off && passes && ripe
            &&& outcome matches InjectOutcome::Fired { escalation, capped: c } ==> (c <==> capped)
                && (escalation is Some <==> forced)
        }),
{
}

/// What the decision leaves behind: an inject leaves its stamps and counts and ends the
/// obligation and the run of suppressions; an inject that is put off is counted in that run; an
/// obligation keeps its first stamp; what is not due, or held back, changes nothing.
pub proof fn inject_decision_is_on_record(
    config: Config,
    s: StateView,
    pane: Seq<char>,
    missing: Seq<String>,
    consumer: Seq<char>,
    obs: InjectObs,
    stamp: Seq<char>,
    now: Moment,
)
    requires
        s.watcher_inject_count < u64::MAX,
        s.watcher_down_interrupts_total < u64::MAX,
        s.consecutive_suppressions < u32::MAX,
    ensures
        ({
            let outcome = inject_outcome(config, s, pane, missing, consumer, obs, now);
            let n = inject_next(config, s, pane, missing, consumer, obs, stamp, now);
            &&& outcome == InjectOutcome::NotDue || outcome == InjectOutcome::HeldByRetry || outcome
                == InjectOutcome::InterruptCooldown ==> n == s
            &&& outcome == InjectOutcome::AllClear ==> n.watcher_down_obligation_armed_at is None
                && n.consecutive_suppressions == s.consecutive_suppressions
            &&& outcome == InjectOutcome::Suppressed ==> n.consecutive_suppressions
                == s.consecutive_suppressions + 1 && (s.consecutive_suppressions == 0
                ==> n.first_suppression_at == Some(stamp)) && (s.consecutive_suppressions > 0
                ==> n.first_suppression_at == s.first_suppression_at)
                && n.watcher_down_obligation_armed_at == s.watcher_down_obligation_armed_at
            &&& outcome == InjectOutcome::Armed ==> n.watcher_down_obligation_armed_at == (
            if s.watcher_down_obligation_armed_at is Some {
                s.watcher_down_obligation_armed_at
            } else {
                Some(stamp)
            }) && n.consecutive_suppressions == s.consecutive_suppressions
            &&& outcome == InjectOutcome::Armed
                && !config.general.global_cooldown_exempt_watcher_down ==> n.last_interrupt_at
                == Some(stamp)
            &&& outcome == InjectOutcome::Armed
                && config.general.global_cooldown_exempt_watcher_down ==> n.last_interrupt_at
                == s.last_interrupt_at
            &&& outcome is Fired ==> n.last_watcher_inject == Some(stamp) && n.last_interrupt_at
                == Some(stamp) && n.watcher_inject_count == s.watcher_inject_count + 1
                && n.watcher_down_interrupts_total == s.watcher_down_interrupts_total + 1
                && n.watcher_down_obligation_armed_at is None && n.consecutive_suppressions == 0
                && n.first_suppression_at is None
            &&& !(outcome is Fired) ==> n.last_watcher_inject == s.last_watcher_inject
                && n.watcher_inject_count == s.watcher_inject_count
                && n.watcher_down_interrupts_total == s.watcher_down_interrupts_total
        }),
{
}

/// A list of names grows at its end, by a comma, a space, the prefix and the name; without
/// names it is empty, and one name stands alone.
pub proof fn names_are_listed_in_order(prefix: Seq<char>, names: Seq<String>, name: String)
    ensures
        listed(prefix, Seq::empty()) == Seq::<char>::empty(),
        listed(prefix, seq![name]) == prefix + name@,
        names.len() > 0 ==> listed(prefix, names.push(name)) == listed(prefix, names) + ", "@
            + prefix + name@,
{
    assert(names.push(name).drop_last() =~= names);
}

} // verus!
