//! The context threshold: when the session is told to clear, and when it is cleared.
use crate::config::{Config, NamesConfig};
use crate::context;
use crate::context::{
    check_context_threshold_with_margin, maybe_reset_context_clear, ContextResetOutcome,
};
use crate::interrupts;
use crate::interrupts::try_claim_global_interrupt_at;
use crate::obligation;
use crate::obligation::{
    context_escalation_decision_at, context_hook_defer_allowed_at, ObligationDecision,
};
use crate::state::{State, StateView};
use crate::text;
use crate::text::decimal_text;
use crate::time;
use crate::time::{as_opt_str, stamp_under, Moment};
use vstd::prelude::*;
use vstd::string::StringExecFns;

verus! {

/// The state after a reading of the context's size.
pub open spec fn reading_noted(
    config: Config,
    s: StateView,
    context_tokens: u64,
    stamp: Seq<char>,
    since_reminder_ms: Option<i128>,
) -> StateView {
    if config.context_monitor.enabled {
        StateView {
            last_seen_tokens: Some(context_tokens),
            ..context::reset_next(s, context_tokens, stamp, since_reminder_ms)
        }
    } else {
        s
    }
}

/// Remembers a reading for the next comparison.
fn remember_tokens(state: &mut State, context_tokens: u64)
    ensures
        final(state)@ == (StateView { last_seen_tokens: Some(context_tokens), ..old(state)@ }),
{
    proof {
        reveal(crate::state::state_view);
    }
    state.last_seen_tokens = Some(context_tokens);
}

/// Takes note of a reading of the context's size: whether the context was reset since the
/// last one. Nothing is noted where the context is not monitored.
pub fn note_context_tokens(
    config: &Config,
    state: &mut State,
    context_tokens: u64,
    stamp: &str,
    since_reminder_ms: Option<i128>,
) -> (r: Option<ContextResetOutcome>)
    ensures
        config.context_monitor.enabled ==> r == Some(
            context::reset_outcome(old(state)@, context_tokens),
        ),
        !config.context_monitor.enabled ==> r is None,
        final(state)@ == reading_noted(
            *config,
            old(state)@,
            context_tokens,
            stamp@,
            since_reminder_ms,
        ),
{
    if !config.context_monitor.enabled {
        return None;
    }
    let outcome = maybe_reset_context_clear(state, context_tokens, stamp, since_reminder_ms);
    remember_tokens(state, context_tokens);
    Some(outcome)
}

/// What is seen of the session when its context is checked.
#[derive(Debug, Clone, Copy, PartialEq, Eq, Structural)]
pub struct ContextObs {
    /// The token reading.
    pub tokens: u64,
    /// Percentage that remains until the session compacts by itself.
    pub compact_remaining: Option<u32>,
    /// The session retries a request.
    pub api_retrying: bool,
    /// A hook reminded the session within the grace period.
    pub hook_recent: bool,
    /// Subagents that are alive.
    pub active_subagents: u32,
}

/// What came of a check of the context.
#[derive(Debug, Clone, Copy, PartialEq, Eq, Structural)]
pub enum ContextOutcome {
    /// The context is not monitored, or there is no reading.
    Off,
    /// The threshold is not reached.
    Below,
    /// It is, but a clear is under way.
    AlreadyTriggered,
    /// It is, but the last clear is too recent.
    CoolingDown,
    /// It is, but the session retries a request.
    HeldByRetry,
    /// It is, but a hook reminded the session a moment ago.
    LeftToHook,
    /// An obligation is armed, or stays armed.
    Armed,
    /// A clear is due, but another interrupt fired a moment ago.
    InterruptCooldown,
    /// The session is cleared.
    Fired,
}

/// The threshold is reached.
pub open spec fn over_threshold(config: Config, tokens: u64) -> bool {
    context::in_danger_zone(
        tokens,
        config.claude.max_context_tokens,
        config.context_monitor.threshold_percent,
        config.context_monitor.threshold_margin,
    )
}

/// When the threshold was first seen to be reached, once it is.
pub open spec fn crossing(s: StateView, stamp: Seq<char>) -> Seq<char> {
    match s.context_threshold_first_seen_at {
        Some(first) => first,
        None => stamp,
    }
}

/// The threshold is left to a hook.
pub open spec fn left_to_hook(
    config: Config,
    s: StateView,
    hook_recent: bool,
    stamp: Seq<char>,
    now: Moment,
) -> bool {
    config.hybrid.enabled && hook_recent && obligation::defer_allowed(
        Some(crossing(s, stamp)),
        config.hybrid.context_fallback_max_secs,
        now,
    )
}

/// A claim on the global interrupt is granted.
pub open spec fn clear_claim(config: Config, s: StateView, now: Moment) -> bool {
    interrupts::claim_granted(
        s,
        config.general.post_interrupt_cooldown_secs,
        config.general.global_cooldown_backoff_base,
        config.general.global_cooldown_max_secs,
        now,
    )
}

/// What a check comes to, short of the claim on the global interrupt.
pub open spec fn context_gate(
    config: Config,
    s: StateView,
    obs: ContextObs,
    stamp: Seq<char>,
    now: Moment,
) -> ContextOutcome {
    if !config.context_monitor.enabled || obs.tokens == 0 {
        ContextOutcome::Off
    } else if !over_threshold(config, obs.tokens) {
        ContextOutcome::Below
    } else if s.context_clear_triggered {
        ContextOutcome::AlreadyTriggered
    } else if time::elapsed_under(
        s.last_context_clear,
        now,
        config.context_monitor.cooldown as int,
    ) {
        ContextOutcome::CoolingDown
    } else if obs.api_retrying {
        ContextOutcome::HeldByRetry
    } else if left_to_hook(config, s, obs.hook_recent, stamp, now) {
        ContextOutcome::LeftToHook
    } else if obligation::context_decision(
        s.context_obligation_armed_at,
        config.general.obligation_dwell_secs,
        obs.active_subagents,
        config.context_monitor.max_armed_secs,
        now,
    ) != ObligationDecision::Escalate {
        ContextOutcome::Armed
    } else {
        ContextOutcome::Fired
    }
}

/// What comes of a check of the context.
pub open spec fn context_outcome(
    config: Config,
    s: StateView,
    obs: ContextObs,
    stamp: Seq<char>,
    now: Moment,
) -> ContextOutcome {
    let gate = context_gate(config, s, obs, stamp, now);
    if gate == ContextOutcome::Fired && !clear_claim(config, s, now) {
        ContextOutcome::InterruptCooldown
    } else {
        gate
    }
}

/// The state once the threshold was seen to be reached.
pub open spec fn crossing_noted(s: StateView, stamp: Seq<char>) -> StateView {
    StateView { context_threshold_first_seen_at: Some(crossing(s, stamp)), ..s }
}

/// The state once the obligation is armed.
pub open spec fn context_armed(s: StateView, stamp: Seq<char>) -> StateView {
    StateView {
        context_obligation_armed_at: match s.context_obligation_armed_at {
            Some(at) => Some(at),
            None => Some(stamp),
        },
        ..s
    }
}

/// The state once a clear is on its way.
pub open spec fn clear_fired(s: StateView, stamp: Seq<char>) -> StateView {
    StateView {
        context_obligation_armed_at: None,
        context_clear_triggered: true,
        last_context_clear: Some(stamp),
        fallback_clear_count: s.fallback_clear_count.saturating_add(1),
        context_warning_interrupts_total: s.context_warning_interrupts_total.saturating_add(1),
        ..s
    }
}

/// The state after a check of the context.
pub open spec fn context_next(
    config: Config,
    s: StateView,
    obs: ContextObs,
    stamp: Seq<char>,
    now: Moment,
) -> StateView {
    match context_outcome(config, s, obs, stamp, now) {
        ContextOutcome::Off => s,
        ContextOutcome::Below => s,
        ContextOutcome::AlreadyTriggered => s,
        ContextOutcome::CoolingDown => s,
        ContextOutcome::Armed => context_armed(crossing_noted(s, stamp), stamp),
        ContextOutcome::Fired => clear_fired(
            interrupts::claim_next(
                crossing_noted(s, stamp),
                config.general.post_interrupt_cooldown_secs,
                config.general.global_cooldown_backoff_base,
                config.general.global_cooldown_max_secs,
                now,
                stamp,
            ),
            stamp,
        ),
        _ => crossing_noted(s, stamp),
    }
}

/// Decides about the context, short of the claim on the global interrupt.
fn decide_context(config: &Config, state: &State, obs: ContextObs, stamp: &str, now: Moment) -> (r:
    ContextOutcome)
    ensures
        r == context_gate(*config, state@, obs, stamp@, now),
{
    proof {
        reveal(crate::state::state_view);
    }
    if !config.context_monitor.enabled || obs.tokens == 0 {
        return ContextOutcome::Off;
    }
    let reading = check_context_threshold_with_margin(
        obs.tokens,
        config.claude.max_context_tokens,
        obs.compact_remaining,
        config.context_monitor.threshold_percent,
        config.context_monitor.compact_trigger_percent,
        config.context_monitor.threshold_margin,
    );
    if reading.is_none() {
        return ContextOutcome::Below;
    }
    if state.context_clear_triggered {
        return ContextOutcome::AlreadyTriggered;
    }
    if stamp_under(
        as_opt_str(&state.last_context_clear),
        now,
        config.context_monitor.cooldown,
    ) {
        return ContextOutcome::CoolingDown;
    }
    if obs.api_retrying {
        return ContextOutcome::HeldByRetry;
    }
    let first_seen = match as_opt_str(&state.context_threshold_first_seen_at) {
        Some(first) => first,
        None => stamp,
    };
    if config.hybrid.enabled && obs.hook_recent && context_hook_defer_allowed_at(
        Some(first_seen),
        config.hybrid.context_fallback_max_secs,
        now,
    ) {
        return ContextOutcome::LeftToHook;
    }
    match context_escalation_decision_at(
        as_opt_str(&state.context_obligation_armed_at),
        config.general.obligation_dwell_secs,
        obs.active_subagents,
        config.context_monitor.max_armed_secs,
        now,
    ) {
        ObligationDecision::Escalate => ContextOutcome::Fired,
        _ => ContextOutcome::Armed,
    }
}

/// Stamps the first sight of the threshold being reached.
fn note_crossing(state: &mut State, stamp: &str)
    ensures
        final(state)@ == crossing_noted(old(state)@, stamp@),
{
    proof {
        reveal(crate::state::state_view);
    }
    if state.context_threshold_first_seen_at.is_none() {
        state.context_threshold_first_seen_at = Some(stamp.to_owned());
    }
}

/// Arms the obligation, unless it is armed.
fn arm_context(state: &mut State, stamp: &str)
    ensures
        final(state)@ == context_armed(old(state)@, stamp@),
{
    proof {
        reveal(crate::state::state_view);
    }
    if state.context_obligation_armed_at.is_none() {
        state.context_obligation_armed_at = Some(stamp.to_owned());
    }
}

/// Books a clear.
fn book_clear(state: &mut State, stamp: &str)
    ensures
        final(state)@ == clear_fired(old(state)@, stamp@),
{
    proof {
        reveal(crate::state::state_view);
    }
    state.context_obligation_armed_at = None;
    state.context_clear_triggered = true;
    state.last_context_clear = Some(stamp.to_owned());
    state.fallback_clear_count = state.fallback_clear_count.saturating_add(1);
    state.context_warning_interrupts_total =
    state.context_warning_interrupts_total.saturating_add(1);
}

/// Claims the global interrupt for a clear.
fn claim_clear(config: &Config, state: &mut State, stamp: &str, now: Moment) -> (r: bool)
    ensures
        r == clear_claim(*config, old(state)@, now),
        final(state)@ == interrupts::claim_next(
            old(state)@,
            config.general.post_interrupt_cooldown_secs,
            config.general.global_cooldown_backoff_base,
            config.general.global_cooldown_max_secs,
            now,
            stamp@,
        ),
{
    try_claim_global_interrupt_at(
        state,
        config.general.post_interrupt_cooldown_secs,
        config.general.global_cooldown_backoff_base,
        config.general.global_cooldown_max_secs,
        stamp,
        now,
    )
}

/// Checks the context, and decides whether the session is told to clear or is cleared.
pub fn context_monitor_step(
    config: &Config,
    state: &mut State,
    obs: ContextObs,
    stamp: &str,
    now: Moment,
) -> (r: ContextOutcome)
    ensures
        r == context_outcome(*config, old(state)@, obs, stamp@, now),
        final(state)@ == context_next(*config, old(state)@, obs, stamp@, now),
{
    let gate = decide_context(config, state, obs, stamp, now);
    match gate {
        ContextOutcome::Armed => {
            note_crossing(state, stamp);
            arm_context(state, stamp);
            gate
        },
        ContextOutcome::Fired => {
            note_crossing(state, stamp);
            if claim_clear(config, state, stamp, now) {
                book_clear(state, stamp);
                gate
            } else {
                ContextOutcome::InterruptCooldown
            }
        },
        ContextOutcome::HeldByRetry => {
            note_crossing(state, stamp);
            gate
        },
        ContextOutcome::LeftToHook => {
            note_crossing(state, stamp);
            gate
        },
        _ => gate,
    }
}

/// The demand to clear that an armed obligation carries. `pct` is the usage in percent.
pub open spec fn context_demand(names: NamesConfig, pct: Seq<char>, max_armed_secs: u64) -> Seq<char> {
    "["@ + names.tag@ + "] Context at "@ + pct
        + "% — SELF-CLEAR NOW. Run: (1) `session-task set '<state to resume>'`, (2) commit + push in-flight repo work, (3) `self-clear`. Auto-clear will be forced in "@
        + text::decimal(max_armed_secs as nat) + "s if you don't act."@
}

/// Writes the demand to clear.
pub fn context_obligation_message(names: &NamesConfig, pct: &str, max_armed_secs: u64) -> (r: String)
    ensures
        r@ == context_demand(*names, pct@, max_armed_secs),
{
    let secs = decimal_text(max_armed_secs);
    "[".to_owned().concat(names.tag.as_str()).concat("] Context at ").concat(pct).concat(
        "% — SELF-CLEAR NOW. Run: (1) `session-task set '<state to resume>'`, (2) commit + push in-flight repo work, (3) `self-clear`. Auto-clear will be forced in ",
    ).concat(secs.as_str()).concat("s if you don't act.")
}

/// The last warning before a clear.
pub open spec fn context_warning(
    names: NamesConfig,
    pct: Seq<char>,
    compact_remaining: Option<u32>,
    grace: u64,
) -> Seq<char> {
    "["@ + names.tag@ + "] CONTEXT CRITICALLY LOW ("@ + (match compact_remaining {
        Some(left) => text::decimal(left as nat) + "% compact remaining"@,
        None => pct + "% token usage"@,
    })
        + "). You MUST act IMMEDIATELY: (1) session-task set '<state>', (2) commit/push repos, (3) self-clear. Forced clear in "@
        + text::decimal(grace as nat) + "s if you don't act."@
}

/// Writes the last warning before a clear.
pub fn inject_context_warning(
    names: &NamesConfig,
    pct: &str,
    compact_remaining: Option<u32>,
    grace: u64,
) -> (r: String)
    ensures
        r@ == context_warning(*names, pct@, compact_remaining, grace),
{
    let info = match compact_remaining {
        Some(left) => decimal_text(left as u64).concat("% compact remaining"),
        None => pct.to_owned().concat("% token usage"),
    };
    let secs = decimal_text(grace);
    "[".to_owned().concat(names.tag.as_str()).concat("] CONTEXT CRITICALLY LOW (").concat(info.as_str()).concat(
        "). You MUST act IMMEDIATELY: (1) session-task set '<state>', (2) commit/push repos, (3) self-clear. Forced clear in ",
    ).concat(secs.as_str()).concat("s if you don't act.")
}

/// A clear fires only over the threshold, with no other clear under way, while the session
/// retries nothing, and never straight away where an obligation has to be armed first.
pub proof fn clear_fires_only_when_due(
    config: Config,
    s: StateView,
    obs: ContextObs,
    stamp: Seq<char>,
    now: Moment,
)
    requires
        context_outcome(config, s, obs, stamp, now) == ContextOutcome::Fired,
    ensures
        over_threshold(config, obs.tokens),
        !s.context_clear_triggered,
        !obs.api_retrying,
        clear_claim(config, s, now),
        config.general.obligation_dwell_secs > 0 ==> s.context_obligation_armed_at is Some,
{
}

/// A clear fires once: until the context is reset, no second one does.
pub proof fn clear_fires_once(
    config: Config,
    s: StateView,
    obs: ContextObs,
    stamp: Seq<char>,
    now: Moment,
    later: ContextObs,
    later_stamp: Seq<char>,
    later_now: Moment,
)
    requires
        context_outcome(config, s, obs, stamp, now) == ContextOutcome::Fired,
    ensures
        ({
            let n = context_next(config, s, obs, stamp, now);
            &&& context_outcome(config, n, later, later_stamp, later_now) != ContextOutcome::Fired
            &&& context_next(config, n, later, later_stamp, later_now) == n
        }),
{
}

/// A session that ignores the demand is cleared in the end: with a bound on how long the
/// obligation is held, subagents at work do not put it off past that bound.
pub proof fn held_obligation_fires_in_the_end(
    config: Config,
    s: StateView,
    obs: ContextObs,
    stamp: Seq<char>,
    now: Moment,
)
    requires
        config.context_monitor.enabled,
        obs.tokens > 0,
        over_threshold(config, obs.tokens),
        !s.context_clear_triggered,
        !time::elapsed_under(s.last_context_clear, now, config.context_monitor.cooldown as int),
        !obs.api_retrying,
        !left_to_hook(config, s, obs.hook_recent, stamp, now),
        config.context_monitor.max_armed_secs > 0,
        time::elapsed_at_least(
            s.context_obligation_armed_at,
            now,
            config.context_monitor.max_armed_secs as int,
        ),
        clear_claim(config, s, now),
    ensures
        context_outcome(config, s, obs, stamp, now) == ContextOutcome::Fired,
{
}

/// The threshold is not left to a hook for ever: past the bound, from its first sight, a
/// reminder no longer holds the daemon back.
pub proof fn hook_deferral_is_bounded(
    config: Config,
    s: StateView,
    obs: ContextObs,
    stamp: Seq<char>,
    now: Moment,
)
    requires
        config.hybrid.context_fallback_max_secs > 0,
        time::elapsed_at_least(
            s.context_threshold_first_seen_at,
            now,
            config.hybrid.context_fallback_max_secs as int,
        ),
    ensures
        context_outcome(config, s, obs, stamp, now) != ContextOutcome::LeftToHook,
{
}

/// What a check of the context comes to, in the order in which its reasons count: the monitor
/// and the reading, the threshold, a clear under way, the cooldown, a retry, the hook, the
/// obligation and the claim on the global interrupt.
pub proof fn context_reasons_count_in_their_order(
    config: Config,
    s: StateView,
    obs: ContextObs,
    stamp: Seq<char>,
    now: Moment,
)
    ensures
        ({
            let outcome = context_outcome(config, s, obs, stamp, now);
            let max = config.claude.max_context_tokens;
            let margin = config.context_monitor.threshold_margin;
            let on = config.context_monitor.enabled && obs.tokens > 0;
            let over = if margin is Some {
                margin->0 < max && max <= obs.tokens + margin->0
            } else if max == 0 {
                obs.tokens > 0
            } else {
                obs.tokens * 100 >= config.context_monitor.threshold_percent * max
            };
            let cooling = time::elapsed_under(
                s.last_context_clear,
                now,
                config.context_monitor.cooldown as int,
            );
            let first = if s.context_threshold_first_seen_at is Some {
                s.context_threshold_first_seen_at
            } else {
                Some(stamp)
            };
            let bound = config.hybrid.context_fallback_max_secs;
            let hook = config.hybrid.enabled && obs.hook_recent && (bound == 0
                || !time::elapsed_at_least(first, now, bound as int));
            let dwell = config.general.obligation_dwell_secs;
            let held = config.context_monitor.max_armed_secs;
            let ripe = dwell == 0 || (obs.active_subagents == 0 && time::elapsed_at_least(
                s.context_obligation_armed_at,
                now,
                dwell as int,
            )) || (held > 0 && time::elapsed_at_least(
                s.context_obligation_armed_at,
                now,
                held as int,
            ));
            let free = on && over && !s.context_clear_triggered && !cooling;
            let due = free && !obs.api_retrying && !hook;
            &&& outcome == ContextOutcome::Off <==> !on
            &&& outcome == ContextOutcome::Below <==> on && !over
            &&& outcome == ContextOutcome::AlreadyTriggered <==> on && over
                && s.context_clear_triggered
            &&& outcome == ContextOutcome::CoolingDown <==> on && over && !s.context_clear_triggered
                && cooling
            &&& outcome == ContextOutcome::HeldByRetry <==> free && obs.api_retrying
            &&& outcome == ContextOutcome::LeftToHook <==> free && !obs.api_retrying && hook
            &&& outcome == ContextOutcome::Armed <==> due && !ripe
            &&& outcome == ContextOutcome::InterruptCooldown <==> due && ripe && !clear_claim(
                config,
                s,
                now,
            )
            &&& outcome == ContextOutcome::Fired <==> due && ripe && clear_claim(config, s, now)
        }),
{
}

/// What a check of the context leaves behind: the first sight of the threshold, kept once it
/// is there; the first stamp of an obligation, kept until a clear; and a clear, with its stamp,
/// its counts and its claim.
pub proof fn context_check_is_on_record(
    config: Config,
    s: StateView,
    obs: ContextObs,
    stamp: Seq<char>,
    now: Moment,
)
    ensures
        ({
            let outcome = context_outcome(config, s, obs, stamp, now);
            let n = context_next(config, s, obs, stamp, now);
            let quiet = outcome == ContextOutcome::Off || outcome == ContextOutcome::Below
                || outcome == ContextOutcome::AlreadyTriggered || outcome
                == ContextOutcome::CoolingDown;
            let first = if s.context_threshold_first_seen_at is Some {
                s.context_threshold_first_seen_at
            } else {
                Some(stamp)
            };
            &&& quiet ==> n == s
            &&& !quiet ==> n.context_threshold_first_seen_at == first
            &&& outcome == ContextOutcome::Armed ==> n.context_obligation_armed_at == (
            if s.context_obligation_armed_at is Some {
                s.context_obligation_armed_at
            } else {
                Some(stamp)
            })
            &&& outcome == ContextOutcome::Fired ==> n.context_obligation_armed_at is None
                && n.context_clear_triggered && n.last_context_clear == Some(stamp)
                && n.last_interrupt_at == Some(stamp)
            &&& outcome == ContextOutcome::Fired && s.fallback_clear_count < u64::MAX
                ==> n.fallback_clear_count == s.fallback_clear_count + 1
            &&& outcome == ContextOutcome::Fired && s.context_warning_interrupts_total < u64::MAX
                ==> n.context_warning_interrupts_total == s.context_warning_interrupts_total + 1
            &&& outcome != ContextOutcome::Fired ==> n.context_clear_triggered
                == s.context_clear_triggered && n.last_context_clear == s.last_context_clear
                && n.last_interrupt_at == s.last_interrupt_at && n.fallback_clear_count
                == s.fallback_clear_count && n.context_warning_interrupts_total
                == s.context_warning_interrupts_total
            &&& outcome != ContextOutcome::Fired && outcome != ContextOutcome::Armed
                ==> n.context_obligation_armed_at == s.context_obligation_armed_at
            &&& n.context_clear_child_pid == s.context_clear_child_pid
            &&& n.post_clear_resume_injected_for == s.post_clear_resume_injected_for
        }),
{
}

/// A reading is remembered for the next comparison, and compared with the one before; nothing
/// is noted where the context is not monitored.
pub proof fn reading_is_remembered(
    config: Config,
    s: StateView,
    tokens: u64,
    stamp: Seq<char>,
    since_reminder_ms: Option<i128>,
)
    ensures
        ({
            let n = reading_noted(config, s, tokens, stamp, since_reminder_ms);
            &&& !config.context_monitor.enabled ==> n == s
            &&& config.context_monitor.enabled ==> n.last_seen_tokens == Some(tokens)
            &&& config.context_monitor.enabled && s.context_clear_triggered ==> (
            n.context_clear_triggered <==> context::reset_signal(s.last_seen_tokens, tokens)
                is None)
        }),
{
}

} // verus!
