//! Prolonged thinking, and work that blocks the foreground.
use crate::api_retry;
use crate::api_retry::{update_api_retry_state, ApiRetryOutcome};
use crate::backoff;
use crate::backoff::thinking_backoff_threshold_with_multiplier;
use crate::config::{Config, NamesConfig};
use crate::interrupts;
use crate::interrupts::try_claim_global_interrupt_at;
use crate::obligation;
use crate::obligation::{obligation_escalation_decision_at, ObligationDecision};
use crate::state::{State, StateView};
use crate::text;
use crate::text::decimal_text;
use crate::time;
use crate::time::{as_opt_str, stamp_at_least, Moment};
use crate::tokens;
use crate::tokens::{
    apply_ack_fresh_rearm, apply_thinking_token_progress, thinking_token_progress_action,
    token_reading, ThinkingTokenAction,
};
use vstd::prelude::*;
use vstd::string::StringExecFns;

verus! {

/// What is seen of the session when its foreground is checked.
#[derive(Debug, Clone, Copy, PartialEq, Eq, Structural)]
pub struct ForegroundObs {
    /// Something runs in the foreground.
    pub fg_busy: bool,
    /// The session is thinking.
    pub is_thinking: bool,
    /// A workload heartbeat speaks against the session being stuck.
    pub workload_fresh: bool,
    /// Age of the last event acknowledgement.
    pub ack_age_secs: Option<u64>,
    /// Subagents that are alive.
    pub active_subagents: u32,
}

/// What came of the check for prolonged thinking.
#[derive(Debug, Clone, Copy, PartialEq, Eq, Structural)]
pub enum ThinkingOutcome {
    /// The session is not thinking.
    NotThinking,
    /// A thinking episode begins.
    EpisodeStarted,
    /// It goes on, not yet for too long.
    Accumulating,
    /// It has gone on for too long, but a workload is at work.
    HeldByWorkload,
    /// It has gone on for too long, but the session acknowledges events.
    HeldByAck,
    /// It has gone on for too long: an obligation is armed, or stays armed.
    Armed,
    /// An interrupt is due, but another one fired a moment ago.
    CoolingDown,
    /// An interrupt fires, or would if interrupts were enabled.
    Fired,
}

impl ThinkingOutcome {
    /// The check ends here: the foreground is not looked at this time.
    pub open spec fn ends_check(self) -> bool {
        match self {
            ThinkingOutcome::HeldByWorkload => true,
            ThinkingOutcome::HeldByAck => true,
            ThinkingOutcome::Armed => true,
            ThinkingOutcome::CoolingDown => true,
            _ => false,
        }
    }

    fn stops(self) -> (r: bool)
        ensures
            r == self.ends_check(),
    {
        match self {
            ThinkingOutcome::HeldByWorkload => true,
            ThinkingOutcome::HeldByAck => true,
            ThinkingOutcome::Armed => true,
            ThinkingOutcome::CoolingDown => true,
            _ => false,
        }
    }
}

/// What came of the check for foreground blocking.
#[derive(Debug, Clone, Copy, PartialEq, Eq, Structural)]
pub enum BlockingOutcome {
    /// It was not made.
    NotChecked,
    /// Nothing runs in the foreground.
    Free,
    /// Something has begun to run in the foreground.
    Started,
    /// It still runs: not yet for too long, or it has been alerted.
    Waiting,
    /// It has run for too long: an interrupt fires, or would if enabled.
    Fired,
}

/// What came of a check of the foreground.
#[derive(Debug, Clone, Copy, PartialEq, Eq, Structural)]
pub enum ForegroundReport {
    /// The monitor is off, or there is no pane.
    Off,
    /// The session retries a request: every timer is dropped.
    ApiRetry,
    /// The check was made.
    Checked {
        /// Why the thinking timer was started again, if it was.
        progress: ThinkingTokenAction,
        thinking: ThinkingOutcome,
        blocking: BlockingOutcome,
    },
}

/// The threshold of the next thinking interrupt, in seconds.
pub open spec fn thinking_threshold(c: Config, s: StateView) -> int {
    backoff::capped_power(
        c.foreground_monitor.threshold_seconds as int,
        c.foreground_monitor.thinking_backoff_multiplier as int,
        s.thinking_interrupt_count as nat,
        c.foreground_monitor.max_thinking_backoff as int,
    )
}

/// What the token reading means for the running episode.
pub open spec fn progress_of(c: Config, s: StateView, obs: ForegroundObs, tokens: u64) -> ThinkingTokenAction {
    if obs.is_thinking && s.thinking_start is Some {
        tokens::token_action(
            s.thinking_episode_start_tokens,
            tokens,
            c.foreground_monitor.min_tokens_delta,
        )
    } else {
        ThinkingTokenAction::Keep
    }
}

/// The state with the token reading applied to the running episode.
pub open spec fn progressed(c: Config, s: StateView, tokens: u64, stamp: Seq<char>) -> StateView {
    let action = tokens::token_action(
        s.thinking_episode_start_tokens,
        tokens,
        c.foreground_monitor.min_tokens_delta,
    );
    StateView {
        thinking_start: tokens::timer_after(s.thinking_start, action, stamp),
        thinking_episode_start_tokens: tokens::baseline_after(
            s.thinking_episode_start_tokens,
            action,
            tokens,
        ),
        ..s
    }
}

/// What the running episode comes to, once the token reading is applied.
pub open spec fn ongoing_outcome(
    c: Config,
    s: StateView,
    obs: ForegroundObs,
    now: Moment,
) -> ThinkingOutcome {
    if !time::elapsed_at_least(s.thinking_start, now, thinking_threshold(c, s)) {
        ThinkingOutcome::Accumulating
    } else if obs.workload_fresh {
        ThinkingOutcome::HeldByWorkload
    } else if tokens::ack_fresh(obs.ack_age_secs, c.foreground_monitor.ack_fresh_secs) {
        ThinkingOutcome::HeldByAck
    } else if obligation::obligation_decision(
        s.thinking_obligation_armed_at,
        c.general.obligation_dwell_secs,
        obs.active_subagents,
        now,
    ) != ObligationDecision::Escalate {
        ThinkingOutcome::Armed
    } else if !interrupts::claim_granted(
        s,
        c.general.post_interrupt_cooldown_secs,
        c.general.global_cooldown_backoff_base,
        c.general.global_cooldown_max_secs,
        now,
    ) {
        ThinkingOutcome::CoolingDown
    } else {
        ThinkingOutcome::Fired
    }
}

/// What the check for prolonged thinking comes to.
pub open spec fn thinking_outcome(
    c: Config,
    s: StateView,
    tokens: u64,
    obs: ForegroundObs,
    stamp: Seq<char>,
    now: Moment,
) -> ThinkingOutcome {
    if !obs.is_thinking {
        ThinkingOutcome::NotThinking
    } else if s.thinking_start is None {
        ThinkingOutcome::EpisodeStarted
    } else {
        ongoing_outcome(c, progressed(c, s, tokens, stamp), obs, now)
    }
}

/// The state with an armed obligation, which keeps its first stamp.
pub open spec fn thinking_armed(s: StateView, stamp: Seq<char>) -> StateView {
    StateView {
        thinking_obligation_armed_at: match s.thinking_obligation_armed_at {
            Some(t) => Some(t),
            None => Some(stamp),
        },
        ..s
    }
}

/// The state after a thinking interrupt was claimed: the episode goes on from
/// here, with the next threshold.
pub open spec fn thinking_fired(c: Config, s: StateView, tokens: u64, stamp: Seq<char>) -> StateView {
    StateView {
        thinking_obligation_armed_at: None,
        thinking_alerted: true,
        thinking_interrupt_count: (s.thinking_interrupt_count + 1) as u32,
        thinking_start: Some(stamp),
        thinking_episode_start_tokens: tokens::reading(tokens),
        prolonged_thinking_interrupts_total: if c.foreground_monitor.interrupt_enabled {
            s.prolonged_thinking_interrupts_total.saturating_add(1)
        } else {
            s.prolonged_thinking_interrupts_total
        },
        ..s
    }
}

/// The state after the running episode was dealt with.
pub open spec fn ongoing_next(
    c: Config,
    s: StateView,
    tokens: u64,
    obs: ForegroundObs,
    stamp: Seq<char>,
    now: Moment,
) -> StateView {
    match ongoing_outcome(c, s, obs, now) {
        ThinkingOutcome::HeldByAck => StateView {
            thinking_start: Some(stamp),
            thinking_episode_start_tokens: tokens::reading(tokens),
            ..s
        },
        ThinkingOutcome::Armed => thinking_armed(s, stamp),
        ThinkingOutcome::Fired => thinking_fired(
            c,
            interrupts::claim_next(
                s,
                c.general.post_interrupt_cooldown_secs,
                c.general.global_cooldown_backoff_base,
                c.general.global_cooldown_max_secs,
                now,
                stamp,
            ),
            tokens,
            stamp,
        ),
        _ => s,
    }
}

/// The state with no thinking episode.
pub open spec fn thinking_over(s: StateView) -> StateView {
    StateView {
        thinking_start: None,
        thinking_alerted: false,
        thinking_interrupt_count: 0,
        thinking_episode_start_tokens: None,
        thinking_obligation_armed_at: None,
        ..s
    }
}

/// The state with a thinking episode that begins.
pub open spec fn thinking_begun(s: StateView, tokens: u64, stamp: Seq<char>) -> StateView {
    StateView {
        thinking_start: Some(stamp),
        thinking_alerted: false,
        thinking_episode_start_tokens: tokens::reading(tokens),
        ..s
    }
}

/// The state after the check for prolonged thinking.
pub open spec fn thinking_next(
    c: Config,
    s: StateView,
    tokens: u64,
    obs: ForegroundObs,
    stamp: Seq<char>,
    now: Moment,
) -> StateView {
    if !obs.is_thinking {
        thinking_over(s)
    } else if s.thinking_start is None {
        thinking_begun(s, tokens, stamp)
    } else {
        ongoing_next(c, progressed(c, s, tokens, stamp), tokens, obs, stamp, now)
    }
}

/// What the check for foreground blocking comes to.
pub open spec fn blocking_outcome(c: Config, s: StateView, fg_busy: bool, now: Moment) -> BlockingOutcome {
    if !fg_busy {
        BlockingOutcome::Free
    } else if s.foreground_start is None {
        BlockingOutcome::Started
    } else if !s.foreground_alerted && time::elapsed_at_least(
        s.foreground_start,
        now,
        c.foreground_monitor.threshold_seconds as int,
    ) {
        BlockingOutcome::Fired
    } else {
        BlockingOutcome::Waiting
    }
}

/// The state after the check for foreground blocking.
pub open spec fn blocking_next(
    c: Config,
    s: StateView,
    fg_busy: bool,
    stamp: Seq<char>,
    now: Moment,
) -> StateView {
    match blocking_outcome(c, s, fg_busy, now) {
        BlockingOutcome::Free => StateView { foreground_start: None, foreground_alerted: false, ..s },
        BlockingOutcome::Started => StateView {
            foreground_start: Some(stamp),
            foreground_alerted: false,
            ..s
        },
        BlockingOutcome::Fired => StateView {
            foreground_alerted: true,
            foreground_blocking_interrupts_total: if c.foreground_monitor.interrupt_enabled {
                s.foreground_blocking_interrupts_total.saturating_add(1)
            } else {
                s.foreground_blocking_interrupts_total
            },
            ..s
        },
        _ => s,
    }
}

/// The state with every timer dropped, as an API retry demands. The backoff of
/// the thinking episode is kept.
pub open spec fn timers_dropped(s: StateView) -> StateView {
    StateView {
        thinking_start: None,
        thinking_alerted: false,
        thinking_episode_start_tokens: None,
        foreground_start: None,
        foreground_alerted: false,
        ..s
    }
}

/// What a check of the foreground comes to.
pub open spec fn foreground_report(
    c: Config,
    s: StateView,
    pane: Seq<char>,
    tokens: u64,
    api_retrying: bool,
    obs: ForegroundObs,
    stamp: Seq<char>,
    now: Moment,
) -> ForegroundReport {
    if !c.foreground_monitor.enabled || pane.len() == 0 {
        ForegroundReport::Off
    } else if api_retrying {
        ForegroundReport::ApiRetry
    } else {
        let thinking = thinking_outcome(c, s, tokens, obs, stamp, now);
        ForegroundReport::Checked {
            progress: progress_of(c, s, obs, tokens),
            thinking,
            blocking: if thinking.ends_check() {
                BlockingOutcome::NotChecked
            } else {
                blocking_outcome(
                    c,
                    thinking_next(c, s, tokens, obs, stamp, now),
                    obs.fg_busy,
                    now,
                )
            },
        }
    }
}

/// The state after a check of the foreground.
pub open spec fn foreground_next(
    c: Config,
    s: StateView,
    pane: Seq<char>,
    tokens: u64,
    api_retrying: bool,
    obs: ForegroundObs,
    stamp: Seq<char>,
    now: Moment,
) -> StateView {
    if !c.foreground_monitor.enabled || pane.len() == 0 {
        s
    } else if api_retrying {
        timers_dropped(s)
    } else {
        let t = thinking_next(c, s, tokens, obs, stamp, now);
        if thinking_outcome(c, s, tokens, obs, stamp, now).ends_check() {
            t
        } else {
            blocking_next(c, t, obs.fg_busy, stamp, now)
        }
    }
}

fn drop_timers(state: &mut State)
    ensures
        final(state)@ == timers_dropped(old(state)@),
{
    proof {
        reveal(crate::state::state_view);
    }
    state.thinking_start = None;
    state.thinking_alerted = false;
    state.thinking_episode_start_tokens = None;
    state.foreground_start = None;
    state.foreground_alerted = false;
}

fn end_thinking(state: &mut State)
    ensures
        final(state)@ == thinking_over(old(state)@),
{
    proof {
        reveal(crate::state::state_view);
    }
    state.thinking_start = None;
    state.thinking_alerted = false;
    state.thinking_interrupt_count = 0;
    state.thinking_episode_start_tokens = None;
    state.thinking_obligation_armed_at = None;
}

fn begin_thinking(state: &mut State, tokens: u64, stamp: &str)
    ensures
        final(state)@ == thinking_begun(old(state)@, tokens, stamp@),
{
    proof {
        reveal(crate::state::state_view);
    }
    state.thinking_start = Some(stamp.to_owned());
    state.thinking_alerted = false;
    state.thinking_episode_start_tokens = token_reading(tokens);
}

fn apply_progress(config: &Config, state: &mut State, tokens: u64, stamp: &str)
    ensures
        final(state)@ == progressed(*config, old(state)@, tokens, stamp@),
{
    proof {
        reveal(crate::state::state_view);
    }
    let _ = apply_thinking_token_progress(
        &mut state.thinking_start,
        &mut state.thinking_episode_start_tokens,
        tokens,
        config.foreground_monitor.min_tokens_delta,
        stamp,
    );
}

fn try_ack_rearm(
    config: &Config,
    state: &mut State,
    tokens: u64,
    ack_age_secs: Option<u64>,
    stamp: &str,
) -> (r: bool)
    ensures
        r == tokens::ack_fresh(ack_age_secs, config.foreground_monitor.ack_fresh_secs),
        final(state)@ == (if r {
            StateView {
                thinking_start: Some(stamp@),
                thinking_episode_start_tokens: tokens::reading(tokens),
                ..old(state)@
            }
        } else {
            old(state)@
        }),
{
    let mut start: Option<String> = None;
    let mut baseline: Option<u64> = None;
    let fresh = apply_ack_fresh_rearm(
        &mut start,
        &mut baseline,
        ack_age_secs,
        config.foreground_monitor.ack_fresh_secs,
        tokens,
        stamp,
    );
    if fresh {
        set_thinking_timer(state, start, baseline);
    }
    fresh
}

fn set_thinking_timer(state: &mut State, start: Option<String>, baseline: Option<u64>)
    ensures
        final(state)@ == (StateView {
            thinking_start: time::opt_string_view(start),
            thinking_episode_start_tokens: baseline,
            ..old(state)@
        }),
{
    proof {
        reveal(crate::state::state_view);
    }
    state.thinking_start = start;
    state.thinking_episode_start_tokens = baseline;
}

fn arm_thinking(state: &mut State, stamp: &str)
    ensures
        final(state)@ == thinking_armed(old(state)@, stamp@),
{
    proof {
        reveal(crate::state::state_view);
    }
    if state.thinking_obligation_armed_at.is_none() {
        state.thinking_obligation_armed_at = Some(stamp.to_owned());
    }
}

fn fire_thinking(config: &Config, state: &mut State, tokens: u64, stamp: &str)
    requires
        old(state)@.thinking_interrupt_count < u32::MAX,
    ensures
        final(state)@ == thinking_fired(*config, old(state)@, tokens, stamp@),
{
    proof {
        reveal(crate::state::state_view);
    }
    let total: u64 = if config.foreground_monitor.interrupt_enabled {
        state.prolonged_thinking_interrupts_total.saturating_add(1)
    } else {
        state.prolonged_thinking_interrupts_total
    };
    let count: u32 = state.thinking_interrupt_count + 1;
    set_thinking_fired(state, count, token_reading(tokens), total, stamp);
}

fn set_thinking_fired(
    state: &mut State,
    count: u32,
    baseline: Option<u64>,
    total: u64,
    stamp: &str,
)
    ensures
        final(state)@ == (StateView {
            thinking_obligation_armed_at: None,
            thinking_alerted: true,
            thinking_interrupt_count: count,
            thinking_start: Some(stamp@),
            thinking_episode_start_tokens: baseline,
            prolonged_thinking_interrupts_total: total,
            ..old(state)@
        }),
{
    proof {
        reveal(crate::state::state_view);
    }
    state.thinking_obligation_armed_at = None;
    state.thinking_alerted = true;
    state.thinking_interrupt_count = count;
    state.thinking_start = Some(stamp.to_owned());
    state.thinking_episode_start_tokens = baseline;
    state.prolonged_thinking_interrupts_total = total;
}

/// The threshold of the next thinking interrupt, in seconds.
pub fn next_thinking_threshold(config: &Config, state: &State) -> (r: u64)
    ensures
        r == thinking_threshold(*config, state@),
{
    proof {
        reveal(crate::state::state_view);
    }
    thinking_backoff_threshold_with_multiplier(
        config.foreground_monitor.threshold_seconds,
        config.foreground_monitor.max_thinking_backoff,
        state.thinking_interrupt_count,
        config.foreground_monitor.thinking_backoff_multiplier,
    )
}

fn deal_with_ongoing(
    config: &Config,
    state: &mut State,
    tokens: u64,
    obs: ForegroundObs,
    stamp: &str,
    now: Moment,
) -> (r: ThinkingOutcome)
    requires
        old(state)@.thinking_interrupt_count < u32::MAX,
    ensures
        r == ongoing_outcome(*config, old(state)@, obs, now),
        final(state)@ == ongoing_next(*config, old(state)@, tokens, obs, stamp@, now),
{
    proof {
        reveal(crate::state::state_view);
    }
    let threshold: u64 = next_thinking_threshold(config, state);
    if !stamp_at_least(as_opt_str(&state.thinking_start), now, threshold) {
        return ThinkingOutcome::Accumulating;
    }
    if obs.workload_fresh {
        return ThinkingOutcome::HeldByWorkload;
    }
    if try_ack_rearm(config, state, tokens, obs.ack_age_secs, stamp) {
        return ThinkingOutcome::HeldByAck;
    }
    let decision = obligation_escalation_decision_at(
        as_opt_str(&state.thinking_obligation_armed_at),
        config.general.obligation_dwell_secs,
        obs.active_subagents,
        now,
    );
    if decision != ObligationDecision::Escalate {
        arm_thinking(state, stamp);
        return ThinkingOutcome::Armed;
    }
    if !try_claim_global_interrupt_at(
        state,
        config.general.post_interrupt_cooldown_secs,
        config.general.global_cooldown_backoff_base,
        config.general.global_cooldown_max_secs,
        stamp,
        now,
    ) {
        return ThinkingOutcome::CoolingDown;
    }
    fire_thinking(config, state, tokens, stamp);
    ThinkingOutcome::Fired
}

fn set_foreground(state: &mut State, start: Option<String>, alerted: bool)
    ensures
        final(state)@ == (StateView {
            foreground_start: time::opt_string_view(start),
            foreground_alerted: alerted,
            ..old(state)@
        }),
{
    proof {
        reveal(crate::state::state_view);
    }
    state.foreground_start = start;
    state.foreground_alerted = alerted;
}

fn fire_blocking(state: &mut State, total: u64)
    ensures
        final(state)@ == (StateView {
            foreground_alerted: true,
            foreground_blocking_interrupts_total: total,
            ..old(state)@
        }),
{
    proof {
        reveal(crate::state::state_view);
    }
    state.foreground_alerted = true;
    state.foreground_blocking_interrupts_total = total;
}

fn deal_with_blocking(
    config: &Config,
    state: &mut State,
    fg_busy: bool,
    stamp: &str,
    now: Moment,
) -> (r: BlockingOutcome)
    ensures
        r == blocking_outcome(*config, old(state)@, fg_busy, now),
        final(state)@ == blocking_next(*config, old(state)@, fg_busy, stamp@, now),
{
    proof {
        reveal(crate::state::state_view);
    }
    if !fg_busy {
        set_foreground(state, None, false);
        return BlockingOutcome::Free;
    }
    if state.foreground_start.is_none() {
        set_foreground(state, Some(stamp.to_owned()), false);
        return BlockingOutcome::Started;
    }
    if !state.foreground_alerted && stamp_at_least(
        as_opt_str(&state.foreground_start),
        now,
        config.foreground_monitor.threshold_seconds,
    ) {
        let total: u64 = if config.foreground_monitor.interrupt_enabled {
            state.foreground_blocking_interrupts_total.saturating_add(1)
        } else {
            state.foreground_blocking_interrupts_total
        };
        fire_blocking(state, total);
        return BlockingOutcome::Fired;
    }
    BlockingOutcome::Waiting
}

/// Checks the foreground of the session. When interrupts are enabled, a thinking
/// outcome of [`ThinkingOutcome::Fired`] interrupts the session and tells it
/// [`thinking_message`]; a blocking outcome of [`BlockingOutcome::Fired`]
/// interrupts it and tells it the configured message.
pub fn check_foreground_inner(
    config: &Config,
    state: &mut State,
    pane: &str,
    tokens: u64,
    api_retrying: bool,
    obs: ForegroundObs,
    stamp: &str,
    now: Moment,
) -> (r: ForegroundReport)
    requires
        old(state)@.thinking_interrupt_count < u32::MAX,
    ensures
        r == foreground_report(
            *config,
            old(state)@,
            pane@,
            tokens,
            api_retrying,
            obs,
            stamp@,
            now,
        ),
        final(state)@ == foreground_next(
            *config,
            old(state)@,
            pane@,
            tokens,
            api_retrying,
            obs,
            stamp@,
            now,
        ),
{
    proof {
        reveal(crate::state::state_view);
    }
    if !config.foreground_monitor.enabled || pane.is_empty() {
        return ForegroundReport::Off;
    }
    if api_retrying {
        drop_timers(state);
        return ForegroundReport::ApiRetry;
    }
    let mut progress = ThinkingTokenAction::Keep;
    let thinking = if !obs.is_thinking {
        end_thinking(state);
        ThinkingOutcome::NotThinking
    } else if state.thinking_start.is_none() {
        begin_thinking(state, tokens, stamp);
        ThinkingOutcome::EpisodeStarted
    } else {
        progress =
        thinking_token_progress_action(
            state.thinking_episode_start_tokens,
            tokens,
            config.foreground_monitor.min_tokens_delta,
        );
        apply_progress(config, state, tokens, stamp);
        deal_with_ongoing(config, state, tokens, obs, stamp, now)
    };
    if thinking.stops() {
        return ForegroundReport::Checked {
            progress,
            thinking,
            blocking: BlockingOutcome::NotChecked,
        };
    }
    let blocking = deal_with_blocking(config, state, obs.fg_busy, stamp, now);
    ForegroundReport::Checked { progress, thinking, blocking }
}

/// Checks the foreground between two cycles: takes note of an API retry first.
pub fn check_foreground(
    config: &Config,
    state: &mut State,
    pane: &str,
    tokens: u64,
    is_retrying: bool,
    obs: ForegroundObs,
    stamp: &str,
    now: Moment,
) -> (r: (ApiRetryOutcome, ForegroundReport))
    requires
        old(state)@.thinking_interrupt_count < u32::MAX,
    ensures
        !config.foreground_monitor.enabled || pane@.len() == 0 ==> r.0 == ApiRetryOutcome::Off
            && r.1 == ForegroundReport::Off && final(state)@ == old(state)@,
        config.foreground_monitor.enabled && pane@.len() > 0 ==> ({
            let polled = api_retry::polled(
                config.api_retry,
                old(state)@,
                pane@,
                is_retrying,
                stamp@,
                now,
            );
            &&& r.0 == api_retry::poll_outcome(
                config.api_retry,
                old(state)@,
                pane@,
                is_retrying,
                stamp@,
                now,
            )
            &&& r.1 == foreground_report(
                *config,
                polled,
                pane@,
                tokens,
                r.0.holds_back(),
                obs,
                stamp@,
                now,
            )
            &&& final(state)@ == foreground_next(
                *config,
                polled,
                pane@,
                tokens,
                r.0.holds_back(),
                obs,
                stamp@,
                now,
            )
        }),
{
    if !config.foreground_monitor.enabled || pane.is_empty() {
        return (ApiRetryOutcome::Off, ForegroundReport::Off);
    }
    let retry = update_api_retry_state(config, state, pane, is_retrying, stamp, now);
    let report = check_foreground_inner(
        config,
        state,
        pane,
        tokens,
        retry.suppresses(),
        obs,
        stamp,
        now,
    );
    (retry, report)
}

/// What a session that thinks for too long is told.
pub open spec fn thinking_text(names: NamesConfig, threshold_secs: u64, number: u64) -> Seq<char> {
    "["@ + names.tag@ + "] Prolonged thinking detected (>"@ + text::decimal(threshold_secs as nat)
        + "s in thinking state, interrupt #"@ + text::decimal(number as nat)
        + "). You appear to be stuck in a long generation. If you have complex work to do, delegate it to a background Agent instead of doing it inline. Use run_in_background: true for long Bash commands. Resume your current task now."@
}

/// [`thinking_text`], executable.
pub fn thinking_message(names: &NamesConfig, threshold_secs: u64, number: u64) -> (r: String)
    ensures
        r@ == thinking_text(*names, threshold_secs, number),
{
    "[".to_owned().concat(names.tag.as_str()).concat("] Prolonged thinking detected (>").concat(
        decimal_text(threshold_secs).as_str(),
    ).concat("s in thinking state, interrupt #").concat(decimal_text(number).as_str()).concat(
        "). You appear to be stuck in a long generation. If you have complex work to do, delegate it to a background Agent instead of doing it inline. Use run_in_background: true for long Bash commands. Resume your current task now.",
    )
}

/// Token progress keeps an episode from ever firing: a reading that has grown by
/// the floor starts the timer again, so that with a positive threshold the check
/// made at the instant of the stamp accumulates.
pub proof fn progress_defers_the_interrupt(
    c: Config,
    s: StateView,
    tokens: u64,
    obs: ForegroundObs,
    stamp: Seq<char>,
    now: Moment,
)
    requires
        obs.is_thinking,
        s.thinking_start is Some,
        tokens::rearms(
            tokens::token_action(
                s.thinking_episode_start_tokens,
                tokens,
                c.foreground_monitor.min_tokens_delta,
            ),
        ),
        time::stamp_moment(stamp) == Some(now),
        thinking_threshold(c, s) > 0,
    ensures
        thinking_outcome(c, s, tokens, obs, stamp, now) == ThinkingOutcome::Accumulating,
{
    assert(time::millis_between(now, now) == 0);
}

/// A thinking interrupt passes the global gate and no sign of life speaks
/// against it.
pub proof fn interrupt_needs_every_gate(
    c: Config,
    s: StateView,
    tokens: u64,
    obs: ForegroundObs,
    stamp: Seq<char>,
    now: Moment,
)
    requires
        thinking_outcome(c, s, tokens, obs, stamp, now) == ThinkingOutcome::Fired,
    ensures
        !obs.workload_fresh,
        !tokens::ack_fresh(obs.ack_age_secs, c.foreground_monitor.ack_fresh_secs),
        c.general.obligation_dwell_secs > 0 ==> s.thinking_obligation_armed_at is Some
            && obs.active_subagents == 0,
        interrupts::claim_granted(
            s,
            c.general.post_interrupt_cooldown_secs,
            c.general.global_cooldown_backoff_base,
            c.general.global_cooldown_max_secs,
            now,
        ),
        thinking_next(c, s, tokens, obs, stamp, now).last_interrupt_at == Some(stamp),
{
}

/// The end of an episode takes its backoff back to the start and leaves the count
/// of interrupts so far alone.
pub proof fn episode_end_keeps_totals(s: StateView)
    ensures
        thinking_over(s).thinking_interrupt_count == 0,
        thinking_over(s).prolonged_thinking_interrupts_total
            == s.prolonged_thinking_interrupts_total,
{
}

/// A blocked foreground is alerted once per stretch.
pub proof fn blocking_fires_once(
    c: Config,
    s: StateView,
    stamp: Seq<char>,
    now: Moment,
    later_stamp: Seq<char>,
    later: Moment,
)
    requires
        blocking_outcome(c, s, true, now) == BlockingOutcome::Fired,
    ensures
        blocking_outcome(c, blocking_next(c, s, true, stamp, now), true, later)
            == BlockingOutcome::Waiting,
{
}

/// A session that thinks is interrupted exactly where its thinking has gone on for the
/// threshold without token progress, no workload and no acknowledgement speaks for it, the
/// obligation has stood for its dwell with no subagent alive, or needs none, and no other
/// interrupt was a moment ago.
pub proof fn prolonged_thinking_is_interrupted(
    c: Config,
    s: StateView,
    obs: ForegroundObs,
    now: Moment,
)
    ensures
        ({
            let outcome = ongoing_outcome(c, s, obs, now);
            let late = time::elapsed_at_least(s.thinking_start, now, thinking_threshold(c, s));
            let acks = c.foreground_monitor.ack_fresh_secs > 0 && obs.ack_age_secs is Some
                && obs.ack_age_secs->0 < c.foreground_monitor.ack_fresh_secs;
            let dwelt = c.general.obligation_dwell_secs == 0 || (obs.active_subagents == 0
                && time::elapsed_at_least(
                s.thinking_obligation_armed_at,
                now,
                c.general.obligation_dwell_secs as int,
            ));
            let granted = interrupts::claim_granted(
                s,
                c.general.post_interrupt_cooldown_secs,
                c.general.global_cooldown_backoff_base,
                c.general.global_cooldown_max_secs,
                now,
            );
            &&& outcome == ThinkingOutcome::Accumulating <==> !late
            &&& outcome == ThinkingOutcome::HeldByWorkload <==> late && obs.workload_fresh
            &&& outcome == ThinkingOutcome::HeldByAck <==> late && !obs.workload_fresh && acks
            &&& outcome == ThinkingOutcome::Armed <==> late && !obs.workload_fresh && !acks
                && !dwelt
            &&& outcome == ThinkingOutcome::CoolingDown <==> late && !obs.workload_fresh && !acks
                && dwelt && !granted
            &&& outcome == ThinkingOutcome::Fired <==> late && !obs.workload_fresh && !acks && dwelt
                && granted
        }),
{
}

/// An episode begins with the first check that finds the session thinking, and ends with the
/// first that does not; in between, a count that has grown by the floor, or that went
/// backwards, starts its timer again.
pub proof fn thinking_episode_has_its_bounds(
    c: Config,
    s: StateView,
    tokens: u64,
    obs: ForegroundObs,
    stamp: Seq<char>,
    now: Moment,
)
    ensures
        ({
            let outcome = thinking_outcome(c, s, tokens, obs, stamp, now);
            let n = thinking_next(c, s, tokens, obs, stamp, now);
            let floor = c.foreground_monitor.min_tokens_delta;
            let moved = floor > 0 && tokens > 0 && s.thinking_episode_start_tokens is Some && (
            tokens < s.thinking_episode_start_tokens->0 || tokens
                - s.thinking_episode_start_tokens->0 >= floor);
            &&& outcome == ThinkingOutcome::NotThinking <==> !obs.is_thinking
            &&& outcome == ThinkingOutcome::EpisodeStarted <==> obs.is_thinking && s.thinking_start
                is None
            &&& !obs.is_thinking || s.thinking_start is None ==> !n.thinking_alerted
            &&& !obs.is_thinking ==> n.thinking_start is None && n.thinking_interrupt_count == 0
                && n.thinking_obligation_armed_at is None && n.thinking_episode_start_tokens is None
            &&& obs.is_thinking && s.thinking_start is None ==> n.thinking_start == Some(stamp) && (
            tokens > 0 ==> n.thinking_episode_start_tokens == Some(tokens)) && (tokens == 0
                ==> n.thinking_episode_start_tokens is None) && n.thinking_interrupt_count
                == s.thinking_interrupt_count
            &&& obs.is_thinking && s.thinking_start is Some && moved ==> n.thinking_start == Some(
                stamp,
            ) && n.thinking_episode_start_tokens == Some(tokens)
            &&& obs.is_thinking && s.thinking_start is Some && !moved && outcome
                == ThinkingOutcome::Accumulating ==> n.thinking_start == s.thinking_start
        }),
{
}

/// An interrupt is counted, raises the next threshold, and starts the episode's timer again; an
/// obligation keeps its first stamp until then; a fresh acknowledgement only starts the timer
/// again; what a workload holds back, or another interrupt, changes nothing.
pub proof fn thinking_outcomes_are_on_record(
    c: Config,
    s: StateView,
    tokens: u64,
    obs: ForegroundObs,
    stamp: Seq<char>,
    now: Moment,
)
    requires
        s.thinking_interrupt_count < u32::MAX,
    ensures
        ({
            let outcome = ongoing_outcome(c, s, obs, now);
            let n = ongoing_next(c, s, tokens, obs, stamp, now);
            &&& outcome == ThinkingOutcome::Fired ==> n.thinking_interrupt_count
                == s.thinking_interrupt_count + 1 && n.thinking_start == Some(stamp)
                && n.thinking_obligation_armed_at is None && n.last_interrupt_at == Some(stamp)
                && n.thinking_alerted
            &&& outcome == ThinkingOutcome::Fired && !c.foreground_monitor.interrupt_enabled
                ==> n.prolonged_thinking_interrupts_total == s.prolonged_thinking_interrupts_total
            &&& outcome == ThinkingOutcome::Fired && c.foreground_monitor.interrupt_enabled
                && s.prolonged_thinking_interrupts_total < u64::MAX
                ==> n.prolonged_thinking_interrupts_total == s.prolonged_thinking_interrupts_total
                + 1
            &&& outcome != ThinkingOutcome::Fired ==> n.thinking_interrupt_count
                == s.thinking_interrupt_count && n.last_interrupt_at == s.last_interrupt_at
                && n.prolonged_thinking_interrupts_total == s.prolonged_thinking_interrupts_total
            &&& outcome == ThinkingOutcome::Armed ==> n.thinking_obligation_armed_at == (
            if s.thinking_obligation_armed_at is Some {
                s.thinking_obligation_armed_at
            } else {
                Some(stamp)
            }) && n.thinking_start == s.thinking_start
            &&& outcome == ThinkingOutcome::HeldByAck ==> n.thinking_start == Some(stamp)
                && n.thinking_obligation_armed_at == s.thinking_obligation_armed_at
            &&& outcome == ThinkingOutcome::Accumulating || outcome
                == ThinkingOutcome::HeldByWorkload || outcome == ThinkingOutcome::CoolingDown ==> n
                == s
        }),
{
}

/// The threshold of a thinking interrupt is the base before the first one, is multiplied with
/// each that fired, and stops at the cap.
pub proof fn threshold_grows_with_each_interrupt(c: Config, s: StateView, t: StateView)
    requires
        t.thinking_interrupt_count == s.thinking_interrupt_count + 1,
        c.foreground_monitor.thinking_backoff_multiplier >= 1,
    ensures
        thinking_threshold(c, s) <= thinking_threshold(c, t) <= c.foreground_monitor.max_thinking_backoff,
        s.thinking_interrupt_count == 0 ==> thinking_threshold(c, s) == (if c.foreground_monitor.threshold_seconds
            <= c.foreground_monitor.max_thinking_backoff {
            c.foreground_monitor.threshold_seconds
        } else {
            c.foreground_monitor.max_thinking_backoff
        }),
{
    backoff::backoff_is_capped_and_monotone(
        c.foreground_monitor.threshold_seconds,
        c.foreground_monitor.thinking_backoff_multiplier,
        s.thinking_interrupt_count,
        t.thinking_interrupt_count,
        c.foreground_monitor.max_thinking_backoff,
    );
    backoff::backoff_starts_at_base(
        c.foreground_monitor.threshold_seconds,
        c.foreground_monitor.thinking_backoff_multiplier,
        c.foreground_monitor.max_thinking_backoff,
    );
}

/// Work that blocks the foreground is timed from the first check that finds it, told once when
/// it has gone on for the threshold, and forgotten when the foreground is free.
pub proof fn blocked_foreground_is_told_in_time(
    c: Config,
    s: StateView,
    fg_busy: bool,
    stamp: Seq<char>,
    now: Moment,
)
    ensures
        ({
            let outcome = blocking_outcome(c, s, fg_busy, now);
            let n = blocking_next(c, s, fg_busy, stamp, now);
            let late = time::elapsed_at_least(
                s.foreground_start,
                now,
                c.foreground_monitor.threshold_seconds as int,
            );
            &&& outcome == BlockingOutcome::Free <==> !fg_busy
            &&& outcome == BlockingOutcome::Started <==> fg_busy && s.foreground_start is None
            &&& outcome == BlockingOutcome::Fired <==> fg_busy && s.foreground_start is Some
                && !s.foreground_alerted && late
            &&& !fg_busy ==> n.foreground_start is None && !n.foreground_alerted
            &&& fg_busy && s.foreground_start is None ==> n.foreground_start == Some(stamp)
                && !n.foreground_alerted
            &&& outcome == BlockingOutcome::Fired ==> n.foreground_alerted && n.foreground_start
                == s.foreground_start
            &&& outcome == BlockingOutcome::Waiting ==> n == s
            &&& outcome == BlockingOutcome::Fired && c.foreground_monitor.interrupt_enabled
                && s.foreground_blocking_interrupts_total < u64::MAX
                ==> n.foreground_blocking_interrupts_total
                == s.foreground_blocking_interrupts_total + 1
            &&& outcome != BlockingOutcome::Fired || !c.foreground_monitor.interrupt_enabled
                ==> n.foreground_blocking_interrupts_total
                == s.foreground_blocking_interrupts_total
        }),
{
}

/// The foreground is judged exactly where its monitor is on, there is a pane, and no request is
/// retried; a retry drops the timers and keeps the backoff. Where thinking is held back, armed
/// or waits for another interrupt, the foreground is not looked at in the same check.
pub proof fn foreground_is_judged_where_it_can_be(
    c: Config,
    s: StateView,
    pane: Seq<char>,
    tokens: u64,
    api_retrying: bool,
    obs: ForegroundObs,
    stamp: Seq<char>,
    now: Moment,
)
    ensures
        ({
            let report = foreground_report(c, s, pane, tokens, api_retrying, obs, stamp, now);
            let n = foreground_next(c, s, pane, tokens, api_retrying, obs, stamp, now);
            &&& report == ForegroundReport::Off <==> !c.foreground_monitor.enabled || pane.len()
                == 0
            &&& report == ForegroundReport::ApiRetry <==> c.foreground_monitor.enabled
                && pane.len() > 0 && api_retrying
            &&& report == ForegroundReport::Off ==> n == s
            &&& report == ForegroundReport::ApiRetry ==> n.thinking_start is None
                && n.foreground_start is None && !n.foreground_alerted
                && n.thinking_episode_start_tokens is None && n.thinking_interrupt_count
                == s.thinking_interrupt_count && n.thinking_obligation_armed_at
                == s.thinking_obligation_armed_at && n.last_interrupt_at == s.last_interrupt_at
            &&& report matches ForegroundReport::Checked { thinking, blocking, .. } ==> {
                &&& thinking == thinking_outcome(c, s, tokens, obs, stamp, now)
                &&& blocking == BlockingOutcome::NotChecked <==> thinking
                    == ThinkingOutcome::HeldByWorkload || thinking == ThinkingOutcome::HeldByAck
                    || thinking == ThinkingOutcome::Armed || thinking
                    == ThinkingOutcome::CoolingDown
                &&& blocking == BlockingOutcome::NotChecked ==> n.foreground_start
                    == s.foreground_start && n.foreground_alerted == s.foreground_alerted
                &&& blocking != BlockingOutcome::NotChecked ==> blocking == blocking_outcome(
                    c,
                    s,
                    obs.fg_busy,
                    now,
                )
            }
        }),
{
}

/// A token reading says something only of an episode that runs: of any other session it
/// changes nothing.
pub proof fn progress_belongs_to_an_episode(
    c: Config,
    s: StateView,
    obs: ForegroundObs,
    tokens: u64,
)
    ensures
        !obs.is_thinking || s.thinking_start is None ==> progress_of(c, s, obs, tokens)
            == ThinkingTokenAction::Keep,
        obs.is_thinking && s.thinking_start is Some ==> progress_of(c, s, obs, tokens)
            == tokens::token_action(
            s.thinking_episode_start_tokens,
            tokens,
            c.foreground_monitor.min_tokens_delta,
        ),
{
}

/// A retry drops every timer and baseline of the foreground, and keeps what counts towards the
/// backoff; an interrupt and a fresh acknowledgement measure progress anew, from the present
/// reading.
pub proof fn timers_start_over(
    c: Config,
    s: StateView,
    tokens: u64,
    obs: ForegroundObs,
    stamp: Seq<char>,
    now: Moment,
)
    ensures
        ({
            let dropped = timers_dropped(s);
            &&& dropped.thinking_start is None && !dropped.thinking_alerted
            &&& dropped.thinking_episode_start_tokens is None
            &&& dropped.foreground_start is None && !dropped.foreground_alerted
            &&& dropped.thinking_interrupt_count == s.thinking_interrupt_count
            &&& dropped.thinking_obligation_armed_at == s.thinking_obligation_armed_at
        }),
        ({
            let outcome = ongoing_outcome(c, s, obs, now);
            let n = ongoing_next(c, s, tokens, obs, stamp, now);
            &&& outcome == ThinkingOutcome::Fired || outcome == ThinkingOutcome::HeldByAck ==> (
            n.thinking_episode_start_tokens == if tokens > 0 {
                Some(tokens)
            } else {
                None
            })
            &&& outcome != ThinkingOutcome::Fired && outcome != ThinkingOutcome::HeldByAck
                ==> n.thinking_episode_start_tokens == s.thinking_episode_start_tokens
        }),
{
}

} // verus!
