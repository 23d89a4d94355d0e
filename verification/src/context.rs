//! Context usage: when the session must clear, and when it has.
use crate::config::NamesConfig;
use crate::state::{State, StateView};
use crate::text;
use crate::text::decimal_text;
use crate::time;
use crate::time::{as_opt_str, current_moment, stamp_under, Moment};
use vstd::prelude::*;
use vstd::string::StringExecFns;

verus! {

/// A reading below this is that of a fresh context.
pub const CONTEXT_FRESH_TOKEN_THRESHOLD: u64 = 30000;

/// A reading from here on is that of a context in use.
pub const PREV_HIGH_FOR_EXTERNAL_CLEAR_LOG: u64 = 30000;

/// How a context reset showed.
#[derive(Debug, Clone, Copy, PartialEq, Eq, Structural)]
pub enum ContextResetSignal {
    /// The reading is that of a fresh context.
    FreshSample,
    /// The reading has dropped by half or more from that of a context in use.
    TokenDrop,
}

/// How two readings in a row show a context reset, if they do.
pub open spec fn reset_signal(prev: Option<u64>, tokens: u64) -> Option<ContextResetSignal> {
    if tokens < CONTEXT_FRESH_TOKEN_THRESHOLD {
        Some(ContextResetSignal::FreshSample)
    } else {
        match prev {
            Some(p) => if p >= PREV_HIGH_FOR_EXTERNAL_CLEAR_LOG && tokens * 2 <= p {
                Some(ContextResetSignal::TokenDrop)
            } else {
                None
            },
            None => None,
        }
    }
}

/// [`reset_signal`], executable.
pub fn context_reset_signal(prev_tokens: Option<u64>, tokens: u64) -> (r: Option<
    ContextResetSignal,
>)
    ensures
        r == reset_signal(prev_tokens, tokens),
{
    if tokens < CONTEXT_FRESH_TOKEN_THRESHOLD {
        return Some(ContextResetSignal::FreshSample);
    }
    match prev_tokens {
        Some(prev) => {
            if prev < PREV_HIGH_FOR_EXTERNAL_CLEAR_LOG {
                return None;
            }
            let dropped: u64 = prev.saturating_sub(tokens);
            if (dropped as u128) * 2 >= prev as u128 {
                Some(ContextResetSignal::TokenDrop)
            } else {
                None
            }
        },
        None => None,
    }
}

/// The reminders whose effect is measured.
#[derive(Debug, Clone, Copy, PartialEq, Eq, Structural)]
pub enum ReminderType {
    ContextHigh,
    VersionUpdate,
    PreCompact,
}

/// The latency to count, in milliseconds: the reminder fired, not in the future,
/// and less than an hour ago (six hours, for slow reactions).
pub open spec fn counted_latency(since_fire_ms: Option<i128>, short: bool) -> Option<u64> {
    match since_fire_ms {
        Some(ms) => if 0 <= ms < (if short {
            3_600_000
        } else {
            21_600_000int
        }) {
            Some(ms as u64)
        } else {
            None
        },
        None => None,
    }
}

/// The state after a reaction to a reminder that fired `since_fire_ms`
/// milliseconds ago.
pub open spec fn latency_recorded(
    s: StateView,
    kind: ReminderType,
    since_fire_ms: Option<i128>,
    short: bool,
) -> StateView {
    match counted_latency(since_fire_ms, short) {
        Some(ms) => match kind {
            ReminderType::ContextHigh => StateView {
                reminder_to_clear_latency_ms_sum: s.reminder_to_clear_latency_ms_sum.saturating_add(
                    ms,
                ),
                reminder_to_clear_latency_count: s.reminder_to_clear_latency_count.saturating_add(
                    1,
                ),
                ..s
            },
            ReminderType::VersionUpdate => StateView {
                reminder_to_update_latency_ms_sum:
                    s.reminder_to_update_latency_ms_sum.saturating_add(ms),
                reminder_to_update_latency_count: s.reminder_to_update_latency_count.saturating_add(
                    1,
                ),
                ..s
            },
            ReminderType::PreCompact => s,
        },
        None => s,
    }
}

/// Counts the latency of a reaction to a reminder, if the reminder is recent.
pub fn record_reminder_latency_if_recent(
    kind: ReminderType,
    state: &mut State,
    short: bool,
    since_fire_ms: Option<i128>,
)
    ensures
        final(state)@ == latency_recorded(old(state)@, kind, since_fire_ms, short),
{
    proof {
        reveal(crate::state::state_view);
    }
    let max: i128 = if short {
        3_600_000
    } else {
        21_600_000
    };
    match since_fire_ms {
        Some(ms) => {
            if 0 <= ms && ms < max {
                match kind {
                    ReminderType::ContextHigh => {
                        state.reminder_to_clear_latency_ms_sum =
                        state.reminder_to_clear_latency_ms_sum.saturating_add(ms as u64);
                        state.reminder_to_clear_latency_count =
                        state.reminder_to_clear_latency_count.saturating_add(1);
                    },
                    ReminderType::VersionUpdate => {
                        state.reminder_to_update_latency_ms_sum =
                        state.reminder_to_update_latency_ms_sum.saturating_add(ms as u64);
                        state.reminder_to_update_latency_count =
                        state.reminder_to_update_latency_count.saturating_add(1);
                    },
                    ReminderType::PreCompact => {},
                }
            }
        },
        None => {},
    }
}

/// What a token reading said of the context.
#[derive(Debug, Clone, Copy, PartialEq, Eq, Structural)]
pub enum ContextResetOutcome {
    /// The context goes on.
    NoReset,
    /// The clear that was in flight has landed.
    ClearLanded(ContextResetSignal),
    /// The context was reset from outside.
    External(ContextResetSignal),
    /// A fresh context with nothing before it.
    Boot(ContextResetSignal),
}

/// What the reading `tokens` says of the context in state `s`.
pub open spec fn reset_outcome(s: StateView, tokens: u64) -> ContextResetOutcome {
    match reset_signal(s.last_seen_tokens, tokens) {
        None => ContextResetOutcome::NoReset,
        Some(signal) => if s.context_clear_triggered {
            ContextResetOutcome::ClearLanded(signal)
        } else if s.last_seen_tokens matches Some(p) && p >= PREV_HIGH_FOR_EXTERNAL_CLEAR_LOG {
            ContextResetOutcome::External(signal)
        } else {
            ContextResetOutcome::Boot(signal)
        },
    }
}

/// The state after the reading `tokens`, taken at `stamp`. Any reset disarms the
/// context obligation. A clear in flight is over and needs no further prompt;
/// one from outside is only noted.
pub open spec fn reset_next(
    s: StateView,
    tokens: u64,
    stamp: Seq<char>,
    since_reminder_ms: Option<i128>,
) -> StateView {
    let disarmed = StateView {
        context_obligation_armed_at: None,
        context_threshold_first_seen_at: None,
        ..s
    };
    match reset_outcome(s, tokens) {
        ContextResetOutcome::NoReset => s,
        ContextResetOutcome::Boot(_) => disarmed,
        ContextResetOutcome::ClearLanded(_) => StateView {
            context_clear_triggered: false,
            context_clear_child_pid: None,
            last_context_clear: Some(stamp),
            post_clear_resume_injected_for: Some(stamp),
            ..latency_recorded(disarmed, ReminderType::ContextHigh, since_reminder_ms, true)
        },
        ContextResetOutcome::External(_) => StateView {
            last_context_clear: Some(stamp),
            ..latency_recorded(disarmed, ReminderType::ContextHigh, since_reminder_ms, true)
        },
    }
}

fn disarm_context(state: &mut State)
    ensures
        final(state)@ == (StateView {
            context_obligation_armed_at: None,
            context_threshold_first_seen_at: None,
            ..old(state)@
        }),
{
    proof {
        reveal(crate::state::state_view);
    }
    state.context_obligation_armed_at = None;
    state.context_threshold_first_seen_at = None;
}

fn note_context_clear(state: &mut State, now: &str)
    ensures
        final(state)@ == (StateView { last_context_clear: Some(now@), ..old(state)@ }),
{
    proof {
        reveal(crate::state::state_view);
    }
    state.last_context_clear = Some(now.to_owned());
}

fn note_clear_landed(state: &mut State, now: &str)
    ensures
        final(state)@ == (StateView {
            context_clear_triggered: false,
            context_clear_child_pid: None,
            last_context_clear: Some(now@),
            post_clear_resume_injected_for: Some(now@),
            ..old(state)@
        }),
{
    proof {
        reveal(crate::state::state_view);
    }
    state.context_clear_triggered = false;
    state.context_clear_child_pid = None;
    state.last_context_clear = Some(now.to_owned());
    state.post_clear_resume_injected_for = Some(now.to_owned());
}

/// Takes note of a token reading: whether the context was reset, and by whom.
/// `since_reminder_ms` is the age of the last context reminder, if it fired.
pub fn maybe_reset_context_clear(
    state: &mut State,
    tokens: u64,
    now: &str,
    since_reminder_ms: Option<i128>,
) -> (r: ContextResetOutcome)
    ensures
        r == reset_outcome(old(state)@, tokens),
        final(state)@ == reset_next(old(state)@, tokens, now@, since_reminder_ms),
{
    proof {
        reveal(crate::state::state_view);
    }
    let prev = state.last_seen_tokens;
    match context_reset_signal(prev, tokens) {
        None => ContextResetOutcome::NoReset,
        Some(signal) => {
            let was_in_use = match prev {
                Some(p) => p >= PREV_HIGH_FOR_EXTERNAL_CLEAR_LOG,
                None => false,
            };
            let in_flight = state.context_clear_triggered;
            disarm_context(state);
            if !in_flight && !was_in_use {
                return ContextResetOutcome::Boot(signal);
            }
            record_reminder_latency_if_recent(
                ReminderType::ContextHigh,
                state,
                true,
                since_reminder_ms,
            );
            if in_flight {
                note_clear_landed(state, now);
                ContextResetOutcome::ClearLanded(signal)
            } else {
                note_context_clear(state, now);
                ContextResetOutcome::External(signal)
            }
        },
    }
}

/// For how many seconds after a clear old text may still be on the pane.
pub const MALFORMED_POST_CLEAR_GRACE_SECS: u64 = 60;

/// Malformed-call text on the pane may be left over from before a clear: the
/// context is fresh, or was reset a moment ago. A pane that shows live work is
/// never taken for one.
pub open spec fn post_clear_boundary(
    s: StateView,
    tokens: u64,
    active_ui: bool,
    now: Moment,
) -> bool {
    !active_ui && (tokens < CONTEXT_FRESH_TOKEN_THRESHOLD || time::elapsed_under(
        s.last_context_clear,
        now,
        MALFORMED_POST_CLEAR_GRACE_SECS as int,
    ))
}

/// [`post_clear_boundary`], executable.
pub fn malformed_detection_post_clear_at(
    state: &State,
    tokens: u64,
    active_ui: bool,
    now: Moment,
) -> (r: bool)
    ensures
        r == post_clear_boundary(state@, tokens, active_ui, now),
{
    proof {
        reveal(crate::state::state_view);
    }
    if active_ui {
        return false;
    }
    if tokens < CONTEXT_FRESH_TOKEN_THRESHOLD {
        return true;
    }
    stamp_under(as_opt_str(&state.last_context_clear), now, MALFORMED_POST_CLEAR_GRACE_SECS)
}

/// [`post_clear_boundary`] at the present instant.
pub fn malformed_detection_post_clear(state: &State, tokens: u64, active_ui: bool) -> (r: bool)
    ensures
        exists|now: Moment|
            r == #[trigger] post_clear_boundary(state@, tokens, active_ui, now),
{
    let now = current_moment();
    malformed_detection_post_clear_at(state, tokens, active_ui, now)
}

/// Usage in thousandths of a percent, rounded down; without a window size there
/// is no bound to it.
pub open spec fn usage_milli_percent(tokens: u64, max_context_tokens: u64) -> int {
    if max_context_tokens == 0 {
        u128::MAX as int
    } else {
        (tokens as int * 100_000) / (max_context_tokens as int)
    }
}

/// Usage has reached the danger zone: within the margin of the window size, or,
/// without a margin, at the threshold percentage.
pub open spec fn in_danger_zone(
    tokens: u64,
    max_context_tokens: u64,
    threshold_percent: u64,
    threshold_margin: Option<u64>,
) -> bool {
    match threshold_margin {
        Some(margin) => max_context_tokens > margin && tokens >= max_context_tokens - margin,
        None => if max_context_tokens == 0 {
            tokens > 0
        } else {
            tokens * 100 >= threshold_percent * max_context_tokens
        },
    }
}

/// Whether the session must clear, with its usage in thousandths of a percent,
/// and whether the remaining compaction percentage is the reason. That
/// percentage is only believed in the danger zone.
pub fn check_context_threshold_with_margin(
    tokens: u64,
    max_context_tokens: u64,
    compact_remaining: Option<u32>,
    threshold_percent: u64,
    compact_trigger_percent: u32,
    threshold_margin: Option<u64>,
) -> (r: Option<(u128, bool)>)
    ensures
        r is Some <==> in_danger_zone(
            tokens,
            max_context_tokens,
            threshold_percent,
            threshold_margin,
        ),
        r matches Some((pct, by_compact)) ==> pct == usage_milli_percent(tokens, max_context_tokens)
            && by_compact == (compact_remaining matches Some(c) && c <= compact_trigger_percent),
{
    let pct: u128 = if max_context_tokens == 0 {
        u128::MAX
    } else {
        (tokens as u128) * 100_000 / (max_context_tokens as u128)
    };
    let danger = match threshold_margin {
        Some(margin) => max_context_tokens > margin && tokens >= max_context_tokens - margin,
        None => if max_context_tokens == 0 {
            tokens > 0
        } else {
            let bound: u128 = {
                assert(threshold_percent * max_context_tokens <= u64::MAX * u64::MAX)
                    by (nonlinear_arith)
                    requires
                        threshold_percent <= u64::MAX,
                        max_context_tokens <= u64::MAX,
                ;
                (threshold_percent as u128) * (max_context_tokens as u128)
            };
            (tokens as u128) * 100 >= bound
        },
    };
    if !danger {
        return None;
    }
    let by_compact = match compact_remaining {
        Some(c) => c <= compact_trigger_percent,
        None => false,
    };
    Some((pct, by_compact))
}

/// Whether a clear has to be started, and what the state then says, when a child
/// that was started earlier is recorded.
pub open spec fn clear_child_forgotten(s: StateView, child_running: bool) -> StateView {
    if child_running {
        s
    } else {
        StateView { context_clear_child_pid: None, ..s }
    }
}

/// Forgets the recorded clear child unless it still runs. Says whether a new one
/// may be started. Two clears never drive one pane; a child that has ended, or
/// that only waits to be reaped, does not stand in the way of the next.
pub fn clear_child_slot_free(state: &mut State, child_running: bool) -> (r: bool)
    ensures
        r == !(old(state)@.context_clear_child_pid is Some && child_running),
        final(state)@ == (if old(state)@.context_clear_child_pid is Some {
            clear_child_forgotten(old(state)@, child_running)
        } else {
            old(state)@
        }),
{
    proof {
        reveal(crate::state::state_view);
    }
    if state.context_clear_child_pid.is_some() {
        if child_running {
            return false;
        }
        state.context_clear_child_pid = None;
    }
    true
}

/// Records the clear child that was started.
pub fn clear_child_started(state: &mut State, pid: u32)
    ensures
        final(state)@ == (StateView { context_clear_child_pid: Some(pid), ..old(state)@ }),
{
    proof {
        reveal(crate::state::state_view);
    }
    state.context_clear_child_pid = Some(pid);
}

/// The shell script that clears the context after a grace period, unless it has
/// been cleared by then.
pub open spec fn deferred_clear_text(names: NamesConfig, grace: u64) -> Seq<char> {
    "elapsed=0; while [ \"$elapsed\" -lt "@ + text::decimal(grace as nat)
        + " ]; do sleep 10; elapsed=$((elapsed + 10)); tokens=$("@ + names.daemon@ + " status --tokens 2>/dev/null); if [ \"$tokens\" != \"?\" ] && [ \"$tokens\" -lt 30000 ] 2>/dev/null; then exit 0; fi; done; self-clear"@
}

/// [`deferred_clear_text`], executable.
pub fn deferred_clear_script(names: &NamesConfig, grace: u64) -> (r: String)
    ensures
        r@ == deferred_clear_text(*names, grace),
{
    "elapsed=0; while [ \"$elapsed\" -lt ".to_owned().concat(decimal_text(grace).as_str()).concat(
        " ]; do sleep 10; elapsed=$((elapsed + 10)); tokens=$(",
    ).concat(names.daemon.as_str()).concat(
        " status --tokens 2>/dev/null); if [ \"$tokens\" != \"?\" ] && [ \"$tokens\" -lt 30000 ] 2>/dev/null; then exit 0; fi; done; self-clear",
    )
}

/// A reading that has halved, or worse, from that of a context in use is a reset
/// however large it still is; growth never is, above the fresh threshold.
pub proof fn drop_is_a_reset_growth_is_not(prev: u64, tokens: u64)
    requires
        prev >= PREV_HIGH_FOR_EXTERNAL_CLEAR_LOG,
        tokens >= CONTEXT_FRESH_TOKEN_THRESHOLD,
    ensures
        reset_signal(Some(prev), tokens) is Some <==> tokens * 2 <= prev,
        tokens >= prev ==> reset_signal(Some(prev), tokens) is None,
{
}

/// A reset is stamped once: with the landing sample as the next comparison, the
/// growing readings of the new context leave the stamp alone.
pub proof fn growth_does_not_restamp(
    s: StateView,
    landing: u64,
    tokens: u64,
    stamp: Seq<char>,
    since_reminder_ms: Option<i128>,
)
    requires
        s.last_seen_tokens == Some(landing),
        tokens >= landing,
        tokens >= CONTEXT_FRESH_TOKEN_THRESHOLD,
    ensures
        reset_next(s, tokens, stamp, since_reminder_ms) == s,
{
}

/// Whenever the context was reset, a clear in flight is over and the context
/// obligation is disarmed.
pub proof fn reset_disarms(
    s: StateView,
    tokens: u64,
    stamp: Seq<char>,
    since_reminder_ms: Option<i128>,
)
    requires
        reset_outcome(s, tokens) != ContextResetOutcome::NoReset,
    ensures
        ({
            let n = reset_next(s, tokens, stamp, since_reminder_ms);
            &&& !n.context_clear_triggered
            &&& n.context_obligation_armed_at is None
            &&& n.context_threshold_first_seen_at is None
        }),
{
}

/// Below the danger zone a low compaction percentage never makes the session
/// clear, and in it no compaction percentage keeps the session from clearing.
pub proof fn compaction_never_decides_alone(
    tokens: u64,
    max_context_tokens: u64,
    threshold_percent: u64,
    margin: u64,
)
    requires
        max_context_tokens > margin,
    ensures
        in_danger_zone(tokens, max_context_tokens, threshold_percent, Some(margin)) <==> tokens
            + margin >= max_context_tokens,
{
}

/// A reading below 30000 tokens is that of a fresh context, whatever came before; one from there
/// on shows a reset exactly where it is at most half of a reading of 30000 tokens or more.
pub proof fn reset_shows_in_two_readings(prev: Option<u64>, tokens: u64)
    ensures
        reset_signal(prev, tokens) == Some(ContextResetSignal::FreshSample) <==> tokens < 30000,
        reset_signal(prev, tokens) == Some(ContextResetSignal::TokenDrop) <==> tokens >= 30000
            && prev is Some && prev->0 >= 30000 && tokens + tokens <= prev->0,
{
}

/// A reset ends the clear that is in flight; without one it came from outside where a context
/// was in use before, and is the start of a session elsewhere.
pub proof fn reset_is_ascribed_by_what_came_before(s: StateView, tokens: u64)
    ensures
        ({
            let outcome = reset_outcome(s, tokens);
            let used = s.last_seen_tokens is Some && s.last_seen_tokens->0 >= 30000;
            let reset = tokens < 30000 || (used && tokens + tokens <= s.last_seen_tokens->0);
            &&& outcome == ContextResetOutcome::NoReset <==> !reset
            &&& outcome is ClearLanded <==> reset && s.context_clear_triggered
            &&& outcome is External <==> reset && !s.context_clear_triggered && used
            &&& outcome is Boot <==> reset && !s.context_clear_triggered && !used
            &&& outcome matches ContextResetOutcome::ClearLanded(signal) ==> Some(signal)
                == reset_signal(s.last_seen_tokens, tokens)
            &&& outcome matches ContextResetOutcome::External(signal) ==> Some(signal)
                == reset_signal(s.last_seen_tokens, tokens)
            &&& outcome matches ContextResetOutcome::Boot(signal) ==> Some(signal)
                == reset_signal(s.last_seen_tokens, tokens)
        }),
{
}

/// What a reading leaves behind: the stamp of a clear where a context in use was reset or a
/// clear has landed; the prompt of a clear that landed counts as given, and its child as gone;
/// one that came from outside leaves both alone.
pub proof fn reset_is_on_record(
    s: StateView,
    tokens: u64,
    stamp: Seq<char>,
    since_reminder_ms: Option<i128>,
)
    ensures
        ({
            let n = reset_next(s, tokens, stamp, since_reminder_ms);
            let used = s.last_seen_tokens is Some && s.last_seen_tokens->0 >= 30000;
            let reset = tokens < 30000 || (used && tokens + tokens <= s.last_seen_tokens->0);
            let landed = reset && s.context_clear_triggered;
            &&& !reset ==> n == s
            &&& n.last_context_clear == (if landed || (reset && used) {
                Some(stamp)
            } else {
                s.last_context_clear
            })
            &&& landed ==> !n.context_clear_triggered && n.context_clear_child_pid is None
                && n.post_clear_resume_injected_for == Some(stamp)
            &&& !landed ==> n.context_clear_triggered == s.context_clear_triggered
                && n.context_clear_child_pid == s.context_clear_child_pid
                && n.post_clear_resume_injected_for == s.post_clear_resume_injected_for
            &&& reset ==> n.context_obligation_armed_at is None
                && n.context_threshold_first_seen_at is None
            &&& n.last_seen_tokens == s.last_seen_tokens
            &&& (landed || (reset && used)) && since_reminder_ms is Some && 0
                <= since_reminder_ms->0 < 3_600_000 && s.reminder_to_clear_latency_count
                < u64::MAX ==> n.reminder_to_clear_latency_count
                == s.reminder_to_clear_latency_count + 1
            &&& !(landed || (reset && used)) || since_reminder_ms is None || since_reminder_ms->0
                < 0 || since_reminder_ms->0 >= 3_600_000 ==> n.reminder_to_clear_latency_count
                == s.reminder_to_clear_latency_count && n.reminder_to_clear_latency_ms_sum
                == s.reminder_to_clear_latency_ms_sum
        }),
{
}

/// A reaction counts with its milliseconds, towards the reminder that it answers and no other,
/// where that fired not in the future and less than an hour ago, six hours for a slow one.
pub proof fn late_reactions_are_not_counted(
    s: StateView,
    kind: ReminderType,
    since_fire_ms: Option<i128>,
    short: bool,
)
    requires
        s.reminder_to_clear_latency_ms_sum <= u64::MAX - 21_600_000,
        s.reminder_to_update_latency_ms_sum <= u64::MAX - 21_600_000,
        s.reminder_to_clear_latency_count < u64::MAX,
        s.reminder_to_update_latency_count < u64::MAX,
    ensures
        ({
            let n = latency_recorded(s, kind, since_fire_ms, short);
            let counts = since_fire_ms is Some && 0 <= since_fire_ms->0 && (since_fire_ms->0
                < 3_600_000 || (!short && since_fire_ms->0 < 21_600_000));
            let clear = counts && kind == ReminderType::ContextHigh;
            let update = counts && kind == ReminderType::VersionUpdate;
            &&& n.reminder_to_clear_latency_ms_sum == s.reminder_to_clear_latency_ms_sum + (
            if clear {
                since_fire_ms->0 as int
            } else {
                0
            })
            &&& n.reminder_to_clear_latency_count == s.reminder_to_clear_latency_count + (
            if clear {
                1int
            } else {
                0
            })
            &&& n.reminder_to_update_latency_ms_sum == s.reminder_to_update_latency_ms_sum + (
            if update {
                since_fire_ms->0 as int
            } else {
                0
            })
            &&& n.reminder_to_update_latency_count == s.reminder_to_update_latency_count + (
            if update {
                1int
            } else {
                0
            })
            &&& !clear && !update ==> n == s
        }),
{
}

/// Text of a malformed call is taken for a remnant exactly where no live work shows and the
/// context is fresh, or was reset less than a minute ago.
pub proof fn old_text_lingers_after_a_clear(
    s: StateView,
    tokens: u64,
    active_ui: bool,
    now: Moment,
)
    ensures
        post_clear_boundary(s, tokens, active_ui, now) <==> !active_ui && (tokens < 30000 || (
        s.last_context_clear is Some && time::stamp_moment(s.last_context_clear->0) is Some
            && time::millis_between(
            time::stamp_moment(s.last_context_clear->0)->0,
            now,
        ) < 60_000)),
{
}

/// Usage is the number of thousandths of a percent that fit into the tokens; a session is in
/// the danger zone from the threshold on, and stays there as its context grows.
pub proof fn danger_zone_begins_at_the_threshold(
    tokens: u64,
    more: u64,
    max_context_tokens: u64,
    threshold_percent: u64,
    margin: Option<u64>,
)
    requires
        tokens <= more,
    ensures
        max_context_tokens > 0 ==> usage_milli_percent(tokens, max_context_tokens)
            * max_context_tokens <= tokens * 100_000 < (usage_milli_percent(
            tokens,
            max_context_tokens,
        ) + 1) * max_context_tokens,
        margin is None && max_context_tokens > 0 ==> (in_danger_zone(
            tokens,
            max_context_tokens,
            threshold_percent,
            margin,
        ) <==> tokens * 100 >= threshold_percent * max_context_tokens),
        margin is None && max_context_tokens == 0 ==> (in_danger_zone(
            tokens,
            max_context_tokens,
            threshold_percent,
            margin,
        ) <==> tokens > 0),
        margin matches Some(m) ==> (in_danger_zone(
            tokens,
            max_context_tokens,
            threshold_percent,
            margin,
        ) <==> m < max_context_tokens <= tokens + m),
        in_danger_zone(tokens, max_context_tokens, threshold_percent, margin) ==> in_danger_zone(
            more,
            max_context_tokens,
            threshold_percent,
            margin,
        ),
{
    if max_context_tokens > 0 {
        let a = tokens as int * 100_000;
        let b = max_context_tokens as int;
        assert((a / b) * b <= a < (a / b + 1) * b) by (nonlinear_arith)
            requires
                b > 0,
        ;
    }
}

/// The session must clear exactly in the danger zone, and what is said of the reason goes by
/// the compaction percentage alone.
pub proof fn compaction_only_names_the_reason(
    tokens: u64,
    max_context_tokens: u64,
    compact_remaining: Option<u32>,
    threshold_percent: u64,
    compact_trigger_percent: u32,
    margin: Option<u64>,
    verdict: Option<(u128, bool)>,
)
    requires
        call_ensures(
            check_context_threshold_with_margin,
            (
                tokens,
                max_context_tokens,
                compact_remaining,
                threshold_percent,
                compact_trigger_percent,
                margin,
            ),
            verdict,
        ),
    ensures
        margin matches Some(m) ==> (verdict is Some <==> m < max_context_tokens <= tokens + m),
        margin is None && max_context_tokens > 0 ==> (verdict is Some <==> tokens * 100
            >= threshold_percent * max_context_tokens),
        margin is None && max_context_tokens == 0 ==> (verdict is Some <==> tokens > 0),
        verdict matches Some((pct, by_compact)) ==> (by_compact <==> compact_remaining is Some
            && compact_remaining->0 <= compact_trigger_percent) && (max_context_tokens > 0
            ==> pct * max_context_tokens <= tokens * 100_000 < (pct + 1) * max_context_tokens),
{
    danger_zone_begins_at_the_threshold(
        tokens,
        tokens,
        max_context_tokens,
        threshold_percent,
        margin,
    );
}

/// A clear child stands in the way of the next only while it runs; one that does not run is
/// forgotten.
pub proof fn ended_clear_child_is_forgotten(s: StateView, child_running: bool)
    ensures
        clear_child_forgotten(s, true) == s,
        clear_child_forgotten(s, false).context_clear_child_pid is None,
        clear_child_forgotten(s, child_running).context_clear_triggered
            == s.context_clear_triggered,
        clear_child_forgotten(s, child_running).last_context_clear == s.last_context_clear,
{
}

/// The script of a forced clear waits for the grace period, ten seconds at a time, leaves
/// without a clear once the daemon reports fewer than 30000 tokens, and clears at the end.
pub proof fn forced_clear_waits_for_the_grace_period(names: NamesConfig, grace: u64)
    ensures
        ({
            let script = deferred_clear_text(names, grace);
            let head = "elapsed=0; while [ \"$elapsed\" -lt "@;
            let pause = " ]; do sleep 10; elapsed=$((elapsed + 10)); tokens=$("@;
            let leave = " status --tokens 2>/dev/null); if [ \"$tokens\" != \"?\" ] && [ \"$tokens\" -lt 30000 ] 2>/dev/null; then exit 0; fi; done; self-clear"@;
            &&& script == head + text::decimal(grace as nat) + pause + names.daemon@ + leave
            &&& text::occurs_at(script, text::decimal(grace as nat), head.len() as int)
            &&& text::ends_with(script, leave)
        }),
{
    let script = deferred_clear_text(names, grace);
    let head = "elapsed=0; while [ \"$elapsed\" -lt "@;
    let pause = " ]; do sleep 10; elapsed=$((elapsed + 10)); tokens=$("@;
    let leave = " status --tokens 2>/dev/null); if [ \"$tokens\" != \"?\" ] && [ \"$tokens\" -lt 30000 ] 2>/dev/null; then exit 0; fi; done; self-clear"@;
    let bound = text::decimal(grace as nat);
    let at = head.len() as int;
    assert(script.subrange(at, at + bound.len()) =~= bound);
    assert(script.subrange(script.len() - leave.len(), script.len() as int) =~= leave);
}

} // verus!
