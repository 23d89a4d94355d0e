//! Two-phase escalation: an obligation is armed first, and only one that has
//! stayed armed long enough turns into an interrupt.
use crate::time;
use crate::time::{current_moment, stamp_at_least, stamp_under, Moment};
use vstd::prelude::*;

verus! {

/// What to do about an obligation.
#[derive(Debug, Clone, Copy, PartialEq, Eq, Structural)]
pub enum ObligationDecision {
    /// First detection: arm it, announce it, do not interrupt.
    ArmObligation,
    /// Armed, but not for long enough, or subagents are live: announce it again.
    Hold,
    /// Go on to the interrupt.
    Escalate,
}

/// The decision for an obligation armed at `armed_at`: with a dwell of zero it
/// escalates at once; else it is armed first and escalates when the dwell has
/// passed and no subagent is live.
pub open spec fn obligation_decision(
    armed_at: Option<Seq<char>>,
    dwell_secs: u64,
    active_subagents: u32,
    now: Moment,
) -> ObligationDecision {
    if dwell_secs == 0 {
        ObligationDecision::Escalate
    } else if armed_at is None {
        ObligationDecision::ArmObligation
    } else if time::elapsed_at_least(armed_at, now, dwell_secs as int) && active_subagents == 0 {
        ObligationDecision::Escalate
    } else {
        ObligationDecision::Hold
    }
}

/// [`obligation_decision`] with a bound on how long the obligation is held: past
/// `max_armed_secs` it escalates whatever the subagents do. Zero is no bound.
pub open spec fn context_decision(
    armed_at: Option<Seq<char>>,
    dwell_secs: u64,
    active_subagents: u32,
    max_armed_secs: u64,
    now: Moment,
) -> ObligationDecision {
    let base = obligation_decision(armed_at, dwell_secs, active_subagents, now);
    if base == ObligationDecision::Hold && max_armed_secs > 0 && time::elapsed_at_least(
        armed_at,
        now,
        max_armed_secs as int,
    ) {
        ObligationDecision::Escalate
    } else {
        base
    }
}

/// [`obligation_decision`], unless a suppression run that has gone on for too
/// long forces the interrupt.
pub open spec fn watcher_down_decision(
    suppression_escalated: bool,
    armed_at: Option<Seq<char>>,
    dwell_secs: u64,
    active_subagents: u32,
    now: Moment,
) -> ObligationDecision {
    if suppression_escalated {
        ObligationDecision::Escalate
    } else {
        obligation_decision(armed_at, dwell_secs, active_subagents, now)
    }
}

/// Whether the daemon may still leave a crossed context threshold to the hook:
/// until `max_defer_secs` after the crossing was first seen. Zero is no bound.
pub open spec fn defer_allowed(
    first_seen_at: Option<Seq<char>>,
    max_defer_secs: u64,
    now: Moment,
) -> bool {
    max_defer_secs == 0 || match time::opt_elapsed_ms(first_seen_at, now) {
        Some(ms) => ms < max_defer_secs * 1000,
        None => true,
    }
}

/// [`obligation_decision`], executable.
pub fn obligation_escalation_decision_at(
    armed_at: Option<&str>,
    dwell_secs: u64,
    active_subagents: u32,
    now: Moment,
) -> (r: ObligationDecision)
    ensures
        r == obligation_decision(time::opt_str_view(armed_at), dwell_secs, active_subagents, now),
{
    if dwell_secs == 0 {
        return ObligationDecision::Escalate;
    }
    if armed_at.is_none() {
        return ObligationDecision::ArmObligation;
    }
    if stamp_at_least(armed_at, now, dwell_secs) && active_subagents == 0 {
        ObligationDecision::Escalate
    } else {
        ObligationDecision::Hold
    }
}

/// [`obligation_decision`] at the present instant; `_now`, the stamp of the
/// running cycle, plays no part in it.
pub fn obligation_escalation_decision(
    armed_at: Option<&str>,
    dwell_secs: u64,
    active_subagents: u32,
    _now: &str,
) -> (r: ObligationDecision)
    ensures
        exists|now: Moment|
            r == #[trigger] obligation_decision(
                time::opt_str_view(armed_at),
                dwell_secs,
                active_subagents,
                now,
            ),
{
    let now = current_moment();
    obligation_escalation_decision_at(armed_at, dwell_secs, active_subagents, now)
}

/// [`context_decision`], executable.
pub fn context_escalation_decision_at(
    armed_at: Option<&str>,
    dwell_secs: u64,
    active_subagents: u32,
    max_armed_secs: u64,
    now: Moment,
) -> (r: ObligationDecision)
    ensures
        r == context_decision(
            time::opt_str_view(armed_at),
            dwell_secs,
            active_subagents,
            max_armed_secs,
            now,
        ),
{
    let base = obligation_escalation_decision_at(armed_at, dwell_secs, active_subagents, now);
    if max_armed_secs == 0 || base != ObligationDecision::Hold {
        return base;
    }
    if stamp_at_least(armed_at, now, max_armed_secs) {
        ObligationDecision::Escalate
    } else {
        base
    }
}

/// [`context_decision`] at the present instant.
pub fn context_escalation_decision(
    armed_at: Option<&str>,
    dwell_secs: u64,
    active_subagents: u32,
    max_armed_secs: u64,
    _now: &str,
) -> (r: ObligationDecision)
    ensures
        exists|now: Moment|
            r == #[trigger] context_decision(
                time::opt_str_view(armed_at),
                dwell_secs,
                active_subagents,
                max_armed_secs,
                now,
            ),
{
    let now = current_moment();
    context_escalation_decision_at(armed_at, dwell_secs, active_subagents, max_armed_secs, now)
}

/// [`watcher_down_decision`], executable.
pub fn watcher_down_obligation_decision_at(
    suppression_escalated: bool,
    armed_at: Option<&str>,
    dwell_secs: u64,
    active_subagents: u32,
    now: Moment,
) -> (r: ObligationDecision)
    ensures
        r == watcher_down_decision(
            suppression_escalated,
            time::opt_str_view(armed_at),
            dwell_secs,
            active_subagents,
            now,
        ),
{
    if suppression_escalated {
        return ObligationDecision::Escalate;
    }
    obligation_escalation_decision_at(armed_at, dwell_secs, active_subagents, now)
}

/// [`watcher_down_decision`] at the present instant.
pub fn watcher_down_obligation_decision(
    suppression_escalated: bool,
    armed_at: Option<&str>,
    dwell_secs: u64,
    active_subagents: u32,
    _now: &str,
) -> (r: ObligationDecision)
    ensures
        exists|now: Moment|
            r == #[trigger] watcher_down_decision(
                suppression_escalated,
                time::opt_str_view(armed_at),
                dwell_secs,
                active_subagents,
                now,
            ),
{
    let now = current_moment();
    watcher_down_obligation_decision_at(
        suppression_escalated,
        armed_at,
        dwell_secs,
        active_subagents,
        now,
    )
}

/// [`defer_allowed`], executable.
pub fn context_hook_defer_allowed_at(
    first_seen_at: Option<&str>,
    max_defer_secs: u64,
    now: Moment,
) -> (r: bool)
    ensures
        r == defer_allowed(time::opt_str_view(first_seen_at), max_defer_secs, now),
{
    if max_defer_secs == 0 {
        return true;
    }
    !stamp_at_least(first_seen_at, now, max_defer_secs)
}

/// [`defer_allowed`] at the present instant.
pub fn context_hook_defer_allowed(first_seen_at: Option<&str>, max_defer_secs: u64) -> (r: bool)
    ensures
        exists|now: Moment|
            r == #[trigger] defer_allowed(time::opt_str_view(first_seen_at), max_defer_secs, now),
{
    let now = current_moment();
    context_hook_defer_allowed_at(first_seen_at, max_defer_secs, now)
}

/// The first detection never interrupts: with a dwell set, an obligation that is
/// not armed yet is armed, whatever else holds.
pub proof fn first_detection_only_arms(
    dwell_secs: u64,
    active_subagents: u32,
    max_armed_secs: u64,
    now: Moment,
)
    requires
        dwell_secs > 0,
    ensures
        obligation_decision(None, dwell_secs, active_subagents, now)
            == ObligationDecision::ArmObligation,
        context_decision(None, dwell_secs, active_subagents, max_armed_secs, now)
            == ObligationDecision::ArmObligation,
        watcher_down_decision(false, None, dwell_secs, active_subagents, now)
            == ObligationDecision::ArmObligation,
{
}

/// Live subagents hold an ordinary obligation for ever, but a context obligation
/// no longer than its bound.
pub proof fn context_deadline_beats_subagents(
    armed_at: Seq<char>,
    dwell_secs: u64,
    active_subagents: u32,
    max_armed_secs: u64,
    now: Moment,
)
    requires
        dwell_secs > 0,
        active_subagents > 0,
        max_armed_secs > 0,
    ensures
        obligation_decision(Some(armed_at), dwell_secs, active_subagents, now)
            == ObligationDecision::Hold,
        context_decision(Some(armed_at), dwell_secs, active_subagents, max_armed_secs, now)
            == ObligationDecision::Escalate <==> time::elapsed_at_least(
            Some(armed_at),
            now,
            max_armed_secs as int,
        ),
{
}

/// An obligation turns into an interrupt exactly where no dwell is set, or it has stood for
/// the dwell and no subagent is alive; one that is not armed is armed first, and any other is
/// held.
pub proof fn obligation_escalates_after_its_dwell(
    armed_at: Option<Seq<char>>,
    dwell_secs: u64,
    active_subagents: u32,
    now: Moment,
)
    ensures
        ({
            let decision = obligation_decision(armed_at, dwell_secs, active_subagents, now);
            let dwelt = time::elapsed_at_least(armed_at, now, dwell_secs as int);
            &&& decision == ObligationDecision::Escalate <==> dwell_secs == 0 || (dwelt
                && active_subagents == 0)
            &&& decision == ObligationDecision::ArmObligation <==> dwell_secs > 0 && armed_at is None
        }),
{
}

/// A context obligation that has stood for its bound escalates whatever the subagents do; a
/// forced watcher-down obligation escalates at once; otherwise both go by the common rule.
pub proof fn bound_and_force_override_the_dwell(
    armed_at: Option<Seq<char>>,
    dwell_secs: u64,
    active_subagents: u32,
    max_armed_secs: u64,
    forced: bool,
    now: Moment,
)
    ensures
        context_decision(armed_at, dwell_secs, active_subagents, max_armed_secs, now)
            == ObligationDecision::Escalate <==> dwell_secs == 0 || (time::elapsed_at_least(
            armed_at,
            now,
            dwell_secs as int,
        ) && active_subagents == 0) || (max_armed_secs > 0 && time::elapsed_at_least(
            armed_at,
            now,
            max_armed_secs as int,
        )),
        watcher_down_decision(forced, armed_at, dwell_secs, active_subagents, now)
            == ObligationDecision::Escalate <==> forced || dwell_secs == 0 || (
        time::elapsed_at_least(armed_at, now, dwell_secs as int) && active_subagents == 0),
        context_decision(armed_at, dwell_secs, active_subagents, max_armed_secs, now)
            == ObligationDecision::ArmObligation <==> dwell_secs > 0 && armed_at is None,
{
}

/// A crossed threshold is left to the hook without a bound, where its first sight is not
/// known, and until the bound has passed since; no longer.
pub proof fn hook_is_given_its_time(first_seen_at: Option<Seq<char>>, bound: u64, now: Moment)
    ensures
        bound == 0 ==> defer_allowed(first_seen_at, bound, now),
        bound > 0 ==> (defer_allowed(first_seen_at, bound, now) <==> !time::elapsed_at_least(
            first_seen_at,
            now,
            bound as int,
        )),
{
}

} // verus!
