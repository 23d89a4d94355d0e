//! Suppression runs: how often in a row a fire was held back, and when that has
//! to end.
use crate::state::{State, StateView};
use crate::time;
use crate::time::{as_opt_str, current_moment, stamp_over, Moment};
use vstd::prelude::*;

verus! {

/// Why a suppression run has to end.
#[derive(Debug, Clone, Copy, PartialEq, Eq, Structural)]
pub enum EscalationReason {
    /// Too many suppressions in a row.
    ConsecutiveCap,
    /// The run has gone on for too long.
    WindowExceeded,
}

impl EscalationReason {
    /// The label of the reason.
    pub fn as_str(self) -> (r: &'static str)
        ensures
            r@ == match self {
                EscalationReason::ConsecutiveCap => "consecutive_cap"@,
                EscalationReason::WindowExceeded => "window_exceeded"@,
            },
    {
        match self {
            EscalationReason::ConsecutiveCap => "consecutive_cap",
            EscalationReason::WindowExceeded => "window_exceeded",
        }
    }
}

/// Whether, and why, the running suppression run has to end at `now`. The first
/// suppression of a run is never refused; a bound of zero is no bound; the count
/// is looked at before the clock.
pub open spec fn escalation(
    s: StateView,
    max_consecutive: u32,
    max_window_secs: u64,
    now: Moment,
) -> Option<EscalationReason> {
    if s.consecutive_suppressions == 0 {
        None
    } else if max_consecutive > 0 && s.consecutive_suppressions >= max_consecutive {
        Some(EscalationReason::ConsecutiveCap)
    } else if max_window_secs > 0 && time::elapsed_over(
        s.first_suppression_at,
        now,
        max_window_secs as int,
    ) {
        Some(EscalationReason::WindowExceeded)
    } else {
        None
    }
}

/// The state after one more suppression. Only the first of a run leaves a stamp.
pub open spec fn suppression_recorded(s: StateView, stamp: Seq<char>) -> StateView {
    StateView {
        first_suppression_at: if s.consecutive_suppressions == 0 {
            Some(stamp)
        } else {
            s.first_suppression_at
        },
        consecutive_suppressions: s.consecutive_suppressions.saturating_add(1),
        ..s
    }
}

/// The state with no suppression run in progress.
pub open spec fn suppression_cleared(s: StateView) -> StateView {
    StateView { consecutive_suppressions: 0, first_suppression_at: None, ..s }
}

/// [`escalation`], executable.
pub fn should_escalate_suppression_at(
    state: &State,
    max_consecutive_suppressions: u32,
    max_suppression_window_secs: u64,
    now: Moment,
) -> (r: Option<EscalationReason>)
    ensures
        r == escalation(
            state@,
            max_consecutive_suppressions,
            max_suppression_window_secs,
            now,
        ),
{
    proof {
        reveal(crate::state::state_view);
    }
    if state.consecutive_suppressions == 0 {
        return None;
    }
    if max_consecutive_suppressions > 0 && state.consecutive_suppressions
        >= max_consecutive_suppressions {
        return Some(EscalationReason::ConsecutiveCap);
    }
    if max_suppression_window_secs > 0 && stamp_over(
        as_opt_str(&state.first_suppression_at),
        now,
        max_suppression_window_secs,
    ) {
        return Some(EscalationReason::WindowExceeded);
    }
    None
}

/// [`escalation`] at the present instant.
pub fn should_escalate_suppression(
    state: &State,
    max_consecutive_suppressions: u32,
    max_suppression_window_secs: u64,
) -> (r: Option<EscalationReason>)
    ensures
        exists|now: Moment|
            r == #[trigger] escalation(
                state@,
                max_consecutive_suppressions,
                max_suppression_window_secs,
                now,
            ),
{
    let now = current_moment();
    should_escalate_suppression_at(
        state,
        max_consecutive_suppressions,
        max_suppression_window_secs,
        now,
    )
}

/// Whether a watcher has been down for so long that nothing holds its inject
/// back any more. This bound does not look at the shared suppression run.
pub fn watcher_down_suppression_capped(max_down_secs: Option<u64>, max_suppress_secs: u64) -> (r:
    bool)
    ensures
        r <==> max_suppress_secs > 0 && (max_down_secs matches Some(d) && d >= max_suppress_secs),
{
    match max_down_secs {
        Some(d) => max_suppress_secs > 0 && d >= max_suppress_secs,
        None => false,
    }
}

/// Counts one more suppression.
pub fn record_suppression(state: &mut State, now: &str)
    ensures
        final(state)@ == suppression_recorded(old(state)@, now@),
{
    proof {
        reveal(crate::state::state_view);
    }
    if state.consecutive_suppressions == 0 {
        state.first_suppression_at = Some(now.to_owned());
    }
    state.consecutive_suppressions = state.consecutive_suppressions.saturating_add(1);
}

/// Ends the suppression run.
pub fn reset_suppression(state: &mut State)
    ensures
        final(state)@ == suppression_cleared(old(state)@),
{
    proof {
        reveal(crate::state::state_view);
    }
    state.consecutive_suppressions = 0;
    state.first_suppression_at = None;
}

/// The state after `n` suppressions, the `i`th of them stamped `stamps[i]`.
pub open spec fn suppressed_times(s: StateView, stamps: Seq<Seq<char>>) -> StateView
    decreases stamps.len(),
{
    if stamps.len() == 0 {
        s
    } else {
        suppression_recorded(suppressed_times(s, stamps.drop_last()), stamps.last())
    }
}

/// A run keeps the stamp of its first suppression, however many follow: the first stamp where
/// they begin a run, and the one that stands where they continue one. Each of them is counted,
/// until the counter is full.
pub proof fn run_keeps_its_first_stamp(s: StateView, stamps: Seq<Seq<char>>)
    requires
        stamps.len() >= 1,
    ensures
        suppressed_times(s, stamps).first_suppression_at == (if s.consecutive_suppressions == 0 {
            Some(stamps[0])
        } else {
            s.first_suppression_at
        }),
        suppressed_times(s, stamps).consecutive_suppressions == (if s.consecutive_suppressions
            + stamps.len() <= u32::MAX {
            s.consecutive_suppressions + stamps.len()
        } else {
            u32::MAX as int
        }),
    decreases stamps.len(),
{
    if stamps.len() == 1 {
        assert(suppressed_times(s, stamps.drop_last()) == s);
    } else {
        run_keeps_its_first_stamp(s, stamps.drop_last());
    }
}

/// A cap on the run is kept: after as many suppressions as the cap allows, the
/// next fire is forced, at any instant.
pub proof fn run_is_bounded(
    s: StateView,
    stamps: Seq<Seq<char>>,
    max_consecutive: u32,
    max_window_secs: u64,
    now: Moment,
)
    requires
        s.consecutive_suppressions == 0,
        max_consecutive > 0,
        stamps.len() == max_consecutive,
    ensures
        escalation(suppressed_times(s, stamps), max_consecutive, max_window_secs, now) == Some(
            EscalationReason::ConsecutiveCap,
        ),
{
    run_keeps_its_first_stamp(s, stamps);
}

/// Ending a run leaves nothing of it: no escalation is due, and the next
/// suppression starts a run of its own.
pub proof fn reset_starts_over(
    s: StateView,
    max_consecutive: u32,
    max_window_secs: u64,
    now: Moment,
    stamp: Seq<char>,
)
    ensures
        escalation(suppression_cleared(s), max_consecutive, max_window_secs, now) is None,
        suppression_recorded(suppression_cleared(s), stamp).first_suppression_at == Some(stamp),
        suppression_recorded(suppression_cleared(s), stamp).consecutive_suppressions == 1,
{
}

/// Counting a suppression moves no clock of another gate: it leaves the stamp of
/// the last interrupt and that of the last watcher-down inject alone.
pub proof fn suppression_moves_no_other_clock(s: StateView, stamp: Seq<char>)
    ensures
        suppression_recorded(s, stamp).last_interrupt_at == s.last_interrupt_at,
        suppression_recorded(s, stamp).last_watcher_inject == s.last_watcher_inject,
{
}

/// A run has to end exactly where it has begun and its cap is reached, or its first
/// suppression is more than the window old; the cap is named first, and a bound of zero is
/// none.
pub proof fn run_ends_at_its_bounds(
    s: StateView,
    max_consecutive: u32,
    max_window_secs: u64,
    now: Moment,
)
    ensures
        ({
            let why = escalation(s, max_consecutive, max_window_secs, now);
            let capped = max_consecutive > 0 && s.consecutive_suppressions >= max_consecutive;
            let late = max_window_secs > 0 && time::elapsed_over(
                s.first_suppression_at,
                now,
                max_window_secs as int,
            );
            &&& why is Some <==> s.consecutive_suppressions > 0 && (capped || late)
            &&& why == Some(EscalationReason::ConsecutiveCap) <==> s.consecutive_suppressions > 0
                && capped
        }),
{
}

/// A watcher that has been down for the bound can no longer be put off; zero is no bound, and
/// without a down time there is none to compare. Putting off counts on; an alert starts over.
pub proof fn suppressions_are_counted_and_cleared(
    s: StateView,
    stamp: Seq<char>,
    max_down_secs: Option<u64>,
    max_suppress_secs: u64,
    capped: bool,
)
    requires
        s.consecutive_suppressions < u32::MAX,
        call_ensures(
            watcher_down_suppression_capped,
            (max_down_secs, max_suppress_secs),
            capped,
        ),
    ensures
        capped <==> max_suppress_secs > 0 && max_down_secs is Some && max_down_secs->0
            >= max_suppress_secs,
        suppression_recorded(s, stamp).consecutive_suppressions == s.consecutive_suppressions + 1,
        s.consecutive_suppressions == 0 ==> suppression_recorded(s, stamp).first_suppression_at
            == Some(stamp),
        s.consecutive_suppressions > 0 ==> suppression_recorded(s, stamp).first_suppression_at
            == s.first_suppression_at,
        suppression_cleared(s).consecutive_suppressions == 0,
        suppression_cleared(s).first_suppression_at is None,
        suppression_recorded(s, stamp).last_alert == s.last_alert,
        suppression_cleared(s).last_alert == s.last_alert,
{
}

} // verus!
