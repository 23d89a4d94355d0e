//! Questions that await an answer: alerted once, when they have waited too long.
use crate::config::{AskQuestionMonitorConfig, NamesConfig};
use crate::state::{State, StateView};
use crate::text;
use crate::text::decimal_text;
use crate::time;
use crate::time::{current_moment, elapsed_at, Moment};
use vstd::prelude::*;
use vstd::string::{StrSliceExecFns, StringExecFns};

verus! {

/// What a look at the pane came to.
#[derive(Debug, Clone, Copy, PartialEq, Eq, Structural)]
pub enum AskQuestionTimerDecision {
    /// No question waits.
    Clear,
    /// A question waits, not yet for long, or it has been alerted.
    Pending,
    /// The question has waited too long: alert it now.
    Fire { stale_minutes: u64 },
}

/// Since when the question on the pane has waited.
pub open spec fn waiting_since(s: StateView, stamp: Seq<char>) -> Seq<char> {
    match s.ask_question_pending_since {
        Some(t) => t,
        None => stamp,
    }
}

/// For how many milliseconds the question has waited; a stamp that does not
/// parse counts for none.
pub open spec fn waited_ms(s: StateView, stamp: Seq<char>, now: Moment) -> int {
    match time::elapsed_ms(waiting_since(s, stamp), now) {
        Some(ms) => ms,
        None => 0,
    }
}

/// Whole minutes in a number of milliseconds; none in a negative one.
pub open spec fn whole_minutes(ms: int) -> int {
    if ms < 0 {
        0
    } else {
        ms / 60_000
    }
}

/// A question shows on the pane, has not been alerted, and is known to have waited for at
/// least `stale_seconds`: one whose stamp does not parse is never due.
pub open spec fn question_due(
    s: StateView,
    enabled: bool,
    stale_seconds: u64,
    interactive: bool,
    stamp: Seq<char>,
    now: Moment,
) -> bool {
    enabled && interactive && !s.ask_question_alerted && time::elapsed_at_least(
        Some(waiting_since(s, stamp)),
        now,
        stale_seconds as int,
    )
}

/// The state after a look at the pane.
pub open spec fn question_next(
    s: StateView,
    enabled: bool,
    stale_seconds: u64,
    interactive: bool,
    stamp: Seq<char>,
    now: Moment,
) -> StateView {
    if !enabled || !interactive {
        StateView { ask_question_pending_since: None, ask_question_alerted: false, ..s }
    } else {
        StateView {
            ask_question_pending_since: Some(waiting_since(s, stamp)),
            ask_question_alerted: s.ask_question_alerted || question_due(
                s,
                enabled,
                stale_seconds,
                interactive,
                stamp,
                now,
            ),
            ..s
        }
    }
}

/// A decision that fires says for how many whole minutes the question has waited.
pub open spec fn question_decision_ok(
    r: AskQuestionTimerDecision,
    s: StateView,
    enabled: bool,
    stale_seconds: u64,
    interactive: bool,
    stamp: Seq<char>,
    now: Moment,
) -> bool {
    if !enabled || !interactive {
        r == AskQuestionTimerDecision::Clear
    } else if question_due(s, enabled, stale_seconds, interactive, stamp, now) {
        r matches AskQuestionTimerDecision::Fire { stale_minutes } && stale_minutes
            == whole_minutes(waited_ms(s, stamp, now))
    } else {
        r == AskQuestionTimerDecision::Pending
    }
}

proof fn lemma_minutes_fit(then: Moment, now: Moment)
    ensures
        whole_minutes(time::millis_between(then, now)) <= u64::MAX,
{
    let d = now.total_nanos() - then.total_nanos();
    assert(d <= (0xffff_ffff_ffff_ffff + 5) * 1_000_000_000);
    assert(d >= 0 ==> d / 1_000_000 <= (0xffff_ffff_ffff_ffff + 5) * 1_000);
}

/// For how many milliseconds, and for how many whole minutes, a question has
/// waited since `started`, if that is a stamp.
fn wait_so_far(started: &str, at: Moment) -> (r: Option<(i128, u64)>)
    ensures
        match r {
            Some((ms, minutes)) => time::elapsed_ms(started@, at) == Some(ms as int) && minutes
                == whole_minutes(ms as int),
            None => time::elapsed_ms(started@, at) is None,
        },
{
    let waited: i128 = match elapsed_at(started, at) {
        Some(ms) => ms,
        None => {
            return None;
        },
    };
    proof {
        match time::stamp_moment(started@) {
            Some(then) => {
                lemma_minutes_fit(then, at);
            },
            None => {},
        }
    }
    let minutes: u64 = if waited < 0 {
        0
    } else {
        ((waited as u128) / 60_000) as u64
    };
    Some((waited, minutes))
}

fn set_question(state: &mut State, pending_since: Option<String>, alerted: bool)
    ensures
        final(state)@ == (StateView {
            ask_question_pending_since: time::opt_string_view(pending_since),
            ask_question_alerted: alerted,
            ..old(state)@
        }),
{
    proof {
        reveal(crate::state::state_view);
    }
    state.ask_question_pending_since = pending_since;
    state.ask_question_alerted = alerted;
}

/// One look at the pane, at the instant `at`.
pub fn ask_question_timer_step_at(
    state: &mut State,
    enabled: bool,
    stale_seconds: u64,
    interactive_prompt: bool,
    now: &str,
    at: Moment,
) -> (r: AskQuestionTimerDecision)
    ensures
        question_decision_ok(
            r,
            old(state)@,
            enabled,
            stale_seconds,
            interactive_prompt,
            now@,
            at,
        ),
        final(state)@ == question_next(
            old(state)@,
            enabled,
            stale_seconds,
            interactive_prompt,
            now@,
            at,
        ),
{
    proof {
        reveal(crate::state::state_view);
    }
    if !enabled || !interactive_prompt {
        set_question(state, None, false);
        return AskQuestionTimerDecision::Clear;
    }
    let started = match &state.ask_question_pending_since {
        Some(ts) => ts.clone(),
        None => now.to_owned(),
    };
    let (stale, minutes) = match wait_so_far(started.as_str(), at) {
        Some((waited, minutes)) => (waited >= (stale_seconds as i128) * 1000, minutes),
        None => (false, 0u64),
    };
    let fires = !state.ask_question_alerted && stale;
    let alerted = state.ask_question_alerted || fires;
    set_question(state, Some(started), alerted);
    if fires {
        AskQuestionTimerDecision::Fire { stale_minutes: minutes }
    } else {
        AskQuestionTimerDecision::Pending
    }
}

/// [`ask_question_timer_step_at`], at the present instant.
pub fn ask_question_timer_step(
    state: &mut State,
    enabled: bool,
    stale_seconds: u64,
    interactive_prompt: bool,
    now: &str,
) -> (r: AskQuestionTimerDecision)
    ensures
        exists|at: Moment|
            question_decision_ok(
                r,
                old(state)@,
                enabled,
                stale_seconds,
                interactive_prompt,
                now@,
                at,
            ) && final(state)@ == #[trigger] question_next(
                old(state)@,
                enabled,
                stale_seconds,
                interactive_prompt,
                now@,
                at,
            ),
{
    let at = current_moment();
    ask_question_timer_step_at(state, enabled, stale_seconds, interactive_prompt, now, at)
}

/// The state after a series of looks that all found the question on the pane;
/// each look has its stamp and its instant.
pub open spec fn looked_at(
    s: StateView,
    stale_seconds: u64,
    looks: Seq<(Seq<char>, Moment)>,
) -> StateView
    decreases looks.len(),
{
    if looks.len() == 0 {
        s
    } else {
        question_next(
            looked_at(s, stale_seconds, looks.drop_last()),
            true,
            stale_seconds,
            true,
            looks.last().0,
            looks.last().1,
        )
    }
}

proof fn lemma_alerted_stays(s: StateView, stale_seconds: u64, looks: Seq<(Seq<char>, Moment)>)
    requires
        s.ask_question_alerted,
    ensures
        looked_at(s, stale_seconds, looks).ask_question_alerted,
    decreases looks.len(),
{
    if looks.len() > 0 {
        lemma_alerted_stays(s, stale_seconds, looks.drop_last());
    }
}

/// A question is alerted once: after a look that fired, no further look fires as
/// long as the question stays on the pane.
pub proof fn fires_once_per_question(
    s: StateView,
    stale_seconds: u64,
    stamp: Seq<char>,
    at: Moment,
    looks: Seq<(Seq<char>, Moment)>,
    later_stamp: Seq<char>,
    later: Moment,
)
    requires
        question_due(s, true, stale_seconds, true, stamp, at),
    ensures
        !question_due(
            looked_at(
                question_next(s, true, stale_seconds, true, stamp, at),
                stale_seconds,
                looks,
            ),
            true,
            stale_seconds,
            true,
            later_stamp,
            later,
        ),
{
    lemma_alerted_stays(
        question_next(s, true, stale_seconds, true, stamp, at),
        stale_seconds,
        looks,
    );
}

/// Once the question is gone, or the monitor is off, the next question has a
/// timer of its own: it waits from the look that finds it, and may be alerted.
pub proof fn answered_question_resets(
    s: StateView,
    stale_seconds: u64,
    stamp: Seq<char>,
    at: Moment,
    next_stamp: Seq<char>,
)
    ensures
        ({
            let n = question_next(s, true, stale_seconds, false, stamp, at);
            &&& waiting_since(n, next_stamp) == next_stamp
            &&& !n.ask_question_alerted
        }),
        question_next(s, false, stale_seconds, true, stamp, at) == question_next(
            s,
            true,
            stale_seconds,
            false,
            stamp,
            at,
        ),
{
}

/// One look for a stale question, at the instant `at`. `blocking` says that the pane shows a
/// question that blocks the session; without a pane there is none.
pub fn check_ask_question_stale(
    config: &AskQuestionMonitorConfig,
    state: &mut State,
    pane: &str,
    blocking: bool,
    now: &str,
    at: Moment,
) -> (r: AskQuestionTimerDecision)
    ensures
        question_decision_ok(
            r,
            old(state)@,
            config.enabled,
            config.stale_seconds,
            blocking && pane@.len() > 0,
            now@,
            at,
        ),
        final(state)@ == question_next(
            old(state)@,
            config.enabled,
            config.stale_seconds,
            blocking && pane@.len() > 0,
            now@,
            at,
        ),
{
    let shown = blocking && pane.unicode_len() > 0;
    ask_question_timer_step_at(state, config.enabled, config.stale_seconds, shown, now, at)
}

/// The alarm for a stale question.
pub open spec fn question_text(names: NamesConfig, stale_minutes: u64, stale_seconds: u64) -> Seq<char> {
    names.daemon@ + ": an interactive AskUserQuestion prompt has blocked the main loop for ~"@
        + text::decimal(stale_minutes as nat) + "min (>"@ + text::decimal(stale_seconds as nat)
        + "s threshold). The operator may be away — the loop reads as Idle, so the prolonged-thinking detector never fired. Answer it or let it auto-resolve."@
}

/// Writes the alarm for a stale question.
pub fn ask_question_message(names: &NamesConfig, stale_minutes: u64, stale_seconds: u64) -> (r: String)
    ensures
        r@ == question_text(*names, stale_minutes, stale_seconds),
{
    let minutes = decimal_text(stale_minutes);
    let seconds = decimal_text(stale_seconds);
    names.daemon.clone().concat(
        ": an interactive AskUserQuestion prompt has blocked the main loop for ~",
    ).concat(minutes.as_str()).concat("min (>").concat(seconds.as_str()).concat(
        "s threshold). The operator may be away — the loop reads as Idle, so the prolonged-thinking detector never fired. Answer it or let it auto-resolve.",
    )
}

/// A question is alerted exactly where it blocks the session, has not been alerted, and has
/// waited for the bound, from the look that first found it.
pub proof fn long_waiting_question_is_alerted(
    r: AskQuestionTimerDecision,
    s: StateView,
    enabled: bool,
    stale_seconds: u64,
    interactive: bool,
    stamp: Seq<char>,
    now: Moment,
)
    requires
        question_decision_ok(r, s, enabled, stale_seconds, interactive, stamp, now),
    ensures
        ({
            let since = if s.ask_question_pending_since is Some {
                s.ask_question_pending_since->0
            } else {
                stamp
            };
            let waited = time::millis_between(time::stamp_moment(since)->0, now);
            &&& r == AskQuestionTimerDecision::Clear <==> !enabled || !interactive
            &&& r is Fire <==> enabled && interactive && !s.ask_question_alerted
                && time::stamp_moment(since) is Some && waited >= stale_seconds * 1000
            &&& r matches AskQuestionTimerDecision::Fire { stale_minutes } ==> stale_minutes
                * 60_000 <= waited < (stale_minutes + 1) * 60_000 || (waited < 0 && stale_minutes
                == 0)
        }),
{
}

/// A question keeps the stamp of the look that first found it, and stays alerted once it was;
/// without a question both are gone. Nothing else changes.
pub proof fn waiting_question_is_on_record(
    s: StateView,
    enabled: bool,
    stale_seconds: u64,
    interactive: bool,
    stamp: Seq<char>,
    now: Moment,
)
    ensures
        ({
            let n = question_next(s, enabled, stale_seconds, interactive, stamp, now);
            let since = if s.ask_question_pending_since is Some {
                s.ask_question_pending_since
            } else {
                Some(stamp)
            };
            &&& enabled && interactive ==> n.ask_question_pending_since == since
            &&& enabled && interactive ==> (n.ask_question_alerted <==> s.ask_question_alerted
                || time::elapsed_at_least(since, now, stale_seconds as int))
            &&& !enabled || !interactive ==> n.ask_question_pending_since is None
                && !n.ask_question_alerted
            &&& n == (StateView {
                ask_question_pending_since: n.ask_question_pending_since,
                ask_question_alerted: n.ask_question_alerted,
                ..s
            })
        }),
{
}

} // verus!
