//! API retries: while the session retries a request by itself, interrupts wait.
use crate::config::{ApiRetryConfig, Config};
use crate::state::{State, StateView};
use crate::time;
use crate::time::{as_opt_str, current_moment, current_stamp, stamp_over, Moment};
use vstd::prelude::*;

verus! {

/// A retry episode that began at `first_seen` has outlived its bound. Zero is no
/// bound, and a stamp that does not parse bounds nothing.
pub open spec fn outlived(first_seen: Option<Seq<char>>, max_stuck_secs: u64, now: Moment) -> bool {
    max_stuck_secs > 0 && time::elapsed_over(first_seen, now, max_stuck_secs as int)
}

/// The retry episode after one poll: its length, its first stamp, and whether it
/// holds interrupts back. An episode keeps the stamp of its first poll.
pub open spec fn retry_after_poll(
    is_retrying: bool,
    consecutive: u32,
    first_seen: Option<Seq<char>>,
    threshold: u32,
    max_stuck_secs: u64,
    stamp: Seq<char>,
    now: Moment,
) -> (u32, Option<Seq<char>>, bool) {
    if !is_retrying {
        (0, None, false)
    } else {
        let count = consecutive.saturating_add(1);
        let first = match first_seen {
            Some(f) => Some(f),
            None => Some(stamp),
        };
        (count, first, count >= threshold && !outlived(first, max_stuck_secs, now))
    }
}

/// The episode that the state records holds interrupts back at `now`.
pub open spec fn suppressing(c: ApiRetryConfig, s: StateView, now: Moment) -> bool {
    c.enabled && s.api_retry_consecutive >= c.consecutive && s.api_retry_first_seen is Some
        && !outlived(s.api_retry_first_seen, c.max_stuck_secs, now)
}

/// [`retry_after_poll`], executable; `stamp` is the stamp of a first poll.
pub fn evaluate_api_retry_state_at(
    is_retrying: bool,
    consecutive: u32,
    first_seen: Option<&str>,
    threshold: u32,
    max_stuck_secs: u64,
    stamp: &str,
    now: Moment,
) -> (r: (u32, Option<String>, bool))
    ensures
        (r.0, time::opt_string_view(r.1), r.2) == retry_after_poll(
            is_retrying,
            consecutive,
            time::opt_str_view(first_seen),
            threshold,
            max_stuck_secs,
            stamp@,
            now,
        ),
{
    if !is_retrying {
        return (0, None, false);
    }
    let count: u32 = consecutive.saturating_add(1);
    let first = match first_seen {
        Some(f) => f.to_owned(),
        None => stamp.to_owned(),
    };
    let over = max_stuck_secs > 0 && stamp_over(Some(first.as_str()), now, max_stuck_secs);
    let suppress = count >= threshold && !over;
    (count, Some(first), suppress)
}

/// [`retry_after_poll`] at the present instant, with a stamp of the clock: one that names an
/// instant, unless RFC 3339 has no room for it.
pub fn evaluate_api_retry_state(
    is_retrying: bool,
    consecutive: u32,
    first_seen: Option<&str>,
    threshold: u32,
    max_stuck_secs: u64,
) -> (r: (u32, Option<String>, bool))
    ensures
        exists|stamp: Seq<char>, now: Moment|
            (time::stamp_moment(stamp) is Some || time::beyond_rfc3339(stamp)) && (
                r.0,
                time::opt_string_view(r.1),
                r.2,
            ) == #[trigger] retry_after_poll(
                is_retrying,
                consecutive,
                time::opt_str_view(first_seen),
                threshold,
                max_stuck_secs,
                stamp,
                now,
            ),
{
    let stamp = current_stamp();
    let now = current_moment();
    evaluate_api_retry_state_at(
        is_retrying,
        consecutive,
        first_seen,
        threshold,
        max_stuck_secs,
        stamp.as_str(),
        now,
    )
}

/// [`suppressing`], executable.
pub fn is_api_retry_suppressing_at(config: &Config, state: &State, now: Moment) -> (r: bool)
    ensures
        r == suppressing(config.api_retry, state@, now),
{
    proof {
        reveal(crate::state::state_view);
    }
    if !config.api_retry.enabled {
        return false;
    }
    if state.api_retry_consecutive < config.api_retry.consecutive {
        return false;
    }
    if state.api_retry_first_seen.is_none() {
        return false;
    }
    !(config.api_retry.max_stuck_secs > 0 && stamp_over(
        as_opt_str(&state.api_retry_first_seen),
        now,
        config.api_retry.max_stuck_secs,
    ))
}

/// [`suppressing`] at the present instant.
pub fn is_api_retry_suppressing(config: &Config, state: &State) -> (r: bool)
    ensures
        exists|now: Moment| r == #[trigger] suppressing(config.api_retry, state@, now),
{
    let now = current_moment();
    is_api_retry_suppressing_at(config, state, now)
}

/// What a poll for an API retry came to.
#[derive(Debug, Clone, Copy, PartialEq, Eq, Structural)]
pub enum ApiRetryOutcome {
    /// Retries are not looked for.
    Off,
    /// Nothing holds interrupts back, and nothing did before.
    Clear,
    /// Interrupts are held back from now on.
    Started,
    /// Interrupts stay held back.
    Continues,
    /// Interrupts are no longer held back.
    Ended,
}

impl ApiRetryOutcome {
    /// The poll leaves interrupts held back.
    pub open spec fn holds_back(self) -> bool {
        self == ApiRetryOutcome::Started || self == ApiRetryOutcome::Continues
    }

    /// Whether the poll leaves interrupts held back.
    pub fn suppresses(self) -> (r: bool)
        ensures
            r == self.holds_back(),
    {
        match self {
            ApiRetryOutcome::Started => true,
            ApiRetryOutcome::Continues => true,
            _ => false,
        }
    }
}

/// What a poll comes to in state `s`.
pub open spec fn poll_outcome(
    c: ApiRetryConfig,
    s: StateView,
    pane: Seq<char>,
    is_retrying: bool,
    stamp: Seq<char>,
    now: Moment,
) -> ApiRetryOutcome {
    if !c.enabled || pane.len() == 0 {
        ApiRetryOutcome::Off
    } else {
        let holds = retry_after_poll(
            is_retrying,
            s.api_retry_consecutive,
            s.api_retry_first_seen,
            c.consecutive,
            c.max_stuck_secs,
            stamp,
            now,
        ).2;
        let held = suppressing(c, s, now);
        if holds && held {
            ApiRetryOutcome::Continues
        } else if holds {
            ApiRetryOutcome::Started
        } else if held {
            ApiRetryOutcome::Ended
        } else {
            ApiRetryOutcome::Clear
        }
    }
}

/// The state after a poll.
pub open spec fn polled(
    c: ApiRetryConfig,
    s: StateView,
    pane: Seq<char>,
    is_retrying: bool,
    stamp: Seq<char>,
    now: Moment,
) -> StateView {
    if !c.enabled || pane.len() == 0 {
        s
    } else {
        let (count, first, holds) = retry_after_poll(
            is_retrying,
            s.api_retry_consecutive,
            s.api_retry_first_seen,
            c.consecutive,
            c.max_stuck_secs,
            stamp,
            now,
        );
        StateView {
            api_retry_consecutive: count,
            api_retry_first_seen: first,
            api_retry_suppressions_total: if holds {
                s.api_retry_suppressions_total.saturating_add(1)
            } else {
                s.api_retry_suppressions_total
            },
            ..s
        }
    }
}

fn note_episode(state: &mut State, count: u32, first: Option<String>, total: u64)
    ensures
        final(state)@ == (StateView {
            api_retry_consecutive: count,
            api_retry_first_seen: time::opt_string_view(first),
            api_retry_suppressions_total: total,
            ..old(state)@
        }),
{
    proof {
        reveal(crate::state::state_view);
    }
    state.api_retry_consecutive = count;
    state.api_retry_first_seen = first;
    state.api_retry_suppressions_total = total;
}

/// Takes note of one poll of the pane for an API retry banner.
pub fn update_api_retry_state(
    config: &Config,
    state: &mut State,
    pane: &str,
    is_retrying: bool,
    stamp: &str,
    now: Moment,
) -> (r: ApiRetryOutcome)
    ensures
        r == poll_outcome(config.api_retry, old(state)@, pane@, is_retrying, stamp@, now),
        final(state)@ == polled(config.api_retry, old(state)@, pane@, is_retrying, stamp@, now),
{
    proof {
        reveal(crate::state::state_view);
    }
    if !config.api_retry.enabled || pane.is_empty() {
        return ApiRetryOutcome::Off;
    }
    let held = is_api_retry_suppressing_at(config, state, now);
    let (count, first, holds) = evaluate_api_retry_state_at(
        is_retrying,
        state.api_retry_consecutive,
        as_opt_str(&state.api_retry_first_seen),
        config.api_retry.consecutive,
        config.api_retry.max_stuck_secs,
        stamp,
        now,
    );
    let total: u64 = if holds {
        state.api_retry_suppressions_total.saturating_add(1)
    } else {
        state.api_retry_suppressions_total
    };
    note_episode(state, count, first, total);
    if holds && held {
        ApiRetryOutcome::Continues
    } else if holds {
        ApiRetryOutcome::Started
    } else if held {
        ApiRetryOutcome::Ended
    } else {
        ApiRetryOutcome::Clear
    }
}

/// What a poll reports is what the state then says: interrupts are held back
/// right after a poll exactly when its outcome says so.
pub proof fn outcome_agrees_with_state(
    c: ApiRetryConfig,
    s: StateView,
    pane: Seq<char>,
    is_retrying: bool,
    stamp: Seq<char>,
    now: Moment,
)
    requires
        c.enabled,
        pane.len() > 0,
    ensures
        poll_outcome(c, s, pane, is_retrying, stamp, now).holds_back() == suppressing(
            c,
            polled(c, s, pane, is_retrying, stamp, now),
            now,
        ),
{
}

/// An episode ends with the first poll that shows no banner, and what follows is
/// a new episode with a stamp of its own.
pub proof fn episodes_do_not_share_stamps(
    consecutive: u32,
    first_seen: Option<Seq<char>>,
    threshold: u32,
    max_stuck_secs: u64,
    stamp: Seq<char>,
    now: Moment,
    later_stamp: Seq<char>,
    later: Moment,
)
    ensures
        ({
            let ended = retry_after_poll(
                false,
                consecutive,
                first_seen,
                threshold,
                max_stuck_secs,
                stamp,
                now,
            );
            &&& ended == (0u32, None::<Seq<char>>, false)
            &&& retry_after_poll(
                true,
                ended.0,
                ended.1,
                threshold,
                max_stuck_secs,
                later_stamp,
                later,
            ).1 == Some(later_stamp)
        }),
{
}

/// A retry that has gone on past its bound counts as a failure: it no longer holds interrupts
/// back, however often it is seen again.
pub proof fn endless_retry_holds_nothing_back(
    c: ApiRetryConfig,
    s: StateView,
    pane: Seq<char>,
    is_retrying: bool,
    stamp: Seq<char>,
    now: Moment,
)
    requires
        outlived(s.api_retry_first_seen, c.max_stuck_secs, now),
    ensures
        !suppressing(c, s, now),
        !poll_outcome(c, s, pane, is_retrying, stamp, now).holds_back(),
        is_retrying ==> polled(c, s, pane, is_retrying, stamp, now).api_retry_first_seen
            == s.api_retry_first_seen,
{
}

/// A retry holds interrupts back from the required poll in a row on, and until the episode, by
/// the stamp of its first poll, is older than its bound; zero is no bound.
pub proof fn retry_holds_back_within_its_bounds(
    is_retrying: bool,
    consecutive: u32,
    first_seen: Option<Seq<char>>,
    threshold: u32,
    max_stuck_secs: u64,
    stamp: Seq<char>,
    now: Moment,
)
    requires
        consecutive < u32::MAX,
    ensures
        ({
            let (count, first, holds) = retry_after_poll(
                is_retrying,
                consecutive,
                first_seen,
                threshold,
                max_stuck_secs,
                stamp,
                now,
            );
            &&& is_retrying ==> count == consecutive + 1 && first is Some
            &&& is_retrying && first_seen is Some ==> first == first_seen
            &&& is_retrying && first_seen is None ==> first == Some(stamp)
            &&& !is_retrying ==> count == 0 && first is None
            &&& holds <==> is_retrying && consecutive + 1 >= threshold && (max_stuck_secs == 0
                || !time::elapsed_over(first, now, max_stuck_secs as int))
        }),
{
}

/// Interrupts are held back exactly by an episode that is long enough and has not outlived its
/// bound, where retries are looked for at all.
pub proof fn recorded_episode_holds_back(c: ApiRetryConfig, s: StateView, now: Moment)
    ensures
        suppressing(c, s, now) <==> c.enabled && s.api_retry_consecutive >= c.consecutive
            && s.api_retry_first_seen is Some && (c.max_stuck_secs == 0 || !time::elapsed_over(
            s.api_retry_first_seen,
            now,
            c.max_stuck_secs as int,
        )),
{
}

/// What a poll reports and leaves behind: nothing without a pane; otherwise the episode, its
/// change, and one more suppression in the count where interrupts are held back.
pub proof fn poll_is_on_record(
    c: ApiRetryConfig,
    s: StateView,
    pane: Seq<char>,
    is_retrying: bool,
    stamp: Seq<char>,
    now: Moment,
)
    requires
        s.api_retry_consecutive < u32::MAX,
        s.api_retry_suppressions_total < u64::MAX,
    ensures
        ({
            let outcome = poll_outcome(c, s, pane, is_retrying, stamp, now);
            let n = polled(c, s, pane, is_retrying, stamp, now);
            let on = c.enabled && pane.len() > 0;
            let before = suppressing(c, s, now);
            &&& outcome == ApiRetryOutcome::Off <==> !on
            &&& !on ==> n == s
            &&& on && !is_retrying ==> n.api_retry_consecutive == 0 && n.api_retry_first_seen is None
                && !outcome.holds_back()
            &&& on && is_retrying ==> n.api_retry_consecutive == s.api_retry_consecutive + 1
            &&& on && is_retrying && s.api_retry_first_seen is Some ==> n.api_retry_first_seen
                == s.api_retry_first_seen
            &&& on && is_retrying && s.api_retry_first_seen is None ==> n.api_retry_first_seen
                == Some(stamp)
            &&& n.api_retry_suppressions_total == s.api_retry_suppressions_total + (
            if outcome.holds_back() {
                1int
            } else {
                0
            })
            &&& outcome.holds_back() ==> (outcome == ApiRetryOutcome::Continues <==> before)
            &&& on && !outcome.holds_back() ==> (outcome == ApiRetryOutcome::Ended <==> before)
        }),
{
}

} // verus!
