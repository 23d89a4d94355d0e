//! The global interrupt gate: one interrupt at a time, with a cooldown that
//! widens while interrupts keep coming.
use crate::backoff;
use crate::backoff::effective_global_cooldown_secs;
use crate::state::{State, StateView};
use crate::time;
use crate::time::{as_opt_str, current_moment, stamp_at_least, stamp_under, Moment};
use vstd::prelude::*;

verus! {

/// Some interrupt fired less than `cooldown_secs` seconds before `now`. A
/// cooldown of zero is never active, and neither is one that hangs on a stamp
/// that does not parse.
pub open spec fn in_global_cooldown(s: StateView, cooldown_secs: int, now: Moment) -> bool {
    cooldown_secs > 0 && time::elapsed_under(s.last_interrupt_at, now, cooldown_secs)
}

/// The cooldown that a claim has to wait out in state `s`.
pub open spec fn claim_cooldown(s: StateView, base: u64, factor: u64, cap: u64) -> int {
    backoff::effective_cooldown(
        base as int,
        factor as int,
        cap as int,
        s.global_interrupt_streak as nat,
    )
}

/// Whether a claim at `now` is granted.
pub open spec fn claim_granted(s: StateView, base: u64, factor: u64, cap: u64, now: Moment) -> bool {
    !in_global_cooldown(s, claim_cooldown(s, base, factor, cap), now)
}

/// The state after a claim at `now`, stamped `stamp`. A refused claim leaves
/// everything as it was. A granted one leaves its stamp and lengthens the
/// streak, which starts again from zero once a full cooldown has passed quietly.
pub open spec fn claim_next(
    s: StateView,
    base: u64,
    factor: u64,
    cap: u64,
    now: Moment,
    stamp: Seq<char>,
) -> StateView {
    if claim_granted(s, base, factor, cap, now) {
        let quiet = time::elapsed_at_least(
            s.last_interrupt_at,
            now,
            claim_cooldown(s, base, factor, cap),
        );
        let streak: u32 = if quiet {
            0
        } else {
            s.global_interrupt_streak
        };
        StateView {
            last_interrupt_at: Some(stamp),
            global_interrupt_streak: streak.saturating_add(1),
            ..s
        }
    } else {
        s
    }
}

/// Whether some interrupt fired less than `cooldown_secs` seconds before `now`.
pub fn interrupt_in_global_cooldown_at(state: &State, cooldown_secs: u64, now: Moment) -> (r: bool)
    ensures
        r == in_global_cooldown(state@, cooldown_secs as int, now),
{
    proof {
        reveal(crate::state::state_view);
    }
    if cooldown_secs == 0 {
        return false;
    }
    stamp_under(as_opt_str(&state.last_interrupt_at), now, cooldown_secs)
}

/// Whether some interrupt fired within the last `cooldown_secs` seconds. The
/// watcher-down inject does not ask: a watcher that is down is a failure of
/// liveness that must not wait behind another interrupt.
pub fn interrupt_in_global_cooldown(state: &State, cooldown_secs: u64) -> (r: bool)
    ensures
        exists|now: Moment|
            r == #[trigger] in_global_cooldown(state@, cooldown_secs as int, now),
{
    let now = current_moment();
    interrupt_in_global_cooldown_at(state, cooldown_secs, now)
}

/// Checks and stamps the global gate in one step, at the instant `at`: the
/// single point that an interrupt passes right before it fires.
pub fn try_claim_global_interrupt_at(
    state: &mut State,
    base_cooldown_secs: u64,
    backoff_base: u64,
    max_secs: u64,
    now: &str,
    at: Moment,
) -> (r: bool)
    ensures
        r == claim_granted(old(state)@, base_cooldown_secs, backoff_base, max_secs, at),
        final(state)@ == claim_next(
            old(state)@,
            base_cooldown_secs,
            backoff_base,
            max_secs,
            at,
            now@,
        ),
{
    proof {
        reveal(crate::state::state_view);
    }
    let effective: u64 = effective_global_cooldown_secs(
        base_cooldown_secs,
        backoff_base,
        max_secs,
        state.global_interrupt_streak,
    );
    if interrupt_in_global_cooldown_at(state, effective, at) {
        return false;
    }
    let quiet = stamp_at_least(as_opt_str(&state.last_interrupt_at), at, effective);
    let streak: u32 = if quiet {
        0
    } else {
        state.global_interrupt_streak
    };
    state.last_interrupt_at = Some(now.to_owned());
    state.global_interrupt_streak = streak.saturating_add(1);
    true
}

/// [`try_claim_global_interrupt_at`], at the present instant.
pub fn try_claim_global_interrupt(
    state: &mut State,
    base_cooldown_secs: u64,
    backoff_base: u64,
    max_secs: u64,
    now: &str,
) -> (r: bool)
    ensures
        exists|at: Moment|
            r == claim_granted(old(state)@, base_cooldown_secs, backoff_base, max_secs, at)
                && final(state)@ == #[trigger] claim_next(
                old(state)@,
                base_cooldown_secs,
                backoff_base,
                max_secs,
                at,
                now@,
            ),
{
    let at = current_moment();
    try_claim_global_interrupt_at(state, base_cooldown_secs, backoff_base, max_secs, now, at)
}

/// Two interrupts never fire within one cooldown: after a claim that was granted
/// at the instant its stamp names, every claim is refused, and changes nothing,
/// until the cooldown of the new state has passed.
pub proof fn granted_claim_blocks_the_next(
    s: StateView,
    base: u64,
    factor: u64,
    cap: u64,
    at: Moment,
    stamp: Seq<char>,
    later: Moment,
    later_stamp: Seq<char>,
)
    requires
        claim_granted(s, base, factor, cap, at),
        time::stamp_moment(stamp) == Some(at),
        time::millis_between(at, later) < claim_cooldown(
            claim_next(s, base, factor, cap, at, stamp),
            base,
            factor,
            cap,
        ) * 1000,
        claim_cooldown(claim_next(s, base, factor, cap, at, stamp), base, factor, cap) > 0,
    ensures
        !claim_granted(claim_next(s, base, factor, cap, at, stamp), base, factor, cap, later),
        claim_next(
            claim_next(s, base, factor, cap, at, stamp),
            base,
            factor,
            cap,
            later,
            later_stamp,
        ) == claim_next(s, base, factor, cap, at, stamp),
{
}

/// A cooldown of zero switches the cooldown off, whatever the factor: every claim is
/// granted, and still leaves its stamp.
pub proof fn zero_cooldown_always_grants(
    s: StateView,
    factor: u64,
    cap: u64,
    at: Moment,
    stamp: Seq<char>,
)
    ensures
        claim_granted(s, 0, factor, cap, at),
        claim_next(s, 0, factor, cap, at, stamp).last_interrupt_at == Some(stamp),
{
    let power = vstd::arithmetic::power::pow(factor as int, s.global_interrupt_streak as nat);
    assert(0 * power == 0);
}

/// A full cooldown without an interrupt takes the backoff back to its start: the
/// claim is granted and counts as the first of a new streak.
pub proof fn quiet_window_resets_streak(
    s: StateView,
    base: u64,
    factor: u64,
    cap: u64,
    at: Moment,
    stamp: Seq<char>,
)
    requires
        time::elapsed_at_least(s.last_interrupt_at, at, claim_cooldown(s, base, factor, cap)),
    ensures
        claim_granted(s, base, factor, cap, at),
        claim_next(s, base, factor, cap, at, stamp).global_interrupt_streak == 1,
{
}

/// A claim is granted exactly where the cooldown is zero, no interrupt is on record with a
/// readable stamp, or the last one is at least the cooldown old.
pub proof fn claim_waits_for_the_cooldown(
    s: StateView,
    base: u64,
    factor: u64,
    cap: u64,
    now: Moment,
)
    ensures
        claim_granted(s, base, factor, cap, now) <==> claim_cooldown(s, base, factor, cap) <= 0
            || s.last_interrupt_at is None || time::stamp_moment(s.last_interrupt_at->0) is None
            || time::elapsed_at_least(
            s.last_interrupt_at,
            now,
            claim_cooldown(s, base, factor, cap),
        ),
        s.global_interrupt_streak == 0 || factor <= 1 ==> claim_cooldown(s, base, factor, cap)
            == base,
{
}

/// A granted claim leaves its stamp and lengthens the streak by one, from zero after a quiet
/// cooldown; a refused one changes nothing; neither touches anything else.
pub proof fn claim_is_on_record(
    s: StateView,
    base: u64,
    factor: u64,
    cap: u64,
    now: Moment,
    stamp: Seq<char>,
)
    ensures
        ({
            let n = claim_next(s, base, factor, cap, now, stamp);
            let granted = claim_granted(s, base, factor, cap, now);
            &&& !granted ==> n == s
            &&& granted ==> n.last_interrupt_at == Some(stamp)
            &&& granted && !time::elapsed_at_least(
                s.last_interrupt_at,
                now,
                claim_cooldown(s, base, factor, cap),
            ) && s.global_interrupt_streak < u32::MAX ==> n.global_interrupt_streak
                == s.global_interrupt_streak + 1
            &&& n == (StateView {
                last_interrupt_at: n.last_interrupt_at,
                global_interrupt_streak: n.global_interrupt_streak,
                ..s
            })
        }),
{
}

} // verus!
