//! Token readings: progress of a thinking episode, and readings that vanish for
//! a moment.
use crate::time;
use vstd::prelude::*;

verus! {

/// What a token reading means for the thinking timer.
#[derive(Debug, Clone, Copy, PartialEq, Eq, Structural)]
pub enum ThinkingTokenAction {
    /// Leave the timer running.
    Keep,
    /// No baseline yet: take this reading, leave the timer running.
    CaptureBaseline,
    /// Enough growth: start the timer again from this reading.
    Rearm,
    /// The count went backwards: start the timer again from this reading.
    RearmCounterReset,
}

/// The meaning of the reading `current` against the baseline `start`. Without a
/// floor, or without a reading, the timer is left alone.
pub open spec fn token_action(start: Option<u64>, current: u64, floor: u64) -> ThinkingTokenAction {
    if floor == 0 || current == 0 {
        ThinkingTokenAction::Keep
    } else {
        match start {
            None => ThinkingTokenAction::CaptureBaseline,
            Some(s) => if current < s {
                ThinkingTokenAction::RearmCounterReset
            } else if current - s >= floor {
                ThinkingTokenAction::Rearm
            } else {
                ThinkingTokenAction::Keep
            },
        }
    }
}

/// The action starts the timer again.
pub open spec fn rearms(action: ThinkingTokenAction) -> bool {
    action == ThinkingTokenAction::Rearm || action == ThinkingTokenAction::RearmCounterReset
}

/// [`token_action`], executable.
pub fn thinking_token_progress_action(
    episode_start_tokens: Option<u64>,
    current_tokens: u64,
    min_tokens_delta: u64,
) -> (r: ThinkingTokenAction)
    ensures
        r == token_action(episode_start_tokens, current_tokens, min_tokens_delta),
{
    if min_tokens_delta == 0 || current_tokens == 0 {
        return ThinkingTokenAction::Keep;
    }
    match episode_start_tokens {
        None => ThinkingTokenAction::CaptureBaseline,
        Some(start) => if current_tokens < start {
            ThinkingTokenAction::RearmCounterReset
        } else if current_tokens - start >= min_tokens_delta {
            ThinkingTokenAction::Rearm
        } else {
            ThinkingTokenAction::Keep
        },
    }
}

/// The thinking timer after a reading.
pub open spec fn timer_after(
    start: Option<Seq<char>>,
    action: ThinkingTokenAction,
    stamp: Seq<char>,
) -> Option<Seq<char>> {
    if rearms(action) {
        Some(stamp)
    } else {
        start
    }
}

/// The token baseline after a reading.
pub open spec fn baseline_after(
    baseline: Option<u64>,
    action: ThinkingTokenAction,
    current: u64,
) -> Option<u64> {
    if action == ThinkingTokenAction::Keep {
        baseline
    } else {
        Some(current)
    }
}

/// The label of an action that starts the timer again.
pub open spec fn rearm_label(action: ThinkingTokenAction) -> Option<Seq<char>> {
    match action {
        ThinkingTokenAction::Rearm => Some("token_progress_rearm"@),
        ThinkingTokenAction::RearmCounterReset => Some("token_counter_reset"@),
        _ => None,
    }
}

/// Applies a reading to the thinking timer and its baseline. Says why when the
/// timer was started again.
pub fn apply_thinking_token_progress(
    thinking_start: &mut Option<String>,
    episode_start_tokens: &mut Option<u64>,
    current_tokens: u64,
    min_tokens_delta: u64,
    now: &str,
) -> (r: Option<&'static str>)
    ensures
        ({
            let action = token_action(*old(episode_start_tokens), current_tokens, min_tokens_delta);
            &&& time::opt_string_view(*final(thinking_start)) == timer_after(
                time::opt_string_view(*old(thinking_start)),
                action,
                now@,
            )
            &&& *final(episode_start_tokens) == baseline_after(
                *old(episode_start_tokens),
                action,
                current_tokens,
            )
            &&& time::opt_str_view(r) == rearm_label(action)
        }),
{
    match thinking_token_progress_action(*episode_start_tokens, current_tokens, min_tokens_delta) {
        ThinkingTokenAction::Keep => None,
        ThinkingTokenAction::CaptureBaseline => {
            *episode_start_tokens = Some(current_tokens);
            None
        },
        ThinkingTokenAction::Rearm => {
            *thinking_start = Some(now.to_owned());
            *episode_start_tokens = Some(current_tokens);
            Some("token_progress_rearm")
        },
        ThinkingTokenAction::RearmCounterReset => {
            *thinking_start = Some(now.to_owned());
            *episode_start_tokens = Some(current_tokens);
            Some("token_counter_reset")
        },
    }
}

/// The acknowledgement is young enough to pass for a sign of life. A gate of
/// zero is switched off, and an unknown age is no sign of life.
pub open spec fn ack_fresh(age: Option<u64>, fresh_secs: u64) -> bool {
    fresh_secs > 0 && (age matches Some(a) && a < fresh_secs)
}

/// A reading of zero is no reading.
pub open spec fn reading(tokens: u64) -> Option<u64> {
    if tokens > 0 {
        Some(tokens)
    } else {
        None
    }
}

/// [`reading`], executable.
pub fn token_reading(tokens: u64) -> (r: Option<u64>)
    ensures
        r == reading(tokens),
{
    if tokens > 0 {
        Some(tokens)
    } else {
        None
    }
}

/// Holds a thinking fire back when the last acknowledgement is fresh: the timer
/// and its baseline start again from now. Otherwise nothing is touched.
pub fn apply_ack_fresh_rearm(
    thinking_start: &mut Option<String>,
    episode_start_tokens: &mut Option<u64>,
    ack_age_secs: Option<u64>,
    ack_fresh_secs: u64,
    current_tokens: u64,
    now: &str,
) -> (r: bool)
    ensures
        r == ack_fresh(ack_age_secs, ack_fresh_secs),
        r ==> time::opt_string_view(*final(thinking_start)) == Some(now@)
            && *final(episode_start_tokens) == reading(current_tokens),
        !r ==> *final(thinking_start) == *old(thinking_start) && *final(episode_start_tokens)
            == *old(episode_start_tokens),
{
    if ack_fresh_secs == 0 {
        return false;
    }
    match ack_age_secs {
        Some(age) => {
            if age >= ack_fresh_secs {
                return false;
            }
            *thinking_start = Some(now.to_owned());
            *episode_start_tokens = token_reading(current_tokens);
            true
        },
        None => false,
    }
}

/// How many zero readings in a row are bridged with the last reading.
pub const MISPARSE_CARRY_MAX: u32 = 3;

/// The reading to go by, and the length of the carry run: a real reading stands
/// and ends the run; a zero after a large reading is bridged, as long as the run
/// is short enough; any other zero stands.
pub open spec fn carried(
    current: u64,
    last_known: u64,
    carry_count: u32,
    carry_floor: u64,
    max_carry: u32,
) -> (u64, u32) {
    if current > 0 {
        (current, 0)
    } else if last_known >= carry_floor && carry_count < max_carry {
        (last_known, (carry_count + 1) as u32)
    } else {
        (0, carry_count)
    }
}

/// [`carried`], executable.
pub fn carry_forward_token_misparse(
    current: u64,
    last_known: u64,
    carry_count: u32,
    carry_floor: u64,
    max_carry: u32,
) -> (r: (u64, u32))
    ensures
        r == carried(current, last_known, carry_count, carry_floor, max_carry),
{
    if current > 0 {
        return (current, 0);
    }
    if last_known >= carry_floor && carry_count < max_carry {
        return (last_known, carry_count + 1);
    }
    (0, carry_count)
}

/// The reading and the carry run after `n` polls in a row that read zero.
pub open spec fn after_zero_polls(
    n: nat,
    last_known: u64,
    carry_count: u32,
    carry_floor: u64,
    max_carry: u32,
) -> (u64, u32)
    decreases n,
{
    if n == 0 {
        (last_known, carry_count)
    } else {
        let (tokens, count) = after_zero_polls(
            (n - 1) as nat,
            last_known,
            carry_count,
            carry_floor,
            max_carry,
        );
        carried(0, tokens, count, carry_floor, max_carry)
    }
}

/// A real clear is delayed and never swallowed: a large reading is bridged over
/// the first `max_carry` zero polls, and the zero stands from then on.
pub proof fn zero_polls_register_at_last(
    n: nat,
    last_known: u64,
    carry_floor: u64,
    max_carry: u32,
)
    requires
        last_known >= carry_floor,
        carry_floor > 0,
    ensures
        n <= max_carry ==> after_zero_polls(n, last_known, 0, carry_floor, max_carry) == (
            last_known,
            n as u32,
        ),
        n > max_carry ==> after_zero_polls(n, last_known, 0, carry_floor, max_carry) == (
            0u64,
            max_carry,
        ),
    decreases n,
{
    if n > 0 {
        zero_polls_register_at_last((n - 1) as nat, last_known, carry_floor, max_carry);
    }
}

/// A small reading is never bridged, so a fresh session is seen as one at once.
pub proof fn small_reading_is_not_carried(
    last_known: u64,
    carry_count: u32,
    carry_floor: u64,
    max_carry: u32,
)
    requires
        last_known < carry_floor,
    ensures
        carried(0, last_known, carry_count, carry_floor, max_carry) == (0u64, carry_count),
{
}

/// The timer runs only over time without token progress: it is started again
/// exactly when the reading has grown by the floor or has gone backwards.
pub proof fn timer_restarts_on_progress_only(start: u64, current: u64, floor: u64)
    requires
        floor > 0,
        current > 0,
    ensures
        rearms(token_action(Some(start), current, floor)) <==> current < start || current - start
            >= floor,
{
}

/// A reading without a baseline becomes the baseline and leaves the timer running; one that
/// has grown by the floor, or has gone backwards, starts the timer again and becomes the
/// baseline; any other reading, and every reading without a floor, changes nothing.
pub proof fn reading_moves_timer_and_baseline(
    start: Option<Seq<char>>,
    baseline: Option<u64>,
    current: u64,
    floor: u64,
    stamp: Seq<char>,
)
    ensures
        ({
            let action = token_action(baseline, current, floor);
            let counts = floor > 0 && current > 0;
            let moved = counts && baseline is Some && (current < baseline->0 || current
                - baseline->0 >= floor);
            &&& timer_after(start, action, stamp) == (if moved {
                Some(stamp)
            } else {
                start
            })
            &&& baseline_after(baseline, action, current) == (if moved || (counts && baseline
                is None) {
                Some(current)
            } else {
                baseline
            })
            &&& rearm_label(action) is Some <==> moved
            &&& moved && current < baseline->0 ==> rearm_label(action) == Some(
                "token_counter_reset"@,
            )
            &&& moved && current >= baseline->0 ==> rearm_label(action) == Some(
                "token_progress_rearm"@,
            )
        }),
{
}

/// An acknowledgement passes for a sign of life exactly where it is known, and younger than a
/// bound that is set; a reading of zero is none.
pub proof fn signs_have_to_be_there(age: Option<u64>, fresh_secs: u64, tokens: u64)
    ensures
        ack_fresh(age, fresh_secs) ==> age is Some && age->0 < fresh_secs,
        age matches Some(a) && a < fresh_secs ==> ack_fresh(age, fresh_secs),
        reading(tokens) is Some <==> tokens > 0,
        reading(tokens) matches Some(t) ==> t == tokens,
{
}

/// A real reading always stands and ends the run; a zero stands unless the last reading was
/// large and the run is short.
pub proof fn real_reading_always_stands(
    current: u64,
    last_known: u64,
    carry_count: u32,
    carry_floor: u64,
    max_carry: u32,
)
    ensures
        ({
            let (tokens, count) = carried(current, last_known, carry_count, carry_floor, max_carry);
            &&& current > 0 ==> tokens == current && count == 0
            &&& current == 0 && last_known >= carry_floor && carry_count < max_carry ==> tokens
                == last_known && count == carry_count + 1
            &&& current == 0 && (last_known < carry_floor || carry_count >= max_carry) ==> tokens
                == 0 && count == carry_count
        }),
{
}

} // verus!
