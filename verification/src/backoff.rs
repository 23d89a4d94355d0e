//! Exponential backoff: the waiting time before an interrupt is repeated.
use vstd::arithmetic::power::{lemma0_pow, lemma_pow_increases, pow};
use vstd::prelude::*;

verus! {

/// `base * factor^steps`, capped at `cap`.
pub open spec fn capped_power(base: int, factor: int, steps: nat, cap: int) -> int {
    if base * pow(factor, steps) <= cap {
        base * pow(factor, steps)
    } else {
        cap
    }
}

/// The global cooldown after `streak` interrupts without a quiet window: the
/// plain base while there is no growth to apply, else the capped power.
pub open spec fn effective_cooldown(base: int, factor: int, cap: int, streak: nat) -> int {
    if factor <= 1 || streak == 0 {
        base
    } else {
        capped_power(base, factor, streak, cap)
    }
}

proof fn lemma_pow_step(factor: int, i: nat)
    ensures
        pow(factor, i + 1) == pow(factor, i) * factor,
        pow(factor, 0) == 1,
{
    reveal(pow);
    assert(pow(factor, i + 1) == factor * pow(factor, i));
    assert(factor * pow(factor, i) == pow(factor, i) * factor) by (nonlinear_arith);
}

/// Once a power has reached the cap, every later power of the same factor has.
proof fn lemma_cap_stays(base: int, factor: int, i: nat, n: nat, cap: int)
    requires
        base >= 0,
        factor >= 0,
        cap >= 0,
        1 <= i <= n,
        base * pow(factor, i) >= cap,
    ensures
        capped_power(base, factor, n, cap) == cap,
{
    if factor == 0 {
        lemma0_pow(i);
        lemma0_pow(n);
        assert(base * 0 == 0);
    } else {
        lemma_pow_increases(factor as nat, i, n);
        let low = pow(factor, i);
        let high = pow(factor, n);
        assert(base * low <= base * high) by (nonlinear_arith)
            requires
                base >= 0,
                low <= high,
        ;
    }
}

/// The shared loop: multiplies `base` by `factor`, `steps` times, and stops at
/// the cap.
fn grow_to_cap(base: u64, factor: u64, steps: u32, cap: u64) -> (r: u64)
    ensures
        r == capped_power(base as int, factor as int, steps as nat, cap as int),
{
    let mut value: u64 = base;
    let mut i: u32 = 0;
    proof {
        lemma_pow_step(factor as int, 0);
        assert(base * 1 == base);
    }
    while i < steps
        invariant
            i <= steps,
            value == base * pow(factor as int, i as nat),
        decreases steps - i,
    {
        proof {
            lemma_pow_step(factor as int, i as nat);
            let p = pow(factor as int, i as nat);
            assert(base * (p * factor) == (base * p) * factor) by (nonlinear_arith);
        }
        let ghost next = base * pow(factor as int, (i + 1) as nat);
        assert(next == value * factor);
        value = match value.checked_mul(factor) {
            Some(v) => v,
            None => u64::MAX,
        };
        if value >= cap {
            proof {
                lemma_cap_stays(base as int, factor as int, (i + 1) as nat, steps as nat, cap as int);
            }
            return cap;
        }
        i = i + 1;
    }
    if value <= cap {
        value
    } else {
        cap
    }
}

/// Waiting time before the thinking interrupt number `interrupt_count` (from
/// zero): the base, doubled for each earlier interrupt, and never over the cap.
pub fn thinking_backoff_threshold(
    base_threshold: u64,
    max_backoff: u64,
    interrupt_count: u32,
) -> (r: u64)
    ensures
        r == capped_power(
            base_threshold as int,
            2,
            interrupt_count as nat,
            max_backoff as int,
        ),
{
    thinking_backoff_threshold_with_multiplier(base_threshold, max_backoff, interrupt_count, 2)
}

/// [`thinking_backoff_threshold`] with a factor other than two.
pub fn thinking_backoff_threshold_with_multiplier(
    base_threshold: u64,
    max_backoff: u64,
    interrupt_count: u32,
    multiplier: u64,
) -> (r: u64)
    ensures
        r == capped_power(
            base_threshold as int,
            multiplier as int,
            interrupt_count as nat,
            max_backoff as int,
        ),
{
    grow_to_cap(base_threshold, multiplier, interrupt_count, max_backoff)
}

/// The global cooldown in force after `interrupt_streak` claimed interrupts. A
/// factor of zero or one keeps the cooldown flat.
pub fn effective_global_cooldown_secs(
    base: u64,
    backoff_base: u64,
    max_secs: u64,
    interrupt_streak: u32,
) -> (r: u64)
    ensures
        r == effective_cooldown(
            base as int,
            backoff_base as int,
            max_secs as int,
            interrupt_streak as nat,
        ),
{
    if backoff_base <= 1 || interrupt_streak == 0 {
        return base;
    }
    grow_to_cap(base, backoff_base, interrupt_streak, max_secs)
}

/// Backoff never exceeds its cap, and never shrinks from one interrupt to the
/// next as long as the factor is at least one.
pub proof fn backoff_is_capped_and_monotone(base: u64, factor: u64, m: u32, n: u32, cap: u64)
    requires
        factor >= 1,
        m <= n,
    ensures
        capped_power(base as int, factor as int, n as nat, cap as int) <= cap,
        capped_power(base as int, factor as int, m as nat, cap as int) <= capped_power(
            base as int,
            factor as int,
            n as nat,
            cap as int,
        ),
{
    lemma_pow_increases(factor as nat, m as nat, n as nat);
    let low = pow(factor as int, m as nat);
    let high = pow(factor as int, n as nat);
    assert(base * low <= base * high) by (nonlinear_arith)
        requires
            base >= 0,
            low <= high,
    ;
}

/// Before the first interrupt the waiting time is the base itself, as far as
/// the cap allows.
pub proof fn backoff_starts_at_base(base: u64, factor: u64, cap: u64)
    ensures
        capped_power(base as int, factor as int, 0, cap as int) == (if base <= cap {
            base as int
        } else {
            cap as int
        }),
{
    lemma_pow_step(factor as int, 0);
}

/// A longer streak never shortens the global cooldown, provided that the cap is
/// not below the base.
pub proof fn cooldown_grows_with_streak(base: u64, factor: u64, cap: u64, m: u32, n: u32)
    requires
        base <= cap,
        m <= n,
    ensures
        effective_cooldown(base as int, factor as int, cap as int, m as nat) <= effective_cooldown(
            base as int,
            factor as int,
            cap as int,
            n as nat,
        ),
        effective_cooldown(base as int, factor as int, cap as int, n as nat) <= cap,
{
    if factor > 1 {
        backoff_starts_at_base(base, factor, cap);
        backoff_is_capped_and_monotone(base, factor, m, n, cap);
        backoff_is_capped_and_monotone(base, factor, 0, n, cap);
        backoff_is_capped_and_monotone(base, factor, 0, m, cap);
    }
}

/// Each step of a backoff multiplies by the factor, as long as that stays within the cap; past
/// it the cap stands.
pub proof fn backoff_multiplies_step_by_step(base: int, factor: int, n: nat, cap: int)
    requires
        base >= 0,
        factor >= 1,
        cap >= 0,
    ensures
        capped_power(base, factor, n, cap) * factor <= cap && capped_power(base, factor, n, cap)
            < cap ==> capped_power(base, factor, n + 1, cap) == capped_power(base, factor, n, cap)
            * factor,
        capped_power(base, factor, n, cap) * factor > cap ==> capped_power(
            base,
            factor,
            n + 1,
            cap,
        ) == cap,
{
    lemma_pow_step(factor, n);
    let p = pow(factor, n);
    assert(base * (p * factor) == (base * p) * factor) by (nonlinear_arith);
    assert(base * p <= (base * p) * factor || base * p < 0) by (nonlinear_arith)
        requires
            factor >= 1,
    ;
    lemma_pow_increases(factor as nat, 0, n);
    assert(base * p >= 0) by (nonlinear_arith)
        requires
            base >= 0,
            p >= 1,
    ;
    if base * p > cap {
        assert((base * p) * factor >= base * p);
    }
}

/// The global cooldown is the base for the first interrupt of a streak, and for all of them
/// with a flat factor; otherwise it backs off.
pub proof fn cooldown_backs_off_within_a_streak(base: int, factor: int, cap: int, streak: nat)
    ensures
        factor <= 1 ==> effective_cooldown(base, factor, cap, streak) == base,
        effective_cooldown(base, factor, cap, 0) == base,
        factor > 1 && streak > 0 ==> effective_cooldown(base, factor, cap, streak) == capped_power(
            base,
            factor,
            streak,
            cap,
        ),
{
}

} // verus!
