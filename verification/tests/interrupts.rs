//! The global cooldown between interrupts.
use chrono::Utc;
use claude_watch_policy::backoff::effective_global_cooldown_secs;
use claude_watch_policy::interrupts::{interrupt_in_global_cooldown, try_claim_global_interrupt};
use claude_watch_policy::state::State;

#[test]
fn test_global_cooldown_disabled_when_zero() {
    let mut state = State::default();
    state.last_interrupt_at = Some(Utc::now().to_rfc3339());
    assert!(!interrupt_in_global_cooldown(&state, 0));
}

#[test]
fn test_global_cooldown_inactive_when_no_prior_interrupt() {
    let state = State::default();
    assert!(!interrupt_in_global_cooldown(&state, 60));
}

#[test]
fn test_global_cooldown_active_within_window() {
    let mut state = State::default();
    let ts = Utc::now() - chrono::Duration::seconds(10);
    state.last_interrupt_at = Some(ts.to_rfc3339());
    assert!(interrupt_in_global_cooldown(&state, 60));
}

#[test]
fn test_global_cooldown_expired_after_window() {
    let mut state = State::default();
    let ts = Utc::now() - chrono::Duration::seconds(120);
    state.last_interrupt_at = Some(ts.to_rfc3339());
    assert!(!interrupt_in_global_cooldown(&state, 60));
}

#[test]
fn test_global_cooldown_ignores_malformed_timestamp() {
    let mut state = State::default();
    state.last_interrupt_at = Some("not a date".to_string());
    assert!(!interrupt_in_global_cooldown(&state, 60));
}

#[test]
fn test_try_claim_global_interrupt_grants_when_no_prior() {
    let mut state = State::default();
    let now = Utc::now().to_rfc3339();
    assert!(try_claim_global_interrupt(&mut state, 300, 1, 1800, &now));
    assert_eq!(state.last_interrupt_at.as_deref(), Some(now.as_str()));
    assert_eq!(state.global_interrupt_streak, 1);
}

#[test]
fn test_try_claim_global_interrupt_denies_within_cooldown() {
    let mut state = State::default();
    let prior = (Utc::now() - chrono::Duration::seconds(10)).to_rfc3339();
    state.last_interrupt_at = Some(prior.clone());
    let now = Utc::now().to_rfc3339();
    assert!(!try_claim_global_interrupt(&mut state, 300, 1, 1800, &now));
    assert_eq!(
        state.last_interrupt_at.as_deref(),
        Some(prior.as_str()),
        "denied claim must not move the timestamp"
    );
}

#[test]
fn test_try_claim_global_interrupt_grants_after_window() {
    let mut state = State::default();
    let prior = (Utc::now() - chrono::Duration::seconds(400)).to_rfc3339();
    state.last_interrupt_at = Some(prior);
    let now = Utc::now().to_rfc3339();
    assert!(try_claim_global_interrupt(&mut state, 300, 1, 1800, &now));
    assert_eq!(state.last_interrupt_at.as_deref(), Some(now.as_str()));
}

#[test]
fn test_try_claim_global_interrupt_zero_cooldown_always_grants() {
    let mut state = State::default();
    state.last_interrupt_at = Some(Utc::now().to_rfc3339());
    let now = Utc::now().to_rfc3339();
    assert!(try_claim_global_interrupt(&mut state, 0, 1, 1800, &now));
    assert_eq!(state.last_interrupt_at.as_deref(), Some(now.as_str()));
}

#[test]
fn test_try_claim_backoff_base_1_is_flat_legacy() {
    let mut state = State::default();
    state.global_interrupt_streak = 5;
    let prior = (Utc::now() - chrono::Duration::seconds(100)).to_rfc3339();
    state.last_interrupt_at = Some(prior.clone());
    let now = Utc::now().to_rfc3339();
    assert!(
        !try_claim_global_interrupt(&mut state, 300, 1, 1800, &now),
        "flat 300s cooldown still active at 100s elapsed"
    );
    assert_eq!(state.last_interrupt_at.as_deref(), Some(prior.as_str()));
}

#[test]
fn test_try_claim_exponential_widens_cooldown() {
    let mut state = State::default();
    state.global_interrupt_streak = 2;
    let prior = (Utc::now() - chrono::Duration::seconds(600)).to_rfc3339();
    state.last_interrupt_at = Some(prior);
    let now = Utc::now().to_rfc3339();
    assert!(
        !try_claim_global_interrupt(&mut state, 300, 2, 1800, &now),
        "1200s effective cooldown still active at 600s elapsed"
    );
}

#[test]
fn test_try_claim_streak_resets_after_quiet_window() {
    let mut state = State::default();
    state.global_interrupt_streak = 3;
    let prior = (Utc::now() - chrono::Duration::seconds(2000)).to_rfc3339();
    state.last_interrupt_at = Some(prior);
    let now = Utc::now().to_rfc3339();
    assert!(try_claim_global_interrupt(&mut state, 300, 2, 1800, &now));
    assert_eq!(state.global_interrupt_streak, 1, "streak reset then +1");
}

#[test]
fn test_effective_cooldown_streak_zero_is_base() {
    assert_eq!(effective_global_cooldown_secs(300, 2, 1800, 0), 300);
}

#[test]
fn test_effective_cooldown_growth() {
    assert_eq!(effective_global_cooldown_secs(300, 2, 1800, 1), 600);
    assert_eq!(effective_global_cooldown_secs(300, 2, 1800, 2), 1200);
}

#[test]
fn test_effective_cooldown_caps_at_max() {
    assert_eq!(effective_global_cooldown_secs(300, 2, 1800, 3), 1800);
    assert_eq!(effective_global_cooldown_secs(300, 2, 1800, 50), 1800);
}

#[test]
fn test_effective_cooldown_base_1_is_flat() {
    assert_eq!(effective_global_cooldown_secs(300, 1, 1800, 5), 300);
    assert_eq!(effective_global_cooldown_secs(300, 0, 1800, 5), 300);
}

#[test]
fn test_effective_cooldown_saturating_no_panic() {
    assert_eq!(
        effective_global_cooldown_secs(u64::MAX, u64::MAX, 1800, u32::MAX),
        1800
    );
}

#[test]
fn without_a_cooldown_a_streak_does_not_hold_an_interrupt_back() {
    let mut state = State::default();
    let now = Utc::now().to_rfc3339();
    for granted in 1..=4 {
        assert!(try_claim_global_interrupt(&mut state, 0, 2, 1800, &now));
        assert_eq!(state.global_interrupt_streak, granted);
    }
}
