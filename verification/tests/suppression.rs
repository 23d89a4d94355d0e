//! Interrupts that are put off, and when they no longer are.
use claude_watch_policy::state::State;
use claude_watch_policy::suppression::{
    record_suppression, reset_suppression, should_escalate_suppression,
    watcher_down_suppression_capped, EscalationReason,
};

fn iso_secs_ago(seconds_ago: i64) -> String {
    let dt = chrono::Utc::now() - chrono::Duration::seconds(seconds_ago);
    dt.to_rfc3339_opts(chrono::SecondsFormat::Secs, true)
}

#[test]
fn test_record_suppression_first_call_stamps_timestamp() {
    let mut state = State::default();
    let now = chrono::Utc::now().to_rfc3339();
    record_suppression(&mut state, &now);
    assert_eq!(state.consecutive_suppressions, 1);
    assert_eq!(state.first_suppression_at.as_deref(), Some(now.as_str()));
}

#[test]
fn test_record_suppression_subsequent_calls_preserve_timestamp() {
    let mut state = State::default();
    let t0 = "2026-04-28T00:00:00+00:00".to_string();
    let t1 = "2026-04-28T00:01:00+00:00".to_string();
    let t2 = "2026-04-28T00:02:00+00:00".to_string();
    record_suppression(&mut state, &t0);
    record_suppression(&mut state, &t1);
    record_suppression(&mut state, &t2);
    assert_eq!(state.consecutive_suppressions, 3);
    assert_eq!(state.first_suppression_at, Some(t0));
}

#[test]
fn test_record_suppression_saturates_at_u32_max() {
    let mut state = State::default();
    state.consecutive_suppressions = u32::MAX;
    state.first_suppression_at = Some(iso_secs_ago(60));
    record_suppression(&mut state, "now");
    assert_eq!(state.consecutive_suppressions, u32::MAX);
}

#[test]
fn test_reset_suppression_clears_both_fields() {
    let mut state = State::default();
    state.consecutive_suppressions = 5;
    state.first_suppression_at = Some(iso_secs_ago(120));
    reset_suppression(&mut state);
    assert_eq!(state.consecutive_suppressions, 0);
    assert!(state.first_suppression_at.is_none());
}

#[test]
fn test_reset_suppression_idempotent_when_already_clear() {
    let mut state = State::default();
    reset_suppression(&mut state);
    assert_eq!(state.consecutive_suppressions, 0);
    assert!(state.first_suppression_at.is_none());
}

#[test]
fn test_should_escalate_returns_none_when_counter_zero() {
    let state = State::default();
    assert_eq!(should_escalate_suppression(&state, 3, 600), None);
}

#[test]
fn test_should_escalate_fires_on_consecutive_cap() {
    let mut state = State::default();
    state.consecutive_suppressions = 3;
    state.first_suppression_at = Some(iso_secs_ago(10));
    assert_eq!(
        should_escalate_suppression(&state, 3, 600),
        Some(EscalationReason::ConsecutiveCap)
    );
}

#[test]
fn test_should_escalate_fires_on_consecutive_cap_overshoot() {
    let mut state = State::default();
    state.consecutive_suppressions = 10;
    state.first_suppression_at = Some(iso_secs_ago(10));
    assert_eq!(
        should_escalate_suppression(&state, 3, 600),
        Some(EscalationReason::ConsecutiveCap)
    );
}

#[test]
fn test_should_escalate_fires_on_window_exceeded() {
    let mut state = State::default();
    state.consecutive_suppressions = 1;
    state.first_suppression_at = Some(iso_secs_ago(700));
    assert_eq!(
        should_escalate_suppression(&state, 3, 600),
        Some(EscalationReason::WindowExceeded)
    );
}

#[test]
fn test_should_escalate_returns_none_below_both_limits() {
    let mut state = State::default();
    state.consecutive_suppressions = 1;
    state.first_suppression_at = Some(iso_secs_ago(60));
    assert_eq!(should_escalate_suppression(&state, 3, 600), None);
}

#[test]
fn test_should_escalate_consecutive_cap_zero_disables_consecutive_check() {
    let mut state = State::default();
    state.consecutive_suppressions = 10;
    state.first_suppression_at = Some(iso_secs_ago(10));
    assert_eq!(should_escalate_suppression(&state, 0, 600), None);
    state.first_suppression_at = Some(iso_secs_ago(700));
    assert_eq!(
        should_escalate_suppression(&state, 0, 600),
        Some(EscalationReason::WindowExceeded)
    );
}

#[test]
fn test_should_escalate_window_zero_disables_window_check() {
    let mut state = State::default();
    state.consecutive_suppressions = 1;
    state.first_suppression_at = Some(iso_secs_ago(10000));
    assert_eq!(should_escalate_suppression(&state, 3, 0), None);
    state.consecutive_suppressions = 5;
    assert_eq!(
        should_escalate_suppression(&state, 3, 0),
        Some(EscalationReason::ConsecutiveCap)
    );
}

#[test]
fn test_should_escalate_invalid_first_suppression_at_treated_as_no_window_data() {
    let mut state = State::default();
    state.consecutive_suppressions = 1;
    state.first_suppression_at = Some("garbage".to_string());
    assert_eq!(should_escalate_suppression(&state, 3, 600), None);
}

#[test]
fn test_should_escalate_consecutive_cap_takes_precedence_over_window() {
    let mut state = State::default();
    state.consecutive_suppressions = 10;
    state.first_suppression_at = Some(iso_secs_ago(10000));
    assert_eq!(
        should_escalate_suppression(&state, 3, 600),
        Some(EscalationReason::ConsecutiveCap)
    );
}

#[test]
fn test_record_then_reset_returns_to_pristine_state() {
    let mut state = State::default();
    record_suppression(&mut state, "2026-04-28T00:00:00+00:00");
    record_suppression(&mut state, "2026-04-28T00:00:30+00:00");
    record_suppression(&mut state, "2026-04-28T00:01:00+00:00");
    assert_eq!(state.consecutive_suppressions, 3);
    reset_suppression(&mut state);
    assert_eq!(should_escalate_suppression(&state, 3, 600), None);
    record_suppression(&mut state, "2026-04-28T01:00:00+00:00");
    assert_eq!(state.consecutive_suppressions, 1);
    assert_eq!(
        state.first_suppression_at.as_deref(),
        Some("2026-04-28T01:00:00+00:00")
    );
}

#[test]
fn test_watcher_down_cap_fires_when_down_exceeds_threshold() {
    assert!(watcher_down_suppression_capped(Some(200), 180));
}

#[test]
fn test_watcher_down_cap_fires_at_exact_threshold() {
    assert!(watcher_down_suppression_capped(Some(180), 180));
}

#[test]
fn test_watcher_down_cap_holds_below_threshold() {
    assert!(!watcher_down_suppression_capped(Some(179), 180));
}

#[test]
fn test_watcher_down_cap_disabled_when_zero() {
    assert!(!watcher_down_suppression_capped(Some(86400), 0));
}

#[test]
fn test_watcher_down_cap_no_down_data_never_fires() {
    assert!(!watcher_down_suppression_capped(None, 180));
}

#[test]
fn test_watcher_down_cap_independent_of_shared_suppression_counter() {
    let state = State::default();
    assert_eq!(
        should_escalate_suppression(&state, 10000, 86400),
        None,
        "shared backstop must not escalate here"
    );
    assert!(watcher_down_suppression_capped(Some(240), 180));
}

#[test]
fn test_record_suppression_does_not_touch_last_watcher_inject() {
    let mut state = State::default();
    state.last_watcher_inject = Some("2026-04-28T00:00:00+00:00".to_string());
    record_suppression(&mut state, "2026-04-28T01:00:00+00:00");
    assert_eq!(
        state.last_watcher_inject.as_deref(),
        Some("2026-04-28T00:00:00+00:00")
    );
    assert_eq!(state.consecutive_suppressions, 1);
    assert_eq!(
        state.first_suppression_at.as_deref(),
        Some("2026-04-28T01:00:00+00:00")
    );
}

#[test]
fn test_record_suppression_does_not_touch_last_interrupt_at() {
    let mut state = State::default();
    state.last_interrupt_at = Some("2026-04-28T00:00:00+00:00".to_string());
    record_suppression(&mut state, "2026-04-28T01:00:00+00:00");
    assert_eq!(
        state.last_interrupt_at.as_deref(),
        Some("2026-04-28T00:00:00+00:00")
    );
}

#[test]
fn test_default_state_has_clean_suppression_counters() {
    let state = State::default();
    assert_eq!(state.consecutive_suppressions, 0);
    assert!(state.first_suppression_at.is_none());
    assert_eq!(should_escalate_suppression(&state, 3, 600), None);
}
