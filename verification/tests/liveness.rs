//! Signs of life, and readings that vanish for a moment.
use claude_watch_policy::liveness::{
    ack_liveness_fresh, ack_liveness_suppresses_clear_inject, dead_process_restart_suppressed,
    fresh_clear_inject_suppressed, main_loop_actively_turning,
};
use claude_watch_policy::state::State;
use claude_watch_policy::tokens::{carry_forward_token_misparse, MISPARSE_CARRY_MAX};

fn iso_secs_ago(seconds_ago: i64) -> String {
    let dt = chrono::Utc::now() - chrono::Duration::seconds(seconds_ago);
    dt.to_rfc3339_opts(chrono::SecondsFormat::Secs, true)
}

#[test]
fn test_main_loop_actively_turning_when_bashes_nonzero() {
    let state = State::default();
    assert!(main_loop_actively_turning(&state, 1, 30));
}

#[test]
fn test_main_loop_actively_turning_recent_activity_in_window() {
    let mut state = State::default();
    state.last_active_at = Some(iso_secs_ago(5));
    assert!(main_loop_actively_turning(&state, 0, 30));
}

#[test]
fn test_main_loop_actively_turning_stale_activity_outside_window() {
    let mut state = State::default();
    state.last_active_at = Some(iso_secs_ago(60));
    assert!(!main_loop_actively_turning(&state, 0, 30));
}

#[test]
fn test_main_loop_actively_turning_no_history_idle() {
    let state = State::default();
    assert!(!main_loop_actively_turning(&state, 0, 30));
}

#[test]
fn test_main_loop_actively_turning_window_zero_still_honors_live_bashes() {
    let state = State::default();
    assert!(main_loop_actively_turning(&state, 1, 0));
}

#[test]
fn test_main_loop_actively_turning_window_zero_idle_returns_false() {
    let mut state = State::default();
    state.last_active_at = Some(iso_secs_ago(1));
    assert!(!main_loop_actively_turning(&state, 0, 0));
}

#[test]
fn test_main_loop_actively_turning_invalid_timestamp_treated_as_idle() {
    let mut state = State::default();
    state.last_active_at = Some("not a timestamp".to_string());
    assert!(!main_loop_actively_turning(&state, 0, 30));
}

#[test]
fn test_fresh_clear_suppressed_when_actively_turning() {
    let state = State::default();
    assert!(fresh_clear_inject_suppressed(&state, 1, true, 60));
}

#[test]
fn test_fresh_clear_suppressed_when_recent_activity_in_window() {
    let mut state = State::default();
    state.last_active_at = Some(iso_secs_ago(10));
    assert!(fresh_clear_inject_suppressed(&state, 0, true, 60));
}

#[test]
fn test_fresh_clear_not_suppressed_when_idle_outside_window() {
    let mut state = State::default();
    state.last_active_at = Some(iso_secs_ago(120));
    assert!(!fresh_clear_inject_suppressed(&state, 0, true, 60));
}

#[test]
fn test_fresh_clear_not_suppressed_when_no_history() {
    let state = State::default();
    assert!(!fresh_clear_inject_suppressed(&state, 0, true, 60));
}

#[test]
fn test_fresh_clear_not_suppressed_when_disabled() {
    let mut state = State::default();
    state.last_active_at = Some(iso_secs_ago(5));
    assert!(!fresh_clear_inject_suppressed(&state, 1, false, 60));
    assert!(!fresh_clear_inject_suppressed(&state, 0, false, 60));
}

#[test]
fn test_fresh_clear_window_zero_still_honors_live_bashes() {
    let state = State::default();
    assert!(fresh_clear_inject_suppressed(&state, 1, true, 0));
}

#[test]
fn test_fresh_clear_window_zero_idle_does_not_suppress() {
    let mut state = State::default();
    state.last_active_at = Some(iso_secs_ago(1));
    assert!(!fresh_clear_inject_suppressed(&state, 0, true, 0));
}

#[test]
fn test_ack_liveness_fresh_true_when_recent_ack() {
    assert!(ack_liveness_fresh(Some(60), 20 * 60));
}

#[test]
fn test_ack_liveness_fresh_false_when_ack_stale() {
    assert!(!ack_liveness_fresh(Some(25 * 60), 20 * 60));
}

#[test]
fn test_ack_liveness_fresh_false_when_no_ack_stamp() {
    assert!(!ack_liveness_fresh(None, 20 * 60));
}

#[test]
fn test_ack_liveness_suppresses_clear_inject_normal_case() {
    assert!(ack_liveness_suppresses_clear_inject(true, false));
}

#[test]
fn test_ack_liveness_does_not_suppress_when_genuinely_wedged() {
    assert!(!ack_liveness_suppresses_clear_inject(true, true));
}

#[test]
fn test_ack_liveness_suppresses_clear_inject_no_ack_no_wedge() {
    assert!(!ack_liveness_suppresses_clear_inject(false, false));
}

#[test]
fn test_ack_liveness_suppresses_clear_inject_no_ack_but_wedged() {
    assert!(!ack_liveness_suppresses_clear_inject(false, true));
}

#[test]
fn test_carry_forward_real_reading_resets_run() {
    assert_eq!(
        carry_forward_token_misparse(180_000, 200_000, 2, 50_000, 3),
        (180_000, 0)
    );
}

#[test]
fn test_carry_forward_large_context_zero_is_carried() {
    assert_eq!(
        carry_forward_token_misparse(0, 200_000, 0, 50_000, 3),
        (200_000, 1)
    );
    assert_eq!(
        carry_forward_token_misparse(0, 200_000, 1, 50_000, 3),
        (200_000, 2)
    );
}

#[test]
fn test_carry_forward_bound_exhausted_lets_zero_through() {
    assert_eq!(
        carry_forward_token_misparse(0, 200_000, 3, 50_000, 3),
        (0, 3)
    );
}

#[test]
fn test_carry_forward_below_floor_not_carried() {
    assert_eq!(
        carry_forward_token_misparse(0, 4_000, 0, 50_000, 3),
        (0, 0)
    );
}

#[test]
fn test_carry_forward_transient_misparse_sequence_is_smoothed() {
    let floor = 50_000u64;
    let max = MISPARSE_CARRY_MAX;
    let mut last_known = 408_000u64;
    let mut carry = 0u32;
    for _ in 0..2 {
        let (eff, c) = carry_forward_token_misparse(0, last_known, carry, floor, max);
        assert_eq!(eff, 408_000, "a transient 0 must be carried, not surfaced");
        carry = c;
        last_known = eff;
    }
    let (eff, c) = carry_forward_token_misparse(410_000, last_known, carry, floor, max);
    assert_eq!(eff, 410_000, "a real reading is always trusted");
    assert_eq!(c, 0, "a real reading resets the carry run");
}

#[test]
fn test_carry_forward_sustained_zero_eventually_registers_clear() {
    let floor = 50_000u64;
    let max = MISPARSE_CARRY_MAX;
    let mut last_known = 408_000u64;
    let mut carry = 0u32;
    let mut effective = Vec::new();
    for _ in 0..(max + 2) {
        let (eff, c) = carry_forward_token_misparse(0, last_known, carry, floor, max);
        effective.push(eff);
        carry = c;
        last_known = eff;
    }
    for e in effective.iter().take(max as usize) {
        assert_eq!(*e, 408_000, "within the bound the large context is held");
    }
    assert_eq!(
        effective[max as usize], 0,
        "past the carry bound a sustained 0 (real clear) must register"
    );
}

#[test]
fn test_ack_liveness_fresh_boundary_is_exclusive() {
    assert!(!ack_liveness_fresh(Some(1200), 1200));
    assert!(ack_liveness_fresh(Some(1199), 1200));
}

#[test]
fn test_dead_process_suppressed_when_actively_turning() {
    let state = State::default();
    assert!(dead_process_restart_suppressed(&state, 2, true, 60));
}

#[test]
fn test_dead_process_suppressed_when_recent_activity_in_window() {
    let mut state = State::default();
    state.last_active_at = Some(iso_secs_ago(30));
    assert!(dead_process_restart_suppressed(&state, 0, true, 60));
}

#[test]
fn test_dead_process_not_suppressed_when_idle_outside_window() {
    let mut state = State::default();
    state.last_active_at = Some(iso_secs_ago(90));
    assert!(!dead_process_restart_suppressed(&state, 0, true, 60));
}

#[test]
fn test_dead_process_not_suppressed_when_no_history() {
    let state = State::default();
    assert!(!dead_process_restart_suppressed(&state, 0, true, 60));
}

#[test]
fn test_dead_process_not_suppressed_when_disabled() {
    let mut state = State::default();
    state.last_active_at = Some(iso_secs_ago(5));
    assert!(!dead_process_restart_suppressed(&state, 1, false, 60));
    assert!(!dead_process_restart_suppressed(&state, 0, false, 60));
}

#[test]
fn test_dead_process_uses_wider_default_window_than_watcher_down() {
    let mut state = State::default();
    state.last_active_at = Some(iso_secs_ago(45));
    assert!(dead_process_restart_suppressed(&state, 0, true, 60));
    assert!(!main_loop_actively_turning(&state, 0, 30));
}

#[test]
fn test_dead_process_invalid_timestamp_treated_as_idle() {
    let mut state = State::default();
    state.last_active_at = Some("garbage".to_string());
    assert!(!dead_process_restart_suppressed(&state, 0, true, 60));
}

#[test]
fn test_fresh_clear_invalid_timestamp_treated_as_idle() {
    let mut state = State::default();
    state.last_active_at = Some("garbage".to_string());
    assert!(!fresh_clear_inject_suppressed(&state, 0, true, 60));
}
