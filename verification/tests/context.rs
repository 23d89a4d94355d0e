//! The context: its threshold, its resets, and what is left on the pane after a clear.
use chrono::Utc;
use claude_watch_policy::context::{
    check_context_threshold_with_margin, context_reset_signal, malformed_detection_post_clear,
    maybe_reset_context_clear, ContextResetSignal, MALFORMED_POST_CLEAR_GRACE_SECS,
};
use claude_watch_policy::state::State;

fn reading(result: Option<(u128, bool)>) -> (f64, bool) {
    let (milli_percent, by_compact) = result.unwrap();
    (milli_percent as f64 / 1000.0, by_compact)
}

#[test]
fn test_context_threshold_compact_remaining_triggers() {
    let result = check_context_threshold_with_margin(150000, 200000, Some(3), 75, 5, None);
    assert!(result.is_some());
    let (pct, by_compact) = reading(result);
    assert!(by_compact, "should trigger via compact_remaining");
    assert!((pct - 75.0).abs() < 0.1);
}

#[test]
fn test_context_threshold_compact_remaining_at_boundary() {
    let result = check_context_threshold_with_margin(150000, 200000, Some(5), 75, 5, None);
    assert!(result.is_some());
    let (_, by_compact) = result.unwrap();
    assert!(by_compact);
}

#[test]
fn test_context_threshold_compact_remaining_safe() {
    let result = check_context_threshold_with_margin(50000, 200000, Some(50), 75, 5, None);
    assert!(result.is_none());
}

#[test]
fn test_context_threshold_compact_zero() {
    let result = check_context_threshold_with_margin(190000, 200000, Some(0), 75, 5, None);
    assert!(result.is_some());
    let (_, by_compact) = result.unwrap();
    assert!(by_compact);
}

#[test]
fn test_context_threshold_compact_gated_below_danger_on_large_window() {
    let result =
        check_context_threshold_with_margin(484889, 1_000_000, Some(5), 75, 5, Some(100_000));
    assert!(
        result.is_none(),
        "compact_remaining must not fire at 48% real usage on a 1M window"
    );
}

#[test]
fn test_context_threshold_compact_fires_in_danger_zone_large_window() {
    let result =
        check_context_threshold_with_margin(910000, 1_000_000, Some(5), 75, 5, Some(100_000));
    assert!(result.is_some(), "should fire at 91% used within margin");
    let (_, by_compact) = result.unwrap();
    assert!(by_compact, "should be BY_COMPACT in the danger zone");
}

#[test]
fn test_context_threshold_fallback_token_percent_triggers() {
    let result = check_context_threshold_with_margin(160000, 200000, None, 75, 5, None);
    assert!(result.is_some());
    let (pct, by_compact) = reading(result);
    assert!(
        !by_compact,
        "should trigger via token fallback, not compact"
    );
    assert!((pct - 80.0).abs() < 0.1);
}

#[test]
fn test_context_threshold_fallback_token_percent_safe() {
    let result = check_context_threshold_with_margin(100000, 200000, None, 75, 5, None);
    assert!(result.is_none());
}

#[test]
fn test_context_threshold_compact_does_not_block_percent_fallback() {
    let result = check_context_threshold_with_margin(160000, 200000, Some(50), 75, 5, None);
    assert!(
        result.is_some(),
        "compact-safe should not block percent fallback"
    );
    let (pct, by_compact) = reading(result);
    assert!(!by_compact, "should be BY_PERCENT, not BY_COMPACT");
    assert!((pct - 80.0).abs() < 0.1);
}

#[test]
fn test_context_threshold_margin_triggers() {
    let result = check_context_threshold_with_margin(975000, 1000000, None, 75, 5, Some(30000));
    assert!(result.is_some(), "should trigger at 975K with 30K margin");
}

#[test]
fn test_context_threshold_margin_safe() {
    let result = check_context_threshold_with_margin(960000, 1000000, None, 75, 5, Some(30000));
    assert!(
        result.is_none(),
        "should not trigger at 960K with 30K margin"
    );
}

#[test]
fn test_context_threshold_margin_overrides_percent() {
    let result = check_context_threshold_with_margin(750000, 1000000, None, 75, 5, Some(30000));
    assert!(result.is_none(), "margin should override percent threshold");
}

#[test]
fn test_context_threshold_margin_fires_even_when_compact_remaining_present() {
    let result = check_context_threshold_with_margin(
        959_756,
        1_000_000,
        Some(30),
        75,
        5,
        Some(100_000),
    );
    assert!(
        result.is_some(),
        "margin must fire when compact_remaining is present but not triggering"
    );
    let (pct, by_compact) = reading(result);
    assert!((pct - 95.9756).abs() < 0.01);
    assert!(!by_compact, "should be by_margin, not by_compact");
}

#[test]
fn test_context_threshold_compact_gated_below_margin_zone() {
    let result = check_context_threshold_with_margin(
        200_000,
        1_000_000,
        Some(3),
        75,
        5,
        Some(100_000),
    );
    assert!(
        result.is_none(),
        "compact_remaining must not fire at 20% real usage on a 1M window"
    );
}

#[test]
fn test_context_threshold_neither_compact_nor_margin_fires() {
    let result = check_context_threshold_with_margin(
        500_000,
        1_000_000,
        Some(30),
        75,
        5,
        Some(100_000),
    );
    assert!(result.is_none(), "neither compact nor margin should fire");
}

#[test]
fn test_context_threshold_compact_present_but_safe_falls_through_to_percent() {
    let result = check_context_threshold_with_margin(
        160_000,
        200_000,
        Some(30),
        75,
        5,
        None,
    );
    assert!(
        result.is_some(),
        "percent fallback must fire when compact present but not triggering"
    );
    let (pct, by_compact) = reading(result);
    assert!(!by_compact, "should be BY_PERCENT, not BY_COMPACT");
    assert!((pct - 80.0).abs() < 0.1);
}

#[test]
fn test_reset_zero_tokens_clears_triggered_flag() {
    let mut state = State::default();
    state.context_clear_triggered = true;
    state.context_clear_child_pid = Some(12345);
    state.last_seen_tokens = Some(916_581);
    let now = Utc::now().to_rfc3339();
    maybe_reset_context_clear(&mut state, 0, &now, None);
    assert!(
        !state.context_clear_triggered,
        "tokens=0 must reset the trigger flag"
    );
    assert!(
        state.context_clear_child_pid.is_none(),
        "child pid bookkeeping must clear"
    );
    assert!(
        state.last_context_clear.is_some(),
        "last_context_clear must update"
    );
}

#[test]
fn test_reset_low_tokens_clears_triggered_flag() {
    let mut state = State::default();
    state.context_clear_triggered = true;
    state.context_clear_child_pid = Some(12345);
    state.last_seen_tokens = Some(959_704);
    let now = Utc::now().to_rfc3339();
    maybe_reset_context_clear(&mut state, 5_300, &now, None);
    assert!(!state.context_clear_triggered);
    assert!(state.context_clear_child_pid.is_none());
}

#[test]
fn test_malformed_post_clear_low_tokens_exempt() {
    let state = State::default();
    assert!(
        malformed_detection_post_clear(&state, 4_200, false),
        "low-token (freshly-cleared) context must be exempt from malformed detection"
    );
    assert!(
        malformed_detection_post_clear(&state, 0, false),
        "tokens=0 (just-landed clear) must be exempt"
    );
}

#[test]
fn test_malformed_post_clear_recent_clear_exempt() {
    let mut state = State::default();
    state.last_context_clear = Some(Utc::now().to_rfc3339());
    assert!(
        malformed_detection_post_clear(&state, 120_000, false),
        "a clear within the grace window must exempt even a high-token boundary turn"
    );
}

#[test]
fn test_malformed_not_post_clear_high_tokens_no_recent_clear() {
    let state = State::default();
    assert!(
        !malformed_detection_post_clear(&state, 120_000, false),
        "a normal high-token turn with no recent clear must NOT be exempt — \
         genuine malforms still fire"
    );
}

#[test]
fn test_malformed_post_clear_old_clear_not_exempt() {
    let mut state = State::default();
    let stale = Utc::now()
        - chrono::Duration::seconds(MALFORMED_POST_CLEAR_GRACE_SECS as i64 + 120);
    state.last_context_clear = Some(stale.to_rfc3339());
    assert!(
        !malformed_detection_post_clear(&state, 120_000, false),
        "a clear older than the grace window must not exempt a later malform"
    );
}

#[test]
fn test_malformed_post_clear_active_ui_never_suppresses() {
    let state = State::default();
    assert!(
        !malformed_detection_post_clear(&state, 0, true),
        "active_ui must override the low-token fresh-boundary exemption"
    );
    let mut state_recent_clear = State::default();
    state_recent_clear.last_context_clear = Some(Utc::now().to_rfc3339());
    assert!(
        !malformed_detection_post_clear(&state_recent_clear, 120_000, true),
        "active_ui must override the recent-clear-grace-window exemption too"
    );
}

#[test]
fn test_reset_high_tokens_leaves_flag_set() {
    let mut state = State::default();
    state.context_clear_triggered = true;
    state.last_seen_tokens = Some(905_000);
    let now = Utc::now().to_rfc3339();
    maybe_reset_context_clear(&mut state, 950_000, &now, None);
    assert!(
        state.context_clear_triggered,
        "tokens >= fresh threshold must NOT reset the flag"
    );
}

#[test]
fn test_reset_at_exact_fresh_threshold_does_not_reset() {
    let mut state = State::default();
    state.context_clear_triggered = true;
    let now = Utc::now().to_rfc3339();
    maybe_reset_context_clear(&mut state, 30_000, &now, None);
    assert!(state.context_clear_triggered);
}

#[test]
fn test_reset_just_below_threshold_resets() {
    let mut state = State::default();
    state.context_clear_triggered = true;
    let now = Utc::now().to_rfc3339();
    maybe_reset_context_clear(&mut state, 29_999, &now, None);
    assert!(!state.context_clear_triggered);
}

#[test]
fn test_external_clear_path_records_timestamp() {
    let mut state = State::default();
    state.context_clear_triggered = false;
    state.last_seen_tokens = Some(800_000);
    state.last_context_clear = None;
    let now = Utc::now().to_rfc3339();
    maybe_reset_context_clear(&mut state, 5_300, &now, None);
    assert!(
        state.last_context_clear.is_some(),
        "external clear must update last_context_clear"
    );
}

#[test]
fn test_external_clear_path_skipped_during_boot() {
    let mut state = State::default();
    state.context_clear_triggered = false;
    state.last_seen_tokens = Some(0);
    state.last_context_clear = None;
    let now = Utc::now().to_rfc3339();
    maybe_reset_context_clear(&mut state, 100, &now, None);
    assert!(
        state.last_context_clear.is_none(),
        "boot path must not update last_context_clear"
    );
}

#[test]
fn test_reset_idempotent_when_flag_already_clear() {
    let mut state = State::default();
    let now = Utc::now().to_rfc3339();
    let before = state.last_context_clear.clone();
    maybe_reset_context_clear(&mut state, 5_300, &now, None);
    assert!(!state.context_clear_triggered);
    assert_eq!(state.last_context_clear, before);
}

#[test]
fn test_context_reset_signal_fresh_sample() {
    assert_eq!(
        context_reset_signal(None, 0),
        Some(ContextResetSignal::FreshSample)
    );
    assert_eq!(
        context_reset_signal(Some(900_000), 5_300),
        Some(ContextResetSignal::FreshSample)
    );
}

#[test]
fn test_context_reset_signal_token_drop() {
    assert_eq!(
        context_reset_signal(Some(907_979), 77_185),
        Some(ContextResetSignal::TokenDrop)
    );
}

#[test]
fn test_context_reset_signal_ignores_growth_and_jitter() {
    assert_eq!(context_reset_signal(Some(905_000), 950_000), None);
    assert_eq!(context_reset_signal(Some(900_000), 880_000), None);
    assert_eq!(context_reset_signal(Some(900_000), 450_001), None);
    assert_eq!(
        context_reset_signal(Some(900_000), 450_000),
        Some(ContextResetSignal::TokenDrop)
    );
}

#[test]
fn test_context_reset_signal_needs_previously_high_sample() {
    assert_eq!(context_reset_signal(None, 100_000), None);
    assert_eq!(context_reset_signal(Some(29_000), 100_000), None);
}

#[test]
fn test_daemon_auto_clear_landing_above_fresh_threshold_stamps() {
    let mut state = State::default();
    state.context_clear_triggered = true;
    state.context_clear_child_pid = Some(12345);
    state.last_seen_tokens = Some(907_979);
    state.last_context_clear = Some("2026-08-21T16:21:11-04:00".to_string());
    let now = Utc::now().to_rfc3339();
    maybe_reset_context_clear(&mut state, 77_185, &now, None);
    assert!(
        !state.context_clear_triggered,
        "a clear landing above the fresh threshold must still reset the flag"
    );
    assert!(state.context_clear_child_pid.is_none());
    assert_eq!(
        state.last_context_clear.as_deref(),
        Some(now.as_str()),
        "the auto-clear path must stamp last_context_clear at the observing cycle"
    );
    assert_eq!(
        state.post_clear_resume_injected_for.as_deref(),
        Some(now.as_str()),
        "a daemon-driven clear injects its own resume — latch it"
    );
}

#[test]
fn test_agent_self_clear_landing_above_fresh_threshold_stamps() {
    let mut state = State::default();
    state.context_clear_triggered = false;
    state.last_seen_tokens = Some(903_905);
    state.last_context_clear = Some("2026-08-21T16:21:11-04:00".to_string());
    let now = Utc::now().to_rfc3339();
    maybe_reset_context_clear(&mut state, 84_000, &now, None);
    assert_eq!(
        state.last_context_clear.as_deref(),
        Some(now.as_str()),
        "an externally-driven self-clear must stamp last_context_clear"
    );
}

#[test]
fn test_manual_clear_then_restart_stamps() {
    let mut state = State::default();
    state.last_seen_tokens = Some(640_000);
    let now = Utc::now().to_rfc3339();
    maybe_reset_context_clear(&mut state, 61_000, &now, None);
    assert_eq!(state.last_context_clear.as_deref(), Some(now.as_str()));
}

#[test]
fn test_compaction_stamps() {
    let mut state = State::default();
    state.last_seen_tokens = Some(950_000);
    let now = Utc::now().to_rfc3339();
    maybe_reset_context_clear(&mut state, 180_000, &now, None);
    assert_eq!(state.last_context_clear.as_deref(), Some(now.as_str()));
}

#[test]
fn test_reset_stamps_exactly_once_per_clear() {
    let mut state = State::default();
    state.last_seen_tokens = Some(907_979);
    let landing = Utc::now().to_rfc3339();
    maybe_reset_context_clear(&mut state, 77_185, &landing, None);
    assert_eq!(state.last_context_clear.as_deref(), Some(landing.as_str()));

    state.last_seen_tokens = Some(77_185);
    let later = (Utc::now() + chrono::Duration::seconds(30)).to_rfc3339();
    maybe_reset_context_clear(&mut state, 85_993, &later, None);
    assert_eq!(
        state.last_context_clear.as_deref(),
        Some(landing.as_str()),
        "the growing new context must not re-stamp the clear"
    );
}
