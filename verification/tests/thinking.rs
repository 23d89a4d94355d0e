//! Prolonged thinking: its thresholds, its timer, and what speaks for progress.
use claude_watch_policy::backoff::{
    thinking_backoff_threshold, thinking_backoff_threshold_with_multiplier,
};
use claude_watch_policy::time::{ack_age_secs, Moment};
use claude_watch_policy::tokens::{
    apply_ack_fresh_rearm, apply_thinking_token_progress, thinking_token_progress_action,
    ThinkingTokenAction,
};
use std::time::{Duration, SystemTime, UNIX_EPOCH};

fn moment(t: SystemTime) -> Moment {
    let since = t.duration_since(UNIX_EPOCH).unwrap();
    Moment { secs: since.as_secs() as i64, nanos: since.subsec_nanos() }
}

#[test]
fn test_thinking_backoff_first_interrupt() {
    assert_eq!(thinking_backoff_threshold(60, 960, 0), 60);
}

#[test]
fn test_thinking_backoff_sequence() {
    assert_eq!(thinking_backoff_threshold(60, 960, 0), 60);
    assert_eq!(thinking_backoff_threshold(60, 960, 1), 120);
    assert_eq!(thinking_backoff_threshold(60, 960, 2), 240);
    assert_eq!(thinking_backoff_threshold(60, 960, 3), 480);
    assert_eq!(thinking_backoff_threshold(60, 960, 4), 960);
}

#[test]
fn test_thinking_backoff_caps_at_max() {
    assert_eq!(thinking_backoff_threshold(60, 960, 4), 960);
    assert_eq!(thinking_backoff_threshold(60, 960, 5), 960);
    assert_eq!(thinking_backoff_threshold(60, 960, 10), 960);
    assert_eq!(thinking_backoff_threshold(60, 960, 100), 960);
}

#[test]
fn test_thinking_backoff_different_base() {
    assert_eq!(thinking_backoff_threshold(120, 960, 0), 120);
    assert_eq!(thinking_backoff_threshold(120, 960, 1), 240);
    assert_eq!(thinking_backoff_threshold(120, 960, 2), 480);
    assert_eq!(thinking_backoff_threshold(120, 960, 3), 960);
    assert_eq!(thinking_backoff_threshold(120, 960, 4), 960);
}

#[test]
fn test_thinking_backoff_overflow_safety() {
    let result = thinking_backoff_threshold(60, 960, 63);
    assert_eq!(result, 960);
    let result = thinking_backoff_threshold(60, 960, u32::MAX);
    assert_eq!(result, 960);
}

#[test]
fn test_thinking_backoff_multiplier_3() {
    assert_eq!(thinking_backoff_threshold_with_multiplier(300, 960, 0, 3), 300);
    assert_eq!(thinking_backoff_threshold_with_multiplier(300, 960, 1, 3), 900);
    assert_eq!(thinking_backoff_threshold_with_multiplier(300, 960, 2, 3), 960);
    assert_eq!(thinking_backoff_threshold_with_multiplier(300, 960, 10, 3), 960);
}

#[test]
fn test_thinking_backoff_multiplier_2_matches_legacy() {
    for count in 0..6 {
        assert_eq!(
            thinking_backoff_threshold_with_multiplier(60, 960, count, 2),
            thinking_backoff_threshold(60, 960, count),
            "legacy-compat check failed at count={}", count
        );
    }
}

#[test]
fn test_thinking_backoff_multiplier_overflow_safety() {
    let result = thinking_backoff_threshold_with_multiplier(300, 960, u32::MAX, 3);
    assert_eq!(result, 960);
}

#[test]
fn test_token_action_keep_below_floor() {
    assert_eq!(
        thinking_token_progress_action(Some(100_000), 101_500, 2000),
        ThinkingTokenAction::Keep
    );
    assert_eq!(
        thinking_token_progress_action(Some(100_000), 100_000, 2000),
        ThinkingTokenAction::Keep
    );
}

#[test]
fn test_token_action_rearm_at_floor() {
    assert_eq!(
        thinking_token_progress_action(Some(100_000), 102_000, 2000),
        ThinkingTokenAction::Rearm
    );
    assert_eq!(
        thinking_token_progress_action(Some(100_000), 130_000, 2000),
        ThinkingTokenAction::Rearm
    );
}

#[test]
fn test_token_action_counter_reset() {
    assert_eq!(
        thinking_token_progress_action(Some(150_000), 5_000, 2000),
        ThinkingTokenAction::RearmCounterReset
    );
}

#[test]
fn test_token_action_late_baseline_capture() {
    assert_eq!(
        thinking_token_progress_action(None, 100_000, 2000),
        ThinkingTokenAction::CaptureBaseline
    );
}

#[test]
fn test_token_action_unparseable_or_disabled_keeps() {
    assert_eq!(
        thinking_token_progress_action(Some(100_000), 0, 2000),
        ThinkingTokenAction::Keep
    );
    assert_eq!(
        thinking_token_progress_action(None, 0, 2000),
        ThinkingTokenAction::Keep
    );
    assert_eq!(
        thinking_token_progress_action(Some(100_000), 100_000, 0),
        ThinkingTokenAction::Keep
    );
    assert_eq!(
        thinking_token_progress_action(None, 100_000, 0),
        ThinkingTokenAction::Keep
    );
}

#[test]
fn test_apply_token_progress_rearm_slides_state() {
    let mut start = Some("2026-06-11T19:03:26-04:00".to_string());
    let mut baseline = Some(283_000);
    let reason = apply_thinking_token_progress(
        &mut start,
        &mut baseline,
        286_368,
        2000,
        "2026-06-11T19:08:00-04:00",
    );
    assert_eq!(reason, Some("token_progress_rearm"));
    assert_eq!(start.as_deref(), Some("2026-06-11T19:08:00-04:00"));
    assert_eq!(baseline, Some(286_368));
}

#[test]
fn test_apply_token_progress_counter_reset_slides_state() {
    let mut start = Some("old".to_string());
    let mut baseline = Some(150_000);
    let reason =
        apply_thinking_token_progress(&mut start, &mut baseline, 5_000, 2000, "new");
    assert_eq!(reason, Some("token_counter_reset"));
    assert_eq!(start.as_deref(), Some("new"));
    assert_eq!(baseline, Some(5_000));
}

#[test]
fn test_apply_token_progress_late_capture_keeps_timer() {
    let mut start = Some("episode-start".to_string());
    let mut baseline: Option<u64> = None;
    let reason =
        apply_thinking_token_progress(&mut start, &mut baseline, 280_000, 2000, "now");
    assert_eq!(reason, None);
    assert_eq!(start.as_deref(), Some("episode-start"), "timer must not slide");
    assert_eq!(baseline, Some(280_000));
}

#[test]
fn test_apply_token_progress_keep_touches_nothing() {
    let mut start = Some("episode-start".to_string());
    let mut baseline = Some(100_000);
    assert_eq!(
        apply_thinking_token_progress(&mut start, &mut baseline, 101_000, 2000, "now"),
        None
    );
    assert_eq!(start.as_deref(), Some("episode-start"));
    assert_eq!(baseline, Some(100_000));
    assert_eq!(
        apply_thinking_token_progress(&mut start, &mut baseline, 0, 2000, "now"),
        None
    );
    assert_eq!(baseline, Some(100_000));
    assert_eq!(
        apply_thinking_token_progress(&mut start, &mut baseline, 900_000, 0, "now"),
        None
    );
    assert_eq!(start.as_deref(), Some("episode-start"));
    assert_eq!(baseline, Some(100_000));
}

#[test]
fn test_heartbeat_fresh_suppresses_and_rearms() {
    let mut start = Some("episode-start".to_string());
    let mut baseline = Some(283_000u64);
    let suppressed = apply_ack_fresh_rearm(
        &mut start,
        &mut baseline,
        Some(120),
        600,
        290_000,
        "2026-06-11T21:58:00-04:00",
    );
    assert!(suppressed);
    assert_eq!(start.as_deref(), Some("2026-06-11T21:58:00-04:00"));
    assert_eq!(baseline, Some(290_000));
}

#[test]
fn test_heartbeat_fresh_rearm_unparseable_tokens_clears_baseline() {
    let mut start = Some("episode-start".to_string());
    let mut baseline = Some(283_000u64);
    assert!(apply_ack_fresh_rearm(
        &mut start,
        &mut baseline,
        Some(0),
        600,
        0,
        "now"
    ));
    assert_eq!(start.as_deref(), Some("now"));
    assert_eq!(baseline, None);
}

#[test]
fn test_heartbeat_stale_allows_fire() {
    let mut start = Some("episode-start".to_string());
    let mut baseline = Some(283_000u64);
    assert!(!apply_ack_fresh_rearm(
        &mut start,
        &mut baseline,
        Some(900),
        600,
        290_000,
        "now"
    ));
    assert!(!apply_ack_fresh_rearm(
        &mut start,
        &mut baseline,
        Some(600),
        600,
        290_000,
        "now"
    ));
    assert_eq!(start.as_deref(), Some("episode-start"));
    assert_eq!(baseline, Some(283_000));
}

#[test]
fn test_ack_missing_stamp_fails_open() {
    assert_eq!(ack_age_secs(None, moment(SystemTime::now())), None);
    let mut start = Some("episode-start".to_string());
    let mut baseline = Some(283_000u64);
    assert!(!apply_ack_fresh_rearm(
        &mut start,
        &mut baseline,
        None,
        600,
        290_000,
        "now"
    ));
    assert_eq!(start.as_deref(), Some("episode-start"));
    assert_eq!(baseline, Some(283_000));
}

#[test]
fn test_ack_future_mtime_fails_open() {
    let now = SystemTime::now();
    let future = now + Duration::from_secs(60);
    assert_eq!(ack_age_secs(Some(moment(future)), moment(now)), None);
    let mut start = Some("episode-start".to_string());
    let mut baseline = Some(283_000u64);
    assert!(!apply_ack_fresh_rearm(
        &mut start,
        &mut baseline,
        ack_age_secs(Some(moment(future)), moment(now)),
        600,
        290_000,
        "now"
    ));
    assert_eq!(start.as_deref(), Some("episode-start"));
}

#[test]
fn test_ack_gate_zero_disables() {
    let mut start = Some("episode-start".to_string());
    let mut baseline = Some(283_000u64);
    assert!(!apply_ack_fresh_rearm(
        &mut start,
        &mut baseline,
        Some(0),
        0,
        290_000,
        "now"
    ));
    assert_eq!(start.as_deref(), Some("episode-start"));
    assert_eq!(baseline, Some(283_000));
}

#[test]
fn test_ack_age_secs_past_mtime() {
    let now = SystemTime::now();
    let past = now - Duration::from_secs(123);
    assert_eq!(ack_age_secs(Some(moment(past)), moment(now)), Some(123));
}

#[test]
fn test_token_progress_production_replay_2026_06_11() {
    let floor = 2000u64;
    let mut start = Some("t0".to_string());
    let mut baseline = Some(283_000u64);
    let mut clock_secs = 0u64;
    let mut fired = false;
    let mut rearms = 0;
    let mut tokens = 283_000u64;
    for _cycle in 0..120 {
        clock_secs += 10;
        tokens += 120;
        if apply_thinking_token_progress(&mut start, &mut baseline, tokens, floor, "tn")
            .is_some()
        {
            rearms += 1;
            clock_secs = 0;
        }
        if clock_secs >= 480 {
            fired = true;
            break;
        }
    }
    assert!(!fired, "ambient context drip must keep re-arming the timer");
    assert!(rearms >= 4, "expected periodic re-arms, got {rearms}");

    let mut start = Some("t0".to_string());
    let mut baseline = Some(283_000u64);
    let mut clock_secs = 0u64;
    let mut fired = false;
    for _cycle in 0..120 {
        clock_secs += 10;
        if apply_thinking_token_progress(&mut start, &mut baseline, 283_000, floor, "tn")
            .is_some()
        {
            clock_secs = 0;
        }
        if clock_secs >= 480 {
            fired = true;
            break;
        }
    }
    assert!(fired, "a growth-free wedge must still fire");
}
