//! Requests that the session retries.
use chrono::Utc;
use claude_watch_policy::api_retry::{evaluate_api_retry_state, is_api_retry_suppressing};
use claude_watch_policy::config::{Config, NamesConfig};
use claude_watch_policy::state::State;
use claude_watch_policy::time::elapsed_since;

fn names() -> NamesConfig {
    NamesConfig {
        program: "agent".to_string(),
        product: "Agent".to_string(),
        short: "Agent".to_string(),
        daemon: "agent-watch".to_string(),
        tag: "AGENT-WATCH".to_string(),
    }
}

#[test]
fn test_api_retry_eval_not_retrying_clears_state() {
    let prior = "2026-04-28T12:00:00+00:00";
    let (consec, first, suppress) =
        evaluate_api_retry_state(false, 5, Some(prior), 1, 1800);
    assert_eq!(consec, 0);
    assert!(first.is_none());
    assert!(!suppress);
}

#[test]
fn test_api_retry_eval_first_detection_stamps_first_seen() {
    let (consec, first, suppress) = evaluate_api_retry_state(true, 0, None, 1, 1800);
    assert_eq!(consec, 1);
    assert!(first.is_some());
    assert!(suppress);
}

#[test]
fn test_api_retry_eval_below_consecutive_threshold_does_not_suppress() {
    let (consec, first, suppress) = evaluate_api_retry_state(true, 0, None, 3, 1800);
    assert_eq!(consec, 1);
    assert!(first.is_some());
    assert!(!suppress);
}

#[test]
fn test_api_retry_eval_at_consecutive_threshold_suppresses() {
    let prior = Utc::now().to_rfc3339();
    let (consec, first, suppress) =
        evaluate_api_retry_state(true, 2, Some(&prior), 3, 1800);
    assert_eq!(consec, 3);
    assert_eq!(first.as_deref(), Some(prior.as_str()));
    assert!(suppress);
}

#[test]
fn test_api_retry_eval_preserves_first_seen_across_cycles() {
    let prior = "2026-04-28T12:00:00+00:00";
    let (_, first, _) = evaluate_api_retry_state(true, 1, Some(prior), 1, 1800);
    assert_eq!(first.as_deref(), Some(prior));
}

#[test]
fn test_api_retry_eval_max_stuck_secs_lifts_suppression() {
    let two_hours_ago = (Utc::now() - chrono::Duration::seconds(7200)).to_rfc3339();
    let (consec, first, suppress) =
        evaluate_api_retry_state(true, 100, Some(&two_hours_ago), 1, 1800);
    assert_eq!(consec, 101);
    assert_eq!(first.as_deref(), Some(two_hours_ago.as_str()));
    assert!(
        !suppress,
        "max_stuck_secs exceeded — suppression must lift to allow recovery"
    );
}

#[test]
fn test_api_retry_eval_max_stuck_secs_zero_disables_cap() {
    let two_hours_ago = (Utc::now() - chrono::Duration::seconds(7200)).to_rfc3339();
    let (_, _, suppress) =
        evaluate_api_retry_state(true, 100, Some(&two_hours_ago), 1, 0);
    assert!(suppress, "max_stuck_secs=0 should disable the cap");
}

#[test]
fn test_api_retry_eval_resolution_then_re_entry() {
    let (consec_1, first_1, suppress_1) =
        evaluate_api_retry_state(true, 0, None, 1, 1800);
    assert_eq!(consec_1, 1);
    assert!(first_1.is_some());
    assert!(suppress_1);

    let (consec_2, first_2, suppress_2) =
        evaluate_api_retry_state(false, consec_1, first_1.as_deref(), 1, 1800);
    assert_eq!(consec_2, 0);
    assert!(first_2.is_none());
    assert!(!suppress_2);

    let (consec_3, first_3, suppress_3) =
        evaluate_api_retry_state(true, consec_2, first_2.as_deref(), 1, 1800);
    assert_eq!(consec_3, 1);
    assert!(first_3.is_some());
    assert!(suppress_3);
}

#[test]
fn test_api_retry_eval_saturating_consecutive() {
    let now = Utc::now().to_rfc3339();
    let (consec, _, suppress) =
        evaluate_api_retry_state(true, u32::MAX, Some(&now), 1, 1800);
    assert_eq!(consec, u32::MAX);
    assert!(suppress);
}

fn config_with_api_retry(enabled: bool, consecutive: u32, max_stuck: u64) -> Config {
    let mut config = Config::for_names(names());
    config.api_retry.enabled = enabled;
    config.api_retry.consecutive = consecutive;
    config.api_retry.max_stuck_secs = max_stuck;
    config
}

#[test]
fn test_is_api_retry_suppressing_disabled() {
    let config = config_with_api_retry(false, 1, 1800);
    let mut state = State::default();
    state.api_retry_consecutive = 5;
    state.api_retry_first_seen = Some(Utc::now().to_rfc3339());
    assert!(!is_api_retry_suppressing(&config, &state));
}

#[test]
fn test_is_api_retry_suppressing_no_episode() {
    let config = config_with_api_retry(true, 1, 1800);
    let state = State::default();
    assert!(!is_api_retry_suppressing(&config, &state));
}

#[test]
fn test_is_api_retry_suppressing_below_threshold() {
    let config = config_with_api_retry(true, 3, 1800);
    let mut state = State::default();
    state.api_retry_consecutive = 1;
    state.api_retry_first_seen = Some(Utc::now().to_rfc3339());
    assert!(!is_api_retry_suppressing(&config, &state));
}

#[test]
fn test_is_api_retry_suppressing_active_episode() {
    let config = config_with_api_retry(true, 1, 1800);
    let mut state = State::default();
    state.api_retry_consecutive = 1;
    state.api_retry_first_seen = Some(Utc::now().to_rfc3339());
    assert!(is_api_retry_suppressing(&config, &state));
}

#[test]
fn test_is_api_retry_suppressing_max_stuck_lifts() {
    let config = config_with_api_retry(true, 1, 1800);
    let mut state = State::default();
    state.api_retry_consecutive = 100;
    state.api_retry_first_seen =
        Some((Utc::now() - chrono::Duration::seconds(7200)).to_rfc3339());
    assert!(!is_api_retry_suppressing(&config, &state));
}

#[test]
fn the_first_poll_leaves_a_stamp_that_can_be_outlived() {
    let (_, first, _) = evaluate_api_retry_state(true, 0, None, 1, 1800);
    let stamp = first.expect("an episode has its stamp");
    assert!(elapsed_since(&stamp).is_some());
    let (consecutive, kept, suppress) = evaluate_api_retry_state(true, 1, Some(&stamp), 1, 1800);
    assert_eq!((consecutive, kept, suppress), (2, Some(stamp), true));
}
