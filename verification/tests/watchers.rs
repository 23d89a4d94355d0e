//! Watchers: which are down, and what their absence calls for.
use chrono::Utc;
use claude_watch_policy::config::{Config, NamesConfig};
use claude_watch_policy::interrupts::interrupt_in_global_cooldown;
use claude_watch_policy::state::State;
use claude_watch_policy::watcher_health::WatcherState;
use claude_watch_policy::watcher_round::{update_watcher, SightOutcome};
use claude_watch_policy::watchers::{
    cmdline_matches_watcher, consumer_watcher_missing, evaluate_watcher_down_action,
    filter_consumer_for_event_emit, pidfile_watcher_is_down, read_watcher_pid,
    read_watcher_recorded_pid, watcher_inject_due, watcher_is_down, WatcherDownAction,
};

fn names() -> NamesConfig {
    NamesConfig {
        program: "agent".to_string(),
        product: "Agent".to_string(),
        short: "Agent".to_string(),
        daemon: "agent-watch".to_string(),
        tag: "AGENT-WATCH".to_string(),
    }
}

#[test]
fn test_watcher_is_down_no_matches() {
    assert!(watcher_is_down(&[], 1, |_| true));
}

#[test]
fn test_watcher_is_down_alive_match_meets_min() {
    assert!(!watcher_is_down(&[42], 1, |pid| pid == 42));
    assert!(!watcher_is_down(&[42, 43, 44], 1, |_| true));
}

#[test]
fn test_watcher_is_down_zombie_only_match() {
    assert!(watcher_is_down(&[42], 1, |_| false));
    assert!(watcher_is_down(&[42, 43, 44], 1, |_| false));
}

#[test]
fn test_watcher_is_down_mixed_alive_and_zombie() {
    let alive_pid = 100u32;
    assert!(!watcher_is_down(&[100, 200, 300], 1, move |pid| pid
        == alive_pid));
    assert!(watcher_is_down(&[100, 200, 300], 2, move |pid| pid
        == alive_pid));
}

#[test]
fn test_watcher_is_down_false_down_after_restart_regression() {
    let live_pid = 5000u32;
    assert!(
        !watcher_is_down(&[live_pid], 1, move |pid| pid == live_pid),
        "a watcher that pgrep finds genuinely alive must NEVER be \
         reported DOWN, even with a stale recorded PID file"
    );
}

#[test]
fn test_watcher_is_down_min_count_zero() {
    assert!(!watcher_is_down(&[], 0, |_| panic!("no probe needed")));
    assert!(!watcher_is_down(&[42], 0, |_| true));
}

#[test]
fn test_pidfile_watcher_up_when_live_matching() {
    assert!(!pidfile_watcher_is_down(Some(4242), true, true));
}

#[test]
fn test_pidfile_watcher_down_when_pidfile_missing() {
    assert!(pidfile_watcher_is_down(None, false, false));
    assert!(pidfile_watcher_is_down(None, true, true));
}

#[test]
fn test_pidfile_watcher_down_when_stale_dead_pid() {
    assert!(pidfile_watcher_is_down(Some(4242), false, false));
}

#[test]
fn test_pidfile_watcher_down_when_recycled_pid() {
    assert!(pidfile_watcher_is_down(Some(4242), true, false));
}

#[test]
fn test_cmdline_matches_exec_transform_sh_to_binary() {
    let cmdline = "/bin/bash /usr/local/bin/agent-event-watch";
    let start_cmd = "/opt/agent-container/watchers/agent-event-watch.sh";
    assert!(
        cmdline_matches_watcher(cmdline, start_cmd),
        "the exec'd binary cmdline (no .sh) must match the .sh launcher \
         start_cmd via the stripped stem"
    );
}

#[test]
fn test_cmdline_matches_literal_path() {
    let cmdline = "/bin/bash /opt/agent-container/watchers/agent-event-watch.sh";
    let start_cmd = "/opt/agent-container/watchers/agent-event-watch.sh";
    assert!(cmdline_matches_watcher(cmdline, start_cmd));
}

#[test]
fn test_cmdline_matches_rejects_unrelated() {
    let cmdline = "/usr/bin/python3 /home/user/some-other-tool.py";
    let start_cmd = "/opt/agent-container/watchers/agent-event-watch.sh";
    assert!(!cmdline_matches_watcher(cmdline, start_cmd));
}

#[test]
fn test_cmdline_matches_empty_start_cmd_is_false() {
    assert!(!cmdline_matches_watcher("/bin/bash /usr/local/bin/x", ""));
    assert!(!cmdline_matches_watcher("/bin/bash /usr/local/bin/x", "   "));
}

#[test]
fn test_read_watcher_recorded_pid_prefers_lock() {
    assert_eq!(read_watcher_recorded_pid(Some("31956\n"), Some("12345\n")), Some(31956));
}

#[test]
fn test_read_watcher_recorded_pid_falls_back_to_pid() {
    assert_eq!(read_watcher_recorded_pid(None, Some("777\n")), Some(777));
}

#[test]
fn test_read_watcher_recorded_pid_none_when_missing() {
    assert_eq!(read_watcher_recorded_pid(None, None), None);
}

#[test]
fn test_read_watcher_pid_missing_file() {
    assert_eq!(read_watcher_pid(None), None);
}

#[test]
fn test_read_watcher_pid_valid() {
    assert_eq!(read_watcher_pid(Some("12345\n")), Some(12345));
}

#[test]
fn test_read_watcher_pid_trims_whitespace() {
    assert_eq!(read_watcher_pid(Some("  9876  \n")), Some(9876));
}

#[test]
fn test_read_watcher_pid_garbage() {
    assert_eq!(read_watcher_pid(Some("not-a-pid\n")), None);
}

#[test]
fn test_read_watcher_pid_empty_file() {
    assert_eq!(read_watcher_pid(Some("")), None);
}

#[test]
fn test_watcher_inject_due_never_injected() {
    assert!(watcher_inject_due(None, 60));
}

#[test]
fn test_watcher_inject_due_within_cooldown() {
    let recent = (Utc::now() - chrono::Duration::seconds(10)).to_rfc3339();
    assert!(!watcher_inject_due(Some(&recent), 60));
}

#[test]
fn test_watcher_inject_due_after_cooldown() {
    let old = (Utc::now() - chrono::Duration::seconds(120)).to_rfc3339();
    assert!(watcher_inject_due(Some(&old), 60));
}

#[test]
fn test_watcher_inject_due_malformed_timestamp_fails_open() {
    assert!(watcher_inject_due(Some("not a date"), 60));
}

#[test]
fn test_watcher_inject_due_cooldown_zero_always_due() {
    let just_now = (Utc::now() - chrono::Duration::seconds(1)).to_rfc3339();
    assert!(watcher_inject_due(Some(&just_now), 0));
}

#[test]
fn test_watcher_inject_ignores_global_cooldown() {
    let mut state = State::default();
    state.last_interrupt_at =
        Some((Utc::now() - chrono::Duration::seconds(5)).to_rfc3339());
    assert!(interrupt_in_global_cooldown(&state, 60));
    assert!(watcher_inject_due(state.last_watcher_inject.as_deref(), 60));
}

#[test]
fn test_default_watcher_inject_cooldown() {
    let cfg = Config::for_names(names());
    assert_eq!(
        cfg.watcher_monitor.inject_cooldown, 300,
        "default watcher inject_cooldown should be 300s (re-inject cadence)"
    );
}

#[test]
fn test_watcher_action_below_event_threshold_does_nothing() {
    let action = evaluate_watcher_down_action(false, 2, None, 3, 6, 60);
    assert_eq!(action, WatcherDownAction::Nothing);
}

#[test]
fn test_watcher_action_at_event_threshold_emits() {
    let action = evaluate_watcher_down_action(false, 3, None, 3, 6, 60);
    assert_eq!(action, WatcherDownAction::EmitEvent);
}

#[test]
fn test_watcher_action_above_event_threshold_emits() {
    let action = evaluate_watcher_down_action(false, 4, None, 3, 6, 60);
    assert_eq!(action, WatcherDownAction::EmitEvent);
}

#[test]
fn test_watcher_action_within_grace_window_suppresses() {
    let recent = Utc::now()
        .checked_sub_signed(chrono::Duration::seconds(5))
        .unwrap()
        .to_rfc3339();
    let action = evaluate_watcher_down_action(false, 5, Some(&recent), 3, 6, 60);
    assert_eq!(action, WatcherDownAction::Nothing);
}

#[test]
fn test_watcher_action_grace_expired_below_inject_threshold_does_nothing() {
    let stale = Utc::now()
        .checked_sub_signed(chrono::Duration::seconds(120))
        .unwrap()
        .to_rfc3339();
    let action = evaluate_watcher_down_action(false, 5, Some(&stale), 3, 6, 60);
    assert_eq!(action, WatcherDownAction::Nothing);
}

#[test]
fn test_watcher_action_grace_expired_at_inject_threshold_falls_through_to_inject() {
    let stale = Utc::now()
        .checked_sub_signed(chrono::Duration::seconds(120))
        .unwrap()
        .to_rfc3339();
    let action = evaluate_watcher_down_action(false, 6, Some(&stale), 3, 6, 60);
    assert_eq!(action, WatcherDownAction::InjectFallback);
}

#[test]
fn test_watcher_action_consumer_watcher_skips_event_below_inject_threshold() {
    let action = evaluate_watcher_down_action(true, 3, None, 3, 6, 60);
    assert_eq!(action, WatcherDownAction::Nothing);
}

#[test]
fn test_watcher_action_consumer_watcher_falls_through_to_inject_at_threshold() {
    let action = evaluate_watcher_down_action(true, 6, None, 3, 6, 60);
    assert_eq!(action, WatcherDownAction::InjectFallback);
}

#[test]
fn test_filter_consumer_for_event_emit_only_consumer_returns_none() {
    let affected = vec!["agent-event-watch".to_string()];
    assert_eq!(
        filter_consumer_for_event_emit(&affected, "agent-event-watch"),
        None,
        "consumer-only down list must suppress the emit"
    );
}

#[test]
fn test_filter_consumer_for_event_emit_consumer_among_others_filtered_out() {
    let affected = vec![
        "alerts-watcher".to_string(),
        "agent-event-watch".to_string(),
        "torrent-wait".to_string(),
    ];
    let result = filter_consumer_for_event_emit(&affected, "agent-event-watch");
    assert_eq!(
        result,
        Some(vec![
            "alerts-watcher".to_string(),
            "torrent-wait".to_string(),
        ]),
        "non-consumer watchers must still emit; consumer must be filtered out"
    );
}

#[test]
fn test_filter_consumer_for_event_emit_consumer_absent_returns_unchanged() {
    let affected = vec![
        "alerts-watcher".to_string(),
        "torrent-wait".to_string(),
    ];
    let result = filter_consumer_for_event_emit(&affected, "agent-event-watch");
    assert_eq!(result, Some(affected.clone()));
}

#[test]
fn test_filter_consumer_for_event_emit_empty_returns_none() {
    let affected: Vec<String> = vec![];
    assert_eq!(
        filter_consumer_for_event_emit(&affected, "agent-event-watch"),
        None
    );
}

#[test]
fn test_consumer_watcher_missing_present() {
    let missing = vec![
        "botchat-wait".to_string(),
        "agent-event-watch".to_string(),
    ];
    assert!(consumer_watcher_missing(&missing, "agent-event-watch"));
}

#[test]
fn test_consumer_watcher_missing_absent() {
    let missing = vec!["botchat-wait".to_string()];
    assert!(!consumer_watcher_missing(&missing, "agent-event-watch"));
}

#[test]
fn test_consumer_watcher_missing_only_consumer() {
    let missing = vec!["agent-event-watch".to_string()];
    assert!(
        consumer_watcher_missing(&missing, "agent-event-watch"),
        "consumer-only down must be detected — this is the exact circular-\
         dependency case that silently killed the watcher"
    );
}

#[test]
fn test_consumer_watcher_missing_empty_list() {
    let missing: Vec<String> = vec![];
    assert!(!consumer_watcher_missing(&missing, "agent-event-watch"));
}

#[test]
fn test_consumer_watcher_missing_empty_consumer_name_never_matches() {
    let missing = vec!["agent-event-watch".to_string()];
    assert!(!consumer_watcher_missing(&missing, ""));
}

#[test]
fn test_consumer_watcher_missing_custom_name() {
    let missing = vec!["my-custom-consumer".to_string()];
    assert!(consumer_watcher_missing(&missing, "my-custom-consumer"));
}

#[test]
fn test_filter_consumer_for_event_emit_custom_consumer_name() {
    let affected = vec!["my-custom-consumer".to_string()];
    assert_eq!(
        filter_consumer_for_event_emit(&affected, "my-custom-consumer"),
        None
    );
}

#[test]
fn test_watcher_action_misconfig_event_threshold_above_inject_threshold() {
    let action = evaluate_watcher_down_action(false, 6, None, 10, 6, 60);
    assert_eq!(action, WatcherDownAction::InjectFallback);
}

#[test]
fn test_watcher_action_grace_zero_disables_quiet_path_after_first_emit() {
    let just_now = Utc::now().to_rfc3339();
    let action = evaluate_watcher_down_action(false, 6, Some(&just_now), 3, 6, 0);
    assert_eq!(action, WatcherDownAction::InjectFallback);
}

#[test]
fn test_watcher_action_recovery_clears_event_emitted_at_externally() {
    let action = evaluate_watcher_down_action(false, 3, None, 3, 6, 60);
    assert_eq!(action, WatcherDownAction::EmitEvent);
}

#[test]
fn test_watcher_action_re_emit_suppressed_when_grace_active_and_count_grew() {
    let recent = Utc::now()
        .checked_sub_signed(chrono::Duration::seconds(10))
        .unwrap()
        .to_rfc3339();
    let action = evaluate_watcher_down_action(false, 4, Some(&recent), 3, 6, 60);
    assert_eq!(action, WatcherDownAction::Nothing);
}

#[test]
fn test_watcher_state_recovery_clears_event_emitted_at() {
    let down = WatcherState {
        last_seen_running: None,
        consecutive_missing: 5,
        enabled: true,
        event_emitted_at: Some("2026-04-28T12:00:00+00:00".to_string()),
        down_since: None,
    };
    let health = update_watcher(&down, SightOutcome::Running, "2026-04-28T12:05:00+00:00");

    assert_eq!(health.consecutive_missing, 0);
    assert!(health.event_emitted_at.is_none());
    assert!(health.last_seen_running.is_some());
}
