//! Signs of a hang, and the respawn that they bring about.
use chrono::Utc;
use claude_watch_policy::config::{Config, NamesConfig};
use claude_watch_policy::hang::HangSignal;
use claude_watch_policy::respawn::{
    check_auto_respawn, collect_non_pane_signals, note_respawned, RespawnDecision,
};
use claude_watch_policy::state::State;
use claude_watch_policy::time::current_moment;
use claude_watch_policy::watcher_health::WatcherState;

fn names() -> NamesConfig {
    NamesConfig {
        program: "agent".to_string(),
        product: "Agent".to_string(),
        short: "Agent".to_string(),
        daemon: "agent-watch".to_string(),
        tag: "AGENT-WATCH".to_string(),
    }
}

fn config_with_auto_respawn(enabled: bool, signals_required: u32, window_secs: u64) -> Config {
    let mut config = Config::for_names(names());
    config.watcher_monitor.enabled = true;
    config.watcher_monitor.inject_threshold = 6;
    config.auto_respawn_on_hang.enabled = enabled;
    config.auto_respawn_on_hang.signals_required = signals_required;
    config.auto_respawn_on_hang.signal_window_secs = window_secs;
    config.auto_respawn_on_hang.cooldown_secs = 1800;
    config.auto_respawn_on_hang.pane_unchanged_secs = 600;
    config
}

#[test]
fn test_auto_respawn_default_off() {
    let config = Config::for_names(names());
    assert!(
        !config.auto_respawn_on_hang.enabled,
        "auto-respawn must default OFF — destructive feature, opt-in only"
    );
}

#[test]
fn test_collect_no_signals_when_clean_state() {
    let config = config_with_auto_respawn(true, 2, 300);
    let state = State::default();
    let signals = collect_non_pane_signals(&state, &config, false);
    assert!(signals.is_empty());
}

#[test]
fn test_collect_heartbeat_stuck_emits_signal() {
    let config = config_with_auto_respawn(true, 2, 300);
    let state = State::default();
    let signals = collect_non_pane_signals(&state, &config, true);
    assert_eq!(signals, vec![HangSignal::HeartbeatStale]);
}

#[test]
fn test_collect_watcher_signal_requires_recent_inject() {
    let config = config_with_auto_respawn(true, 2, 300);
    let mut state = State::default();
    state.watcher_health.insert(
        "memory-remind".to_string(),
        WatcherState {
            last_seen_running: None,
            consecutive_missing: 10,
            enabled: true,
            ..Default::default()
        },
    );
    let signals = collect_non_pane_signals(&state, &config, false);
    assert!(
        signals.is_empty(),
        "watcher critical without recent inject must NOT signal"
    );

    state.last_watcher_inject = Some(Utc::now().to_rfc3339());
    let signals = collect_non_pane_signals(&state, &config, false);
    assert_eq!(
        signals,
        vec![HangSignal::WatcherDownPersistent]
    );
}

#[test]
fn test_collect_watcher_signal_ignores_stale_inject() {
    let config = config_with_auto_respawn(true, 2, 300);
    let mut state = State::default();
    state.watcher_health.insert(
        "memory-remind".to_string(),
        WatcherState {
            last_seen_running: None,
            consecutive_missing: 10,
            enabled: true,
            ..Default::default()
        },
    );
    state.last_watcher_inject =
        Some((Utc::now() - chrono::Duration::seconds(600)).to_rfc3339());
    let signals = collect_non_pane_signals(&state, &config, false);
    assert!(signals.is_empty());
}

#[test]
fn test_collect_thinking_signal_requires_two_interrupts() {
    let config = config_with_auto_respawn(true, 2, 300);
    let mut state = State::default();
    state.thinking_interrupt_count = 1;
    let signals = collect_non_pane_signals(&state, &config, false);
    assert!(signals.is_empty(), "1 interrupt below threshold");

    state.thinking_interrupt_count = 2;
    let signals = collect_non_pane_signals(&state, &config, false);
    assert_eq!(
        signals,
        vec![HangSignal::ProlongedThinkingNoProgress]
    );
}

#[test]
fn test_collect_wedged_signal_requires_recent_clear_and_climbing() {
    let config = config_with_auto_respawn(true, 2, 300);
    let mut state = State::default();
    state.last_wedged_clear = Some(Utc::now().to_rfc3339());
    state.wedged_consecutive = 1;
    let signals = collect_non_pane_signals(&state, &config, false);
    assert!(
        signals.is_empty(),
        "wedged consecutive=1 below threshold of 2"
    );

    state.wedged_consecutive = 2;
    let signals = collect_non_pane_signals(&state, &config, false);
    assert_eq!(
        signals,
        vec![HangSignal::WedgedClearNoProgress]
    );
}

#[test]
fn test_collect_multiple_signals_combine() {
    let config = config_with_auto_respawn(true, 2, 300);
    let mut state = State::default();
    state.thinking_interrupt_count = 3;
    state.watcher_health.insert(
        "memory-remind".to_string(),
        WatcherState {
            last_seen_running: None,
            consecutive_missing: 10,
            enabled: true,
            ..Default::default()
        },
    );
    state.last_watcher_inject = Some(Utc::now().to_rfc3339());
    let signals = collect_non_pane_signals(&state, &config, true);
    assert_eq!(signals.len(), 3);
    assert!(signals.contains(&HangSignal::HeartbeatStale));
    assert!(signals.contains(&HangSignal::WatcherDownPersistent));
    assert!(signals.contains(&HangSignal::ProlongedThinkingNoProgress));
}

#[test]
fn test_check_auto_respawn_is_noop_when_disabled() {
    let config = config_with_auto_respawn(false, 2, 300);
    let mut state = State::default();
    state.thinking_interrupt_count = 5;
    state.watcher_health.insert(
        "memory-remind".to_string(),
        WatcherState {
            last_seen_running: None,
            consecutive_missing: 10,
            enabled: true,
            ..Default::default()
        },
    );
    state.last_watcher_inject = Some(Utc::now().to_rfc3339());

    let now = Utc::now().to_rfc3339();
    let decision = check_auto_respawn(&config, &mut state, None, true, 0, &now, current_moment());
    assert_eq!(decision, RespawnDecision::Off);

    assert!(
        state.hang_signal_history.distinct_active().is_empty(),
        "disabled feature must not record signals"
    );
    assert!(state.last_respawn_at.is_none());
    assert_eq!(state.auto_respawn_count, 0);
}

#[test]
fn test_check_auto_respawn_records_but_does_not_fire_below_threshold() {
    let config = config_with_auto_respawn(true, 3, 300);
    let mut state = State::default();
    state.thinking_interrupt_count = 5;

    let now = Utc::now().to_rfc3339();
    let decision = check_auto_respawn(&config, &mut state, None, false, 0, &now, current_moment());
    assert_eq!(decision, RespawnDecision::Waiting);

    assert_eq!(
        state.hang_signal_history.distinct_active().len(),
        1,
        "exactly 1 distinct signal recorded"
    );
    assert_eq!(
        state.auto_respawn_count, 0,
        "below threshold must not respawn"
    );
    assert!(state.last_respawn_at.is_none());
}

#[test]
fn test_check_auto_respawn_aborts_when_no_claude_via_mock() {
    let config = config_with_auto_respawn(true, 2, 300);
    let mut state = State::default();
    state.thinking_interrupt_count = 5;
    state.watcher_health.insert(
        "memory-remind".to_string(),
        WatcherState {
            last_seen_running: None,
            consecutive_missing: 10,
            enabled: true,
            ..Default::default()
        },
    );
    state.last_watcher_inject = Some(Utc::now().to_rfc3339());

    let now = Utc::now().to_rfc3339();
    let decision =
        check_auto_respawn(&config, &mut state, None, true, 0, &now, current_moment());
    assert_eq!(decision, RespawnDecision::Fire);
    note_respawned(&mut state, &now);

    assert_eq!(
        state.auto_respawn_count, 1,
        "counter must increment even on abort/launch-failure"
    );
    assert!(
        state.last_respawn_at.is_some(),
        "cooldown timestamp must be stamped"
    );
    assert!(
        state.hang_signal_history.distinct_active().is_empty(),
        "history clears after fire"
    );
}

#[test]
fn test_check_auto_respawn_cooldown_blocks_re_fire() {
    let config = config_with_auto_respawn(true, 2, 300);
    let mut state = State::default();
    state.thinking_interrupt_count = 5;
    state.watcher_health.insert(
        "memory-remind".to_string(),
        WatcherState {
            last_seen_running: None,
            consecutive_missing: 10,
            enabled: true,
            ..Default::default()
        },
    );
    state.last_watcher_inject = Some(Utc::now().to_rfc3339());
    state.last_respawn_at =
        Some((Utc::now() - chrono::Duration::seconds(300)).to_rfc3339());

    let now = Utc::now().to_rfc3339();
    let decision = check_auto_respawn(&config, &mut state, None, true, 0, &now, current_moment());
    assert_eq!(decision, RespawnDecision::Waiting);

    assert_eq!(
        state.auto_respawn_count, 0,
        "cooldown must block re-fire, counter unchanged"
    );
    assert!(
        !state.hang_signal_history.distinct_active().is_empty(),
        "no fire => history retained"
    );
}
