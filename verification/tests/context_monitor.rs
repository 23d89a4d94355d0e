//! The context monitor: demands, clears and their cooldowns.
use claude_watch_policy::config::{Config, NamesConfig};
use claude_watch_policy::context::{
    clear_child_slot_free, clear_child_started, deferred_clear_script,
    record_reminder_latency_if_recent, ContextResetOutcome, ContextResetSignal, ReminderType,
};
use claude_watch_policy::context_monitor::{
    context_monitor_step, context_obligation_message, inject_context_warning, note_context_tokens,
    ContextObs, ContextOutcome,
};
use claude_watch_policy::state::State;
use claude_watch_policy::time::Moment;

fn names() -> NamesConfig {
    NamesConfig {
        program: "agent".to_string(),
        product: "Agent".to_string(),
        short: "Agent".to_string(),
        daemon: "agent-watch".to_string(),
        tag: "AGENT-WATCH".to_string(),
    }
}

const BASE: i64 = 1_767_225_600;

fn at(secs: i64) -> Moment {
    Moment { secs: BASE + secs, nanos: 0 }
}

fn stamp(secs: i64) -> String {
    chrono::DateTime::from_timestamp(BASE + secs, 0).unwrap().to_rfc3339()
}

fn config() -> Config {
    let mut config = Config::for_names(names());
    config.claude.max_context_tokens = 200_000;
    config.context_monitor.threshold_percent = 75;
    config.context_monitor.threshold_margin = None;
    config.context_monitor.cooldown = 300;
    config.context_monitor.max_armed_secs = 300;
    config.general.obligation_dwell_secs = 90;
    config.hybrid.enabled = true;
    config.hybrid.context_fallback_max_secs = 600;
    config
}

fn obs(tokens: u64) -> ContextObs {
    ContextObs {
        tokens,
        compact_remaining: None,
        api_retrying: false,
        hook_recent: false,
        active_subagents: 0,
    }
}

#[test]
fn below_the_threshold_nothing_happens() {
    let mut state = State::default();
    let r = context_monitor_step(&config(), &mut state, obs(149_999), &stamp(0), at(0));
    assert_eq!(r, ContextOutcome::Below);
    assert!(state.context_threshold_first_seen_at.is_none());
    let r = context_monitor_step(&config(), &mut state, obs(0), &stamp(0), at(0));
    assert_eq!(r, ContextOutcome::Off);
}

#[test]
fn a_demand_comes_first_and_the_clear_after_its_dwell() {
    let config = config();
    let mut state = State::default();
    let r = context_monitor_step(&config, &mut state, obs(150_000), &stamp(0), at(0));
    assert_eq!(r, ContextOutcome::Armed);
    assert_eq!(state.context_obligation_armed_at, Some(stamp(0)));
    let r = context_monitor_step(&config, &mut state, obs(151_000), &stamp(89), at(89));
    assert_eq!(r, ContextOutcome::Armed);
    assert_eq!(state.context_obligation_armed_at, Some(stamp(0)));
    let r = context_monitor_step(&config, &mut state, obs(152_000), &stamp(90), at(90));
    assert_eq!(r, ContextOutcome::Fired);
    assert!(state.context_clear_triggered);
    assert_eq!(state.last_context_clear, Some(stamp(90)));
    assert_eq!(state.context_obligation_armed_at, None);
    assert_eq!(state.fallback_clear_count, 1);
    assert_eq!(state.context_warning_interrupts_total, 1);
    assert_eq!(state.last_interrupt_at, Some(stamp(90)));

    let r = context_monitor_step(&config, &mut state, obs(160_000), &stamp(9000), at(9000));
    assert_eq!(r, ContextOutcome::AlreadyTriggered);
    assert_eq!(state.fallback_clear_count, 1);
}

#[test]
fn subagents_hold_the_clear_back_up_to_the_bound() {
    let config = config();
    let mut state = State::default();
    let mut busy = obs(180_000);
    busy.active_subagents = 2;
    context_monitor_step(&config, &mut state, busy, &stamp(0), at(0));
    let r = context_monitor_step(&config, &mut state, busy, &stamp(299), at(299));
    assert_eq!(r, ContextOutcome::Armed);
    let r = context_monitor_step(&config, &mut state, busy, &stamp(300), at(300));
    assert_eq!(r, ContextOutcome::Fired);
}

#[test]
fn a_reminder_holds_the_daemon_back_up_to_its_bound() {
    let config = config();
    let mut state = State::default();
    let mut reminded = obs(180_000);
    reminded.hook_recent = true;
    let r = context_monitor_step(&config, &mut state, reminded, &stamp(0), at(0));
    assert_eq!(r, ContextOutcome::LeftToHook);
    assert_eq!(state.context_threshold_first_seen_at, Some(stamp(0)));
    let r = context_monitor_step(&config, &mut state, reminded, &stamp(599), at(599));
    assert_eq!(r, ContextOutcome::LeftToHook);
    let r = context_monitor_step(&config, &mut state, reminded, &stamp(600), at(600));
    assert_eq!(r, ContextOutcome::Armed);
}

#[test]
fn retries_and_recent_clears_hold_the_clear_back() {
    let config = config();
    let mut state = State::default();
    let mut retrying = obs(180_000);
    retrying.api_retrying = true;
    let r = context_monitor_step(&config, &mut state, retrying, &stamp(0), at(0));
    assert_eq!(r, ContextOutcome::HeldByRetry);
    state.last_context_clear = Some(stamp(0));
    let r = context_monitor_step(&config, &mut state, obs(180_000), &stamp(299), at(299));
    assert_eq!(r, ContextOutcome::CoolingDown);
    let r = context_monitor_step(&config, &mut state, obs(180_000), &stamp(300), at(300));
    assert_eq!(r, ContextOutcome::Armed);
}

#[test]
fn another_interrupt_puts_the_clear_off() {
    let config = config();
    let mut state = State::default();
    state.context_obligation_armed_at = Some(stamp(0));
    state.last_interrupt_at = Some(stamp(0));
    let r = context_monitor_step(&config, &mut state, obs(180_000), &stamp(200), at(200));
    assert_eq!(r, ContextOutcome::InterruptCooldown);
    assert!(!state.context_clear_triggered);
    assert_eq!(state.last_interrupt_at, Some(stamp(0)));
}

#[test]
fn readings_are_noted_only_where_the_context_is_monitored() {
    let mut config = config();
    let mut state = State::default();
    state.last_seen_tokens = Some(150_000);
    let r = note_context_tokens(&config, &mut state, 60_000, &stamp(0), None);
    assert_eq!(r, Some(ContextResetOutcome::External(ContextResetSignal::TokenDrop)));
    assert_eq!(state.last_seen_tokens, Some(60_000));
    assert_eq!(state.last_context_clear, Some(stamp(0)));
    config.context_monitor.enabled = false;
    assert_eq!(note_context_tokens(&config, &mut state, 10, &stamp(1), None), None);
    assert_eq!(state.last_seen_tokens, Some(60_000));
}

#[test]
fn a_clear_in_flight_lands_and_a_boot_is_no_clear() {
    let config = config();
    let mut state = State::default();
    state.context_clear_triggered = true;
    state.last_seen_tokens = Some(150_000);
    let r = note_context_tokens(&config, &mut state, 0, &stamp(5), Some(2_000));
    assert_eq!(r, Some(ContextResetOutcome::ClearLanded(ContextResetSignal::FreshSample)));
    assert_eq!(state.post_clear_resume_injected_for, Some(stamp(5)));
    assert_eq!(state.reminder_to_clear_latency_ms_sum, 2_000);
    assert_eq!(state.reminder_to_clear_latency_count, 1);

    let mut fresh = State::default();
    let r = note_context_tokens(&config, &mut fresh, 0, &stamp(5), None);
    assert_eq!(r, Some(ContextResetOutcome::Boot(ContextResetSignal::FreshSample)));
    assert_eq!(fresh.last_context_clear, None);
}

#[test]
fn latencies_are_counted_within_their_window() {
    let mut state = State::default();
    record_reminder_latency_if_recent(ReminderType::VersionUpdate, &mut state, false, Some(1_500));
    record_reminder_latency_if_recent(
        ReminderType::VersionUpdate,
        &mut state,
        false,
        Some(21_600_000),
    );
    record_reminder_latency_if_recent(ReminderType::ContextHigh, &mut state, true, Some(3_600_000));
    record_reminder_latency_if_recent(ReminderType::ContextHigh, &mut state, true, Some(-1));
    record_reminder_latency_if_recent(ReminderType::PreCompact, &mut state, true, Some(5));
    record_reminder_latency_if_recent(ReminderType::ContextHigh, &mut state, true, None);
    assert_eq!(state.reminder_to_update_latency_ms_sum, 1_500);
    assert_eq!(state.reminder_to_update_latency_count, 1);
    assert_eq!(state.reminder_to_clear_latency_count, 0);
}

#[test]
fn one_clear_child_at_a_time() {
    let mut state = State::default();
    assert!(clear_child_slot_free(&mut state, true));
    clear_child_started(&mut state, 77);
    assert!(!clear_child_slot_free(&mut state, true));
    assert_eq!(state.context_clear_child_pid, Some(77));
    assert!(clear_child_slot_free(&mut state, false));
    assert_eq!(state.context_clear_child_pid, None);
}

#[test]
fn the_texts_are_worded() {
    let names = names();
    assert_eq!(
        context_obligation_message(&names, "91", 300),
        "[AGENT-WATCH] Context at 91% — SELF-CLEAR NOW. Run: (1) `session-task set '<state to \
         resume>'`, (2) commit + push in-flight repo work, (3) `self-clear`. Auto-clear will be \
         forced in 300s if you don't act."
    );
    assert_eq!(
        inject_context_warning(&names, "91", None, 120),
        "[AGENT-WATCH] CONTEXT CRITICALLY LOW (91% token usage). You MUST act IMMEDIATELY: (1) \
         session-task set '<state>', (2) commit/push repos, (3) self-clear. Forced clear in 120s \
         if you don't act."
    );
    assert!(inject_context_warning(&names, "91", Some(3), 120).contains("(3% compact remaining)"));
    let script = deferred_clear_script(&names, 120);
    assert!(script.starts_with("elapsed=0; while [ \"$elapsed\" -lt 120 ]; do sleep 10;"));
    assert!(script.contains("tokens=$(agent-watch status --tokens 2>/dev/null)"));
    assert!(script.ends_with("done; self-clear"));
}
