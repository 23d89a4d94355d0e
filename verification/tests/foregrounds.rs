//! Foregrounds that block, thinking that goes on, and wedged panes.
use claude_watch_policy::api_retry::{update_api_retry_state, ApiRetryOutcome};
use claude_watch_policy::config::{Config, NamesConfig};
use claude_watch_policy::foreground::{
    check_foreground, check_foreground_inner, next_thinking_threshold, thinking_message,
    BlockingOutcome, ForegroundObs, ForegroundReport, ThinkingOutcome,
};
use claude_watch_policy::state::State;
use claude_watch_policy::time::Moment;
use claude_watch_policy::tokens::ThinkingTokenAction;
use claude_watch_policy::wedged::{
    finish_wedged_clear, handle_wedged_pane, wedge_alert, WedgeDecision,
};

fn names() -> NamesConfig {
    NamesConfig {
        program: "agent".to_string(),
        product: "Agent".to_string(),
        short: "Agent".to_string(),
        daemon: "agent-watch".to_string(),
        tag: "AGENT-WATCH".to_string(),
    }
}

const BASE: i64 = 1_767_225_600;

fn at(secs: i64) -> Moment {
    Moment { secs: BASE + secs, nanos: 0 }
}

fn stamp(secs: i64) -> String {
    chrono::DateTime::from_timestamp(BASE + secs, 0).unwrap().to_rfc3339()
}

fn thinking() -> ForegroundObs {
    ForegroundObs {
        fg_busy: false,
        is_thinking: true,
        workload_fresh: false,
        ack_age_secs: None,
        active_subagents: 0,
    }
}

fn look(config: &Config, state: &mut State, obs: ForegroundObs, t: i64) -> ForegroundReport {
    check_foreground_inner(config, state, "%1", 100_000, false, obs, &stamp(t), at(t))
}

fn thought(report: ForegroundReport) -> ThinkingOutcome {
    match report {
        ForegroundReport::Checked { thinking, .. } => thinking,
        other => panic!("expected a check, got {other:?}"),
    }
}

#[test]
fn thinking_is_interrupted_with_growing_patience() {
    let mut config = Config::for_names(names());
    config.general.obligation_dwell_secs = 0;
    config.general.post_interrupt_cooldown_secs = 0;
    config.foreground_monitor.threshold_seconds = 100;
    config.foreground_monitor.interrupt_enabled = true;
    let mut state = State::default();
    assert_eq!(
        thought(look(&config, &mut state, thinking(), 0)),
        ThinkingOutcome::EpisodeStarted
    );
    assert_eq!(
        thought(look(&config, &mut state, thinking(), 99)),
        ThinkingOutcome::Accumulating
    );
    assert_eq!(thought(look(&config, &mut state, thinking(), 100)), ThinkingOutcome::Fired);
    assert_eq!(state.thinking_interrupt_count, 1);
    assert_eq!(state.prolonged_thinking_interrupts_total, 1);
    assert_eq!(next_thinking_threshold(&config, &state), 200);
    assert_eq!(
        thought(look(&config, &mut state, thinking(), 299)),
        ThinkingOutcome::Accumulating
    );
    assert_eq!(thought(look(&config, &mut state, thinking(), 300)), ThinkingOutcome::Fired);
    let mut idle = thinking();
    idle.is_thinking = false;
    assert_eq!(
        thought(look(&config, &mut state, idle, 310)),
        ThinkingOutcome::NotThinking
    );
    assert_eq!(state.thinking_interrupt_count, 0);
    assert_eq!(state.prolonged_thinking_interrupts_total, 2);
}

#[test]
fn signs_of_life_and_obligations_hold_the_interrupt_back() {
    let mut config = Config::for_names(names());
    config.foreground_monitor.threshold_seconds = 100;
    let mut state = State::default();
    state.thinking_start = Some(stamp(0));
    state.thinking_episode_start_tokens = Some(100_000);
    let mut workload = thinking();
    workload.workload_fresh = true;
    assert_eq!(
        thought(look(&config, &mut state, workload, 100)),
        ThinkingOutcome::HeldByWorkload
    );
    assert_eq!(thought(look(&config, &mut state, thinking(), 100)), ThinkingOutcome::Armed);
    assert_eq!(state.thinking_obligation_armed_at, Some(stamp(100)));
    state.last_interrupt_at = Some(stamp(150));
    assert_eq!(
        thought(look(&config, &mut state, thinking(), 190)),
        ThinkingOutcome::CoolingDown
    );
    let mut acked = thinking();
    acked.ack_age_secs = Some(599);
    assert_eq!(thought(look(&config, &mut state, acked, 200)), ThinkingOutcome::HeldByAck);
    assert_eq!(state.thinking_start, Some(stamp(200)));
}

#[test]
fn token_progress_starts_the_timer_again() {
    let config = Config::for_names(names());
    let mut state = State::default();
    state.thinking_start = Some(stamp(0));
    state.thinking_episode_start_tokens = Some(98_000);
    let r = look(&config, &mut state, thinking(), 5_000);
    assert_eq!(
        r,
        ForegroundReport::Checked {
            progress: ThinkingTokenAction::Rearm,
            thinking: ThinkingOutcome::Accumulating,
            blocking: BlockingOutcome::Free,
        }
    );
    assert_eq!(state.thinking_start, Some(stamp(5_000)));
}

#[test]
fn a_blocked_foreground_is_told_once() {
    let mut config = Config::for_names(names());
    config.foreground_monitor.threshold_seconds = 60;
    config.foreground_monitor.interrupt_enabled = true;
    let mut state = State::default();
    let busy = ForegroundObs { fg_busy: true, is_thinking: false, ..thinking() };
    let mut blocked = |t: i64| match look(&config, &mut state, busy, t) {
        ForegroundReport::Checked { blocking, .. } => blocking,
        other => panic!("expected a check, got {other:?}"),
    };
    assert_eq!(blocked(0), BlockingOutcome::Started);
    assert_eq!(blocked(59), BlockingOutcome::Waiting);
    assert_eq!(blocked(60), BlockingOutcome::Fired);
    assert_eq!(blocked(600), BlockingOutcome::Waiting);
    assert_eq!(state.foreground_blocking_interrupts_total, 1);
}

#[test]
fn a_retry_drops_the_timers() {
    let mut config = Config::for_names(names());
    let mut state = State::default();
    state.thinking_start = Some(stamp(0));
    state.foreground_start = Some(stamp(0));
    state.thinking_interrupt_count = 2;
    let r = check_foreground(
        &config, &mut state, "%1", 0, true, thinking(), &stamp(9), at(9),
    );
    assert_eq!(r, (ApiRetryOutcome::Started, ForegroundReport::ApiRetry));
    assert_eq!(state.thinking_start, None);
    assert_eq!(state.foreground_start, None);
    assert_eq!(state.thinking_interrupt_count, 2);
    config.foreground_monitor.enabled = false;
    let r = check_foreground(
        &config, &mut state, "%1", 0, true, thinking(), &stamp(9), at(9),
    );
    assert_eq!(r, (ApiRetryOutcome::Off, ForegroundReport::Off));
}

#[test]
fn a_retry_episode_begins_goes_on_and_ends() {
    let config = Config::for_names(names());
    let mut state = State::default();
    let mut poll = |retrying: bool, t: i64| {
        update_api_retry_state(&config, &mut state, "%1", retrying, &stamp(t), at(t))
    };
    assert_eq!(poll(false, 0), ApiRetryOutcome::Clear);
    assert_eq!(poll(true, 10), ApiRetryOutcome::Started);
    assert_eq!(poll(true, 20), ApiRetryOutcome::Continues);
    assert!(ApiRetryOutcome::Continues.suppresses());
    assert_eq!(poll(false, 30), ApiRetryOutcome::Ended);
    assert!(!ApiRetryOutcome::Ended.suppresses());
    assert_eq!(state.api_retry_first_seen, None);
}

#[test]
fn a_thinking_session_is_told() {
    let text = thinking_message(&names(), 300, 2);
    assert!(text.starts_with(
        "[AGENT-WATCH] Prolonged thinking detected (>300s in thinking state, interrupt #2). You"
    ));
    assert!(text.ends_with("Resume your current task now."));
}

#[test]
fn a_wedged_pane_is_cleared_and_the_clear_confirmed() {
    let mut config = Config::for_names(names());
    config.context_monitor.wedged_consecutive = 2;
    config.context_monitor.wedged_cooldown = 100;
    let mut state = State::default();
    let mut see = |state: &mut State, banner: bool, retrying: bool, t: i64| {
        handle_wedged_pane(&config, state, "%1", banner, retrying, at(t))
    };
    assert_eq!(see(&mut state, true, false, 0), WedgeDecision::Counting);
    assert_eq!(see(&mut state, true, true, 10), WedgeDecision::ApiRetry);
    assert_eq!(see(&mut state, true, false, 20), WedgeDecision::Recover { retry: false });
    finish_wedged_clear(&mut state, true, &stamp(20));
    assert_eq!(state.wedged_clear_count, 1);
    assert_eq!(state.wedged_consecutive, 0);
    assert_eq!(see(&mut state, true, false, 30), WedgeDecision::Counting);
    assert_eq!(see(&mut state, true, false, 40), WedgeDecision::CoolingDown);
    assert_eq!(see(&mut state, true, false, 120), WedgeDecision::Recover { retry: true });
    assert_eq!(see(&mut state, false, false, 130), WedgeDecision::Clear { confirmed: true });
    assert_eq!(see(&mut state, false, false, 140), WedgeDecision::Clear { confirmed: false });
    assert_eq!(
        handle_wedged_pane(&config, &mut state, "", true, false, at(0)),
        WedgeDecision::Off
    );
}

#[test]
fn a_wedge_is_alerted_by_how_it_went() {
    let n = names();
    assert_eq!(
        wedge_alert(&n, "banner", true, false),
        (false, "agent-watch: agent wedged (banner) -- running self-clear".to_string())
    );
    assert_eq!(
        wedge_alert(&n, "banner", true, true),
        (
            true,
            "agent-watch: agent STILL wedged (banner) after a prior self-clear -- retrying \
             (previous clear did not stick)"
                .to_string()
        )
    );
    assert_eq!(
        wedge_alert(&n, "banner", false, true),
        (
            true,
            "agent-watch: agent wedged (banner) -- self-clear spawn FAILED (recovery not \
             attempted)"
                .to_string()
        )
    );
}

#[test]
fn an_endless_retry_holds_nothing_back() {
    let mut config = Config::for_names(names());
    config.api_retry.consecutive = 1;
    config.api_retry.max_stuck_secs = 100;
    let mut state = State::default();
    let mut poll = |t: i64| {
        update_api_retry_state(&config, &mut state, "%1", true, &stamp(t), at(t))
    };
    assert_eq!(poll(0), ApiRetryOutcome::Started);
    assert_eq!(poll(100), ApiRetryOutcome::Continues);
    assert!(!poll(101).suppresses());
    assert!(!poll(200).suppresses());
    assert_eq!(state.api_retry_first_seen, Some(stamp(0)));
}
