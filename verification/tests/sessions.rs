//! Sessions that are absent, restarted, dead or freshly cleared.
use claude_watch_policy::config::{Config, NamesConfig};
use claude_watch_policy::fresh_clear::{
    fresh_clear_step, post_clear_step, ClearedObs, FreshClearOutcome, PostClearOutcome,
};
use claude_watch_policy::session::{
    context_tokens_of, dead_session_step, fresh_session_prompt, looks_dead, needs_fallback_pane,
    note_dead_check, note_fresh_injected, note_restarted, note_session_absent, note_status,
    note_wedged_without_status, post_restart_step, restart_resume_prompt, self_heal_step, DeadObs,
    DeadOutcome, RestartedObs, RestartedOutcome, RetryStatus, StatusReading,
};
use claude_watch_policy::state::State;
use claude_watch_policy::suppression::EscalationReason;
use claude_watch_policy::time::Moment;

fn names() -> NamesConfig {
    NamesConfig {
        program: "agent".to_string(),
        product: "Agent".to_string(),
        short: "Agent".to_string(),
        daemon: "agent-watch".to_string(),
        tag: "AGENT-WATCH".to_string(),
    }
}

const BASE: i64 = 1_767_225_600;

fn at(secs: i64) -> Moment {
    Moment { secs: BASE + secs, nanos: 0 }
}

fn stamp(secs: i64) -> String {
    chrono::DateTime::from_timestamp(BASE + secs, 0).unwrap().to_rfc3339()
}

fn dead() -> DeadObs {
    DeadObs {
        shell_prompt: false,
        active_ui: false,
        clear_in_progress: false,
        handoff_recent: false,
        idle: true,
        interactive: false,
    }
}

fn cleared() -> ClearedObs {
    ClearedObs {
        ack_age_secs: None,
        wedged_now: false,
        clear_child_running: false,
        handoff_recent: false,
        exit_teardown: false,
        idle: true,
        interactive: false,
    }
}

#[test]
fn an_absent_session_frees_the_prompt_in_time() {
    let mut state = State::default();
    state.fresh_session_injected = true;
    state.last_fresh_inject = Some(stamp(0));
    state.consecutive_failures = 4;
    note_session_absent(&mut state, &stamp(299), at(299));
    assert!(state.fresh_session_injected);
    assert_eq!(state.consecutive_failures, 0);
    note_session_absent(&mut state, &stamp(300), at(300));
    assert!(!state.fresh_session_injected);
    assert_eq!(state.last_check, Some(stamp(300)));
    note_wedged_without_status(&mut state, "%9", &stamp(310));
    assert_eq!(state.last_known_pane, "%9");
}

#[test]
fn a_restarted_session_is_resumed_at_an_idle_prompt() {
    let config = Config::for_names(names());
    let mut state = State::default();
    let none =
        RestartedObs { exit_teardown: false, bypass_dialog: false, interactive: false, idle: true };
    let r = post_restart_step(&config, &mut state, "%1", 5, none, &stamp(0));
    assert_eq!(r, RestartedOutcome::NotApplicable);
    state.restart_count = 6;
    note_restarted(&mut state, &stamp(1));
    assert_eq!(state.restart_count, 7);
    assert!(state.pending_resume_inject);
    let mut run = |obs: RestartedObs| {
        post_restart_step(&config, &mut state, "%1", 5, obs, &stamp(2))
    };
    assert_eq!(run(RestartedObs { exit_teardown: true, ..none }), RestartedOutcome::Teardown);
    assert_eq!(
        run(RestartedObs { bypass_dialog: true, ..none }),
        RestartedOutcome::BypassDialog { accept: true }
    );
    assert_eq!(run(RestartedObs { interactive: true, ..none }), RestartedOutcome::Interactive);
    assert_eq!(run(RestartedObs { idle: false, ..none }), RestartedOutcome::NotIdle);
    assert_eq!(run(none), RestartedOutcome::Inject);
    assert_eq!(run(none), RestartedOutcome::NotApplicable);
    assert_eq!(state.post_restart_resume_inject_interrupts_total, 1);
}

#[test]
fn a_status_is_noted_and_bridged() {
    let mut config = Config::for_names(names());
    config.fresh_clear.max_tokens = 5_000;
    let mut state = State::default();
    let mut reading = StatusReading {
        pane: "%1".to_string(),
        tokens: 90_000,
        bashes: 2,
        fallback_pane: None,
        context_tokens: Some(95_000),
    };
    let r = note_status(&config, &mut state, &reading, &stamp(0));
    assert_eq!((r.tokens, r.context_tokens, r.pane_changed), (90_000, 95_000, false));
    assert_eq!(state.last_known_tokens, 95_000);
    assert_eq!(state.last_active_at, Some(stamp(0)));
    reading.tokens = 0;
    reading.bashes = 0;
    reading.context_tokens = None;
    let r = note_status(&config, &mut state, &reading, &stamp(10));
    assert_eq!((r.tokens, r.context_tokens), (95_000, 95_000));
    assert_eq!(state.token_carry_count, 1);
    reading.pane = "%2".to_string();
    let r = note_status(&config, &mut state, &reading, &stamp(20));
    assert_eq!((r.tokens, r.pane_changed), (0, true));
    assert_eq!(state.last_known_pane, "%2");
    assert!(needs_fallback_pane("", 0, 0));
    assert!(!needs_fallback_pane("", 0, 1));
    assert_eq!(context_tokens_of(Some(0), 7), 7);
}

#[test]
fn a_dead_session_is_counted_healed_or_restarted() {
    let config = Config::for_names(names());
    let mut state = State::default();
    assert!(looks_dead("%1", 0, 0));
    assert!(!looks_dead("", 0, 0));
    for n in 1..=3 {
        assert_eq!(note_dead_check(&mut state), n);
    }
    let nothing =
        RetryStatus { pane: "%1".to_string(), tokens: 0, bashes: 0, context_tokens: None };
    assert!(!self_heal_step(&config, &mut state, &nothing, &stamp(0)));
    let alive = RetryStatus { tokens: 50, ..nothing };
    let mut healed = state.clone();
    assert!(self_heal_step(&config, &mut healed, &alive, &stamp(0)));
    assert_eq!(healed.consecutive_dead_checks, 0);
    assert_eq!(healed.last_known_tokens, 50);

    let at_shell = DeadObs { shell_prompt: true, ..dead() };
    let r = dead_session_step(&config, &mut state, 0, at_shell, &stamp(5), at(5));
    assert_eq!(r, DeadOutcome::Restart { forced: None });
    assert_eq!(state.consecutive_dead_checks, 0);
    state.consecutive_dead_checks = 3;
    state.last_restart = Some(stamp(5));
    let r = dead_session_step(&config, &mut state, 0, at_shell, &stamp(64), at(64));
    assert_eq!(r, DeadOutcome::RestartCooldown);
    state.last_active_at = Some(stamp(60));
    let r = dead_session_step(&config, &mut state, 0, at_shell, &stamp(70), at(70));
    assert_eq!(r, DeadOutcome::HeldByActivity);
    assert_eq!(state.consecutive_suppressions, 1);
    state.consecutive_dead_checks = 3;
    state.consecutive_suppressions = config.suppression.max_consecutive_suppressions;
    let r = dead_session_step(&config, &mut state, 0, at_shell, &stamp(80), at(80));
    assert_eq!(r, DeadOutcome::Restart { forced: Some(EscalationReason::ConsecutiveCap) });
    assert_eq!(state.consecutive_suppressions, 0);
    let r = dead_session_step(&config, &mut state, 0, at_shell, &stamp(90), at(90));
    assert_eq!(r, DeadOutcome::Counting);
}

#[test]
fn a_fresh_session_gets_its_prompt_once() {
    let config = Config::for_names(names());
    let mut state = State::default();
    state.consecutive_dead_checks = 3;
    let busy = DeadObs { active_ui: true, ..dead() };
    let r = dead_session_step(&config, &mut state, 0, busy, &stamp(0), at(0));
    assert_eq!(r, DeadOutcome::StartingUp);
    let r = dead_session_step(&config, &mut state, 0, dead(), &stamp(1), at(1));
    assert_eq!(r, DeadOutcome::FreshInject);
    assert!(state.fresh_session_injected);
    note_fresh_injected(&mut state, &stamp(1));
    assert_eq!(state.last_fresh_inject, Some(stamp(1)));
    state.consecutive_dead_checks = 3;
    let r = dead_session_step(&config, &mut state, 0, dead(), &stamp(2), at(2));
    assert_eq!(r, DeadOutcome::StartingUp);
}

#[test]
fn a_cleared_session_is_resumed_once_per_clear() {
    let config = Config::for_names(names());
    let mut state = State::default();
    let mut look = |state: &mut State, obs: ClearedObs, t: i64| {
        post_clear_step(&config, state, "%1", 0, obs, &stamp(t), at(t))
    };
    assert_eq!(look(&mut state, cleared(), 0), PostClearOutcome::NotApplicable);
    state.last_context_clear = Some(stamp(0));
    let acked = ClearedObs { ack_age_secs: Some(5), ..cleared() };
    assert_eq!(look(&mut state, acked, 10), PostClearOutcome::HeldByAck);
    let wedged = ClearedObs { wedged_now: true, ..acked };
    assert_eq!(look(&mut state, wedged, 20), PostClearOutcome::NotDue);
    assert_eq!(state.post_clear_idle_checks, 1);
    assert_eq!(look(&mut state, cleared(), 30), PostClearOutcome::Inject);
    assert_eq!(state.post_clear_resume_injected_for, Some(stamp(0)));
    assert_eq!(look(&mut state, cleared(), 40), PostClearOutcome::NotApplicable);
    assert_eq!(state.fresh_clear_resume_inject_interrupts_total, 1);
}

#[test]
fn a_freshly_cleared_session_is_resumed_when_it_stays_idle() {
    let config = Config::for_names(names());
    let mut state = State::default();
    let mut look = |state: &mut State, tokens: u64, obs: ClearedObs, t: i64| {
        fresh_clear_step(&config, state, "%1", tokens, 0, obs, &stamp(t), at(t))
    };
    assert_eq!(look(&mut state, 5_000, cleared(), 0), FreshClearOutcome::NotApplicable);
    assert_eq!(
        look(&mut state, 1_000, ClearedObs { idle: false, ..cleared() }, 0),
        FreshClearOutcome::Busy
    );
    assert_eq!(
        look(&mut state, 1_000, ClearedObs { exit_teardown: true, ..cleared() }, 0),
        FreshClearOutcome::Teardown
    );
    assert_eq!(
        look(&mut state, 1_000, ClearedObs { interactive: true, ..cleared() }, 0),
        FreshClearOutcome::Interactive
    );
    assert_eq!(look(&mut state, 1_000, cleared(), 10), FreshClearOutcome::Counting);
    assert_eq!(
        look(&mut state, 1_000, cleared(), 20),
        FreshClearOutcome::Inject { forced: None }
    );
    assert_eq!(state.last_fast_path_alert, Some(stamp(20)));
    assert_eq!(look(&mut state, 1_000, cleared(), 30), FreshClearOutcome::Counting);
    assert_eq!(look(&mut state, 1_000, cleared(), 79), FreshClearOutcome::CoolingDown);
    state.last_active_at = Some(stamp(75));
    assert_eq!(look(&mut state, 1_000, cleared(), 80), FreshClearOutcome::HeldByActivity);
    assert_eq!(state.consecutive_suppressions, 1);
    state.consecutive_fast_detections = 1;
    assert_eq!(
        look(&mut state, 1_000, ClearedObs { ack_age_secs: Some(1), ..cleared() }, 90),
        FreshClearOutcome::HeldByAck
    );
}

#[test]
fn a_pane_with_a_large_context_is_greeted_once() {
    let config = Config::for_names(names());
    let mut state = State::default();
    state.fresh_session_injected = true;
    state.last_fresh_inject = Some(stamp(0));
    state.consecutive_dead_checks = 3;
    state.last_known_tokens = config.fresh_clear.max_tokens;
    let r = dead_session_step(&config, &mut state, 0, dead(), &stamp(9000), at(9000));
    assert_eq!(r, DeadOutcome::StartingUp);
    let handed_over = DeadObs { handoff_recent: true, ..dead() };
    state.last_known_tokens = config.fresh_clear.max_tokens - 1;
    let r = dead_session_step(&config, &mut state, 0, handed_over, &stamp(9000), at(9000));
    assert_eq!(r, DeadOutcome::StartingUp);
    let r = dead_session_step(&config, &mut state, 0, dead(), &stamp(9000), at(9000));
    assert_eq!(r, DeadOutcome::FreshInject);
}

#[test]
fn a_restarted_session_and_a_fresh_one_are_told_what_they_are() {
    assert_eq!(
        restart_resume_prompt(&names()),
        "[AGENT-WATCH-RESUME] Agent was restarted after a crash. All background task handles \
         were lost. Run the full resume checklist at your configured resume-checklist path \
         immediately."
    );
    assert_eq!(
        fresh_session_prompt(),
        "You are a fresh session (already started/cleared) — do NOT restart or clear again. Run \
         your session-start / resume checklist now to recover state and pick up pending work."
    );
}
