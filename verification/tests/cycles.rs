//! Cycles: their steps, and what holds across them.
use claude_watch_policy::config::{Config, NamesConfig};
use claude_watch_policy::context_monitor::{context_monitor_step, ContextObs, ContextOutcome};
use claude_watch_policy::cycle::{
    check_cycle, config_spans_fit, phase_due, state_has_room, step_inputs, CyclePhase, PhaseResult,
    Readings,
};
use claude_watch_policy::foreground::{check_foreground_inner, ForegroundObs, ForegroundReport};
use claude_watch_policy::fresh_clear::{FreshClearOutcome, PostClearOutcome};
use claude_watch_policy::malformed::{malformed_step, MalformedObs, MalformedOutcome};
use claude_watch_policy::session::RestartedOutcome;
use claude_watch_policy::state::State;
use claude_watch_policy::time::Moment;
use claude_watch_policy::watcher_inject::{watcher_inject_step, InjectObs, InjectOutcome};
use claude_watch_policy::wedged::{handle_wedged_pane, WedgeDecision};

fn names() -> NamesConfig {
    NamesConfig {
        program: "agent".to_string(),
        product: "Agent".to_string(),
        short: "Agent".to_string(),
        daemon: "agent-watch".to_string(),
        tag: "AGENT-WATCH".to_string(),
    }
}

const BASE: i64 = 1_767_225_600;

fn at(secs: i64) -> Moment {
    Moment { secs: BASE + secs, nanos: 0 }
}

fn stamp(secs: i64) -> String {
    chrono::DateTime::from_timestamp(BASE + secs, 0).unwrap().to_rfc3339()
}

#[test]
fn a_cycle_goes_through_its_steps() {
    let mut phase = CyclePhase::Status;
    let results = [
        PhaseResult::Status { present: true, fallback_pane: false },
        PhaseResult::Restarted { outcome: RestartedOutcome::NotApplicable },
        PhaseResult::Done,
        PhaseResult::Polled { looks_dead: false },
        PhaseResult::Done,
        PhaseResult::Done,
        PhaseResult::Done,
        PhaseResult::Done,
        PhaseResult::PostClear { outcome: PostClearOutcome::NotDue },
        PhaseResult::FreshClear { outcome: FreshClearOutcome::Busy },
    ];
    for result in results {
        phase = check_cycle(phase, result);
    }
    assert_eq!(phase, CyclePhase::AckStale);
    let mut steps = 0;
    while phase != CyclePhase::Over {
        phase = check_cycle(phase, PhaseResult::Done);
        steps += 1;
    }
    assert_eq!(steps, 9);
}

#[test]
fn a_cycle_ends_early() {
    assert_eq!(
        check_cycle(
            CyclePhase::Status,
            PhaseResult::Status { present: false, fallback_pane: true }
        ),
        CyclePhase::WedgeWithoutStatus
    );
    assert_eq!(
        check_cycle(
            CyclePhase::WedgeWithoutStatus,
            PhaseResult::Wedge { decision: WedgeDecision::Counting }
        ),
        CyclePhase::Over
    );
    assert_eq!(
        check_cycle(
            CyclePhase::WedgeWithoutStatus,
            PhaseResult::Wedge { decision: WedgeDecision::Off }
        ),
        CyclePhase::Absent
    );
    assert_eq!(
        check_cycle(
            CyclePhase::PostRestart,
            PhaseResult::Restarted { outcome: RestartedOutcome::NotIdle }
        ),
        CyclePhase::Over
    );
    assert_eq!(
        check_cycle(CyclePhase::ApiPoll, PhaseResult::Polled { looks_dead: true }),
        CyclePhase::SecondLook
    );
    assert_eq!(
        check_cycle(CyclePhase::SecondLook, PhaseResult::SecondLook { healed: false }),
        CyclePhase::DeadSession
    );
    assert_eq!(check_cycle(CyclePhase::DeadSession, PhaseResult::Done), CyclePhase::Over);
    assert_eq!(
        check_cycle(
            CyclePhase::FreshClear,
            PhaseResult::FreshClear { outcome: FreshClearOutcome::HeldByAck }
        ),
        CyclePhase::Over
    );
}

#[test]
fn counters_and_spans_have_room() {
    let mut state = State::default();
    assert!(state_has_room(&state));
    state.alert_count = u32::MAX;
    assert!(!state_has_room(&state));
    let mut config = Config::for_names(names());
    assert!(config_spans_fit(&config));
    config.ack.stale_minutes = u64::MAX / 60;
    assert!(config_spans_fit(&config));
    config.ack.stale_minutes = u64::MAX / 60 + 1;
    assert!(!config_spans_fit(&config));
    config.ack.stale_minutes = 20;
    config.auto_update.cooldown_hours = u64::MAX / 3600 + 1;
    assert!(!config_spans_fit(&config));
}

#[test]
fn steps_need_their_monitors() {
    let mut config = Config::for_names(names());
    config.reauth.enabled = true;
    config.reauth.expiry_watch_enabled = false;
    config.watcher_monitor.enabled = false;
    assert!(phase_due(&config, CyclePhase::Reauth, "%1"));
    assert!(!phase_due(&config, CyclePhase::Reauth, ""));
    assert!(!phase_due(&config, CyclePhase::LoginExpiry, "%1"));
    assert!(!phase_due(&config, CyclePhase::Watchers, "%1"));
    config.reauth.expiry_watch_enabled = true;
    config.watcher_monitor.enabled = true;
    assert!(phase_due(&config, CyclePhase::LoginExpiry, "%1"));
    assert!(!phase_due(&config, CyclePhase::LoginExpiry, ""));
    assert!(phase_due(&config, CyclePhase::Watchers, ""));
    config.reauth.enabled = false;
    assert!(!phase_due(&config, CyclePhase::Reauth, "%1"));
    assert!(!phase_due(&config, CyclePhase::LoginExpiry, "%1"));
    assert!(phase_due(&config, CyclePhase::Verdict, ""));
}

#[test]
fn a_retry_holds_every_interrupt_back() {
    let mut config = Config::for_names(names());
    config.general.obligation_dwell_secs = 0;
    config.general.post_interrupt_cooldown_secs = 0;
    config.hybrid.enabled = false;
    config.context_monitor.enabled = true;
    config.context_monitor.wedged_detection_enabled = true;
    config.context_monitor.wedged_consecutive = 1;
    config.malformed_tool_call.enabled = true;
    config.malformed_tool_call.consecutive = 1;
    let full = config.claude.max_context_tokens;
    for retrying in [false, true] {
        let mut state = State::default();
        let obs = ContextObs {
            tokens: full,
            compact_remaining: None,
            api_retrying: retrying,
            hook_recent: false,
            active_subagents: 0,
        };
        let r = context_monitor_step(&config, &mut state, obs, &stamp(0), at(0));
        assert_eq!(r == ContextOutcome::Fired, !retrying);
        let mut state = State::default();
        let r = handle_wedged_pane(&config, &mut state, "%1", true, retrying, at(0));
        assert_eq!(r == WedgeDecision::Recover { retry: false }, !retrying);
        let mut state = State::default();
        let obs = MalformedObs {
            fingerprint: Some("call".to_string()),
            tokens: full,
            active_ui: false,
            api_retrying: retrying,
        };
        let r = malformed_step(&config, &mut state, "%1", &obs, &stamp(0), at(0));
        assert_eq!(r == MalformedOutcome::Told { hard_block: false }, !retrying);
        let mut state = State::default();
        let obs = InjectObs {
            max_down_secs: None,
            bashes: 0,
            api_retrying: retrying,
            active_subagents: 0,
        };
        let missing = vec!["mail-wait".to_string()];
        let r = watcher_inject_step(
            &config, &mut state, "%1", &missing, "events", obs, &stamp(0), at(0),
        );
        assert_eq!(r == InjectOutcome::Fired { escalation: None, capped: false }, !retrying);
        let obs = ForegroundObs {
            fg_busy: true,
            is_thinking: true,
            workload_fresh: false,
            ack_age_secs: None,
            active_subagents: 0,
        };
        let mut state = State::default();
        let r = check_foreground_inner(
            &config, &mut state, "%1", full, retrying, obs, &stamp(0), at(0),
        );
        assert_eq!(r == ForegroundReport::ApiRetry, retrying);
    }
}

#[test]
fn each_step_goes_by_its_own_readings() {
    let readings = Readings {
        status_pane: "s:0.0".to_string(),
        raw_tokens: 1,
        bashes: 2,
        fallback_pane: "f:0.0".to_string(),
        pane: "p:0.0".to_string(),
        tokens: 3,
        context_tokens: 4,
    };
    let expected = [
        (CyclePhase::Status, "", 0, 0, 0),
        (CyclePhase::WedgeWithoutStatus, "f:0.0", 0, 0, 0),
        (CyclePhase::Absent, "", 0, 0, 0),
        (CyclePhase::PostRestart, "s:0.0", 1, 0, 0),
        (CyclePhase::Reading, "s:0.0", 1, 0, 2),
        (CyclePhase::ApiPoll, "p:0.0", 3, 0, 2),
        (CyclePhase::SecondLook, "p:0.0", 0, 0, 0),
        (CyclePhase::DeadSession, "p:0.0", 0, 0, 2),
        (CyclePhase::UpdateTrigger, "p:0.0", 0, 0, 0),
        (CyclePhase::AutoUpdate, "p:0.0", 0, 0, 0),
        (CyclePhase::Reauth, "p:0.0", 0, 0, 0),
        (CyclePhase::LoginExpiry, "p:0.0", 0, 0, 0),
        (CyclePhase::PostClear, "p:0.0", 3, 0, 0),
        (CyclePhase::FreshClear, "p:0.0", 3, 0, 2),
        (CyclePhase::AckStale, "p:0.0", 0, 0, 2),
        (CyclePhase::AskQuestion, "p:0.0", 0, 0, 0),
        (CyclePhase::Foreground, "p:0.0", 3, 0, 0),
        (CyclePhase::Context, "p:0.0", 3, 4, 0),
        (CyclePhase::Wedged, "p:0.0", 4, 0, 0),
        (CyclePhase::Malformed, "p:0.0", 3, 0, 0),
        (CyclePhase::Watchers, "p:0.0", 0, 0, 2),
        (CyclePhase::AutoRespawn, "p:0.0", 0, 0, 0),
        (CyclePhase::Verdict, "p:0.0", 3, 0, 2),
        (CyclePhase::Over, "", 0, 0, 0),
    ];
    for (phase, pane, tokens, sample, bashes) in expected {
        let inputs = step_inputs(phase, &readings);
        assert_eq!(inputs.pane, pane, "{phase:?}");
        assert_eq!(inputs.tokens, tokens, "{phase:?}");
        assert_eq!(inputs.sample, sample, "{phase:?}");
        assert_eq!(inputs.bashes, bashes, "{phase:?}");
    }
}

#[test]
fn every_section_starts_from_its_own_defaults() {
    let config = Config::for_names(names());
    assert!(config.auto_update.relaunch_command.is_empty());
    assert_eq!(config.auto_respawn_on_hang.respawn_command, ["cwsr", "--no-upgrade"]);
    assert_eq!(config.alerts.escalation_tiers, [60]);
    assert_eq!(config.alerts.max_pingme_alerts, 3);
    assert_eq!(config.ack.stale_minutes, 20);
    assert!(config_spans_fit(&config));
}

#[test]
fn the_usual_paths_follow_the_name_of_the_program() {
    let names = NamesConfig {
        program: "pilot".to_string(),
        product: "Pilot Desk".to_string(),
        short: "Pilot".to_string(),
        daemon: "tower".to_string(),
        tag: "TOWER".to_string(),
    };
    let config = Config::for_names(names);
    assert_eq!(config.claude.relaunch_script, "/var/run/pilot/pilot-relaunch.sh");
    assert_eq!(config.stuck_detection.workload_heartbeat_dir, "/var/run/pilot/workloads");
    assert_eq!(config.names.daemon, "tower");
}
