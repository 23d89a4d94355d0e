//! Rounds over the watchers, and the injects for those that are missing.
use claude_watch_policy::config::{Config, NamesConfig};
use claude_watch_policy::state::State;
use claude_watch_policy::suppression::EscalationReason;
use claude_watch_policy::time::Moment;
use claude_watch_policy::watcher_health::WatcherState;
use claude_watch_policy::watcher_inject::{
    watcher_down_reason, watcher_inject_step, watcher_obligation_message, watcher_restart_prompt,
    watcher_suppressed_message, InjectObs, InjectOutcome,
};
use claude_watch_policy::watcher_round::{
    note_event_emitted, observe_watchers, reconcile_watcher_health, watchers_have_room,
    WatcherSight,
};
use claude_watch_policy::watchers::{
    is_pid_genuinely_alive, watcher_down_event_args, watcher_pid_dir,
};

fn daemon_names() -> NamesConfig {
    NamesConfig {
        program: "agent".to_string(),
        product: "Agent".to_string(),
        short: "Agent".to_string(),
        daemon: "agent-watch".to_string(),
        tag: "AGENT-WATCH".to_string(),
    }
}

const BASE: i64 = 1_767_225_600;

fn at(secs: i64) -> Moment {
    Moment { secs: BASE + secs, nanos: 0 }
}

fn stamp(secs: i64) -> String {
    chrono::DateTime::from_timestamp(BASE + secs, 0).unwrap().to_rfc3339()
}

const CONSUMER: &str = "event-watch";

fn sight(name: &str) -> WatcherSight {
    WatcherSight {
        name: name.to_string(),
        enabled: true,
        min_count: 1,
        pidfile_down: true,
        arming: false,
        runtime_age_ms: None,
        cleanly_exited: false,
    }
}

fn obs() -> InjectObs {
    InjectObs { max_down_secs: None, bashes: 0, api_retrying: false, active_subagents: 0 }
}

fn names(list: &[&str]) -> Vec<String> {
    list.iter().map(|n| n.to_string()).collect()
}

#[test]
fn an_absence_is_announced_then_injected() {
    let config = Config::for_names(daemon_names());
    let mut state = State::default();
    let sights = vec![sight("mail")];
    for cycle in 0..2 {
        let t = cycle * 10;
        let r = observe_watchers(&config, CONSUMER, &mut state, &sights, &stamp(t), at(t));
        assert!(r.announce.is_empty() && r.missing.is_empty());
    }
    let r = observe_watchers(&config, CONSUMER, &mut state, &sights, &stamp(20), at(20));
    assert_eq!(r.announce.len(), 1);
    assert_eq!(r.announce[0].name, "mail");
    assert_eq!(r.announce[0].consecutive_missing, 3);
    note_event_emitted(&mut state, "mail", &stamp(20));
    note_event_emitted(&mut state, "unknown", &stamp(20));
    assert!(state.watcher_health.get("unknown").is_none());
    for cycle in 3..8 {
        let t = cycle * 10;
        let r = observe_watchers(&config, CONSUMER, &mut state, &sights, &stamp(t), at(t));
        assert!(r.announce.is_empty() && r.missing.is_empty(), "cycle {cycle}");
    }
    let r = observe_watchers(&config, CONSUMER, &mut state, &sights, &stamp(80), at(80));
    assert_eq!(r.missing, names(&["mail"]));
    assert_eq!(r.max_down_secs, Some(80));
    let known = state.watcher_health.get("mail").unwrap();
    assert_eq!(known.consecutive_missing, 9);
    assert_eq!(known.down_since, Some(stamp(0)));
}

#[test]
fn a_watcher_that_runs_is_as_new() {
    let config = Config::for_names(daemon_names());
    let mut state = State::default();
    let mut mail = sight("mail");
    observe_watchers(&config, CONSUMER, &mut state, &vec![mail.clone()], &stamp(0), at(0));
    mail.pidfile_down = false;
    observe_watchers(&config, CONSUMER, &mut state, &vec![mail], &stamp(10), at(10));
    let known = state.watcher_health.get("mail").unwrap();
    assert_eq!(known.consecutive_missing, 0);
    assert_eq!(known.last_seen_running, Some(stamp(10)));
    assert_eq!(known.down_since, None);
}

#[test]
fn excuses_count_no_miss() {
    let config = Config::for_names(daemon_names());
    let mut state = State::default();
    let mut arming = sight("arming");
    arming.arming = true;
    let mut started = sight("started");
    started.runtime_age_ms = Some(89_999);
    let mut gone = sight("gone");
    gone.cleanly_exited = true;
    let mut optional = sight("optional");
    optional.min_count = 0;
    let mut off = sight("off");
    off.enabled = false;
    let sights = vec![arming, started, gone, optional, off];
    observe_watchers(&config, CONSUMER, &mut state, &sights, &stamp(0), at(0));
    for name in ["arming", "started", "gone", "optional"] {
        assert_eq!(state.watcher_health.get(name).unwrap().consecutive_missing, 0, "{name}");
    }
    assert!(state.watcher_health.get("off").is_none());
    let mut late = sight("started");
    late.runtime_age_ms = Some(90_000);
    observe_watchers(&config, CONSUMER, &mut state, &vec![late], &stamp(0), at(0));
    assert_eq!(state.watcher_health.get("started").unwrap().consecutive_missing, 1);
}

#[test]
fn the_list_decides_who_is_known() {
    let mut state = State::default();
    for name in ["kept", "dropped", "retired"] {
        let known = WatcherState { consecutive_missing: 7, enabled: true, ..Default::default() };
        state.watcher_health.insert(name.to_string(), known);
    }
    let mut retired = sight("retired");
    retired.enabled = false;
    reconcile_watcher_health(&mut state, &vec![sight("kept"), retired, sight("new")]);
    assert!(state.watcher_health.get("kept").unwrap().enabled);
    assert_eq!(state.watcher_health.get("kept").unwrap().consecutive_missing, 7);
    assert!(state.watcher_health.get("dropped").is_none());
    assert!(!state.watcher_health.get("retired").unwrap().enabled);
    assert!(state.watcher_health.get("new").is_none());
}

#[test]
fn room_for_misses_is_seen() {
    let mut state = State::default();
    assert!(watchers_have_room(&state, u32::MAX));
    let known = WatcherState { consecutive_missing: u32::MAX - 2, ..Default::default() };
    state.watcher_health.insert("mail".to_string(), known);
    assert!(watchers_have_room(&state, 2));
    assert!(!watchers_have_room(&state, 3));
}

#[test]
fn an_obligation_comes_before_the_inject() {
    let config = Config::for_names(daemon_names());
    let mut state = State::default();
    let missing = names(&["mail"]);
    let r = watcher_inject_step(
        &config, &mut state, "%1", &missing, CONSUMER, obs(), &stamp(0), at(0),
    );
    assert_eq!(r, InjectOutcome::Armed);
    assert_eq!(state.watcher_down_obligation_armed_at, Some(stamp(0)));
    let r = watcher_inject_step(
        &config, &mut state, "%1", &missing, CONSUMER, obs(), &stamp(90), at(90),
    );
    assert_eq!(r, InjectOutcome::Fired { escalation: None, capped: false });
    assert_eq!(state.last_watcher_inject, Some(stamp(90)));
    assert_eq!(state.last_interrupt_at, Some(stamp(90)));
    assert_eq!(state.watcher_inject_count, 1);
    assert_eq!(state.watcher_down_interrupts_total, 1);
    assert_eq!(state.watcher_down_obligation_armed_at, None);
    let r = watcher_inject_step(
        &config, &mut state, "%1", &missing, CONSUMER, obs(), &stamp(389), at(389),
    );
    assert_eq!(r, InjectOutcome::NotDue);
}

#[test]
fn the_consumers_absence_fires_at_once() {
    let config = Config::for_names(daemon_names());
    let mut state = State::default();
    let mut busy = obs();
    busy.bashes = 3;
    let r = watcher_inject_step(
        &config, &mut state, "%1", &names(&[CONSUMER]), CONSUMER, busy, &stamp(0), at(0),
    );
    assert_eq!(r, InjectOutcome::Fired { escalation: None, capped: false });
}

#[test]
fn a_session_at_work_puts_the_inject_off_but_not_for_ever() {
    let mut config = Config::for_names(daemon_names());
    config.suppression.max_consecutive_suppressions = 2;
    let mut state = State::default();
    let missing = names(&["mail"]);
    let mut busy = obs();
    busy.bashes = 1;
    for t in [0, 10] {
        let r = watcher_inject_step(
            &config, &mut state, "%1", &missing, CONSUMER, busy, &stamp(t), at(t),
        );
        assert_eq!(r, InjectOutcome::Suppressed);
    }
    assert_eq!(state.consecutive_suppressions, 2);
    assert_eq!(state.first_suppression_at, Some(stamp(0)));
    let r = watcher_inject_step(
        &config, &mut state, "%1", &missing, CONSUMER, busy, &stamp(20), at(20),
    );
    assert_eq!(
        r,
        InjectOutcome::Fired { escalation: Some(EscalationReason::ConsecutiveCap), capped: false }
    );
    assert_eq!(state.consecutive_suppressions, 0);

    let mut state = State::default();
    busy.max_down_secs = Some(config.watcher_monitor.max_suppress_secs);
    let r = watcher_inject_step(
        &config, &mut state, "%1", &missing, CONSUMER, busy, &stamp(0), at(0),
    );
    assert_eq!(r, InjectOutcome::Fired { escalation: None, capped: true });
}

#[test]
fn retries_cooldowns_and_recovery() {
    let mut config = Config::for_names(daemon_names());
    config.general.global_cooldown_exempt_watcher_down = false;
    let mut state = State::default();
    state.last_interrupt_at = Some(stamp(0));
    state.watcher_down_obligation_armed_at = Some(stamp(0));
    let missing = names(&["mail"]);
    let r = watcher_inject_step(
        &config, &mut state, "%1", &missing, CONSUMER, obs(), &stamp(100), at(100),
    );
    assert_eq!(r, InjectOutcome::InterruptCooldown);
    let mut retrying = obs();
    retrying.api_retrying = true;
    let r = watcher_inject_step(
        &config, &mut state, "%1", &missing, CONSUMER, retrying, &stamp(100), at(100),
    );
    assert_eq!(r, InjectOutcome::HeldByRetry);
    let r = watcher_inject_step(
        &config, &mut state, "%1", &names(&[]), CONSUMER, obs(), &stamp(110), at(110),
    );
    assert_eq!(r, InjectOutcome::AllClear);
    assert_eq!(state.watcher_down_obligation_armed_at, None);
    let r = watcher_inject_step(
        &config, &mut state, "", &missing, CONSUMER, obs(), &stamp(110), at(110),
    );
    assert_eq!(r, InjectOutcome::AllClear);
}

#[test]
fn the_inject_texts_are_worded() {
    let n = daemon_names();
    let missing = names(&["mail", "chat"]);
    assert_eq!(watcher_down_reason(&missing), "2 watcher(s) missing: mail, chat");
    assert_eq!(
        watcher_suppressed_message(&n, &missing),
        "[AGENT-WATCH] watcher-down (inject suppressed: main loop active): mail, chat"
    );
    assert_eq!(
        watcher_obligation_message(&n, &missing),
        "[AGENT-WATCH] WATCHER(S) DOWN: mail, chat. Restart them with: watcher-ctl run mail, \
         watcher-ctl run chat"
    );
    assert_eq!(
        watcher_restart_prompt(&n, &names(&["mail"])),
        "[AGENT-WATCH] WATCHER(S) DOWN: mail. You MUST restart them NOW. Run these as background \
         tasks immediately: watcher-ctl run mail"
    );
    assert_eq!(watcher_down_reason(&names(&[])), "0 watcher(s) missing: ");
}

#[test]
fn the_event_command_is_written_out() {
    let args = watcher_down_event_args(&daemon_names(), "emit", "mail", 3, Some(42));
    assert_eq!(
        args,
        names(&[
            "emit",
            "Watcher DOWN: mail. Run: watcher-ctl run mail",
            "--tag",
            "watcher-down",
            "--source",
            "agent-watch",
            "--source-name",
            "agent-watch",
            "--priority",
            "high",
            "--data",
            "watcher=mail",
            "--data",
            "consecutive_missing=3",
            "--data",
            "recorded_pid=42",
            "--data",
            "tier=actionable",
        ])
    );
    let args = watcher_down_event_args(&daemon_names(), "emit", "mail", 3, None);
    assert!(args.contains(&"recorded_pid=null".to_string()));
}

#[test]
fn zombies_are_not_alive() {
    assert!(!is_pid_genuinely_alive(Some("42 (sh) Z 1 42"), true));
    assert!(!is_pid_genuinely_alive(Some("42 (odd) name) Z 1 42"), true));
    assert!(is_pid_genuinely_alive(Some("42 (Zed) S 1 42"), false));
    assert!(is_pid_genuinely_alive(None, true));
    assert!(!is_pid_genuinely_alive(None, false));
}

#[test]
fn the_pid_directory_has_a_default() {
    let n = daemon_names();
    assert_eq!(watcher_pid_dir(&n, Some("/a"), Some("/b")), "/a");
    assert_eq!(watcher_pid_dir(&n, None, Some("/b")), "/b");
    assert_eq!(watcher_pid_dir(&n, None, None), "/var/run/agent");
}
