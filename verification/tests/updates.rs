//! Updates: when one starts, and how it runs.
use claude_watch_policy::config::{Config, NamesConfig};
use claude_watch_policy::state::State;
use claude_watch_policy::time::Moment;
use claude_watch_policy::update::{
    auto_update_gate, check_auto_update, check_auto_update_at, check_update_trigger,
    finish_update, note_update_resumed, plan_update_relaunch, run_auto_update,
    run_auto_update_clean_relaunch, update_complete_message, AutoUpdateOutcome, TriggerOutcome,
    UpdateFailure, UpdateGate, UpdateStep, VersionSights,
};

fn names() -> NamesConfig {
    NamesConfig {
        program: "agent".to_string(),
        product: "Agent".to_string(),
        short: "Agent".to_string(),
        daemon: "agent-watch".to_string(),
        tag: "AGENT-WATCH".to_string(),
    }
}

const BASE: i64 = 1_767_225_600;

fn at(secs: i64) -> Moment {
    Moment { secs: BASE + secs, nanos: 0 }
}

fn stamp(secs: i64) -> String {
    chrono::DateTime::from_timestamp(BASE + secs, 0).unwrap().to_rfc3339()
}

fn versions(running: Option<&str>, installed: Option<&str>) -> VersionSights {
    VersionSights {
        running: running.map(|v| v.to_string()),
        installed: installed.map(|v| v.to_string()),
    }
}

fn config() -> Config {
    let mut config = Config::for_names(names());
    config.auto_update.enabled = true;
    config.auto_update.check_minute = 7;
    config.auto_update.cooldown_hours = 2;
    config
}

#[test]
fn the_trigger_starts_an_update_where_there_is_one() {
    let newer = versions(Some("1.0"), Some("1.1"));
    let same = versions(Some("1.1"), Some("1.1"));
    let mut state = State::default();
    let s = stamp(0);
    let mut run = |content: Option<&str>, pane: &str, v: &VersionSights| {
        check_update_trigger(&mut state, content, pane, v, &s)
    };
    assert_eq!(run(None, "%1", &newer), TriggerOutcome::NoTrigger);
    assert_eq!(run(Some(""), "", &newer), TriggerOutcome::NoPane);
    assert_eq!(run(Some(""), "%1", &versions(None, Some("1"))), TriggerOutcome::UnknownVersion);
    assert_eq!(run(Some(""), "%1", &versions(Some("1"), None)), TriggerOutcome::UnknownVersion);
    assert_eq!(run(Some("forced"), "%1", &same), TriggerOutcome::UpToDate);
    assert_eq!(run(Some(" force\n"), "%1", &same), TriggerOutcome::Started { force: true });
    assert_eq!(run(Some(""), "%1", &newer), TriggerOutcome::Started { force: false });
    assert_eq!(state.auto_update_count, 2);
    assert_eq!(state.auto_update_interrupts_total, 2);
    assert!(state.update_in_progress);
    assert_eq!(state.last_update_attempt, Some(stamp(0)));
    assert_eq!(state.fallback_update_count, 0);
}

#[test]
fn the_versions_are_looked_at_once_an_hour() {
    let mut config = config();
    let mut state = State::default();
    assert_eq!(auto_update_gate(&config, &state, "%1", 7, at(0)), UpdateGate::Check);
    assert_eq!(auto_update_gate(&config, &state, "%1", 8, at(0)), UpdateGate::NotTime);
    assert_eq!(auto_update_gate(&config, &state, "", 7, at(0)), UpdateGate::Off);
    state.last_update_attempt = Some(stamp(0));
    assert_eq!(auto_update_gate(&config, &state, "%1", 7, at(7199)), UpdateGate::CoolingDown);
    assert_eq!(auto_update_gate(&config, &state, "%1", 7, at(7200)), UpdateGate::Check);
    state.update_in_progress = true;
    assert_eq!(auto_update_gate(&config, &state, "%1", 7, at(3600)), UpdateGate::InProgress);
    assert_eq!(auto_update_gate(&config, &state, "%1", 7, at(3601)), UpdateGate::CoolingDown);
    state.last_update_attempt = Some("never".to_string());
    assert_eq!(auto_update_gate(&config, &state, "%1", 7, at(9999)), UpdateGate::InProgress);
    state.last_update_attempt = None;
    assert_eq!(auto_update_gate(&config, &state, "%1", 7, at(9999)), UpdateGate::Check);
    config.auto_update.enabled = false;
    assert_eq!(auto_update_gate(&config, &state, "%1", 7, at(0)), UpdateGate::Off);
}

#[test]
fn a_lost_update_is_forgotten_and_a_newer_version_starts_one() {
    let config = config();
    let mut state = State::default();
    state.update_in_progress = true;
    let newer = versions(Some("1.0"), Some("1.1"));
    let r = check_auto_update_at(
        &config, &mut state, "%1", &newer, false, None, &stamp(0), 8, at(0),
    );
    assert_eq!(r, AutoUpdateOutcome::Skipped { gate: UpdateGate::NotTime });
    assert!(!state.update_in_progress);
    let r = check_auto_update_at(
        &config, &mut state, "%1", &newer, true, None, &stamp(1), 7, at(1),
    );
    assert_eq!(r, AutoUpdateOutcome::LeftToHook);
    assert_eq!(state.last_update_check, Some(stamp(1)));
    let r = check_auto_update_at(
        &config, &mut state, "%1", &newer, false, None, &stamp(2), 7, at(2),
    );
    assert_eq!(r, AutoUpdateOutcome::Started);
    assert_eq!(state.auto_update_count, 1);
    assert_eq!(state.fallback_update_count, 1);
    assert_eq!(state.last_update_check, Some(stamp(2)));
    finish_update(&mut state);
    assert!(!state.update_in_progress);
}

#[test]
fn matching_versions_count_the_reminders_latency() {
    let config = config();
    let mut state = State::default();
    let same = versions(Some("1.1"), Some("1.1"));
    let r = check_auto_update_at(
        &config, &mut state, "%1", &same, false, Some(4_000), &stamp(0), 7, at(0),
    );
    assert_eq!(r, AutoUpdateOutcome::UpToDate);
    assert_eq!(state.reminder_to_update_latency_ms_sum, 4_000);
    assert_eq!(state.reminder_to_update_latency_count, 1);
    let unknown = versions(None, None);
    let r = check_auto_update_at(
        &config, &mut state, "%1", &unknown, false, None, &stamp(0), 7, at(0),
    );
    assert_eq!(r, AutoUpdateOutcome::UnknownVersion);
}

#[test]
fn the_clock_decides_at_most_whether_it_is_time() {
    let mut config = config();
    config.auto_update.check_minute = 60;
    let mut state = State::default();
    let newer = versions(Some("1.0"), Some("1.1"));
    let r = check_auto_update(&config, &mut state, "%1", &newer, false, None, &stamp(0));
    assert_eq!(r, AutoUpdateOutcome::Skipped { gate: UpdateGate::NotTime });
}

fn walk(config: &Config, results: &[bool]) -> UpdateStep {
    let mut step = UpdateStep::Interrupt;
    for ok in results {
        step = run_auto_update(config, step, *ok);
    }
    step
}

#[test]
fn an_update_runs_to_its_end() {
    let mut config = config();
    let all = [true; 12];
    assert_eq!(walk(&config, &all), UpdateStep::Complete { clean: false });
    config.auto_update.relaunch_command = vec!["cwsr".to_string()];
    assert_eq!(walk(&config, &all), UpdateStep::Complete { clean: true });
    assert_eq!(walk(&config, &all[..5]), UpdateStep::TypeResume { clean: true });
    assert_eq!(walk(&config, &all[..6]), UpdateStep::RecordResume);
}

#[test]
fn every_failure_has_its_reason() {
    let mut config = config();
    config.auto_respawn_on_hang.respawn_command = vec![];
    let failed = |why| UpdateStep::Failed { why };
    assert_eq!(
        walk(&config, &[true, true, true, false]),
        failed(UpdateFailure::ExitTimeout)
    );
    assert_eq!(
        walk(&config, &[true, true, true, true, false]),
        failed(UpdateFailure::ScriptUnwritten)
    );
    let lost = [true, true, true, true, true, true, false];
    assert_eq!(walk(&config, &lost), failed(UpdateFailure::BinaryMissing { clean: false }));
    config.auto_respawn_on_hang.respawn_command = vec!["cwsr".to_string()];
    assert_eq!(walk(&config, &lost), UpdateStep::RunRestartCommand);
    assert_eq!(
        run_auto_update(&config, UpdateStep::RunRestartCommand, false),
        failed(UpdateFailure::BinaryMissing { clean: false })
    );
    assert_eq!(
        run_auto_update(&config, UpdateStep::WaitBinaryAgain, true),
        UpdateStep::SettleDialog { clean: false }
    );
    assert_eq!(
        run_auto_update(&config, UpdateStep::SettleDialog { clean: false }, false),
        failed(UpdateFailure::DialogStuck { clean: false })
    );
    assert_eq!(
        run_auto_update(&config, UpdateStep::WaitBinary { clean: true }, false),
        failed(UpdateFailure::BinaryMissing { clean: true })
    );
    assert_eq!(
        run_auto_update_clean_relaunch(UpdateStep::SettleDialog { clean: true }, false),
        failed(UpdateFailure::DialogStuck { clean: true })
    );
    assert_eq!(
        run_auto_update_clean_relaunch(UpdateStep::TypeExit, true),
        UpdateStep::TypeExit
    );

    assert_eq!(UpdateFailure::ExitTimeout.reason(), Some("exit_timeout"));
    assert_eq!(UpdateFailure::ScriptUnwritten.reason(), None);
    assert_eq!(
        UpdateFailure::BinaryMissing { clean: true }.reason(),
        Some("binary_not_found_after_clean_relaunch")
    );
    assert_eq!(
        UpdateFailure::BinaryMissing { clean: false }.reason(),
        Some("binary_not_found_resume_inject_aborted")
    );
    assert_eq!(
        UpdateFailure::DialogStuck { clean: true }.reason(),
        Some("bypass_dialog_stuck_after_clean_relaunch")
    );
    assert_eq!(
        UpdateFailure::DialogStuck { clean: false }.reason(),
        Some("bypass_dialog_stuck_after_relaunch")
    );
    let names = names();
    assert_eq!(
        UpdateFailure::ExitTimeout.alert_message(&names).as_deref(),
        Some("agent-watch: auto-update FAILED — Agent did not exit")
    );
    assert_eq!(
        UpdateFailure::BinaryMissing { clean: true }.alert_message(&names).as_deref(),
        Some(
            "agent-watch: auto-update FAILED — Agent did not restart after clean-relaunch \
             (cwsr). Operator must relaunch manually."
        )
    );
    assert_eq!(
        UpdateFailure::BinaryMissing { clean: false }.alert_message(&names).as_deref(),
        Some(
            "agent-watch: auto-update FAILED -- Agent did not restart even after a \
             clean-restart fallback; resume prompt NOT injected (would have hit a raw shell). \
             Operator must relaunch manually."
        )
    );
    assert_eq!(UpdateFailure::ScriptUnwritten.alert_message(&names), None);
    assert_eq!(UpdateFailure::DialogStuck { clean: true }.alert_message(&names), None);
}

#[test]
fn steps_have_their_budgets() {
    assert_eq!(UpdateStep::Interrupt.budget_secs(), Some(10));
    assert_eq!(UpdateStep::ConfirmExit.budget_secs(), Some(5));
    assert_eq!(UpdateStep::WaitExit.budget_secs(), Some(45));
    assert_eq!(UpdateStep::WaitBinary { clean: true }.budget_secs(), Some(120));
    assert_eq!(UpdateStep::WaitPrompt { clean: true }.budget_secs(), Some(90));
    assert_eq!(UpdateStep::TypeExit.budget_secs(), None);
    assert_eq!(UpdateStep::Interrupt.pause_secs(), 3);
    assert_eq!(UpdateStep::WaitExit.pause_secs(), 2);
    assert_eq!(UpdateStep::WaitPrompt { clean: false }.pause_secs(), 3);
    assert_eq!(UpdateStep::TypeExit.pause_secs(), 0);
    assert!(UpdateStep::Complete { clean: true }.ended());
    assert!(!UpdateStep::Interrupt.ended());
}

#[test]
fn a_relaunch_after_an_update_is_planned() {
    let plan = plan_update_relaunch(&Config::for_names(names()), "bin", None, None, None);
    assert_eq!(
        plan.script,
        "#!/bin/bash\ncd $HOME\nbin --dangerously-skip-permissions --continue\n\
         echo \"\\n[agent-watch-update] Agent exited with code $?\"\n"
    );
    assert!(plan.inject.ends_with("{ cd $HOME && bin --dangerously-skip-permissions --continue; }"));
}

#[test]
fn a_resumed_session_needs_no_second_prompt() {
    let mut state = State::default();
    state.last_context_clear = Some(stamp(3));
    note_update_resumed(&mut state);
    assert_eq!(state.post_clear_resume_injected_for, Some(stamp(3)));
    state.last_context_clear = None;
    note_update_resumed(&mut state);
    assert_eq!(state.post_clear_resume_injected_for, None);
}

#[test]
fn a_completed_update_is_worded() {
    let n = names();
    assert_eq!(
        update_complete_message(&n, "1.0", "1.1", true),
        "agent-watch: auto-update complete (1.0 → 1.1, clean-relaunch)"
    );
    assert_eq!(
        update_complete_message(&n, "1.0", "1.1", false),
        "agent-watch: auto-update complete (1.0 → 1.1)"
    );
}

#[test]
fn only_the_exit_dialog_is_polled_for() {
    assert_eq!(UpdateStep::ConfirmExit.poll_millis(), Some(500));
    for step in [UpdateStep::Interrupt, UpdateStep::WaitExit, UpdateStep::TypeRelaunch] {
        assert_eq!(step.poll_millis(), None);
    }
}
