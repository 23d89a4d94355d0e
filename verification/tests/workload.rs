//! Workload heartbeats, acknowledgement stamps and the prompt of a fresh session.
use claude_watch_policy::config::StuckDetectionConfig;
use claude_watch_policy::liveness::{
    fresh_inject_due, heartbeat_stale_liveness_reason, stuck_suppressed_by_activity,
    workload_heartbeat_fresh, workload_heartbeat_suppresses_stuck, WorkloadFile,
};
use claude_watch_policy::time::{current_moment, last_ack_timestamp_age, Moment};

fn secs_ago(secs: i64) -> Moment {
    let now = current_moment();
    Moment { secs: now.secs - secs, nanos: now.nanos }
}

fn file(name: &str, modified: Moment) -> WorkloadFile {
    WorkloadFile { name: name.to_string(), is_file: true, modified: Some(modified) }
}

#[test]
fn stuck_suppressed_by_activity_truth_table() {
    assert!(
        !stuck_suppressed_by_activity(false, 0),
        "no workload + 0 subagents must NOT suppress"
    );
    assert!(
        stuck_suppressed_by_activity(true, 0),
        "fresh workload heartbeat must suppress"
    );
    assert!(
        stuck_suppressed_by_activity(false, 1),
        "one active subagent must suppress"
    );
    assert!(
        stuck_suppressed_by_activity(false, 5),
        "many active subagents must suppress"
    );
    assert!(
        stuck_suppressed_by_activity(true, 3),
        "both conditions must suppress"
    );
}

#[test]
fn heartbeat_stale_liveness_reason_truth_table() {
    assert_eq!(
        heartbeat_stale_liveness_reason(false, 0, false, false),
        None,
        "idle+not-thinking+no-activity must let the stuck flag fire"
    );
    assert_eq!(
        heartbeat_stale_liveness_reason(true, 0, false, false),
        Some("workload_heartbeat_fresh")
    );
    assert_eq!(
        heartbeat_stale_liveness_reason(false, 2, false, false),
        Some("active_subagents")
    );
    assert_eq!(
        heartbeat_stale_liveness_reason(false, 0, true, false),
        Some("loop_thinking")
    );
    assert_eq!(
        heartbeat_stale_liveness_reason(false, 0, false, true),
        Some("loop_actively_turning")
    );
    assert_eq!(
        heartbeat_stale_liveness_reason(true, 1, true, true),
        Some("workload_heartbeat_fresh")
    );
}

#[test]
fn last_ack_timestamp_age_returns_none_when_missing() {
    assert_eq!(
        last_ack_timestamp_age(None, current_moment()),
        None,
        "missing last-ack timestamp must return None"
    );
}

#[test]
fn last_ack_timestamp_age_returns_age_when_present() {
    let now = current_moment();
    let age = last_ack_timestamp_age(Some(now), current_moment());
    assert!(age.is_some(), "fresh ack file must return Some(age)");
    assert!(age.unwrap() < 10, "fresh ack file age must be near zero, got {:?}", age);
}

#[test]
fn last_ack_timestamp_age_returns_age_when_stale() {
    let age = last_ack_timestamp_age(Some(secs_ago(700)), current_moment());
    assert!(age.is_some(), "stale ack file must return Some(age)");
    let age_val = age.unwrap();
    assert!(
        age_val >= 690 && age_val <= 710,
        "stale ack file age must be ~700s, got {}",
        age_val
    );
}

#[test]
fn workload_heartbeat_fresh_missing_dir_returns_false() {
    assert!(!workload_heartbeat_fresh(None, 60, current_moment()));
}

#[test]
fn workload_heartbeat_fresh_empty_dir_returns_false() {
    assert!(!workload_heartbeat_fresh(Some(&vec![]), 60, current_moment()));
}

#[test]
fn workload_heartbeat_fresh_fresh_file_returns_true() {
    let entries = vec![file("active-workload.heartbeat", secs_ago(0))];
    assert!(workload_heartbeat_fresh(Some(&entries), 60, current_moment()));
}

#[test]
fn workload_heartbeat_fresh_stale_file_returns_false() {
    let entries = vec![file("stale.heartbeat", secs_ago(300))];
    assert!(!workload_heartbeat_fresh(Some(&entries), 60, current_moment()));
}

#[test]
fn workload_heartbeat_fresh_one_fresh_among_stale_returns_true() {
    let entries = vec![
        file("stale-workload.heartbeat", secs_ago(300)),
        file("fresh-workload.heartbeat", secs_ago(0)),
    ];
    assert!(workload_heartbeat_fresh(Some(&entries), 60, current_moment()));
}

#[test]
fn workload_heartbeat_fresh_ignores_non_heartbeat_files() {
    let entries = vec![file("workload.output", secs_ago(0))];
    assert!(!workload_heartbeat_fresh(Some(&entries), 60, current_moment()));
}

#[test]
fn workload_heartbeat_fresh_future_mtime_returns_true() {
    let entries = vec![file("future.heartbeat", secs_ago(-120))];
    assert!(workload_heartbeat_fresh(Some(&entries), 60, current_moment()));
}

#[test]
fn workload_heartbeat_suppresses_stuck_respects_master_switch() {
    let entries = vec![file("a.heartbeat", secs_ago(0))];
    assert!(workload_heartbeat_fresh(Some(&entries), 60, current_moment()));

    let stuck = StuckDetectionConfig {
        enabled: false,
        workload_heartbeat_dir: "/tmp/heartbeats".to_string(),
        workload_heartbeat_max_age_secs: 60,
    };
    let suppressed = workload_heartbeat_suppresses_stuck(&stuck, Some(&entries), current_moment());
    assert!(!suppressed, "master switch off must suppress nothing");

    let stuck_on = StuckDetectionConfig { enabled: true, ..stuck };
    let suppressed_on =
        workload_heartbeat_suppresses_stuck(&stuck_on, Some(&entries), current_moment());
    assert!(suppressed_on, "master switch on must let fresh hb suppress");
}

#[test]
fn test_fresh_inject_due_fires_when_idle_and_no_interactive_prompt() {
    assert!(fresh_inject_due(
        /* dead_checks */ 3,
        /* fresh_inject_checks */ 3,
        /* already_injected */ false,
        /* is_idle */ true,
        /* interactive_prompt */ false,
    ));
}

#[test]
fn test_fresh_inject_due_suppressed_when_interactive_prompt_pending() {
    assert!(
        !fresh_inject_due(
            /* dead_checks */ 10,
            /* fresh_inject_checks */ 3,
            /* already_injected */ false,
            /* is_idle */ true,
            /* interactive_prompt */ true,
        ),
        "a pending interactive question must suppress the fresh-inject"
    );
}

#[test]
fn test_fresh_inject_due_requires_idle() {
    assert!(!fresh_inject_due(5, 3, false, false, false));
    assert!(!fresh_inject_due(5, 3, false, false, true));
}

#[test]
fn test_fresh_inject_due_requires_threshold_and_not_already_injected() {
    assert!(!fresh_inject_due(2, 3, false, true, false));
    assert!(!fresh_inject_due(5, 3, true, true, false));
}

#[test]
fn a_heartbeat_is_too_old_by_the_fraction_of_a_second() {
    let now = Moment { secs: 1_767_225_600, nanos: 900_000_000 };
    let fresh = |modified: Moment, bound: u64| {
        workload_heartbeat_fresh(Some(&vec![file("job.heartbeat", modified)]), bound, now)
    };
    assert!(fresh(now, 0));
    assert!(!fresh(Moment { secs: now.secs, nanos: 400_000_000 }, 0));
    assert!(fresh(Moment { secs: now.secs, nanos: 900_000_001 }, 0));
    assert!(fresh(Moment { secs: now.secs - 60, nanos: 900_000_000 }, 60));
    assert!(!fresh(Moment { secs: now.secs - 60, nanos: 899_999_999 }, 60));
    assert!(!fresh(Moment { secs: now.secs - 60, nanos: 0 }, 60));
    assert!(fresh(Moment { secs: now.secs - 59, nanos: 0 }, 60));
}
