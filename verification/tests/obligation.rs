//! Obligations that come before an interrupt, and prompts after a clear.
use chrono::Utc;
use claude_watch_policy::fresh_clear::post_clear_resume_due;
use claude_watch_policy::liveness::{main_loop_actively_turning, watcher_down_actively_turning};
use claude_watch_policy::obligation::{
    context_escalation_decision, context_hook_defer_allowed, obligation_escalation_decision,
    watcher_down_obligation_decision, ObligationDecision,
};
use claude_watch_policy::state::State;

#[test]
fn context_escalation_fires_despite_live_subagents_after_deadline() {
    let armed = (Utc::now() - chrono::Duration::seconds(400)).to_rfc3339();
    let now = Utc::now().to_rfc3339();
    assert_eq!(
        obligation_escalation_decision(Some(&armed), 90, 1, &now),
        ObligationDecision::Hold,
        "base gate holds forever while any subagent is live"
    );
    assert_eq!(
        context_escalation_decision(Some(&armed), 90, 1, 300, &now),
        ObligationDecision::Escalate,
        "armed past max_armed_secs must fire regardless of subagent count"
    );
}

#[test]
fn context_escalation_holds_before_deadline() {
    let armed = (Utc::now() - chrono::Duration::seconds(100)).to_rfc3339();
    let now = Utc::now().to_rfc3339();
    assert_eq!(
        context_escalation_decision(Some(&armed), 90, 1, 300, &now),
        ObligationDecision::Hold
    );
}

#[test]
fn context_escalation_deadline_zero_is_legacy_behaviour() {
    let armed = (Utc::now() - chrono::Duration::seconds(9999)).to_rfc3339();
    let now = Utc::now().to_rfc3339();
    assert_eq!(
        context_escalation_decision(Some(&armed), 90, 1, 0, &now),
        ObligationDecision::Hold
    );
}

#[test]
fn context_escalation_deadline_does_not_skip_the_arm_phase() {
    let now = Utc::now().to_rfc3339();
    assert_eq!(
        context_escalation_decision(None, 90, 3, 300, &now),
        ObligationDecision::ArmObligation
    );
}

#[test]
fn context_hook_defer_ceiling_expires_from_the_crossing() {
    let recent = (Utc::now() - chrono::Duration::seconds(60)).to_rfc3339();
    let ancient = (Utc::now() - chrono::Duration::seconds(900)).to_rfc3339();
    assert!(context_hook_defer_allowed(Some(&recent), 600));
    assert!(
        !context_hook_defer_allowed(Some(&ancient), 600),
        "15 min past the crossing must stop deferring to the hook"
    );
    assert!(context_hook_defer_allowed(Some(&ancient), 0));
    assert!(context_hook_defer_allowed(None, 600));
}

#[test]
fn watcher_down_wedged_pane_is_not_actively_turning() {
    let mut state = State::default();
    state.last_active_at = Some(Utc::now().to_rfc3339());
    let bashes = 2;
    assert!(
        main_loop_actively_turning(&state, bashes, 30),
        "leftover background shells read as active"
    );
    assert!(
        watcher_down_actively_turning(&state, bashes, true, 30, false, false),
        "healthy busy pane: suppression still applies"
    );
    assert!(
        !watcher_down_actively_turning(&state, bashes, true, 30, false, true),
        "wedged pane must never count as actively turning"
    );
    assert!(!watcher_down_actively_turning(
        &state, bashes, true, 30, true, false
    ));
}

#[test]
fn post_clear_resume_fires_at_zero_tokens_with_background_shells() {
    let (tokens, bashes) = (0u64, 2u64);
    let (min_tokens, max_tokens) = (2000u64, 5000u64);

    assert!(
        !(tokens >= min_tokens && tokens < max_tokens && bashes == 0),
        "fresh-/clear gate cannot see a post-clear pane"
    );
    assert!(
        !(tokens == 0 && bashes == 0),
        "fresh-session gate cannot see a post-clear pane with live shells"
    );

    let cleared = (Utc::now() - chrono::Duration::seconds(30)).to_rfc3339();
    assert!(post_clear_resume_due(
        tokens,
        min_tokens,
        Some(&cleared),
        300,
        None,
        false,
        true,
        false,
        2,
        2,
    ));
}

#[test]
fn post_clear_resume_defers_to_daemon_self_clear() {
    let cleared = (Utc::now() - chrono::Duration::seconds(30)).to_rfc3339();
    assert!(!post_clear_resume_due(
        0,
        2000,
        Some(&cleared),
        300,
        None,
        true,
        true,
        false,
        2,
        2
    ));
}

#[test]
fn post_clear_resume_latches_to_one_inject_per_clear() {
    let cleared = (Utc::now() - chrono::Duration::seconds(30)).to_rfc3339();
    assert!(
        !post_clear_resume_due(
            0,
            2000,
            Some(&cleared),
            300,
            Some(&cleared),
            false,
            true,
            false,
            5,
            2
        ),
        "must not re-inject every cycle while the pane sits idle"
    );
}

#[test]
fn post_clear_resume_respects_its_guards() {
    let cleared = (Utc::now() - chrono::Duration::seconds(30)).to_rfc3339();
    let stale = (Utc::now() - chrono::Duration::seconds(3600)).to_rfc3339();
    let due = |tokens, last, idle, interactive, checks, window| {
        post_clear_resume_due(
            tokens,
            2000,
            last,
            window,
            None,
            false,
            idle,
            interactive,
            checks,
            2,
        )
    };
    assert!(!due(3000, Some(&cleared), true, false, 2, 300));
    assert!(!due(0, None, true, false, 2, 300));
    assert!(!due(0, Some(&stale), true, false, 2, 300));
    assert!(!due(0, Some(&cleared), false, false, 2, 300));
    assert!(!due(0, Some(&cleared), true, true, 2, 300));
    assert!(!due(0, Some(&cleared), true, false, 1, 300));
    assert!(!due(0, Some(&cleared), true, false, 2, 0));
}

#[test]
fn test_obligation_decision_arm_when_unarmed() {
    let now = Utc::now().to_rfc3339();
    assert_eq!(
        obligation_escalation_decision(None, 90, 0, &now),
        ObligationDecision::ArmObligation
    );
}

#[test]
fn test_obligation_decision_hold_when_dwell_not_elapsed() {
    let armed = (Utc::now() - chrono::Duration::seconds(10)).to_rfc3339();
    let now = Utc::now().to_rfc3339();
    assert_eq!(
        obligation_escalation_decision(Some(&armed), 90, 0, &now),
        ObligationDecision::Hold
    );
}

#[test]
fn test_obligation_decision_hold_when_subagents_active() {
    let armed = (Utc::now() - chrono::Duration::seconds(120)).to_rfc3339();
    let now = Utc::now().to_rfc3339();
    assert_eq!(
        obligation_escalation_decision(Some(&armed), 90, 2, &now),
        ObligationDecision::Hold
    );
}

#[test]
fn test_obligation_decision_escalate_when_dwelled_and_idle() {
    let armed = (Utc::now() - chrono::Duration::seconds(120)).to_rfc3339();
    let now = Utc::now().to_rfc3339();
    assert_eq!(
        obligation_escalation_decision(Some(&armed), 90, 0, &now),
        ObligationDecision::Escalate
    );
}

#[test]
fn test_obligation_decision_dwell_zero_short_circuits_escalate() {
    let now = Utc::now().to_rfc3339();
    assert_eq!(
        obligation_escalation_decision(None, 0, 0, &now),
        ObligationDecision::Escalate
    );
    assert_eq!(
        obligation_escalation_decision(None, 0, 5, &now),
        ObligationDecision::Escalate
    );
}

#[test]
fn test_watcher_down_decision_arms_on_first_detection() {
    let now = Utc::now().to_rfc3339();
    assert_eq!(
        watcher_down_obligation_decision(false, None, 90, 0, &now),
        ObligationDecision::ArmObligation
    );
}

#[test]
fn test_watcher_down_decision_holds_within_dwell() {
    let armed = (Utc::now() - chrono::Duration::seconds(10)).to_rfc3339();
    let now = Utc::now().to_rfc3339();
    assert_eq!(
        watcher_down_obligation_decision(false, Some(&armed), 90, 0, &now),
        ObligationDecision::Hold
    );
}

#[test]
fn test_watcher_down_decision_holds_when_subagents_live() {
    let armed = (Utc::now() - chrono::Duration::seconds(120)).to_rfc3339();
    let now = Utc::now().to_rfc3339();
    assert_eq!(
        watcher_down_obligation_decision(false, Some(&armed), 90, 3, &now),
        ObligationDecision::Hold
    );
}

#[test]
fn test_watcher_down_decision_escalates_after_dwell_no_subagents() {
    let armed = (Utc::now() - chrono::Duration::seconds(120)).to_rfc3339();
    let now = Utc::now().to_rfc3339();
    assert_eq!(
        watcher_down_obligation_decision(false, Some(&armed), 90, 0, &now),
        ObligationDecision::Escalate
    );
}

#[test]
fn test_watcher_down_decision_suppression_escalation_forces_escalate() {
    let now = Utc::now().to_rfc3339();
    assert_eq!(
        watcher_down_obligation_decision(true, None, 90, 0, &now),
        ObligationDecision::Escalate
    );
    let armed = (Utc::now() - chrono::Duration::seconds(5)).to_rfc3339();
    assert_eq!(
        watcher_down_obligation_decision(true, Some(&armed), 90, 9, &now),
        ObligationDecision::Escalate
    );
}

#[test]
fn test_watcher_down_decision_dwell_zero_legacy_same_cycle() {
    let now = Utc::now().to_rfc3339();
    assert_eq!(
        watcher_down_obligation_decision(false, None, 0, 0, &now),
        ObligationDecision::Escalate
    );
}
