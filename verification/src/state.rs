//! What the daemon remembers between cycles.
use crate::hang;
use crate::hang::{HangHistoryView, HangSignalHistory};
use crate::time;
use crate::watcher_health::{WatcherHealth, WatcherStateView};
use vstd::prelude::*;

verus! {

/// Figures of a finished cycle.
#[derive(Debug, Clone, Copy, PartialEq, Eq, Structural)]
pub struct StatusSnapshot {
    pub bashes: u64,
    pub watchmen: u32,
}

/// Why the session was judged stuck, and what the status line showed then.
#[derive(Debug, Clone)]
pub struct FailureDetail {
    pub bashes: u64,
    pub watchmen: u32,
    pub stuck_reason: String,
}

/// What a [`FailureDetail`] holds.
pub struct FailureDetailView {
    pub bashes: u64,
    pub watchmen: u32,
    pub stuck_reason: Seq<char>,
}

impl View for FailureDetail {
    type V = FailureDetailView;

    open spec fn view(&self) -> FailureDetailView {
        FailureDetailView {
            bashes: self.bashes,
            watchmen: self.watchmen,
            stuck_reason: self.stuck_reason@,
        }
    }
}

/// What an optional [`FailureDetail`] holds.
pub open spec fn opt_failure_view(d: Option<FailureDetail>) -> Option<FailureDetailView> {
    match d {
        Some(f) => Some(f@),
        None => None,
    }
}

/// What the daemon remembers between cycles. Stamps are RFC 3339 text.
#[derive(Debug, Clone)]
pub struct State {
    /// When the last cycle ran.
    pub last_check: Option<String>,
    /// Pane of the last cycle that saw one.
    pub last_known_pane: String,
    /// Last context-token reading.
    pub last_known_tokens: u64,
    /// Last count of running background shells.
    pub last_known_bashes: u64,
    /// Consecutive polls whose zero reading was carried over.
    pub token_carry_count: u32,
    /// Token sample of the previous cycle.
    pub last_seen_tokens: Option<u64>,
    /// When a tool call was last seen running.
    pub last_active_at: Option<String>,
    /// Snapshot of the last finished cycle.
    pub last_status: Option<StatusSnapshot>,
    /// When the session was last judged stuck.
    pub last_failure: Option<String>,
    /// Why the session was last judged stuck.
    pub last_failure_detail: Option<FailureDetail>,
    /// Cycles in a row in which the session was judged stuck.
    pub consecutive_failures: u32,
    /// When the last stuck alert went out.
    pub last_alert: Option<String>,
    /// Stuck alerts of the running episode.
    pub alert_count: u32,
    /// Stale-acknowledgement injects so far.
    pub heartbeat_stale_count: u64,
    /// When the stuck obligation was armed.
    pub heartbeat_obligation_armed_at: Option<String>,
    /// When the last claimed interrupt fired.
    pub last_interrupt_at: Option<String>,
    /// Interrupts claimed without a quiet window between them.
    pub global_interrupt_streak: u32,
    /// Suppressed fires of the running suppression run.
    pub consecutive_suppressions: u32,
    /// When the running suppression run began.
    pub first_suppression_at: Option<String>,
    /// Start of the growth-free thinking time.
    pub thinking_start: Option<String>,
    /// Token baseline of the thinking episode.
    pub thinking_episode_start_tokens: Option<u64>,
    /// The thinking episode has been alerted.
    pub thinking_alerted: bool,
    /// Interrupts of the thinking episode (the backoff index).
    pub thinking_interrupt_count: u32,
    /// When the thinking obligation was armed.
    pub thinking_obligation_armed_at: Option<String>,
    /// Start of the foreground-blocking stretch.
    pub foreground_start: Option<String>,
    /// The foreground-blocking stretch has been alerted.
    pub foreground_alerted: bool,
    /// Polls in a row that showed an API retry banner.
    pub api_retry_consecutive: u32,
    /// First poll of the running API retry episode.
    pub api_retry_first_seen: Option<String>,
    /// Cycles in which an API retry held interrupts back.
    pub api_retry_suppressions_total: u64,
    /// Cycles in a row with neither tokens nor shells.
    pub consecutive_dead_checks: u32,
    /// When the session was last restarted.
    pub last_restart: Option<String>,
    /// Restarts so far.
    pub restart_count: u64,
    /// A restarted session still waits for its resume prompt.
    pub pending_resume_inject: bool,
    /// The fresh session has had its resume prompt.
    pub fresh_session_injected: bool,
    /// The session was seen active since that prompt.
    pub was_alive_since_inject: bool,
    /// When a fresh session was last given its prompt.
    pub last_fresh_inject: Option<String>,
    /// Cycles in a row that looked like a fresh clear.
    pub consecutive_fast_detections: u32,
    /// When the fresh-clear path last fired.
    pub last_fast_path_alert: Option<String>,
    /// Idle cycles in a row after an observed clear.
    pub post_clear_idle_checks: u32,
    /// The clear for which a resume prompt was sent.
    pub post_clear_resume_injected_for: Option<String>,
    /// When a context reset was last observed.
    pub last_context_clear: Option<String>,
    /// A context clear is in flight.
    pub context_clear_triggered: bool,
    /// Process that drives the clear in flight.
    pub context_clear_child_pid: Option<u32>,
    /// When the context obligation was armed.
    pub context_obligation_armed_at: Option<String>,
    /// First cycle that saw the context threshold crossed.
    pub context_threshold_first_seen_at: Option<String>,
    /// Context clears that fell to the daemon.
    pub fallback_clear_count: u64,
    /// Updates that fell to the daemon.
    pub fallback_update_count: u64,
    /// Sum of reminder-to-clear latencies, in milliseconds.
    pub reminder_to_clear_latency_ms_sum: u64,
    /// Number of reminder-to-clear latencies summed.
    pub reminder_to_clear_latency_count: u64,
    /// Sum of reminder-to-update latencies, in milliseconds.
    pub reminder_to_update_latency_ms_sum: u64,
    /// Number of reminder-to-update latencies summed.
    pub reminder_to_update_latency_count: u64,
    /// Cycles in a row that showed a wedge banner.
    pub wedged_consecutive: u32,
    /// When a wedged pane was last cleared.
    pub last_wedged_clear: Option<String>,
    /// Wedged panes cleared so far.
    pub wedged_clear_count: u64,
    /// A wedge clear is out whose effect is not confirmed.
    pub wedged_clear_unverified: bool,
    /// Cycles in a row that showed the same malformed call.
    pub malformed_tool_call_consecutive: u32,
    /// Nudges of the running malformed-call episode.
    pub malformed_tool_call_episode_nudges: u32,
    /// Malformed-call nudges so far.
    pub malformed_tool_call_nudge_count: u64,
    /// Malformed-call hard blocks so far.
    pub malformed_tool_call_hard_block_count: u64,
    /// When the last malformed-call nudge went out.
    pub last_malformed_nudge: Option<String>,
    /// Fingerprint of the call last nudged about.
    pub last_malformed_fingerprint: Option<String>,
    /// What is known of each watcher.
    pub watcher_health: WatcherHealth,
    /// When the watcher-down obligation was armed.
    pub watcher_down_obligation_armed_at: Option<String>,
    /// When the last watcher-down inject fired.
    pub last_watcher_inject: Option<String>,
    /// Watcher-down injects so far.
    pub watcher_inject_count: u64,
    /// The pane shows a login prompt.
    pub reauth_detected: bool,
    /// The pane shows an authentication-error banner.
    pub reauth_banner_detected: bool,
    /// The login command has been typed for this prompt.
    pub login_injected: bool,
    /// When the last login alert went out.
    pub last_reauth_alert: Option<String>,
    /// A login expiry is announced.
    pub login_expiry_detected: bool,
    /// Days that the announced expiry leaves.
    pub login_expiry_days_left: Option<u32>,
    /// When the last expiry alert went out.
    pub last_login_expiry_alert: Option<String>,
    /// Refresh-token expiry last read from the credential store.
    pub last_seen_refresh_expiry_ms: Option<i64>,
    /// Self-login attempts of the running window.
    pub self_login_attempts_this_window: u32,
    /// When self-login was last attempted.
    pub last_self_login_attempt: Option<String>,
    /// When the login dialog now open was opened.
    pub self_login_dialog_opened_at: Option<String>,
    /// Self-login attempts so far.
    pub self_login_autofire_total: u64,
    /// An update is running.
    pub update_in_progress: bool,
    /// When an update was last attempted.
    pub last_update_attempt: Option<String>,
    /// When the installed version was last checked.
    pub last_update_check: Option<String>,
    /// Updates attempted so far.
    pub auto_update_count: u64,
    /// Hang signals seen lately.
    pub hang_signal_history: HangSignalHistory,
    /// Hash of the pane text last seen.
    pub pane_content_hash: Option<u64>,
    /// Since when the pane text has not changed.
    pub pane_content_unchanged_since: Option<String>,
    /// When the session was last respawned.
    pub last_respawn_at: Option<String>,
    /// Respawns so far.
    pub auto_respawn_count: u64,
    /// Since when a question awaits its answer.
    pub ask_question_pending_since: Option<String>,
    /// The pending question has been alerted.
    pub ask_question_alerted: bool,
    /// Interrupts of this kind so far.
    pub prolonged_thinking_interrupts_total: u64,
    /// Interrupts of this kind so far.
    pub foreground_blocking_interrupts_total: u64,
    /// Interrupts of this kind so far.
    pub context_warning_interrupts_total: u64,
    /// Interrupts of this kind so far.
    pub watcher_down_interrupts_total: u64,
    /// Interrupts of this kind so far.
    pub wedged_clear_interrupts_total: u64,
    /// Interrupts of this kind so far.
    pub auto_update_interrupts_total: u64,
    /// Interrupts of this kind so far.
    pub restart_claude_interrupts_total: u64,
    /// Interrupts of this kind so far.
    pub fresh_session_inject_interrupts_total: u64,
    /// Interrupts of this kind so far.
    pub fresh_clear_resume_inject_interrupts_total: u64,
    /// Interrupts of this kind so far.
    pub post_restart_resume_inject_interrupts_total: u64,
    /// Interrupts of this kind so far.
    pub reauth_inject_interrupts_total: u64,
    /// Interrupts of this kind so far.
    pub auto_respawn_interrupts_total: u64,
}

/// What a [`State`] holds, with each text as its characters.
pub struct StateView {
    pub last_check: Option<Seq<char>>,
    pub last_known_pane: Seq<char>,
    pub last_known_tokens: u64,
    pub last_known_bashes: u64,
    pub token_carry_count: u32,
    pub last_seen_tokens: Option<u64>,
    pub last_active_at: Option<Seq<char>>,
    pub last_status: Option<StatusSnapshot>,
    pub last_failure: Option<Seq<char>>,
    pub last_failure_detail: Option<FailureDetailView>,
    pub consecutive_failures: u32,
    pub last_alert: Option<Seq<char>>,
    pub alert_count: u32,
    pub heartbeat_stale_count: u64,
    pub heartbeat_obligation_armed_at: Option<Seq<char>>,
    pub last_interrupt_at: Option<Seq<char>>,
    pub global_interrupt_streak: u32,
    pub consecutive_suppressions: u32,
    pub first_suppression_at: Option<Seq<char>>,
    pub thinking_start: Option<Seq<char>>,
    pub thinking_episode_start_tokens: Option<u64>,
    pub thinking_alerted: bool,
    pub thinking_interrupt_count: u32,
    pub thinking_obligation_armed_at: Option<Seq<char>>,
    pub foreground_start: Option<Seq<char>>,
    pub foreground_alerted: bool,
    pub api_retry_consecutive: u32,
    pub api_retry_first_seen: Option<Seq<char>>,
    pub api_retry_suppressions_total: u64,
    pub consecutive_dead_checks: u32,
    pub last_restart: Option<Seq<char>>,
    pub restart_count: u64,
    pub pending_resume_inject: bool,
    pub fresh_session_injected: bool,
    pub was_alive_since_inject: bool,
    pub last_fresh_inject: Option<Seq<char>>,
    pub consecutive_fast_detections: u32,
    pub last_fast_path_alert: Option<Seq<char>>,
    pub post_clear_idle_checks: u32,
    pub post_clear_resume_injected_for: Option<Seq<char>>,
    pub last_context_clear: Option<Seq<char>>,
    pub context_clear_triggered: bool,
    pub context_clear_child_pid: Option<u32>,
    pub context_obligation_armed_at: Option<Seq<char>>,
    pub context_threshold_first_seen_at: Option<Seq<char>>,
    pub fallback_clear_count: u64,
    pub fallback_update_count: u64,
    pub reminder_to_clear_latency_ms_sum: u64,
    pub reminder_to_clear_latency_count: u64,
    pub reminder_to_update_latency_ms_sum: u64,
    pub reminder_to_update_latency_count: u64,
    pub wedged_consecutive: u32,
    pub last_wedged_clear: Option<Seq<char>>,
    pub wedged_clear_count: u64,
    pub wedged_clear_unverified: bool,
    pub malformed_tool_call_consecutive: u32,
    pub malformed_tool_call_episode_nudges: u32,
    pub malformed_tool_call_nudge_count: u64,
    pub malformed_tool_call_hard_block_count: u64,
    pub last_malformed_nudge: Option<Seq<char>>,
    pub last_malformed_fingerprint: Option<Seq<char>>,
    pub watcher_health: Map<Seq<char>, WatcherStateView>,
    pub watcher_down_obligation_armed_at: Option<Seq<char>>,
    pub last_watcher_inject: Option<Seq<char>>,
    pub watcher_inject_count: u64,
    pub reauth_detected: bool,
    pub reauth_banner_detected: bool,
    pub login_injected: bool,
    pub last_reauth_alert: Option<Seq<char>>,
    pub login_expiry_detected: bool,
    pub login_expiry_days_left: Option<u32>,
    pub last_login_expiry_alert: Option<Seq<char>>,
    pub last_seen_refresh_expiry_ms: Option<i64>,
    pub self_login_attempts_this_window: u32,
    pub last_self_login_attempt: Option<Seq<char>>,
    pub self_login_dialog_opened_at: Option<Seq<char>>,
    pub self_login_autofire_total: u64,
    pub update_in_progress: bool,
    pub last_update_attempt: Option<Seq<char>>,
    pub last_update_check: Option<Seq<char>>,
    pub auto_update_count: u64,
    pub hang_signal_history: HangHistoryView,
    pub pane_content_hash: Option<u64>,
    pub pane_content_unchanged_since: Option<Seq<char>>,
    pub last_respawn_at: Option<Seq<char>>,
    pub auto_respawn_count: u64,
    pub ask_question_pending_since: Option<Seq<char>>,
    pub ask_question_alerted: bool,
    pub prolonged_thinking_interrupts_total: u64,
    pub foreground_blocking_interrupts_total: u64,
    pub context_warning_interrupts_total: u64,
    pub watcher_down_interrupts_total: u64,
    pub wedged_clear_interrupts_total: u64,
    pub auto_update_interrupts_total: u64,
    pub restart_claude_interrupts_total: u64,
    pub fresh_session_inject_interrupts_total: u64,
    pub fresh_clear_resume_inject_interrupts_total: u64,
    pub post_restart_resume_inject_interrupts_total: u64,
    pub reauth_inject_interrupts_total: u64,
    pub auto_respawn_interrupts_total: u64,
}

impl View for State {
    type V = StateView;

    open spec fn view(&self) -> StateView {
        state_view(*self)
    }
}

/// What a state holds.
#[verifier::opaque]
pub open spec fn state_view(s: State) -> StateView {
    StateView {
        last_check: time::opt_string_view(s.last_check),
        last_known_pane: s.last_known_pane@,
        last_known_tokens: s.last_known_tokens,
        last_known_bashes: s.last_known_bashes,
        token_carry_count: s.token_carry_count,
        last_seen_tokens: s.last_seen_tokens,
        last_active_at: time::opt_string_view(s.last_active_at),
        last_status: s.last_status,
        last_failure: time::opt_string_view(s.last_failure),
        last_failure_detail: opt_failure_view(s.last_failure_detail),
        consecutive_failures: s.consecutive_failures,
        last_alert: time::opt_string_view(s.last_alert),
        alert_count: s.alert_count,
        heartbeat_stale_count: s.heartbeat_stale_count,
        heartbeat_obligation_armed_at: time::opt_string_view(s.heartbeat_obligation_armed_at),
        last_interrupt_at: time::opt_string_view(s.last_interrupt_at),
        global_interrupt_streak: s.global_interrupt_streak,
        consecutive_suppressions: s.consecutive_suppressions,
        first_suppression_at: time::opt_string_view(s.first_suppression_at),
        thinking_start: time::opt_string_view(s.thinking_start),
        thinking_episode_start_tokens: s.thinking_episode_start_tokens,
        thinking_alerted: s.thinking_alerted,
        thinking_interrupt_count: s.thinking_interrupt_count,
        thinking_obligation_armed_at: time::opt_string_view(s.thinking_obligation_armed_at),
        foreground_start: time::opt_string_view(s.foreground_start),
        foreground_alerted: s.foreground_alerted,
        api_retry_consecutive: s.api_retry_consecutive,
        api_retry_first_seen: time::opt_string_view(s.api_retry_first_seen),
        api_retry_suppressions_total: s.api_retry_suppressions_total,
        consecutive_dead_checks: s.consecutive_dead_checks,
        last_restart: time::opt_string_view(s.last_restart),
        restart_count: s.restart_count,
        pending_resume_inject: s.pending_resume_inject,
        fresh_session_injected: s.fresh_session_injected,
        was_alive_since_inject: s.was_alive_since_inject,
        last_fresh_inject: time::opt_string_view(s.last_fresh_inject),
        consecutive_fast_detections: s.consecutive_fast_detections,
        last_fast_path_alert: time::opt_string_view(s.last_fast_path_alert),
        post_clear_idle_checks: s.post_clear_idle_checks,
        post_clear_resume_injected_for: time::opt_string_view(s.post_clear_resume_injected_for),
        last_context_clear: time::opt_string_view(s.last_context_clear),
        context_clear_triggered: s.context_clear_triggered,
        context_clear_child_pid: s.context_clear_child_pid,
        context_obligation_armed_at: time::opt_string_view(s.context_obligation_armed_at),
        context_threshold_first_seen_at: time::opt_string_view(s.context_threshold_first_seen_at),
        fallback_clear_count: s.fallback_clear_count,
        fallback_update_count: s.fallback_update_count,
        reminder_to_clear_latency_ms_sum: s.reminder_to_clear_latency_ms_sum,
        reminder_to_clear_latency_count: s.reminder_to_clear_latency_count,
        reminder_to_update_latency_ms_sum: s.reminder_to_update_latency_ms_sum,
        reminder_to_update_latency_count: s.reminder_to_update_latency_count,
        wedged_consecutive: s.wedged_consecutive,
        last_wedged_clear: time::opt_string_view(s.last_wedged_clear),
        wedged_clear_count: s.wedged_clear_count,
        wedged_clear_unverified: s.wedged_clear_unverified,
        malformed_tool_call_consecutive: s.malformed_tool_call_consecutive,
        malformed_tool_call_episode_nudges: s.malformed_tool_call_episode_nudges,
        malformed_tool_call_nudge_count: s.malformed_tool_call_nudge_count,
        malformed_tool_call_hard_block_count: s.malformed_tool_call_hard_block_count,
        last_malformed_nudge: time::opt_string_view(s.last_malformed_nudge),
        last_malformed_fingerprint: time::opt_string_view(s.last_malformed_fingerprint),
        watcher_health: s.watcher_health@,
        watcher_down_obligation_armed_at: time::opt_string_view(s.watcher_down_obligation_armed_at),
        last_watcher_inject: time::opt_string_view(s.last_watcher_inject),
        watcher_inject_count: s.watcher_inject_count,
        reauth_detected: s.reauth_detected,
        reauth_banner_detected: s.reauth_banner_detected,
        login_injected: s.login_injected,
        last_reauth_alert: time::opt_string_view(s.last_reauth_alert),
        login_expiry_detected: s.login_expiry_detected,
        login_expiry_days_left: s.login_expiry_days_left,
        last_login_expiry_alert: time::opt_string_view(s.last_login_expiry_alert),
        last_seen_refresh_expiry_ms: s.last_seen_refresh_expiry_ms,
        self_login_attempts_this_window: s.self_login_attempts_this_window,
        last_self_login_attempt: time::opt_string_view(s.last_self_login_attempt),
        self_login_dialog_opened_at: time::opt_string_view(s.self_login_dialog_opened_at),
        self_login_autofire_total: s.self_login_autofire_total,
        update_in_progress: s.update_in_progress,
        last_update_attempt: time::opt_string_view(s.last_update_attempt),
        last_update_check: time::opt_string_view(s.last_update_check),
        auto_update_count: s.auto_update_count,
        hang_signal_history: s.hang_signal_history@,
        pane_content_hash: s.pane_content_hash,
        pane_content_unchanged_since: time::opt_string_view(s.pane_content_unchanged_since),
        last_respawn_at: time::opt_string_view(s.last_respawn_at),
        auto_respawn_count: s.auto_respawn_count,
        ask_question_pending_since: time::opt_string_view(s.ask_question_pending_since),
        ask_question_alerted: s.ask_question_alerted,
        prolonged_thinking_interrupts_total: s.prolonged_thinking_interrupts_total,
        foreground_blocking_interrupts_total: s.foreground_blocking_interrupts_total,
        context_warning_interrupts_total: s.context_warning_interrupts_total,
        watcher_down_interrupts_total: s.watcher_down_interrupts_total,
        wedged_clear_interrupts_total: s.wedged_clear_interrupts_total,
        auto_update_interrupts_total: s.auto_update_interrupts_total,
        restart_claude_interrupts_total: s.restart_claude_interrupts_total,
        fresh_session_inject_interrupts_total: s.fresh_session_inject_interrupts_total,
        fresh_clear_resume_inject_interrupts_total: s.fresh_clear_resume_inject_interrupts_total,
        post_restart_resume_inject_interrupts_total: s.post_restart_resume_inject_interrupts_total,
        reauth_inject_interrupts_total: s.reauth_inject_interrupts_total,
        auto_respawn_interrupts_total: s.auto_respawn_interrupts_total,
    }
}

/// What a daemon that has seen nothing yet remembers.
pub open spec fn initial_state() -> StateView {
    StateView {
        last_check: None,
        last_known_pane: Seq::empty(),
        last_known_tokens: 0,
        last_known_bashes: 0,
        token_carry_count: 0,
        last_seen_tokens: None,
        last_active_at: None,
        last_status: None,
        last_failure: None,
        last_failure_detail: None,
        consecutive_failures: 0,
        last_alert: None,
        alert_count: 0,
        heartbeat_stale_count: 0,
        heartbeat_obligation_armed_at: None,
        last_interrupt_at: None,
        global_interrupt_streak: 0,
        consecutive_suppressions: 0,
        first_suppression_at: None,
        thinking_start: None,
        thinking_episode_start_tokens: None,
        thinking_alerted: false,
        thinking_interrupt_count: 0,
        thinking_obligation_armed_at: None,
        foreground_start: None,
        foreground_alerted: false,
        api_retry_consecutive: 0,
        api_retry_first_seen: None,
        api_retry_suppressions_total: 0,
        consecutive_dead_checks: 0,
        last_restart: None,
        restart_count: 0,
        pending_resume_inject: false,
        fresh_session_injected: false,
        was_alive_since_inject: false,
        last_fresh_inject: None,
        consecutive_fast_detections: 0,
        last_fast_path_alert: None,
        post_clear_idle_checks: 0,
        post_clear_resume_injected_for: None,
        last_context_clear: None,
        context_clear_triggered: false,
        context_clear_child_pid: None,
        context_obligation_armed_at: None,
        context_threshold_first_seen_at: None,
        fallback_clear_count: 0,
        fallback_update_count: 0,
        reminder_to_clear_latency_ms_sum: 0,
        reminder_to_clear_latency_count: 0,
        reminder_to_update_latency_ms_sum: 0,
        reminder_to_update_latency_count: 0,
        wedged_consecutive: 0,
        last_wedged_clear: None,
        wedged_clear_count: 0,
        wedged_clear_unverified: false,
        malformed_tool_call_consecutive: 0,
        malformed_tool_call_episode_nudges: 0,
        malformed_tool_call_nudge_count: 0,
        malformed_tool_call_hard_block_count: 0,
        last_malformed_nudge: None,
        last_malformed_fingerprint: None,
        watcher_health: Map::empty(),
        watcher_down_obligation_armed_at: None,
        last_watcher_inject: None,
        watcher_inject_count: 0,
        reauth_detected: false,
        reauth_banner_detected: false,
        login_injected: false,
        last_reauth_alert: None,
        login_expiry_detected: false,
        login_expiry_days_left: None,
        last_login_expiry_alert: None,
        last_seen_refresh_expiry_ms: None,
        self_login_attempts_this_window: 0,
        last_self_login_attempt: None,
        self_login_dialog_opened_at: None,
        self_login_autofire_total: 0,
        update_in_progress: false,
        last_update_attempt: None,
        last_update_check: None,
        auto_update_count: 0,
        hang_signal_history: hang::no_signals(),
        pane_content_hash: None,
        pane_content_unchanged_since: None,
        last_respawn_at: None,
        auto_respawn_count: 0,
        ask_question_pending_since: None,
        ask_question_alerted: false,
        prolonged_thinking_interrupts_total: 0,
        foreground_blocking_interrupts_total: 0,
        context_warning_interrupts_total: 0,
        watcher_down_interrupts_total: 0,
        wedged_clear_interrupts_total: 0,
        auto_update_interrupts_total: 0,
        restart_claude_interrupts_total: 0,
        fresh_session_inject_interrupts_total: 0,
        fresh_clear_resume_inject_interrupts_total: 0,
        post_restart_resume_inject_interrupts_total: 0,
        reauth_inject_interrupts_total: 0,
        auto_respawn_interrupts_total: 0,
    }
}

impl Default for State {
    fn default() -> (r: Self)
        ensures
            r@ == initial_state(),
    {
        proof {
            reveal(state_view);
        }
        State {
            last_check: None,
            last_known_pane: String::new(),
            last_known_tokens: 0,
            last_known_bashes: 0,
            token_carry_count: 0,
            last_seen_tokens: None,
            last_active_at: None,
            last_status: None,
            last_failure: None,
            last_failure_detail: None,
            consecutive_failures: 0,
            last_alert: None,
            alert_count: 0,
            heartbeat_stale_count: 0,
            heartbeat_obligation_armed_at: None,
            last_interrupt_at: None,
            global_interrupt_streak: 0,
            consecutive_suppressions: 0,
            first_suppression_at: None,
            thinking_start: None,
            thinking_episode_start_tokens: None,
            thinking_alerted: false,
            thinking_interrupt_count: 0,
            thinking_obligation_armed_at: None,
            foreground_start: None,
            foreground_alerted: false,
            api_retry_consecutive: 0,
            api_retry_first_seen: None,
            api_retry_suppressions_total: 0,
            consecutive_dead_checks: 0,
            last_restart: None,
            restart_count: 0,
            pending_resume_inject: false,
            fresh_session_injected: false,
            was_alive_since_inject: false,
            last_fresh_inject: None,
            consecutive_fast_detections: 0,
            last_fast_path_alert: None,
            post_clear_idle_checks: 0,
            post_clear_resume_injected_for: None,
            last_context_clear: None,
            context_clear_triggered: false,
            context_clear_child_pid: None,
            context_obligation_armed_at: None,
            context_threshold_first_seen_at: None,
            fallback_clear_count: 0,
            fallback_update_count: 0,
            reminder_to_clear_latency_ms_sum: 0,
            reminder_to_clear_latency_count: 0,
            reminder_to_update_latency_ms_sum: 0,
            reminder_to_update_latency_count: 0,
            wedged_consecutive: 0,
            last_wedged_clear: None,
            wedged_clear_count: 0,
            wedged_clear_unverified: false,
            malformed_tool_call_consecutive: 0,
            malformed_tool_call_episode_nudges: 0,
            malformed_tool_call_nudge_count: 0,
            malformed_tool_call_hard_block_count: 0,
            last_malformed_nudge: None,
            last_malformed_fingerprint: None,
            watcher_health: WatcherHealth::new(),
            watcher_down_obligation_armed_at: None,
            last_watcher_inject: None,
            watcher_inject_count: 0,
            reauth_detected: false,
            reauth_banner_detected: false,
            login_injected: false,
            last_reauth_alert: None,
            login_expiry_detected: false,
            login_expiry_days_left: None,
            last_login_expiry_alert: None,
            last_seen_refresh_expiry_ms: None,
            self_login_attempts_this_window: 0,
            last_self_login_attempt: None,
            self_login_dialog_opened_at: None,
            self_login_autofire_total: 0,
            update_in_progress: false,
            last_update_attempt: None,
            last_update_check: None,
            auto_update_count: 0,
            hang_signal_history: HangSignalHistory::new(),
            pane_content_hash: None,
            pane_content_unchanged_since: None,
            last_respawn_at: None,
            auto_respawn_count: 0,
            ask_question_pending_since: None,
            ask_question_alerted: false,
            prolonged_thinking_interrupts_total: 0,
            foreground_blocking_interrupts_total: 0,
            context_warning_interrupts_total: 0,
            watcher_down_interrupts_total: 0,
            wedged_clear_interrupts_total: 0,
            auto_update_interrupts_total: 0,
            restart_claude_interrupts_total: 0,
            fresh_session_inject_interrupts_total: 0,
            fresh_clear_resume_inject_interrupts_total: 0,
            post_restart_resume_inject_interrupts_total: 0,
            reauth_inject_interrupts_total: 0,
            auto_respawn_interrupts_total: 0,
        }
    }
}

/// A daemon that starts remembers no instant and owes nothing: no stamp is set, nothing is
/// counted, nothing is under way, and no watcher and no signal is known.
pub proof fn new_daemon_remembers_nothing(name: Seq<char>, signal: hang::HangSignal)
    ensures
        ({
            let s = initial_state();
            &&& s.last_check is None
            &&& s.last_seen_tokens is None
            &&& s.last_active_at is None
            &&& s.last_status is None
            &&& s.last_failure is None
            &&& s.last_failure_detail is None
            &&& s.last_alert is None
            &&& s.heartbeat_obligation_armed_at is None
            &&& s.last_interrupt_at is None
            &&& s.first_suppression_at is None
            &&& s.thinking_start is None
            &&& s.thinking_episode_start_tokens is None
            &&& s.thinking_obligation_armed_at is None
            &&& s.foreground_start is None
            &&& s.api_retry_first_seen is None
            &&& s.last_restart is None
            &&& s.last_fresh_inject is None
            &&& s.last_fast_path_alert is None
            &&& s.post_clear_resume_injected_for is None
            &&& s.last_context_clear is None
            &&& s.context_clear_child_pid is None
            &&& s.context_obligation_armed_at is None
            &&& s.context_threshold_first_seen_at is None
            &&& s.last_wedged_clear is None
            &&& s.last_malformed_nudge is None
            &&& s.last_malformed_fingerprint is None
            &&& s.watcher_down_obligation_armed_at is None
            &&& s.last_watcher_inject is None
            &&& s.last_reauth_alert is None
            &&& s.login_expiry_days_left is None
            &&& s.last_login_expiry_alert is None
            &&& s.last_seen_refresh_expiry_ms is None
            &&& s.last_self_login_attempt is None
            &&& s.self_login_dialog_opened_at is None
            &&& s.last_update_attempt is None
            &&& s.last_update_check is None
            &&& s.pane_content_hash is None
            &&& s.pane_content_unchanged_since is None
            &&& s.last_respawn_at is None
            &&& s.ask_question_pending_since is None
            &&& s.last_known_tokens == 0
            &&& s.last_known_bashes == 0
            &&& s.token_carry_count == 0
            &&& s.consecutive_failures == 0
            &&& s.alert_count == 0
            &&& s.heartbeat_stale_count == 0
            &&& s.global_interrupt_streak == 0
            &&& s.consecutive_suppressions == 0
            &&& s.thinking_interrupt_count == 0
            &&& s.api_retry_consecutive == 0
            &&& s.api_retry_suppressions_total == 0
            &&& s.consecutive_dead_checks == 0
            &&& s.restart_count == 0
            &&& s.consecutive_fast_detections == 0
            &&& s.post_clear_idle_checks == 0
            &&& s.fallback_clear_count == 0
            &&& s.fallback_update_count == 0
            &&& s.reminder_to_clear_latency_ms_sum == 0
            &&& s.reminder_to_clear_latency_count == 0
            &&& s.reminder_to_update_latency_ms_sum == 0
            &&& s.reminder_to_update_latency_count == 0
            &&& s.wedged_consecutive == 0
            &&& s.wedged_clear_count == 0
            &&& s.malformed_tool_call_consecutive == 0
            &&& s.malformed_tool_call_episode_nudges == 0
            &&& s.malformed_tool_call_nudge_count == 0
            &&& s.malformed_tool_call_hard_block_count == 0
            &&& s.watcher_inject_count == 0
            &&& s.self_login_attempts_this_window == 0
            &&& s.self_login_autofire_total == 0
            &&& s.auto_update_count == 0
            &&& s.auto_respawn_count == 0
            &&& s.prolonged_thinking_interrupts_total == 0
            &&& s.foreground_blocking_interrupts_total == 0
            &&& s.context_warning_interrupts_total == 0
            &&& s.watcher_down_interrupts_total == 0
            &&& s.wedged_clear_interrupts_total == 0
            &&& s.auto_update_interrupts_total == 0
            &&& s.restart_claude_interrupts_total == 0
            &&& s.fresh_session_inject_interrupts_total == 0
            &&& s.fresh_clear_resume_inject_interrupts_total == 0
            &&& s.post_restart_resume_inject_interrupts_total == 0
            &&& s.reauth_inject_interrupts_total == 0
            &&& s.auto_respawn_interrupts_total == 0
            &&& !s.thinking_alerted
            &&& !s.foreground_alerted
            &&& !s.pending_resume_inject
            &&& !s.fresh_session_injected
            &&& !s.was_alive_since_inject
            &&& !s.context_clear_triggered
            &&& !s.wedged_clear_unverified
            &&& !s.reauth_detected
            &&& !s.reauth_banner_detected
            &&& !s.login_injected
            &&& !s.login_expiry_detected
            &&& !s.update_in_progress
            &&& !s.ask_question_alerted
            &&& s.last_known_pane.len() == 0
            &&& !s.watcher_health.dom().contains(name)
            &&& s.hang_signal_history.seen(signal) is None
        }),
{
}

} // verus!
