//! Settings of the daemon.
use vstd::prelude::*;

verus! {

/// What the session and the daemon are called. There is no usual answer: whoever runs the
/// daemon gives the names.
#[derive(Debug, Clone)]
pub struct NamesConfig {
    /// The session's program.
    pub program: String,
    /// The session's product, as notes to the operator name it.
    pub product: String,
    /// The same in one word.
    pub short: String,
    /// The daemon.
    pub daemon: String,
    /// The daemon, as it signs what it types.
    pub tag: String,
}

/// Settings shared by every detector.
#[derive(Debug, Clone)]
pub struct GeneralConfig {
    /// Base of the global cooldown after an interrupt; zero disables it.
    pub post_interrupt_cooldown_secs: u64,
    /// Factor by which the global cooldown grows; zero or one keeps it flat.
    pub global_cooldown_backoff_base: u64,
    /// Upper bound of the grown global cooldown.
    pub global_cooldown_max_secs: u64,
    /// Watcher-down injects need no claim on the global cooldown.
    pub global_cooldown_exempt_watcher_down: bool,
    /// Time an obligation stays armed before it escalates; zero escalates at once.
    pub obligation_dwell_secs: u64,
}

impl GeneralConfig {
    /// The settings are the usual ones.
    pub open spec fn is_default(self) -> bool {
        &&& self.post_interrupt_cooldown_secs == 300
        &&& self.global_cooldown_backoff_base == 2
        &&& self.global_cooldown_max_secs == 1800
        &&& self.global_cooldown_exempt_watcher_down
        &&& self.obligation_dwell_secs == 90
    }
}

impl Default for GeneralConfig {
    fn default() -> (r: Self)
        ensures
            r.is_default(),
    {
        GeneralConfig {
            post_interrupt_cooldown_secs: 300,
            global_cooldown_backoff_base: 2,
            global_cooldown_max_secs: 1800,
            global_cooldown_exempt_watcher_down: true,
            obligation_dwell_secs: 90,
        }
    }
}

/// The watched session.
#[derive(Debug, Clone)]
pub struct ClaudeConfig {
    /// Size of the context window.
    pub max_context_tokens: u64,
    /// Script that relaunches the session.
    pub relaunch_script: String,
    /// Whether the permissions dialog is handled at all.
    pub handle_bypass_dialog: bool,
    /// Whether acceptance is recorded before a relaunch.
    pub pre_accept_bypass_dialog: bool,
    /// How long the permissions dialog is waited for.
    pub bypass_dialog_wait_secs: u64,
}

/// Where the script that relaunches a program stands, unless another place is set.
pub open spec fn usual_relaunch_script(program: Seq<char>) -> Seq<char> {
    "/var/run/"@ + program + "/"@ + program + "-relaunch.sh"@
}

impl ClaudeConfig {
    /// The settings are the usual ones for a session of the program.
    pub open spec fn is_default(self, program: Seq<char>) -> bool {
        &&& self.max_context_tokens == 200000
        &&& self.relaunch_script@ == usual_relaunch_script(program)
        &&& self.handle_bypass_dialog
        &&& self.pre_accept_bypass_dialog
        &&& self.bypass_dialog_wait_secs == 30
    }

    /// The usual settings for a session of the program.
    pub fn for_program(program: &str) -> (r: Self)
        ensures
            r.is_default(program@),
    {
        ClaudeConfig {
            max_context_tokens: 200000,
            relaunch_script: "/var/run/".to_owned().concat(program).concat("/").concat(
                program,
            ).concat("-relaunch.sh"),
            handle_bypass_dialog: true,
            pre_accept_bypass_dialog: true,
            bypass_dialog_wait_secs: 30,
        }
    }
}

/// Detection of a dead session.
#[derive(Debug, Clone)]
pub struct DeadProcessConfig {
    /// Dead cycles in a row before the session counts as dead.
    pub checks_required: u32,
    /// Seconds between two restarts.
    pub restart_cooldown: u64,
    /// Dead cycles in a row before a fresh session is prompted.
    pub fresh_inject_checks: u32,
    /// Whether recent activity holds a restart back.
    pub suppress_when_active: bool,
    /// How long activity counts as recent.
    pub active_window_secs: u64,
}

impl DeadProcessConfig {
    /// The settings are the usual ones.
    pub open spec fn is_default(self) -> bool {
        &&& self.checks_required == 3
        &&& self.restart_cooldown == 60
        &&& self.fresh_inject_checks == 3
        &&& self.suppress_when_active
        &&& self.active_window_secs == 60
    }
}

impl Default for DeadProcessConfig {
    fn default() -> (r: Self)
        ensures
            r.is_default(),
    {
        DeadProcessConfig {
            checks_required: 3,
            restart_cooldown: 60,
            fresh_inject_checks: 3,
            suppress_when_active: true,
            active_window_secs: 60,
        }
    }
}

/// Detection of a freshly cleared session.
#[derive(Debug, Clone)]
pub struct FreshClearConfig {
    /// Lower bound of the token window of a fresh clear.
    pub min_tokens: u64,
    /// Upper bound of the token window of a fresh clear.
    pub max_tokens: u64,
    /// Detections in a row before the session is prompted.
    pub detections_required: u32,
    /// Seconds between two prompts.
    pub cooldown: u64,
    /// Whether recent activity holds the prompt back.
    pub suppress_when_active: bool,
    /// How long activity counts as recent.
    pub active_window_secs: u64,
    /// How long an observed clear may still draw a prompt; zero disables that.
    pub post_clear_window_secs: u64,
    /// How long a clear driven from here is left to prompt by itself.
    pub self_clear_handoff_grace_secs: u64,
}

impl FreshClearConfig {
    /// The settings are the usual ones.
    pub open spec fn is_default(self) -> bool {
        &&& self.min_tokens == 1000
        &&& self.max_tokens == 5000
        &&& self.detections_required == 2
        &&& self.cooldown == 60
        &&& self.suppress_when_active
        &&& self.active_window_secs == 60
        &&& self.post_clear_window_secs == 300
        &&& self.self_clear_handoff_grace_secs == 120
    }
}

impl Default for FreshClearConfig {
    fn default() -> (r: Self)
        ensures
            r.is_default(),
    {
        FreshClearConfig {
            min_tokens: 1000,
            max_tokens: 5000,
            detections_required: 2,
            cooldown: 60,
            suppress_when_active: true,
            active_window_secs: 60,
            post_clear_window_secs: 300,
            self_clear_handoff_grace_secs: 120,
        }
    }
}

/// Event acknowledgements as a sign of life.
#[derive(Debug, Clone)]
pub struct AckConfig {
    /// Age from which the last acknowledgement is stale; zero disables the detector.
    pub stale_minutes: u64,
}

impl AckConfig {
    /// The settings are the usual ones.
    pub open spec fn is_default(self) -> bool {
        &&& self.stale_minutes == 20
    }
}

impl Default for AckConfig {
    fn default() -> (r: Self)
        ensures
            r.is_default(),
    {
        AckConfig {
            stale_minutes: 20,
        }
    }
}

/// Stuck alerts.
#[derive(Debug, Clone)]
pub struct AlertsConfig {
    /// Seconds between one alert and the next, by alert number.
    pub escalation_tiers: Vec<u64>,
    /// Alerts of an episode that go out as messages.
    pub max_pingme_alerts: u32,
}

impl AlertsConfig {
    /// The settings are the usual ones.
    pub open spec fn is_default(self) -> bool {
        &&& self.escalation_tiers@ =~= seq![60u64]
        &&& self.max_pingme_alerts == 3
    }
}

impl Default for AlertsConfig {
    fn default() -> (r: Self)
        ensures
            r.is_default(),
    {
        AlertsConfig {
            escalation_tiers: vec![60],
            max_pingme_alerts: 3,
        }
    }
}

/// API retries hold interrupts back.
#[derive(Debug, Clone)]
pub struct ApiRetryConfig {
    /// Whether API retries are looked for.
    pub enabled: bool,
    /// Polls in a row before a retry counts.
    pub consecutive: u32,
    /// Longest time a retry holds interrupts back; zero for no bound.
    pub max_stuck_secs: u64,
}

impl ApiRetryConfig {
    /// The settings are the usual ones.
    pub open spec fn is_default(self) -> bool {
        &&& self.enabled
        &&& self.consecutive == 1
        &&& self.max_stuck_secs == 1800
    }
}

impl Default for ApiRetryConfig {
    fn default() -> (r: Self)
        ensures
            r.is_default(),
    {
        ApiRetryConfig {
            enabled: true,
            consecutive: 1,
            max_stuck_secs: 1800,
        }
    }
}

/// Prolonged thinking and foreground blocking.
#[derive(Debug, Clone)]
pub struct ForegroundMonitorConfig {
    /// Whether the monitor runs.
    pub enabled: bool,
    /// Base time before a fire.
    pub threshold_seconds: u64,
    /// Whether a fire interrupts, or is only logged.
    pub interrupt_enabled: bool,
    /// Upper bound of the thinking backoff.
    pub max_thinking_backoff: u64,
    /// Factor of the thinking backoff.
    pub thinking_backoff_multiplier: u64,
    /// Token growth that re-arms the thinking timer; zero disables that.
    pub min_tokens_delta: u64,
    /// Age below which an acknowledgement re-arms the timer; zero disables that.
    pub ack_fresh_secs: u64,
}

impl ForegroundMonitorConfig {
    /// The settings are the usual ones.
    pub open spec fn is_default(self) -> bool {
        &&& self.enabled
        &&& self.threshold_seconds == 300
        &&& !self.interrupt_enabled
        &&& self.max_thinking_backoff == 960
        &&& self.thinking_backoff_multiplier == 2
        &&& self.min_tokens_delta == 2000
        &&& self.ack_fresh_secs == 600
    }
}

impl Default for ForegroundMonitorConfig {
    fn default() -> (r: Self)
        ensures
            r.is_default(),
    {
        ForegroundMonitorConfig {
            enabled: true,
            threshold_seconds: 300,
            interrupt_enabled: false,
            max_thinking_backoff: 960,
            thinking_backoff_multiplier: 2,
            min_tokens_delta: 2000,
            ack_fresh_secs: 600,
        }
    }
}

/// Watcher health.
#[derive(Debug, Clone)]
pub struct WatcherMonitorConfig {
    /// Whether watchers are monitored.
    pub enabled: bool,
    /// Missing cycles before an absence is announced as an event.
    pub event_threshold: u32,
    /// Missing cycles before an absence is injected.
    pub inject_threshold: u32,
    /// How long an announced absence is left to the session.
    pub event_grace_secs: u64,
    /// Seconds between two watcher-down injects.
    pub inject_cooldown: u64,
    /// How long a watcher may be down before it counts as missing.
    pub grace_secs: u64,
    /// The same, after a clean exit.
    pub clean_exit_grace_secs: u64,
    /// The same, for a monitor that is being armed.
    pub monitor_arming_grace_secs: u64,
    /// Whether recent activity holds the inject back.
    pub suppress_inject_when_active: bool,
    /// How long activity counts as recent.
    pub active_window_secs: u64,
    /// Down time from which nothing holds the inject back; zero disables that.
    pub max_suppress_secs: u64,
}

impl WatcherMonitorConfig {
    /// The settings are the usual ones.
    pub open spec fn is_default(self) -> bool {
        &&& self.enabled
        &&& self.event_threshold == 3
        &&& self.inject_threshold == 6
        &&& self.event_grace_secs == 60
        &&& self.inject_cooldown == 300
        &&& self.grace_secs == 90
        &&& self.clean_exit_grace_secs == 30
        &&& self.monitor_arming_grace_secs == 120
        &&& self.suppress_inject_when_active
        &&& self.active_window_secs == 30
        &&& self.max_suppress_secs == 180
    }
}

impl Default for WatcherMonitorConfig {
    fn default() -> (r: Self)
        ensures
            r.is_default(),
    {
        WatcherMonitorConfig {
            enabled: true,
            event_threshold: 3,
            inject_threshold: 6,
            event_grace_secs: 60,
            inject_cooldown: 300,
            grace_secs: 90,
            clean_exit_grace_secs: 30,
            monitor_arming_grace_secs: 120,
            suppress_inject_when_active: true,
            active_window_secs: 30,
            max_suppress_secs: 180,
        }
    }
}

/// Context usage.
#[derive(Debug, Clone)]
pub struct ContextMonitorConfig {
    /// Whether context usage is monitored.
    pub enabled: bool,
    /// Usage in percent from which the session must clear.
    pub threshold_percent: u64,
    /// Remaining compaction percentage at which the session must clear.
    pub compact_trigger_percent: u32,
    /// Tokens below the window size from which the session must clear.
    pub threshold_margin: Option<u64>,
    /// Seconds that the session has before it is cleared.
    pub grace_period: u64,
    /// Seconds between two clears.
    pub cooldown: u64,
    /// Longest time the obligation stays armed; zero for no bound.
    pub max_armed_secs: u64,
    /// Whether wedge banners are looked for.
    pub wedged_detection_enabled: bool,
    /// Wedged cycles in a row before the pane is cleared.
    pub wedged_consecutive: u32,
    /// Seconds between two wedge clears.
    pub wedged_cooldown: u64,
}

impl ContextMonitorConfig {
    /// The settings are the usual ones.
    pub open spec fn is_default(self) -> bool {
        &&& self.enabled
        &&& self.threshold_percent == 75
        &&& self.compact_trigger_percent == 5
        &&& self.threshold_margin is None
        &&& self.grace_period == 120
        &&& self.cooldown == 300
        &&& self.max_armed_secs == 300
        &&& self.wedged_detection_enabled
        &&& self.wedged_consecutive == 2
        &&& self.wedged_cooldown == 300
    }
}

impl Default for ContextMonitorConfig {
    fn default() -> (r: Self)
        ensures
            r.is_default(),
    {
        ContextMonitorConfig {
            enabled: true,
            threshold_percent: 75,
            compact_trigger_percent: 5,
            threshold_margin: None,
            grace_period: 120,
            cooldown: 300,
            max_armed_secs: 300,
            wedged_detection_enabled: true,
            wedged_consecutive: 2,
            wedged_cooldown: 300,
        }
    }
}

/// Malformed tool calls.
#[derive(Debug, Clone)]
pub struct MalformedToolCallConfig {
    /// Whether malformed calls are looked for.
    pub enabled: bool,
    /// Cycles in a row before a nudge.
    pub consecutive: u32,
    /// Seconds between two nudges.
    pub cooldown: u64,
    /// Nudges of an episode before the hard block.
    pub escalate_after: u32,
}

impl MalformedToolCallConfig {
    /// The settings are the usual ones.
    pub open spec fn is_default(self) -> bool {
        &&& self.enabled
        &&& self.consecutive == 2
        &&& self.cooldown == 60
        &&& self.escalate_after == 3
    }
}

impl Default for MalformedToolCallConfig {
    fn default() -> (r: Self)
        ensures
            r.is_default(),
    {
        MalformedToolCallConfig {
            enabled: true,
            consecutive: 2,
            cooldown: 60,
            escalate_after: 3,
        }
    }
}

/// Bound on suppression runs.
#[derive(Debug, Clone)]
pub struct SuppressionConfig {
    /// Suppressions in a row before a fire is forced; zero disables that.
    pub max_consecutive_suppressions: u32,
    /// Length of a run before a fire is forced; zero disables that.
    pub max_suppression_window_secs: u64,
}

impl SuppressionConfig {
    /// The settings are the usual ones.
    pub open spec fn is_default(self) -> bool {
        &&& self.max_consecutive_suppressions == 3
        &&& self.max_suppression_window_secs == 600
    }
}

impl Default for SuppressionConfig {
    fn default() -> (r: Self)
        ensures
            r.is_default(),
    {
        SuppressionConfig {
            max_consecutive_suppressions: 3,
            max_suppression_window_secs: 600,
        }
    }
}

/// Reminder hooks that act before the daemon does.
#[derive(Debug, Clone)]
pub struct HybridConfig {
    /// Whether the daemon defers to hooks.
    pub enabled: bool,
    /// How long a context hook is deferred to.
    pub context_fallback_secs: u64,
    /// Bound on that, from the crossing; zero for no bound.
    pub context_fallback_max_secs: u64,
    /// How long a version hook is deferred to.
    pub version_fallback_secs: u64,
}

impl HybridConfig {
    /// The settings are the usual ones.
    pub open spec fn is_default(self) -> bool {
        &&& self.enabled
        &&& self.context_fallback_secs == 120
        &&& self.context_fallback_max_secs == 600
        &&& self.version_fallback_secs == 600
    }
}

impl Default for HybridConfig {
    fn default() -> (r: Self)
        ensures
            r.is_default(),
    {
        HybridConfig {
            enabled: true,
            context_fallback_secs: 120,
            context_fallback_max_secs: 600,
            version_fallback_secs: 600,
        }
    }
}

/// Automatic updates.
#[derive(Debug, Clone)]
pub struct AutoUpdateConfig {
    /// Whether versions are compared.
    pub enabled: bool,
    /// Minute of the hour at which they are.
    pub check_minute: u32,
    /// Hours between two attempts.
    pub cooldown_hours: u64,
    /// The command that relaunches the session in one go; empty where there is none.
    pub relaunch_command: Vec<String>,
}

impl AutoUpdateConfig {
    /// The settings are the usual ones.
    pub open spec fn is_default(self) -> bool {
        &&& self.enabled
        &&& self.check_minute == 0
        &&& self.cooldown_hours == 6
        &&& self.relaunch_command@.len() == 0
    }
}

impl Default for AutoUpdateConfig {
    fn default() -> (r: Self)
        ensures
            r.is_default(),
    {
        AutoUpdateConfig {
            enabled: true,
            check_minute: 0,
            cooldown_hours: 6,
            relaunch_command: Vec::new(),
        }
    }
}

/// Logins.
#[derive(Debug, Clone)]
pub struct ReauthConfig {
    /// Whether logins are watched.
    pub enabled: bool,
    /// Seconds between two login alerts.
    pub alert_interval_seconds: u64,
    /// Whether an authentication error starts a login.
    pub auth_error_auto_self_login: bool,
    /// Whether announced expiries are watched.
    pub expiry_watch_enabled: bool,
    /// Whether an announced expiry starts a login.
    pub expiry_auto_self_login: bool,
    /// Days left from which it does.
    pub expiry_auto_days: u32,
    /// Whether the credential store alone may announce an expiry.
    pub expiry_from_credentials: bool,
    /// Credential store; empty for the usual place.
    pub credentials_file: String,
    /// Login attempts per window.
    pub self_login_max_attempts: u32,
    /// Seconds between two login attempts.
    pub self_login_retry_seconds: u64,
    /// Age at which an open login dialog is given up; zero for never.
    pub self_login_abandon_seconds: u64,
}

impl ReauthConfig {
    /// The settings are the usual ones.
    pub open spec fn is_default(self) -> bool {
        &&& self.enabled
        &&& self.alert_interval_seconds == 10800
        &&& self.auth_error_auto_self_login
        &&& self.expiry_watch_enabled
        &&& self.expiry_auto_self_login
        &&& self.expiry_auto_days == 1
        &&& !self.expiry_from_credentials
        &&& self.credentials_file@ == Seq::<char>::empty()
        &&& self.self_login_max_attempts == 3
        &&& self.self_login_retry_seconds == 3600
        &&& self.self_login_abandon_seconds == 1800
    }
}

impl Default for ReauthConfig {
    fn default() -> (r: Self)
        ensures
            r.is_default(),
    {
        ReauthConfig {
            enabled: true,
            alert_interval_seconds: 10800,
            auth_error_auto_self_login: true,
            expiry_watch_enabled: true,
            expiry_auto_self_login: true,
            expiry_auto_days: 1,
            expiry_from_credentials: false,
            credentials_file: String::new(),
            self_login_max_attempts: 3,
            self_login_retry_seconds: 3600,
            self_login_abandon_seconds: 1800,
        }
    }
}

/// Workload heartbeats as a sign of life.
#[derive(Debug, Clone)]
pub struct StuckDetectionConfig {
    /// Whether they are looked at.
    pub enabled: bool,
    /// Where workloads leave them.
    pub workload_heartbeat_dir: String,
    /// Age up to which one is fresh.
    pub workload_heartbeat_max_age_secs: u64,
}

/// Where the workloads around a program leave their heartbeats, unless another place is set.
pub open spec fn usual_heartbeat_dir(program: Seq<char>) -> Seq<char> {
    "/var/run/"@ + program + "/workloads"@
}

impl StuckDetectionConfig {
    /// The settings are the usual ones for a session of the program.
    pub open spec fn is_default(self, program: Seq<char>) -> bool {
        &&& self.enabled
        &&& self.workload_heartbeat_dir@ == usual_heartbeat_dir(program)
        &&& self.workload_heartbeat_max_age_secs == 60
    }

    /// The usual settings for a session of the program.
    pub fn for_program(program: &str) -> (r: Self)
        ensures
            r.is_default(program@),
    {
        StuckDetectionConfig {
            enabled: true,
            workload_heartbeat_dir: "/var/run/".to_owned().concat(program).concat("/workloads"),
            workload_heartbeat_max_age_secs: 60,
        }
    }
}

/// Questions that await an answer.
#[derive(Debug, Clone)]
pub struct AskQuestionMonitorConfig {
    /// Whether they are watched.
    pub enabled: bool,
    /// Age at which one is alerted.
    pub stale_seconds: u64,
}

impl AskQuestionMonitorConfig {
    /// The settings are the usual ones.
    pub open spec fn is_default(self) -> bool {
        &&& self.enabled
        &&& self.stale_seconds == 240
    }
}

impl Default for AskQuestionMonitorConfig {
    fn default() -> (r: Self)
        ensures
            r.is_default(),
    {
        AskQuestionMonitorConfig {
            enabled: true,
            stale_seconds: 240,
        }
    }
}

/// Respawning a hung session.
#[derive(Debug, Clone)]
pub struct AutoRespawnConfig {
    /// Whether a hung session is respawned.
    pub enabled: bool,
    /// Distinct hang signals needed.
    pub signals_required: u32,
    /// How long a signal counts.
    pub signal_window_secs: u64,
    /// Seconds between two respawns.
    pub cooldown_secs: u64,
    /// Time without a change of the pane that is a signal.
    pub pane_unchanged_secs: u64,
    /// The command that restarts the session cleanly; empty where there is none.
    pub respawn_command: Vec<String>,
}

impl AutoRespawnConfig {
    /// The settings are the usual ones.
    pub open spec fn is_default(self) -> bool {
        &&& !self.enabled
        &&& self.signals_required == 2
        &&& self.signal_window_secs == 300
        &&& self.cooldown_secs == 1800
        &&& self.pane_unchanged_secs == 600
        &&& self.respawn_command@.len() == 2
        &&& self.respawn_command@[0]@ == "cwsr"@
        &&& self.respawn_command@[1]@ == "--no-upgrade"@
    }
}

impl Default for AutoRespawnConfig {
    fn default() -> (r: Self)
        ensures
            r.is_default(),
    {
        let mut respawn_command: Vec<String> = Vec::new();
        respawn_command.push("cwsr".to_owned());
        respawn_command.push("--no-upgrade".to_owned());
        AutoRespawnConfig {
            enabled: false,
            signals_required: 2,
            signal_window_secs: 300,
            cooldown_secs: 1800,
            pane_unchanged_secs: 600,
            respawn_command,
        }
    }
}

/// The settings that the decisions of this library read.
#[derive(Debug, Clone)]
pub struct Config {
    pub general: GeneralConfig,
    pub names: NamesConfig,
    pub claude: ClaudeConfig,
    pub dead_process: DeadProcessConfig,
    pub fresh_clear: FreshClearConfig,
    pub ack: AckConfig,
    pub alerts: AlertsConfig,
    pub api_retry: ApiRetryConfig,
    pub foreground_monitor: ForegroundMonitorConfig,
    pub watcher_monitor: WatcherMonitorConfig,
    pub context_monitor: ContextMonitorConfig,
    pub malformed_tool_call: MalformedToolCallConfig,
    pub suppression: SuppressionConfig,
    pub hybrid: HybridConfig,
    pub auto_update: AutoUpdateConfig,
    pub reauth: ReauthConfig,
    pub stuck_detection: StuckDetectionConfig,
    pub ask_question_monitor: AskQuestionMonitorConfig,
    pub auto_respawn_on_hang: AutoRespawnConfig,
}

impl Config {
    /// The usual settings for a session and a daemon of these names.
    pub fn for_names(names: NamesConfig) -> (r: Self)
        ensures
            r.names == names,
            r.general.is_default(),
            r.claude.is_default(names.program@),
            r.dead_process.is_default(),
            r.fresh_clear.is_default(),
            r.ack.is_default(),
            r.alerts.is_default(),
            r.api_retry.is_default(),
            r.foreground_monitor.is_default(),
            r.watcher_monitor.is_default(),
            r.context_monitor.is_default(),
            r.malformed_tool_call.is_default(),
            r.suppression.is_default(),
            r.hybrid.is_default(),
            r.auto_update.is_default(),
            r.reauth.is_default(),
            r.stuck_detection.is_default(names.program@),
            r.ask_question_monitor.is_default(),
            r.auto_respawn_on_hang.is_default(),
    {
        let claude = ClaudeConfig::for_program(names.program.as_str());
        let stuck_detection = StuckDetectionConfig::for_program(names.program.as_str());
        Config {
            general: GeneralConfig::default(),
            names,
            claude,
            dead_process: DeadProcessConfig::default(),
            fresh_clear: FreshClearConfig::default(),
            ack: AckConfig::default(),
            alerts: AlertsConfig::default(),
            api_retry: ApiRetryConfig::default(),
            foreground_monitor: ForegroundMonitorConfig::default(),
            watcher_monitor: WatcherMonitorConfig::default(),
            context_monitor: ContextMonitorConfig::default(),
            malformed_tool_call: MalformedToolCallConfig::default(),
            suppression: SuppressionConfig::default(),
            hybrid: HybridConfig::default(),
            auto_update: AutoUpdateConfig::default(),
            reauth: ReauthConfig::default(),
            stuck_detection,
            ask_question_monitor: AskQuestionMonitorConfig::default(),
            auto_respawn_on_hang: AutoRespawnConfig::default(),
        }
    }
}

/// The usual settings do not depend on the names, but for the two paths that hold them, and
/// they fit together: a missing watcher is announced before it is injected for, the grace
/// periods are in their order, holding back is bounded, and neither interrupting a blocked
/// foreground nor respawning is on unless it is switched on.
pub proof fn usual_settings_fit_together(
    names: NamesConfig,
    others: NamesConfig,
    r: Config,
    o: Config,
)
    requires
        call_ensures(Config::for_names, (names,), r),
        call_ensures(Config::for_names, (others,), o),
    ensures
        r.names == names,
        r.general == o.general,
        r.fresh_clear == o.fresh_clear,
        r.context_monitor == o.context_monitor,
        r.watcher_monitor == o.watcher_monitor,
        r.watcher_monitor.event_threshold < r.watcher_monitor.inject_threshold,
        r.watcher_monitor.clean_exit_grace_secs < r.watcher_monitor.grace_secs
            < r.watcher_monitor.monitor_arming_grace_secs,
        r.watcher_monitor.active_window_secs < r.dead_process.active_window_secs,
        0 < r.watcher_monitor.max_suppress_secs,
        0 < r.suppression.max_consecutive_suppressions,
        0 < r.suppression.max_suppression_window_secs,
        r.general.post_interrupt_cooldown_secs < r.general.global_cooldown_max_secs,
        1 < r.general.global_cooldown_backoff_base,
        0 < r.general.obligation_dwell_secs < r.context_monitor.max_armed_secs,
        r.fresh_clear.min_tokens < r.fresh_clear.max_tokens,
        r.foreground_monitor.threshold_seconds < r.foreground_monitor.max_thinking_backoff,
        1 < r.foreground_monitor.thinking_backoff_multiplier,
        r.hybrid.context_fallback_secs < r.hybrid.context_fallback_max_secs,
        r.context_monitor.threshold_percent <= 100,
        !r.foreground_monitor.interrupt_enabled,
        !r.auto_respawn_on_hang.enabled,
        1 < r.auto_respawn_on_hang.signals_required,
        r.reauth.self_login_abandon_seconds < r.reauth.self_login_retry_seconds
            < r.reauth.alert_interval_seconds,
        !r.reauth.expiry_from_credentials,
        r.auto_update.check_minute < 60,
{
}

/// The usual bounds, whatever the names.
pub proof fn usual_bounds(names: NamesConfig, r: Config)
    requires
        call_ensures(Config::for_names, (names,), r),
    ensures
        r.ack.stale_minutes == 20,
        r.alerts.escalation_tiers@ == seq![60u64],
        r.alerts.max_pingme_alerts == 3,
        r.api_retry.enabled && r.api_retry.consecutive == 1 && r.api_retry.max_stuck_secs == 1800,
        r.general.post_interrupt_cooldown_secs == 300,
        r.general.global_cooldown_backoff_base == 2,
        r.general.global_cooldown_max_secs == 1800,
        r.general.global_cooldown_exempt_watcher_down,
        r.general.obligation_dwell_secs == 90,
        r.claude.max_context_tokens == 200000,
        r.claude.handle_bypass_dialog && r.claude.pre_accept_bypass_dialog,
        r.claude.bypass_dialog_wait_secs == 30,
        r.dead_process.checks_required == 3 && r.dead_process.restart_cooldown == 60,
        r.dead_process.fresh_inject_checks == 3 && r.dead_process.suppress_when_active,
        r.dead_process.active_window_secs == 60,
        r.fresh_clear.min_tokens == 1000 && r.fresh_clear.max_tokens == 5000,
        r.fresh_clear.detections_required == 2 && r.fresh_clear.cooldown == 60,
        r.fresh_clear.suppress_when_active && r.fresh_clear.active_window_secs == 60,
        r.fresh_clear.post_clear_window_secs == 300,
        r.fresh_clear.self_clear_handoff_grace_secs == 120,
        r.foreground_monitor.enabled && r.foreground_monitor.threshold_seconds == 300,
        r.foreground_monitor.max_thinking_backoff == 960,
        r.foreground_monitor.thinking_backoff_multiplier == 2,
        r.foreground_monitor.min_tokens_delta == 2000,
        r.foreground_monitor.ack_fresh_secs == 600,
        r.watcher_monitor.enabled && r.watcher_monitor.event_threshold == 3,
        r.watcher_monitor.inject_threshold == 6 && r.watcher_monitor.event_grace_secs == 60,
        r.watcher_monitor.inject_cooldown == 300 && r.watcher_monitor.grace_secs == 90,
        r.watcher_monitor.clean_exit_grace_secs == 30,
        r.watcher_monitor.monitor_arming_grace_secs == 120,
        r.watcher_monitor.suppress_inject_when_active,
        r.watcher_monitor.active_window_secs == 30 && r.watcher_monitor.max_suppress_secs == 180,
        r.context_monitor.enabled && r.context_monitor.threshold_percent == 75,
        r.context_monitor.compact_trigger_percent == 5,
        r.context_monitor.threshold_margin is None,
        r.context_monitor.grace_period == 120 && r.context_monitor.cooldown == 300,
        r.context_monitor.max_armed_secs == 300 && r.context_monitor.wedged_detection_enabled,
        r.context_monitor.wedged_consecutive == 2 && r.context_monitor.wedged_cooldown == 300,
        r.malformed_tool_call.enabled && r.malformed_tool_call.consecutive == 2,
        r.malformed_tool_call.cooldown == 60 && r.malformed_tool_call.escalate_after == 3,
        r.suppression.max_consecutive_suppressions == 3,
        r.suppression.max_suppression_window_secs == 600,
        r.hybrid.enabled && r.hybrid.context_fallback_secs == 120,
        r.hybrid.context_fallback_max_secs == 600 && r.hybrid.version_fallback_secs == 600,
        r.auto_update.enabled && r.auto_update.check_minute == 0,
        r.auto_update.cooldown_hours == 6 && r.auto_update.relaunch_command@.len() == 0,
        r.reauth.enabled && r.reauth.alert_interval_seconds == 10800,
        r.reauth.auth_error_auto_self_login && r.reauth.expiry_watch_enabled,
        r.reauth.expiry_auto_self_login && r.reauth.expiry_auto_days == 1,
        r.reauth.credentials_file@.len() == 0 && r.reauth.self_login_max_attempts == 3,
        r.reauth.self_login_retry_seconds == 3600,
        r.reauth.self_login_abandon_seconds == 1800,
        r.stuck_detection.enabled && r.stuck_detection.workload_heartbeat_max_age_secs == 60,
        r.ask_question_monitor.enabled && r.ask_question_monitor.stale_seconds == 240,
        r.auto_respawn_on_hang.signals_required == 2,
        r.auto_respawn_on_hang.signal_window_secs == 300,
        r.auto_respawn_on_hang.cooldown_secs == 1800,
        r.auto_respawn_on_hang.pane_unchanged_secs == 600,
{
}

} // verus!
