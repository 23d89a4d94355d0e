//! Sessions that were cleared and now wait at an empty prompt.
use crate::config::Config;
use crate::liveness;
use crate::liveness::{
    ack_liveness_fresh, ack_liveness_suppresses_clear_inject, fresh_clear_inject_suppressed_at,
};
use crate::state::{State, StateView};
use crate::suppression;
use crate::suppression::{
    record_suppression, reset_suppression, should_escalate_suppression_at, EscalationReason,
};
use crate::text::text_eq;
use crate::time;
use crate::time::{as_opt_str, current_moment, stamp_under, Moment};
use crate::watcher_health::copy_opt;
use vstd::prelude::*;

verus! {

/// A resume prompt is due after an observed clear: it is switched on; the reading is
/// below the token window of a fresh clear; no clear from here is about to prompt
/// by itself; the clear is recent and has drawn no prompt yet; the pane is idle,
/// with no menu on it, and has been for long enough.
pub open spec fn resume_due(
    tokens: u64,
    fresh_min_tokens: u64,
    last_context_clear: Option<Seq<char>>,
    window_secs: u64,
    already_injected_for: Option<Seq<char>>,
    daemon_clear_recent: bool,
    idle: bool,
    interactive: bool,
    idle_checks: u32,
    checks_required: u32,
    now: Moment,
) -> bool {
    window_secs > 0 && tokens < fresh_min_tokens && !daemon_clear_recent && idle && !interactive
        && last_context_clear is Some && already_injected_for != last_context_clear
        && time::elapsed_under(last_context_clear, now, window_secs as int) && idle_checks
        >= checks_required
}

fn same_opt(a: Option<&str>, b: Option<&str>) -> (r: bool)
    ensures
        r == (time::opt_str_view(a) == time::opt_str_view(b)),
{
    match a {
        Some(x) => match b {
            Some(y) => text_eq(x, y),
            None => false,
        },
        None => b.is_none(),
    }
}

/// [`resume_due`], executable.
pub fn post_clear_resume_due_at(
    tokens: u64,
    fresh_min_tokens: u64,
    last_context_clear: Option<&str>,
    window_secs: u64,
    already_injected_for: Option<&str>,
    daemon_clear_recent: bool,
    idle: bool,
    interactive: bool,
    idle_checks: u32,
    checks_required: u32,
    now: Moment,
) -> (r: bool)
    ensures
        r == resume_due(
            tokens,
            fresh_min_tokens,
            time::opt_str_view(last_context_clear),
            window_secs,
            time::opt_str_view(already_injected_for),
            daemon_clear_recent,
            idle,
            interactive,
            idle_checks,
            checks_required,
            now,
        ),
{
    if window_secs == 0 || tokens >= fresh_min_tokens || daemon_clear_recent || !idle
        || interactive {
        return false;
    }
    if last_context_clear.is_none() || same_opt(already_injected_for, last_context_clear) {
        return false;
    }
    if !stamp_under(last_context_clear, now, window_secs) {
        return false;
    }
    idle_checks >= checks_required
}

/// [`resume_due`] at the present instant.
pub fn post_clear_resume_due(
    tokens: u64,
    fresh_min_tokens: u64,
    last_context_clear: Option<&str>,
    window_secs: u64,
    already_injected_for: Option<&str>,
    daemon_clear_recent: bool,
    idle: bool,
    interactive: bool,
    idle_checks: u32,
    checks_required: u32,
) -> (r: bool)
    ensures
        exists|now: Moment|
            r == #[trigger] resume_due(
                tokens,
                fresh_min_tokens,
                time::opt_str_view(last_context_clear),
                window_secs,
                time::opt_str_view(already_injected_for),
                daemon_clear_recent,
                idle,
                interactive,
                idle_checks,
                checks_required,
                now,
            ),
{
    let now = current_moment();
    post_clear_resume_due_at(
        tokens,
        fresh_min_tokens,
        last_context_clear,
        window_secs,
        already_injected_for,
        daemon_clear_recent,
        idle,
        interactive,
        idle_checks,
        checks_required,
        now,
    )
}

/// What is seen of a session that may have been cleared.
#[derive(Debug, Clone, Copy, PartialEq, Eq, Structural)]
pub struct ClearedObs {
    /// Age of the last event acknowledgement.
    pub ack_age_secs: Option<u64>,
    /// The pane shows a wedge banner.
    pub wedged_now: bool,
    /// The recorded clear child still runs.
    pub clear_child_running: bool,
    /// A clear driven from here has just been handed over.
    pub handoff_recent: bool,
    /// The session is shutting down.
    pub exit_teardown: bool,
    /// The pane is at the idle prompt.
    pub idle: bool,
    /// A menu on the pane awaits an answer.
    pub interactive: bool,
}

/// Seconds from which an acknowledgement is stale.
pub open spec fn ack_stale_secs(c: Config) -> int {
    c.ack.stale_minutes * 60
}

/// A fresh acknowledgement holds the prompt back, unless the pane is wedged.
pub open spec fn held_by_ack(c: Config, obs: ClearedObs) -> bool {
    (obs.ack_age_secs matches Some(age) && age < ack_stale_secs(c)) && !obs.wedged_now
}

fn ack_holds(config: &Config, obs: &ClearedObs) -> (r: bool)
    requires
        ack_stale_secs(*config) <= u64::MAX,
    ensures
        r == held_by_ack(*config, *obs),
{
    let alive = ack_liveness_fresh(obs.ack_age_secs, config.ack.stale_minutes * 60);
    ack_liveness_suppresses_clear_inject(alive, obs.wedged_now)
}

/// What came of the look for a cleared session that waits for its resume prompt.
#[derive(Debug, Clone, Copy, PartialEq, Eq, Structural)]
pub enum PostClearOutcome {
    /// No observed clear is left to prompt for.
    NotApplicable,
    /// The session acknowledges events: it needs no prompt. The cycle ends.
    HeldByAck,
    /// A prompt is not due yet.
    NotDue,
    /// The session is given its resume prompt. The cycle ends.
    Inject,
}

impl PostClearOutcome {
    /// The cycle ends here.
    pub open spec fn ends_cycle(self) -> bool {
        self == PostClearOutcome::HeldByAck || self == PostClearOutcome::Inject
    }

    /// Whether the cycle ends here.
    pub fn is_final(self) -> (r: bool)
        ensures
            r == self.ends_cycle(),
    {
        match self {
            PostClearOutcome::HeldByAck => true,
            PostClearOutcome::Inject => true,
            _ => false,
        }
    }
}

/// There is an observed clear that has drawn no prompt, and the reading is below
/// the token window of a fresh clear.
pub open spec fn post_clear_applies(c: Config, s: StateView, pane: Seq<char>, tokens: u64) -> bool {
    pane.len() > 0 && c.fresh_clear.post_clear_window_secs > 0 && tokens < c.fresh_clear.min_tokens
        && s.last_context_clear is Some && s.post_clear_resume_injected_for != s.last_context_clear
}

/// A clear from here is recent enough to prompt by itself.
pub open spec fn daemon_clear_recent(c: Config, s: StateView, obs: ClearedObs, now: Moment) -> bool {
    time::elapsed_under(
        s.last_wedged_clear,
        now,
        c.fresh_clear.post_clear_window_secs as int,
    ) || (s.context_clear_child_pid is Some && obs.clear_child_running) || obs.handoff_recent
}

/// The idle cycles in a row, this one counted.
pub open spec fn idle_checks_after(s: StateView, obs: ClearedObs) -> u32 {
    if obs.idle && !obs.interactive {
        s.post_clear_idle_checks.saturating_add(1)
    } else {
        0
    }
}

/// What the look comes to.
pub open spec fn post_clear_outcome(
    c: Config,
    s: StateView,
    pane: Seq<char>,
    tokens: u64,
    obs: ClearedObs,
    now: Moment,
) -> PostClearOutcome {
    if !post_clear_applies(c, s, pane, tokens) {
        PostClearOutcome::NotApplicable
    } else if held_by_ack(c, obs) {
        PostClearOutcome::HeldByAck
    } else if resume_due(
        tokens,
        c.fresh_clear.min_tokens,
        s.last_context_clear,
        c.fresh_clear.post_clear_window_secs,
        s.post_clear_resume_injected_for,
        daemon_clear_recent(c, s, obs, now),
        obs.idle,
        obs.idle && obs.interactive,
        idle_checks_after(s, obs),
        c.fresh_clear.detections_required,
        now,
    ) {
        PostClearOutcome::Inject
    } else {
        PostClearOutcome::NotDue
    }
}

/// The state after the look.
pub open spec fn post_clear_next(
    c: Config,
    s: StateView,
    pane: Seq<char>,
    tokens: u64,
    obs: ClearedObs,
    stamp: Seq<char>,
    now: Moment,
) -> StateView {
    post_clear_applied(s, post_clear_outcome(c, s, pane, tokens, obs, now), obs, stamp)
}

/// The state after the look came to `outcome`.
pub open spec fn post_clear_applied(
    s: StateView,
    outcome: PostClearOutcome,
    obs: ClearedObs,
    stamp: Seq<char>,
) -> StateView {
    match outcome {
        PostClearOutcome::NotApplicable => StateView { post_clear_idle_checks: 0, ..s },
        PostClearOutcome::HeldByAck => StateView {
            post_clear_idle_checks: 0,
            last_check: Some(stamp),
            ..s
        },
        PostClearOutcome::NotDue => StateView {
            post_clear_idle_checks: idle_checks_after(s, obs),
            ..s
        },
        PostClearOutcome::Inject => StateView {
            post_clear_resume_injected_for: s.last_context_clear,
            post_clear_idle_checks: 0,
            fresh_clear_resume_inject_interrupts_total:
                s.fresh_clear_resume_inject_interrupts_total.saturating_add(1),
            last_check: Some(stamp),
            ..s
        },
    }
}

fn set_idle_checks(state: &mut State, checks: u32)
    ensures
        final(state)@ == (StateView { post_clear_idle_checks: checks, ..old(state)@ }),
{
    proof {
        reveal(crate::state::state_view);
    }
    state.post_clear_idle_checks = checks;
}

/// Stamps the cycle as done.
pub fn stamp_check(state: &mut State, stamp: &str)
    ensures
        final(state)@ == (StateView { last_check: Some(stamp@), ..old(state)@ }),
{
    proof {
        reveal(crate::state::state_view);
    }
    state.last_check = Some(stamp.to_owned());
}

fn note_resume_injected(state: &mut State, total: u64, stamp: &str)
    ensures
        final(state)@ == (StateView {
            post_clear_resume_injected_for: old(state)@.last_context_clear,
            post_clear_idle_checks: 0,
            fresh_clear_resume_inject_interrupts_total: total,
            last_check: Some(stamp@),
            ..old(state)@
        }),
{
    proof {
        reveal(crate::state::state_view);
    }
    let cleared = copy_opt(&state.last_context_clear);
    state.post_clear_resume_injected_for = cleared;
    state.post_clear_idle_checks = 0;
    state.fresh_clear_resume_inject_interrupts_total = total;
    state.last_check = Some(stamp.to_owned());
}

fn was_daemon_clear(config: &Config, state: &State, obs: &ClearedObs, now: Moment) -> (r: bool)
    ensures
        r == daemon_clear_recent(*config, state@, *obs, now),
{
    proof {
        reveal(crate::state::state_view);
    }
    stamp_under(
        as_opt_str(&state.last_wedged_clear),
        now,
        config.fresh_clear.post_clear_window_secs,
    ) || (state.context_clear_child_pid.is_some() && obs.clear_child_running) || obs.handoff_recent
}

fn decide_post_clear(
    config: &Config,
    state: &State,
    pane: &str,
    tokens: u64,
    obs: &ClearedObs,
    now: Moment,
) -> (r: PostClearOutcome)
    requires
        ack_stale_secs(*config) <= u64::MAX,
    ensures
        r == post_clear_outcome(*config, state@, pane@, tokens, *obs, now),
{
    proof {
        reveal(crate::state::state_view);
    }
    let applies = !pane.is_empty() && config.fresh_clear.post_clear_window_secs > 0 && tokens
        < config.fresh_clear.min_tokens && state.last_context_clear.is_some() && !same_opt(
        as_opt_str(&state.post_clear_resume_injected_for),
        as_opt_str(&state.last_context_clear),
    );
    if !applies {
        return PostClearOutcome::NotApplicable;
    }
    if ack_holds(config, obs) {
        return PostClearOutcome::HeldByAck;
    }
    let recent = was_daemon_clear(config, state, obs, now);
    let due = post_clear_resume_due_at(
        tokens,
        config.fresh_clear.min_tokens,
        as_opt_str(&state.last_context_clear),
        config.fresh_clear.post_clear_window_secs,
        as_opt_str(&state.post_clear_resume_injected_for),
        recent,
        obs.idle,
        obs.idle && obs.interactive,
        count_idle(state, obs),
        config.fresh_clear.detections_required,
        now,
    );
    if due {
        PostClearOutcome::Inject
    } else {
        PostClearOutcome::NotDue
    }
}

fn count_idle(state: &State, obs: &ClearedObs) -> (r: u32)
    ensures
        r == idle_checks_after(state@, *obs),
{
    proof {
        reveal(crate::state::state_view);
    }
    if obs.idle && !obs.interactive {
        state.post_clear_idle_checks.saturating_add(1)
    } else {
        0
    }
}

/// Looks for a cleared session that waits for its resume prompt.
pub fn post_clear_step(
    config: &Config,
    state: &mut State,
    pane: &str,
    tokens: u64,
    obs: ClearedObs,
    stamp: &str,
    now: Moment,
) -> (r: PostClearOutcome)
    requires
        ack_stale_secs(*config) <= u64::MAX,
    ensures
        r == post_clear_outcome(*config, old(state)@, pane@, tokens, obs, now),
        final(state)@ == post_clear_next(
            *config,
            old(state)@,
            pane@,
            tokens,
            obs,
            stamp@,
            now,
        ),
{
    let outcome = decide_post_clear(config, state, pane, tokens, &obs, now);
    apply_post_clear(state, outcome, &obs, stamp);
    outcome
}

fn apply_post_clear(state: &mut State, outcome: PostClearOutcome, obs: &ClearedObs, stamp: &str)
    ensures
        final(state)@ == post_clear_applied(old(state)@, outcome, *obs, stamp@),
{
    proof {
        reveal(crate::state::state_view);
    }
    match outcome {
        PostClearOutcome::NotApplicable => {
            set_idle_checks(state, 0);
        },
        PostClearOutcome::HeldByAck => {
            set_idle_checks(state, 0);
            stamp_check(state, stamp);
        },
        PostClearOutcome::NotDue => {
            let checks: u32 = count_idle(state, obs);
            set_idle_checks(state, checks);
        },
        PostClearOutcome::Inject => {
            let total: u64 = state.fresh_clear_resume_inject_interrupts_total.saturating_add(1);
            note_resume_injected(state, total, stamp);
        },
    }
}

/// What came of the look for a freshly cleared session.
#[derive(Debug, Clone, Copy, PartialEq, Eq, Structural)]
pub enum FreshClearOutcome {
    /// The reading is not that of a fresh clear.
    NotApplicable,
    /// The pane is not idle.
    Busy,
    /// The session is shutting down. The cycle ends.
    Teardown,
    /// A menu awaits an answer. The cycle ends.
    Interactive,
    /// Not seen often enough yet. The cycle ends.
    Counting,
    /// The last prompt was a moment ago. The cycle ends.
    CoolingDown,
    /// The session acknowledges events: it needs no prompt. The cycle ends.
    HeldByAck,
    /// The session is at work: it needs no prompt. The cycle ends.
    HeldByActivity,
    /// The session is given its resume prompt, perhaps by force. The cycle ends.
    Inject { forced: Option<EscalationReason> },
}

impl FreshClearOutcome {
    /// The cycle ends here.
    pub open spec fn ends_cycle(self) -> bool {
        self != FreshClearOutcome::NotApplicable && self != FreshClearOutcome::Busy
    }

    /// Whether the cycle ends here.
    pub fn is_final(self) -> (r: bool)
        ensures
            r == self.ends_cycle(),
    {
        match self {
            FreshClearOutcome::NotApplicable => false,
            FreshClearOutcome::Busy => false,
            _ => true,
        }
    }
}

/// The reading is within the token window of a fresh clear, and no shell runs.
pub open spec fn fresh_clear_applies(c: Config, tokens: u64, bashes: u64) -> bool {
    c.fresh_clear.min_tokens <= tokens < c.fresh_clear.max_tokens && bashes == 0
}

/// What the look comes to.
pub open spec fn fresh_clear_outcome(
    c: Config,
    s: StateView,
    pane: Seq<char>,
    tokens: u64,
    bashes: u64,
    obs: ClearedObs,
    now: Moment,
) -> FreshClearOutcome {
    let forced = suppression::escalation(
        s,
        c.suppression.max_consecutive_suppressions,
        c.suppression.max_suppression_window_secs,
        now,
    );
    if !fresh_clear_applies(c, tokens, bashes) {
        FreshClearOutcome::NotApplicable
    } else if pane.len() == 0 {
        FreshClearOutcome::Busy
    } else if obs.exit_teardown {
        FreshClearOutcome::Teardown
    } else if obs.interactive {
        FreshClearOutcome::Interactive
    } else if !obs.idle {
        FreshClearOutcome::Busy
    } else if s.consecutive_fast_detections + 1 < c.fresh_clear.detections_required {
        FreshClearOutcome::Counting
    } else if time::elapsed_under(s.last_fast_path_alert, now, c.fresh_clear.cooldown as int) {
        FreshClearOutcome::CoolingDown
    } else if held_by_ack(c, obs) {
        FreshClearOutcome::HeldByAck
    } else if liveness::held_by_activity(
        s,
        bashes,
        c.fresh_clear.suppress_when_active,
        c.fresh_clear.active_window_secs,
        now,
    ) && forced is None {
        FreshClearOutcome::HeldByActivity
    } else {
        FreshClearOutcome::Inject { forced }
    }
}

/// The state after the resume prompt was sent.
pub open spec fn fresh_clear_injected(s: StateView, stamp: Seq<char>) -> StateView {
    suppression::suppression_cleared(
        StateView {
            last_fast_path_alert: Some(stamp),
            last_alert: Some(stamp),
            consecutive_failures: 0,
            consecutive_fast_detections: 0,
            fresh_clear_resume_inject_interrupts_total:
                s.fresh_clear_resume_inject_interrupts_total.saturating_add(1),
            last_check: Some(stamp),
            ..s
        },
    )
}

/// The state after the look.
pub open spec fn fresh_clear_next(
    c: Config,
    s: StateView,
    pane: Seq<char>,
    tokens: u64,
    bashes: u64,
    obs: ClearedObs,
    stamp: Seq<char>,
    now: Moment,
) -> StateView {
    fresh_clear_applied(
        s,
        fresh_clear_outcome(c, s, pane, tokens, bashes, obs, now),
        stamp,
    )
}

/// The state after the look came to `outcome`.
pub open spec fn fresh_clear_applied(
    s: StateView,
    outcome: FreshClearOutcome,
    stamp: Seq<char>,
) -> StateView {
    let dropped = StateView { consecutive_fast_detections: 0, last_check: Some(stamp), ..s };
    let counted = StateView {
        consecutive_fast_detections: (s.consecutive_fast_detections + 1) as u32,
        last_check: Some(stamp),
        ..s
    };
    match outcome {
        FreshClearOutcome::NotApplicable => StateView { consecutive_fast_detections: 0, ..s },
        FreshClearOutcome::Busy => s,
        FreshClearOutcome::Teardown => dropped,
        FreshClearOutcome::Interactive => dropped,
        FreshClearOutcome::Counting => counted,
        FreshClearOutcome::CoolingDown => counted,
        FreshClearOutcome::HeldByAck => dropped,
        FreshClearOutcome::HeldByActivity => suppression::suppression_recorded(dropped, stamp),
        FreshClearOutcome::Inject { .. } => fresh_clear_injected(s, stamp),
    }
}

fn set_fast_detections(state: &mut State, n: u32)
    ensures
        final(state)@ == (StateView { consecutive_fast_detections: n, ..old(state)@ }),
{
    proof {
        reveal(crate::state::state_view);
    }
    state.consecutive_fast_detections = n;
}

fn end_with_detections(state: &mut State, n: u32, stamp: &str)
    ensures
        final(state)@ == (StateView {
            consecutive_fast_detections: n,
            last_check: Some(stamp@),
            ..old(state)@
        }),
{
    proof {
        reveal(crate::state::state_view);
    }
    state.consecutive_fast_detections = n;
    state.last_check = Some(stamp.to_owned());
}

fn note_fresh_clear_inject(state: &mut State, total: u64, stamp: &str)
    ensures
        final(state)@ == (StateView {
            last_fast_path_alert: Some(stamp@),
            last_alert: Some(stamp@),
            consecutive_failures: 0,
            consecutive_fast_detections: 0,
            fresh_clear_resume_inject_interrupts_total: total,
            last_check: Some(stamp@),
            ..old(state)@
        }),
{
    proof {
        reveal(crate::state::state_view);
    }
    state.last_fast_path_alert = Some(stamp.to_owned());
    state.last_alert = Some(stamp.to_owned());
    state.consecutive_failures = 0;
    state.consecutive_fast_detections = 0;
    state.fresh_clear_resume_inject_interrupts_total = total;
    state.last_check = Some(stamp.to_owned());
}

fn decide_fresh_clear(
    config: &Config,
    state: &State,
    pane: &str,
    tokens: u64,
    bashes: u64,
    obs: &ClearedObs,
    now: Moment,
) -> (r: FreshClearOutcome)
    requires
        ack_stale_secs(*config) <= u64::MAX,
        state@.consecutive_fast_detections < u32::MAX,
    ensures
        r == fresh_clear_outcome(*config, state@, pane@, tokens, bashes, *obs, now),
{
    proof {
        reveal(crate::state::state_view);
    }
    if !(tokens >= config.fresh_clear.min_tokens && tokens < config.fresh_clear.max_tokens
        && bashes == 0) {
        return FreshClearOutcome::NotApplicable;
    }
    if pane.is_empty() {
        return FreshClearOutcome::Busy;
    }
    if obs.exit_teardown {
        return FreshClearOutcome::Teardown;
    }
    if obs.interactive {
        return FreshClearOutcome::Interactive;
    }
    if !obs.idle {
        return FreshClearOutcome::Busy;
    }
    if state.consecutive_fast_detections + 1 < config.fresh_clear.detections_required {
        return FreshClearOutcome::Counting;
    }
    if stamp_under(as_opt_str(&state.last_fast_path_alert), now, config.fresh_clear.cooldown) {
        return FreshClearOutcome::CoolingDown;
    }
    if ack_holds(config, obs) {
        return FreshClearOutcome::HeldByAck;
    }
    let active = fresh_clear_inject_suppressed_at(
        state,
        bashes,
        config.fresh_clear.suppress_when_active,
        config.fresh_clear.active_window_secs,
        now,
    );
    let forced = should_escalate_suppression_at(
        state,
        config.suppression.max_consecutive_suppressions,
        config.suppression.max_suppression_window_secs,
        now,
    );
    if active && forced.is_none() {
        FreshClearOutcome::HeldByActivity
    } else {
        FreshClearOutcome::Inject { forced }
    }
}

fn apply_fresh_clear(state: &mut State, outcome: FreshClearOutcome, stamp: &str)
    requires
        old(state)@.consecutive_fast_detections < u32::MAX,
    ensures
        final(state)@ == fresh_clear_applied(old(state)@, outcome, stamp@),
{
    proof {
        reveal(crate::state::state_view);
    }
    match outcome {
        FreshClearOutcome::NotApplicable => {
            set_fast_detections(state, 0);
        },
        FreshClearOutcome::Busy => {},
        FreshClearOutcome::Counting => {
            let detections: u32 = state.consecutive_fast_detections + 1;
            end_with_detections(state, detections, stamp);
        },
        FreshClearOutcome::CoolingDown => {
            let detections: u32 = state.consecutive_fast_detections + 1;
            end_with_detections(state, detections, stamp);
        },
        FreshClearOutcome::HeldByActivity => {
            end_with_detections(state, 0, stamp);
            record_suppression(state, stamp);
        },
        FreshClearOutcome::Inject { .. } => {
            let total: u64 = state.fresh_clear_resume_inject_interrupts_total.saturating_add(1);
            note_fresh_clear_inject(state, total, stamp);
            reset_suppression(state);
        },
        _ => {
            end_with_detections(state, 0, stamp);
        },
    }
}

/// Looks for a freshly cleared session.
pub fn fresh_clear_step(
    config: &Config,
    state: &mut State,
    pane: &str,
    tokens: u64,
    bashes: u64,
    obs: ClearedObs,
    stamp: &str,
    now: Moment,
) -> (r: FreshClearOutcome)
    requires
        ack_stale_secs(*config) <= u64::MAX,
        old(state)@.consecutive_fast_detections < u32::MAX,
    ensures
        r == fresh_clear_outcome(*config, old(state)@, pane@, tokens, bashes, obs, now),
        final(state)@ == fresh_clear_next(
            *config,
            old(state)@,
            pane@,
            tokens,
            bashes,
            obs,
            stamp@,
            now,
        ),
{
    let outcome = decide_fresh_clear(config, state, pane, tokens, bashes, &obs, now);
    apply_fresh_clear(state, outcome, stamp);
    outcome
}

/// One observed clear draws one prompt: after it was sent, the same clear draws
/// no other.
pub proof fn one_prompt_per_clear(
    c: Config,
    s: StateView,
    pane: Seq<char>,
    tokens: u64,
    obs: ClearedObs,
    stamp: Seq<char>,
    now: Moment,
    later_pane: Seq<char>,
    later_tokens: u64,
    later_obs: ClearedObs,
    later: Moment,
)
    requires
        post_clear_outcome(c, s, pane, tokens, obs, now) == PostClearOutcome::Inject,
    ensures
        post_clear_outcome(
            c,
            post_clear_next(c, s, pane, tokens, obs, stamp, now),
            later_pane,
            later_tokens,
            later_obs,
            later,
        ) == PostClearOutcome::NotApplicable,
{
}

/// A wedged pane is never left to a fresh acknowledgement: neither look ends the
/// cycle on its account.
pub proof fn wedge_beats_fresh_ack(
    c: Config,
    s: StateView,
    pane: Seq<char>,
    tokens: u64,
    bashes: u64,
    obs: ClearedObs,
    now: Moment,
)
    requires
        obs.wedged_now,
    ensures
        post_clear_outcome(c, s, pane, tokens, obs, now) != PostClearOutcome::HeldByAck,
        fresh_clear_outcome(c, s, pane, tokens, bashes, obs, now) != FreshClearOutcome::HeldByAck,
{
}

/// The two looks never prompt for one reading: their token windows do not meet.
pub proof fn looks_do_not_overlap(
    c: Config,
    s: StateView,
    t: StateView,
    pane: Seq<char>,
    tokens: u64,
    bashes: u64,
    obs: ClearedObs,
    now: Moment,
)
    ensures
        post_clear_outcome(c, s, pane, tokens, obs, now) == PostClearOutcome::Inject
            ==> fresh_clear_outcome(c, t, pane, tokens, bashes, obs, now)
            == FreshClearOutcome::NotApplicable,
{
}

/// A menu that awaits an answer is never typed into.
pub proof fn menus_are_left_alone(
    c: Config,
    s: StateView,
    pane: Seq<char>,
    tokens: u64,
    bashes: u64,
    obs: ClearedObs,
    now: Moment,
)
    requires
        obs.interactive,
    ensures
        post_clear_outcome(c, s, pane, tokens, obs, now) != PostClearOutcome::Inject,
        !(fresh_clear_outcome(c, s, pane, tokens, bashes, obs, now) is Inject),
{
}

/// A session whose observed clear has drawn no prompt is prompted exactly where it has been
/// idle, with no menu up, for the required checks, the clear is younger than the window, no
/// clear from here prompts by itself, and no fresh acknowledgement speaks for it, unless its
/// pane is wedged.
pub proof fn observed_clear_draws_a_prompt(
    c: Config,
    s: StateView,
    pane: Seq<char>,
    tokens: u64,
    obs: ClearedObs,
    now: Moment,
)
    ensures
        ({
            let outcome = post_clear_outcome(c, s, pane, tokens, obs, now);
            let window = c.fresh_clear.post_clear_window_secs;
            let applies = pane.len() > 0 && window > 0 && tokens < c.fresh_clear.min_tokens
                && s.last_context_clear is Some && s.post_clear_resume_injected_for
                != s.last_context_clear;
            let acks = obs.ack_age_secs is Some && obs.ack_age_secs->0 < c.ack.stale_minutes * 60
                && !obs.wedged_now;
            let own = time::elapsed_under(s.last_wedged_clear, now, window as int) || (
            s.context_clear_child_pid is Some && obs.clear_child_running) || obs.handoff_recent;
            let enough = (if s.post_clear_idle_checks < u32::MAX {
                s.post_clear_idle_checks + 1
            } else {
                u32::MAX as int
            }) >= c.fresh_clear.detections_required;
            &&& outcome == PostClearOutcome::NotApplicable <==> !applies
            &&& outcome == PostClearOutcome::HeldByAck <==> applies && acks
            &&& outcome == PostClearOutcome::Inject <==> applies && !acks && obs.idle
                && !obs.interactive && enough && !own && time::elapsed_under(
                s.last_context_clear,
                now,
                window as int,
            )
        }),
{
}

/// A prompt for an observed clear is remembered with the stamp of that clear; idle checks count
/// only in a row, and only while a prompt is waited for.
pub proof fn post_clear_look_is_on_record(
    s: StateView,
    outcome: PostClearOutcome,
    obs: ClearedObs,
    stamp: Seq<char>,
)
    ensures
        ({
            let n = post_clear_applied(s, outcome, obs, stamp);
            &&& outcome == PostClearOutcome::Inject ==> n.post_clear_resume_injected_for
                == s.last_context_clear
            &&& outcome != PostClearOutcome::Inject ==> n.post_clear_resume_injected_for
                == s.post_clear_resume_injected_for
                && n.fresh_clear_resume_inject_interrupts_total
                == s.fresh_clear_resume_inject_interrupts_total
            &&& outcome == PostClearOutcome::Inject
                && s.fresh_clear_resume_inject_interrupts_total < u64::MAX
                ==> n.fresh_clear_resume_inject_interrupts_total
                == s.fresh_clear_resume_inject_interrupts_total + 1
            &&& outcome != PostClearOutcome::NotDue ==> n.post_clear_idle_checks == 0
            &&& outcome == PostClearOutcome::NotDue && (!obs.idle || obs.interactive)
                ==> n.post_clear_idle_checks == 0
            &&& outcome == PostClearOutcome::NotDue && obs.idle && !obs.interactive
                && s.post_clear_idle_checks < u32::MAX ==> n.post_clear_idle_checks
                == s.post_clear_idle_checks + 1
            &&& n.last_context_clear == s.last_context_clear
            &&& outcome.ends_cycle() <==> outcome == PostClearOutcome::HeldByAck || outcome
                == PostClearOutcome::Inject
            &&& n.last_check == (if outcome.ends_cycle() {
                Some(stamp)
            } else {
                s.last_check
            })
        }),
{
}

/// A freshly cleared session is prompted exactly where its reading is that of a fresh clear, no
/// shell runs, its pane is idle with no shutdown and no menu, it was seen so often enough, the
/// last prompt is past its cooldown, no fresh acknowledgement speaks for it unless its pane is
/// wedged, and activity does not hold the prompt back, or no longer may.
pub proof fn fresh_clear_draws_a_prompt(
    c: Config,
    s: StateView,
    pane: Seq<char>,
    tokens: u64,
    bashes: u64,
    obs: ClearedObs,
    now: Moment,
)
    ensures
        ({
            let outcome = fresh_clear_outcome(c, s, pane, tokens, bashes, obs, now);
            let applies = c.fresh_clear.min_tokens <= tokens && tokens < c.fresh_clear.max_tokens
                && bashes == 0;
            let ready = applies && pane.len() > 0 && !obs.exit_teardown && !obs.interactive
                && obs.idle;
            let seen = s.consecutive_fast_detections + 1 >= c.fresh_clear.detections_required;
            let cooling = time::elapsed_under(
                s.last_fast_path_alert,
                now,
                c.fresh_clear.cooldown as int,
            );
            let acks = obs.ack_age_secs is Some && obs.ack_age_secs->0 < c.ack.stale_minutes * 60
                && !obs.wedged_now;
            let active = c.fresh_clear.suppress_when_active && time::elapsed_under(
                s.last_active_at,
                now,
                c.fresh_clear.active_window_secs as int,
            );
            let forced = suppression::escalation(
                s,
                c.suppression.max_consecutive_suppressions,
                c.suppression.max_suppression_window_secs,
                now,
            );
            &&& outcome == FreshClearOutcome::NotApplicable <==> !applies
            &&& outcome == FreshClearOutcome::Teardown <==> applies && pane.len() > 0
                && obs.exit_teardown
            &&& outcome == FreshClearOutcome::Interactive <==> applies && pane.len() > 0
                && !obs.exit_teardown && obs.interactive
            &&& outcome == FreshClearOutcome::Counting <==> ready && !seen
            &&& outcome == FreshClearOutcome::CoolingDown <==> ready && seen && cooling
            &&& outcome == FreshClearOutcome::HeldByAck <==> ready && seen && !cooling && acks
            &&& outcome == FreshClearOutcome::HeldByActivity <==> ready && seen && !cooling && !acks
                && active && forced is None
            &&& outcome is Inject <==> ready && seen && !cooling && !acks && (!active || forced
                is Some)
            &&& outcome matches FreshClearOutcome::Inject { forced: why } ==> why == forced
        }),
{
}

/// What a look at a freshly cleared session leaves behind: detections count only in a row; a
/// prompt leaves its stamps and ends the failures and the run of suppressions; one held back by
/// activity is counted in that run.
pub proof fn fresh_clear_look_is_on_record(
    s: StateView,
    outcome: FreshClearOutcome,
    stamp: Seq<char>,
)
    requires
        s.consecutive_fast_detections < u32::MAX,
    ensures
        ({
            let n = fresh_clear_applied(s, outcome, stamp);
            &&& outcome == FreshClearOutcome::Counting || outcome == FreshClearOutcome::CoolingDown
                ==> n.consecutive_fast_detections == s.consecutive_fast_detections + 1
            &&& outcome == FreshClearOutcome::Busy ==> n == s
            &&& outcome != FreshClearOutcome::Busy && outcome != FreshClearOutcome::Counting
                && outcome != FreshClearOutcome::CoolingDown ==> n.consecutive_fast_detections == 0
            &&& outcome is Inject ==> n.last_fast_path_alert == Some(stamp) && n.last_alert == Some(
                stamp,
            ) && n.consecutive_failures == 0 && n.consecutive_suppressions == 0
                && n.first_suppression_at is None
            &&& !(outcome is Inject) ==> n.last_fast_path_alert == s.last_fast_path_alert
                && n.last_alert == s.last_alert && n.consecutive_failures == s.consecutive_failures
            &&& outcome == FreshClearOutcome::HeldByActivity && s.consecutive_suppressions
                < u32::MAX ==> n.consecutive_suppressions == s.consecutive_suppressions + 1
            &&& !(outcome is Inject) && outcome != FreshClearOutcome::HeldByActivity
                ==> n.consecutive_suppressions == s.consecutive_suppressions
            &&& !outcome.ends_cycle() <==> outcome == FreshClearOutcome::NotApplicable || outcome
                == FreshClearOutcome::Busy
            &&& n.last_check == (if outcome.ends_cycle() {
                Some(stamp)
            } else {
                s.last_check
            })
        }),
{
}

/// A prompt after an observed clear is due only where that is switched on, for a clear that is
/// known and has drawn none, and only within the window; a longer wait at the idle prompt never
/// makes it less due.
pub proof fn prompt_is_due_within_the_window(
    tokens: u64,
    fresh_min_tokens: u64,
    cleared: Option<Seq<char>>,
    window_secs: u64,
    prompted_for: Option<Seq<char>>,
    daemon_clear_recent: bool,
    idle: bool,
    interactive: bool,
    idle_checks: u32,
    longer: u32,
    checks_required: u32,
    now: Moment,
)
    requires
        idle_checks <= longer,
    ensures
        ({
            let due = resume_due(
                tokens,
                fresh_min_tokens,
                cleared,
                window_secs,
                prompted_for,
                daemon_clear_recent,
                idle,
                interactive,
                idle_checks,
                checks_required,
                now,
            );
            &&& window_secs == 0 || cleared is None || prompted_for == cleared ==> !due
            &&& tokens >= fresh_min_tokens || daemon_clear_recent || !idle || interactive ==> !due
            &&& !time::elapsed_under(cleared, now, window_secs as int) || idle_checks
                < checks_required ==> !due
            &&& window_secs > 0 && prompted_for != cleared && tokens < fresh_min_tokens
                && !daemon_clear_recent && idle && !interactive && time::elapsed_under(
                cleared,
                now,
                window_secs as int,
            ) && idle_checks >= checks_required ==> due
            &&& due ==> resume_due(
                tokens,
                fresh_min_tokens,
                cleared,
                window_secs,
                prompted_for,
                daemon_clear_recent,
                idle,
                interactive,
                longer,
                checks_required,
                now,
            )
        }),
{
}

} // verus!
