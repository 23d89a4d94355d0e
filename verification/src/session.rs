//! The session itself: whether it runs, has died, was restarted or is fresh.
use crate::config::{Config, NamesConfig};
use crate::fresh_clear::stamp_check;
use crate::liveness;
use crate::liveness::{dead_process_restart_suppressed_at, fresh_inject_due, should_self_heal};
use crate::state::{State, StateView};
use crate::suppression;
use crate::suppression::{
    record_suppression, reset_suppression, should_escalate_suppression_at, EscalationReason,
};
use crate::text::text_eq;
use crate::time;
use crate::time::{as_opt_str, stamp_at_least, stamp_under, Moment};
use crate::tokens;
use crate::tokens::{carry_forward_token_misparse, MISPARSE_CARRY_MAX};
use crate::watcher_health::copy_opt;
use vstd::prelude::*;

verus! {

/// Seconds after which a prompt that woke nobody no longer counts.
pub const FRESH_INJECT_EXPIRY_SECS: u64 = 300;

/// The prompt of the fresh session was sent at least five minutes ago.
pub open spec fn inject_expired(s: StateView, now: Moment) -> bool {
    time::elapsed_at_least(s.last_fresh_inject, now, FRESH_INJECT_EXPIRY_SECS as int)
}

/// The state in which a fresh session counts as not prompted.
pub open spec fn latch_cleared(s: StateView) -> StateView {
    StateView { fresh_session_injected: false, was_alive_since_inject: false, ..s }
}

fn clear_latch(state: &mut State)
    ensures
        final(state)@ == latch_cleared(old(state)@),
{
    proof {
        reveal(crate::state::state_view);
    }
    state.fresh_session_injected = false;
    state.was_alive_since_inject = false;
}

/// The state after a cycle that found no session at all. A prompted session that
/// was alive since, or whose prompt has expired, may be prompted again.
pub open spec fn absent_next(s: StateView, stamp: Seq<char>, now: Moment) -> StateView {
    let released = if s.fresh_session_injected && (s.was_alive_since_inject || inject_expired(
        s,
        now,
    )) {
        latch_cleared(s)
    } else {
        s
    };
    StateView { last_check: Some(stamp), consecutive_failures: 0, ..released }
}

fn end_without_failure(state: &mut State, stamp: &str)
    ensures
        final(state)@ == (StateView {
            last_check: Some(stamp@),
            consecutive_failures: 0,
            ..old(state)@
        }),
{
    proof {
        reveal(crate::state::state_view);
    }
    state.last_check = Some(stamp.to_owned());
    state.consecutive_failures = 0;
}

/// Takes note of a cycle that found no session at all.
pub fn note_session_absent(state: &mut State, stamp: &str, now: Moment)
    ensures
        final(state)@ == absent_next(old(state)@, stamp@, now),
{
    proof {
        reveal(crate::state::state_view);
    }
    let release = state.fresh_session_injected && (state.was_alive_since_inject || stamp_at_least(
        as_opt_str(&state.last_fresh_inject),
        now,
        FRESH_INJECT_EXPIRY_SECS,
    ));
    release_latch(state, release);
    end_without_failure(state, stamp);
}

/// The state after a cycle that found no session but a wedged pane.
pub fn note_wedged_without_status(state: &mut State, pane: &str, stamp: &str)
    ensures
        final(state)@ == (StateView {
            last_known_pane: pane@,
            last_check: Some(stamp@),
            ..old(state)@
        }),
{
    proof {
        reveal(crate::state::state_view);
    }
    state.last_known_pane = pane.to_owned();
    state.last_check = Some(stamp.to_owned());
}

/// What is seen of a session that was restarted.
#[derive(Debug, Clone, Copy, PartialEq, Eq, Structural)]
pub struct RestartedObs {
    /// The session is shutting down.
    pub exit_teardown: bool,
    /// The permissions dialog shows.
    pub bypass_dialog: bool,
    /// A menu on the pane awaits an answer.
    pub interactive: bool,
    /// The pane is at the idle prompt.
    pub idle: bool,
}

/// What came of the look at a restarted session.
#[derive(Debug, Clone, Copy, PartialEq, Eq, Structural)]
pub enum RestartedOutcome {
    /// No restarted session waits for its prompt.
    NotApplicable,
    /// It is shutting down.
    Teardown,
    /// The permissions dialog is up; whether it is accepted from here.
    BypassDialog { accept: bool },
    /// A menu awaits an answer.
    Interactive,
    /// It is given its resume prompt.
    Inject,
    /// It is not idle yet.
    NotIdle,
}

/// What the look at a restarted session comes to. Every outcome but the first
/// ends the cycle.
pub open spec fn restarted_outcome(
    c: Config,
    s: StateView,
    pane: Seq<char>,
    tokens: u64,
    obs: RestartedObs,
) -> RestartedOutcome {
    if !s.pending_resume_inject || pane.len() == 0 || tokens == 0 {
        RestartedOutcome::NotApplicable
    } else if obs.exit_teardown {
        RestartedOutcome::Teardown
    } else if obs.bypass_dialog {
        RestartedOutcome::BypassDialog { accept: c.claude.handle_bypass_dialog }
    } else if obs.interactive {
        RestartedOutcome::Interactive
    } else if obs.idle {
        RestartedOutcome::Inject
    } else {
        RestartedOutcome::NotIdle
    }
}

/// The state after the look came to `outcome`.
pub open spec fn restarted_applied(
    s: StateView,
    outcome: RestartedOutcome,
    stamp: Seq<char>,
) -> StateView {
    match outcome {
        RestartedOutcome::NotApplicable => s,
        RestartedOutcome::Inject => StateView {
            pending_resume_inject: false,
            post_restart_resume_inject_interrupts_total:
                s.post_restart_resume_inject_interrupts_total.saturating_add(1),
            last_check: Some(stamp),
            ..s
        },
        _ => StateView { last_check: Some(stamp), ..s },
    }
}

fn note_restart_resume(state: &mut State, total: u64, stamp: &str)
    ensures
        final(state)@ == (StateView {
            pending_resume_inject: false,
            post_restart_resume_inject_interrupts_total: total,
            last_check: Some(stamp@),
            ..old(state)@
        }),
{
    proof {
        reveal(crate::state::state_view);
    }
    state.pending_resume_inject = false;
    state.post_restart_resume_inject_interrupts_total = total;
    state.last_check = Some(stamp.to_owned());
}

/// Looks at a session that was restarted and waits for its resume prompt.
pub fn post_restart_step(
    config: &Config,
    state: &mut State,
    pane: &str,
    tokens: u64,
    obs: RestartedObs,
    stamp: &str,
) -> (r: RestartedOutcome)
    ensures
        r == restarted_outcome(*config, old(state)@, pane@, tokens, obs),
        final(state)@ == restarted_applied(old(state)@, r, stamp@),
{
    proof {
        reveal(crate::state::state_view);
    }
    if !state.pending_resume_inject || pane.is_empty() || tokens == 0 {
        return RestartedOutcome::NotApplicable;
    }
    if obs.exit_teardown {
        stamp_check(state, stamp);
        return RestartedOutcome::Teardown;
    }
    if obs.bypass_dialog {
        stamp_check(state, stamp);
        return RestartedOutcome::BypassDialog { accept: config.claude.handle_bypass_dialog };
    }
    if obs.interactive {
        stamp_check(state, stamp);
        return RestartedOutcome::Interactive;
    }
    if obs.idle {
        let total: u64 = state.post_restart_resume_inject_interrupts_total.saturating_add(1);
        note_restart_resume(state, total, stamp);
        return RestartedOutcome::Inject;
    }
    stamp_check(state, stamp);
    RestartedOutcome::NotIdle
}

/// What the status line says.
#[derive(Debug, Clone)]
pub struct StatusReading {
    /// The pane it was read from; empty if it names none.
    pub pane: String,
    pub tokens: u64,
    pub bashes: u64,
    /// The pane to fall back on, if one was found.
    pub fallback_pane: Option<String>,
    /// Tokens of the context, from the session's own records.
    pub context_tokens: Option<u64>,
}

/// What the status line comes to, once readings that vanish for a moment are
/// bridged.
#[derive(Debug, Clone)]
pub struct CycleReading {
    /// The pane to go by; empty if there is none.
    pub pane: String,
    pub tokens: u64,
    pub context_tokens: u64,
    /// The pane is another one than before.
    pub pane_changed: bool,
}

/// Whether a pane has to be looked for: the status line names none, and shows no
/// sign of a session.
pub fn needs_fallback_pane(pane: &str, tokens: u64, bashes: u64) -> (r: bool)
    ensures
        r == (pane@.len() == 0 && tokens == 0 && bashes == 0),
{
    pane.is_empty() && tokens == 0 && bashes == 0
}

/// The token reading to go by, and the length of the carry run. Readings are
/// bridged within one pane only.
pub open spec fn bridged_tokens(c: Config, s: StateView, r: StatusReading) -> (u64, u32) {
    if r.pane@.len() > 0 && r.pane@ == s.last_known_pane {
        tokens::carried(
            r.tokens,
            s.last_known_tokens,
            s.token_carry_count,
            c.fresh_clear.max_tokens,
            MISPARSE_CARRY_MAX,
        )
    } else {
        (r.tokens, 0)
    }
}

/// The pane to go by.
pub open spec fn effective_pane(r: StatusReading, tokens: u64) -> Seq<char> {
    if r.pane@.len() == 0 && tokens == 0 && r.bashes == 0 {
        match r.fallback_pane {
            Some(p) => p@,
            None => Seq::empty(),
        }
    } else {
        r.pane@
    }
}

/// The tokens of the context: the session's own records, if they hold any, else
/// the reading.
pub open spec fn context_reading(records: Option<u64>, tokens: u64) -> u64 {
    match records {
        Some(t) if t > 0 => t,
        _ => tokens,
    }
}

/// The session has moved to another pane.
pub open spec fn pane_moved(s: StateView, pane: Seq<char>) -> bool {
    pane.len() > 0 && s.last_known_pane.len() > 0 && pane != s.last_known_pane
}

/// The state after the status line was read. Another pane is another session:
/// whatever is known of prompts and dead cycles is dropped.
pub open spec fn status_noted(c: Config, s: StateView, r: StatusReading, stamp: Seq<char>) -> StateView {
    let (tokens, carry) = bridged_tokens(c, s, r);
    let pane = effective_pane(r, tokens);
    let context = context_reading(r.context_tokens, tokens);
    let moved = pane_moved(s, pane);
    StateView {
        token_carry_count: carry,
        fresh_session_injected: s.fresh_session_injected && !moved,
        was_alive_since_inject: s.was_alive_since_inject && !moved,
        consecutive_dead_checks: if moved {
            0
        } else {
            s.consecutive_dead_checks
        },
        last_known_pane: pane,
        last_known_tokens: if context > 0 {
            context
        } else {
            s.last_known_tokens
        },
        last_known_bashes: if r.bashes > 0 || tokens > 0 {
            r.bashes
        } else {
            s.last_known_bashes
        },
        last_active_at: if r.bashes > 0 {
            Some(stamp)
        } else {
            s.last_active_at
        },
        ..s
    }
}

fn pick_pane(r: &StatusReading, tokens: u64) -> (p: String)
    ensures
        p@ == effective_pane(*r, tokens),
{
    if needs_fallback_pane(r.pane.as_str(), tokens, r.bashes) {
        match &r.fallback_pane {
            Some(p) => p.clone(),
            None => String::new(),
        }
    } else {
        r.pane.clone()
    }
}

/// The tokens of the context; see [`context_reading`].
pub fn context_tokens_of(records: Option<u64>, tokens: u64) -> (r: u64)
    ensures
        r == context_reading(records, tokens),
{
    match records {
        Some(t) => if t > 0 {
            t
        } else {
            tokens
        },
        None => tokens,
    }
}

fn bridge_tokens(config: &Config, state: &State, r: &StatusReading) -> (b: (u64, u32))
    ensures
        b == bridged_tokens(*config, state@, *r),
{
    proof {
        reveal(crate::state::state_view);
    }
    if !r.pane.as_str().is_empty() && text_eq(r.pane.as_str(), state.last_known_pane.as_str()) {
        carry_forward_token_misparse(
            r.tokens,
            state.last_known_tokens,
            state.token_carry_count,
            config.fresh_clear.max_tokens,
            MISPARSE_CARRY_MAX,
        )
    } else {
        (r.tokens, 0)
    }
}

fn set_last_known(
    state: &mut State,
    carry: u32,
    pane: String,
    tokens: u64,
    bashes: u64,
    active_at: Option<String>,
)
    ensures
        final(state)@ == (StateView {
            token_carry_count: carry,
            last_known_pane: pane@,
            last_known_tokens: tokens,
            last_known_bashes: bashes,
            last_active_at: time::opt_string_view(active_at),
            ..old(state)@
        }),
{
    proof {
        reveal(crate::state::state_view);
    }
    state.token_carry_count = carry;
    state.last_known_pane = pane;
    state.last_known_tokens = tokens;
    state.last_known_bashes = bashes;
    state.last_active_at = active_at;
}

fn set_prompt_latch(state: &mut State, injected: bool, was_alive: bool, dead_checks: u32)
    ensures
        final(state)@ == (StateView {
            fresh_session_injected: injected,
            was_alive_since_inject: was_alive,
            consecutive_dead_checks: dead_checks,
            ..old(state)@
        }),
{
    proof {
        reveal(crate::state::state_view);
    }
    state.fresh_session_injected = injected;
    state.was_alive_since_inject = was_alive;
    state.consecutive_dead_checks = dead_checks;
}

/// What the state is to hold once the status line is read.
struct StatusUpdate {
    carry: u32,
    injected: bool,
    was_alive: bool,
    dead_checks: u32,
    tokens: u64,
    bashes: u64,
    active_at: Option<String>,
}

fn digest_status(config: &Config, state: &State, reading: &StatusReading, stamp: &str) -> (r: (
    CycleReading,
    StatusUpdate,
))
    ensures
        r.0.tokens == bridged_tokens(*config, state@, *reading).0,
        r.0.pane@ == effective_pane(*reading, r.0.tokens),
        r.0.context_tokens == context_reading(reading.context_tokens, r.0.tokens),
        r.0.pane_changed == pane_moved(state@, r.0.pane@),
        status_noted(*config, state@, *reading, stamp@) == (StateView {
            token_carry_count: r.1.carry,
            fresh_session_injected: r.1.injected,
            was_alive_since_inject: r.1.was_alive,
            consecutive_dead_checks: r.1.dead_checks,
            last_known_pane: r.0.pane@,
            last_known_tokens: r.1.tokens,
            last_known_bashes: r.1.bashes,
            last_active_at: time::opt_string_view(r.1.active_at),
            ..state@
        }),
{
    proof {
        reveal(crate::state::state_view);
    }
    let (tokens, carry) = bridge_tokens(config, state, reading);
    let pane = pick_pane(reading, tokens);
    let context: u64 = context_tokens_of(reading.context_tokens, tokens);
    let moved = !pane.as_str().is_empty() && !state.last_known_pane.as_str().is_empty() && !text_eq(
        pane.as_str(),
        state.last_known_pane.as_str(),
    );
    let update = StatusUpdate {
        carry,
        injected: state.fresh_session_injected && !moved,
        was_alive: state.was_alive_since_inject && !moved,
        dead_checks: if moved {
            0
        } else {
            state.consecutive_dead_checks
        },
        tokens: if context > 0 {
            context
        } else {
            state.last_known_tokens
        },
        bashes: if reading.bashes > 0 || tokens > 0 {
            reading.bashes
        } else {
            state.last_known_bashes
        },
        active_at: if reading.bashes > 0 {
            Some(stamp.to_owned())
        } else {
            copy_opt(&state.last_active_at)
        },
    };
    (CycleReading { pane, tokens, context_tokens: context, pane_changed: moved }, update)
}

/// Takes note of the status line.
pub fn note_status(config: &Config, state: &mut State, reading: &StatusReading, stamp: &str) -> (r:
    CycleReading)
    ensures
        final(state)@ == status_noted(*config, old(state)@, *reading, stamp@),
        r.tokens == bridged_tokens(*config, old(state)@, *reading).0,
        r.pane@ == effective_pane(*reading, r.tokens),
        r.context_tokens == context_reading(reading.context_tokens, r.tokens),
        r.pane_changed == pane_moved(old(state)@, r.pane@),
{
    let (result, u) = digest_status(config, state, reading, stamp);
    set_prompt_latch(state, u.injected, u.was_alive, u.dead_checks);
    set_last_known(state, u.carry, result.pane.clone(), u.tokens, u.bashes, u.active_at);
    result
}

/// The state with a session that shows signs of life.
pub open spec fn alive_noted(s: StateView) -> StateView {
    StateView {
        consecutive_dead_checks: 0,
        was_alive_since_inject: s.was_alive_since_inject || s.fresh_session_injected,
        fresh_session_injected: false,
        ..s
    }
}

/// Takes note that the session shows signs of life: it has taken up its prompt.
pub fn note_session_alive(state: &mut State)
    ensures
        final(state)@ == alive_noted(old(state)@),
{
    proof {
        reveal(crate::state::state_view);
    }
    let was_alive = state.was_alive_since_inject || state.fresh_session_injected;
    state.consecutive_dead_checks = 0;
    state.was_alive_since_inject = was_alive;
    state.fresh_session_injected = false;
}

/// Whether the cycle saw neither tokens nor shells on a pane.
pub fn looks_dead(pane: &str, tokens: u64, bashes: u64) -> (r: bool)
    ensures
        r == (tokens == 0 && bashes == 0 && pane@.len() > 0),
{
    tokens == 0 && bashes == 0 && !pane.is_empty()
}

/// Counts one more dead cycle; the result is their number in a row.
pub fn note_dead_check(state: &mut State) -> (r: u32)
    requires
        old(state)@.consecutive_dead_checks < u32::MAX,
    ensures
        r == old(state)@.consecutive_dead_checks + 1,
        final(state)@ == (StateView { consecutive_dead_checks: r, ..old(state)@ }),
{
    proof {
        reveal(crate::state::state_view);
    }
    let n: u32 = state.consecutive_dead_checks + 1;
    state.consecutive_dead_checks = n;
    n
}

/// A second look at the status line.
#[derive(Debug, Clone)]
pub struct RetryStatus {
    pub pane: String,
    pub tokens: u64,
    pub bashes: u64,
    /// Tokens of the context, from the session's own records.
    pub context_tokens: Option<u64>,
}

/// A second look finds the session alive after all.
pub open spec fn heals(c: Config, s: StateView, retry: RetryStatus) -> bool {
    s.consecutive_dead_checks >= c.dead_process.checks_required && (retry.tokens > 0
        || retry.bashes > 0)
}

/// The state after a second look that found the session alive.
pub open spec fn healed(s: StateView, retry: RetryStatus, stamp: Seq<char>) -> StateView {
    let context = context_reading(retry.context_tokens, retry.tokens);
    StateView {
        last_known_pane: retry.pane@,
        last_known_tokens: if context > 0 {
            context
        } else {
            s.last_known_tokens
        },
        last_known_bashes: retry.bashes,
        last_check: Some(stamp),
        ..alive_noted(s)
    }
}

fn set_healed(state: &mut State, pane: String, tokens: u64, bashes: u64, stamp: &str)
    ensures
        final(state)@ == (StateView {
            last_known_pane: pane@,
            last_known_tokens: tokens,
            last_known_bashes: bashes,
            last_check: Some(stamp@),
            ..old(state)@
        }),
{
    proof {
        reveal(crate::state::state_view);
    }
    state.last_known_pane = pane;
    state.last_known_tokens = tokens;
    state.last_known_bashes = bashes;
    state.last_check = Some(stamp.to_owned());
}

/// Takes a second look at a session that counts as dead. If that finds it alive
/// the cycle ends.
pub fn self_heal_step(config: &Config, state: &mut State, retry: &RetryStatus, stamp: &str) -> (r:
    bool)
    ensures
        r == heals(*config, old(state)@, *retry),
        final(state)@ == (if r {
            healed(old(state)@, *retry, stamp@)
        } else {
            old(state)@
        }),
{
    proof {
        reveal(crate::state::state_view);
    }
    if !should_self_heal(
        state.consecutive_dead_checks,
        config.dead_process.checks_required,
        retry.tokens,
        retry.bashes,
    ) {
        return false;
    }
    let context: u64 = context_tokens_of(retry.context_tokens, retry.tokens);
    let known_tokens: u64 = if context > 0 {
        context
    } else {
        state.last_known_tokens
    };
    note_session_alive(state);
    set_healed(state, retry.pane.clone(), known_tokens, retry.bashes, stamp);
    true
}

/// What is seen of a session that looks dead.
#[derive(Debug, Clone, Copy, PartialEq, Eq, Structural)]
pub struct DeadObs {
    /// The pane is at a shell prompt.
    pub shell_prompt: bool,
    /// The pane shows live work.
    pub active_ui: bool,
    /// A clear driven from here is under way.
    pub clear_in_progress: bool,
    /// A clear driven from here has just been handed over.
    pub handoff_recent: bool,
    /// The pane is at the session's idle prompt.
    pub idle: bool,
    /// A menu on the pane awaits an answer.
    pub interactive: bool,
}

/// What is done about a session that looks dead. Every outcome ends the cycle.
#[derive(Debug, Clone, Copy, PartialEq, Eq, Structural)]
pub enum DeadOutcome {
    /// Not seen often enough yet.
    Counting,
    /// The last restart was a moment ago.
    RestartCooldown,
    /// The session was at work a moment ago: it is not restarted.
    HeldByActivity,
    /// The session is restarted, perhaps by force.
    Restart { forced: Option<EscalationReason> },
    /// A fresh session is given its prompt.
    FreshInject,
    /// The session may be starting up.
    StartingUp,
}

/// The prompt of a fresh session no longer counts: the session was alive since
/// and has died, or the prompt has expired without effect and no large context
/// was seen.
pub open spec fn latch_releases(c: Config, s: StateView, now: Moment) -> bool {
    s.fresh_session_injected && (s.was_alive_since_inject || (inject_expired(s, now)
        && s.last_known_tokens < c.fresh_clear.max_tokens))
}

/// A fresh session is due its prompt.
pub open spec fn fresh_prompt_due(c: Config, s: StateView, obs: DeadObs, now: Moment) -> bool {
    !obs.active_ui && !obs.clear_in_progress && !obs.handoff_recent && s.consecutive_dead_checks
        >= c.dead_process.fresh_inject_checks && (!s.fresh_session_injected || latch_releases(
        c,
        s,
        now,
    )) && obs.idle && !obs.interactive
}

/// What is done about a session that looks dead.
pub open spec fn dead_outcome(
    c: Config,
    s: StateView,
    bashes: u64,
    obs: DeadObs,
    now: Moment,
) -> DeadOutcome {
    let forced = suppression::escalation(
        s,
        c.suppression.max_consecutive_suppressions,
        c.suppression.max_suppression_window_secs,
        now,
    );
    if s.consecutive_dead_checks < c.dead_process.checks_required {
        DeadOutcome::Counting
    } else if time::elapsed_under(s.last_restart, now, c.dead_process.restart_cooldown as int) {
        DeadOutcome::RestartCooldown
    } else if obs.shell_prompt {
        if liveness::held_by_activity(
            s,
            bashes,
            c.dead_process.suppress_when_active,
            c.dead_process.active_window_secs,
            now,
        ) && forced is None {
            DeadOutcome::HeldByActivity
        } else {
            DeadOutcome::Restart { forced }
        }
    } else if fresh_prompt_due(c, s, obs, now) {
        DeadOutcome::FreshInject
    } else {
        DeadOutcome::StartingUp
    }
}

/// The state after a session that looks dead was dealt with.
pub open spec fn dead_applied(
    c: Config,
    s: StateView,
    outcome: DeadOutcome,
    stamp: Seq<char>,
    now: Moment,
) -> StateView {
    let released = if outcome != DeadOutcome::Counting && latch_releases(c, s, now) {
        latch_cleared(s)
    } else {
        s
    };
    match outcome {
        DeadOutcome::HeldByActivity => StateView {
            consecutive_dead_checks: 0,
            last_check: Some(stamp),
            ..suppression::suppression_recorded(released, stamp)
        },
        DeadOutcome::Restart { .. } => StateView {
            consecutive_dead_checks: 0,
            consecutive_failures: 0,
            alert_count: 0,
            last_check: Some(stamp),
            ..suppression::suppression_cleared(released)
        },
        DeadOutcome::FreshInject => StateView {
            fresh_session_injected: true,
            was_alive_since_inject: false,
            consecutive_dead_checks: 0,
            fresh_session_inject_interrupts_total:
                s.fresh_session_inject_interrupts_total.saturating_add(1),
            last_check: Some(stamp),
            ..released
        },
        _ => StateView { last_check: Some(stamp), ..released },
    }
}

fn does_latch_release(config: &Config, state: &State, now: Moment) -> (r: bool)
    ensures
        r == latch_releases(*config, state@, now),
{
    proof {
        reveal(crate::state::state_view);
    }
    state.fresh_session_injected && (state.was_alive_since_inject || (stamp_at_least(
        as_opt_str(&state.last_fresh_inject),
        now,
        FRESH_INJECT_EXPIRY_SECS,
    ) && state.last_known_tokens < config.fresh_clear.max_tokens))
}

fn decide_dead(config: &Config, state: &State, bashes: u64, obs: &DeadObs, now: Moment) -> (r:
    DeadOutcome)
    ensures
        r == dead_outcome(*config, state@, bashes, *obs, now),
{
    proof {
        reveal(crate::state::state_view);
    }
    if state.consecutive_dead_checks < config.dead_process.checks_required {
        return DeadOutcome::Counting;
    }
    if stamp_under(as_opt_str(&state.last_restart), now, config.dead_process.restart_cooldown) {
        return DeadOutcome::RestartCooldown;
    }
    if obs.shell_prompt {
        let active = dead_process_restart_suppressed_at(
            state,
            bashes,
            config.dead_process.suppress_when_active,
            config.dead_process.active_window_secs,
            now,
        );
        let forced = should_escalate_suppression_at(
            state,
            config.suppression.max_consecutive_suppressions,
            config.suppression.max_suppression_window_secs,
            now,
        );
        return if active && forced.is_none() {
            DeadOutcome::HeldByActivity
        } else {
            DeadOutcome::Restart { forced }
        };
    }
    let injected = state.fresh_session_injected && !does_latch_release(config, state, now);
    if !obs.active_ui && !obs.clear_in_progress && !obs.handoff_recent && fresh_inject_due(
        state.consecutive_dead_checks,
        config.dead_process.fresh_inject_checks,
        injected,
        obs.idle,
        obs.interactive,
    ) {
        DeadOutcome::FreshInject
    } else {
        DeadOutcome::StartingUp
    }
}

fn end_dead_run(state: &mut State, stamp: &str)
    ensures
        final(state)@ == (StateView {
            consecutive_dead_checks: 0,
            last_check: Some(stamp@),
            ..old(state)@
        }),
{
    proof {
        reveal(crate::state::state_view);
    }
    state.consecutive_dead_checks = 0;
    state.last_check = Some(stamp.to_owned());
}

fn drop_failures(state: &mut State)
    ensures
        final(state)@ == (StateView { consecutive_failures: 0, alert_count: 0, ..old(state)@ }),
{
    proof {
        reveal(crate::state::state_view);
    }
    state.consecutive_failures = 0;
    state.alert_count = 0;
}

fn latch_inject(state: &mut State, stamp: &str)
    ensures
        final(state)@ == (StateView {
            fresh_session_injected: true,
            was_alive_since_inject: false,
            consecutive_dead_checks: 0,
            fresh_session_inject_interrupts_total:
                old(state)@.fresh_session_inject_interrupts_total.saturating_add(1),
            last_check: Some(stamp@),
            ..old(state)@
        }),
{
    proof {
        reveal(crate::state::state_view);
    }
    let total: u64 = state.fresh_session_inject_interrupts_total.saturating_add(1);
    state.fresh_session_injected = true;
    state.was_alive_since_inject = false;
    state.consecutive_dead_checks = 0;
    state.fresh_session_inject_interrupts_total = total;
    state.last_check = Some(stamp.to_owned());
}

fn release_latch(state: &mut State, release: bool)
    ensures
        final(state)@ == (if release {
            latch_cleared(old(state)@)
        } else {
            old(state)@
        }),
{
    if release {
        clear_latch(state);
    }
}

fn apply_dead(
    config: &Config,
    state: &mut State,
    outcome: DeadOutcome,
    stamp: &str,
    now: Moment,
)
    ensures
        final(state)@ == dead_applied(*config, old(state)@, outcome, stamp@, now),
{
    let release = outcome != DeadOutcome::Counting && does_latch_release(config, state, now);
    release_latch(state, release);
    match outcome {
        DeadOutcome::HeldByActivity => {
            record_suppression(state, stamp);
            end_dead_run(state, stamp);
        },
        DeadOutcome::Restart { .. } => {
            reset_suppression(state);
            drop_failures(state);
            end_dead_run(state, stamp);
        },
        DeadOutcome::FreshInject => {
            latch_inject(state, stamp);
        },
        _ => {
            stamp_check(state, stamp);
        },
    }
}

/// Deals with a session that looks dead. On [`DeadOutcome::Restart`] the session
/// is restarted, and [`note_restarted`] is called once that was done. On
/// [`DeadOutcome::FreshInject`] it is prompted, and [`note_fresh_injected`] is called then.
pub fn dead_session_step(
    config: &Config,
    state: &mut State,
    bashes: u64,
    obs: DeadObs,
    stamp: &str,
    now: Moment,
) -> (r: DeadOutcome)
    ensures
        r == dead_outcome(*config, old(state)@, bashes, obs, now),
        final(state)@ == dead_applied(*config, old(state)@, r, stamp@, now),
{
    let outcome = decide_dead(config, state, bashes, &obs, now);
    apply_dead(config, state, outcome, stamp, now);
    outcome
}

/// What a session is told that was restarted after a crash.
pub open spec fn restart_resume_text(names: NamesConfig) -> Seq<char> {
    "["@ + names.tag@ + "-RESUME] "@ + names.product@
        + " was restarted after a crash. All background task handles were lost. Run the full resume checklist at your configured resume-checklist path immediately."@
}

/// [`restart_resume_text`], executable.
pub fn restart_resume_prompt(names: &NamesConfig) -> (r: String)
    ensures
        r@ == restart_resume_text(*names),
{
    "[".to_owned().concat(names.tag.as_str()).concat("-RESUME] ").concat(
        names.product.as_str(),
    ).concat(
        " was restarted after a crash. All background task handles were lost. Run the full resume checklist at your configured resume-checklist path immediately.",
    )
}

/// What a session is told that is found fresh: that it has begun already, so that it neither
/// restarts nor clears itself again.
pub fn fresh_session_prompt() -> (r: &'static str)
    ensures
        r@
            == "You are a fresh session (already started/cleared) — do NOT restart or clear again. Run your session-start / resume checklist now to recover state and pick up pending work."@,
{
    "You are a fresh session (already started/cleared) — do NOT restart or clear again. Run your session-start / resume checklist now to recover state and pick up pending work."
}

/// Takes note of when a fresh session was prompted.
pub fn note_fresh_injected(state: &mut State, stamp: &str)
    ensures
        final(state)@ == (StateView { last_fresh_inject: Some(stamp@), ..old(state)@ }),
{
    proof {
        reveal(crate::state::state_view);
    }
    state.last_fresh_inject = Some(stamp.to_owned());
}

/// Takes note that the session was restarted; it still needs its resume prompt.
pub fn note_restarted(state: &mut State, stamp: &str)
    requires
        old(state)@.restart_count < u64::MAX,
    ensures
        final(state)@ == (StateView {
            last_restart: Some(stamp@),
            restart_count: (old(state)@.restart_count + 1) as u64,
            restart_claude_interrupts_total:
                old(state)@.restart_claude_interrupts_total.saturating_add(1),
            pending_resume_inject: true,
            ..old(state)@
        }),
{
    proof {
        reveal(crate::state::state_view);
    }
    let count: u64 = state.restart_count + 1;
    let total: u64 = state.restart_claude_interrupts_total.saturating_add(1);
    state.last_restart = Some(stamp.to_owned());
    state.restart_count = count;
    state.restart_claude_interrupts_total = total;
    state.pending_resume_inject = true;
}

/// A prompt that woke nobody is not repeated right away: until it has expired, a
/// session that was never alive since is not prompted again.
pub proof fn no_inject_loop(
    c: Config,
    s: StateView,
    bashes: u64,
    obs: DeadObs,
    now: Moment,
)
    requires
        s.fresh_session_injected,
        !s.was_alive_since_inject,
        !inject_expired(s, now),
    ensures
        dead_outcome(c, s, bashes, obs, now) != DeadOutcome::FreshInject,
        absent_next(s, seq![], now).fresh_session_injected,
{
}

/// A session that took up its prompt and then died may be prompted again.
pub proof fn died_session_may_be_prompted(
    c: Config,
    s: StateView,
    stamp: Seq<char>,
    now: Moment,
)
    requires
        s.fresh_session_injected,
        s.was_alive_since_inject,
    ensures
        latch_releases(c, s, now),
        !absent_next(s, stamp, now).fresh_session_injected,
{
}

/// Another pane is another session: nothing is left of prompts and dead cycles.
pub proof fn pane_change_starts_over(c: Config, s: StateView, r: StatusReading, stamp: Seq<char>)
    requires
        pane_moved(s, effective_pane(r, bridged_tokens(c, s, r).0)),
    ensures
        ({
            let n = status_noted(c, s, r, stamp);
            &&& !n.fresh_session_injected
            &&& !n.was_alive_since_inject
            &&& n.consecutive_dead_checks == 0
        }),
{
}

/// A reading is never bridged across panes.
pub proof fn other_pane_is_not_bridged(c: Config, s: StateView, r: StatusReading)
    requires
        r.pane@ != s.last_known_pane,
    ensures
        bridged_tokens(c, s, r) == (r.tokens, 0u32),
{
}

/// A session is restarted only at a shell prompt, and one that waits at its own
/// prompt with a menu up is left alone.
pub proof fn restart_needs_a_shell(
    c: Config,
    s: StateView,
    bashes: u64,
    obs: DeadObs,
    now: Moment,
)
    ensures
        dead_outcome(c, s, bashes, obs, now) is Restart ==> obs.shell_prompt,
        obs.interactive ==> dead_outcome(c, s, bashes, obs, now) != DeadOutcome::FreshInject,
{
}

/// A restarted session is prompted only at a prompt of its own: not while it shuts down, not
/// into the consent dialog and not into a menu.
pub proof fn resume_waits_for_a_prompt(
    c: Config,
    s: StateView,
    pane: Seq<char>,
    tokens: u64,
    obs: RestartedObs,
)
    ensures
        restarted_outcome(c, s, pane, tokens, obs) == RestartedOutcome::Inject ==> obs.idle
            && !obs.exit_teardown && !obs.bypass_dialog && !obs.interactive,
{
}

/// A session that shows signs of work, or whose clear is on its way or was handed over a
/// moment ago, is not greeted as a fresh one.
pub proof fn working_session_is_not_greeted(
    c: Config,
    s: StateView,
    bashes: u64,
    obs: DeadObs,
    now: Moment,
)
    requires
        obs.active_ui || obs.clear_in_progress || obs.handoff_recent,
    ensures
        dead_outcome(c, s, bashes, obs, now) != DeadOutcome::FreshInject,
{
}

/// A pane that held a large context is not taken for one whose session died on startup: its
/// prompt is not repeated, however long ago it was.
pub proof fn large_context_is_greeted_once(
    c: Config,
    s: StateView,
    bashes: u64,
    obs: DeadObs,
    now: Moment,
)
    requires
        s.fresh_session_injected,
        !s.was_alive_since_inject,
        s.last_known_tokens >= c.fresh_clear.max_tokens,
    ensures
        dead_outcome(c, s, bashes, obs, now) != DeadOutcome::FreshInject,
{
}

/// A restarted session is looked at exactly while its prompt is owed and the status shows it
/// with tokens. It is prompted where it sits idle, with no shutdown, no consent dialog and no
/// menu; each of these stops the prompt, in this order, and the dialog is accepted only where
/// that is configured.
pub proof fn owed_prompt_is_given_at_the_first_chance(
    c: Config,
    s: StateView,
    pane: Seq<char>,
    tokens: u64,
    obs: RestartedObs,
)
    ensures
        ({
            let outcome = restarted_outcome(c, s, pane, tokens, obs);
            let owed = s.pending_resume_inject && pane.len() > 0 && tokens > 0;
            &&& outcome == RestartedOutcome::NotApplicable <==> !owed
            &&& outcome == RestartedOutcome::Teardown <==> owed && obs.exit_teardown
            &&& outcome == (RestartedOutcome::BypassDialog {
                accept: c.claude.handle_bypass_dialog,
            }) <==> owed && !obs.exit_teardown && obs.bypass_dialog
            &&& outcome == RestartedOutcome::Interactive <==> owed && !obs.exit_teardown
                && !obs.bypass_dialog && obs.interactive
            &&& outcome == RestartedOutcome::Inject <==> owed && !obs.exit_teardown
                && !obs.bypass_dialog && !obs.interactive && obs.idle
            &&& outcome == RestartedOutcome::NotIdle <==> owed && !obs.exit_teardown
                && !obs.bypass_dialog && !obs.interactive && !obs.idle
        }),
{
}

/// The prompt of a restarted session stays owed until it is given, and is then owed no more.
pub proof fn prompt_is_owed_until_given(s: StateView, outcome: RestartedOutcome, stamp: Seq<char>)
    ensures
        ({
            let n = restarted_applied(s, outcome, stamp);
            &&& n.pending_resume_inject == (s.pending_resume_inject && outcome
                != RestartedOutcome::Inject)
            &&& outcome == RestartedOutcome::Inject
                && s.post_restart_resume_inject_interrupts_total < u64::MAX
                ==> n.post_restart_resume_inject_interrupts_total
                == s.post_restart_resume_inject_interrupts_total + 1
            &&& outcome != RestartedOutcome::Inject
                ==> n.post_restart_resume_inject_interrupts_total
                == s.post_restart_resume_inject_interrupts_total
            &&& outcome == RestartedOutcome::NotApplicable ==> n == s
            &&& n.last_restart == s.last_restart
        }),
{
}

/// A zero reading is bridged with the last known one only on the same pane, after a large
/// reading, and at most three times in a row; any other reading stands, and a real one ends
/// the run.
pub proof fn vanished_reading_is_bridged_for_a_moment(c: Config, s: StateView, r: StatusReading)
    ensures
        ({
            let (tokens, carry) = bridged_tokens(c, s, r);
            let bridged = r.tokens == 0 && r.pane@.len() > 0 && r.pane@ == s.last_known_pane
                && s.last_known_tokens >= c.fresh_clear.max_tokens && s.token_carry_count < 3;
            &&& bridged ==> tokens == s.last_known_tokens && carry == s.token_carry_count + 1
            &&& !bridged ==> tokens == r.tokens
            &&& r.tokens > 0 ==> carry == 0
        }),
{
}

/// The pane to go by is the one that the status names; only where it names none and shows no
/// sign of a session, the one that was found instead.
pub proof fn status_names_the_pane(r: StatusReading, tokens: u64)
    ensures
        r.pane@.len() > 0 ==> effective_pane(r, tokens) == r.pane@,
        r.pane@.len() == 0 && (tokens > 0 || r.bashes > 0) ==> effective_pane(r, tokens).len() == 0,
        r.pane@.len() == 0 && tokens == 0 && r.bashes == 0 ==> (r.fallback_pane matches Some(p)
            ==> effective_pane(r, tokens) == p@) && (r.fallback_pane is None ==> effective_pane(
            r,
            tokens,
        ).len() == 0),
{
}

/// What the status line leaves behind: the pane and the larger figures that it shows, the
/// stamp of activity where a shell runs, and nothing of the last session's prompts and dead
/// cycles where the pane is another one.
pub proof fn status_is_remembered(c: Config, s: StateView, r: StatusReading, stamp: Seq<char>)
    ensures
        ({
            let n = status_noted(c, s, r, stamp);
            let tokens = bridged_tokens(c, s, r).0;
            let pane = effective_pane(r, tokens);
            let moved = pane.len() > 0 && s.last_known_pane.len() > 0 && pane != s.last_known_pane;
            &&& n.last_known_pane == pane
            &&& n.token_carry_count == bridged_tokens(c, s, r).1
            &&& r.bashes > 0 ==> n.last_active_at == Some(stamp) && n.last_known_bashes == r.bashes
            &&& r.bashes == 0 ==> n.last_active_at == s.last_active_at
            &&& r.bashes == 0 && tokens == 0 ==> n.last_known_bashes == s.last_known_bashes
            &&& r.bashes == 0 && tokens > 0 ==> n.last_known_bashes == 0
            &&& (r.context_tokens matches Some(t) && t > 0) ==> n.last_known_tokens
                == r.context_tokens->0
            &&& !(r.context_tokens matches Some(t) && t > 0) ==> n.last_known_tokens == (if tokens
                > 0 {
                tokens
            } else {
                s.last_known_tokens
            })
            &&& moved ==> !n.fresh_session_injected && !n.was_alive_since_inject
                && n.consecutive_dead_checks == 0
            &&& !moved ==> n.fresh_session_injected == s.fresh_session_injected
                && n.was_alive_since_inject == s.was_alive_since_inject
                && n.consecutive_dead_checks == s.consecutive_dead_checks
            &&& n.last_check == s.last_check && n.pending_resume_inject == s.pending_resume_inject
        }),
{
}

/// Signs of life end a run of dead cycles; a session that was prompted has then taken up its
/// prompt.
pub proof fn signs_of_life_end_the_dead_run(s: StateView)
    ensures
        alive_noted(s).consecutive_dead_checks == 0,
        !alive_noted(s).fresh_session_injected,
        alive_noted(s).was_alive_since_inject == (s.was_alive_since_inject
            || s.fresh_session_injected),
{
}

/// A second look heals a session exactly where it has looked dead often enough and now shows
/// tokens or shells; its pane and figures are then those of the second look.
pub proof fn second_look_heals(c: Config, s: StateView, retry: RetryStatus, stamp: Seq<char>)
    ensures
        heals(c, s, retry) <==> s.consecutive_dead_checks >= c.dead_process.checks_required && (
        retry.tokens > 0 || retry.bashes > 0),
        ({
            let n = healed(s, retry, stamp);
            &&& n.consecutive_dead_checks == 0
            &&& !n.fresh_session_injected
            &&& n.last_known_pane == retry.pane@
            &&& n.last_known_bashes == retry.bashes
            &&& n.last_check == Some(stamp)
            &&& (retry.context_tokens matches Some(t) && t > 0) ==> n.last_known_tokens
                == retry.context_tokens->0
            &&& !(retry.context_tokens matches Some(t) && t > 0) && retry.tokens > 0
                ==> n.last_known_tokens == retry.tokens
            &&& !(retry.context_tokens matches Some(t) && t > 0) && retry.tokens == 0
                ==> n.last_known_tokens == s.last_known_tokens
        }),
{
}

/// A session that looks dead is restarted exactly where it has looked so often enough, the
/// last restart is past its cooldown, the pane is at a shell, and activity does not hold the
/// restart back; activity holds it back only where it may, and only until the run of
/// suppressions has to end.
pub proof fn dead_session_is_restarted(
    c: Config,
    s: StateView,
    bashes: u64,
    obs: DeadObs,
    now: Moment,
)
    ensures
        ({
            let outcome = dead_outcome(c, s, bashes, obs, now);
            let seen = s.consecutive_dead_checks >= c.dead_process.checks_required;
            let cooling = time::elapsed_under(
                s.last_restart,
                now,
                c.dead_process.restart_cooldown as int,
            );
            let active = c.dead_process.suppress_when_active && (bashes > 0 || time::elapsed_under(
                s.last_active_at,
                now,
                c.dead_process.active_window_secs as int,
            ));
            let forced = suppression::escalation(
                s,
                c.suppression.max_consecutive_suppressions,
                c.suppression.max_suppression_window_secs,
                now,
            );
            &&& outcome == DeadOutcome::Counting <==> !seen
            &&& outcome == DeadOutcome::RestartCooldown <==> seen && cooling
            &&& outcome is Restart <==> seen && !cooling && obs.shell_prompt && (!active || forced
                is Some)
            &&& outcome matches DeadOutcome::Restart { forced: why } ==> why == forced
            &&& outcome == DeadOutcome::HeldByActivity <==> seen && !cooling && obs.shell_prompt
                && active && forced is None
        }),
{
}

/// A fresh session is prompted exactly where it has looked dead often enough for both, no
/// restart was a moment ago, it is not at a shell but idle at its own prompt with no menu up,
/// shows no work, no clear is under way or was handed over, and its prompt is not on record,
/// or no longer counts.
pub proof fn fresh_session_is_greeted(
    c: Config,
    s: StateView,
    bashes: u64,
    obs: DeadObs,
    now: Moment,
)
    ensures
        dead_outcome(c, s, bashes, obs, now) == DeadOutcome::FreshInject <==> {
            &&& s.consecutive_dead_checks >= c.dead_process.checks_required
            &&& s.consecutive_dead_checks >= c.dead_process.fresh_inject_checks
            &&& !time::elapsed_under(s.last_restart, now, c.dead_process.restart_cooldown as int)
            &&& !obs.shell_prompt
            &&& obs.idle
            &&& !obs.interactive
            &&& !obs.active_ui
            &&& !obs.clear_in_progress
            &&& !obs.handoff_recent
            &&& !s.fresh_session_injected || s.was_alive_since_inject || (time::elapsed_at_least(
                s.last_fresh_inject,
                now,
                300,
            ) && s.last_known_tokens < c.fresh_clear.max_tokens)
        },
{
}

/// What dealing with a session that looks dead leaves behind: a restart, a greeting and a
/// restart held back end the run of dead cycles, and nothing else does; a restart also ends the
/// failures, the alerts and the run of suppressions; one held back is counted in that run.
pub proof fn dead_session_is_on_record(
    c: Config,
    s: StateView,
    outcome: DeadOutcome,
    stamp: Seq<char>,
    now: Moment,
)
    ensures
        ({
            let n = dead_applied(c, s, outcome, stamp, now);
            &&& outcome is Restart || outcome == DeadOutcome::FreshInject || outcome
                == DeadOutcome::HeldByActivity ==> n.consecutive_dead_checks == 0
            &&& outcome == DeadOutcome::Counting || outcome == DeadOutcome::StartingUp || outcome
                == DeadOutcome::RestartCooldown ==> n.consecutive_dead_checks
                == s.consecutive_dead_checks && n.consecutive_suppressions
                == s.consecutive_suppressions
            &&& outcome is Restart ==> n.consecutive_failures == 0 && n.alert_count == 0
                && n.consecutive_suppressions == 0 && n.first_suppression_at is None
            &&& outcome == DeadOutcome::HeldByActivity && s.consecutive_suppressions < u32::MAX
                ==> n.consecutive_suppressions == s.consecutive_suppressions + 1
            &&& outcome == DeadOutcome::FreshInject ==> n.fresh_session_injected
                && !n.was_alive_since_inject
            &&& outcome == DeadOutcome::Counting ==> n.fresh_session_injected
                == s.fresh_session_injected
            &&& n.last_check == Some(stamp)
            &&& n.last_restart == s.last_restart
        }),
{
}

/// A cycle without a session clears the failures, and lets the next session be greeted where
/// the last one took up its prompt or its prompt is five minutes old; otherwise the prompt
/// stays on record.
pub proof fn absent_session_may_be_greeted_again(s: StateView, stamp: Seq<char>, now: Moment)
    ensures
        ({
            let n = absent_next(s, stamp, now);
            let released = s.fresh_session_injected && (s.was_alive_since_inject
                || time::elapsed_at_least(s.last_fresh_inject, now, 300));
            &&& n.consecutive_failures == 0
            &&& released ==> !n.fresh_session_injected && !n.was_alive_since_inject
            &&& !released ==> n.fresh_session_injected == s.fresh_session_injected
                && n.was_alive_since_inject == s.was_alive_since_inject
            &&& n.alert_count == s.alert_count
        }),
{
}

/// A session without tokens and shells looks dead where it has a pane, and is looked for
/// elsewhere where it has none; one with either is neither.
pub proof fn silent_session_is_dead_or_elsewhere(
    pane: &str,
    tokens: u64,
    bashes: u64,
    dead: bool,
    elsewhere: bool,
)
    requires
        call_ensures(looks_dead, (pane, tokens, bashes), dead),
        call_ensures(needs_fallback_pane, (pane, tokens, bashes), elsewhere),
    ensures
        dead || elsewhere <==> tokens == 0 && bashes == 0,
        dead ==> pane@.len() > 0,
        elsewhere ==> pane@.len() == 0,
{
}

} // verus!
