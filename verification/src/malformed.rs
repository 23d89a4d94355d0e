//! Tool calls that the session writes as plain text: told, then blocked, until they cease.
use crate::config::Config;
use crate::context;
use crate::context::malformed_detection_post_clear_at;
use crate::state::{State, StateView};
use crate::text::text_eq;
use crate::time;
use crate::time::{as_opt_str, stamp_under, Moment};
use vstd::prelude::*;
use vstd::string::StrSliceExecFns;

verus! {

/// What is seen of the session when malformed calls are looked for.
#[derive(Debug, Clone)]
pub struct MalformedObs {
    /// What marks the malformed call on the pane, where there is one.
    pub fingerprint: Option<String>,
    /// The token reading.
    pub tokens: u64,
    /// The pane shows live work.
    pub active_ui: bool,
    /// The session retries a request.
    pub api_retrying: bool,
}

/// What came of a look for malformed calls.
#[derive(Debug, Clone, Copy, PartialEq, Eq, Structural)]
pub enum MalformedOutcome {
    /// They are not looked for, or there is no pane.
    Off,
    /// There is none: an episode, if one ran, is over.
    Clean,
    /// There is one, not yet often enough in a row.
    Observed,
    /// A directive is due, but the session retries a request.
    HeldByRetry,
    /// A directive is due, but it went out for this very call.
    SameCall,
    /// A directive is due, but the last one is too recent.
    CoolingDown,
    /// A directive goes out.
    Told {
        /// Whether it is the firm one.
        hard_block: bool,
    },
}

/// What marks the malformed call, unless the pane may show what stood there before a clear.
pub open spec fn believed_fingerprint(s: StateView, obs: MalformedObs, now: Moment) -> Option<
    Seq<char>,
> {
    if context::post_clear_boundary(s, obs.tokens, obs.active_ui, now) {
        None
    } else {
        time::opt_string_view(obs.fingerprint)
    }
}

/// The episode has come to the firm directive.
pub open spec fn in_hard_block(config: Config, s: StateView) -> bool {
    s.malformed_tool_call_episode_nudges >= config.malformed_tool_call.escalate_after
}

/// What comes of a look for malformed calls.
pub open spec fn malformed_outcome(
    config: Config,
    s: StateView,
    pane: Seq<char>,
    obs: MalformedObs,
    now: Moment,
) -> MalformedOutcome {
    if !config.malformed_tool_call.enabled || pane.len() == 0 {
        MalformedOutcome::Off
    } else {
        match believed_fingerprint(s, obs, now) {
            None => MalformedOutcome::Clean,
            Some(fingerprint) => if s.malformed_tool_call_consecutive + 1
                < config.malformed_tool_call.consecutive {
                MalformedOutcome::Observed
            } else if obs.api_retrying {
                MalformedOutcome::HeldByRetry
            } else if s.last_malformed_fingerprint == Some(fingerprint) {
                MalformedOutcome::SameCall
            } else if !in_hard_block(config, s) && time::elapsed_under(
                s.last_malformed_nudge,
                now,
                config.malformed_tool_call.cooldown as int,
            ) {
                MalformedOutcome::CoolingDown
            } else {
                MalformedOutcome::Told { hard_block: in_hard_block(config, s) }
            },
        }
    }
}

/// The state once a malformed call was observed.
pub open spec fn call_observed(s: StateView) -> StateView {
    StateView {
        malformed_tool_call_consecutive: (s.malformed_tool_call_consecutive + 1) as u32,
        ..s
    }
}

/// The state once a directive has gone out.
pub open spec fn directive_sent(
    s: StateView,
    fingerprint: Seq<char>,
    hard_block: bool,
    stamp: Seq<char>,
) -> StateView {
    let told = StateView {
        last_malformed_fingerprint: Some(fingerprint),
        last_malformed_nudge: Some(stamp),
        malformed_tool_call_nudge_count: s.malformed_tool_call_nudge_count.saturating_add(1),
        last_interrupt_at: Some(stamp),
        ..s
    };
    if hard_block {
        StateView {
            malformed_tool_call_hard_block_count: s.malformed_tool_call_hard_block_count.saturating_add(
            1),
            ..told
        }
    } else {
        StateView {
            malformed_tool_call_episode_nudges: s.malformed_tool_call_episode_nudges.saturating_add(
                1,
            ),
            malformed_tool_call_consecutive: 0,
            ..told
        }
    }
}

/// The state once an episode is over.
pub open spec fn episode_over(s: StateView) -> StateView {
    StateView {
        malformed_tool_call_consecutive: 0,
        malformed_tool_call_episode_nudges: 0,
        last_malformed_fingerprint: None,
        ..s
    }
}

/// The state after a look for malformed calls.
pub open spec fn malformed_next(
    config: Config,
    s: StateView,
    pane: Seq<char>,
    obs: MalformedObs,
    stamp: Seq<char>,
    now: Moment,
) -> StateView {
    match malformed_outcome(config, s, pane, obs, now) {
        MalformedOutcome::Off => s,
        MalformedOutcome::Clean => episode_over(s),
        MalformedOutcome::Told { hard_block } => directive_sent(
            call_observed(s),
            obs.fingerprint->0@,
            hard_block,
            stamp,
        ),
        _ => call_observed(s),
    }
}

/// Decides about malformed calls.
fn decide_malformed(config: &Config, state: &State, pane: &str, obs: &MalformedObs, now: Moment) -> (r:
    MalformedOutcome)
    requires
        state@.malformed_tool_call_consecutive < u32::MAX,
    ensures
        r == malformed_outcome(*config, state@, pane@, *obs, now),
{
    proof {
        reveal(crate::state::state_view);
    }
    if !config.malformed_tool_call.enabled || pane.unicode_len() == 0 {
        return MalformedOutcome::Off;
    }
    if malformed_detection_post_clear_at(state, obs.tokens, obs.active_ui, now) {
        return MalformedOutcome::Clean;
    }
    let Some(fingerprint) = as_opt_str(&obs.fingerprint) else {
        return MalformedOutcome::Clean;
    };
    if state.malformed_tool_call_consecutive + 1 < config.malformed_tool_call.consecutive {
        return MalformedOutcome::Observed;
    }
    if obs.api_retrying {
        return MalformedOutcome::HeldByRetry;
    }
    if let Some(told) = as_opt_str(&state.last_malformed_fingerprint) {
        if text_eq(told, fingerprint) {
            return MalformedOutcome::SameCall;
        }
    }
    let hard_block = state.malformed_tool_call_episode_nudges
        >= config.malformed_tool_call.escalate_after;
    if !hard_block && stamp_under(
        as_opt_str(&state.last_malformed_nudge),
        now,
        config.malformed_tool_call.cooldown,
    ) {
        return MalformedOutcome::CoolingDown;
    }
    MalformedOutcome::Told { hard_block }
}

/// Counts an observation.
fn observe_call(state: &mut State)
    requires
        old(state)@.malformed_tool_call_consecutive < u32::MAX,
    ensures
        final(state)@ == call_observed(old(state)@),
{
    proof {
        reveal(crate::state::state_view);
    }
    state.malformed_tool_call_consecutive = state.malformed_tool_call_consecutive + 1;
}

/// Books a directive.
fn book_directive(state: &mut State, fingerprint: &str, stamp: &str)
    ensures
        final(state)@ == (StateView {
            last_malformed_fingerprint: Some(fingerprint@),
            last_malformed_nudge: Some(stamp@),
            malformed_tool_call_nudge_count: old(
                state,
            )@.malformed_tool_call_nudge_count.saturating_add(1),
            last_interrupt_at: Some(stamp@),
            ..old(state)@
        }),
{
    proof {
        reveal(crate::state::state_view);
    }
    state.last_malformed_fingerprint = Some(fingerprint.to_owned());
    state.last_malformed_nudge = Some(stamp.to_owned());
    state.malformed_tool_call_nudge_count = state.malformed_tool_call_nudge_count.saturating_add(1);
    state.last_interrupt_at = Some(stamp.to_owned());
}

/// Books which of the two directives it was.
fn book_phase(state: &mut State, hard_block: bool)
    ensures
        final(state)@ == (if hard_block {
            StateView {
                malformed_tool_call_hard_block_count: old(
                    state,
                )@.malformed_tool_call_hard_block_count.saturating_add(1),
                ..old(state)@
            }
        } else {
            StateView {
                malformed_tool_call_episode_nudges: old(
                    state,
                )@.malformed_tool_call_episode_nudges.saturating_add(1),
                malformed_tool_call_consecutive: 0,
                ..old(state)@
            }
        }),
{
    proof {
        reveal(crate::state::state_view);
    }
    if hard_block {
        state.malformed_tool_call_hard_block_count =
        state.malformed_tool_call_hard_block_count.saturating_add(1);
    } else {
        state.malformed_tool_call_episode_nudges =
        state.malformed_tool_call_episode_nudges.saturating_add(1);
        state.malformed_tool_call_consecutive = 0;
    }
}

/// Ends an episode.
fn end_episode(state: &mut State)
    ensures
        final(state)@ == episode_over(old(state)@),
{
    proof {
        reveal(crate::state::state_view);
    }
    state.malformed_tool_call_consecutive = 0;
    state.malformed_tool_call_episode_nudges = 0;
    state.last_malformed_fingerprint = None;
}

/// Looks for malformed calls, and decides whether a directive goes out.
pub fn malformed_step(
    config: &Config,
    state: &mut State,
    pane: &str,
    obs: &MalformedObs,
    stamp: &str,
    now: Moment,
) -> (r: MalformedOutcome)
    requires
        old(state)@.malformed_tool_call_consecutive < u32::MAX,
    ensures
        r == malformed_outcome(*config, old(state)@, pane@, *obs, now),
        final(state)@ == malformed_next(*config, old(state)@, pane@, *obs, stamp@, now),
{
    let outcome = decide_malformed(config, state, pane, obs, now);
    match outcome {
        MalformedOutcome::Off => {},
        MalformedOutcome::Clean => end_episode(state),
        MalformedOutcome::Told { hard_block } => {
            observe_call(state);
            if let Some(fingerprint) = as_opt_str(&obs.fingerprint) {
                book_directive(state, fingerprint, stamp);
                book_phase(state, hard_block);
            }
        },
        _ => observe_call(state),
    }
    outcome
}

/// A call that lingers on the pane is told once: as long as the same one is seen, no second
/// directive goes out for it.
pub proof fn a_call_is_told_once(
    config: Config,
    s: StateView,
    pane: Seq<char>,
    obs: MalformedObs,
    stamp: Seq<char>,
    now: Moment,
    later: MalformedObs,
    later_now: Moment,
)
    requires
        malformed_outcome(config, s, pane, obs, now) is Told,
        later.fingerprint matches Some(f) && f@ == obs.fingerprint->0@,
    ensures
        !(malformed_outcome(
            config,
            malformed_next(config, s, pane, obs, stamp, now),
            pane,
            later,
            later_now,
        ) is Told),
{
}

/// A clean cycle starts over: the episode's count is gone, and the same call would be told
/// again.
pub proof fn a_clean_cycle_starts_over(
    config: Config,
    s: StateView,
    pane: Seq<char>,
    obs: MalformedObs,
    stamp: Seq<char>,
    now: Moment,
)
    requires
        malformed_outcome(config, s, pane, obs, now) == MalformedOutcome::Clean,
    ensures
        ({
            let n = malformed_next(config, s, pane, obs, stamp, now);
            &&& n.malformed_tool_call_consecutive == 0
            &&& n.malformed_tool_call_episode_nudges == 0
            &&& n.last_malformed_fingerprint is None
        }),
{
}

/// The firm directive waits for no cooldown, and keeps the run of observations: a new call
/// in the next cycle is told at once.
pub proof fn hard_block_tells_every_new_call(
    config: Config,
    s: StateView,
    pane: Seq<char>,
    obs: MalformedObs,
    stamp: Seq<char>,
    now: Moment,
    later: MalformedObs,
    later_now: Moment,
)
    requires
        s.malformed_tool_call_consecutive < u32::MAX,
        malformed_outcome(config, s, pane, obs, now) == (MalformedOutcome::Told {
            hard_block: true,
        }),
        !context::post_clear_boundary(
            malformed_next(config, s, pane, obs, stamp, now),
            later.tokens,
            later.active_ui,
            later_now,
        ),
        !later.api_retrying,
        later.fingerprint matches Some(f) && f@ != obs.fingerprint->0@,
    ensures
        malformed_outcome(
            config,
            malformed_next(config, s, pane, obs, stamp, now),
            pane,
            later,
            later_now,
        ) == (MalformedOutcome::Told { hard_block: true }),
{
}

/// A directive goes out exactly where a malformed call shows that is no remnant of a clear, it
/// was seen for the required checks in a row, the session retries nothing, it is another than
/// the one last told, and the last directive is past its cooldown, which the firm one does not
/// wait for.
pub proof fn new_malformed_call_is_told(
    config: Config,
    s: StateView,
    pane: Seq<char>,
    obs: MalformedObs,
    now: Moment,
)
    ensures
        ({
            let outcome = malformed_outcome(config, s, pane, obs, now);
            let on = config.malformed_tool_call.enabled && pane.len() > 0;
            let remnant = !obs.active_ui && (obs.tokens < 30000 || time::elapsed_under(
                s.last_context_clear,
                now,
                60,
            ));
            let shows = on && obs.fingerprint is Some && !remnant;
            let often = s.malformed_tool_call_consecutive + 1
                >= config.malformed_tool_call.consecutive;
            let same = s.last_malformed_fingerprint == Some(obs.fingerprint->0@);
            let firm = s.malformed_tool_call_episode_nudges
                >= config.malformed_tool_call.escalate_after;
            let cooling = time::elapsed_under(
                s.last_malformed_nudge,
                now,
                config.malformed_tool_call.cooldown as int,
            );
            let due = shows && often && !obs.api_retrying;
            &&& outcome == MalformedOutcome::Off <==> !on
            &&& outcome == MalformedOutcome::Clean <==> on && (obs.fingerprint is None || remnant)
            &&& outcome == MalformedOutcome::Observed <==> shows && !often
            &&& outcome == MalformedOutcome::HeldByRetry <==> shows && often && obs.api_retrying
            &&& outcome == MalformedOutcome::SameCall <==> due && same
            &&& outcome == MalformedOutcome::CoolingDown <==> due && !same && !firm && cooling
            &&& outcome == (MalformedOutcome::Told { hard_block: true }) <==> due && !same && firm
            &&& outcome == (MalformedOutcome::Told { hard_block: false }) <==> due && !same && !firm
                && !cooling
        }),
{
}

/// What a look for malformed calls leaves behind: observations count in a row; a directive
/// leaves its stamp and the call that it was for; a mild one counts towards the firm one and
/// starts the row over, a firm one has a count of its own.
pub proof fn malformed_look_is_on_record(
    config: Config,
    s: StateView,
    pane: Seq<char>,
    obs: MalformedObs,
    stamp: Seq<char>,
    now: Moment,
)
    requires
        s.malformed_tool_call_consecutive < u32::MAX,
        s.malformed_tool_call_episode_nudges < u32::MAX,
        s.malformed_tool_call_nudge_count < u64::MAX,
        s.malformed_tool_call_hard_block_count < u64::MAX,
    ensures
        ({
            let outcome = malformed_outcome(config, s, pane, obs, now);
            let n = malformed_next(config, s, pane, obs, stamp, now);
            let mild = outcome == (MalformedOutcome::Told { hard_block: false });
            let firm = outcome == (MalformedOutcome::Told { hard_block: true });
            &&& outcome == MalformedOutcome::Off ==> n == s
            &&& mild || firm ==> n.last_malformed_nudge == Some(stamp) && n.last_interrupt_at
                == Some(stamp) && n.last_malformed_fingerprint == Some(obs.fingerprint->0@)
                && n.malformed_tool_call_nudge_count == s.malformed_tool_call_nudge_count + 1
            &&& !mild && !firm ==> n.last_malformed_nudge == s.last_malformed_nudge
                && n.last_interrupt_at == s.last_interrupt_at && n.malformed_tool_call_nudge_count
                == s.malformed_tool_call_nudge_count
            &&& mild ==> n.malformed_tool_call_episode_nudges
                == s.malformed_tool_call_episode_nudges + 1 && n.malformed_tool_call_consecutive
                == 0
            &&& firm ==> n.malformed_tool_call_hard_block_count
                == s.malformed_tool_call_hard_block_count + 1 && n.malformed_tool_call_consecutive
                == s.malformed_tool_call_consecutive + 1 && n.malformed_tool_call_episode_nudges
                == s.malformed_tool_call_episode_nudges
            &&& !firm ==> n.malformed_tool_call_hard_block_count
                == s.malformed_tool_call_hard_block_count
            &&& outcome == MalformedOutcome::Observed || outcome == MalformedOutcome::HeldByRetry
                || outcome == MalformedOutcome::SameCall || outcome == MalformedOutcome::CoolingDown
                ==> n.malformed_tool_call_consecutive == s.malformed_tool_call_consecutive + 1
                && n.malformed_tool_call_episode_nudges == s.malformed_tool_call_episode_nudges
                && n.last_malformed_fingerprint == s.last_malformed_fingerprint
        }),
{
}

} // verus!
