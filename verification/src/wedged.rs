//! Wedged panes: a session that can no longer run a single tool call is cleared
//! from outside.
use crate::config::{Config, ContextMonitorConfig, NamesConfig};
use crate::state::{State, StateView};
use crate::time;
use crate::time::{as_opt_str, stamp_under, Moment};
use vstd::prelude::*;
use vstd::string::StringExecFns;

verus! {

/// What a look at the pane for a wedge banner came to.
#[derive(Debug, Clone, Copy, PartialEq, Eq, Structural)]
pub enum WedgeDecision {
    /// Wedge banners are not looked for, or there is no pane.
    Off,
    /// No banner shows; whether an earlier clear is thereby confirmed.
    Clear { confirmed: bool },
    /// A banner shows, not yet for long enough.
    Counting,
    /// A clear is due, but the session retries a request by itself.
    ApiRetry,
    /// A clear is due, but the last one was a moment ago.
    CoolingDown,
    /// The pane is cleared now; whether an earlier clear did not help.
    Recover { retry: bool },
}

impl WedgeDecision {
    /// A wedge banner shows.
    pub open spec fn wedged(self) -> bool {
        !(self is Off) && !(self is Clear)
    }

    /// Whether a wedge banner shows.
    pub fn is_wedged(self) -> (r: bool)
        ensures
            r == self.wedged(),
    {
        match self {
            WedgeDecision::Off => false,
            WedgeDecision::Clear { .. } => false,
            _ => true,
        }
    }
}

/// What a look at the pane comes to in state `s`.
pub open spec fn wedge_decision(
    c: ContextMonitorConfig,
    s: StateView,
    pane: Seq<char>,
    banner: bool,
    api_retrying: bool,
    now: Moment,
) -> WedgeDecision {
    if !c.wedged_detection_enabled || pane.len() == 0 {
        WedgeDecision::Off
    } else if !banner {
        WedgeDecision::Clear { confirmed: s.wedged_clear_unverified }
    } else if s.wedged_consecutive + 1 < c.wedged_consecutive {
        WedgeDecision::Counting
    } else if api_retrying {
        WedgeDecision::ApiRetry
    } else if time::elapsed_under(s.last_wedged_clear, now, c.wedged_cooldown as int) {
        WedgeDecision::CoolingDown
    } else {
        WedgeDecision::Recover { retry: s.wedged_clear_unverified }
    }
}

/// The state after a look at the pane. A clear is confirmed only by a pane that
/// shows no banner.
pub open spec fn wedge_observed(
    c: ContextMonitorConfig,
    s: StateView,
    pane: Seq<char>,
    banner: bool,
) -> StateView {
    if !c.wedged_detection_enabled || pane.len() == 0 {
        s
    } else if banner {
        StateView { wedged_consecutive: (s.wedged_consecutive + 1) as u32, ..s }
    } else {
        StateView { wedged_consecutive: 0, wedged_clear_unverified: false, ..s }
    }
}

/// The state after the pane was cleared, or the attempt failed. Only a clear that
/// was started waits for its confirmation.
pub open spec fn wedge_cleared(s: StateView, spawned: bool, stamp: Seq<char>) -> StateView {
    StateView {
        wedged_clear_unverified: s.wedged_clear_unverified || spawned,
        last_wedged_clear: Some(stamp),
        wedged_clear_count: (s.wedged_clear_count + 1) as u64,
        wedged_clear_interrupts_total: s.wedged_clear_interrupts_total.saturating_add(1),
        wedged_consecutive: 0,
        ..s
    }
}

fn set_wedged(state: &mut State, consecutive: u32, unverified: bool)
    ensures
        final(state)@ == (StateView {
            wedged_consecutive: consecutive,
            wedged_clear_unverified: unverified,
            ..old(state)@
        }),
{
    proof {
        reveal(crate::state::state_view);
    }
    state.wedged_consecutive = consecutive;
    state.wedged_clear_unverified = unverified;
}

/// Looks at the pane for a wedge banner. On [`WedgeDecision::Recover`] a clear is
/// started, and [`finish_wedged_clear`] is told whether that worked.
pub fn handle_wedged_pane(
    config: &Config,
    state: &mut State,
    pane: &str,
    banner: bool,
    api_retrying: bool,
    now: Moment,
) -> (r: WedgeDecision)
    requires
        old(state)@.wedged_consecutive < u32::MAX,
    ensures
        r == wedge_decision(
            config.context_monitor,
            old(state)@,
            pane@,
            banner,
            api_retrying,
            now,
        ),
        final(state)@ == wedge_observed(config.context_monitor, old(state)@, pane@, banner),
{
    proof {
        reveal(crate::state::state_view);
    }
    if !config.context_monitor.wedged_detection_enabled || pane.is_empty() {
        return WedgeDecision::Off;
    }
    let unverified = state.wedged_clear_unverified;
    if !banner {
        set_wedged(state, 0, false);
        return WedgeDecision::Clear { confirmed: unverified };
    }
    let consecutive: u32 = state.wedged_consecutive + 1;
    let cooling = stamp_under(
        as_opt_str(&state.last_wedged_clear),
        now,
        config.context_monitor.wedged_cooldown,
    );
    set_wedged(state, consecutive, unverified);
    if consecutive < config.context_monitor.wedged_consecutive {
        WedgeDecision::Counting
    } else if api_retrying {
        WedgeDecision::ApiRetry
    } else if cooling {
        WedgeDecision::CoolingDown
    } else {
        WedgeDecision::Recover { retry: unverified }
    }
}

/// Takes note that the pane was cleared, or that the clear could not be started.
pub fn finish_wedged_clear(state: &mut State, spawned: bool, stamp: &str)
    requires
        old(state)@.wedged_clear_count < u64::MAX,
    ensures
        final(state)@ == wedge_cleared(old(state)@, spawned, stamp@),
{
    proof {
        reveal(crate::state::state_view);
    }
    let count: u64 = state.wedged_clear_count + 1;
    let total: u64 = state.wedged_clear_interrupts_total.saturating_add(1);
    let unverified = state.wedged_clear_unverified || spawned;
    state.wedged_clear_unverified = unverified;
    state.last_wedged_clear = Some(stamp.to_owned());
    state.wedged_clear_count = count;
    state.wedged_clear_interrupts_total = total;
    state.wedged_consecutive = 0;
}

/// What the operator is told of a wedged pane, and whether that is critical.
pub open spec fn wedge_alert_text(
    names: NamesConfig,
    reason: Seq<char>,
    spawned: bool,
    retry: bool,
) -> (bool, Seq<char>) {
    if !spawned {
        (
            true,
            names.daemon@ + ": agent wedged ("@ + reason
                + ") -- self-clear spawn FAILED (recovery not attempted)"@,
        )
    } else if retry {
        (
            true,
            names.daemon@ + ": agent STILL wedged ("@ + reason
                + ") after a prior self-clear -- retrying (previous clear did not stick)"@,
        )
    } else {
        (false, names.daemon@ + ": agent wedged ("@ + reason + ") -- running self-clear"@)
    }
}

/// [`wedge_alert_text`], executable.
pub fn wedge_alert(names: &NamesConfig, reason: &str, spawned: bool, retry: bool) -> (r: (
    bool,
    String,
))
    ensures
        (r.0, r.1@) == wedge_alert_text(*names, reason@, spawned, retry),
{
    if !spawned {
        (
            true,
            names.daemon.clone().concat(": agent wedged (").concat(reason).concat(
                ") -- self-clear spawn FAILED (recovery not attempted)",
            ),
        )
    } else if retry {
        (
            true,
            names.daemon.clone().concat(": agent STILL wedged (").concat(reason).concat(
                ") after a prior self-clear -- retrying (previous clear did not stick)",
            ),
        )
    } else {
        (
            false,
            names.daemon.clone().concat(": agent wedged (").concat(reason).concat(
                ") -- running self-clear",
            ),
        )
    }
}

/// A clear counts as confirmed only once the banner is gone: while it shows, a
/// clear that was started stays unconfirmed, and the next one is a retry.
pub proof fn recovery_needs_a_clean_pane(
    c: ContextMonitorConfig,
    s: StateView,
    stamp: Seq<char>,
    pane: Seq<char>,
    api_retrying: bool,
    now: Moment,
)
    requires
        c.wedged_detection_enabled,
        pane.len() > 0,
    ensures
        ({
            let cleared = wedge_cleared(s, true, stamp);
            &&& wedge_observed(c, cleared, pane, true).wedged_clear_unverified
            &&& wedge_decision(c, cleared, pane, true, api_retrying, now) matches
                WedgeDecision::Recover { retry } ==> retry
            &&& wedge_decision(c, cleared, pane, false, api_retrying, now) == (
            WedgeDecision::Clear { confirmed: true })
            &&& !wedge_observed(c, cleared, pane, false).wedged_clear_unverified
        }),
{
}

/// A clear that could not be started confirms nothing.
pub proof fn failed_spawn_confirms_nothing(
    c: ContextMonitorConfig,
    s: StateView,
    stamp: Seq<char>,
    pane: Seq<char>,
    api_retrying: bool,
    now: Moment,
)
    requires
        !s.wedged_clear_unverified,
    ensures
        wedge_decision(c, wedge_cleared(s, false, stamp), pane, false, api_retrying, now) != (
        WedgeDecision::Clear { confirmed: true }),
{
}

/// Two clears of a wedged pane lie at least the cooldown apart.
pub proof fn clears_are_spaced(
    c: ContextMonitorConfig,
    s: StateView,
    spawned: bool,
    stamp: Seq<char>,
    at: Moment,
    pane: Seq<char>,
    banner: bool,
    api_retrying: bool,
    later: Moment,
)
    requires
        time::stamp_moment(stamp) == Some(at),
        time::millis_between(at, later) < c.wedged_cooldown * 1000,
    ensures
        !(wedge_decision(c, wedge_cleared(s, spawned, stamp), pane, banner, api_retrying, later)
            is Recover),
{
}

/// A wedged pane is cleared exactly where the banner has shown for the required checks in a
/// row, the session retries nothing by itself, and the last clear is past its cooldown.
pub proof fn lasting_wedge_is_cleared(
    c: ContextMonitorConfig,
    s: StateView,
    pane: Seq<char>,
    banner: bool,
    api_retrying: bool,
    now: Moment,
)
    ensures
        ({
            let decision = wedge_decision(c, s, pane, banner, api_retrying, now);
            let shows = c.wedged_detection_enabled && pane.len() > 0 && banner;
            let lasts = s.wedged_consecutive + 1 >= c.wedged_consecutive;
            let cooling = time::elapsed_under(s.last_wedged_clear, now, c.wedged_cooldown as int);
            &&& decision == WedgeDecision::Off <==> !c.wedged_detection_enabled || pane.len() == 0
            &&& decision is Clear <==> c.wedged_detection_enabled && pane.len() > 0 && !banner
            &&& decision.wedged() <==> shows
            &&& decision == WedgeDecision::Counting <==> shows && !lasts
            &&& decision == WedgeDecision::ApiRetry <==> shows && lasts && api_retrying
            &&& decision == WedgeDecision::CoolingDown <==> shows && lasts && !api_retrying
                && cooling
            &&& decision is Recover <==> shows && lasts && !api_retrying && !cooling
            &&& decision matches WedgeDecision::Clear { confirmed } ==> (confirmed
                <==> s.wedged_clear_unverified)
            &&& decision matches WedgeDecision::Recover { retry } ==> (retry
                <==> s.wedged_clear_unverified)
        }),
{
}

/// Checks with the banner count only in a row; a clear starts the row over, is counted, and
/// leaves its stamp.
pub proof fn wedge_is_on_record(
    c: ContextMonitorConfig,
    s: StateView,
    pane: Seq<char>,
    banner: bool,
    spawned: bool,
    stamp: Seq<char>,
)
    requires
        s.wedged_consecutive < u32::MAX,
        s.wedged_clear_count < u64::MAX,
        s.wedged_clear_interrupts_total < u64::MAX,
    ensures
        ({
            let seen = wedge_observed(c, s, pane, banner);
            let looked = c.wedged_detection_enabled && pane.len() > 0;
            &&& !looked ==> seen == s
            &&& looked && banner ==> seen.wedged_consecutive == s.wedged_consecutive + 1
                && seen.wedged_clear_unverified == s.wedged_clear_unverified
            &&& looked && !banner ==> seen.wedged_consecutive == 0 && !seen.wedged_clear_unverified
            &&& seen.last_wedged_clear == s.last_wedged_clear && seen.wedged_clear_count
                == s.wedged_clear_count
        }),
        ({
            let done = wedge_cleared(s, spawned, stamp);
            &&& done.last_wedged_clear == Some(stamp) && done.wedged_consecutive == 0
            &&& done.wedged_clear_count == s.wedged_clear_count + 1
            &&& done.wedged_clear_interrupts_total == s.wedged_clear_interrupts_total + 1
            &&& spawned ==> done.wedged_clear_unverified
            &&& !spawned ==> done.wedged_clear_unverified == s.wedged_clear_unverified
            &&& done.last_context_clear == s.last_context_clear
        }),
{
}

/// A wedge is told as critical exactly where no clear could be started, or an earlier one did
/// not help; the three cases are told apart, and each names the daemon and the reason.
pub proof fn failed_recovery_is_critical(
    names: NamesConfig,
    reason: Seq<char>,
    spawned: bool,
    retry: bool,
)
    ensures
        ({
            let (critical, said) = wedge_alert_text(names, reason, spawned, retry);
            &&& critical <==> !spawned || retry
            &&& !spawned ==> said == names.daemon@ + ": agent wedged ("@ + reason
                + ") -- self-clear spawn FAILED (recovery not attempted)"@
            &&& spawned && retry ==> said == names.daemon@ + ": agent STILL wedged ("@ + reason
                + ") after a prior self-clear -- retrying (previous clear did not stick)"@
            &&& spawned && !retry ==> said == names.daemon@ + ": agent wedged ("@ + reason
                + ") -- running self-clear"@
        }),
{
}

} // verus!
