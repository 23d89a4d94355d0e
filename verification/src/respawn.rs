//! Respawning a session that hangs.
use crate::config::Config;
use crate::hang;
use crate::hang::{HangHistoryView, HangSignal, HangSignalHistory};
use crate::interrupts;
use crate::interrupts::try_claim_global_interrupt_at;
use crate::state::{State, StateView};
use crate::time;
use crate::time::{as_opt_str, current_moment, stamp_at_least, stamp_under, stamp_within, Moment};
use crate::watcher_health;
use vstd::prelude::*;
use vstd::string::StringExecFns;

verus! {

/// The list with a signal added where it is given.
pub open spec fn signal_if(list: Seq<HangSignal>, given: bool, signal: HangSignal) -> Seq<
    HangSignal,
> {
    if given {
        list.push(signal)
    } else {
        list
    }
}

/// The hang signals that the state shows, without a look at the pane.
pub open spec fn non_pane_signals(
    config: Config,
    s: StateView,
    heartbeat_stuck: bool,
    now: Moment,
) -> Seq<HangSignal> {
    let window = config.auto_respawn_on_hang.signal_window_secs as int;
    let l1 = signal_if(Seq::empty(), heartbeat_stuck, HangSignal::HeartbeatStale);
    let l2 = signal_if(
        l1,
        watcher_health::some_watcher_critical(
            s.watcher_health,
            config.watcher_monitor.inject_threshold,
        ) && time::elapsed_within(s.last_watcher_inject, now, window),
        HangSignal::WatcherDownPersistent,
    );
    let l3 = signal_if(
        l2,
        s.thinking_interrupt_count >= 2,
        HangSignal::ProlongedThinkingNoProgress,
    );
    signal_if(
        l3,
        time::elapsed_within(s.last_wedged_clear, now, window) && s.wedged_consecutive >= 2,
        HangSignal::WedgedClearNoProgress,
    )
}

/// Collects the hang signals that the state shows, at a given instant.
pub fn collect_non_pane_signals_at(
    state: &State,
    config: &Config,
    heartbeat_stuck: bool,
    now: Moment,
) -> (r: Vec<HangSignal>)
    ensures
        r@ == non_pane_signals(*config, state@, heartbeat_stuck, now),
{
    proof {
        reveal(crate::state::state_view);
    }
    let window: u64 = config.auto_respawn_on_hang.signal_window_secs;
    let mut out: Vec<HangSignal> = Vec::new();
    if heartbeat_stuck {
        out.push(HangSignal::HeartbeatStale);
    }
    if state.watcher_health.any_critical(config.watcher_monitor.inject_threshold) && stamp_within(
        as_opt_str(&state.last_watcher_inject),
        now,
        window,
    ) {
        out.push(HangSignal::WatcherDownPersistent);
    }
    if state.thinking_interrupt_count >= 2 {
        out.push(HangSignal::ProlongedThinkingNoProgress);
    }
    if stamp_within(as_opt_str(&state.last_wedged_clear), now, window) && state.wedged_consecutive
        >= 2 {
        out.push(HangSignal::WedgedClearNoProgress);
    }
    out
}

/// Collects the hang signals that the state shows, now.
pub fn collect_non_pane_signals(state: &State, config: &Config, heartbeat_stuck: bool) -> (r: Vec<
    HangSignal,
>)
    ensures
        exists|now: Moment|
            r@ == #[trigger] non_pane_signals(*config, state@, heartbeat_stuck, now),
{
    let now = current_moment();
    collect_non_pane_signals_at(state, config, heartbeat_stuck, now)
}

/// The history once each signal of a list is observed.
pub open spec fn all_observed(h: HangHistoryView, signals: Seq<HangSignal>, stamp: Seq<char>) -> HangHistoryView
    decreases signals.len(),
{
    if signals.len() == 0 {
        h
    } else {
        all_observed(h, signals.drop_last(), stamp).observed(signals.last(), stamp)
    }
}

/// Records every signal of a list.
fn observe_all(history: &mut HangSignalHistory, signals: &Vec<HangSignal>, stamp: &str)
    ensures
        final(history)@ == all_observed(old(history)@, signals@, stamp@),
{
    let mut i: usize = 0;
    assert(signals@.take(0) =~= Seq::empty());
    while i < signals.len()
        invariant
            i <= signals@.len(),
            history@ == all_observed(old(history)@, signals@.take(i as int), stamp@),
        decreases signals@.len() - i,
    {
        history.observe(signals[i], stamp);
        proof {
            let longer = signals@.take(i + 1);
            assert(longer.drop_last() =~= signals@.take(i as int));
            assert(longer.last() == signals@[i as int]);
        }
        i = i + 1;
    }
    assert(signals@.take(signals@.len() as int) =~= signals@);
}

/// What is remembered of the pane's text.
pub struct PaneMemory {
    /// Hash of the text.
    pub hash: Option<u64>,
    /// Since when it has not changed.
    pub since: Option<Seq<char>>,
}

/// Since when the pane's text has not changed, once it is seen again.
pub open spec fn unchanged_since(memory: PaneMemory, hash: u64, stamp: Seq<char>) -> Seq<char> {
    if memory.hash == Some(hash) && memory.since is Some {
        memory.since->0
    } else {
        stamp
    }
}

/// The pane's text has stayed the same for too long.
pub open spec fn pane_frozen(memory: PaneMemory, hash: u64, now: Moment, threshold: int) -> bool {
    memory.hash == Some(hash) && time::elapsed_at_least(memory.since, now, threshold)
}

/// Says whether the pane's text has stayed the same for too long, and since when it has.
pub fn evaluate_pane_unchanged(
    hash: u64,
    last_hash: Option<u64>,
    last_since: Option<&str>,
    stamp: &str,
    now: Moment,
    threshold_secs: u64,
) -> (r: (String, bool))
    ensures
        ({
            let memory = PaneMemory { hash: last_hash, since: time::opt_str_view(last_since) };
            &&& r.0@ == unchanged_since(memory, hash, stamp@)
            &&& r.1 == pane_frozen(memory, hash, now, threshold_secs as int)
        }),
{
    match (last_hash, last_since) {
        (Some(h), Some(since)) => {
            if h == hash {
                (since.to_owned(), stamp_at_least(Some(since), now, threshold_secs))
            } else {
                (stamp.to_owned(), false)
            }
        },
        _ => (stamp.to_owned(), false),
    }
}

/// The signals of one check, with that of the pane last.
pub open spec fn signals_seen(
    config: Config,
    s: StateView,
    pane_hash: Option<u64>,
    heartbeat_stuck: bool,
    now: Moment,
) -> Seq<HangSignal> {
    signal_if(
        non_pane_signals(config, s, heartbeat_stuck, now),
        pane_hash is Some && pane_frozen(
            PaneMemory { hash: s.pane_content_hash, since: s.pane_content_unchanged_since },
            pane_hash->0,
            now,
            config.auto_respawn_on_hang.pane_unchanged_secs as int,
        ),
        HangSignal::PaneCaptureUnchanged,
    )
}

/// The state once one check's signals are noted and old ones dropped.
pub open spec fn signals_noted(
    config: Config,
    s: StateView,
    pane_hash: Option<u64>,
    heartbeat_stuck: bool,
    stamp: Seq<char>,
    now: Moment,
) -> StateView {
    StateView {
        hang_signal_history: all_observed(
            s.hang_signal_history,
            signals_seen(config, s, pane_hash, heartbeat_stuck, now),
            stamp,
        ).pruned(now, config.auto_respawn_on_hang.signal_window_secs as int),
        pane_content_hash: pane_remembered(s, pane_hash, stamp).hash,
        pane_content_unchanged_since: pane_remembered(s, pane_hash, stamp).since,
        ..s
    }
}

/// What is remembered of the pane once it was looked at; the same as before where it was not
/// seen.
pub open spec fn pane_remembered(s: StateView, pane_hash: Option<u64>, stamp: Seq<char>) -> PaneMemory {
    let memory = PaneMemory { hash: s.pane_content_hash, since: s.pane_content_unchanged_since };
    match pane_hash {
        Some(hash) => PaneMemory {
            hash: Some(hash),
            since: Some(unchanged_since(memory, hash, stamp)),
        },
        None => memory,
    }
}

/// Looks at the pane's text: what is remembered of it from now on, and whether it is a signal.
fn look_at_pane(config: &Config, state: &State, pane_hash: Option<u64>, stamp: &str, now: Moment) -> (r:
    (Option<u64>, Option<String>, bool))
    ensures
        r.0 == pane_remembered(state@, pane_hash, stamp@).hash,
        time::opt_string_view(r.1) == pane_remembered(state@, pane_hash, stamp@).since,
        r.2 == (pane_hash is Some && pane_frozen(
            PaneMemory {
                hash: state@.pane_content_hash,
                since: state@.pane_content_unchanged_since,
            },
            pane_hash->0,
            now,
            config.auto_respawn_on_hang.pane_unchanged_secs as int,
        )),
{
    proof {
        reveal(crate::state::state_view);
    }
    match pane_hash {
        Some(hash) => {
            let (since, frozen) = evaluate_pane_unchanged(
                hash,
                state.pane_content_hash,
                as_opt_str(&state.pane_content_unchanged_since),
                stamp,
                now,
                config.auto_respawn_on_hang.pane_unchanged_secs,
            );
            (Some(hash), Some(since), frozen)
        },
        None => {
            let since = match as_opt_str(&state.pane_content_unchanged_since) {
                Some(since) => Some(since.to_owned()),
                None => None,
            };
            (state.pane_content_hash, since, false)
        },
    }
}

/// Remembers the pane's text.
fn remember_pane(state: &mut State, hash: Option<u64>, since: Option<String>)
    ensures
        final(state)@ == (StateView {
            pane_content_hash: hash,
            pane_content_unchanged_since: time::opt_string_view(since),
            ..old(state)@
        }),
{
    proof {
        reveal(crate::state::state_view);
    }
    state.pane_content_hash = hash;
    state.pane_content_unchanged_since = since;
}

/// The signals of a list, with that of the pane where it is one.
fn with_pane_signal(signals: Vec<HangSignal>, frozen: bool) -> (r: Vec<HangSignal>)
    ensures
        r@ == signal_if(signals@, frozen, HangSignal::PaneCaptureUnchanged),
{
    let mut all = signals;
    if frozen {
        all.push(HangSignal::PaneCaptureUnchanged);
    }
    all
}

/// Records signals in the state's history, and drops old ones.
fn remember_signals(
    state: &mut State,
    signals: &Vec<HangSignal>,
    stamp: &str,
    now: Moment,
    window_secs: u64,
)
    ensures
        final(state)@ == (StateView {
            hang_signal_history: all_observed(
                old(state)@.hang_signal_history,
                signals@,
                stamp@,
            ).pruned(now, window_secs as int),
            ..old(state)@
        }),
{
    proof {
        reveal(crate::state::state_view);
    }
    observe_all(&mut state.hang_signal_history, signals, stamp);
    state.hang_signal_history.prune_window(now, window_secs);
}

/// Notes one check's signals. `pane_hash` is the hash of the pane's text where it was seen.
pub fn note_hang_signals(
    config: &Config,
    state: &mut State,
    pane_hash: Option<u64>,
    heartbeat_stuck: bool,
    stamp: &str,
    now: Moment,
)
    ensures
        final(state)@ == signals_noted(
            *config,
            old(state)@,
            pane_hash,
            heartbeat_stuck,
            stamp@,
            now,
        ),
{
    let quiet = collect_non_pane_signals_at(state, config, heartbeat_stuck, now);
    let (hash, since, frozen) = look_at_pane(config, state, pane_hash, stamp, now);
    let signals = with_pane_signal(quiet, frozen);
    remember_pane(state, hash, since);
    remember_signals(
        state,
        &signals,
        stamp,
        now,
        config.auto_respawn_on_hang.signal_window_secs,
    );
}

/// Enough distinct signals are active, no subagent is at work, and the last respawn is long
/// enough ago.
pub open spec fn respawn_due(config: Config, s: StateView, active_subagents: u32, now: Moment) -> bool {
    &&& active_subagents == 0
    &&& s.hang_signal_history.signals().len() >= config.auto_respawn_on_hang.signals_required
    &&& !time::elapsed_under(
        s.last_respawn_at,
        now,
        config.auto_respawn_on_hang.cooldown_secs as int,
    )
}

/// Whether a respawn is due.
pub fn should_respawn(config: &Config, state: &State, active_subagents: u32, now: Moment) -> (r: bool)
    ensures
        r == respawn_due(*config, state@, active_subagents, now),
{
    proof {
        reveal(crate::state::state_view);
    }
    let active = state.hang_signal_history.distinct_active();
    active_subagents == 0 && active.len() as u64
        >= config.auto_respawn_on_hang.signals_required as u64 && !stamp_under(
        as_opt_str(&state.last_respawn_at),
        now,
        config.auto_respawn_on_hang.cooldown_secs,
    )
}

/// What came of a check for a hang.
#[derive(Debug, Clone, Copy, PartialEq, Eq, Structural)]
pub enum RespawnDecision {
    /// Respawning is switched off.
    Off,
    /// No respawn is due.
    Waiting,
    /// One is due, but another interrupt fired a moment ago.
    CoolingDown,
    /// The session is to be respawned.
    Fire,
}

/// A claim on the global interrupt is granted.
pub open spec fn global_claim(config: Config, s: StateView, now: Moment) -> bool {
    interrupts::claim_granted(
        s,
        config.general.post_interrupt_cooldown_secs,
        config.general.global_cooldown_backoff_base,
        config.general.global_cooldown_max_secs,
        now,
    )
}

/// What comes of a check for a hang.
pub open spec fn respawn_decision(
    config: Config,
    s: StateView,
    pane_hash: Option<u64>,
    heartbeat_stuck: bool,
    active_subagents: u32,
    stamp: Seq<char>,
    now: Moment,
) -> RespawnDecision {
    if !config.auto_respawn_on_hang.enabled {
        RespawnDecision::Off
    } else {
        let noted = signals_noted(config, s, pane_hash, heartbeat_stuck, stamp, now);
        if !respawn_due(config, noted, active_subagents, now) {
            RespawnDecision::Waiting
        } else if !global_claim(config, noted, now) {
            RespawnDecision::CoolingDown
        } else {
            RespawnDecision::Fire
        }
    }
}

/// The state after a check for a hang.
pub open spec fn respawn_next(
    config: Config,
    s: StateView,
    pane_hash: Option<u64>,
    heartbeat_stuck: bool,
    active_subagents: u32,
    stamp: Seq<char>,
    now: Moment,
) -> StateView {
    let noted = signals_noted(config, s, pane_hash, heartbeat_stuck, stamp, now);
    match respawn_decision(
        config,
        s,
        pane_hash,
        heartbeat_stuck,
        active_subagents,
        stamp,
        now,
    ) {
        RespawnDecision::Off => s,
        RespawnDecision::Waiting => noted,
        _ => interrupts::claim_next(
            noted,
            config.general.post_interrupt_cooldown_secs,
            config.general.global_cooldown_backoff_base,
            config.general.global_cooldown_max_secs,
            now,
            stamp,
        ),
    }
}

/// Checks for a hang, and decides whether the session is respawned.
pub fn check_auto_respawn(
    config: &Config,
    state: &mut State,
    pane_hash: Option<u64>,
    heartbeat_stuck: bool,
    active_subagents: u32,
    stamp: &str,
    now: Moment,
) -> (r: RespawnDecision)
    ensures
        r == respawn_decision(
            *config,
            old(state)@,
            pane_hash,
            heartbeat_stuck,
            active_subagents,
            stamp@,
            now,
        ),
        final(state)@ == respawn_next(
            *config,
            old(state)@,
            pane_hash,
            heartbeat_stuck,
            active_subagents,
            stamp@,
            now,
        ),
{
    if !config.auto_respawn_on_hang.enabled {
        return RespawnDecision::Off;
    }
    note_hang_signals(config, state, pane_hash, heartbeat_stuck, stamp, now);
    if !should_respawn(config, state, active_subagents, now) {
        return RespawnDecision::Waiting;
    }
    let claimed = try_claim_global_interrupt_at(
        state,
        config.general.post_interrupt_cooldown_secs,
        config.general.global_cooldown_backoff_base,
        config.general.global_cooldown_max_secs,
        stamp,
        now,
    );
    if claimed {
        RespawnDecision::Fire
    } else {
        RespawnDecision::CoolingDown
    }
}

/// The state after a respawn, however it went.
pub open spec fn respawned(s: StateView, stamp: Seq<char>) -> StateView {
    StateView {
        last_respawn_at: Some(stamp),
        auto_respawn_count: s.auto_respawn_count.saturating_add(1),
        auto_respawn_interrupts_total: s.auto_respawn_interrupts_total.saturating_add(1),
        hang_signal_history: hang::no_signals(),
        pane_content_hash: None,
        pane_content_unchanged_since: None,
        ..s
    }
}

/// Books a respawn, however it went.
pub fn note_respawned(state: &mut State, stamp: &str)
    ensures
        final(state)@ == respawned(old(state)@, stamp@),
{
    proof {
        reveal(crate::state::state_view);
    }
    state.last_respawn_at = Some(stamp.to_owned());
    state.auto_respawn_count = state.auto_respawn_count.saturating_add(1);
    state.auto_respawn_interrupts_total = state.auto_respawn_interrupts_total.saturating_add(1);
    state.hang_signal_history = HangSignalHistory::new();
    state.pane_content_hash = None;
    state.pane_content_unchanged_since = None;
}

/// A session whose subagents are at work is never respawned.
pub proof fn subagents_veto_a_respawn(
    config: Config,
    s: StateView,
    pane_hash: Option<u64>,
    heartbeat_stuck: bool,
    active_subagents: u32,
    stamp: Seq<char>,
    now: Moment,
)
    requires
        active_subagents > 0,
    ensures
        respawn_decision(config, s, pane_hash, heartbeat_stuck, active_subagents, stamp, now)
            != RespawnDecision::Fire,
{
}

/// A respawn needs as many distinct signals as are required, each seen within the window; a
/// single sign is never enough where two are required.
pub proof fn respawn_needs_distinct_signals(
    config: Config,
    s: StateView,
    pane_hash: Option<u64>,
    heartbeat_stuck: bool,
    active_subagents: u32,
    stamp: Seq<char>,
    now: Moment,
)
    requires
        respawn_decision(config, s, pane_hash, heartbeat_stuck, active_subagents, stamp, now)
            == RespawnDecision::Fire,
    ensures
        ({
            let h = signals_noted(
                config,
                s,
                pane_hash,
                heartbeat_stuck,
                stamp,
                now,
            ).hang_signal_history;
            &&& h.signals().no_duplicates()
            &&& h.signals().len() >= config.auto_respawn_on_hang.signals_required
            &&& forall|signal: HangSignal| #[trigger]
                h.signals().contains(signal) ==> time::elapsed_within(
                    h.seen(signal),
                    now,
                    config.auto_respawn_on_hang.signal_window_secs as int,
                )
        }),
{
    let h = signals_noted(config, s, pane_hash, heartbeat_stuck, stamp, now).hang_signal_history;
    hang::signals_are_those_observed(h);
}

/// After a respawn, none is due until the cooldown has passed.
pub proof fn respawn_cools_down(
    config: Config,
    s: StateView,
    stamp: Seq<char>,
    active_subagents: u32,
    now: Moment,
)
    requires
        time::elapsed_under(Some(stamp), now, config.auto_respawn_on_hang.cooldown_secs as int),
    ensures
        !respawn_due(config, respawned(s, stamp), active_subagents, now),
{
}

proof fn lemma_signal_if(list: Seq<HangSignal>, given: bool, signal: HangSignal)
    ensures
        forall|x: HangSignal| #[trigger]
            signal_if(list, given, signal).contains(x) <==> list.contains(x) || (given && x
                == signal),
{
    let l = signal_if(list, given, signal);
    assert forall|x: HangSignal| #[trigger] l.contains(x) <==> list.contains(x) || (given && x
        == signal) by {
        if list.contains(x) {
            assert(l[list.index_of(x)] == x);
        }
        if given && x == signal {
            assert(l[list.len() as int] == x);
        }
    }
}

/// Each hang signal shows exactly for its own reason: acknowledgements have stopped; an enabled
/// watcher stays missing though the session was told within the window; thinking was
/// interrupted at least twice; the pane is wedged for the second time or more within the window
/// of a clear; and the pane's text, once seen, has stayed the same for long enough.
pub proof fn each_signal_has_its_reason(
    config: Config,
    s: StateView,
    pane_hash: Option<u64>,
    heartbeat_stuck: bool,
    now: Moment,
)
    ensures
        ({
            let seen = signals_seen(config, s, pane_hash, heartbeat_stuck, now);
            let window = config.auto_respawn_on_hang.signal_window_secs as int;
            &&& seen.contains(HangSignal::HeartbeatStale) <==> heartbeat_stuck
            &&& seen.contains(HangSignal::WatcherDownPersistent) <==> time::elapsed_within(
                s.last_watcher_inject,
                now,
                window,
            ) && exists|name: Seq<char>|
                s.watcher_health.dom().contains(name) && (#[trigger] s.watcher_health[name]).enabled
                    && s.watcher_health[name].consecutive_missing
                    >= config.watcher_monitor.inject_threshold
            &&& seen.contains(HangSignal::ProlongedThinkingNoProgress)
                <==> s.thinking_interrupt_count >= 2
            &&& seen.contains(HangSignal::WedgedClearNoProgress) <==> s.wedged_consecutive >= 2
                && time::elapsed_within(s.last_wedged_clear, now, window)
            &&& seen.contains(HangSignal::PaneCaptureUnchanged) <==> pane_hash is Some
                && s.pane_content_hash == pane_hash && time::elapsed_at_least(
                s.pane_content_unchanged_since,
                now,
                config.auto_respawn_on_hang.pane_unchanged_secs as int,
            )
        }),
{
    let window = config.auto_respawn_on_hang.signal_window_secs as int;
    let critical = watcher_health::some_watcher_critical(
        s.watcher_health,
        config.watcher_monitor.inject_threshold,
    );
    let told = critical && time::elapsed_within(s.last_watcher_inject, now, window);
    let thinks = s.thinking_interrupt_count >= 2;
    let wedged = time::elapsed_within(s.last_wedged_clear, now, window) && s.wedged_consecutive
        >= 2;
    let frozen = pane_hash is Some && pane_frozen(
        PaneMemory { hash: s.pane_content_hash, since: s.pane_content_unchanged_since },
        pane_hash->0,
        now,
        config.auto_respawn_on_hang.pane_unchanged_secs as int,
    );
    let l1 = signal_if(Seq::empty(), heartbeat_stuck, HangSignal::HeartbeatStale);
    let l2 = signal_if(l1, told, HangSignal::WatcherDownPersistent);
    let l3 = signal_if(l2, thinks, HangSignal::ProlongedThinkingNoProgress);
    let l4 = signal_if(l3, wedged, HangSignal::WedgedClearNoProgress);
    lemma_signal_if(Seq::empty(), heartbeat_stuck, HangSignal::HeartbeatStale);
    lemma_signal_if(l1, told, HangSignal::WatcherDownPersistent);
    lemma_signal_if(l2, thinks, HangSignal::ProlongedThinkingNoProgress);
    lemma_signal_if(l3, wedged, HangSignal::WedgedClearNoProgress);
    lemma_signal_if(l4, frozen, HangSignal::PaneCaptureUnchanged);
    assert(l4 == non_pane_signals(config, s, heartbeat_stuck, now));
    assert(critical <==> exists|name: Seq<char>|
        s.watcher_health.dom().contains(name) && (#[trigger] s.watcher_health[name]).enabled
            && s.watcher_health[name].consecutive_missing
            >= config.watcher_monitor.inject_threshold) by {
        if critical {
            let name = choose|name: Seq<char>|
                s.watcher_health.dom().contains(name) && watcher_health::watcher_critical(
                    #[trigger] s.watcher_health[name],
                    config.watcher_monitor.inject_threshold,
                );
            assert(s.watcher_health[name].enabled);
        }
    }
}

proof fn lemma_all_observed(
    h: HangHistoryView,
    signals: Seq<HangSignal>,
    stamp: Seq<char>,
    signal: HangSignal,
)
    ensures
        all_observed(h, signals, stamp).seen(signal) == (if signals.contains(signal) {
            Some(stamp)
        } else {
            h.seen(signal)
        }),
    decreases signals.len(),
{
    if signals.len() > 0 {
        let rest = signals.drop_last();
        lemma_all_observed(h, rest, stamp, signal);
        assert(signals.contains(signal) <==> rest.contains(signal) || signals.last() == signal) by {
            if signals.contains(signal) {
                let i = signals.index_of(signal);
                if i < rest.len() {
                    assert(rest[i] == signal);
                }
            }
            if rest.contains(signal) {
                assert(signals[rest.index_of(signal)] == signal);
            }
            assert(signals[signals.len() - 1] == signals.last());
        }
    }
}

/// What a check leaves in the history: the check's stamp for each signal that it saw, the old
/// stamp for each other, and neither where it is not within the window. Of the pane the hash is
/// kept, with the stamp of the check that first saw this text.
pub proof fn seen_signals_are_on_record(
    config: Config,
    s: StateView,
    pane_hash: Option<u64>,
    heartbeat_stuck: bool,
    stamp: Seq<char>,
    now: Moment,
    signal: HangSignal,
)
    ensures
        ({
            let n = signals_noted(config, s, pane_hash, heartbeat_stuck, stamp, now);
            let window = config.auto_respawn_on_hang.signal_window_secs as int;
            let last = if signals_seen(config, s, pane_hash, heartbeat_stuck, now).contains(
                signal,
            ) {
                Some(stamp)
            } else {
                s.hang_signal_history.seen(signal)
            };
            &&& time::elapsed_within(last, now, window) ==> n.hang_signal_history.seen(signal)
                == last
            &&& !time::elapsed_within(last, now, window) ==> n.hang_signal_history.seen(signal)
                is None
            &&& pane_hash is None ==> n.pane_content_hash == s.pane_content_hash
                && n.pane_content_unchanged_since == s.pane_content_unchanged_since
            &&& pane_hash is Some ==> n.pane_content_hash == pane_hash
            &&& pane_hash is Some && s.pane_content_hash == pane_hash
                && s.pane_content_unchanged_since is Some ==> n.pane_content_unchanged_since
                == s.pane_content_unchanged_since
            &&& pane_hash is Some && (s.pane_content_hash != pane_hash
                || s.pane_content_unchanged_since is None) ==> n.pane_content_unchanged_since
                == Some(stamp)
            &&& n == (StateView {
                hang_signal_history: n.hang_signal_history,
                pane_content_hash: n.pane_content_hash,
                pane_content_unchanged_since: n.pane_content_unchanged_since,
                ..s
            })
        }),
{
    lemma_all_observed(
        s.hang_signal_history,
        signals_seen(config, s, pane_hash, heartbeat_stuck, now),
        stamp,
        signal,
    );
}

/// The session is respawned exactly where that is switched on, no subagent is at work, enough
/// signals are active, the last respawn is past its cooldown, and no other interrupt was a
/// moment ago.
pub proof fn hanging_session_is_respawned(
    config: Config,
    s: StateView,
    pane_hash: Option<u64>,
    heartbeat_stuck: bool,
    active_subagents: u32,
    stamp: Seq<char>,
    now: Moment,
)
    ensures
        ({
            let decision = respawn_decision(
                config,
                s,
                pane_hash,
                heartbeat_stuck,
                active_subagents,
                stamp,
                now,
            );
            let n = respawn_next(
                config,
                s,
                pane_hash,
                heartbeat_stuck,
                active_subagents,
                stamp,
                now,
            );
            let noted = signals_noted(config, s, pane_hash, heartbeat_stuck, stamp, now);
            let on = config.auto_respawn_on_hang.enabled;
            let due = active_subagents == 0 && noted.hang_signal_history.signals().len()
                >= config.auto_respawn_on_hang.signals_required && !time::elapsed_under(
                s.last_respawn_at,
                now,
                config.auto_respawn_on_hang.cooldown_secs as int,
            );
            let granted = interrupts::claim_granted(
                s,
                config.general.post_interrupt_cooldown_secs,
                config.general.global_cooldown_backoff_base,
                config.general.global_cooldown_max_secs,
                now,
            );
            &&& decision == RespawnDecision::Off <==> !on
            &&& decision == RespawnDecision::Waiting <==> on && !due
            &&& decision == RespawnDecision::CoolingDown <==> on && due && !granted
            &&& decision == RespawnDecision::Fire <==> on && due && granted
            &&& !on ==> n == s
            &&& on && decision != RespawnDecision::Fire ==> n == noted
            &&& decision == RespawnDecision::Fire ==> n.last_interrupt_at == Some(stamp)
                && n.hang_signal_history == noted.hang_signal_history && n.last_respawn_at
                == s.last_respawn_at
        }),
{
}

/// A respawn leaves its stamp and its counts, and a clean slate: no signal, and nothing known of
/// the pane.
pub proof fn respawn_is_on_record(s: StateView, stamp: Seq<char>, signal: HangSignal)
    requires
        s.auto_respawn_count < u64::MAX,
        s.auto_respawn_interrupts_total < u64::MAX,
    ensures
        ({
            let n = respawned(s, stamp);
            &&& n.last_respawn_at == Some(stamp)
            &&& n.auto_respawn_count == s.auto_respawn_count + 1
            &&& n.auto_respawn_interrupts_total == s.auto_respawn_interrupts_total + 1
            &&& n.hang_signal_history.seen(signal) is None
            &&& n.pane_content_hash is None && n.pane_content_unchanged_since is None
            &&& n.last_interrupt_at == s.last_interrupt_at && n.last_wedged_clear
                == s.last_wedged_clear && n.thinking_interrupt_count == s.thinking_interrupt_count
        }),
{
}

} // verus!
