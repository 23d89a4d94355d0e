//! One round over the watchers: which run, which are missing, and what that calls for.
use crate::config::Config;
use crate::state::{State, StateView};
use crate::text::text_eq;
use crate::time;
use crate::time::{as_opt_str, elapsed_at, stamp_under, Moment};
use crate::watcher_health;
use crate::watcher_health::{WatcherHealth, WatcherState, WatcherStateView};
use crate::watchers;
use crate::watchers::{evaluate_watcher_down_action_at, WatcherDownAction};
use vstd::prelude::*;

verus! {

/// What is seen of one watcher.
#[derive(Debug, Clone)]
pub struct WatcherSight {
    /// Its name.
    pub name: String,
    /// Whether it is expected to run.
    pub enabled: bool,
    /// How many of it are expected; with none expected it is never down.
    pub min_count: u32,
    /// None of the processes that it recorded is alive.
    pub pidfile_down: bool,
    /// It is a monitor that is being armed.
    pub arming: bool,
    /// Age of its newest runtime file, in milliseconds.
    pub runtime_age_ms: Option<u64>,
    /// It left on its own a moment ago, and waits to be started again.
    pub cleanly_exited: bool,
}

/// What one look at a watcher came to.
#[derive(Debug, Clone, Copy, PartialEq, Eq, Structural)]
pub enum SightOutcome {
    /// It runs.
    Running,
    /// It is being armed.
    Arming,
    /// It ran, or was started, a moment ago.
    InGrace,
    /// It left on its own a moment ago.
    CleanExit,
    /// It is missing.
    Missing {
        /// What that calls for.
        action: WatcherDownAction,
    },
}

/// The newest runtime file is younger than `secs` seconds.
pub open spec fn file_under(age_ms: Option<u64>, secs: u64) -> bool {
    age_ms matches Some(ms) && ms < secs * 1000
}

/// A watcher that is down, but ran or was started within the grace period.
pub open spec fn in_grace(
    last_seen: Option<Seq<char>>,
    runtime_age_ms: Option<u64>,
    grace_secs: u64,
    now: Moment,
) -> bool {
    time::elapsed_under(last_seen, now, grace_secs as int) || file_under(runtime_age_ms, grace_secs)
}

/// Whether a watcher that is down ran, or was started, within the grace period.
pub fn watcher_in_grace(
    last_seen: Option<&str>,
    runtime_age_ms: Option<u64>,
    grace_secs: u64,
    now: Moment,
) -> (r: bool)
    ensures
        r == in_grace(time::opt_str_view(last_seen), runtime_age_ms, grace_secs, now),
{
    if stamp_under(last_seen, now, grace_secs) {
        return true;
    }
    match runtime_age_ms {
        Some(ms) => (ms as u128) < (grace_secs as u128) * 1000,
        None => false,
    }
}

/// What one look at a watcher comes to.
pub open spec fn sight_outcome(
    config: Config,
    consumer: Seq<char>,
    prev: WatcherStateView,
    sight: WatcherSight,
    now: Moment,
) -> SightOutcome {
    if sight.min_count == 0 || !sight.pidfile_down {
        SightOutcome::Running
    } else if sight.arming {
        SightOutcome::Arming
    } else if in_grace(
        prev.last_seen_running,
        sight.runtime_age_ms,
        config.watcher_monitor.grace_secs,
        now,
    ) {
        SightOutcome::InGrace
    } else if config.watcher_monitor.clean_exit_grace_secs > 0 && sight.cleanly_exited {
        SightOutcome::CleanExit
    } else {
        SightOutcome::Missing {
            action: watchers::down_action(
                sight.name@ == consumer,
                (prev.consecutive_missing + 1) as u32,
                prev.event_emitted_at,
                config.watcher_monitor.event_threshold,
                config.watcher_monitor.inject_threshold,
                config.watcher_monitor.event_grace_secs,
                now,
            ),
        }
    }
}

/// What is known of a watcher after one look at it.
pub open spec fn sight_next(prev: WatcherStateView, outcome: SightOutcome, stamp: Seq<char>) -> WatcherStateView {
    match outcome {
        SightOutcome::Running => WatcherStateView {
            last_seen_running: Some(stamp),
            consecutive_missing: 0,
            enabled: prev.enabled,
            event_emitted_at: None,
            down_since: None,
        },
        SightOutcome::Missing { action } => WatcherStateView {
            consecutive_missing: (prev.consecutive_missing + 1) as u32,
            down_since: match prev.down_since {
                Some(since) => Some(since),
                None => Some(stamp),
            },
            ..prev
        },
        _ => prev,
    }
}

/// Decides what one look at a watcher comes to.
pub fn judge_watcher(
    config: &Config,
    consumer: &str,
    prev: &WatcherState,
    sight: &WatcherSight,
    now: Moment,
) -> (r: SightOutcome)
    requires
        prev.consecutive_missing < u32::MAX,
    ensures
        r == sight_outcome(*config, consumer@, prev@, *sight, now),
{
    if sight.min_count == 0 || !sight.pidfile_down {
        return SightOutcome::Running;
    }
    if sight.arming {
        return SightOutcome::Arming;
    }
    if watcher_in_grace(
        as_opt_str(&prev.last_seen_running),
        sight.runtime_age_ms,
        config.watcher_monitor.grace_secs,
        now,
    ) {
        return SightOutcome::InGrace;
    }
    if config.watcher_monitor.clean_exit_grace_secs > 0 && sight.cleanly_exited {
        return SightOutcome::CleanExit;
    }
    SightOutcome::Missing {
        action: evaluate_watcher_down_action_at(
            text_eq(sight.name.as_str(), consumer),
            prev.consecutive_missing + 1,
            as_opt_str(&prev.event_emitted_at),
            config.watcher_monitor.event_threshold,
            config.watcher_monitor.inject_threshold,
            config.watcher_monitor.event_grace_secs,
            now,
        ),
    }
}

/// Updates what is known of a watcher after one look at it.
pub fn update_watcher(prev: &WatcherState, outcome: SightOutcome, stamp: &str) -> (r: WatcherState)
    requires
        prev.consecutive_missing < u32::MAX,
    ensures
        r@ == sight_next(prev@, outcome, stamp@),
{
    let mut next = prev.duplicate();
    match outcome {
        SightOutcome::Running => {
            next.last_seen_running = Some(stamp.to_owned());
            next.consecutive_missing = 0;
            next.event_emitted_at = None;
            next.down_since = None;
        },
        SightOutcome::Missing { action } => {
            next.consecutive_missing = next.consecutive_missing + 1;
            if next.down_since.is_none() {
                next.down_since = Some(stamp.to_owned());
            }
        },
        _ => {},
    }
    next
}

/// Whole seconds since a stamp; none where it does not parse, zero where it lies ahead.
pub open spec fn whole_secs_since(since: Option<Seq<char>>, now: Moment) -> Option<u64> {
    match time::opt_elapsed_ms(since, now) {
        Some(ms) => if ms < 0 {
            Some(0)
        } else if ms / 1000 > u64::MAX {
            Some(u64::MAX)
        } else {
            Some((ms / 1000) as u64)
        },
        None => None,
    }
}

/// For how many whole seconds a watcher has been down.
fn down_secs(since: &Option<String>, now: Moment) -> (r: Option<u64>)
    ensures
        r == whole_secs_since(time::opt_string_view(*since), now),
{
    match since {
        Some(stamp) => match elapsed_at(stamp.as_str(), now) {
            Some(ms) => {
                if ms < 0 {
                    Some(0)
                } else {
                    let secs: u128 = (ms as u128) / 1000;
                    if secs > 0xffff_ffff_ffff_ffff {
                        Some(u64::MAX)
                    } else {
                        Some(secs as u64)
                    }
                }
            },
            None => None,
        },
        None => None,
    }
}

/// The longer of two down times, of which either may be unknown.
pub open spec fn longer(a: Option<u64>, b: Option<u64>) -> Option<u64> {
    match (a, b) {
        (Some(x), Some(y)) => if x >= y {
            a
        } else {
            b
        },
        (Some(x), None) => a,
        (None, _) => b,
    }
}

fn longer_of(a: Option<u64>, b: Option<u64>) -> (r: Option<u64>)
    ensures
        r == longer(a, b),
{
    match a {
        Some(x) => match b {
            Some(y) => {
                if x >= y {
                    a
                } else {
                    b
                }
            },
            None => a,
        },
        None => b,
    }
}

/// A watcher whose absence is to be announced as an event.
#[derive(Debug, Clone)]
pub struct EventDue {
    /// Its name.
    pub name: String,
    /// Cycles in a row in which it was missing.
    pub consecutive_missing: u32,
}

/// What one round over the watchers found.
#[derive(Debug, Clone)]
pub struct RoundReport {
    /// Absences to be announced as events.
    pub announce: Vec<EventDue>,
    /// Names of the watchers that call for an inject.
    pub missing: Vec<String>,
    /// The longest down time among those.
    pub max_down_secs: Option<u64>,
}

/// What one round over the watchers finds.
pub struct RoundView {
    /// What is known of each watcher then.
    pub health: Map<Seq<char>, WatcherStateView>,
    /// Absences to be announced as events, each with its run of missing cycles.
    pub announce: Seq<(Seq<char>, u32)>,
    /// Names of the watchers that call for an inject.
    pub missing: Seq<Seq<char>>,
    /// The longest down time among those.
    pub max_down_secs: Option<u64>,
}

/// What is known of a watcher when it is looked at: one that was never looked at is expected
/// to run.
pub open spec fn known_watcher(health: Map<Seq<char>, WatcherStateView>, name: Seq<char>) -> WatcherStateView {
    if health.dom().contains(name) {
        health[name]
    } else {
        WatcherStateView { enabled: true, ..watcher_health::unknown_watcher() }
    }
}

/// A round continued by one look.
pub open spec fn round_step(
    config: Config,
    consumer: Seq<char>,
    round: RoundView,
    sight: WatcherSight,
    stamp: Seq<char>,
    now: Moment,
) -> RoundView {
    if !sight.enabled {
        round
    } else {
        let prev = known_watcher(round.health, sight.name@);
        let outcome = sight_outcome(config, consumer, prev, sight, now);
        let next = sight_next(prev, outcome, stamp);
        let health = round.health.insert(sight.name@, next);
        if outcome == (SightOutcome::Missing { action: WatcherDownAction::EmitEvent }) {
            RoundView {
                health,
                announce: round.announce.push((sight.name@, next.consecutive_missing)),
                ..round
            }
        } else if outcome == (SightOutcome::Missing { action: WatcherDownAction::InjectFallback }) {
            RoundView {
                health,
                missing: round.missing.push(sight.name@),
                max_down_secs: longer(round.max_down_secs, whole_secs_since(next.down_since, now)),
                ..round
            }
        } else {
            RoundView { health, ..round }
        }
    }
}

/// A round over a list of watchers.
pub open spec fn round(
    config: Config,
    consumer: Seq<char>,
    health: Map<Seq<char>, WatcherStateView>,
    sights: Seq<WatcherSight>,
    stamp: Seq<char>,
    now: Moment,
) -> RoundView
    decreases sights.len(),
{
    if sights.len() == 0 {
        RoundView {
            health,
            announce: Seq::empty(),
            missing: Seq::empty(),
            max_down_secs: None,
        }
    } else {
        round_step(
            config,
            consumer,
            round(config, consumer, health, sights.drop_last(), stamp, now),
            sights.last(),
            stamp,
            now,
        )
    }
}

/// Every watcher can be found missing so many more times.
pub open spec fn misses_have_room(health: Map<Seq<char>, WatcherStateView>, times: int) -> bool {
    forall|name: Seq<char>|
        health.dom().contains(name) ==> (#[trigger] health[name]).consecutive_missing + times
            <= u32::MAX
}

/// The characters of each announcement.
pub open spec fn announced(list: Seq<EventDue>) -> Seq<(Seq<char>, u32)> {
    Seq::new(list.len(), |i: int| (list[i].name@, list[i].consecutive_missing))
}

/// The characters of each name.
pub open spec fn name_views(list: Seq<String>) -> Seq<Seq<char>> {
    Seq::new(list.len(), |i: int| list[i]@)
}

/// The report says what the round found.
pub open spec fn reports(report: RoundReport, found: RoundView) -> bool {
    &&& announced(report.announce@) == found.announce
    &&& name_views(report.missing@) == found.missing
    &&& report.max_down_secs == found.max_down_secs
}

/// The state of a watcher that is looked at.
fn watcher_known(health: &WatcherHealth, name: &str) -> (r: WatcherState)
    ensures
        r@ == known_watcher(health@, name@),
{
    match health.get(name) {
        Some(known) => known.duplicate(),
        None => {
            let mut fresh = WatcherState::default();
            fresh.enabled = true;
            fresh
        },
    }
}

/// Looks at one watcher, and goes on with the report.
fn observe_watcher(
    config: &Config,
    consumer: &str,
    health: &mut WatcherHealth,
    report: &mut RoundReport,
    sight: &WatcherSight,
    stamp: &str,
    now: Moment,
    Ghost(found): Ghost<RoundView>,
)
    requires
        reports(*old(report), found),
        old(health)@ == found.health,
        known_watcher(found.health, sight.name@).consecutive_missing < u32::MAX,
    ensures
        ({
            let next = round_step(*config, consumer@, found, *sight, stamp@, now);
            reports(*final(report), next) && final(health)@ == next.health
        }),
{
    if !sight.enabled {
        return;
    }
    let prev = watcher_known(health, sight.name.as_str());
    let outcome = judge_watcher(config, consumer, &prev, sight, now);
    let next = update_watcher(&prev, outcome, stamp);
    let misses: u32 = next.consecutive_missing;
    let down = down_secs(&next.down_since, now);
    health.insert(sight.name.clone(), next);
    match outcome {
        SightOutcome::Missing { action: WatcherDownAction::EmitEvent } => {
            report.announce.push(
                EventDue { name: sight.name.clone(), consecutive_missing: misses },
            );
            assert(announced(report.announce@) =~= announced(old(report).announce@).push(
                (sight.name@, misses),
            ));
        },
        SightOutcome::Missing { action: WatcherDownAction::InjectFallback } => {
            report.missing.push(sight.name.clone());
            report.max_down_secs = longer_of(report.max_down_secs, down);
            assert(name_views(report.missing@) =~= name_views(old(report).missing@).push(
                sight.name@,
            ));
        },
        _ => {},
    }
}

/// One look uses up one miss at most.
proof fn lemma_room_after_step(
    config: Config,
    consumer: Seq<char>,
    found: RoundView,
    sight: WatcherSight,
    stamp: Seq<char>,
    now: Moment,
    times: int,
)
    requires
        misses_have_room(found.health, times + 1),
        0 <= times < u32::MAX,
    ensures
        misses_have_room(
            round_step(config, consumer, found, sight, stamp, now).health,
            times,
        ),
{
    let next = round_step(config, consumer, found, sight, stamp, now);
    assert forall|name: Seq<char>| next.health.dom().contains(name) implies (
    #[trigger] next.health[name]).consecutive_missing + times <= u32::MAX by {
        if found.health.dom().contains(name) {
            assert(found.health[name].consecutive_missing + times + 1 <= u32::MAX);
        }
    }
}

/// Looks at every watcher.
fn observe_all(
    config: &Config,
    consumer: &str,
    health: &mut WatcherHealth,
    sights: &Vec<WatcherSight>,
    stamp: &str,
    now: Moment,
) -> (r: RoundReport)
    requires
        sights@.len() < u32::MAX,
        misses_have_room(old(health)@, sights@.len() as int),
    ensures
        ({
            let found = round(*config, consumer@, old(health)@, sights@, stamp@, now);
            reports(r, found) && final(health)@ == found.health
        }),
{
    let mut report = RoundReport {
        announce: Vec::new(),
        missing: Vec::new(),
        max_down_secs: None,
    };
    let mut i: usize = 0;
    proof {
        assert(sights@.take(0) =~= Seq::empty());
        assert(announced(report.announce@) =~= Seq::empty());
        assert(name_views(report.missing@) =~= Seq::empty());
    }
    while i < sights.len()
        invariant
            i <= sights@.len(),
            sights@.len() < u32::MAX,
            reports(
                report,
                round(*config, consumer@, old(health)@, sights@.take(i as int), stamp@, now),
            ),
            health@ == round(
                *config,
                consumer@,
                old(health)@,
                sights@.take(i as int),
                stamp@,
                now,
            ).health,
            misses_have_room(health@, sights@.len() - i),
        decreases sights@.len() - i,
    {
        let ghost found = round(
            *config,
            consumer@,
            old(health)@,
            sights@.take(i as int),
            stamp@,
            now,
        );
        proof {
            let longer_list = sights@.take(i + 1);
            assert(longer_list.drop_last() =~= sights@.take(i as int));
            assert(longer_list.last() == sights@[i as int]);
            lemma_room_after_step(
                *config,
                consumer@,
                found,
                sights@[i as int],
                stamp@,
                now,
                sights@.len() - i - 1,
            );
            if found.health.dom().contains(sights@[i as int].name@) {
                assert(found.health[sights@[i as int].name@].consecutive_missing + (sights@.len()
                    - i) <= u32::MAX);
            }
        }
        observe_watcher(
            config,
            consumer,
            health,
            &mut report,
            &sights[i],
            stamp,
            now,
            Ghost(found),
        );
        i = i + 1;
    }
    assert(sights@.take(sights@.len() as int) =~= sights@);
    report
}

/// Looks at every watcher. `consumer` names the watcher that reads the events.
pub fn observe_watchers(
    config: &Config,
    consumer: &str,
    state: &mut State,
    sights: &Vec<WatcherSight>,
    stamp: &str,
    now: Moment,
) -> (r: RoundReport)
    requires
        sights@.len() < u32::MAX,
        misses_have_room(old(state)@.watcher_health, sights@.len() as int),
    ensures
        ({
            let found = round(
                *config,
                consumer@,
                old(state)@.watcher_health,
                sights@,
                stamp@,
                now,
            );
            &&& reports(r, found)
            &&& final(state)@ == (StateView { watcher_health: found.health, ..old(state)@ })
        }),
{
    proof {
        reveal(crate::state::state_view);
    }
    observe_all(config, consumer, &mut state.watcher_health, sights, stamp, now)
}

/// Whether every watcher can be found missing so many more times.
pub fn watchers_have_room(state: &State, times: u32) -> (r: bool)
    ensures
        r == misses_have_room(state@.watcher_health, times as int),
{
    proof {
        reveal(crate::state::state_view);
    }
    state.watcher_health.all_below(u32::MAX - times)
}

/// What is known of the watchers once an absence was announced.
pub open spec fn event_noted(
    health: Map<Seq<char>, WatcherStateView>,
    name: Seq<char>,
    stamp: Seq<char>,
) -> Map<Seq<char>, WatcherStateView> {
    if health.dom().contains(name) {
        health.insert(name, WatcherStateView { event_emitted_at: Some(stamp), ..health[name] })
    } else {
        health
    }
}

/// Notes that a watcher's absence was announced as an event.
pub fn note_event_emitted(state: &mut State, name: &str, stamp: &str)
    ensures
        final(state)@ == (StateView {
            watcher_health: event_noted(old(state)@.watcher_health, name@, stamp@),
            ..old(state)@
        }),
{
    proof {
        reveal(crate::state::state_view);
    }
    let known = match state.watcher_health.get(name) {
        Some(known) => Some(known.duplicate()),
        None => None,
    };
    if let Some(prev) = known {
        let mut next = prev;
        next.event_emitted_at = Some(stamp.to_owned());
        state.watcher_health.insert(name.to_owned(), next);
    }
}

/// Whether the listed watchers say of a name that it is expected to run: the last entry of
/// that name does.
pub open spec fn listed_enabled(sights: Seq<WatcherSight>, name: Seq<char>) -> Option<bool>
    decreases sights.len(),
{
    if sights.len() == 0 {
        None
    } else if sights.last().name@ == name {
        Some(sights.last().enabled)
    } else {
        listed_enabled(sights.drop_last(), name)
    }
}

/// What is known of the watchers, held against the list of those that exist: the ones that
/// are not listed are forgotten, the others are expected to run as the list says.
pub open spec fn reconciled(
    health: Map<Seq<char>, WatcherStateView>,
    sights: Seq<WatcherSight>,
) -> Map<Seq<char>, WatcherStateView> {
    Map::new(
        |name: Seq<char>| health.dom().contains(name) && listed_enabled(sights, name) is Some,
        |name: Seq<char>|
            WatcherStateView { enabled: listed_enabled(sights, name)->0, ..health[name] },
    )
}

/// Copies what is known of the listed watchers, each with the list's word on whether it is
/// expected to run.
fn copy_listed(health: &WatcherHealth, sights: &Vec<WatcherSight>) -> (r: WatcherHealth)
    ensures
        r@ =~= reconciled(health@, sights@),
{
    let mut kept = WatcherHealth::new();
    let mut i: usize = 0;
    assert(sights@.take(0) =~= Seq::empty());
    assert(kept@ =~= reconciled(health@, sights@.take(0)));
    while i < sights.len()
        invariant
            i <= sights@.len(),
            kept@ == reconciled(health@, sights@.take(i as int)),
        decreases sights@.len() - i,
    {
        let ghost before = sights@.take(i as int);
        let ghost after = sights@.take(i + 1);
        proof {
            assert(after.drop_last() =~= before);
            assert(after.last() == sights@[i as int]);
        }
        match health.get(sights[i].name.as_str()) {
            Some(known) => {
                let mut next = known.duplicate();
                next.enabled = sights[i].enabled;
                kept.insert(sights[i].name.clone(), next);
            },
            None => {},
        }
        assert(kept@ =~= reconciled(health@, after));
        i = i + 1;
    }
    assert(sights@.take(sights@.len() as int) =~= sights@);
    kept
}

/// Holds what is known of the watchers against the list of those that exist.
pub fn reconcile_watcher_health(state: &mut State, sights: &Vec<WatcherSight>)
    ensures
        final(state)@ == (StateView {
            watcher_health: reconciled(old(state)@.watcher_health, sights@),
            ..old(state)@
        }),
{
    proof {
        reveal(crate::state::state_view);
    }
    let kept = copy_listed(&state.watcher_health, sights);
    state.watcher_health = kept;
}

/// A watcher that runs is as new: its run of misses, its announcement and its down time are
/// gone.
pub proof fn running_watcher_is_as_new(
    config: Config,
    consumer: Seq<char>,
    prev: WatcherStateView,
    sight: WatcherSight,
    stamp: Seq<char>,
    now: Moment,
)
    requires
        sight.min_count == 0 || !sight.pidfile_down,
    ensures
        ({
            let n = sight_next(
                prev,
                sight_outcome(config, consumer, prev, sight, now),
                stamp,
            );
            &&& n.last_seen_running == Some(stamp)
            &&& n.consecutive_missing == 0
            &&& n.event_emitted_at is None
            &&& n.down_since is None
        }),
{
}

/// A watcher that is being armed, in grace or cleanly gone counts no miss.
pub proof fn excused_watcher_counts_no_miss(
    config: Config,
    consumer: Seq<char>,
    prev: WatcherStateView,
    sight: WatcherSight,
    stamp: Seq<char>,
    now: Moment,
)
    requires
        sight.min_count > 0 && sight.pidfile_down,
        sight.arming || in_grace(
            prev.last_seen_running,
            sight.runtime_age_ms,
            config.watcher_monitor.grace_secs,
            now,
        ) || (config.watcher_monitor.clean_exit_grace_secs > 0 && sight.cleanly_exited),
    ensures
        sight_next(prev, sight_outcome(config, consumer, prev, sight, now), stamp) == prev,
{
}

/// The down time runs from the first miss: later misses of the same outage leave it alone.
pub proof fn outage_keeps_its_beginning(
    prev: WatcherStateView,
    first: WatcherDownAction,
    stamp: Seq<char>,
    second: WatcherDownAction,
    later: Seq<char>,
)
    requires
        prev.down_since is None,
    ensures
        sight_next(
            sight_next(prev, SightOutcome::Missing { action: first }, stamp),
            SightOutcome::Missing { action: second },
            later,
        ).down_since == Some(stamp),
{
}

/// A watcher that the list no longer names, or no longer expects to run, is never critical
/// again: nothing waits for it.
pub proof fn retired_watcher_is_not_critical(
    health: Map<Seq<char>, WatcherStateView>,
    sights: Seq<WatcherSight>,
    name: Seq<char>,
    threshold: u32,
)
    requires
        listed_enabled(sights, name) != Some(true),
    ensures
        ({
            let kept = reconciled(health, sights);
            kept.dom().contains(name) ==> !watcher_health::watcher_critical(kept[name], threshold)
        }),
{
}

/// A watcher of which none is wanted is never missing.
pub proof fn unwanted_watcher_is_never_missing(
    config: Config,
    consumer: Seq<char>,
    prev: WatcherStateView,
    sight: WatcherSight,
    now: Moment,
)
    requires
        sight.min_count == 0,
    ensures
        sight_outcome(config, consumer, prev, sight, now) == SightOutcome::Running,
{
}

/// A watcher that is down but was last seen running less than the grace period ago, by its
/// stamp, counts no miss and calls for nothing, whatever is known of its runtime files; nor
/// does one whose newest runtime file is younger than the grace period.
pub proof fn grace_period_excuses_a_watcher(
    config: Config,
    consumer: Seq<char>,
    prev: WatcherStateView,
    sight: WatcherSight,
    stamp: Seq<char>,
    now: Moment,
)
    requires
        sight.min_count > 0,
        sight.pidfile_down,
        time::elapsed_under(
            prev.last_seen_running,
            now,
            config.watcher_monitor.grace_secs as int,
        ) || (sight.runtime_age_ms matches Some(ms) && ms < config.watcher_monitor.grace_secs
            * 1000),
    ensures
        !(sight_outcome(config, consumer, prev, sight, now) is Missing),
        sight_next(prev, sight_outcome(config, consumer, prev, sight, now), stamp) == prev,
{
}

/// A watcher that is being armed, or that has left on its own where that is excused, counts no
/// miss either.
pub proof fn arming_and_clean_exit_are_excused(
    config: Config,
    consumer: Seq<char>,
    prev: WatcherStateView,
    sight: WatcherSight,
    stamp: Seq<char>,
    now: Moment,
)
    requires
        sight.min_count > 0,
        sight.pidfile_down,
        sight.arming || (sight.cleanly_exited && config.watcher_monitor.clean_exit_grace_secs > 0),
    ensures
        !(sight_outcome(config, consumer, prev, sight, now) is Missing),
        sight_next(prev, sight_outcome(config, consumer, prev, sight, now), stamp) == prev,
{
}

/// A watcher that is down and that nothing excuses is missing: the miss is counted, its outage
/// begins with the first one, and what it calls for goes by the run of misses with this one.
/// When it last ran, and when it was announced, stay as they were.
pub proof fn inexcusable_absence_is_a_miss(
    config: Config,
    consumer: Seq<char>,
    prev: WatcherStateView,
    sight: WatcherSight,
    stamp: Seq<char>,
    now: Moment,
)
    requires
        prev.consecutive_missing < u32::MAX,
        sight.min_count > 0,
        sight.pidfile_down,
        !sight.arming,
        !time::elapsed_under(
            prev.last_seen_running,
            now,
            config.watcher_monitor.grace_secs as int,
        ),
        !(sight.runtime_age_ms matches Some(ms) && ms < config.watcher_monitor.grace_secs * 1000),
        !sight.cleanly_exited || config.watcher_monitor.clean_exit_grace_secs == 0,
    ensures
        ({
            let outcome = sight_outcome(config, consumer, prev, sight, now);
            let n = sight_next(prev, outcome, stamp);
            &&& outcome == (SightOutcome::Missing {
                action: watchers::down_action(
                    sight.name@ == consumer,
                    n.consecutive_missing,
                    prev.event_emitted_at,
                    config.watcher_monitor.event_threshold,
                    config.watcher_monitor.inject_threshold,
                    config.watcher_monitor.event_grace_secs,
                    now,
                ),
            })
            &&& n.consecutive_missing == prev.consecutive_missing + 1
            &&& prev.down_since is Some ==> n.down_since == prev.down_since
            &&& prev.down_since is None ==> n.down_since == Some(stamp)
            &&& n.last_seen_running == prev.last_seen_running
            &&& n.event_emitted_at == prev.event_emitted_at
            &&& n.enabled == prev.enabled
        }),
{
}

/// The time for which a watcher has been down counts in whole seconds from the start of its
/// outage, is none where that lies ahead, and is unknown where its stamp names no instant.
pub proof fn down_time_counts_whole_seconds(since: Option<Seq<char>>, now: Moment)
    ensures
        whole_secs_since(since, now) is None <==> time::opt_elapsed_ms(since, now) is None,
        time::opt_elapsed_ms(since, now) matches Some(ms) ==> {
            &&& ms < 0 ==> whole_secs_since(since, now) == Some(0u64)
            &&& 0 <= ms < u64::MAX * 1000 ==> whole_secs_since(since, now)->0 * 1000 <= ms < (
            whole_secs_since(since, now)->0 + 1) * 1000
        },
{
}

/// Of two down times the longer one is reported, and a known one before an unknown one.
pub proof fn longest_down_time_is_reported(a: Option<u64>, b: Option<u64>)
    ensures
        longer(a, b) == a || longer(a, b) == b,
        a matches Some(x) ==> longer(a, b) is Some && longer(a, b)->0 >= x,
        b matches Some(y) ==> longer(a, b) is Some && longer(a, b)->0 >= y,
{
}

/// The names of a list of sights are all different.
pub open spec fn sights_distinct(sights: Seq<WatcherSight>) -> bool {
    forall|i: int, j: int|
        #![trigger sights[i], sights[j]]
        0 <= i < j < sights.len() ==> sights[i].name@ != sights[j].name@
}

/// The watcher is among those of a list, and is expected to run.
pub open spec fn looked_at(sights: Seq<WatcherSight>, name: Seq<char>) -> bool {
    exists|i: int| 0 <= i < sights.len() && (#[trigger] sights[i]).name@ == name && sights[i].enabled
}

/// A round looks at every watcher that is expected to run, once, and at no other: what is then
/// known of it comes of that look alone, and what was known of the others stays.
pub proof fn round_looks_at_each_watcher(
    config: Config,
    consumer: Seq<char>,
    health: Map<Seq<char>, WatcherStateView>,
    sights: Seq<WatcherSight>,
    stamp: Seq<char>,
    now: Moment,
)
    requires
        sights_distinct(sights),
    ensures
        ({
            let found = round(config, consumer, health, sights, stamp, now);
            &&& forall|i: int|
                0 <= i < sights.len() && (#[trigger] sights[i]).enabled ==> {
                    let prev = known_watcher(health, sights[i].name@);
                    &&& found.health.dom().contains(sights[i].name@)
                    &&& found.health[sights[i].name@] == sight_next(
                        prev,
                        sight_outcome(config, consumer, prev, sights[i], now),
                        stamp,
                    )
                }
            &&& forall|name: Seq<char>|
                !looked_at(sights, name) ==> (#[trigger] found.health.dom().contains(name)
                    <==> health.dom().contains(name)) && (health.dom().contains(name)
                    ==> found.health[name] == health[name])
        }),
    decreases sights.len(),
{
    if sights.len() > 0 {
        let before = sights.drop_last();
        let last = sights.last();
        assert forall|i: int, j: int|
            #![trigger before[i], before[j]]
            0 <= i < j < before.len() implies before[i].name@ != before[j].name@ by {
            assert(sights[i].name@ != sights[j].name@);
        }
        round_looks_at_each_watcher(config, consumer, health, before, stamp, now);
        let half = round(config, consumer, health, before, stamp, now);
        let found = round(config, consumer, health, sights, stamp, now);
        assert(!looked_at(before, last.name@)) by {
            if looked_at(before, last.name@) {
                let i = choose|i: int|
                    0 <= i < before.len() && (#[trigger] before[i]).name@ == last.name@
                        && before[i].enabled;
                assert(sights[i].name@ != sights[sights.len() - 1].name@);
            }
        }
        assert(half.health.dom().contains(last.name@) <==> health.dom().contains(last.name@));
        assert(known_watcher(half.health, last.name@) == known_watcher(health, last.name@));
        assert forall|i: int| 0 <= i < sights.len() && (#[trigger] sights[i]).enabled implies ({
            let prev = known_watcher(health, sights[i].name@);
            &&& found.health.dom().contains(sights[i].name@)
            &&& found.health[sights[i].name@] == sight_next(
                prev,
                sight_outcome(config, consumer, prev, sights[i], now),
                stamp,
            )
        }) by {
            if i < before.len() {
                assert(before[i] == sights[i]);
                assert(sights[i].name@ != sights[sights.len() - 1].name@);
            }
        }
        assert forall|name: Seq<char>| !looked_at(sights, name) implies (
        #[trigger] found.health.dom().contains(name) <==> health.dom().contains(name)) && (
        health.dom().contains(name) ==> found.health[name] == health[name]) by {
            if looked_at(before, name) {
                let i = choose|i: int|
                    0 <= i < before.len() && (#[trigger] before[i]).name@ == name
                        && before[i].enabled;
                assert(sights[i] == before[i]);
                assert(looked_at(sights, name));
            }
            if last.enabled && last.name@ == name {
                assert(sights[sights.len() - 1].name@ == name);
                assert(looked_at(sights, name));
            }
            assert(half.health.dom().contains(name) <==> health.dom().contains(name));
        }
    }
}

/// A round announces exactly the watchers whose look calls for that, each with its run of
/// misses, and reports exactly those that call for an inject, with a down time no shorter than
/// that of any of them.
pub proof fn round_reports_what_it_found(
    config: Config,
    consumer: Seq<char>,
    health: Map<Seq<char>, WatcherStateView>,
    sights: Seq<WatcherSight>,
    stamp: Seq<char>,
    now: Moment,
    i: int,
)
    requires
        sights_distinct(sights),
        0 <= i < sights.len(),
    ensures
        ({
            let found = round(config, consumer, health, sights, stamp, now);
            let name = sights[i].name@;
            let prev = known_watcher(health, name);
            let outcome = sight_outcome(config, consumer, prev, sights[i], now);
            let next = sight_next(prev, outcome, stamp);
            &&& (exists|k: int|
                0 <= k < found.announce.len() && (#[trigger] found.announce[k]).0 == name)
                <==> sights[i].enabled && outcome == (SightOutcome::Missing {
                action: WatcherDownAction::EmitEvent,
            })
            &&& forall|k: int|
                0 <= k < found.announce.len() && (#[trigger] found.announce[k]).0 == name
                    ==> found.announce[k].1 == next.consecutive_missing
            &&& found.missing.contains(name) <==> sights[i].enabled && outcome == (
            SightOutcome::Missing { action: WatcherDownAction::InjectFallback })
            &&& sights[i].enabled && outcome == (SightOutcome::Missing {
                action: WatcherDownAction::InjectFallback,
            }) && whole_secs_since(next.down_since, now) is Some ==> found.max_down_secs is Some
                && found.max_down_secs->0 >= whole_secs_since(next.down_since, now)->0
        }),
    decreases sights.len(),
{
    let before = sights.drop_last();
    let last = sights.last();
    let half = round(config, consumer, health, before, stamp, now);
    let found = round(config, consumer, health, sights, stamp, now);
    let name = sights[i].name@;
    assert forall|a: int, b: int|
        #![trigger before[a], before[b]]
        0 <= a < b < before.len() implies before[a].name@ != before[b].name@ by {
        assert(sights[a].name@ != sights[b].name@);
    }
    round_looks_at_each_watcher(config, consumer, health, before, stamp, now);
    lemma_reported_names(config, consumer, health, before, stamp, now);
    if i < before.len() {
        round_reports_what_it_found(config, consumer, health, before, stamp, now, i);
        assert(before[i] == sights[i]);
        assert(last.name@ != name) by {
            assert(sights[i].name@ != sights[sights.len() - 1].name@);
        }
        let prev = known_watcher(half.health, last.name@);
        let outcome = sight_outcome(config, consumer, prev, last, now);
        let next = sight_next(prev, outcome, stamp);
        if last.enabled && outcome == (SightOutcome::Missing {
            action: WatcherDownAction::EmitEvent,
        }) {
            assert(found.announce == half.announce.push((last.name@, next.consecutive_missing)));
            if exists|k: int| 0 <= k < half.announce.len() && (#[trigger] half.announce[k]).0
                == name {
                let k = choose|k: int|
                    0 <= k < half.announce.len() && (#[trigger] half.announce[k]).0 == name;
                assert(found.announce[k].0 == name);
            }
            if exists|k: int| 0 <= k < found.announce.len() && (#[trigger] found.announce[k]).0
                == name {
                let k = choose|k: int|
                    0 <= k < found.announce.len() && (#[trigger] found.announce[k]).0 == name;
                assert(half.announce[k].0 == name);
            }
            assert forall|k: int|
                0 <= k < found.announce.len() && (#[trigger] found.announce[k]).0
                    == name implies found.announce[k].1 == found.health[name].consecutive_missing by {
                assert(half.announce[k].0 == name);
            }
        }
        if last.enabled && outcome == (SightOutcome::Missing {
            action: WatcherDownAction::InjectFallback,
        }) {
            assert(found.missing == half.missing.push(last.name@));
            if half.missing.contains(name) {
                let k = half.missing.index_of(name);
                assert(found.missing[k] == name);
            }
            if found.missing.contains(name) {
                let k = found.missing.index_of(name);
                assert(half.missing[k] == name);
            }
            longest_down_time_is_reported(
                half.max_down_secs,
                whole_secs_since(next.down_since, now),
            );
        }
    } else {
        assert(!looked_at(before, name)) by {
            if looked_at(before, name) {
                let j = choose|j: int|
                    0 <= j < before.len() && (#[trigger] before[j]).name@ == name
                        && before[j].enabled;
                assert(sights[j].name@ != sights[sights.len() - 1].name@);
            }
        }
        assert(half.health.dom().contains(name) <==> health.dom().contains(name));
        assert(known_watcher(half.health, name) == known_watcher(health, name));
        let prev = known_watcher(health, name);
        let outcome = sight_outcome(config, consumer, prev, last, now);
        let next = sight_next(prev, outcome, stamp);
        if last.enabled && outcome == (SightOutcome::Missing {
            action: WatcherDownAction::EmitEvent,
        }) {
            assert(found.announce[half.announce.len() as int] == (
                name,
                next.consecutive_missing,
            ));
        }
        if last.enabled && outcome == (SightOutcome::Missing {
            action: WatcherDownAction::InjectFallback,
        }) {
            assert(found.missing[half.missing.len() as int] == name);
            longest_down_time_is_reported(
                half.max_down_secs,
                whole_secs_since(next.down_since, now),
            );
        }
    }
}

/// A round reports only watchers that it looked at.
proof fn lemma_reported_names(
    config: Config,
    consumer: Seq<char>,
    health: Map<Seq<char>, WatcherStateView>,
    sights: Seq<WatcherSight>,
    stamp: Seq<char>,
    now: Moment,
)
    ensures
        ({
            let found = round(config, consumer, health, sights, stamp, now);
            &&& forall|k: int|
                0 <= k < found.announce.len() ==> looked_at(
                    sights,
                    (#[trigger] found.announce[k]).0,
                )
            &&& forall|k: int|
                0 <= k < found.missing.len() ==> looked_at(sights, #[trigger] found.missing[k])
        }),
    decreases sights.len(),
{
    if sights.len() > 0 {
        let before = sights.drop_last();
        let half = round(config, consumer, health, before, stamp, now);
        let found = round(config, consumer, health, sights, stamp, now);
        lemma_reported_names(config, consumer, health, before, stamp, now);
        assert forall|name: Seq<char>| looked_at(before, name) implies #[trigger] looked_at(
            sights,
            name,
        ) by {
            let i = choose|i: int|
                0 <= i < before.len() && (#[trigger] before[i]).name@ == name && before[i].enabled;
            assert(sights[i] == before[i]);
        }
        if sights.last().enabled {
            assert(sights[sights.len() - 1].name@ == sights.last().name@);
            assert(looked_at(sights, sights.last().name@));
        }
        assert forall|k: int| 0 <= k < found.announce.len() implies looked_at(
            sights,
            (#[trigger] found.announce[k]).0,
        ) by {
            if k < half.announce.len() {
                assert(looked_at(before, half.announce[k].0));
            }
        }
        assert forall|k: int| 0 <= k < found.missing.len() implies looked_at(
            sights,
            #[trigger] found.missing[k],
        ) by {
            if k < half.missing.len() {
                assert(looked_at(before, half.missing[k]));
            }
        }
    }
}

/// A watcher that was never looked at is expected to run, has missed nothing, and was neither
/// seen nor announced.
pub proof fn new_watcher_has_no_past(health: Map<Seq<char>, WatcherStateView>, name: Seq<char>)
    ensures
        health.dom().contains(name) ==> known_watcher(health, name) == health[name],
        !health.dom().contains(name) ==> ({
            let w = known_watcher(health, name);
            &&& w.enabled
            &&& w.consecutive_missing == 0
            &&& w.last_seen_running is None
            &&& w.event_emitted_at is None
            &&& w.down_since is None
        }),
{
}

/// An announcement leaves its stamp with the watcher that was announced, and touches nothing
/// else that is known.
pub proof fn announcement_is_stamped(
    health: Map<Seq<char>, WatcherStateView>,
    name: Seq<char>,
    stamp: Seq<char>,
    other: Seq<char>,
)
    ensures
        ({
            let n = event_noted(health, name, stamp);
            &&& n.dom().contains(other) <==> health.dom().contains(other)
            &&& other != name && health.dom().contains(other) ==> n[other] == health[other]
            &&& health.dom().contains(name) ==> n[name].event_emitted_at == Some(stamp)
                && n[name].consecutive_missing == health[name].consecutive_missing
                && n[name].down_since == health[name].down_since && n[name].last_seen_running
                == health[name].last_seen_running && n[name].enabled == health[name].enabled
        }),
{
}

/// Held against the list of watchers, what is known keeps exactly the listed ones, and of each
/// everything but whether it is expected to run, which the last entry of its name decides.
pub proof fn list_decides_who_is_expected(
    health: Map<Seq<char>, WatcherStateView>,
    sights: Seq<WatcherSight>,
    name: Seq<char>,
    i: int,
)
    ensures
        (forall|j: int| 0 <= j < sights.len() ==> (#[trigger] sights[j]).name@ != name)
            ==> !reconciled(health, sights).dom().contains(name),
        0 <= i < sights.len() && sights[i].name@ == name && (forall|j: int|
            i < j < sights.len() ==> (#[trigger] sights[j]).name@ != name) ==> {
            &&& reconciled(health, sights).dom().contains(name) <==> health.dom().contains(name)
            &&& health.dom().contains(name) ==> reconciled(health, sights)[name] == (
            WatcherStateView { enabled: sights[i].enabled, ..health[name] })
        },
{
    lemma_listed_enabled(sights, name, i);
}

proof fn lemma_listed_enabled(sights: Seq<WatcherSight>, name: Seq<char>, i: int)
    ensures
        (forall|j: int| 0 <= j < sights.len() ==> (#[trigger] sights[j]).name@ != name)
            ==> listed_enabled(sights, name) is None,
        0 <= i < sights.len() && sights[i].name@ == name && (forall|j: int|
            i < j < sights.len() ==> (#[trigger] sights[j]).name@ != name) ==> listed_enabled(
            sights,
            name,
        ) == Some(sights[i].enabled),
    decreases sights.len(),
{
    if sights.len() > 0 {
        let before = sights.drop_last();
        lemma_listed_enabled(before, name, i);
        assert forall|j: int| 0 <= j < before.len() implies before[j] == #[trigger] sights[j] by {}
        if forall|j: int| 0 <= j < sights.len() ==> (#[trigger] sights[j]).name@ != name {
            assert(sights[sights.len() - 1].name@ != name);
            assert forall|j: int| 0 <= j < before.len() implies (#[trigger] before[j]).name@
                != name by {
                assert(sights[j].name@ != name);
            }
        }
        if 0 <= i < sights.len() && sights[i].name@ == name && (forall|j: int|
            i < j < sights.len() ==> (#[trigger] sights[j]).name@ != name) {
            if i < before.len() {
                assert(sights[sights.len() - 1].name@ != name);
                assert forall|j: int| i < j < before.len() implies (#[trigger] before[j]).name@
                    != name by {
                    assert(sights[j].name@ != name);
                }
            }
        }
    }
}

/// A report holds what the round found, name by name and in the same order.
pub proof fn report_holds_what_was_found(report: RoundReport, found: RoundView, i: int)
    requires
        reports(report, found),
    ensures
        report.missing@.len() == found.missing.len(),
        0 <= i < found.missing.len() ==> report.missing@[i]@ == found.missing[i],
        report.announce@.len() == found.announce.len(),
        0 <= i < found.announce.len() ==> report.announce@[i].name@ == found.announce[i].0
            && report.announce@[i].consecutive_missing == found.announce[i].1,
        report.max_down_secs == found.max_down_secs,
{
    assert(name_views(report.missing@).len() == found.missing.len());
    assert(announced(report.announce@).len() == found.announce.len());
    if 0 <= i < found.missing.len() {
        assert(name_views(report.missing@)[i] == found.missing[i]);
    }
    if 0 <= i < found.announce.len() {
        assert(announced(report.announce@)[i] == found.announce[i]);
    }
}

/// What a look says of a watcher is the first of these that holds: it runs, or need not; it is
/// being armed; it ran, or was started, within the grace period; it left on its own, where that
/// is excused; it is missing.
pub proof fn look_names_what_it_saw(
    config: Config,
    consumer: Seq<char>,
    prev: WatcherStateView,
    sight: WatcherSight,
    now: Moment,
)
    ensures
        ({
            let outcome = sight_outcome(config, consumer, prev, sight, now);
            let grace = config.watcher_monitor.grace_secs;
            let runs = sight.min_count == 0 || !sight.pidfile_down;
            let recent = time::elapsed_under(prev.last_seen_running, now, grace as int) || (
            sight.runtime_age_ms is Some && sight.runtime_age_ms->0 < grace * 1000);
            let left = config.watcher_monitor.clean_exit_grace_secs > 0 && sight.cleanly_exited;
            &&& outcome == SightOutcome::Running <==> runs
            &&& outcome == SightOutcome::Arming <==> !runs && sight.arming
            &&& outcome == SightOutcome::InGrace <==> !runs && !sight.arming && recent
            &&& outcome == SightOutcome::CleanExit <==> !runs && !sight.arming && !recent && left
            &&& outcome is Missing <==> !runs && !sight.arming && !recent && !left
        }),
{
}

} // verus!
