//! Signs of life of the watched session.
use crate::config::StuckDetectionConfig;
use crate::state::{State, StateView};
use crate::text;
use crate::text::text_eq;
use crate::time;
use crate::time::{as_opt_str, current_moment, stamp_under, Moment};
use vstd::prelude::*;
use vstd::string::StrSliceExecFns;

verus! {

/// The session runs a tool call, or ran one less than `window_secs` seconds
/// before `now`. A stamp that does not parse is no sign of activity.
pub open spec fn actively_turning(
    s: StateView,
    bashes: u64,
    window_secs: u64,
    now: Moment,
) -> bool {
    bashes > 0 || time::elapsed_under(s.last_active_at, now, window_secs as int)
}

/// The verdict on activity that may hold a watcher-down inject back: never while
/// the event consumer is down, and never for a wedged pane, whose leftover
/// shells prove nothing.
pub open spec fn watcher_down_turning(
    s: StateView,
    bashes: u64,
    suppress_enabled: bool,
    window_secs: u64,
    consumer_down: bool,
    pane_wedged: bool,
    now: Moment,
) -> bool {
    !consumer_down && !pane_wedged && suppress_enabled && actively_turning(
        s,
        bashes,
        window_secs,
        now,
    )
}

/// Activity holds an action back, if it is allowed to.
pub open spec fn held_by_activity(
    s: StateView,
    bashes: u64,
    suppress_enabled: bool,
    window_secs: u64,
    now: Moment,
) -> bool {
    suppress_enabled && actively_turning(s, bashes, window_secs, now)
}

/// [`actively_turning`], executable.
pub fn main_loop_actively_turning_at(
    state: &State,
    bashes: u64,
    window_secs: u64,
    now: Moment,
) -> (r: bool)
    ensures
        r == actively_turning(state@, bashes, window_secs, now),
{
    proof {
        reveal(crate::state::state_view);
    }
    if bashes > 0 {
        return true;
    }
    stamp_under(as_opt_str(&state.last_active_at), now, window_secs)
}

/// [`actively_turning`] at the present instant.
pub fn main_loop_actively_turning(state: &State, bashes: u64, window_secs: u64) -> (r: bool)
    ensures
        exists|now: Moment| r == #[trigger] actively_turning(state@, bashes, window_secs, now),
{
    let now = current_moment();
    main_loop_actively_turning_at(state, bashes, window_secs, now)
}

/// [`watcher_down_turning`], executable.
pub fn watcher_down_actively_turning_at(
    state: &State,
    bashes: u64,
    suppress_enabled: bool,
    window_secs: u64,
    consumer_down: bool,
    pane_wedged: bool,
    now: Moment,
) -> (r: bool)
    ensures
        r == watcher_down_turning(
            state@,
            bashes,
            suppress_enabled,
            window_secs,
            consumer_down,
            pane_wedged,
            now,
        ),
{
    if consumer_down || pane_wedged {
        return false;
    }
    suppress_enabled && main_loop_actively_turning_at(state, bashes, window_secs, now)
}

/// [`watcher_down_turning`] at the present instant.
pub fn watcher_down_actively_turning(
    state: &State,
    bashes: u64,
    suppress_enabled: bool,
    window_secs: u64,
    consumer_down: bool,
    pane_wedged: bool,
) -> (r: bool)
    ensures
        exists|now: Moment|
            r == #[trigger] watcher_down_turning(
                state@,
                bashes,
                suppress_enabled,
                window_secs,
                consumer_down,
                pane_wedged,
                now,
            ),
{
    let now = current_moment();
    watcher_down_actively_turning_at(
        state,
        bashes,
        suppress_enabled,
        window_secs,
        consumer_down,
        pane_wedged,
        now,
    )
}

/// Whether activity at `now` holds the fresh-clear prompt back.
pub fn fresh_clear_inject_suppressed_at(
    state: &State,
    bashes: u64,
    suppress_enabled: bool,
    window_secs: u64,
    now: Moment,
) -> (r: bool)
    ensures
        r == held_by_activity(state@, bashes, suppress_enabled, window_secs, now),
{
    suppress_enabled && main_loop_actively_turning_at(state, bashes, window_secs, now)
}

/// Whether activity holds the fresh-clear prompt back.
pub fn fresh_clear_inject_suppressed(
    state: &State,
    bashes: u64,
    suppress_enabled: bool,
    window_secs: u64,
) -> (r: bool)
    ensures
        exists|now: Moment|
            r == #[trigger] held_by_activity(state@, bashes, suppress_enabled, window_secs, now),
{
    let now = current_moment();
    fresh_clear_inject_suppressed_at(state, bashes, suppress_enabled, window_secs, now)
}

/// Whether activity at `now` holds the restart of a dead session back.
pub fn dead_process_restart_suppressed_at(
    state: &State,
    bashes: u64,
    suppress_enabled: bool,
    window_secs: u64,
    now: Moment,
) -> (r: bool)
    ensures
        r == held_by_activity(state@, bashes, suppress_enabled, window_secs, now),
{
    suppress_enabled && main_loop_actively_turning_at(state, bashes, window_secs, now)
}

/// Whether activity holds the restart of a dead session back.
pub fn dead_process_restart_suppressed(
    state: &State,
    bashes: u64,
    suppress_enabled: bool,
    window_secs: u64,
) -> (r: bool)
    ensures
        exists|now: Moment|
            r == #[trigger] held_by_activity(state@, bashes, suppress_enabled, window_secs, now),
{
    let now = current_moment();
    dead_process_restart_suppressed_at(state, bashes, suppress_enabled, window_secs, now)
}

/// Whether the last acknowledgement is younger than `stale_secs`. Without an
/// acknowledgement there is no proof of life.
pub fn ack_liveness_fresh(liveness_age: Option<u64>, stale_secs: u64) -> (r: bool)
    ensures
        r == (liveness_age matches Some(age) && age < stale_secs),
{
    match liveness_age {
        Some(age) => age < stale_secs,
        None => false,
    }
}

/// Whether a fresh acknowledgement holds a clear-recovery prompt back. It never
/// does for a pane that shows a wedge banner.
pub fn ack_liveness_suppresses_clear_inject(ack_alive: bool, wedged_now: bool) -> (r: bool)
    ensures
        r == (ack_alive && !wedged_now),
{
    ack_alive && !wedged_now
}

/// Whether a fresh session is due its prompt: it has looked dead for long
/// enough, has had no prompt yet, sits at the idle prompt, and no menu awaits an
/// answer there.
pub fn fresh_inject_due(
    dead_checks: u32,
    fresh_inject_checks: u32,
    already_injected: bool,
    is_idle: bool,
    interactive_prompt: bool,
) -> (r: bool)
    ensures
        r == (dead_checks >= fresh_inject_checks && !already_injected && is_idle
            && !interactive_prompt),
{
    dead_checks >= fresh_inject_checks && !already_injected && is_idle && !interactive_prompt
}

/// Whether a session that counts as dead is alive after all: a second look, at
/// the threshold, found tokens or shells.
pub fn should_self_heal(
    dead_checks: u32,
    checks_required: u32,
    retry_tokens: u64,
    retry_bashes: u64,
) -> (r: bool)
    ensures
        r == (dead_checks >= checks_required && (retry_tokens > 0 || retry_bashes > 0)),
{
    dead_checks >= checks_required && (retry_tokens > 0 || retry_bashes > 0)
}

/// A directory entry that a workload may have left.
#[derive(Debug, Clone)]
pub struct WorkloadFile {
    /// File name, without its directory.
    pub name: String,
    /// Whether it is a regular file.
    pub is_file: bool,
    /// When it was last modified, if that could be read.
    pub modified: Option<Moment>,
}

/// The name has the extension `heartbeat`, and more than that.
pub open spec fn heartbeat_name(name: Seq<char>) -> bool {
    name.len() > 10 && name.subrange(name.len() - 10, name.len() as int) == ".heartbeat"@
}

/// The file is a heartbeat that is not older than `max_age_secs`, to the nanosecond. One from
/// the future counts: the clock has just not caught up.
pub open spec fn heartbeat_fresh(f: WorkloadFile, max_age_secs: u64, now: Moment) -> bool {
    f.is_file && heartbeat_name(f.name@) && match f.modified {
        Some(m) => now.total_nanos() - m.total_nanos() <= max_age_secs * 1_000_000_000,
        None => false,
    }
}

/// Some entry of the directory is a fresh heartbeat.
pub open spec fn some_heartbeat_fresh(
    list: Seq<WorkloadFile>,
    max_age_secs: u64,
    now: Moment,
) -> bool {
    exists|i: int| 0 <= i < list.len() && heartbeat_fresh(#[trigger] list[i], max_age_secs, now)
}

fn has_heartbeat_name(name: &str) -> (r: bool)
    ensures
        r == heartbeat_name(name@),
{
    proof {
        reveal_strlit(".heartbeat");
    }
    let n: usize = name.unicode_len();
    if n <= 10 {
        return false;
    }
    text_eq(name.substring_char(n - 10, n), ".heartbeat")
}

fn is_fresh_heartbeat(f: &WorkloadFile, max_age_secs: u64, now: Moment) -> (r: bool)
    ensures
        r == heartbeat_fresh(*f, max_age_secs, now),
{
    if !f.is_file || !has_heartbeat_name(f.name.as_str()) {
        return false;
    }
    match f.modified {
        Some(m) => {
            let written: i128 = (m.secs as i128) * 1_000_000_000 + m.nanos as i128;
            let present: i128 = (now.secs as i128) * 1_000_000_000 + now.nanos as i128;
            present - written <= (max_age_secs as i128) * 1_000_000_000
        },
        None => false,
    }
}

/// Whether some workload has left a fresh heartbeat, given the entries of the
/// directory (`None` when it cannot be read).
pub fn workload_heartbeat_fresh(
    entries: Option<&Vec<WorkloadFile>>,
    max_age_secs: u64,
    now: Moment,
) -> (r: bool)
    ensures
        r == match entries {
            Some(list) => some_heartbeat_fresh(list@, max_age_secs, now),
            None => false,
        },
{
    match entries {
        Some(list) => {
            let mut i: usize = 0;
            while i < list.len()
                invariant
                    entries == Some(list),
                    i <= list@.len(),
                    forall|j: int|
                        0 <= j < i ==> !heartbeat_fresh(#[trigger] list@[j], max_age_secs, now),
                decreases list@.len() - i,
            {
                if is_fresh_heartbeat(&list[i], max_age_secs, now) {
                    assert(heartbeat_fresh(list@[i as int], max_age_secs, now));
                    return true;
                }
                i = i + 1;
            }
            false
        },
        None => false,
    }
}

/// Whether a workload heartbeat speaks against the session being stuck: only
/// when workload heartbeats are looked at, and one is fresh.
pub fn workload_heartbeat_suppresses_stuck(
    config: &StuckDetectionConfig,
    entries: Option<&Vec<WorkloadFile>>,
    now: Moment,
) -> (r: bool)
    ensures
        r == (config.enabled && match entries {
            Some(list) => some_heartbeat_fresh(
                list@,
                config.workload_heartbeat_max_age_secs,
                now,
            ),
            None => false,
        }),
{
    if !config.enabled {
        return false;
    }
    workload_heartbeat_fresh(entries, config.workload_heartbeat_max_age_secs, now)
}

/// Whether workloads or subagents speak against the session being stuck.
pub fn stuck_suppressed_by_activity(workload_fresh: bool, active_subagents: u32) -> (r: bool)
    ensures
        r == (workload_fresh || active_subagents > 0),
{
    workload_fresh || active_subagents > 0
}

/// The label of the first sign of life, in order of precedence.
pub open spec fn liveness_reason(
    workload_fresh: bool,
    active_subagents: u32,
    loop_thinking: bool,
    actively_turning: bool,
) -> Option<Seq<char>> {
    if workload_fresh {
        Some("workload_heartbeat_fresh"@)
    } else if active_subagents > 0 {
        Some("active_subagents"@)
    } else if loop_thinking {
        Some("loop_thinking"@)
    } else if actively_turning {
        Some("loop_actively_turning"@)
    } else {
        None
    }
}

/// Why a stale acknowledgement does not mean that the session is stuck, if it
/// does not.
pub fn heartbeat_stale_liveness_reason(
    workload_fresh: bool,
    active_subagents: u32,
    loop_thinking: bool,
    actively_turning: bool,
) -> (r: Option<&'static str>)
    ensures
        time::opt_str_view(r) == liveness_reason(
            workload_fresh,
            active_subagents,
            loop_thinking,
            actively_turning,
        ),
{
    if stuck_suppressed_by_activity(workload_fresh, active_subagents) {
        return Some(
            if workload_fresh {
                "workload_heartbeat_fresh"
            } else {
                "active_subagents"
            },
        );
    }
    if loop_thinking {
        return Some("loop_thinking");
    }
    if actively_turning {
        return Some("loop_actively_turning");
    }
    None
}

/// A down consumer or a wedged pane is never taken for activity, whatever else
/// is seen.
pub proof fn exempt_panes_never_count_as_active(
    s: StateView,
    bashes: u64,
    suppress_enabled: bool,
    window_secs: u64,
    consumer_down: bool,
    pane_wedged: bool,
    now: Moment,
)
    requires
        consumer_down || pane_wedged,
    ensures
        !watcher_down_turning(
            s,
            bashes,
            suppress_enabled,
            window_secs,
            consumer_down,
            pane_wedged,
            now,
        ),
{
}

/// A wider window never sees less activity.
pub proof fn wider_window_sees_more(
    s: StateView,
    bashes: u64,
    narrow: u64,
    wide: u64,
    now: Moment,
)
    requires
        narrow <= wide,
        actively_turning(s, bashes, narrow, now),
    ensures
        actively_turning(s, bashes, wide, now),
{
}

/// A session is at work exactly if it runs a shell, or its last activity is younger than the
/// window, by its stamp.
pub proof fn activity_is_a_shell_or_a_recent_call(
    s: StateView,
    bashes: u64,
    window_secs: u64,
    now: Moment,
)
    ensures
        bashes > 0 ==> actively_turning(s, bashes, window_secs, now),
        time::elapsed_under(s.last_active_at, now, window_secs as int) ==> actively_turning(
            s,
            bashes,
            window_secs,
            now,
        ),
        bashes == 0 && !time::elapsed_under(s.last_active_at, now, window_secs as int)
            ==> !actively_turning(s, bashes, window_secs, now),
{
}

/// Activity holds an action back exactly where it is allowed to; for missing watchers also not
/// while the consumer of events is down or the pane is wedged.
pub proof fn activity_holds_back_where_allowed(
    s: StateView,
    bashes: u64,
    allowed: bool,
    window_secs: u64,
    consumer_down: bool,
    pane_wedged: bool,
    now: Moment,
)
    ensures
        ({
            let active = bashes > 0 || time::elapsed_under(
                s.last_active_at,
                now,
                window_secs as int,
            );
            &&& held_by_activity(s, bashes, allowed, window_secs, now) <==> allowed && active
            &&& watcher_down_turning(
                s,
                bashes,
                allowed,
                window_secs,
                consumer_down,
                pane_wedged,
                now,
            ) <==> allowed && active && !consumer_down && !pane_wedged
        }),
{
}

/// A workload gives a sign of life by a regular file with the extension `heartbeat` and more
/// to its name, written no longer ago than the bound, or in the future; any one will do.
pub proof fn one_fresh_heartbeat_will_do(
    list: Seq<WorkloadFile>,
    i: int,
    max_age_secs: u64,
    now: Moment,
)
    requires
        0 <= i < list.len(),
    ensures
        list[i].is_file && text::ends_with(list[i].name@, ".heartbeat"@) && list[i].name@.len()
            > ".heartbeat"@.len() && (list[i].modified matches Some(m) && now.total_nanos()
            <= m.total_nanos() + max_age_secs * 1_000_000_000) ==> some_heartbeat_fresh(
            list,
            max_age_secs,
            now,
        ),
        some_heartbeat_fresh(list, max_age_secs, now) ==> exists|k: int|
            0 <= k < list.len() && (#[trigger] list[k]).is_file && text::ends_with(
                list[k].name@,
                ".heartbeat"@,
            ) && list[k].name@.len() > ".heartbeat"@.len() && (list[k].modified matches Some(m)
                && now.total_nanos() <= m.total_nanos() + max_age_secs * 1_000_000_000),
{
    reveal_strlit(".heartbeat");
    if list[i].is_file && text::ends_with(list[i].name@, ".heartbeat"@) && list[i].name@.len()
        > ".heartbeat"@.len() && (list[i].modified matches Some(m) && now.total_nanos()
        <= m.total_nanos() + max_age_secs * 1_000_000_000) {
        assert(heartbeat_fresh(list[i], max_age_secs, now));
    }
    if some_heartbeat_fresh(list, max_age_secs, now) {
        let k = choose|k: int|
            0 <= k < list.len() && heartbeat_fresh(#[trigger] list[k], max_age_secs, now);
        assert(text::ends_with(list[k].name@, ".heartbeat"@));
    }
}

/// A prompt after a clear is held back exactly by an acknowledgement younger than the bound, on
/// a pane that is not wedged.
pub proof fn acknowledgement_holds_a_prompt_back(
    age: Option<u64>,
    stale_secs: u64,
    wedged: bool,
    fresh: bool,
    holds: bool,
)
    requires
        call_ensures(ack_liveness_fresh, (age, stale_secs), fresh),
        call_ensures(ack_liveness_suppresses_clear_inject, (fresh, wedged), holds),
    ensures
        holds <==> age is Some && age->0 < stale_secs && !wedged,
{
}

/// A session that has looked dead for long enough is healed where a second look finds tokens or
/// shells; and it is due a prompt where it has had none, sits idle, and no menu is up.
pub proof fn lasting_death_is_healed_or_prompted(
    checks: u32,
    required: u32,
    tokens: u64,
    bashes: u64,
    injected: bool,
    idle: bool,
    menu: bool,
    heals: bool,
    prompts: bool,
)
    requires
        call_ensures(should_self_heal, (checks, required, tokens, bashes), heals),
        call_ensures(fresh_inject_due, (checks, required, injected, idle, menu), prompts),
    ensures
        checks < required ==> !heals && !prompts,
        checks >= required ==> (heals <==> tokens > 0 || bashes > 0),
        checks >= required ==> (prompts <==> !injected && idle && !menu),
{
}

/// A workload that gives signs of life, or a subagent, keeps a session from being stuck; files
/// count only where they are looked at, and only where there are any.
pub proof fn workload_or_subagent_is_activity(
    config: StuckDetectionConfig,
    list: Vec<WorkloadFile>,
    now: Moment,
    active_subagents: u32,
    fresh: bool,
    none: bool,
    excused: bool,
)
    requires
        call_ensures(workload_heartbeat_suppresses_stuck, (&config, Some(&list), now), fresh),
        call_ensures(
            workload_heartbeat_suppresses_stuck,
            (&config, None::<&Vec<WorkloadFile>>, now),
            none,
        ),
        call_ensures(stuck_suppressed_by_activity, (fresh, active_subagents), excused),
    ensures
        !none,
        !config.enabled ==> !fresh,
        config.enabled ==> (fresh <==> some_heartbeat_fresh(
            list@,
            config.workload_heartbeat_max_age_secs,
            now,
        )),
        excused <==> fresh || active_subagents > 0,
{
}

/// Of several signs of life the first is named: a workload, then subagents, then thinking, then
/// work in the main loop; without any there is none to name.
pub proof fn first_sign_of_life_is_named(
    workload: bool,
    subagents: u32,
    thinking: bool,
    turning: bool,
)
    ensures
        ({
            let named = liveness_reason(workload, subagents, thinking, turning);
            &&& named is None <==> !workload && subagents == 0 && !thinking && !turning
            &&& workload ==> named == Some("workload_heartbeat_fresh"@)
            &&& !workload && subagents > 0 ==> named == Some("active_subagents"@)
            &&& !workload && subagents == 0 && thinking ==> named == Some("loop_thinking"@)
            &&& !workload && subagents == 0 && !thinking && turning ==> named == Some(
                "loop_actively_turning"@,
            )
        }),
{
}

} // verus!
