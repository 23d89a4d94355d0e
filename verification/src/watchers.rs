//! Watchers: whether one is down, and what that calls for.
use crate::config::NamesConfig;
use crate::text;
use crate::text::{
    base_name_start, chars_of, contains_stretch, decimal_text, first_word_range, parse_u32,
    stretch_ends_with, text_eq, trim,
};
use crate::time;
use crate::time::{current_moment, stamp_at_least, stamp_under, Moment};
use crate::watcher_health;
use crate::watcher_health::list_has;
use vstd::prelude::*;
use vstd::string::StringExecFns;

verus! {

/// Whether the event consumer is among the missing watchers. Without a consumer
/// configured the answer is no.
pub fn consumer_watcher_missing(missing: &[String], consumer_name: &str) -> (r: bool)
    ensures
        r == (consumer_name@.len() > 0 && watcher_health::name_listed(missing@, consumer_name@)),
{
    !consumer_name.is_empty() && list_has(missing, consumer_name)
}

/// The test for a name other than the consumer's.
pub open spec fn not_named(consumer: Seq<char>) -> spec_fn(String) -> bool {
    |n: String| n@ != consumer
}

/// The names other than the consumer's, in their order.
pub open spec fn other_names(names: Seq<String>, consumer: Seq<char>) -> Seq<String> {
    names.filter(not_named(consumer))
}

/// The watchers to announce as down: all but the event consumer, which cannot
/// read of its own absence. `None` when that leaves nobody.
pub fn filter_consumer_for_event_emit(affected: &[String], consumer_name: &str) -> (r: Option<
    Vec<String>,
>)
    ensures
        r is None <==> other_names(affected@, consumer_name@).len() == 0,
        r matches Some(v) ==> v@ == other_names(affected@, consumer_name@),
{
    let ghost keep = not_named(consumer_name@);
    let mut out: Vec<String> = Vec::new();
    let mut i: usize = 0;
    proof {
        reveal(Seq::filter);
        assert(affected@.take(0).filter(keep) == Seq::<String>::empty());
    }
    while i < affected.len()
        invariant
            i <= affected@.len(),
            keep == not_named(consumer_name@),
            out@ == affected@.take(i as int).filter(keep),
        decreases affected@.len() - i,
    {
        let ghost longer = affected@.take(i + 1);
        proof {
            reveal(Seq::filter);
            assert(longer.drop_last() == affected@.take(i as int));
            assert(longer.last() == affected@[i as int]);
        }
        if !text_eq(affected[i].as_str(), consumer_name) {
            out.push(affected[i].clone());
        }
        i = i + 1;
    }
    assert(affected@.take(i as int) == affected@);
    if out.len() == 0 {
        None
    } else {
        Some(out)
    }
}

/// What a missing watcher calls for.
#[derive(Debug, Clone, Copy, PartialEq, Eq, Structural)]
pub enum WatcherDownAction {
    Nothing,
    /// Announce it as an event: the quiet way.
    EmitEvent,
    /// Type it into the session: the loud way.
    InjectFallback,
}

/// What a watcher missing for `missing` cycles in a row calls for. The consumer
/// of events is never announced by one. An announced absence is left alone for
/// the grace period; past it, and past the inject threshold, it is injected.
pub open spec fn down_action(
    is_consumer: bool,
    missing: u32,
    emitted_at: Option<Seq<char>>,
    event_threshold: u32,
    inject_threshold: u32,
    grace_secs: u64,
    now: Moment,
) -> WatcherDownAction {
    if missing >= inject_threshold {
        if !is_consumer && time::elapsed_under(emitted_at, now, grace_secs as int) {
            WatcherDownAction::Nothing
        } else {
            WatcherDownAction::InjectFallback
        }
    } else if !is_consumer && emitted_at is None && missing >= event_threshold {
        WatcherDownAction::EmitEvent
    } else {
        WatcherDownAction::Nothing
    }
}

/// [`down_action`], executable.
pub fn evaluate_watcher_down_action_at(
    is_consumer_watcher: bool,
    consecutive_missing: u32,
    event_emitted_at: Option<&str>,
    event_threshold: u32,
    inject_threshold: u32,
    event_grace_secs: u64,
    now: Moment,
) -> (r: WatcherDownAction)
    ensures
        r == down_action(
            is_consumer_watcher,
            consecutive_missing,
            time::opt_str_view(event_emitted_at),
            event_threshold,
            inject_threshold,
            event_grace_secs,
            now,
        ),
{
    if is_consumer_watcher {
        if consecutive_missing >= inject_threshold {
            return WatcherDownAction::InjectFallback;
        }
        return WatcherDownAction::Nothing;
    }
    if event_emitted_at.is_some() {
        if stamp_under(event_emitted_at, now, event_grace_secs) {
            return WatcherDownAction::Nothing;
        }
        if consecutive_missing >= inject_threshold {
            return WatcherDownAction::InjectFallback;
        }
        return WatcherDownAction::Nothing;
    }
    if consecutive_missing >= event_threshold && consecutive_missing < inject_threshold {
        return WatcherDownAction::EmitEvent;
    }
    if consecutive_missing >= inject_threshold {
        return WatcherDownAction::InjectFallback;
    }
    WatcherDownAction::Nothing
}

/// [`down_action`] at the present instant.
pub fn evaluate_watcher_down_action(
    is_consumer_watcher: bool,
    consecutive_missing: u32,
    event_emitted_at: Option<&str>,
    event_threshold: u32,
    inject_threshold: u32,
    event_grace_secs: u64,
) -> (r: WatcherDownAction)
    ensures
        exists|now: Moment|
            r == #[trigger] down_action(
                is_consumer_watcher,
                consecutive_missing,
                time::opt_str_view(event_emitted_at),
                event_threshold,
                inject_threshold,
                event_grace_secs,
                now,
            ),
{
    let now = current_moment();
    evaluate_watcher_down_action_at(
        is_consumer_watcher,
        consecutive_missing,
        event_emitted_at,
        event_threshold,
        inject_threshold,
        event_grace_secs,
        now,
    )
}

/// The last watcher-down inject is at least `cooldown_secs` seconds old, or there
/// was none, or its stamp does not parse.
pub open spec fn inject_due(last: Option<Seq<char>>, cooldown_secs: u64, now: Moment) -> bool {
    match time::opt_elapsed_ms(last, now) {
        Some(ms) => ms >= cooldown_secs * 1000,
        None => true,
    }
}

/// [`inject_due`], executable.
pub fn watcher_inject_due_at(
    last_watcher_inject: Option<&str>,
    cooldown_secs: u64,
    now: Moment,
) -> (r: bool)
    ensures
        r == inject_due(time::opt_str_view(last_watcher_inject), cooldown_secs, now),
{
    !stamp_under(last_watcher_inject, now, cooldown_secs)
}

/// [`inject_due`] at the present instant. No other interrupt plays a part in it.
pub fn watcher_inject_due(last_watcher_inject: Option<&str>, cooldown_secs: u64) -> (r: bool)
    ensures
        exists|now: Moment|
            r == #[trigger] inject_due(
                time::opt_str_view(last_watcher_inject),
                cooldown_secs,
                now,
            ),
{
    let now = current_moment();
    watcher_inject_due_at(last_watcher_inject, cooldown_secs, now)
}

/// How many of the answers are yes.
pub open spec fn count_true(answers: Seq<bool>) -> nat
    decreases answers.len(),
{
    if answers.len() == 0 {
        0
    } else if answers.last() {
        count_true(answers.drop_last()) + 1
    } else {
        count_true(answers.drop_last())
    }
}

/// Whether fewer than `min_count` of the processes are alive, as the probe
/// answers for each of them.
pub fn watcher_is_down(
    matched_pids: &[u32],
    min_count: u32,
    pid_genuinely_alive: impl Fn(u32) -> bool,
) -> (r: bool)
    requires
        forall|i: int|
            0 <= i < matched_pids@.len() ==> call_requires(
                pid_genuinely_alive,
                (#[trigger] matched_pids@[i],),
            ),
    ensures
        exists|alive: Seq<bool>|
            alive.len() == matched_pids@.len() && (forall|i: int|
                0 <= i < alive.len() ==> call_ensures(
                    pid_genuinely_alive,
                    (matched_pids@[i],),
                    #[trigger] alive[i],
                )) && r == (#[trigger] count_true(alive) < min_count),
{
    let ghost mut answers: Seq<bool> = Seq::empty();
    let mut alive: u64 = 0;
    let mut i: usize = 0;
    while i < matched_pids.len()
        invariant
            i <= matched_pids@.len(),
            forall|k: int|
                0 <= k < matched_pids@.len() ==> call_requires(
                    pid_genuinely_alive,
                    (#[trigger] matched_pids@[k],),
                ),
            answers.len() == i,
            forall|k: int|
                0 <= k < i ==> call_ensures(
                    pid_genuinely_alive,
                    (matched_pids@[k],),
                    #[trigger] answers[k],
                ),
            alive == count_true(answers),
            alive <= i,
        decreases matched_pids@.len() - i,
    {
        let answer = pid_genuinely_alive(matched_pids[i]);
        let ghost before = answers;
        proof {
            answers = answers.push(answer);
            assert(answers.drop_last() == before);
        }
        if answer {
            alive = alive + 1;
        }
        i = i + 1;
    }
    let r = alive < min_count as u64;
    assert(r == (count_true(answers) < min_count));
    r
}

/// Whether a watcher is down, going by its pid file: it is up only when the file
/// names a process that is alive and that is this watcher.
pub fn pidfile_watcher_is_down(
    recorded_pid: Option<u32>,
    pid_alive: bool,
    cmdline_matches: bool,
) -> (r: bool)
    ensures
        r == !(recorded_pid is Some && pid_alive && cmdline_matches),
{
    !(recorded_pid.is_some() && pid_alive && cmdline_matches)
}

/// The name by which a watcher is recognised: the file name of the first word of
/// its start command, without a script extension.
pub open spec fn watcher_stem(start_cmd: Seq<char>) -> Seq<char> {
    let base = text::after_last_slash(text::first_word(start_cmd));
    if text::ends_with(base, ".sh"@) {
        base.subrange(0, base.len() - 3)
    } else if text::ends_with(base, ".bash"@) {
        base.subrange(0, base.len() - 5)
    } else if text::ends_with(base, ".py"@) {
        base.subrange(0, base.len() - 3)
    } else {
        base
    }
}

/// Whether a command line looks like the watcher: it holds the watcher's name.
/// The launcher replaces itself by another program, so its own path need not
/// show. A watcher without a name matches nothing.
pub fn cmdline_matches_watcher(cmdline: &str, start_cmd: &str) -> (r: bool)
    ensures
        r == (watcher_stem(start_cmd@).len() > 0 && text::occurs_in(
            cmdline@,
            watcher_stem(start_cmd@),
        )),
{
    proof {
        reveal_strlit(".sh");
        reveal_strlit(".bash");
        reveal_strlit(".py");
    }
    let cmd = chars_of(start_cmd);
    let (from, to) = first_word_range(&cmd);
    let base = base_name_start(&cmd, from, to);
    let ghost name = cmd@.subrange(base as int, to as int);
    let end: usize = if stretch_ends_with(&cmd, base, to, ".sh") {
        to - 3
    } else if stretch_ends_with(&cmd, base, to, ".bash") {
        to - 5
    } else if stretch_ends_with(&cmd, base, to, ".py") {
        to - 3
    } else {
        to
    };
    assert(cmd@.subrange(base as int, end as int) == name.subrange(0, end - base));
    assert(name.subrange(0, name.len() as int) == name);
    if end == base {
        return false;
    }
    let line = chars_of(cmdline);
    contains_stretch(&line, &cmd, base, end)
}

/// The pid that the text of a pid file holds (`None` for a missing file).
pub open spec fn recorded_pid(contents: Option<Seq<char>>) -> Option<u32> {
    match contents {
        Some(c) => text::parsed_u32(text::trimmed(c)),
        None => None,
    }
}

/// Reads a pid file: one number, with white space around it allowed.
pub fn read_watcher_pid(contents: Option<&str>) -> (r: Option<u32>)
    ensures
        r == recorded_pid(time::opt_str_view(contents)),
{
    match contents {
        Some(c) => parse_u32(trim(c)),
        None => None,
    }
}

/// The pid that a watcher has left for itself: the one in its lock file, or else
/// the one in its pid file.
pub fn read_watcher_recorded_pid(lock: Option<&str>, pid: Option<&str>) -> (r: Option<u32>)
    ensures
        r == (match recorded_pid(time::opt_str_view(lock)) {
            Some(p) => Some(p),
            None => recorded_pid(time::opt_str_view(pid)),
        }),
{
    match read_watcher_pid(lock) {
        Some(p) => Some(p),
        None => read_watcher_pid(pid),
    }
}

/// The directory of the watchers' pid and lock files: the override, else the
/// runtime directory, else the fixed one.
pub fn watcher_pid_dir(
    names: &NamesConfig,
    pid_dir: Option<&str>,
    runtime_dir: Option<&str>,
) -> (r: String)
    ensures
        r@ == (match (pid_dir, runtime_dir) {
            (Some(d), _) => d@,
            (None, Some(d)) => d@,
            (None, None) => "/var/run/"@ + names.program@,
        }),
{
    match pid_dir {
        Some(d) => d.to_owned(),
        None => match runtime_dir {
            Some(d) => d.to_owned(),
            None => "/var/run/".to_owned().concat(names.program.as_str()),
        },
    }
}

/// What follows the last closing bracket of the text, or nothing when there is
/// none.
pub open spec fn after_last_bracket(s: Seq<char>) -> Option<Seq<char>>
    decreases s.len(),
{
    if s.len() == 0 {
        None
    } else if s.last() == ')' {
        Some(Seq::empty())
    } else {
        match after_last_bracket(s.drop_last()) {
            Some(t) => Some(t.push(s.last())),
            None => None,
        }
    }
}

/// The process status line reports a process that has ended and waits to be
/// reaped: the first word after the command name is `Z`.
pub open spec fn reports_zombie(stat: Seq<char>) -> bool {
    match after_last_bracket(stat) {
        Some(rest) => text::trimmed_start(rest).len() > 0 && text::trimmed_start(rest)[0] == 'Z',
        None => false,
    }
}

proof fn lemma_after_last_bracket(s: Seq<char>, at: int)
    requires
        0 < at <= s.len(),
        s[at - 1] == ')',
        forall|j: int| at <= j < s.len() ==> #[trigger] s[j] != ')',
    ensures
        after_last_bracket(s) == Some(s.subrange(at, s.len() as int)),
    decreases s.len(),
{
    if at == s.len() {
        assert(s.subrange(at, at) == Seq::<char>::empty());
    } else {
        let t = s.drop_last();
        lemma_after_last_bracket(t, at);
        assert(t.subrange(at, t.len() as int).push(s.last()) == s.subrange(at, s.len() as int));
    }
}

proof fn lemma_no_bracket(s: Seq<char>)
    requires
        forall|j: int| 0 <= j < s.len() ==> #[trigger] s[j] != ')',
    ensures
        after_last_bracket(s) is None,
    decreases s.len(),
{
    if s.len() > 0 {
        lemma_no_bracket(s.drop_last());
    }
}

fn is_zombie_stat(stat: &str) -> (r: bool)
    ensures
        r == reports_zombie(stat@),
{
    let chars = chars_of(stat);
    let mut at: usize = chars.len();
    while at > 0 && chars[at - 1] != ')'
        invariant
            at <= chars@.len(),
            forall|j: int| at <= j < chars@.len() ==> #[trigger] chars@[j] != ')',
        decreases at,
    {
        at = at - 1;
    }
    if at == 0 {
        proof {
            lemma_no_bracket(chars@);
        }
        return false;
    }
    proof {
        lemma_after_last_bracket(chars@, at as int);
    }
    let rest = text::tail_from(&chars, at);
    text::trimmed_starts_with(&rest, 'Z')
}

/// Whether a process is alive and no zombie, from its status line; without one,
/// from a bare probe for its existence.
pub fn is_pid_genuinely_alive(stat: Option<&str>, exists_probe: bool) -> (r: bool)
    ensures
        r == (match stat {
            Some(s) => !reports_zombie(s@),
            None => exists_probe,
        }),
{
    match stat {
        Some(s) => !is_zombie_stat(s),
        None => exists_probe,
    }
}

/// The texts of a list.
pub open spec fn texts(list: Seq<String>) -> Seq<Seq<char>> {
    list.map_values(|s: String| s@)
}

/// The arguments of the command that announces a watcher as down.
pub open spec fn event_args(
    names: NamesConfig,
    cli: Seq<char>,
    watcher: Seq<char>,
    consecutive_missing: u32,
    recorded_pid: Option<u32>,
) -> Seq<Seq<char>> {
    let pid = match recorded_pid {
        Some(p) => text::decimal(p as nat),
        None => "null"@,
    };
    seq![
        cli,
        "Watcher DOWN: "@ + watcher + ". Run: watcher-ctl run "@ + watcher,
        "--tag"@,
        "watcher-down"@,
        "--source"@,
        names.daemon@,
        "--source-name"@,
        names.daemon@,
        "--priority"@,
        "high"@,
        "--data"@,
        "watcher="@ + watcher,
        "--data"@,
        "consecutive_missing="@ + text::decimal(consecutive_missing as nat),
        "--data"@,
        "recorded_pid="@ + pid,
        "--data"@,
        "tier=actionable"@,
    ]
}

/// Builds the arguments of the command that announces a watcher as down.
pub fn watcher_down_event_args(
    names: &NamesConfig,
    cli: &str,
    watcher: &str,
    consecutive_missing: u32,
    recorded_pid: Option<u32>,
) -> (r: Vec<String>)
    ensures
        texts(r@) == event_args(*names, cli@, watcher@, consecutive_missing, recorded_pid),
{
    let message = "Watcher DOWN: ".to_owned().concat(watcher).concat(
        ". Run: watcher-ctl run ",
    ).concat(watcher);
    let pid = match recorded_pid {
        Some(p) => decimal_text(p as u64),
        None => "null".to_owned(),
    };
    let mut args: Vec<String> = Vec::new();
    args.push(cli.to_owned());
    args.push(message);
    args.push("--tag".to_owned());
    args.push("watcher-down".to_owned());
    args.push("--source".to_owned());
    args.push(names.daemon.clone());
    args.push("--source-name".to_owned());
    args.push(names.daemon.clone());
    args.push("--priority".to_owned());
    args.push("high".to_owned());
    args.push("--data".to_owned());
    args.push("watcher=".to_owned().concat(watcher));
    args.push("--data".to_owned());
    args.push(
        "consecutive_missing=".to_owned().concat(decimal_text(consecutive_missing as u64).as_str()),
    );
    args.push("--data".to_owned());
    args.push("recorded_pid=".to_owned().concat(pid.as_str()));
    args.push("--data".to_owned());
    args.push("tier=actionable".to_owned());
    assert(texts(args@) =~= event_args(*names, cli@, watcher@, consecutive_missing, recorded_pid));
    args
}

/// The quiet way comes first: with the thresholds in their usual order, a
/// watcher other than the consumer is announced before it is ever injected, and
/// is not injected while the grace period of its announcement runs.
pub proof fn event_precedes_inject(
    missing: u32,
    emitted_at: Option<Seq<char>>,
    event_threshold: u32,
    inject_threshold: u32,
    grace_secs: u64,
    now: Moment,
)
    requires
        event_threshold <= missing < inject_threshold,
    ensures
        emitted_at is None ==> down_action(
            false,
            missing,
            emitted_at,
            event_threshold,
            inject_threshold,
            grace_secs,
            now,
        ) == WatcherDownAction::EmitEvent,
        forall|later: u32|
            time::elapsed_under(emitted_at, now, grace_secs as int) ==> #[trigger] down_action(
                false,
                later,
                emitted_at,
                event_threshold,
                inject_threshold,
                grace_secs,
                now,
            ) == WatcherDownAction::Nothing,
{
}

/// An absence is announced at most once per announcement stamp, and the consumer
/// is never announced.
pub proof fn no_double_announcement(
    is_consumer: bool,
    missing: u32,
    emitted_at: Option<Seq<char>>,
    event_threshold: u32,
    inject_threshold: u32,
    grace_secs: u64,
    now: Moment,
)
    requires
        is_consumer || emitted_at is Some,
    ensures
        down_action(
            is_consumer,
            missing,
            emitted_at,
            event_threshold,
            inject_threshold,
            grace_secs,
            now,
        ) != WatcherDownAction::EmitEvent,
{
}

/// The announced list never names the consumer, and leaves out nobody else.
pub proof fn announced_list_is_the_rest(names: Seq<String>, consumer: Seq<char>)
    ensures
        forall|n: String| #[trigger]
            other_names(names, consumer).contains(n) <==> names.contains(n) && n@ != consumer,
{
    let keep = not_named(consumer);
    assert forall|n: String| #[trigger]
        other_names(names, consumer).contains(n) <==> names.contains(n) && n@ != consumer by {
        let kept = other_names(names, consumer);
        if kept.contains(n) {
            let i = kept.index_of(n);
            names.lemma_filter_pred(keep, i);
            names.lemma_filter_contains_rev(keep, n);
        }
        if names.contains(n) && n@ != consumer {
            let i = names.index_of(n);
            names.lemma_filter_contains(keep, i);
        }
    }
}

/// What a run of misses calls for, for every watcher but the consumer of events: nothing below
/// both thresholds; an announcement, once, from the first on; and from the second on the loud
/// way, except while the grace period of an announcement runs.
pub proof fn misses_escalate_in_their_order(
    missing: u32,
    emitted_at: Option<Seq<char>>,
    event_threshold: u32,
    inject_threshold: u32,
    grace_secs: u64,
    now: Moment,
)
    ensures
        ({
            let action = down_action(
                false,
                missing,
                emitted_at,
                event_threshold,
                inject_threshold,
                grace_secs,
                now,
            );
            &&& action == WatcherDownAction::InjectFallback <==> missing >= inject_threshold
                && !time::elapsed_under(emitted_at, now, grace_secs as int)
            &&& action == WatcherDownAction::EmitEvent <==> event_threshold <= missing
                < inject_threshold && emitted_at is None
        }),
{
}

/// The consumer of events is told of the loud way only, from its threshold on, and no
/// announcement holds that back.
pub proof fn consumer_is_told_loudly(
    missing: u32,
    emitted_at: Option<Seq<char>>,
    event_threshold: u32,
    inject_threshold: u32,
    grace_secs: u64,
    now: Moment,
)
    ensures
        down_action(
            true,
            missing,
            emitted_at,
            event_threshold,
            inject_threshold,
            grace_secs,
            now,
        ) == (if missing >= inject_threshold {
            WatcherDownAction::InjectFallback
        } else {
            WatcherDownAction::Nothing
        }),
{
}

/// An inject is due where there was none, where the stamp of the last one names no instant,
/// and once the cooldown has passed since; within it none is.
pub proof fn inject_waits_for_its_cooldown(
    last: Option<Seq<char>>,
    cooldown_secs: u64,
    now: Moment,
)
    ensures
        last is None ==> inject_due(last, cooldown_secs, now),
        last matches Some(t) && time::stamp_moment(t) is None ==> inject_due(
            last,
            cooldown_secs,
            now,
        ),
        time::elapsed_at_least(last, now, cooldown_secs as int) ==> inject_due(
            last,
            cooldown_secs,
            now,
        ),
        time::elapsed_under(last, now, cooldown_secs as int) ==> !inject_due(
            last,
            cooldown_secs,
            now,
        ),
{
}

/// Counting answers counts each yes once, wherever it stands.
pub proof fn every_yes_counts(answers: Seq<bool>, i: int)
    requires
        0 <= i < answers.len(),
    ensures
        count_true(answers.update(i, true)) == count_true(answers.update(i, false)) + 1,
        count_true(Seq::<bool>::empty()) == 0,
    decreases answers.len(),
{
    let yes = answers.update(i, true);
    let no = answers.update(i, false);
    if i == answers.len() - 1 {
        assert(yes.drop_last() == no.drop_last());
    } else {
        let before = answers.drop_last();
        every_yes_counts(before, i);
        assert(yes.drop_last() == before.update(i, true));
        assert(no.drop_last() == before.update(i, false));
    }
}

/// A process is a zombie by the first word after the last bracket of its status line: what
/// stands before it, brackets and all, plays no part.
pub proof fn zombie_shows_after_the_last_bracket(name: Seq<char>, rest: Seq<char>)
    requires
        forall|j: int| 0 <= j < rest.len() ==> #[trigger] rest[j] != ')',
    ensures
        reports_zombie(name.push(')') + rest) == (text::trimmed_start(rest).len() > 0
            && text::trimmed_start(rest)[0] == 'Z'),
{
    let line = name.push(')') + rest;
    let at = name.len() + 1;
    assert forall|j: int| at <= j < line.len() implies #[trigger] line[j] != ')' by {
        assert(line[j] == rest[j - at]);
    }
    lemma_after_last_bracket(line, at as int);
    assert(line.subrange(at as int, line.len() as int) == rest);
}

/// A watcher with pid files is up exactly where a pid is on record, in the lock or else in the
/// pid file, its process is alive and no zombie, and its command line names the watcher.
pub proof fn watcher_is_up_where_its_process_runs(
    lock: Option<&str>,
    pid: Option<&str>,
    stat: Option<&str>,
    exists_probe: bool,
    cmdline: &str,
    start_cmd: &str,
    recorded: Option<u32>,
    alive: bool,
    named: bool,
    down: bool,
)
    requires
        call_ensures(read_watcher_recorded_pid, (lock, pid), recorded),
        call_ensures(is_pid_genuinely_alive, (stat, exists_probe), alive),
        call_ensures(cmdline_matches_watcher, (cmdline, start_cmd), named),
        call_ensures(pidfile_watcher_is_down, (recorded, alive, named), down),
    ensures
        recorded is Some <==> recorded_pid(time::opt_str_view(lock)) is Some || recorded_pid(
            time::opt_str_view(pid),
        ) is Some,
        recorded_pid(time::opt_str_view(lock)) is Some ==> recorded == recorded_pid(
            time::opt_str_view(lock),
        ),
        stat matches Some(s) ==> (alive <==> !reports_zombie(s@)),
        stat is None ==> alive == exists_probe,
        !down <==> recorded is Some && alive && watcher_stem(start_cmd@).len() > 0
            && text::occurs_in(cmdline@, watcher_stem(start_cmd@)),
{
}

/// The pid files are where the operator says, else in the runtime directory, else in the
/// program's own directory below `/var/run`.
pub proof fn pid_files_have_one_place(
    names: NamesConfig,
    pid_dir: Option<&str>,
    runtime_dir: Option<&str>,
    r: String,
)
    requires
        call_ensures(watcher_pid_dir, (&names, pid_dir, runtime_dir), r),
    ensures
        pid_dir matches Some(d) ==> r@ == d@,
        pid_dir is None && runtime_dir is Some ==> r@ == runtime_dir->0@,
        pid_dir is None && runtime_dir is None ==> r@ == "/var/run/"@ + names.program@,
{
}

/// A watcher is recognised by the file name of its command, without directories and, where it
/// is a script, without the extension: what is left, with that extension, is the file name.
pub proof fn stem_is_the_bare_file_name(start_cmd: Seq<char>)
    ensures
        ({
            let base = text::after_last_slash(text::first_word(start_cmd));
            let stem = watcher_stem(start_cmd);
            let shell = text::ends_with(base, ".sh"@);
            let bash = text::ends_with(base, ".bash"@);
            let python = text::ends_with(base, ".py"@);
            &&& shell ==> base == stem + ".sh"@
            &&& !shell && bash ==> base == stem + ".bash"@
            &&& !shell && !bash && python ==> base == stem + ".py"@
            &&& !shell && !bash && !python ==> base == stem
        }),
{
    reveal_strlit(".sh");
    reveal_strlit(".bash");
    reveal_strlit(".py");
    let base = text::after_last_slash(text::first_word(start_cmd));
    let n = base.len() as int;
    if text::ends_with(base, ".sh"@) {
        assert(base =~= base.subrange(0, n - 3) + base.subrange(n - 3, n));
    } else if text::ends_with(base, ".bash"@) {
        assert(base =~= base.subrange(0, n - 5) + base.subrange(n - 5, n));
    } else if text::ends_with(base, ".py"@) {
        assert(base =~= base.subrange(0, n - 3) + base.subrange(n - 3, n));
    }
}

/// An announcement names the watcher, is tagged as a watcher that is down, comes from the
/// daemon, and has one place for each of its parts.
pub proof fn announcement_names_the_watcher(
    names: NamesConfig,
    cli: Seq<char>,
    watcher: Seq<char>,
    consecutive_missing: u32,
    recorded_pid: Option<u32>,
)
    ensures
        ({
            let args = event_args(names, cli, watcher, consecutive_missing, recorded_pid);
            &&& args.len() > 8
            &&& args[0] == cli
            &&& args[1] == "Watcher DOWN: "@ + watcher + ". Run: watcher-ctl run "@ + watcher
            &&& args[2] == "--tag"@ && args[3] == "watcher-down"@
            &&& args[4] == "--source"@ && args[5] == names.daemon@
            &&& args[6] == "--source-name"@ && args[7] == names.daemon@
            &&& args[8] == "--priority"@
        }),
{
}

/// A line that is cut off before the command name ends reports no zombie.
pub proof fn broken_line_reports_no_zombie(line: Seq<char>)
    requires
        forall|j: int| 0 <= j < line.len() ==> #[trigger] line[j] != ')',
    ensures
        !reports_zombie(line),
{
    lemma_no_bracket(line);
}

} // verus!
