//! Instants, RFC 3339 stamps and the time between them.
//!
//! The daemon keeps its stamps as RFC 3339 text. Every decision that depends on
//! how long ago a stamp was written is a function of the stamp and of the
//! instant at which the question is asked, so each such decision exists in a
//! form that takes that instant as an argument.
use chrono::{DateTime, Local, Timelike, Utc};
use vstd::prelude::*;

verus! {

/// An instant: whole seconds since the Unix epoch, and nanoseconds on top.
#[derive(Debug, Clone, Copy, PartialEq, Eq, Structural)]
pub struct Moment {
    pub secs: i64,
    pub nanos: u32,
}

impl Moment {
    /// The instant as one number: nanoseconds since the Unix epoch.
    pub open spec fn total_nanos(self) -> int {
        self.secs * 1_000_000_000 + self.nanos
    }
}

/// Integer division that rounds toward zero, for a positive divisor.
pub open spec fn div_toward_zero(n: int, d: int) -> int {
    if n >= 0 {
        n / d
    } else {
        -((-n) / d)
    }
}

/// The leap second that lies between two instants of which one is within a leap
/// second (its nanoseconds then run past one thousand million), by the time of
/// day of each.
pub open spec fn leap_seconds_between(then: Moment, now: Moment) -> int {
    if now.secs % 86_400 > then.secs % 86_400 && then.nanos >= 1_000_000_000 {
        1
    } else if now.secs % 86_400 < then.secs % 86_400 && now.nanos >= 1_000_000_000 {
        -1
    } else {
        0
    }
}

/// Whole milliseconds from `then` to `now`, rounded toward zero; negative when
/// `then` lies after `now`.
pub open spec fn millis_between(then: Moment, now: Moment) -> int {
    div_toward_zero(
        now.total_nanos() - then.total_nanos() + leap_seconds_between(then, now) * 1_000_000_000,
        1_000_000,
    )
}

/// What `chrono::DateTime::parse_from_rfc3339` reads in a text: the seconds
/// since the Unix epoch and the nanoseconds within the second, or nothing when
/// the text is no RFC 3339 date and time.
pub uninterp spec fn rfc3339_instant(text: Seq<char>) -> Option<(i64, u32)>;

/// The instant that a stamp names, if it names one.
pub open spec fn stamp_moment(text: Seq<char>) -> Option<Moment> {
    match rfc3339_instant(text) {
        Some((secs, nanos)) => Some(Moment { secs, nanos }),
        None => None,
    }
}

/// Milliseconds from the stamp `text` to `now`, or `None` for a stamp that does
/// not parse.
pub open spec fn elapsed_ms(text: Seq<char>, now: Moment) -> Option<int> {
    match stamp_moment(text) {
        Some(then) => Some(millis_between(then, now)),
        None => None,
    }
}

/// [`elapsed_ms`] of a stamp that may be absent.
pub open spec fn opt_elapsed_ms(text: Option<Seq<char>>, now: Moment) -> Option<int> {
    match text {
        Some(t) => elapsed_ms(t, now),
        None => None,
    }
}

/// An optional millisecond count as a number.
pub open spec fn opt_millis(r: Option<i128>) -> Option<int> {
    match r {
        Some(ms) => Some(ms as int),
        None => None,
    }
}

/// An optional count of seconds as a number.
pub open spec fn opt_secs(r: Option<u64>) -> Option<int> {
    match r {
        Some(s) => Some(s as int),
        None => None,
    }
}

/// The stamp parses and less than `secs` seconds have passed since.
pub open spec fn elapsed_under(text: Option<Seq<char>>, now: Moment, secs: int) -> bool {
    opt_elapsed_ms(text, now) matches Some(ms) && ms < secs * 1000
}

/// The stamp parses and at least `secs` seconds have passed since.
pub open spec fn elapsed_at_least(text: Option<Seq<char>>, now: Moment, secs: int) -> bool {
    opt_elapsed_ms(text, now) matches Some(ms) && ms >= secs * 1000
}

/// The stamp parses and more than `secs` seconds have passed since.
pub open spec fn elapsed_over(text: Option<Seq<char>>, now: Moment, secs: int) -> bool {
    opt_elapsed_ms(text, now) matches Some(ms) && ms > secs * 1000
}

/// The stamp parses and at most `secs` seconds have passed since.
pub open spec fn elapsed_within(text: Option<Seq<char>>, now: Moment, secs: int) -> bool {
    opt_elapsed_ms(text, now) matches Some(ms) && ms <= secs * 1000
}

/// Calls `chrono::DateTime::parse_from_rfc3339` and hands out the seconds and
/// the nanoseconds of the instant it found (`timestamp`,
/// `timestamp_subsec_nanos`). Nothing is claimed of which texts parse and to
/// what: the result is only said to depend on the text alone.
#[verifier::external_body]
fn parse_rfc3339(text: &str) -> (r: Option<(i64, u32)>)
    ensures
        r == rfc3339_instant(text@),
{
    let parsed = DateTime::parse_from_rfc3339(text).ok()?;
    Some((parsed.timestamp(), parsed.timestamp_subsec_nanos()))
}

/// Calls `chrono::Utc::now` and hands out the seconds and the nanoseconds of the
/// instant it read (`timestamp`, `timestamp_subsec_nanos`). What is trusted: the
/// nanoseconds stay below one second, since the clock of the system that it reads
/// knows no leap seconds. Which instant it reads is not stated.
#[verifier::external_body]
fn read_utc_clock() -> (r: (i64, u32))
    ensures
        r.1 < 1_000_000_000,
{
    let t = Utc::now();
    (t.timestamp(), t.timestamp_subsec_nanos())
}

/// The text of a date and time that RFC 3339 has no room for: its year bears a sign, having
/// more than four digits, or its offset from UTC was rounded up to a whole day.
pub open spec fn beyond_rfc3339(text: Seq<char>) -> bool {
    text.len() > 0 && (text[0] == '+' || text[0] == '-' || crate::text::ends_with(text, "24:00"@))
}

/// Calls `chrono::Local::now` and `chrono::DateTime::to_rfc3339`. What is trusted: the text
/// reads back with `chrono::DateTime::parse_from_rfc3339`, unless RFC 3339 has no room for
/// it. Which instant it names is not stated: that depends on the clock and the time zone.
#[verifier::external_body]
fn local_now_rfc3339() -> (r: String)
    ensures
        rfc3339_instant(r@) is Some || beyond_rfc3339(r@),
{
    Local::now().to_rfc3339()
}

/// Calls `chrono::Local::now` and `chrono::Timelike::minute`. What is trusted: a minute number
/// lies between 0 and 59.
#[verifier::external_body]
fn read_local_minute() -> (r: u32)
    ensures
        r < 60,
{
    Local::now().minute()
}

/// The minute of the present hour, in local time.
pub fn current_minute() -> (r: u32)
    ensures
        r < 60,
{
    read_local_minute()
}

/// A stamp of the present instant, in local time: one that names an instant, unless RFC 3339
/// has no room for it.
pub fn current_stamp() -> (r: String)
    ensures
        stamp_moment(r@) is Some || beyond_rfc3339(r@),
{
    local_now_rfc3339()
}

/// The present instant, as the clock reads it: never one within a leap second, so that
/// the age of a stamp can be taken at it.
pub fn current_moment() -> (r: Moment)
    ensures
        r.nanos < 1_000_000_000,
{
    let (secs, nanos) = read_utc_clock();
    Moment { secs, nanos }
}

/// The second of the day that a count of seconds since the Unix epoch falls on.
fn second_of_day(secs: i64) -> (r: u64)
    ensures
        r == secs % 86_400,
{
    let shifted: i128 = (secs as i128) + 17_280_000_000_000_000_000;
    assert(shifted % 86_400 == secs % 86_400);
    ((shifted as u128) % 86_400) as u64
}

/// Whole milliseconds from `then` to `now`, rounded toward zero.
pub fn millis_from(then: Moment, now: Moment) -> (r: i128)
    ensures
        r == millis_between(then, now),
{
    let a: i128 = (now.secs as i128) * 1_000_000_000 + (now.nanos as i128);
    let b: i128 = (then.secs as i128) * 1_000_000_000 + (then.nanos as i128);
    let now_day: u64 = second_of_day(now.secs);
    let then_day: u64 = second_of_day(then.secs);
    let leap: i128 = if now_day > then_day && then.nanos >= 1_000_000_000 {
        1_000_000_000
    } else if now_day < then_day && now.nanos >= 1_000_000_000 {
        -1_000_000_000
    } else {
        0
    };
    let d: i128 = a - b + leap;
    if d >= 0 {
        ((d as u128) / 1_000_000) as i128
    } else {
        let m: u128 = (-d) as u128;
        -((m / 1_000_000) as i128)
    }
}

/// Milliseconds from the stamp to the given instant; `None` when the stamp does
/// not parse.
pub fn elapsed_at(dt_str: &str, now: Moment) -> (r: Option<i128>)
    ensures
        opt_millis(r) == elapsed_ms(dt_str@, now),
{
    match parse_rfc3339(dt_str) {
        Some((secs, nanos)) => Some(millis_from(Moment { secs, nanos }, now)),
        None => None,
    }
}

/// Milliseconds from the stamp to the present instant; `None` when the stamp
/// does not parse.
pub fn elapsed_since(dt_str: &str) -> (r: Option<i128>)
    ensures
        exists|now: Moment| opt_millis(r) == #[trigger] elapsed_ms(dt_str@, now),
{
    let now = current_moment();
    elapsed_at(dt_str, now)
}

/// [`elapsed_under`], executable.
pub fn stamp_under(stamp: Option<&str>, now: Moment, secs: u64) -> (r: bool)
    ensures
        r == elapsed_under(opt_str_view(stamp), now, secs as int),
{
    match stamp {
        Some(s) => match elapsed_at(s, now) {
            Some(ms) => ms < (secs as i128) * 1000,
            None => false,
        },
        None => false,
    }
}

/// [`elapsed_at_least`], executable.
pub fn stamp_at_least(stamp: Option<&str>, now: Moment, secs: u64) -> (r: bool)
    ensures
        r == elapsed_at_least(opt_str_view(stamp), now, secs as int),
{
    match stamp {
        Some(s) => match elapsed_at(s, now) {
            Some(ms) => ms >= (secs as i128) * 1000,
            None => false,
        },
        None => false,
    }
}

/// [`elapsed_over`], executable.
pub fn stamp_over(stamp: Option<&str>, now: Moment, secs: u64) -> (r: bool)
    ensures
        r == elapsed_over(opt_str_view(stamp), now, secs as int),
{
    match stamp {
        Some(s) => match elapsed_at(s, now) {
            Some(ms) => ms > (secs as i128) * 1000,
            None => false,
        },
        None => false,
    }
}

/// [`elapsed_within`], executable.
pub fn stamp_within(stamp: Option<&str>, now: Moment, secs: u64) -> (r: bool)
    ensures
        r == elapsed_within(opt_str_view(stamp), now, secs as int),
{
    match stamp {
        Some(s) => match elapsed_at(s, now) {
            Some(ms) => ms <= (secs as i128) * 1000,
            None => false,
        },
        None => false,
    }
}

/// The characters of an optional borrowed text.
pub open spec fn opt_str_view(s: Option<&str>) -> Option<Seq<char>> {
    match s {
        Some(t) => Some(t@),
        None => None,
    }
}

/// The characters of an optional owned text.
pub open spec fn opt_string_view(s: Option<String>) -> Option<Seq<char>> {
    match s {
        Some(t) => Some(t@),
        None => None,
    }
}

/// An optional owned text, borrowed.
pub fn as_opt_str(s: &Option<String>) -> (r: Option<&str>)
    ensures
        opt_str_view(r) == opt_string_view(*s),
{
    match s {
        Some(t) => Some(t.as_str()),
        None => None,
    }
}

/// Age of a file stamp in whole seconds, or `None` when the stamp is
/// unavailable or lies in the future. Readers of this age fail open on `None`: a
/// corrupt or skewed stamp must never pass for a sign of life.
pub open spec fn stamp_age_secs(mtime: Option<Moment>, now: Moment) -> Option<int> {
    match mtime {
        Some(t) => if t.total_nanos() <= now.total_nanos() {
            Some((now.total_nanos() - t.total_nanos()) / 1_000_000_000)
        } else {
            None
        },
        None => None,
    }
}

/// Age in whole seconds of a liveness stamp relative to `now`; see
/// [`stamp_age_secs`].
pub fn ack_age_secs(mtime: Option<Moment>, now: Moment) -> (r: Option<u64>)
    requires
        now.nanos < 1_000_000_000,
    ensures
        opt_secs(r) == stamp_age_secs(mtime, now),
{
    match mtime {
        Some(t) => {
            let a: i128 = (now.secs as i128) * 1_000_000_000 + (now.nanos as i128);
            let b: i128 = (t.secs as i128) * 1_000_000_000 + (t.nanos as i128);
            if b <= a {
                let whole: u128 = ((a - b) as u128) / 1_000_000_000;
                Some(whole as u64)
            } else {
                None
            }
        },
        None => None,
    }
}

/// Age of the last event acknowledgement, from the modification time of its
/// stamp file (`None` when the file is missing or unreadable).
pub fn last_ack_timestamp_age(mtime: Option<Moment>, now: Moment) -> (r: Option<u64>)
    requires
        now.nanos < 1_000_000_000,
    ensures
        opt_secs(r) == stamp_age_secs(mtime, now),
{
    ack_age_secs(mtime, now)
}

/// The time between two instants does not depend on which of them is asked about: seen the
/// other way round it is the same with the other sign.
pub proof fn time_runs_both_ways(then: Moment, now: Moment)
    ensures
        millis_between(then, now) == -millis_between(now, then),
        millis_between(now, now) == 0,
{
    let d = now.total_nanos() - then.total_nanos() + leap_seconds_between(then, now)
        * 1_000_000_000;
    assert(then.total_nanos() - now.total_nanos() + leap_seconds_between(now, then) * 1_000_000_000
        == -d);
}

/// Outside leap seconds the milliseconds between two instants are the whole ones in their
/// distance.
pub proof fn millis_measure_the_distance(then: Moment, now: Moment)
    requires
        then.nanos < 1_000_000_000,
        now.nanos < 1_000_000_000,
    ensures
        then.total_nanos() <= now.total_nanos() ==> 0 <= millis_between(then, now) * 1_000_000
            <= now.total_nanos() - then.total_nanos() < (millis_between(then, now) + 1) * 1_000_000,
{
}

/// A leap second takes up a second: on the same day, an instant within one is as far from a
/// later instant as the same fraction of the second before it.
pub proof fn leap_second_takes_up_a_second(secs: i64, nanos: u32, now: Moment)
    requires
        nanos < 1_000_000_000,
        now.nanos < 1_000_000_000,
        secs < now.secs,
        secs % 86_400 < now.secs % 86_400,
    ensures
        millis_between(Moment { secs, nanos: (nanos + 1_000_000_000) as u32 }, now)
            == millis_between(Moment { secs, nanos }, now),
{
}

/// A stamp is younger than a span exactly as long as the span has not passed since the
/// instant it names; from then on it is at least that old.
pub proof fn span_ends_when_it_has_passed(stamp: Seq<char>, then: Moment, now: Moment, secs: int)
    requires
        stamp_moment(stamp) == Some(then),
        then.nanos < 1_000_000_000,
        now.nanos < 1_000_000_000,
        secs > 0,
    ensures
        elapsed_under(Some(stamp), now, secs) <==> now.total_nanos() < then.total_nanos() + secs
            * 1_000_000_000,
        elapsed_at_least(Some(stamp), now, secs) <==> now.total_nanos() >= then.total_nanos()
            + secs * 1_000_000_000,
        elapsed_over(Some(stamp), now, secs) <==> now.total_nanos() >= then.total_nanos() + secs
            * 1_000_000_000 + 1_000_000,
        elapsed_within(Some(stamp), now, secs) <==> now.total_nanos() < then.total_nanos() + secs
            * 1_000_000_000 + 1_000_000,
{
    time_runs_both_ways(then, now);
    if then.total_nanos() <= now.total_nanos() {
        millis_measure_the_distance(then, now);
    } else {
        millis_measure_the_distance(now, then);
    }
}

/// A stamp that names an instant is on one side of every bound, and never on both; one that
/// is missing, or names none, is on neither.
pub proof fn stamp_has_one_age(stamp: Option<Seq<char>>, now: Moment, secs: int)
    ensures
        (stamp matches Some(t) && stamp_moment(t) is Some) ==> elapsed_under(stamp, now, secs)
            != elapsed_at_least(stamp, now, secs) && elapsed_over(stamp, now, secs)
            != elapsed_within(stamp, now, secs) && (elapsed_under(stamp, now, secs)
            ==> elapsed_within(stamp, now, secs)),
        !(stamp matches Some(t) && stamp_moment(t) is Some) ==> !elapsed_under(stamp, now, secs)
            && !elapsed_at_least(stamp, now, secs) && !elapsed_over(stamp, now, secs)
            && !elapsed_within(stamp, now, secs),
{
}

/// The age of a file is the whole seconds since it was written; a file from the future, and
/// one whose stamp cannot be read, have none.
pub proof fn file_age_is_in_whole_seconds(mtime: Option<Moment>, now: Moment)
    ensures
        stamp_age_secs(mtime, now) is Some <==> (mtime matches Some(t) && t.total_nanos()
            <= now.total_nanos()),
        stamp_age_secs(mtime, now) matches Some(age) ==> age * 1_000_000_000 <= now.total_nanos()
            - mtime->0.total_nanos() < (age + 1) * 1_000_000_000,
{
}

/// A second counts a thousand million nanoseconds, and a nanosecond one.
pub proof fn moments_count_in_nanoseconds(m: Moment, n: Moment)
    ensures
        n.secs == m.secs + 1 && n.nanos == m.nanos ==> n.total_nanos() == m.total_nanos()
            + 1_000_000_000,
        n.secs == m.secs && n.nanos == m.nanos + 1 ==> n.total_nanos() == m.total_nanos() + 1,
        m.secs == 0 && m.nanos == 0 ==> m.total_nanos() == 0,
{
}

} // verus!
