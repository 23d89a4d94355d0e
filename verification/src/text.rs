//! Operations on text: comparing, trimming, searching, reading numbers.
use vstd::prelude::*;
use vstd::string::{StrSliceExecFns, StringExecFns};

verus! {

/// Whether two texts hold the same characters.
pub fn text_eq(a: &str, b: &str) -> (r: bool)
    ensures
        r == (a@ == b@),
{
    a.to_owned() == b.to_owned()
}

/// The characters of a text, one by one.
pub fn chars_of(s: &str) -> (r: Vec<char>)
    ensures
        r@ == s@,
{
    let mut out: Vec<char> = Vec::new();
    for c in it: s.chars()
        invariant
            out@ == it.seq().take(it.index() as int),
            it.seq() == s@,
    {
        out.push(c);
    }
    assert(out@ == s@);
    out
}

/// The character has the Unicode property White_Space: tab, line feed, vertical tab, form
/// feed, carriage return, space, next line, and the spaces and separators beyond.
pub open spec fn white_space(c: char) -> bool {
    ||| '\t' <= c <= '\r'
    ||| c == ' '
    ||| c == '\u{85}'
    ||| c == '\u{a0}'
    ||| c == '\u{1680}'
    ||| '\u{2000}' <= c <= '\u{200a}'
    ||| c == '\u{2028}'
    ||| c == '\u{2029}'
    ||| c == '\u{202f}'
    ||| c == '\u{205f}'
    ||| c == '\u{3000}'
}

/// Calls `char::is_whitespace` of the standard library. What is trusted: it holds for the
/// characters with the Unicode property White_Space and for no others.
#[verifier::external_body]
fn is_white_space(c: char) -> (r: bool)
    ensures
        r == white_space(c),
{
    c.is_whitespace()
}

/// The text without the white space at its start.
pub open spec fn trimmed_start(s: Seq<char>) -> Seq<char>
    decreases s.len(),
{
    if s.len() > 0 && white_space(s[0]) {
        trimmed_start(s.drop_first())
    } else {
        s
    }
}

/// The text without the white space at its end.
pub open spec fn trimmed_end(s: Seq<char>) -> Seq<char>
    decreases s.len(),
{
    if s.len() > 0 && white_space(s.last()) {
        trimmed_end(s.drop_last())
    } else {
        s
    }
}

/// The text without the white space around it.
pub open spec fn trimmed(s: Seq<char>) -> Seq<char> {
    trimmed_end(trimmed_start(s))
}

proof fn lemma_trim_start_from(s: Seq<char>, i: int)
    requires
        0 <= i <= s.len(),
        forall|j: int| 0 <= j < i ==> white_space(#[trigger] s[j]),
        i < s.len() ==> !white_space(s[i]),
    ensures
        trimmed_start(s) == s.subrange(i, s.len() as int),
    decreases i,
{
    if i == 0 {
        assert(s.subrange(0, s.len() as int) == s);
    } else {
        let t = s.drop_first();
        assert forall|j: int| 0 <= j < i - 1 implies white_space(#[trigger] t[j]) by {
            assert(t[j] == s[j + 1]);
        }
        lemma_trim_start_from(t, i - 1);
        assert(t.subrange(i - 1, t.len() as int) == s.subrange(i, s.len() as int));
    }
}

proof fn lemma_trim_end_to(s: Seq<char>, j: int)
    requires
        0 <= j <= s.len(),
        forall|k: int| j <= k < s.len() ==> white_space(#[trigger] s[k]),
        j > 0 ==> !white_space(s[j - 1]),
    ensures
        trimmed_end(s) == s.subrange(0, j),
    decreases s.len(),
{
    if j == s.len() {
        assert(s.subrange(0, j) == s);
    } else {
        let t = s.drop_last();
        lemma_trim_end_to(t, j);
        assert(t.subrange(0, j) == s.subrange(0, j));
    }
}

/// Finds where the text without its surrounding white space begins and ends.
fn trim_range(s: &Vec<char>) -> (r: (usize, usize))
    ensures
        r.0 <= r.1 <= s@.len(),
        s@.subrange(r.0 as int, r.1 as int) == trimmed(s@),
{
    let mut from: usize = 0;
    while from < s.len() && is_white_space(s[from])
        invariant
            from <= s@.len(),
            forall|j: int| 0 <= j < from ==> white_space(#[trigger] s@[j]),
        decreases s@.len() - from,
    {
        from = from + 1;
    }
    let mut to: usize = s.len();
    while to > from && is_white_space(s[to - 1])
        invariant
            from <= to <= s@.len(),
            forall|j: int| to <= j < s@.len() ==> white_space(#[trigger] s@[j]),
        decreases to,
    {
        to = to - 1;
    }
    proof {
        lemma_trim_start_from(s@, from as int);
        let t = s@.subrange(from as int, s@.len() as int);
        assert forall|k: int| to - from <= k < t.len() implies white_space(#[trigger] t[k]) by {
            assert(t[k] == s@[k + from]);
        }
        lemma_trim_end_to(t, to - from);
        assert(t.subrange(0, to - from) == s@.subrange(from as int, to as int));
    }
    (from, to)
}

/// The text without the white space around it.
pub fn trim<'a>(s: &'a str) -> (r: &'a str)
    ensures
        r@ == trimmed(s@),
{
    let chars = chars_of(s);
    let (from, to) = trim_range(&chars);
    s.substring_char(from, to)
}

/// The character is a decimal digit.
pub open spec fn is_digit(c: char) -> bool {
    '0' <= c <= '9'
}

/// The number that decimal digits stand for.
pub open spec fn decimal_value(digits: Seq<char>) -> int
    decreases digits.len(),
{
    if digits.len() == 0 {
        0
    } else {
        decimal_value(digits.drop_last()) * 10 + (digits.last() as int - '0' as int)
    }
}

/// The text without one plus sign at its start, if more follows.
pub open spec fn without_plus(s: Seq<char>) -> Seq<char> {
    if s.len() > 1 && s[0] == '+' {
        s.drop_first()
    } else {
        s
    }
}

/// The number that a text holds: digits alone, at least one, after at most one
/// plus sign, and not too large for 32 bits.
pub open spec fn parsed_u32(s: Seq<char>) -> Option<u32> {
    let digits = without_plus(s);
    if digits.len() > 0 && (forall|i: int|
        0 <= i < digits.len() ==> is_digit(#[trigger] digits[i])) && decimal_value(digits)
        <= u32::MAX {
        Some(decimal_value(digits) as u32)
    } else {
        None
    }
}

proof fn lemma_decimal_grows(digits: Seq<char>, n: int)
    requires
        0 <= n <= digits.len(),
        forall|i: int| 0 <= i < digits.len() ==> is_digit(#[trigger] digits[i]),
    ensures
        0 <= decimal_value(digits.take(n)) <= decimal_value(digits),
    decreases digits.len(),
{
    if n == digits.len() {
        assert(digits.take(n) == digits);
        if n > 0 {
            let d = digits.drop_last();
            lemma_decimal_grows(d, d.len() as int);
            assert(is_digit(digits[n - 1]));
        }
    } else {
        let d = digits.drop_last();
        lemma_decimal_grows(d, n);
        assert(d.take(n) == digits.take(n));
        assert(is_digit(digits[digits.len() - 1]));
    }
}

/// Reads a 32-bit number from the text; see [`parsed_u32`].
pub fn parse_u32(s: &str) -> (r: Option<u32>)
    ensures
        r == parsed_u32(s@),
{
    let chars = chars_of(s);
    let ghost digits = without_plus(s@);
    let start: usize = if chars.len() > 1 && chars[0] == '+' {
        1
    } else {
        0
    };
    assert(digits == chars@.subrange(start as int, chars@.len() as int));
    if chars.len() == start {
        return None;
    }
    let mut value: u64 = 0;
    let mut i: usize = start;
    while i < chars.len()
        invariant
            start <= i <= chars@.len(),
            chars@ == s@,
            digits == without_plus(s@),
            digits == chars@.subrange(start as int, chars@.len() as int),
            forall|j: int| 0 <= j < i - start ==> is_digit(#[trigger] digits[j]),
            value == decimal_value(digits.take(i - start)),
            value <= u32::MAX,
        decreases chars@.len() - i,
    {
        let c = chars[i];
        assert(digits[i - start] == c);
        if !('0' <= c && c <= '9') {
            return None;
        }
        let ghost before = digits.take(i - start);
        let ghost after = digits.take(i - start + 1);
        assert(after.drop_last() == before);
        assert(after.last() == c);
        value = value * 10 + ((c as u32) - 48) as u64;
        if value > 0xffff_ffff {
            proof {
                if forall|k: int| 0 <= k < digits.len() ==> is_digit(#[trigger] digits[k]) {
                    lemma_decimal_grows(digits, i - start + 1);
                }
            }
            return None;
        }
        i = i + 1;
    }
    assert(digits.take(i - start) == digits);
    Some(value as u32)
}

/// `needle` occurs in `hay` at position `at`.
pub open spec fn occurs_at(hay: Seq<char>, needle: Seq<char>, at: int) -> bool {
    0 <= at && at + needle.len() <= hay.len() && hay.subrange(at, at + needle.len()) == needle
}

/// `needle` occurs somewhere in `hay`.
pub open spec fn occurs_in(hay: Seq<char>, needle: Seq<char>) -> bool {
    exists|at: int| occurs_at(hay, needle, at)
}

fn matches_at(hay: &Vec<char>, at: usize, source: &Vec<char>, from: usize, to: usize) -> (r: bool)
    requires
        from <= to <= source@.len(),
        at + (to - from) <= hay@.len(),
    ensures
        r == occurs_at(hay@, source@.subrange(from as int, to as int), at as int),
{
    let ghost needle = source@.subrange(from as int, to as int);
    let total: usize = hay.len();
    let mut k: usize = 0;
    while k < to - from
        invariant
            total == hay@.len(),
            from <= to <= source@.len(),
            at + (to - from) <= hay@.len(),
            k <= to - from,
            needle == source@.subrange(from as int, to as int),
            forall|j: int| 0 <= j < k ==> hay@[at + j] == #[trigger] needle[j],
        decreases to - from - k,
    {
        if hay[at + k] != source[from + k] {
            assert(hay@.subrange(at as int, at + needle.len())[k as int] != needle[k as int]);
            return false;
        }
        k = k + 1;
    }
    assert(hay@.subrange(at as int, at + needle.len()) == needle);
    true
}

/// Whether a stretch of `source` occurs in `hay`.
pub fn contains_stretch(hay: &Vec<char>, source: &Vec<char>, from: usize, to: usize) -> (r: bool)
    requires
        from <= to <= source@.len(),
    ensures
        r == occurs_in(hay@, source@.subrange(from as int, to as int)),
{
    let ghost needle = source@.subrange(from as int, to as int);
    let len: usize = to - from;
    if len > hay.len() {
        return false;
    }
    let last: usize = hay.len() - len;
    let mut at: usize = 0;
    loop
        invariant
            from <= to <= source@.len(),
            len == to - from,
            last + len == hay@.len(),
            at <= last,
            needle == source@.subrange(from as int, to as int),
            forall|j: int| 0 <= j < at ==> !#[trigger] occurs_at(hay@, needle, j),
        decreases last - at,
    {
        if matches_at(hay, at, source, from, to) {
            assert(occurs_at(hay@, needle, at as int));
            return true;
        }
        if at == last {
            return false;
        }
        at = at + 1;
    }
}

/// The characters from a position on.
pub fn tail_from(s: &Vec<char>, at: usize) -> (r: Vec<char>)
    requires
        at <= s@.len(),
    ensures
        r@ == s@.subrange(at as int, s@.len() as int),
{
    let mut out: Vec<char> = Vec::new();
    let mut i: usize = at;
    while i < s.len()
        invariant
            at <= i <= s@.len(),
            out@ == s@.subrange(at as int, i as int),
        decreases s@.len() - i,
    {
        out.push(s[i]);
        i = i + 1;
    }
    out
}

/// Whether the first character after the white space at the start is `c`.
pub fn trimmed_starts_with(s: &Vec<char>, c: char) -> (r: bool)
    ensures
        r == (trimmed_start(s@).len() > 0 && trimmed_start(s@)[0] == c),
{
    let mut from: usize = 0;
    while from < s.len() && is_white_space(s[from])
        invariant
            from <= s@.len(),
            forall|j: int| 0 <= j < from ==> white_space(#[trigger] s@[j]),
        decreases s@.len() - from,
    {
        from = from + 1;
    }
    proof {
        lemma_trim_start_from(s@, from as int);
    }
    from < s.len() && s[from] == c
}

/// The leading part of the text that holds no white space.
pub open spec fn leading_token(s: Seq<char>) -> Seq<char>
    decreases s.len(),
{
    if s.len() == 0 || white_space(s[0]) {
        Seq::empty()
    } else {
        seq![s[0]] + leading_token(s.drop_first())
    }
}

/// The first word of the text: what stands between white space.
pub open spec fn first_word(s: Seq<char>) -> Seq<char> {
    leading_token(trimmed_start(s))
}

proof fn lemma_leading_token(s: Seq<char>, n: int)
    requires
        0 <= n <= s.len(),
        forall|j: int| 0 <= j < n ==> !white_space(#[trigger] s[j]),
        n < s.len() ==> white_space(s[n]),
    ensures
        leading_token(s) == s.subrange(0, n),
    decreases n,
{
    if n > 0 {
        let t = s.drop_first();
        assert forall|j: int| 0 <= j < n - 1 implies !white_space(#[trigger] t[j]) by {
            assert(t[j] == s[j + 1]);
        }
        lemma_leading_token(t, n - 1);
        assert(seq![s[0]] + t.subrange(0, n - 1) == s.subrange(0, n));
    } else {
        assert(s.subrange(0, 0) == Seq::<char>::empty());
    }
}

/// Finds where the first word of the text begins and ends.
pub fn first_word_range(s: &Vec<char>) -> (r: (usize, usize))
    ensures
        r.0 <= r.1 <= s@.len(),
        s@.subrange(r.0 as int, r.1 as int) == first_word(s@),
{
    let mut from: usize = 0;
    while from < s.len() && is_white_space(s[from])
        invariant
            from <= s@.len(),
            forall|j: int| 0 <= j < from ==> white_space(#[trigger] s@[j]),
        decreases s@.len() - from,
    {
        from = from + 1;
    }
    let mut to: usize = from;
    while to < s.len() && !is_white_space(s[to])
        invariant
            from <= to <= s@.len(),
            forall|j: int| from <= j < to ==> !white_space(#[trigger] s@[j]),
        decreases s@.len() - to,
    {
        to = to + 1;
    }
    proof {
        lemma_trim_start_from(s@, from as int);
        let t = s@.subrange(from as int, s@.len() as int);
        assert forall|j: int| 0 <= j < to - from implies !white_space(#[trigger] t[j]) by {
            assert(t[j] == s@[j + from]);
        }
        lemma_leading_token(t, to - from);
        assert(t.subrange(0, to - from) == s@.subrange(from as int, to as int));
    }
    (from, to)
}

/// What follows the last slash of the text.
pub open spec fn after_last_slash(s: Seq<char>) -> Seq<char>
    decreases s.len(),
{
    if s.len() == 0 || s.last() == '/' {
        Seq::empty()
    } else {
        after_last_slash(s.drop_last()).push(s.last())
    }
}

/// Finds where the part after the last slash of a stretch begins.
pub fn base_name_start(s: &Vec<char>, from: usize, to: usize) -> (r: usize)
    requires
        from <= to <= s@.len(),
    ensures
        from <= r <= to,
        s@.subrange(r as int, to as int) == after_last_slash(s@.subrange(from as int, to as int)),
{
    let mut at: usize = to;
    while at > from && s[at - 1] != '/'
        invariant
            from <= at <= to <= s@.len(),
            forall|j: int| at <= j < to ==> #[trigger] s@[j] != '/',
        decreases at,
    {
        at = at - 1;
    }
    proof {
        lemma_after_last_slash(s@.subrange(from as int, to as int), at - from);
        assert(s@.subrange(from as int, to as int).subrange(at - from, to - from) == s@.subrange(
            at as int,
            to as int,
        ));
    }
    at
}

proof fn lemma_after_last_slash(s: Seq<char>, at: int)
    requires
        0 <= at <= s.len(),
        forall|j: int| at <= j < s.len() ==> #[trigger] s[j] != '/',
        at > 0 ==> s[at - 1] == '/',
    ensures
        after_last_slash(s) == s.subrange(at, s.len() as int),
    decreases s.len(),
{
    if at == s.len() {
        assert(s.subrange(at, at) == Seq::<char>::empty());
    } else {
        let t = s.drop_last();
        lemma_after_last_slash(t, at);
        assert(t.subrange(at, t.len() as int).push(s.last()) == s.subrange(at, s.len() as int));
    }
}

/// The text ends with `tail`.
pub open spec fn ends_with(s: Seq<char>, tail: Seq<char>) -> bool {
    tail.len() <= s.len() && s.subrange(s.len() - tail.len(), s.len() as int) == tail
}

/// Whether a stretch of `s` ends with `tail`.
pub fn stretch_ends_with(s: &Vec<char>, from: usize, to: usize, tail: &str) -> (r: bool)
    requires
        from <= to <= s@.len(),
    ensures
        r == ends_with(s@.subrange(from as int, to as int), tail@),
{
    let t = chars_of(tail);
    if t.len() > to - from {
        return false;
    }
    let at: usize = to - t.len();
    let r = matches_at(s, at, &t, 0, t.len());
    proof {
        assert(t@.subrange(0, t@.len() as int) == tail@);
        assert(s@.subrange(from as int, to as int).subrange(
            (to - from) - tail@.len(),
            (to - from) as int,
        ) == s@.subrange(at as int, at + tail@.len()));
    }
    r
}

/// The decimal digits of a number.
pub open spec fn decimal(n: nat) -> Seq<char>
    decreases n,
{
    if n < 10 {
        seq![digit_char(n)]
    } else {
        decimal(n / 10).push(digit_char(n % 10))
    }
}

/// The digit of a number below ten.
pub open spec fn digit_char(d: nat) -> char {
    ('0' as u32 + d) as char
}

fn digit_text(d: u64) -> (r: &'static str)
    requires
        d < 10,
    ensures
        r@ == seq![digit_char(d as nat)],
{
    proof {
        reveal_strlit("0");
        reveal_strlit("1");
        reveal_strlit("2");
        reveal_strlit("3");
        reveal_strlit("4");
        reveal_strlit("5");
        reveal_strlit("6");
        reveal_strlit("7");
        reveal_strlit("8");
        reveal_strlit("9");
    }
    let r = if d == 0 {
        "0"
    } else if d == 1 {
        "1"
    } else if d == 2 {
        "2"
    } else if d == 3 {
        "3"
    } else if d == 4 {
        "4"
    } else if d == 5 {
        "5"
    } else if d == 6 {
        "6"
    } else if d == 7 {
        "7"
    } else if d == 8 {
        "8"
    } else {
        "9"
    };
    assert(r@ == seq![digit_char(d as nat)]);
    r
}

/// The decimal digits of a number.
pub fn decimal_text(n: u64) -> (r: String)
    ensures
        r@ == decimal(n as nat),
    decreases n,
{
    if n < 10 {
        digit_text(n).to_owned()
    } else {
        let mut s = decimal_text(n / 10);
        s.append(digit_text(n % 10));
        assert(s@ == decimal((n / 10) as nat).push(digit_char((n % 10) as nat)));
        s
    }
}

proof fn lemma_trimmed_start(s: Seq<char>) -> (i: int)
    ensures
        0 <= i <= s.len(),
        trimmed_start(s) == s.subrange(i, s.len() as int),
        forall|k: int| 0 <= k < i ==> white_space(#[trigger] s[k]),
        i < s.len() ==> !white_space(s[i]),
    decreases s.len(),
{
    if s.len() > 0 && white_space(s[0]) {
        let t = s.drop_first();
        let i = lemma_trimmed_start(t);
        assert forall|k: int| 0 <= k < i + 1 implies white_space(#[trigger] s[k]) by {
            if k > 0 {
                assert(t[k - 1] == s[k]);
            }
        }
        assert(t.subrange(i, t.len() as int) =~= s.subrange(i + 1, s.len() as int));
        if i < t.len() {
            assert(t[i] == s[i + 1]);
        }
        i + 1
    } else {
        assert(s.subrange(0, s.len() as int) =~= s);
        0
    }
}

proof fn lemma_trimmed_end(s: Seq<char>) -> (j: int)
    ensures
        0 <= j <= s.len(),
        trimmed_end(s) == s.subrange(0, j),
        forall|k: int| j <= k < s.len() ==> white_space(#[trigger] s[k]),
        j > 0 ==> !white_space(s[j - 1]),
    decreases s.len(),
{
    if s.len() > 0 && white_space(s.last()) {
        let t = s.drop_last();
        let j = lemma_trimmed_end(t);
        assert forall|k: int| j <= k < s.len() implies white_space(#[trigger] s[k]) by {
            if k < t.len() {
                assert(t[k] == s[k]);
            }
        }
        assert(t.subrange(0, j) =~= s.subrange(0, j));
        if j > 0 {
            assert(t[j - 1] == s[j - 1]);
        }
        j
    } else {
        assert(s.subrange(0, s.len() as int) =~= s);
        s.len() as int
    }
}

/// A trimmed text is a stretch of the text, between white space on either side, and has none
/// at its own ends; so it is not trimmed any further.
pub proof fn trim_takes_only_the_margins(s: Seq<char>) -> (r: (int, int))
    ensures
        0 <= r.0 <= r.1 <= s.len(),
        trimmed(s) == s.subrange(r.0, r.1),
        forall|k: int| 0 <= k < r.0 || r.1 <= k < s.len() ==> white_space(#[trigger] s[k]),
        r.0 < r.1 ==> !white_space(s[r.0]) && !white_space(s[r.1 - 1]),
{
    let i = lemma_trimmed_start(s);
    let t = s.subrange(i, s.len() as int);
    let j = lemma_trimmed_end(t);
    assert(t.subrange(0, j) =~= s.subrange(i, i + j));
    assert forall|k: int| 0 <= k < i || i + j <= k < s.len() implies white_space(
        #[trigger] s[k],
    ) by {
        if k >= i {
            assert(t[k - i] == s[k]);
        }
    }
    if j > 0 {
        assert(t[j - 1] == s[i + j - 1]);
        assert(!white_space(s[i]));
    }
    (i, i + j)
}

/// The first word of a text is a stretch of it without white space: only white space stands
/// before it, and white space, or nothing, follows it.
pub proof fn first_word_stands_between_white_space(s: Seq<char>) -> (r: (int, int))
    ensures
        0 <= r.0 <= r.1 <= s.len(),
        first_word(s) == s.subrange(r.0, r.1),
        forall|k: int| 0 <= k < r.0 ==> white_space(#[trigger] s[k]),
        forall|k: int| r.0 <= k < r.1 ==> !white_space(#[trigger] s[k]),
        r.1 < s.len() ==> white_space(s[r.1]) && r.0 < r.1,
{
    let i = lemma_trimmed_start(s);
    let t = s.subrange(i, s.len() as int);
    let n = lemma_token_length(t);
    assert(t.subrange(0, n) =~= s.subrange(i, i + n));
    assert forall|k: int| i <= k < i + n implies !white_space(#[trigger] s[k]) by {
        assert(t[k - i] == s[k]);
    }
    if i + n < s.len() {
        assert(t[n] == s[i + n]);
    }
    (i, i + n)
}

proof fn lemma_token_length(s: Seq<char>) -> (n: int)
    ensures
        0 <= n <= s.len(),
        leading_token(s) == s.subrange(0, n),
        forall|k: int| 0 <= k < n ==> !white_space(#[trigger] s[k]),
        n < s.len() ==> white_space(s[n]),
    decreases s.len(),
{
    if s.len() == 0 || white_space(s[0]) {
        assert(s.subrange(0, 0) =~= Seq::<char>::empty());
        0
    } else {
        let t = s.drop_first();
        let n = lemma_token_length(t);
        assert(seq![s[0]] + t.subrange(0, n) =~= s.subrange(0, n + 1));
        assert forall|k: int| 0 <= k < n + 1 implies !white_space(#[trigger] s[k]) by {
            if k > 0 {
                assert(t[k - 1] == s[k]);
            }
        }
        if n < t.len() {
            assert(t[n] == s[n + 1]);
        }
        n + 1
    }
}

/// What follows the last slash is the end of the text, holds no slash, and stands right behind
/// one, unless the text has none.
pub proof fn base_name_holds_no_slash(s: Seq<char>) -> (at: int)
    ensures
        0 <= at <= s.len(),
        after_last_slash(s) == s.subrange(at, s.len() as int),
        forall|k: int| at <= k < s.len() ==> #[trigger] s[k] != '/',
        at > 0 ==> s[at - 1] == '/',
    decreases s.len(),
{
    if s.len() == 0 || s.last() == '/' {
        assert(s.subrange(s.len() as int, s.len() as int) =~= Seq::<char>::empty());
        s.len() as int
    } else {
        let t = s.drop_last();
        let at = base_name_holds_no_slash(t);
        assert(t.subrange(at, t.len() as int).push(s.last()) =~= s.subrange(at, s.len() as int));
        assert forall|k: int| at <= k < s.len() implies #[trigger] s[k] != '/' by {
            if k < t.len() {
                assert(t[k] == s[k]);
            }
        }
        at
    }
}

proof fn lemma_decimal_round_trip(n: nat)
    ensures
        decimal(n).len() > 0,
        forall|i: int| 0 <= i < decimal(n).len() ==> is_digit(#[trigger] decimal(n)[i]),
        decimal_value(decimal(n)) == n,
    decreases n,
{
    reveal_with_fuel(decimal_value, 2);
    if n < 10 {
        assert(decimal(n).drop_last() =~= Seq::<char>::empty());
    } else {
        lemma_decimal_round_trip(n / 10);
        let d = decimal(n / 10);
        assert(d.push(digit_char(n % 10)).drop_last() =~= d);
    }
}

/// The digits of a number read as that number, with and without a plus sign in front; a number
/// that does not fit, an empty text, and one with any other character, read as none.
pub proof fn written_number_reads_back(n: nat, s: Seq<char>, i: int)
    ensures
        n <= u32::MAX ==> parsed_u32(decimal(n)) == Some(n as u32),
        n <= u32::MAX ==> parsed_u32(seq!['+'] + decimal(n)) == Some(n as u32),
        n > u32::MAX ==> parsed_u32(decimal(n)) is None,
        parsed_u32(Seq::empty()) is None,
        0 <= i < s.len() && !is_digit(s[i]) && (i > 0 || s[i] != '+' || s.len() == 1)
            ==> parsed_u32(s) is None,
{
    lemma_decimal_round_trip(n);
    let d = decimal(n);
    assert(is_digit(d[0]));
    assert(without_plus(d) == d);
    assert((seq!['+'] + d).drop_first() =~= d);
    if 0 <= i < s.len() && !is_digit(s[i]) && (i > 0 || s[i] != '+' || s.len() == 1) {
        let t = without_plus(s);
        if s.len() > 1 && s[0] == '+' {
            assert(t[i - 1] == s[i]);
        } else {
            assert(t[i] == s[i]);
        }
    }
}

/// What stands between two texts occurs in the whole, and what stands last ends it, also where
/// the rest is empty; what is longer than the text does neither.
pub proof fn parts_occur_in_the_whole(before: Seq<char>, part: Seq<char>, after: Seq<char>)
    ensures
        occurs_at(before + part + after, part, before.len() as int),
        occurs_in(before + part + after, part),
        ends_with(before + part, part),
        after.len() > 0 ==> !occurs_in(part, part + after) && !ends_with(part, part + after),
{
    let whole = before + part + after;
    let at = before.len() as int;
    assert(whole.subrange(at, at + part.len()) =~= part);
    assert(occurs_at(whole, part, at));
    let front = before + part;
    assert(front.subrange(front.len() - part.len(), front.len() as int) =~= part);
}

/// White space, by its code points.
pub proof fn white_space_by_code_point(c: char)
    ensures
        ({
            let n = c as u32;
            white_space(c) <==> 9 <= n <= 13 || n == 32 || n == 133 || n == 160 || n == 5760
                || 8192 <= n <= 8202 || n == 8232 || n == 8233 || n == 8239 || n == 8287 || n
                == 12288
        }),
{
}

} // verus!
