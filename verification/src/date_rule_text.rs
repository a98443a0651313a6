//! The textual notation of date rules: every rule has one canonical text, such as
//! `(12/25) + -4 Sundays`, and the reader takes the canonical texts and the function-like
//! forms, such as `OffsetSundays(Fixed(12,25), -4)`.

use vstd::prelude::*;
use crate::date_rule::DateRule;
use crate::text::{
    chars_occur_at, chars_to_string, decimal, digit_char, digit_value, has_prefix, has_suffix,
    int_text, is_digit, occurs_at, push_decimal, to_chars,
};

verus! {

/// Whether a character is white space, as `trim` takes it away.
pub open spec fn is_space(c: char) -> bool {
    let n = c as u32;
    (9 <= n <= 13) || n == 32 || n == 0x85 || n == 0xA0 || n == 0x1680 || (0x2000 <= n <= 0x200A)
        || n == 0x2028 || n == 0x2029 || n == 0x202F || n == 0x205F || n == 0x3000
}

/// A text without the white space at its ends.
pub open spec fn trimmed(s: Seq<char>) -> Seq<char>
    decreases s.len(),
{
    if s.len() > 0 && is_space(s[0]) {
        trimmed(s.drop_first())
    } else if s.len() > 0 && is_space(s.last()) {
        trimmed(s.drop_last())
    } else {
        s
    }
}

/// The place of the first comma from place `i` on that stands outside all brackets, the
/// text before `i` leaving `depth` brackets open.
pub open spec fn top_comma_from(s: Seq<char>, i: int, depth: int) -> Option<int>
    decreases s.len() - i,
{
    if i < 0 || i >= s.len() {
        None
    } else if s[i] == '(' {
        top_comma_from(s, i + 1, depth + 1)
    } else if s[i] == ')' {
        top_comma_from(s, i + 1, depth - 1)
    } else if s[i] == ',' && depth == 0 {
        Some(i)
    } else {
        top_comma_from(s, i + 1, depth)
    }
}

/// The place of the bracket that closes the last of `depth` open brackets, from place `i`
/// on.
pub open spec fn closing_from(s: Seq<char>, i: int, depth: int) -> Option<int>
    decreases s.len() - i,
{
    if i < 0 || i >= s.len() {
        None
    } else if s[i] == '(' {
        closing_from(s, i + 1, depth + 1)
    } else if s[i] == ')' {
        if depth == 1 {
            Some(i)
        } else {
            closing_from(s, i + 1, depth - 1)
        }
    } else {
        closing_from(s, i + 1, depth)
    }
}

/// The place of the first `c` from place `i` on.
pub open spec fn first_from(s: Seq<char>, i: int, c: char) -> Option<int>
    decreases s.len() - i,
{
    if i < 0 || i >= s.len() {
        None
    } else if s[i] == c {
        Some(i)
    } else {
        first_from(s, i + 1, c)
    }
}

/// Whether every character is a decimal digit.
pub open spec fn all_digits(s: Seq<char>) -> bool {
    forall|i: int| 0 <= i < s.len() ==> is_digit(#[trigger] s[i])
}

/// The number that decimal digits stand for.
pub open spec fn digits_value(s: Seq<char>) -> nat
    decreases s.len(),
{
    if s.len() == 0 {
        0
    } else {
        (digits_value(s.drop_last()) * 10 + digit_value(s.last())) as nat
    }
}

/// The digits of a number text without a plus sign before them.
pub open spec fn without_plus(s: Seq<char>) -> Seq<char> {
    if s.len() > 0 && s[0] == '+' {
        s.drop_first()
    } else {
        s
    }
}

/// The number from 0 to 255 that a text stands for: decimal digits, with or without a plus
/// sign before them.
pub open spec fn parse_u8(s: Seq<char>) -> Option<u8> {
    let digits = without_plus(s);
    if digits.len() > 0 && all_digits(digits) && digits_value(digits) <= 255 {
        Some(digits_value(digits) as u8)
    } else {
        None
    }
}

/// The 32-bit integer that a text stands for: decimal digits, with or without a sign
/// before them.
pub open spec fn parse_i32(s: Seq<char>) -> Option<i32> {
    if s.len() > 0 && s[0] == '-' {
        let digits = s.drop_first();
        if digits.len() > 0 && all_digits(digits) && digits_value(digits) <= 2_147_483_648 {
            Some((-(digits_value(digits) as int)) as i32)
        } else {
            None
        }
    } else {
        let digits = without_plus(s);
        if digits.len() > 0 && all_digits(digits) && digits_value(digits) <= 2_147_483_647 {
            Some(digits_value(digits) as i32)
        } else {
            None
        }
    }
}

/// Whether a character is white space.
pub fn char_is_space(c: char) -> (out: bool)
    ensures
        out == is_space(c),
{
    let n = c as u32;
    (9 <= n && n <= 13) || n == 32 || n == 0x85 || n == 0xA0 || n == 0x1680 || (0x2000 <= n && n
        <= 0x200A) || n == 0x2028 || n == 0x2029 || n == 0x202F || n == 0x205F || n == 0x3000
}

/// The characters of `v` from place `lo` up to place `hi`.
pub fn slice(v: &Vec<char>, lo: usize, hi: usize) -> (out: Vec<char>)
    requires
        lo <= hi <= v.len(),
    ensures
        out@ == v@.subrange(lo as int, hi as int),
{
    let mut out: Vec<char> = Vec::new();
    let mut i: usize = lo;
    while i < hi
        invariant
            lo <= i <= hi <= v.len(),
            out@ == v@.subrange(lo as int, i as int),
        decreases hi - i,
    {
        out.push(v[i]);
        i = i + 1;
        assert(out@ =~= v@.subrange(lo as int, i as int));
    }
    out
}

/// A text without the white space at its ends.
pub fn trim(v: &Vec<char>) -> (out: Vec<char>)
    ensures
        out@ == trimmed(v@),
{
    let mut lo: usize = 0;
    let mut hi: usize = v.len();
    assert(v@.subrange(0, v@.len() as int) =~= v@);
    while lo < hi && char_is_space(v[lo])
        invariant
            lo <= hi == v.len(),
            trimmed(v@.subrange(lo as int, hi as int)) == trimmed(v@),
        decreases hi - lo,
    {
        assert(v@.subrange(lo as int, hi as int).drop_first() =~= v@.subrange(lo + 1, hi as int));
        lo = lo + 1;
    }
    while lo < hi && char_is_space(v[hi - 1])
        invariant
            lo <= hi <= v.len(),
            lo < hi ==> !is_space(v@[lo as int]),
            trimmed(v@.subrange(lo as int, hi as int)) == trimmed(v@),
        decreases hi - lo,
    {
        assert(v@.subrange(lo as int, hi as int).drop_last() =~= v@.subrange(lo as int, hi - 1));
        hi = hi - 1;
    }
    slice(v, lo, hi)
}

/// The place of the bracket that closes the bracket before place `from`.
pub fn closing(v: &Vec<char>, from: usize) -> (out: Option<usize>)
    ensures
        match closing_from(v@, from as int, 1) {
            Some(i) => out == Some(i as usize) && from <= i < v.len() && v@[i] == ')',
            None => out is None,
        },
{
    let mut depth: i128 = 1;
    let mut i: usize = from;
    while i < v.len()
        invariant
            from <= i,
            1 <= depth <= 1 + i - from,
            closing_from(v@, i as int, depth as int) == closing_from(v@, from as int, 1),
        decreases v.len() - i,
    {
        let c = v[i];
        if c == '(' {
            depth = depth + 1;
        } else if c == ')' {
            if depth == 1 {
                return Some(i);
            }
            depth = depth - 1;
        }
        i = i + 1;
    }
    None
}

/// The number that the digits from place `from` on stand for, if they are digits, at least
/// one, and the number is not above `limit`.
fn digits_to_number(v: &Vec<char>, from: usize, limit: u64) -> (out: Option<u64>)
    requires
        from <= v.len(),
        limit <= 4_000_000_000,
    ensures
        ({
            let digits = v@.subrange(from as int, v@.len() as int);
            if digits.len() > 0 && all_digits(digits) && digits_value(digits) <= limit {
                out == Some(digits_value(digits) as u64)
            } else {
                out is None
            }
        }),
{
    let ghost digits = v@.subrange(from as int, v@.len() as int);
    if from == v.len() {
        return None;
    }
    let mut value: u64 = 0;
    let mut i: usize = from;
    assert(digits.subrange(0, 0) =~= Seq::empty());
    while i < v.len()
        invariant
            from <= i <= v.len(),
            limit <= 4_000_000_000,
            digits == v@.subrange(from as int, v@.len() as int),
            all_digits(digits.subrange(0, i - from)),
            value <= limit + 1,
            value == (if digits_value(digits.subrange(0, i - from)) <= limit {
                digits_value(digits.subrange(0, i - from)) as int
            } else {
                limit + 1
            }),
        decreases v.len() - i,
    {
        let c = v[i];
        let ghost before = digits.subrange(0, i - from);
        let ghost after = digits.subrange(0, i + 1 - from);
        proof {
            assert(after.drop_last() =~= before);
            assert(after.last() == c);
        }
        if !('0' <= c && c <= '9') {
            assert(digits[i - from] == c);
            return None;
        }
        let d = (c as u32 - '0' as u32) as u64;
        value = value * 10 + d;
        if value > limit {
            value = limit + 1;
        }
        i = i + 1;
        assert forall|k: int| 0 <= k < after.len() implies is_digit(#[trigger] after[k]) by {
            if k < before.len() {
                assert(after[k] == before[k]);
            }
        }
    }
    assert(digits.subrange(0, digits.len() as int) =~= digits);
    if value > limit {
        None
    } else {
        Some(value)
    }
}

/// The number from 0 to 255 that a text stands for.
pub fn chars_to_u8(v: &Vec<char>) -> (out: Option<u8>)
    ensures
        out == parse_u8(v@),
{
    let from: usize = if v.len() > 0 && v[0] == '+' {
        1
    } else {
        0
    };
    proof {
        if from == 1 {
            assert(v@.subrange(1, v@.len() as int) =~= v@.drop_first());
        } else {
            assert(v@.subrange(0, v@.len() as int) =~= v@);
        }
    }
    match digits_to_number(v, from, 255) {
        Some(n) => Some(n as u8),
        None => None,
    }
}

/// The 32-bit integer that a text stands for.
pub fn chars_to_i32(v: &Vec<char>) -> (out: Option<i32>)
    ensures
        out == parse_i32(v@),
{
    if v.len() > 0 && v[0] == '-' {
        assert(v@.subrange(1, v@.len() as int) =~= v@.drop_first());
        match digits_to_number(v, 1, 2_147_483_648) {
            Some(n) => Some((-(n as i64)) as i32),
            None => None,
        }
    } else {
        let from: usize = if v.len() > 0 && v[0] == '+' {
            1
        } else {
            0
        };
        proof {
            if from == 1 {
                assert(v@.subrange(1, v@.len() as int) =~= v@.drop_first());
            } else {
                assert(v@.subrange(0, v@.len() as int) =~= v@);
            }
        }
        match digits_to_number(v, from, 2_147_483_647) {
            Some(n) => Some(n as i32),
            None => None,
        }
    }
}

/// Whether the text begins with `word`.
pub fn starts_with(v: &Vec<char>, word: &str) -> (out: bool)
    ensures
        out == has_prefix(v@, word@),
{
    let w = to_chars(word);
    chars_occur_at(v, &w, 0)
}

/// Whether the text ends with `word`.
pub fn ends_with(v: &Vec<char>, word: &str) -> (out: bool)
    ensures
        out == has_suffix(v@, word@),
{
    let w = to_chars(word);
    if w.len() > v.len() {
        return false;
    }
    chars_occur_at(v, &w, v.len() - w.len())
}

/// Whether the text is `word`.
pub fn is_word(v: &Vec<char>, word: &str) -> (out: bool)
    ensures
        out == (v@ == word@),
{
    let w = to_chars(word);
    if w.len() != v.len() {
        return false;
    }
    let r = chars_occur_at(v, &w, 0);
    assert(v@.subrange(0, v@.len() as int) =~= v@);
    r
}


/// Why a text is no date rule: the part of it, without the white space at its ends, that
/// is no date rule by itself.
#[derive(Debug, PartialEq, Eq)]
pub struct ParseError {
    pub fragment: String,
}

/// Whether a text is `word`, which has `n` characters, something, and a closing bracket.
pub open spec fn wrapped(t: Seq<char>, word: Seq<char>, n: int) -> bool {
    has_prefix(t, word) && has_suffix(t, ")"@) && t.len() > n && word.len() == n
}

/// What stands between the first `n` characters of a text and its last character.
pub open spec fn inside(t: Seq<char>, n: int) -> Seq<char> {
    t.subrange(n, t.len() - 1)
}

/// The rule of one argument, with `wrap` around it, or its error.
pub open spec fn with_one(inner: Result<DateRule, Seq<char>>, wrap: spec_fn(DateRule) -> DateRule) -> Result<
    DateRule,
    Seq<char>,
> {
    match inner {
        Ok(r) => Ok(wrap(r)),
        Err(e) => Err(e),
    }
}

/// A rule with an offset: the rule, then the number, which must be a 32-bit integer and,
/// where `nonzero` is asked, not 0. The error of the rule comes before that of the number,
/// which is the whole text `t`.
pub open spec fn with_offset(
    t: Seq<char>,
    rule: Result<DateRule, Seq<char>>,
    number: Seq<char>,
    days: bool,
    nonzero: bool,
) -> Result<DateRule, Seq<char>> {
    match rule {
        Err(e) => Err(e),
        Ok(r) => match parse_i32(number) {
            Some(n) => if nonzero && n == 0 {
                Err(t)
            } else if days {
                Ok(DateRule::OffsetDays { rule: Box::new(r), offset: n })
            } else {
                Ok(DateRule::OffsetSundays { rule: Box::new(r), offset: n })
            },
            None => Err(t),
        },
    }
}

/// The rule that a text stands for, or the part of the text that is no rule. White space
/// at the ends of the text, and of every argument, does not count.
pub open spec fn parse(s: Seq<char>) -> Result<DateRule, Seq<char>>
    decreases s.len(), 2nat,
{
    if s.len() > 0 && is_space(s[0]) {
        parse(s.drop_first())
    } else if s.len() > 0 && is_space(s.last()) {
        parse(s.drop_last())
    } else {
        parse_form(s)
    }
}

/// The rule that a text without white space at its ends stands for.
///
/// The canonical forms are `Easter`, `m/d`, `(rule) + n days`, `(rule) + n Sundays`,
/// `PreviousYear(rule)`, `NextYear(rule)`, `Sunday Between (rule) and (rule) or (rule)`,
/// `(rule) in leap year else (rule)`, `(rule) (transfered on sundays)` and
/// `(DivinoAfflatuAnticipation)`. The function-like forms are `Fixed(m,d)`,
/// `OffsetDays(rule, n)`, `OffsetSundays(rule, n)`, `SundayBetweenOrFallback(rule, rule,
/// rule)`, `LeapYearConditional(rule, rule)`, `AvoidSunday(rule)` and
/// `DivinoAfflatuAnticipation`; in them a month is 1 to 12, a day 1 to 31, and an offset
/// is not 0.
pub open spec fn parse_form(t: Seq<char>) -> Result<DateRule, Seq<char>>
    decreases t.len(), 1nat,
{
    if t == "Easter"@ {
        Ok(DateRule::Easter)
    } else if t == "DivinoAfflatuAnticipation"@ {
        Ok(DateRule::DivinoAfflatuAnticipation)
    } else if t.len() > 0 && t[0] == '(' {
        bracket_form(t)
    } else if has_prefix(t, "Sunday Between ("@) {
        between_form(t)
    } else if wrapped(t, "Fixed("@, 6) {
        fixed_form(t)
    } else if wrapped(t, "OffsetDays("@, 11) {
        offset_form(t, 11, true)
    } else if wrapped(t, "OffsetSundays("@, 14) {
        offset_form(t, 14, false)
    } else if wrapped(t, "PreviousYear("@, 13) {
        with_one(parse(inside(t, 13)), |r: DateRule| DateRule::PreviousYear(Box::new(r)))
    } else if wrapped(t, "NextYear("@, 9) {
        with_one(parse(inside(t, 9)), |r: DateRule| DateRule::NextYear(Box::new(r)))
    } else if wrapped(t, "SundayBetweenOrFallback("@, 24) {
        three_form(t)
    } else if wrapped(t, "LeapYearConditional("@, 20) {
        two_form(t)
    } else if wrapped(t, "AvoidSunday("@, 12) {
        with_one(parse(inside(t, 12)), |r: DateRule| DateRule::AvoidSunday { rule: Box::new(r) })
    } else {
        slash_form(t)
    }
}

/// A text that begins with a bracket: `(rule)` and what follows it.
pub open spec fn bracket_form(t: Seq<char>) -> Result<DateRule, Seq<char>>
    decreases t.len(), 0nat,
{
    match closing_from(t, 1, 1) {
        Some(j) => if 1 <= j < t.len() {
            let first = t.subrange(1, j);
            let rest = t.subrange(j + 1, t.len() as int);
            if rest.len() == 0 {
                if first == "DivinoAfflatuAnticipation"@ {
                    Ok(DateRule::DivinoAfflatuAnticipation)
                } else {
                    Err(t)
                }
            } else if has_prefix(rest, " + "@) && has_suffix(rest, " days"@) && rest.len() >= 8 {
                with_offset(t, parse(first), rest.subrange(3, rest.len() - 5), true, false)
            } else if has_prefix(rest, " + "@) && has_suffix(rest, " Sundays"@) && rest.len() >= 11 {
                with_offset(t, parse(first), rest.subrange(3, rest.len() - 8), false, false)
            } else if rest == " (transfered on sundays)"@ {
                with_one(parse(first), |r: DateRule| DateRule::AvoidSunday { rule: Box::new(r) })
            } else if has_prefix(rest, " in leap year else ("@) && has_suffix(rest, ")"@) && rest.len() >= 21 {
                with_two(parse(first), parse(rest.subrange(20, rest.len() - 1)))
            } else {
                Err(t)
            }
        } else {
            Err(t)
        },
        None => Err(t),
    }
}

/// The leap-year rule of two rules, or the error of the first of them that is none.
pub open spec fn with_two(leap: Result<DateRule, Seq<char>>, other: Result<DateRule, Seq<char>>) -> Result<
    DateRule,
    Seq<char>,
> {
    match leap {
        Err(e) => Err(e),
        Ok(l) => match other {
            Err(e) => Err(e),
            Ok(o) => Ok(
                DateRule::LeapYearConditional {
                    leap_year_rule: Box::new(l),
                    non_leap_year_rule: Box::new(o),
                },
            ),
        },
    }
}

/// The Sunday-between rule of three rules, or the error of the first of them that is none.
pub open spec fn with_three(
    start: Result<DateRule, Seq<char>>,
    end: Result<DateRule, Seq<char>>,
    fallback: Result<DateRule, Seq<char>>,
) -> Result<DateRule, Seq<char>> {
    match start {
        Err(e) => Err(e),
        Ok(s) => match end {
            Err(e) => Err(e),
            Ok(n) => match fallback {
                Err(e) => Err(e),
                Ok(f) => Ok(
                    DateRule::SundayBetweenOrFallback {
                        start: Box::new(s),
                        end: Box::new(n),
                        fallback: Box::new(f),
                    },
                ),
            },
        },
    }
}

/// `Sunday Between (rule) and (rule) or (rule)`.
pub open spec fn between_form(t: Seq<char>) -> Result<DateRule, Seq<char>>
    decreases t.len(), 0nat,
{
    match closing_from(t, 16, 1) {
        Some(j) => if 16 <= j < t.len() {
            let rest = t.subrange(j + 1, t.len() as int);
            if has_prefix(rest, " and ("@) {
                match closing_from(rest, 6, 1) {
                    Some(k) => if 6 <= k < rest.len() {
                        let last = rest.subrange(k + 1, rest.len() as int);
                        if has_prefix(last, " or ("@) && has_suffix(last, ")"@) && last.len() >= 6 {
                            with_three(
                                parse(t.subrange(16, j)),
                                parse(rest.subrange(6, k)),
                                parse(last.subrange(5, last.len() - 1)),
                            )
                        } else {
                            Err(t)
                        }
                    } else {
                        Err(t)
                    },
                    None => Err(t),
                }
            } else {
                Err(t)
            }
        } else {
            Err(t)
        },
        None => Err(t),
    }
}

/// `Fixed(m,d)`: the numbers stand between plain commas, and what follows a second comma
/// does not count.
pub open spec fn fixed_form(t: Seq<char>) -> Result<DateRule, Seq<char>> {
    let rest = inside(t, 6);
    match first_from(rest, 0, ',') {
        Some(i) => if 0 <= i < rest.len() {
            let day_end = match first_from(rest, i + 1, ',') {
                Some(k) => k,
                None => rest.len() as int,
            };
            match (parse_u8(rest.subrange(0, i)), parse_u8(rest.subrange(i + 1, day_end))) {
                (Some(month), Some(day)) => if 1 <= month <= 12 && 1 <= day <= 31 {
                    Ok(DateRule::Fixed { month, day })
                } else {
                    Err(t)
                },
                _ => Err(t),
            }
        } else {
            Err(t)
        },
        None => Err(t),
    }
}

/// `OffsetDays(rule, n)` or `OffsetSundays(rule, n)`, the word having `n` characters.
pub open spec fn offset_form(t: Seq<char>, n: int, days: bool) -> Result<DateRule, Seq<char>>
    decreases t.len(), 0nat,
{
    let rest = inside(t, n);
    match top_comma_from(rest, 0, 0) {
        Some(i) => if 0 <= i < rest.len() && 0 <= n < t.len() {
            let rule = parse(rest.subrange(0, i));
            with_offset(t, rule, trimmed(rest.subrange(i + 1, rest.len() as int)), days, true)
        } else {
            Err(t)
        },
        None => Err(t),
    }
}

/// `SundayBetweenOrFallback(rule, rule, rule)`: three arguments between the commas that
/// stand outside all brackets.
pub open spec fn three_form(t: Seq<char>) -> Result<DateRule, Seq<char>>
    decreases t.len(), 0nat,
{
    let rest = inside(t, 24);
    match top_comma_from(rest, 0, 0) {
        Some(i) => if 0 <= i < rest.len() && 24 < t.len() {
            match top_comma_from(rest, i + 1, 0) {
                Some(k) => if i < k < rest.len() && top_comma_from(rest, k + 1, 0) is None {
                    with_three(
                        parse(rest.subrange(0, i)),
                        parse(rest.subrange(i + 1, k)),
                        parse(rest.subrange(k + 1, rest.len() as int)),
                    )
                } else {
                    Err(t)
                },
                None => Err(t),
            }
        } else {
            Err(t)
        },
        None => Err(t),
    }
}

/// `LeapYearConditional(rule, rule)`: two arguments.
pub open spec fn two_form(t: Seq<char>) -> Result<DateRule, Seq<char>>
    decreases t.len(), 0nat,
{
    let rest = inside(t, 20);
    match top_comma_from(rest, 0, 0) {
        Some(i) => if 0 <= i < rest.len() && 20 < t.len() && top_comma_from(rest, i + 1, 0) is None {
            with_two(parse(rest.subrange(0, i)), parse(rest.subrange(i + 1, rest.len() as int)))
        } else {
            Err(t)
        },
        None => Err(t),
    }
}

/// `m/d`: two numbers from 0 to 255 with a stroke between them.
pub open spec fn slash_form(t: Seq<char>) -> Result<DateRule, Seq<char>> {
    match first_from(t, 0, '/') {
        Some(i) => if 0 <= i < t.len() {
            match (parse_u8(t.subrange(0, i)), parse_u8(t.subrange(i + 1, t.len() as int))) {
                (Some(month), Some(day)) => Ok(DateRule::Fixed { month, day }),
                _ => Err(t),
            }
        } else {
            Err(t)
        },
        None => Err(t),
    }
}

/// A text without its ends is not longer than the text.
pub proof fn lemma_trimmed_len(s: Seq<char>)
    ensures
        trimmed(s).len() <= s.len(),
    decreases s.len(),
{
    if s.len() > 0 && is_space(s[0]) {
        lemma_trimmed_len(s.drop_first());
    } else if s.len() > 0 && is_space(s.last()) {
        lemma_trimmed_len(s.drop_last());
    }
}

/// A text stands for what it stands for without the white space at its ends.
pub proof fn lemma_parse_trimmed(s: Seq<char>)
    ensures
        parse(s) == parse_form(trimmed(s)),
    decreases s.len(),
{
    if s.len() > 0 && is_space(s[0]) {
        lemma_parse_trimmed(s.drop_first());
    } else if s.len() > 0 && is_space(s.last()) {
        lemma_parse_trimmed(s.drop_last());
    }
}

/// The outcome of reading a text, the error by its fragment.
pub open spec fn outcome(r: Result<DateRule, ParseError>) -> Result<DateRule, Seq<char>> {
    match r {
        Ok(rule) => Ok(rule),
        Err(e) => Err(e.fragment@),
    }
}

/// The error that names the text `t`.
fn error_of(t: &Vec<char>) -> (out: ParseError)
    ensures
        out.fragment@ == t@,
{
    let fragment = chars_to_string(t, 0, t.len());
    assert(t@.subrange(0, t@.len() as int) =~= t@);
    ParseError { fragment }
}


/// Whether a text is `word`, which has `n` characters, something, and a closing bracket.
fn is_wrapped(t: &Vec<char>, word: &str, n: usize) -> (out: bool)
    requires
        word@.len() == n,
    ensures
        out == wrapped(t@, word@, n as int),
{
    t.len() > n && starts_with(t, word) && ends_with(t, ")")
}

/// A rule with an offset, read from its two parts.
fn offset_rule(t: &Vec<char>, rule: Result<DateRule, ParseError>, number: &Vec<char>, days: bool, nonzero: bool) -> (out: Result<
    DateRule,
    ParseError,
>)
    ensures
        outcome(out) == with_offset(t@, outcome(rule), number@, days, nonzero),
{
    match rule {
        Err(e) => Err(e),
        Ok(r) => match chars_to_i32(number) {
            Some(n) => {
                if nonzero && n == 0 {
                    Err(error_of(t))
                } else if days {
                    Ok(DateRule::OffsetDays { rule: Box::new(r), offset: n })
                } else {
                    Ok(DateRule::OffsetSundays { rule: Box::new(r), offset: n })
                }
            },
            None => Err(error_of(t)),
        },
    }
}

/// The leap-year rule of two rules that were read.
fn two_rules(leap: Result<DateRule, ParseError>, other: Result<DateRule, ParseError>) -> (out: Result<
    DateRule,
    ParseError,
>)
    ensures
        outcome(out) == with_two(outcome(leap), outcome(other)),
{
    match leap {
        Err(e) => Err(e),
        Ok(l) => match other {
            Err(e) => Err(e),
            Ok(o) => Ok(
                DateRule::LeapYearConditional {
                    leap_year_rule: Box::new(l),
                    non_leap_year_rule: Box::new(o),
                },
            ),
        },
    }
}

/// The Sunday-between rule of three rules that were read.
fn three_rules(
    start: Result<DateRule, ParseError>,
    end: Result<DateRule, ParseError>,
    fallback: Result<DateRule, ParseError>,
) -> (out: Result<DateRule, ParseError>)
    ensures
        outcome(out) == with_three(outcome(start), outcome(end), outcome(fallback)),
{
    match start {
        Err(e) => Err(e),
        Ok(s) => match end {
            Err(e) => Err(e),
            Ok(n) => match fallback {
                Err(e) => Err(e),
                Ok(f) => Ok(
                    DateRule::SundayBetweenOrFallback {
                        start: Box::new(s),
                        end: Box::new(n),
                        fallback: Box::new(f),
                    },
                ),
            },
        },
    }
}

/// The place of the first comma from place `from` on that stands outside all brackets.
fn top_comma_after(v: &Vec<char>, from: usize) -> (out: Option<usize>)
    requires
        from <= v.len(),
    ensures
        match top_comma_from(v@, from as int, 0) {
            Some(i) => out == Some(i as usize) && from <= i < v.len(),
            None => out is None,
        },
{
    let mut depth: i128 = 0;
    let mut i: usize = from;
    while i < v.len()
        invariant
            from <= i <= v.len(),
            -(i - from) <= depth <= i - from,
            top_comma_from(v@, i as int, depth as int) == top_comma_from(v@, from as int, 0),
        decreases v.len() - i,
    {
        let c = v[i];
        if c == '(' {
            depth = depth + 1;
        } else if c == ')' {
            depth = depth - 1;
        } else if c == ',' && depth == 0 {
            return Some(i);
        }
        i = i + 1;
    }
    None
}

/// The place of the first `c` from place `from` on.
fn first_index_after(v: &Vec<char>, from: usize, c: char) -> (out: Option<usize>)
    requires
        from <= v.len(),
    ensures
        match first_from(v@, from as int, c) {
            Some(i) => out == Some(i as usize) && from <= i < v.len() && v@[i] == c,
            None => out is None,
        },
{
    let mut i: usize = from;
    while i < v.len()
        invariant
            from <= i <= v.len(),
            first_from(v@, i as int, c) == first_from(v@, from as int, c),
        decreases v.len() - i,
    {
        if v[i] == c {
            return Some(i);
        }
        i = i + 1;
    }
    None
}

/// `Fixed(m,d)`.
fn read_fixed(t: &Vec<char>) -> (out: Result<DateRule, ParseError>)
    requires
        t.len() > 6,
    ensures
        outcome(out) == fixed_form(t@),
{
    let rest = slice(t, 6, t.len() - 1);
    let i = match first_index_after(&rest, 0, ',') {
        Some(i) => i,
        None => {
            return Err(error_of(t));
        },
    };
    let day_end = match first_index_after(&rest, i + 1, ',') {
        Some(k) => k,
        None => rest.len(),
    };
    let month = match chars_to_u8(&slice(&rest, 0, i)) {
        Some(m) => m,
        None => {
            return Err(error_of(t));
        },
    };
    let day = match chars_to_u8(&slice(&rest, i + 1, day_end)) {
        Some(d) => d,
        None => {
            return Err(error_of(t));
        },
    };
    if month == 0 || month > 12 {
        return Err(error_of(t));
    }
    if day == 0 || day > 31 {
        return Err(error_of(t));
    }
    Ok(DateRule::Fixed { month, day })
}

/// `m/d`.
fn read_slash(t: &Vec<char>) -> (out: Result<DateRule, ParseError>)
    ensures
        outcome(out) == slash_form(t@),
{
    let i = match first_index_after(t, 0, '/') {
        Some(i) => i,
        None => {
            return Err(error_of(t));
        },
    };
    let month = match chars_to_u8(&slice(t, 0, i)) {
        Some(m) => m,
        None => {
            return Err(error_of(t));
        },
    };
    let day = match chars_to_u8(&slice(t, i + 1, t.len())) {
        Some(d) => d,
        None => {
            return Err(error_of(t));
        },
    };
    Ok(DateRule::Fixed { month, day })
}

/// The rule that a text stands for, or the part of the text that is no rule.
pub fn read(v: &Vec<char>) -> (out: Result<DateRule, ParseError>)
    ensures
        outcome(out) == parse(v@),
    decreases v.len(), 2nat,
{
    let t = trim(v);
    proof {
        lemma_trimmed_len(v@);
        lemma_parse_trimmed(v@);
    }
    read_form(&t)
}

/// The rule that a text without white space at its ends stands for.
fn read_form(t: &Vec<char>) -> (out: Result<DateRule, ParseError>)
    ensures
        outcome(out) == parse_form(t@),
    decreases t.len(), 1nat,
{
    proof {
        reveal_strlit("Fixed(");
        reveal_strlit("OffsetDays(");
        reveal_strlit("OffsetSundays(");
        reveal_strlit("PreviousYear(");
        reveal_strlit("NextYear(");
        reveal_strlit("SundayBetweenOrFallback(");
        reveal_strlit("LeapYearConditional(");
        reveal_strlit("AvoidSunday(");
    }
    if is_word(t, "Easter") {
        return Ok(DateRule::Easter);
    }
    if is_word(t, "DivinoAfflatuAnticipation") {
        return Ok(DateRule::DivinoAfflatuAnticipation);
    }
    if t.len() > 0 && t[0] == '(' {
        return read_bracket(t);
    }
    if starts_with(t, "Sunday Between (") {
        return read_between(t);
    }
    if is_wrapped(t, "Fixed(", 6) {
        return read_fixed(t);
    }
    if is_wrapped(t, "OffsetDays(", 11) {
        return read_offset(t, 11, true);
    }
    if is_wrapped(t, "OffsetSundays(", 14) {
        return read_offset(t, 14, false);
    }
    if is_wrapped(t, "PreviousYear(", 13) {
        return match read(&slice(t, 13, t.len() - 1)) {
            Ok(rule) => Ok(DateRule::PreviousYear(Box::new(rule))),
            Err(e) => Err(e),
        };
    }
    if is_wrapped(t, "NextYear(", 9) {
        return match read(&slice(t, 9, t.len() - 1)) {
            Ok(rule) => Ok(DateRule::NextYear(Box::new(rule))),
            Err(e) => Err(e),
        };
    }
    if is_wrapped(t, "SundayBetweenOrFallback(", 24) {
        return read_three(t);
    }
    if is_wrapped(t, "LeapYearConditional(", 20) {
        return read_two(t);
    }
    if is_wrapped(t, "AvoidSunday(", 12) {
        return match read(&slice(t, 12, t.len() - 1)) {
            Ok(rule) => Ok(DateRule::AvoidSunday { rule: Box::new(rule) }),
            Err(e) => Err(e),
        };
    }
    read_slash(t)
}

/// A text that begins with a bracket.
fn read_bracket(t: &Vec<char>) -> (out: Result<DateRule, ParseError>)
    requires
        t.len() > 0,
    ensures
        outcome(out) == bracket_form(t@),
    decreases t.len(), 0nat,
{
    let j = match closing(t, 1) {
        Some(j) => j,
        None => {
            return Err(error_of(t));
        },
    };
    let first = slice(t, 1, j);
    let rest = slice(t, j + 1, t.len());
    if rest.len() == 0 {
        if is_word(&first, "DivinoAfflatuAnticipation") {
            return Ok(DateRule::DivinoAfflatuAnticipation);
        }
        return Err(error_of(t));
    }
    if starts_with(&rest, " + ") && ends_with(&rest, " days") && rest.len() >= 8 {
        let number = slice(&rest, 3, rest.len() - 5);
        return offset_rule(t, read(&first), &number, true, false);
    }
    if starts_with(&rest, " + ") && ends_with(&rest, " Sundays") && rest.len() >= 11 {
        let number = slice(&rest, 3, rest.len() - 8);
        return offset_rule(t, read(&first), &number, false, false);
    }
    if is_word(&rest, " (transfered on sundays)") {
        return match read(&first) {
            Ok(rule) => Ok(DateRule::AvoidSunday { rule: Box::new(rule) }),
            Err(e) => Err(e),
        };
    }
    if starts_with(&rest, " in leap year else (") && ends_with(&rest, ")") && rest.len() >= 21 {
        let other = slice(&rest, 20, rest.len() - 1);
        let leap = read(&first);
        return match leap {
            Err(e) => Err(e),
            Ok(l) => two_rules(Ok(l), read(&other)),
        };
    }
    Err(error_of(t))
}

/// `Sunday Between (rule) and (rule) or (rule)`.
fn read_between(t: &Vec<char>) -> (out: Result<DateRule, ParseError>)
    ensures
        outcome(out) == between_form(t@),
    decreases t.len(), 0nat,
{
    if t.len() < 16 {
        return Err(error_of(t));
    }
    let j = match closing(t, 16) {
        Some(j) => j,
        None => {
            return Err(error_of(t));
        },
    };
    let rest = slice(t, j + 1, t.len());
    if !starts_with(&rest, " and (") {
        return Err(error_of(t));
    }
    if rest.len() < 6 {
        return Err(error_of(t));
    }
    let k = match closing(&rest, 6) {
        Some(k) => k,
        None => {
            return Err(error_of(t));
        },
    };
    let last = slice(&rest, k + 1, rest.len());
    if !(starts_with(&last, " or (") && ends_with(&last, ")") && last.len() >= 6) {
        return Err(error_of(t));
    }
    let start = read(&slice(t, 16, j));
    match start {
        Err(e) => Err(e),
        Ok(s) => {
            let end = read(&slice(&rest, 6, k));
            match end {
                Err(e) => Err(e),
                Ok(n) => three_rules(Ok(s), Ok(n), read(&slice(&last, 5, last.len() - 1))),
            }
        },
    }
}

/// `OffsetDays(rule, n)` or `OffsetSundays(rule, n)`.
fn read_offset(t: &Vec<char>, n: usize, days: bool) -> (out: Result<DateRule, ParseError>)
    requires
        n < t.len(),
    ensures
        outcome(out) == offset_form(t@, n as int, days),
    decreases t.len(), 0nat,
{
    let rest = slice(t, n, t.len() - 1);
    let i = match top_comma_after(&rest, 0) {
        Some(i) => i,
        None => {
            return Err(error_of(t));
        },
    };
    let rule = read(&slice(&rest, 0, i));
    let number = trim(&slice(&rest, i + 1, rest.len()));
    offset_rule(t, rule, &number, days, true)
}

/// `SundayBetweenOrFallback(rule, rule, rule)`.
fn read_three(t: &Vec<char>) -> (out: Result<DateRule, ParseError>)
    requires
        t.len() > 24,
    ensures
        outcome(out) == three_form(t@),
    decreases t.len(), 0nat,
{
    let rest = slice(t, 24, t.len() - 1);
    let i = match top_comma_after(&rest, 0) {
        Some(i) => i,
        None => {
            return Err(error_of(t));
        },
    };
    let k = match top_comma_after(&rest, i + 1) {
        Some(k) => k,
        None => {
            return Err(error_of(t));
        },
    };
    if top_comma_after(&rest, k + 1).is_some() {
        return Err(error_of(t));
    }
    let start = read(&slice(&rest, 0, i));
    match start {
        Err(e) => Err(e),
        Ok(s) => {
            let end = read(&slice(&rest, i + 1, k));
            match end {
                Err(e) => Err(e),
                Ok(n) => three_rules(Ok(s), Ok(n), read(&slice(&rest, k + 1, rest.len()))),
            }
        },
    }
}

/// `LeapYearConditional(rule, rule)`.
fn read_two(t: &Vec<char>) -> (out: Result<DateRule, ParseError>)
    requires
        t.len() > 20,
    ensures
        outcome(out) == two_form(t@),
    decreases t.len(), 0nat,
{
    let rest = slice(t, 20, t.len() - 1);
    let i = match top_comma_after(&rest, 0) {
        Some(i) => i,
        None => {
            return Err(error_of(t));
        },
    };
    if top_comma_after(&rest, i + 1).is_some() {
        return Err(error_of(t));
    }
    let leap = read(&slice(&rest, 0, i));
    match leap {
        Err(e) => Err(e),
        Ok(l) => two_rules(Ok(l), read(&slice(&rest, i + 1, rest.len()))),
    }
}

impl DateRule {
    /// The rule that a text stands for, or the error with the part of the text that is no
    /// rule.
    pub fn parse(s: &str) -> (out: Result<DateRule, ParseError>)
        ensures
            outcome(out) == parse(s@),
    {
        let v = to_chars(s);
        read(&v)
    }
}

impl core::str::FromStr for DateRule {
    type Err = ParseError;

    /// The rule that a text stands for, as `DateRule::parse` reads it.
    fn from_str(s: &str) -> (out: Result<Self, ParseError>)
        ensures
            outcome(out) == parse(s@),
    {
        DateRule::parse(s)
    }
}


/// The canonical text of a rule.
pub open spec fn display(rule: DateRule) -> Seq<char>
    decreases rule,
{
    match rule {
        DateRule::Easter => "Easter"@,
        DateRule::Fixed { month, day } => decimal(month as nat) + "/"@ + decimal(day as nat),
        DateRule::OffsetDays { rule, offset } => "("@ + display(*rule) + ")"@ + " + "@ + int_text(
            offset as int,
        ) + " days"@,
        DateRule::OffsetSundays { rule, offset } => "("@ + display(*rule) + ")"@ + " + "@ + int_text(
            offset as int,
        ) + " Sundays"@,
        DateRule::PreviousYear(rule) => "PreviousYear("@ + display(*rule) + ")"@,
        DateRule::NextYear(rule) => "NextYear("@ + display(*rule) + ")"@,
        DateRule::SundayBetweenOrFallback { start, end, fallback } => "Sunday Between ("@ + display(*start)
            + ")"@ + " and ("@ + display(*end) + ")"@ + " or ("@ + display(*fallback) + ")"@,
        DateRule::LeapYearConditional { leap_year_rule, non_leap_year_rule } => "("@ + display(
            *leap_year_rule,
        ) + ")"@ + " in leap year else ("@ + display(*non_leap_year_rule) + ")"@,
        DateRule::AvoidSunday { rule } => "("@ + display(*rule) + ")"@ + " (transfered on sundays)"@,
        DateRule::DivinoAfflatuAnticipation => "("@ + "DivinoAfflatuAnticipation"@ + ")"@,
    }
}

/// Appends the characters of `more`.
fn push_chars(out: &mut String, more: &Vec<char>)
    ensures
        final(out)@ == old(out)@ + more@,
{
    let mut i: usize = 0;
    assert(old(out)@ + more@.subrange(0, 0) =~= old(out)@);
    while i < more.len()
        invariant
            i <= more.len(),
            out@ == old(out)@ + more@.subrange(0, i as int),
        decreases more.len() - i,
    {
        crate::text::push_char(out, more[i]);
        i = i + 1;
        assert(out@ =~= old(out)@ + more@.subrange(0, i as int));
    }
    assert(more@.subrange(0, more@.len() as int) =~= more@);
}

/// Appends an integer in decimal digits.
fn push_int(out: &mut String, n: i64)
    ensures
        final(out)@ == old(out)@ + int_text(n as int),
{
    let digits = crate::text::int_to_chars(n);
    push_chars(out, &digits);
}

impl DateRule {
    /// Appends the canonical text of the rule.
    pub fn write_to(&self, out: &mut String)
        ensures
            final(out)@ == old(out)@ + display(*self),
        decreases self,
    {
        let ghost start = out@;
        match self {
            DateRule::Easter => {
                out.append("Easter");
            },
            DateRule::Fixed { month, day } => {
                push_int(out, *month as i64);
                out.append("/");
                push_int(out, *day as i64);
                assert(out@ =~= start + display(*self));
            },
            DateRule::OffsetDays { rule, offset } => {
                out.append("(");
                rule.write_to(out);
                out.append(")");
                out.append(" + ");
                push_int(out, *offset as i64);
                out.append(" days");
                assert(out@ =~= start + display(*self));
            },
            DateRule::OffsetSundays { rule, offset } => {
                out.append("(");
                rule.write_to(out);
                out.append(")");
                out.append(" + ");
                push_int(out, *offset as i64);
                out.append(" Sundays");
                assert(out@ =~= start + display(*self));
            },
            DateRule::PreviousYear(rule) => {
                out.append("PreviousYear(");
                rule.write_to(out);
                out.append(")");
                assert(out@ =~= start + display(*self));
            },
            DateRule::NextYear(rule) => {
                out.append("NextYear(");
                rule.write_to(out);
                out.append(")");
                assert(out@ =~= start + display(*self));
            },
            DateRule::SundayBetweenOrFallback { start: first, end, fallback } => {
                out.append("Sunday Between (");
                first.write_to(out);
                out.append(")");
                out.append(" and (");
                end.write_to(out);
                out.append(")");
                out.append(" or (");
                fallback.write_to(out);
                out.append(")");
                assert(out@ =~= start + display(*self));
            },
            DateRule::LeapYearConditional { leap_year_rule, non_leap_year_rule } => {
                out.append("(");
                leap_year_rule.write_to(out);
                out.append(")");
                out.append(" in leap year else (");
                non_leap_year_rule.write_to(out);
                out.append(")");
                assert(out@ =~= start + display(*self));
            },
            DateRule::AvoidSunday { rule } => {
                out.append("(");
                rule.write_to(out);
                out.append(")");
                out.append(" (transfered on sundays)");
                assert(out@ =~= start + display(*self));
            },
            DateRule::DivinoAfflatuAnticipation => {
                out.append("(");
                out.append("DivinoAfflatuAnticipation");
                out.append(")");
                assert(out@ =~= start + display(*self));
            },
        }
    }

    /// The canonical text of the rule.
    pub fn to_string(&self) -> (out: String)
        ensures
            out@ == display(*self),
    {
        let mut out = String::new();
        self.write_to(&mut out);
        assert(Seq::<char>::empty() + display(*self) =~= display(*self));
        out
    }
}

} // verus!
