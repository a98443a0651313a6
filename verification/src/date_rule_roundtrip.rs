//! The canonical text of a date rule is read back as the rule itself.

use vstd::prelude::*;
use crate::date_rule::DateRule;
use crate::date_rule_text::{
    all_digits, bracket_form, between_form, closing_from, digits_value, display, first_from, inside,
    is_space, parse, parse_form, parse_i32, parse_u8, slash_form, with_offset, with_one, with_three,
    with_two, without_plus, wrapped,
};
use crate::text::{decimal, digit_char, digit_value, has_prefix, has_suffix, int_text, is_digit, occurs_at};

verus! {

/// The decimal digits of a number are digits, at least one, and stand for the number.
pub proof fn lemma_decimal(n: nat)
    ensures
        decimal(n).len() > 0,
        all_digits(decimal(n)),
        digits_value(decimal(n)) == n,
    decreases n,
{
    if n < 10 {
        let s = decimal(n);
        assert(s.drop_last() =~= Seq::<char>::empty());
        assert(digits_value(s.drop_last()) == 0);
        assert(s.last() == digit_char(n as int));
    } else {
        lemma_decimal(n / 10);
        let s = decimal(n);
        assert(s.drop_last() =~= decimal(n / 10));
        assert(s.last() == digit_char((n % 10) as int));
        assert forall|i: int| 0 <= i < s.len() implies is_digit(#[trigger] s[i]) by {
            if i < s.len() - 1 {
                assert(s[i] == decimal(n / 10)[i]);
            }
        }
    }
}

/// A number from 0 to 255 is read back from its decimal digits.
pub proof fn lemma_u8_round_trip(n: u8)
    ensures
        parse_u8(decimal(n as nat)) == Some(n),
{
    lemma_decimal(n as nat);
    assert(is_digit(decimal(n as nat)[0]));
}

/// A 32-bit integer is read back from its decimal text.
pub proof fn lemma_i32_round_trip(n: i32)
    ensures
        parse_i32(int_text(n as int)) == Some(n),
        int_text(n as int).len() > 0,
{
    if n < 0 {
        lemma_decimal((-n) as nat);
        let s = int_text(n as int);
        assert(s[0] == '-');
        assert(s.drop_first() =~= decimal((-n) as nat));
    } else {
        lemma_decimal(n as nat);
        assert(is_digit(decimal(n as nat)[0]));
    }
}


/// How many brackets are open after the text from place `i` on, `depth` being open before
/// it; `None` where a bracket closes that was not opened.
pub open spec fn nesting_from(s: Seq<char>, i: int, depth: int) -> Option<int>
    decreases s.len() - i,
{
    if i < 0 || i >= s.len() {
        Some(depth)
    } else if s[i] == '(' {
        nesting_from(s, i + 1, depth + 1)
    } else if s[i] == ')' {
        if depth <= 0 {
            None
        } else {
            nesting_from(s, i + 1, depth - 1)
        }
    } else {
        nesting_from(s, i + 1, depth)
    }
}

/// What a text does to the number of open brackets.
pub open spec fn nesting(s: Seq<char>, depth: int) -> Option<int> {
    nesting_from(s, 0, depth)
}

/// Whether every bracket of a text is closed in it, and none closes that was not opened.
pub open spec fn balanced(s: Seq<char>) -> bool {
    nesting(s, 0) == Some(0int)
}

/// More open brackets before a text are as many more after it.
pub proof fn lemma_nesting_shift(s: Seq<char>, i: int, depth: int, more: int)
    requires
        more >= 0,
        nesting_from(s, i, depth) is Some,
    ensures
        nesting_from(s, i, depth + more) == Some(nesting_from(s, i, depth)->0 + more),
    decreases s.len() - i,
{
    if i < 0 || i >= s.len() {
    } else if s[i] == '(' {
        lemma_nesting_shift(s, i + 1, depth + 1, more);
    } else if s[i] == ')' {
        lemma_nesting_shift(s, i + 1, depth - 1, more);
    } else {
        lemma_nesting_shift(s, i + 1, depth, more);
    }
}

/// The second of two texts is scanned within their concatenation as by itself.
pub proof fn lemma_nesting_second(a: Seq<char>, b: Seq<char>, j: int, depth: int)
    requires
        0 <= j,
    ensures
        nesting_from(a + b, a.len() + j, depth) == nesting_from(b, j, depth),
    decreases b.len() - j,
{
    if j < b.len() {
        assert((a + b)[a.len() + j] == b[j]);
        if b[j] == '(' {
            lemma_nesting_second(a, b, j + 1, depth + 1);
        } else if b[j] == ')' {
            if depth > 0 {
                lemma_nesting_second(a, b, j + 1, depth - 1);
            }
        } else {
            lemma_nesting_second(a, b, j + 1, depth);
        }
    }
}

/// Two texts one after the other: the second goes on where the first ends.
pub proof fn lemma_nesting_from_concat(a: Seq<char>, b: Seq<char>, i: int, depth: int)
    requires
        0 <= i <= a.len(),
    ensures
        nesting_from(a + b, i, depth) == (match nesting_from(a, i, depth) {
            Some(d) => nesting(b, d),
            None => None,
        }),
    decreases a.len() - i,
{
    if i == a.len() {
        lemma_nesting_second(a, b, 0, depth);
    } else {
        assert((a + b)[i] == a[i]);
        if a[i] == '(' {
            lemma_nesting_from_concat(a, b, i + 1, depth + 1);
        } else if a[i] == ')' {
            if depth > 0 {
                lemma_nesting_from_concat(a, b, i + 1, depth - 1);
            }
        } else {
            lemma_nesting_from_concat(a, b, i + 1, depth);
        }
    }
}

/// Two texts one after the other: the second goes on where the first ends.
pub proof fn lemma_nesting_concat(a: Seq<char>, b: Seq<char>, depth: int)
    ensures
        nesting(a + b, depth) == (match nesting(a, depth) {
            Some(d) => nesting(b, d),
            None => None,
        }),
{
    lemma_nesting_from_concat(a, b, 0, depth);
}

/// A text without brackets leaves the open brackets as they are.
pub proof fn lemma_nesting_plain(s: Seq<char>, i: int, depth: int)
    requires
        0 <= i,
        forall|k: int| i <= k < s.len() ==> s[k] != '(' && s[k] != ')',
    ensures
        nesting_from(s, i, depth) == Some(depth),
    decreases s.len() - i,
{
    if i < s.len() {
        lemma_nesting_plain(s, i + 1, depth);
    }
}

/// A balanced text within a text is passed over by the search for the closing bracket.
pub proof fn lemma_closing_skips(s: Seq<char>, base: int, x: Seq<char>, i: int, open: int, depth: int)
    requires
        0 <= base,
        base + x.len() <= s.len(),
        forall|k: int| 0 <= k < x.len() ==> s[base + k] == x[k],
        0 <= i <= x.len(),
        open >= 0,
        depth >= 1,
        nesting_from(x, i, open) is Some,
    ensures
        closing_from(s, base + i, depth + open) == closing_from(
            s,
            base + x.len(),
            depth + nesting_from(x, i, open)->0,
        ),
    decreases x.len() - i,
{
    if i < x.len() {
        assert(s[base + i] == x[i]);
        if x[i] == '(' {
            lemma_closing_skips(s, base, x, i + 1, open + 1, depth);
        } else if x[i] == ')' {
            lemma_closing_skips(s, base, x, i + 1, open - 1, depth);
        } else {
            lemma_closing_skips(s, base, x, i + 1, open, depth);
        }
    }
}

/// After an open bracket and a balanced text, the bracket that follows closes the first.
pub proof fn lemma_closing_found(s: Seq<char>, base: int, x: Seq<char>)
    requires
        0 <= base,
        base + x.len() < s.len(),
        forall|k: int| 0 <= k < x.len() ==> s[base + k] == x[k],
        s[base + x.len()] == ')',
        balanced(x),
    ensures
        closing_from(s, base, 1) == Some(base + x.len()),
{
    lemma_closing_skips(s, base, x, 0, 0, 1);
}

/// What the pieces of the canonical texts do to the number of open brackets.
pub proof fn lemma_pieces(d: int)
    requires
        d >= 0,
    ensures
        nesting("("@, d) == Some(d + 1),
        nesting(")"@, d + 1) == Some(d),
        nesting(" + "@, d) == Some(d),
        nesting(" days"@, d) == Some(d),
        nesting(" Sundays"@, d) == Some(d),
        nesting("Easter"@, d) == Some(d),
        nesting("/"@, d) == Some(d),
        nesting("DivinoAfflatuAnticipation"@, d) == Some(d),
        nesting("PreviousYear("@, d) == Some(d + 1),
        nesting("NextYear("@, d) == Some(d + 1),
        nesting("Sunday Between ("@, d) == Some(d + 1),
        nesting(" and ("@, d) == Some(d + 1),
        nesting(" or ("@, d) == Some(d + 1),
        nesting(" in leap year else ("@, d) == Some(d + 1),
        nesting(" (transfered on sundays)"@, d) == Some(d),
{
    reveal_strlit("(");
    reveal_strlit(")");
    reveal_strlit(" + ");
    reveal_strlit(" days");
    reveal_strlit(" Sundays");
    reveal_strlit("Easter");
    reveal_strlit("/");
    reveal_strlit("DivinoAfflatuAnticipation");
    reveal_strlit("PreviousYear(");
    reveal_strlit("NextYear(");
    reveal_strlit("Sunday Between (");
    reveal_strlit(" and (");
    reveal_strlit(" or (");
    reveal_strlit(" in leap year else (");
    reveal_strlit(" (transfered on sundays)");
    reveal_with_fuel(nesting_from, 30);
}

/// Decimal digits hold no brackets.
pub proof fn lemma_nesting_decimal(n: nat, d: int)
    ensures
        nesting(decimal(n), d) == Some(d),
{
    lemma_decimal(n);
    let s = decimal(n);
    assert forall|k: int| 0 <= k < s.len() implies s[k] != '(' && s[k] != ')' by {
        assert(is_digit(s[k]));
    }
    lemma_nesting_plain(s, 0, d);
}

/// The decimal text of an integer holds no brackets.
pub proof fn lemma_nesting_int(n: int, d: int)
    ensures
        nesting(int_text(n), d) == Some(d),
{
    let s = int_text(n);
    if n < 0 {
        lemma_decimal((-n) as nat);
        let digits = decimal((-n) as nat);
        assert forall|k: int| 0 <= k < s.len() implies s[k] != '(' && s[k] != ')' by {
            if k > 0 {
                assert(s[k] == digits[k - 1]);
                assert(is_digit(digits[k - 1]));
            }
        }
    } else {
        lemma_decimal(n as nat);
        assert forall|k: int| 0 <= k < s.len() implies s[k] != '(' && s[k] != ')' by {
            assert(is_digit(s[k]));
        }
    }
    lemma_nesting_plain(s, 0, d);
}

/// One text after another, by what each does to the number of open brackets.
pub proof fn lemma_append(a: Seq<char>, b: Seq<char>, d: int, da: int, db: int)
    requires
        nesting(a, d) == Some(da),
        nesting(b, da) == Some(db),
    ensures
        nesting(a + b, d) == Some(db),
{
    lemma_nesting_concat(a, b, d);
}

/// A canonical text leaves the number of open brackets as it is.
pub proof fn lemma_display_nesting(rule: DateRule, d: int)
    requires
        d >= 0,
    ensures
        nesting(display(rule), d) == Some(d),
    decreases rule,
{
    lemma_pieces(d);
    lemma_pieces(d + 1);
    match rule {
        DateRule::Easter => {},
        DateRule::Fixed { month, day } => {
            lemma_nesting_decimal(month as nat, d);
            lemma_nesting_decimal(day as nat, d);
            lemma_append(decimal(month as nat), "/"@, d, d, d);
            lemma_append(decimal(month as nat) + "/"@, decimal(day as nat), d, d, d);
        },
        DateRule::OffsetDays { rule, offset } => {
            lemma_display_nesting(*rule, d + 1);
            lemma_nesting_int(offset as int, d);
            let t1 = "("@ + display(*rule);
            let t2 = t1 + ")"@;
            let t3 = t2 + " + "@;
            let t4 = t3 + int_text(offset as int);
            lemma_append("("@, display(*rule), d, d + 1, d + 1);
            lemma_append(t1, ")"@, d, d + 1, d);
            lemma_append(t2, " + "@, d, d, d);
            lemma_append(t3, int_text(offset as int), d, d, d);
            lemma_append(t4, " days"@, d, d, d);
        },
        DateRule::OffsetSundays { rule, offset } => {
            lemma_display_nesting(*rule, d + 1);
            lemma_nesting_int(offset as int, d);
            let t1 = "("@ + display(*rule);
            let t2 = t1 + ")"@;
            let t3 = t2 + " + "@;
            let t4 = t3 + int_text(offset as int);
            lemma_append("("@, display(*rule), d, d + 1, d + 1);
            lemma_append(t1, ")"@, d, d + 1, d);
            lemma_append(t2, " + "@, d, d, d);
            lemma_append(t3, int_text(offset as int), d, d, d);
            lemma_append(t4, " Sundays"@, d, d, d);
        },
        DateRule::PreviousYear(rule) => {
            lemma_display_nesting(*rule, d + 1);
            lemma_append("PreviousYear("@, display(*rule), d, d + 1, d + 1);
            lemma_append("PreviousYear("@ + display(*rule), ")"@, d, d + 1, d);
        },
        DateRule::NextYear(rule) => {
            lemma_display_nesting(*rule, d + 1);
            lemma_append("NextYear("@, display(*rule), d, d + 1, d + 1);
            lemma_append("NextYear("@ + display(*rule), ")"@, d, d + 1, d);
        },
        DateRule::SundayBetweenOrFallback { start, end, fallback } => {
            lemma_display_nesting(*start, d + 1);
            lemma_display_nesting(*end, d + 1);
            lemma_display_nesting(*fallback, d + 1);
            let t1 = "Sunday Between ("@ + display(*start);
            let t2 = t1 + ")"@;
            let t3 = t2 + " and ("@;
            let t4 = t3 + display(*end);
            let t5 = t4 + ")"@;
            let t6 = t5 + " or ("@;
            let t7 = t6 + display(*fallback);
            lemma_append("Sunday Between ("@, display(*start), d, d + 1, d + 1);
            lemma_append(t1, ")"@, d, d + 1, d);
            lemma_append(t2, " and ("@, d, d, d + 1);
            lemma_append(t3, display(*end), d, d + 1, d + 1);
            lemma_append(t4, ")"@, d, d + 1, d);
            lemma_append(t5, " or ("@, d, d, d + 1);
            lemma_append(t6, display(*fallback), d, d + 1, d + 1);
            lemma_append(t7, ")"@, d, d + 1, d);
        },
        DateRule::LeapYearConditional { leap_year_rule, non_leap_year_rule } => {
            lemma_display_nesting(*leap_year_rule, d + 1);
            lemma_display_nesting(*non_leap_year_rule, d + 1);
            let t1 = "("@ + display(*leap_year_rule);
            let t2 = t1 + ")"@;
            let t3 = t2 + " in leap year else ("@;
            let t4 = t3 + display(*non_leap_year_rule);
            lemma_append("("@, display(*leap_year_rule), d, d + 1, d + 1);
            lemma_append(t1, ")"@, d, d + 1, d);
            lemma_append(t2, " in leap year else ("@, d, d, d + 1);
            lemma_append(t3, display(*non_leap_year_rule), d, d + 1, d + 1);
            lemma_append(t4, ")"@, d, d + 1, d);
        },
        DateRule::AvoidSunday { rule } => {
            lemma_display_nesting(*rule, d + 1);
            let t1 = "("@ + display(*rule);
            let t2 = t1 + ")"@;
            lemma_append("("@, display(*rule), d, d + 1, d + 1);
            lemma_append(t1, ")"@, d, d + 1, d);
            lemma_append(t2, " (transfered on sundays)"@, d, d, d);
        },
        DateRule::DivinoAfflatuAnticipation => {
            lemma_append("("@, "DivinoAfflatuAnticipation"@, d, d + 1, d + 1);
            lemma_append("("@ + "DivinoAfflatuAnticipation"@, ")"@, d, d + 1, d);
        },
    }
}


/// A text that neither begins nor ends with white space is read as it stands.
pub proof fn lemma_no_trim(t: Seq<char>)
    requires
        t.len() > 0,
        !is_space(t[0]),
        !is_space(t.last()),
    ensures
        parse(t) == parse_form(t),
{
}

/// A text that begins with a word begins with the word's first character.
pub proof fn lemma_prefix_first(t: Seq<char>, word: Seq<char>)
    requires
        word.len() > 0,
        has_prefix(t, word),
    ensures
        t.len() > 0,
        t[0] == word[0],
{
    assert(t.subrange(0, word.len() as int)[0] == t[0]);
}

/// The first characters of the texts that begin with one of the words of the notation.
pub proof fn lemma_words_first(t: Seq<char>)
    requires
        t.len() > 0,
    ensures
        t == "Easter"@ ==> t[0] == 'E',
        t == "DivinoAfflatuAnticipation"@ ==> t[0] == 'D',
        has_prefix(t, "Sunday Between ("@) ==> t[0] == 'S',
        wrapped(t, "Fixed("@, 6) ==> t[0] == 'F',
        wrapped(t, "OffsetDays("@, 11) ==> t[0] == 'O',
        wrapped(t, "OffsetSundays("@, 14) ==> t[0] == 'O',
        wrapped(t, "PreviousYear("@, 13) ==> t[0] == 'P',
        wrapped(t, "NextYear("@, 9) ==> t[0] == 'N',
        wrapped(t, "SundayBetweenOrFallback("@, 24) ==> t[0] == 'S',
        wrapped(t, "LeapYearConditional("@, 20) ==> t[0] == 'L',
        wrapped(t, "AvoidSunday("@, 12) ==> t[0] == 'A',
{
    reveal_strlit("Easter");
    reveal_strlit("DivinoAfflatuAnticipation");
    reveal_strlit("Sunday Between (");
    reveal_strlit("Fixed(");
    reveal_strlit("OffsetDays(");
    reveal_strlit("OffsetSundays(");
    reveal_strlit("PreviousYear(");
    reveal_strlit("NextYear(");
    reveal_strlit("SundayBetweenOrFallback(");
    reveal_strlit("LeapYearConditional(");
    reveal_strlit("AvoidSunday(");
    if has_prefix(t, "Sunday Between ("@) {
        lemma_prefix_first(t, "Sunday Between ("@);
    }
    if has_prefix(t, "Fixed("@) {
        lemma_prefix_first(t, "Fixed("@);
    }
    if has_prefix(t, "OffsetDays("@) {
        lemma_prefix_first(t, "OffsetDays("@);
    }
    if has_prefix(t, "OffsetSundays("@) {
        lemma_prefix_first(t, "OffsetSundays("@);
    }
    if has_prefix(t, "PreviousYear("@) {
        lemma_prefix_first(t, "PreviousYear("@);
    }
    if has_prefix(t, "NextYear("@) {
        lemma_prefix_first(t, "NextYear("@);
    }
    if has_prefix(t, "SundayBetweenOrFallback("@) {
        lemma_prefix_first(t, "SundayBetweenOrFallback("@);
    }
    if has_prefix(t, "LeapYearConditional("@) {
        lemma_prefix_first(t, "LeapYearConditional("@);
    }
    if has_prefix(t, "AvoidSunday("@) {
        lemma_prefix_first(t, "AvoidSunday("@);
    }
}

/// A text that begins with a bracket is read by the bracket form, whatever follows.
pub proof fn lemma_reads_bracket(t: Seq<char>)
    requires
        t.len() > 0,
        t[0] == '(',
        !is_space(t.last()),
    ensures
        parse(t) == bracket_form(t),
{
    lemma_words_first(t);
    lemma_no_trim(t);
}

/// The first `c` of a text lies where no `c` lies before.
pub proof fn lemma_first_from_at(s: Seq<char>, i: int, c: char, place: int)
    requires
        0 <= i <= place < s.len(),
        forall|k: int| i <= k < place ==> s[k] != c,
        s[place] == c,
    ensures
        first_from(s, i, c) == Some(place),
    decreases place - i,
{
    if i < place {
        lemma_first_from_at(s, i + 1, c, place);
    }
}

/// `Easter` is read as Easter.
pub proof fn lemma_read_easter()
    ensures
        parse("Easter"@) == Ok::<DateRule, Seq<char>>(DateRule::Easter),
{
    reveal_strlit("Easter");
    lemma_no_trim("Easter"@);
}

/// `m/d` is read as the day `d` of the month `m`.
pub proof fn lemma_read_fixed(month: u8, day: u8)
    ensures
        parse(decimal(month as nat) + "/"@ + decimal(day as nat)) == Ok::<DateRule, Seq<char>>(
            DateRule::Fixed { month, day },
        ),
{
    reveal_strlit("/");
    let m = decimal(month as nat);
    let d = decimal(day as nat);
    let t = m + "/"@ + d;
    lemma_decimal(month as nat);
    lemma_decimal(day as nat);
    lemma_u8_round_trip(month);
    lemma_u8_round_trip(day);
    assert(t[0] == m[0]);
    assert(is_digit(m[0]));
    assert(t.last() == d.last());
    assert(is_digit(d.last()));
    lemma_no_trim(t);
    lemma_words_first(t);
    assert(parse_form(t) == slash_form(t));
    assert forall|k: int| 0 <= k < m.len() implies t[k] != '/' by {
        assert(t[k] == m[k]);
        assert(is_digit(m[k]));
    }
    assert(t[m.len() as int] == '/');
    lemma_first_from_at(t, 0, '/', m.len() as int);
    assert(t.subrange(0, m.len() as int) =~= m);
    assert(t.subrange(m.len() as int + 1, t.len() as int) =~= d);
}


/// In a text that is an open bracket, a balanced text, a closing bracket and more, the
/// closing bracket is found, and the bracket holds the balanced text.
pub proof fn lemma_bracket_parts(x: Seq<char>, rest: Seq<char>)
    requires
        balanced(x),
    ensures
        ({
            let t = "("@ + x + ")"@ + rest;
            &&& t.len() == x.len() + rest.len() + 2
            &&& t[0] == '('
            &&& closing_from(t, 1, 1) == Some(1 + x.len() as int)
            &&& t.subrange(1, 1 + x.len() as int) == x
            &&& t.subrange(2 + x.len() as int, t.len() as int) == rest
        }),
{
    reveal_strlit("(");
    reveal_strlit(")");
    let t = "("@ + x + ")"@ + rest;
    assert forall|k: int| 0 <= k < x.len() implies t[1 + k] == x[k] by {}
    assert(t[1 + x.len() as int] == ')');
    lemma_closing_found(t, 1, x);
    assert(t.subrange(1, 1 + x.len() as int) =~= x);
    assert(t.subrange(2 + x.len() as int, t.len() as int) =~= rest);
}

/// What follows the bracket in `(rule) + n days`.
pub proof fn lemma_rest_days(number: Seq<char>)
    requires
        number.len() > 0,
    ensures
        ({
            let rest = " + "@ + number + " days"@;
            &&& rest.len() >= 8
            &&& has_prefix(rest, " + "@)
            &&& has_suffix(rest, " days"@)
            &&& rest.subrange(3, rest.len() - 5) == number
            &&& rest.last() == 's'
        }),
{
    reveal_strlit(" + ");
    reveal_strlit(" days");
    let rest = " + "@ + number + " days"@;
    assert(rest.subrange(0, 3) =~= " + "@);
    assert(rest.subrange(rest.len() - 5, rest.len() as int) =~= " days"@);
    assert(rest.subrange(3, rest.len() - 5) =~= number);
    assert(rest.last() == " days"@[4]);
}

/// What follows the bracket in `(rule) + n Sundays`.
pub proof fn lemma_rest_sundays(number: Seq<char>)
    requires
        number.len() > 0,
    ensures
        ({
            let rest = " + "@ + number + " Sundays"@;
            &&& rest.len() >= 11
            &&& has_prefix(rest, " + "@)
            &&& !has_suffix(rest, " days"@)
            &&& has_suffix(rest, " Sundays"@)
            &&& rest.subrange(3, rest.len() - 8) == number
            &&& rest.last() == 's'
        }),
{
    reveal_strlit(" + ");
    reveal_strlit(" days");
    reveal_strlit(" Sundays");
    let rest = " + "@ + number + " Sundays"@;
    assert(rest.subrange(0, 3) =~= " + "@);
    assert(rest.subrange(rest.len() - 8, rest.len() as int) =~= " Sundays"@);
    assert(rest.subrange(3, rest.len() - 8) =~= number);
    assert(rest.last() == " Sundays"@[7]);
    assert(rest[rest.len() - 5] == " Sundays"@[3]);
    if has_suffix(rest, " days"@) {
        assert(rest.subrange(rest.len() - 5, rest.len() as int)[0] == rest[rest.len() - 5]);
    }
}

/// `(x) + number days` is read as the rule of `x` with the offset of `number`.
pub proof fn lemma_reads_days(x: Seq<char>, number: Seq<char>)
    requires
        balanced(x),
        number.len() > 0,
    ensures
        ({
            let t = "("@ + x + ")"@ + (" + "@ + number + " days"@);
            parse(t) == with_offset(t, parse(x), number, true, false)
        }),
{
    let rest = " + "@ + number + " days"@;
    let t = "("@ + x + ")"@ + rest;
    lemma_rest_days(number);
    lemma_bracket_parts(x, rest);
    assert(t.last() == rest.last());
    lemma_reads_bracket(t);
    let j = 1 + x.len() as int;
    assert(closing_from(t, 1, 1) == Some(j));
    assert(t.subrange(1, j) == x);
    assert(t.subrange(j + 1, t.len() as int) == rest);
    assert(bracket_form(t) == with_offset(t, parse(x), number, true, false));
}

/// `(x) + number Sundays` is read as the rule of `x` with the offset of `number`.
pub proof fn lemma_reads_sundays(x: Seq<char>, number: Seq<char>)
    requires
        balanced(x),
        number.len() > 0,
    ensures
        ({
            let t = "("@ + x + ")"@ + (" + "@ + number + " Sundays"@);
            parse(t) == with_offset(t, parse(x), number, false, false)
        }),
{
    let rest = " + "@ + number + " Sundays"@;
    let t = "("@ + x + ")"@ + rest;
    lemma_rest_sundays(number);
    lemma_bracket_parts(x, rest);
    assert(t.last() == rest.last());
    lemma_reads_bracket(t);
    let j = 1 + x.len() as int;
    assert(closing_from(t, 1, 1) == Some(j));
    assert(t.subrange(1, j) == x);
    assert(t.subrange(j + 1, t.len() as int) == rest);
    assert(bracket_form(t) == with_offset(t, parse(x), number, false, false));
}

/// `(rule) + n days` and `(rule) + n Sundays` are read as the rule with the offset `n`.
pub proof fn lemma_read_offset(x: Seq<char>, r: DateRule, n: i32, days: bool)
    requires
        balanced(x),
        parse(x) == Ok::<DateRule, Seq<char>>(r),
    ensures
        days ==> parse("("@ + x + ")"@ + " + "@ + int_text(n as int) + " days"@) == Ok::<
            DateRule,
            Seq<char>,
        >(DateRule::OffsetDays { rule: Box::new(r), offset: n }),
        !days ==> parse("("@ + x + ")"@ + " + "@ + int_text(n as int) + " Sundays"@) == Ok::<
            DateRule,
            Seq<char>,
        >(DateRule::OffsetSundays { rule: Box::new(r), offset: n }),
{
    let number = int_text(n as int);
    lemma_i32_round_trip(n);
    if days {
        lemma_reads_days(x, number);
        assert("("@ + x + ")"@ + " + "@ + number + " days"@ =~= "("@ + x + ")"@ + (" + "@ + number
            + " days"@));
    } else {
        lemma_reads_sundays(x, number);
        assert("("@ + x + ")"@ + " + "@ + number + " Sundays"@ =~= "("@ + x + ")"@ + (" + "@ + number
            + " Sundays"@));
    }
}

/// `(rule) (transfered on sundays)` is read as the rule that avoids Sundays.
pub proof fn lemma_read_avoid(x: Seq<char>, r: DateRule)
    requires
        balanced(x),
        parse(x) == Ok::<DateRule, Seq<char>>(r),
    ensures
        parse("("@ + x + ")"@ + " (transfered on sundays)"@) == Ok::<DateRule, Seq<char>>(
            DateRule::AvoidSunday { rule: Box::new(r) },
        ),
{
    reveal_strlit(" + ");
    reveal_strlit(" days");
    reveal_strlit(" Sundays");
    reveal_strlit(" (transfered on sundays)");
    let rest = " (transfered on sundays)"@;
    let t = "("@ + x + ")"@ + rest;
    lemma_bracket_parts(x, rest);
    assert(t.last() == rest.last());
    lemma_reads_bracket(t);
    if has_prefix(rest, " + "@) {
        assert(rest.subrange(0, 3)[1] == rest[1]);
    }
}

/// `(rule) in leap year else (rule)` is read as the rule of the leap year and the other.
pub proof fn lemma_read_leap(x: Seq<char>, r: DateRule, y: Seq<char>, o: DateRule)
    requires
        balanced(x),
        parse(x) == Ok::<DateRule, Seq<char>>(r),
        parse(y) == Ok::<DateRule, Seq<char>>(o),
    ensures
        parse("("@ + x + ")"@ + " in leap year else ("@ + y + ")"@) == Ok::<DateRule, Seq<char>>(
            DateRule::LeapYearConditional {
                leap_year_rule: Box::new(r),
                non_leap_year_rule: Box::new(o),
            },
        ),
{
    reveal_strlit(" + ");
    reveal_strlit(" days");
    reveal_strlit(" Sundays");
    reveal_strlit(" (transfered on sundays)");
    reveal_strlit(" in leap year else (");
    reveal_strlit(")");
    let word = " in leap year else ("@;
    let rest = word + y + ")"@;
    let t = "("@ + x + ")"@ + rest;
    assert(t =~= "("@ + x + ")"@ + word + y + ")"@);
    lemma_bracket_parts(x, rest);
    assert(t.last() == ')');
    lemma_reads_bracket(t);
    if has_prefix(rest, " + "@) {
        assert(rest.subrange(0, 3)[1] == rest[1]);
    }
    assert(rest[1] == 'i');
    assert(" (transfered on sundays)"@[1] == '(');
    assert(rest.subrange(0, 20) =~= word);
    assert(rest.subrange(rest.len() - 1, rest.len() as int) =~= ")"@);
    assert(rest.subrange(20, rest.len() - 1) =~= y);
}

/// `(DivinoAfflatuAnticipation)` is read as the anticipation.
pub proof fn lemma_read_anticipation()
    ensures
        parse("("@ + "DivinoAfflatuAnticipation"@ + ")"@) == Ok::<DateRule, Seq<char>>(
            DateRule::DivinoAfflatuAnticipation,
        ),
{
    reveal_strlit(")");
    let x = "DivinoAfflatuAnticipation"@;
    lemma_pieces(0);
    lemma_bracket_parts(x, Seq::empty());
    let t = "("@ + x + ")"@;
    assert(t =~= "("@ + x + ")"@ + Seq::<char>::empty());
    assert(t.last() == ')');
    lemma_reads_bracket(t);
}

/// `PreviousYear(rule)` and `NextYear(rule)` are read as the rule in the year before and
/// in the year after.
pub proof fn lemma_read_year(x: Seq<char>, r: DateRule, previous: bool)
    requires
        parse(x) == Ok::<DateRule, Seq<char>>(r),
    ensures
        previous ==> parse("PreviousYear("@ + x + ")"@) == Ok::<DateRule, Seq<char>>(
            DateRule::PreviousYear(Box::new(r)),
        ),
        !previous ==> parse("NextYear("@ + x + ")"@) == Ok::<DateRule, Seq<char>>(
            DateRule::NextYear(Box::new(r)),
        ),
{
    reveal_strlit("PreviousYear(");
    reveal_strlit("NextYear(");
    reveal_strlit(")");
    let word = if previous {
        "PreviousYear("@
    } else {
        "NextYear("@
    };
    let t = word + x + ")"@;
    assert(t[0] == word[0]);
    assert(t.last() == ')');
    lemma_no_trim(t);
    lemma_words_first(t);
    assert(t.subrange(0, word.len() as int) =~= word);
    assert(t.subrange(t.len() - 1, t.len() as int) =~= ")"@);
    assert(inside(t, word.len() as int) =~= x);
}

/// The parts of ` or (z)`.
pub proof fn lemma_between_last(z: Seq<char>)
    ensures
        ({
            let last = " or ("@ + z + ")"@;
            &&& last.len() >= 6
            &&& has_prefix(last, " or ("@)
            &&& has_suffix(last, ")"@)
            &&& last.subrange(5, last.len() - 1) == z
            &&& last.last() == ')'
        }),
{
    reveal_strlit(" or (");
    reveal_strlit(")");
    let last = " or ("@ + z + ")"@;
    assert(last.subrange(0, 5) =~= " or ("@);
    assert(last.subrange(last.len() - 1, last.len() as int) =~= ")"@);
    assert(last.subrange(5, last.len() - 1) =~= z);
}

/// The parts of ` and (y)` with more behind it.
pub proof fn lemma_between_rest(y: Seq<char>, last: Seq<char>)
    requires
        balanced(y),
    ensures
        ({
            let rest = " and ("@ + y + ")"@ + last;
            &&& has_prefix(rest, " and ("@)
            &&& rest.len() == 7 + y.len() + last.len()
            &&& closing_from(rest, 6, 1) == Some(6 + y.len() as int)
            &&& rest.subrange(6, 6 + y.len() as int) == y
            &&& rest.subrange(7 + y.len() as int, rest.len() as int) == last
        }),
{
    reveal_strlit(" and (");
    reveal_strlit(")");
    let rest = " and ("@ + y + ")"@ + last;
    assert(rest.subrange(0, 6) =~= " and ("@);
    assert forall|k: int| 0 <= k < y.len() implies rest[6 + k] == y[k] by {}
    assert(rest[6 + y.len() as int] == ')');
    lemma_closing_found(rest, 6, y);
    assert(rest.subrange(6, 6 + y.len() as int) =~= y);
    assert(rest.subrange(7 + y.len() as int, rest.len() as int) =~= last);
}

/// The parts of `Sunday Between (x)` with more behind it.
pub proof fn lemma_between_head(x: Seq<char>, rest: Seq<char>)
    requires
        balanced(x),
    ensures
        ({
            let t = "Sunday Between ("@ + x + ")"@ + rest;
            &&& has_prefix(t, "Sunday Between ("@)
            &&& t.len() == 17 + x.len() + rest.len()
            &&& t[0] == 'S'
            &&& closing_from(t, 16, 1) == Some(16 + x.len() as int)
            &&& t.subrange(16, 16 + x.len() as int) == x
            &&& t.subrange(17 + x.len() as int, t.len() as int) == rest
        }),
{
    reveal_strlit("Sunday Between (");
    reveal_strlit(")");
    let t = "Sunday Between ("@ + x + ")"@ + rest;
    assert(t.subrange(0, 16) =~= "Sunday Between ("@);
    assert forall|k: int| 0 <= k < x.len() implies t[16 + k] == x[k] by {}
    assert(t[16 + x.len() as int] == ')');
    lemma_closing_found(t, 16, x);
    assert(t.subrange(16, 16 + x.len() as int) =~= x);
    assert(t.subrange(17 + x.len() as int, t.len() as int) =~= rest);
}

/// `Sunday Between (x) and (y) or (z)` is read as the rule of the three texts.
pub proof fn lemma_reads_between(x: Seq<char>, y: Seq<char>, z: Seq<char>)
    requires
        balanced(x),
        balanced(y),
    ensures
        parse("Sunday Between ("@ + x + ")"@ + (" and ("@ + y + ")"@ + (" or ("@ + z + ")"@))) == with_three(
            parse(x),
            parse(y),
            parse(z),
        ),
{
    let last = " or ("@ + z + ")"@;
    let rest = " and ("@ + y + ")"@ + last;
    let t = "Sunday Between ("@ + x + ")"@ + rest;
    lemma_between_last(z);
    lemma_between_rest(y, last);
    lemma_between_head(x, rest);
    assert(t.last() == last.last());
    lemma_no_trim(t);
    lemma_words_first(t);
    assert(parse_form(t) == between_form(t));
    let j = 16 + x.len() as int;
    assert(closing_from(t, 16, 1) == Some(j));
    assert(t.subrange(j + 1, t.len() as int) == rest);
    let k = 6 + y.len() as int;
    assert(closing_from(rest, 6, 1) == Some(k));
    assert(rest.subrange(k + 1, rest.len() as int) == last);
    assert(between_form(t) == with_three(parse(x), parse(y), parse(z)));
}

/// `Sunday Between (rule) and (rule) or (rule)` is read as the Sunday between the first
/// two rules, or the third.
pub proof fn lemma_read_between(x: Seq<char>, s: DateRule, y: Seq<char>, e: DateRule, z: Seq<char>, f: DateRule)
    requires
        balanced(x),
        balanced(y),
        parse(x) == Ok::<DateRule, Seq<char>>(s),
        parse(y) == Ok::<DateRule, Seq<char>>(e),
        parse(z) == Ok::<DateRule, Seq<char>>(f),
    ensures
        parse("Sunday Between ("@ + x + ")"@ + " and ("@ + y + ")"@ + " or ("@ + z + ")"@) == Ok::<
            DateRule,
            Seq<char>,
        >(
            DateRule::SundayBetweenOrFallback {
                start: Box::new(s),
                end: Box::new(e),
                fallback: Box::new(f),
            },
        ),
{
    lemma_reads_between(x, y, z);
    assert("Sunday Between ("@ + x + ")"@ + " and ("@ + y + ")"@ + " or ("@ + z + ")"@
        =~= "Sunday Between ("@ + x + ")"@ + (" and ("@ + y + ")"@ + (" or ("@ + z + ")"@)));
}

/// Every rule is read back from its canonical text.
pub proof fn lemma_round_trip(rule: DateRule)
    ensures
        parse(display(rule)) == Ok::<DateRule, Seq<char>>(rule),
    decreases rule,
{
    match rule {
        DateRule::Easter => {
            lemma_read_easter();
        },
        DateRule::Fixed { month, day } => {
            lemma_read_fixed(month, day);
        },
        DateRule::OffsetDays { rule: inner, offset } => {
            lemma_round_trip(*inner);
            lemma_display_nesting(*inner, 0);
            lemma_read_offset(display(*inner), *inner, offset, true);
        },
        DateRule::OffsetSundays { rule: inner, offset } => {
            lemma_round_trip(*inner);
            lemma_display_nesting(*inner, 0);
            lemma_read_offset(display(*inner), *inner, offset, false);
        },
        DateRule::PreviousYear(inner) => {
            lemma_round_trip(*inner);
            lemma_read_year(display(*inner), *inner, true);
        },
        DateRule::NextYear(inner) => {
            lemma_round_trip(*inner);
            lemma_read_year(display(*inner), *inner, false);
        },
        DateRule::SundayBetweenOrFallback { start, end, fallback } => {
            lemma_round_trip(*start);
            lemma_round_trip(*end);
            lemma_round_trip(*fallback);
            lemma_display_nesting(*start, 0);
            lemma_display_nesting(*end, 0);
            lemma_read_between(display(*start), *start, display(*end), *end, display(*fallback), *fallback);
        },
        DateRule::LeapYearConditional { leap_year_rule, non_leap_year_rule } => {
            lemma_round_trip(*leap_year_rule);
            lemma_round_trip(*non_leap_year_rule);
            lemma_display_nesting(*leap_year_rule, 0);
            lemma_read_leap(
                display(*leap_year_rule),
                *leap_year_rule,
                display(*non_leap_year_rule),
                *non_leap_year_rule,
            );
        },
        DateRule::AvoidSunday { rule: inner } => {
            lemma_round_trip(*inner);
            lemma_display_nesting(*inner, 0);
            lemma_read_avoid(display(*inner), *inner);
        },
        DateRule::DivinoAfflatuAnticipation => {
            lemma_read_anticipation();
        },
    }
}

} // verus!
