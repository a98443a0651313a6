//! The reckoning of Sundays and weeks between two days, Roman numerals, and the names of the
//! months.

use vstd::prelude::*;
use crate::date::{day_in_range, day_of, sunday_on_or_after, sunday_on_or_before, weekday_of, Date};

verus! {

/// How many Sundays lie between the Sunday on or before day `from` and the Sunday `to`,
/// both counted; none where `to` lies before the first of them.
pub open spec fn sundays_counted(from: int, to: int) -> int {
    let diff = to - sunday_on_or_before(from);
    if diff < 0 {
        0
    } else {
        diff / 7 + 1
    }
}

/// The number of the week in which day `to` falls, the week of day `from` being the
/// first, and a week running from a Sunday to a Saturday; 0 where `to` lies before `from`.
pub open spec fn weeks_counted(from: int, to: int) -> int {
    if to < from {
        0
    } else {
        (to - sunday_on_or_before(from)) / 7 + 1
    }
}

/// A number in Roman numerals; the empty text for a number that is not positive.
pub open spec fn roman(n: int) -> Seq<char>
    decreases n,
{
    if n <= 0 {
        Seq::empty()
    } else if n >= 1000 {
        "M"@ + roman(n - 1000)
    } else if n >= 900 {
        "CM"@ + roman(n - 900)
    } else if n >= 500 {
        "D"@ + roman(n - 500)
    } else if n >= 400 {
        "CD"@ + roman(n - 400)
    } else if n >= 100 {
        "C"@ + roman(n - 100)
    } else if n >= 90 {
        "XC"@ + roman(n - 90)
    } else if n >= 50 {
        "L"@ + roman(n - 50)
    } else if n >= 40 {
        "XL"@ + roman(n - 40)
    } else if n >= 10 {
        "X"@ + roman(n - 10)
    } else if n >= 9 {
        "IX"@ + roman(n - 9)
    } else if n >= 5 {
        "V"@ + roman(n - 5)
    } else if n >= 4 {
        "IV"@ + roman(n - 4)
    } else {
        "I"@ + roman(n - 1)
    }
}

/// The English name of a month.
pub open spec fn month_name(month: int) -> Seq<char> {
    if month == 1 {
        "January"@
    } else if month == 2 {
        "February"@
    } else if month == 3 {
        "March"@
    } else if month == 4 {
        "April"@
    } else if month == 5 {
        "May"@
    } else if month == 6 {
        "June"@
    } else if month == 7 {
        "July"@
    } else if month == 8 {
        "August"@
    } else if month == 9 {
        "September"@
    } else if month == 10 {
        "October"@
    } else if month == 11 {
        "November"@
    } else {
        "December"@
    }
}

/// The number of the last Sunday that is not after day `n`.
pub fn preceding_sunday_number(n: i64) -> (out: i64)
    requires
        -1_000_000_000 <= n <= 1_000_000_000,
    ensures
        out == sunday_on_or_before(n as int),
        n - 6 <= out <= n,
{
    let m = n % 7;
    if m < 0 {
        n - (m + 7)
    } else {
        n - m
    }
}

/// The number of the first Sunday that is not before day `n`.
pub fn following_sunday_number(n: i64) -> (out: i64)
    requires
        -1_000_000_000 <= n <= 1_000_000_000,
    ensures
        out == sunday_on_or_after(n as int),
        n <= out <= n + 6,
{
    let before = preceding_sunday_number(n);
    if before == n {
        n
    } else {
        before + 7
    }
}

/// How many Sundays lie between the Sunday on or before day `from` and the Sunday `to`,
/// both counted.
pub fn count_sundays_between(from: i64, to: i64) -> (out: i64)
    requires
        -1_000_000_000 <= from <= 1_000_000_000,
        -1_000_000_000 <= to <= 1_000_000_000,
    ensures
        out == sundays_counted(from as int, to as int),
        0 <= out <= 300_000_000,
{
    let days_diff = to - preceding_sunday_number(from);
    if days_diff < 0 {
        0
    } else {
        days_diff / 7 + 1
    }
}

/// The number of the week in which day `to` falls, the week of day `from` being the first.
pub fn count_weeks_between(from: i64, to: i64) -> (out: i64)
    requires
        -1_000_000_000 <= from <= 1_000_000_000,
        -1_000_000_000 <= to <= 1_000_000_000,
    ensures
        out == weeks_counted(from as int, to as int),
        0 <= out <= 300_000_000,
{
    if to < from {
        0
    } else {
        (to - preceding_sunday_number(from)) / 7 + 1
    }
}

/// The last Sunday that is not after `date`, if a `Date` can hold it.
pub fn get_preceding_sunday(date: Date) -> (out: Option<Date>)
    ensures
        day_of(out) == day_in_range(sunday_on_or_before(date@)),
{
    let weekday = date.weekday_from_sunday();
    date.add_days(-(weekday as i64))
}

/// The first Sunday that is not before `date`, if a `Date` can hold it.
pub fn get_following_sunday(date: Date) -> (out: Option<Date>)
    ensures
        day_of(out) == day_in_range(sunday_on_or_after(date@)),
{
    let weekday = date.weekday_from_sunday();
    date.add_days(((7 - weekday) % 7) as i64)
}

/// How many Sundays lie between the Sunday on or before `my_date` and the Sunday `other`,
/// both counted.
pub fn num_sundays_after_date_inclusive(my_date: Date, other: Date) -> (out: i32)
    requires
        weekday_of(other@) == 0,
    ensures
        out == sundays_counted(my_date@, other@),
{
    let preceding_sunday: i64 = my_date.days() as i64 - my_date.weekday_from_sunday() as i64;
    let days_diff: i64 = other.days() as i64 - preceding_sunday;
    if days_diff < 0 {
        return 0i32;
    }
    ((days_diff / 7) + 1) as i32
}

/// The number of the week in which `other` falls, the week of `my_date` being the first.
pub fn num_weeks_after_date(my_date: Date, other: Date) -> (out: i32)
    ensures
        out == weeks_counted(my_date@, other@),
{
    let weekday = my_date.weekday_from_sunday() as i64;
    let first_sunday_after: i64 = my_date.days() as i64 + (7 - weekday);
    let first_sunday_before: i64 = my_date.days() as i64 - weekday;
    if other.days() < my_date.days() {
        return 0;
    }
    if (other.days() as i64) < first_sunday_after {
        return 1;
    }
    let days_diff: i64 = other.days() as i64 - first_sunday_before;
    (days_diff / 7 + 1) as i32
}

/// A number in Roman numerals; the empty text for a number that is not positive.
pub fn to_roman_numeral(n: i32) -> (out: String)
    ensures
        out@ == roman(n as int),
{
    let mut n = n;
    let ghost start = n;
    let mut result = String::new();
    assert(result@ + roman(n as int) =~= roman(start as int));
    while n > 0
        invariant
            result@ + roman(n as int) == roman(start as int),
        decreases n,
    {
        let ghost before = result@;
        let ghost rest: int;
        let ghost symbol: Seq<char>;
        if n >= 1000 {
            result.append("M");
            n -= 1000;
            proof { symbol = "M"@; }
        } else if n >= 900 {
            result.append("CM");
            n -= 900;
            proof { symbol = "CM"@; }
        } else if n >= 500 {
            result.append("D");
            n -= 500;
            proof { symbol = "D"@; }
        } else if n >= 400 {
            result.append("CD");
            n -= 400;
            proof { symbol = "CD"@; }
        } else if n >= 100 {
            result.append("C");
            n -= 100;
            proof { symbol = "C"@; }
        } else if n >= 90 {
            result.append("XC");
            n -= 90;
            proof { symbol = "XC"@; }
        } else if n >= 50 {
            result.append("L");
            n -= 50;
            proof { symbol = "L"@; }
        } else if n >= 40 {
            result.append("XL");
            n -= 40;
            proof { symbol = "XL"@; }
        } else if n >= 10 {
            result.append("X");
            n -= 10;
            proof { symbol = "X"@; }
        } else if n >= 9 {
            result.append("IX");
            n -= 9;
            proof { symbol = "IX"@; }
        } else if n >= 5 {
            result.append("V");
            n -= 5;
            proof { symbol = "V"@; }
        } else if n >= 4 {
            result.append("IV");
            n -= 4;
            proof { symbol = "IV"@; }
        } else {
            result.append("I");
            n -= 1;
            proof { symbol = "I"@; }
        }
        assert((before + symbol) + roman(n as int) =~= before + (symbol + roman(n as int)));
    }
    assert(result@ + Seq::<char>::empty() =~= result@);
    result
}

/// The English name of a month.
pub fn to_month_string(month: u32) -> (out: String)
    requires
        1 <= month <= 12,
    ensures
        out@ == month_name(month as int),
{
    if month == 1 {
        String::from_str("January")
    } else if month == 2 {
        String::from_str("February")
    } else if month == 3 {
        String::from_str("March")
    } else if month == 4 {
        String::from_str("April")
    } else if month == 5 {
        String::from_str("May")
    } else if month == 6 {
        String::from_str("June")
    } else if month == 7 {
        String::from_str("July")
    } else if month == 8 {
        String::from_str("August")
    } else if month == 9 {
        String::from_str("September")
    } else if month == 10 {
        String::from_str("October")
    } else if month == 11 {
        String::from_str("November")
    } else {
        String::from_str("December")
    }
}

} // verus!
