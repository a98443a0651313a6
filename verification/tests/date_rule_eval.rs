use chrono::{Datelike, NaiveDate};
use liturgy::date::Date;
use liturgy::date_calc::{
    get_following_sunday, get_preceding_sunday, num_sundays_after_date_inclusive,
    num_weeks_after_date, to_month_string, to_roman_numeral,
};
use liturgy::date_rule::DateRule;

fn date(year: i32, month: u32, day: u32) -> Date {
    Date::from_ymd(year, month, day).unwrap()
}

fn fixed(month: u8, day: u8) -> DateRule {
    DateRule::Fixed { month, day }
}

fn boxed(rule: DateRule) -> Box<DateRule> {
    Box::new(rule)
}

#[test]
fn test_easter_date() {
    assert_eq!(DateRule::easter_date(2023), Some(date(2023, 4, 9)));
    assert_eq!(DateRule::easter_date(2024), Some(date(2024, 3, 31)));
    assert_eq!(DateRule::easter_date(2025), Some(date(2025, 4, 20)));
    assert_eq!(DateRule::Easter.to_day(2025), Some(date(2025, 4, 20)));
    // the earliest and the latest Easter
    assert_eq!(DateRule::easter_date(1818), Some(date(1818, 3, 22)));
    assert_eq!(DateRule::easter_date(2038), Some(date(2038, 4, 25)));
    assert_eq!(DateRule::easter_date(1961), Some(date(1961, 4, 2)));
    assert_eq!(DateRule::easter_date(0), Some(date(0, 4, 9)));
    // no Easter before the year 0 nor beyond the range of dates
    assert_eq!(DateRule::easter_date(-1), None);
    assert_eq!(DateRule::easter_date(262_143), None);
    assert!(DateRule::easter_date(262_142).is_some());
}

#[test]
fn test_easter_is_always_a_sunday() {
    for year in 1583..2600 {
        let easter = DateRule::easter_date(year).unwrap();
        assert!(easter.is_sunday());
        let (y, m, d) = easter.ymd();
        assert_eq!(y, year);
        assert!((m == 3 && d >= 22) || (m == 4 && d <= 25));
    }
}

#[test]
fn test_to_day() {
    assert_eq!(fixed(1, 1).to_day(2023), Some(date(2023, 1, 1)));
    assert_eq!(fixed(12, 25).to_day(2023), Some(date(2023, 12, 25)));
    let offset_days = |offset: i32| DateRule::OffsetDays { rule: boxed(fixed(1, 1)), offset };
    assert_eq!(offset_days(1).to_day(2023), Some(date(2023, 1, 2)));
    assert_eq!(offset_days(-1).to_day(2023), Some(date(2022, 12, 31)));
    assert_eq!(offset_days(0).to_day(2023), Some(date(2023, 1, 1)));
    let offset_sundays = |offset: i32| DateRule::OffsetSundays { rule: boxed(fixed(1, 1)), offset };
    assert_eq!(offset_sundays(1).to_day(2023), Some(date(2023, 1, 8)));
    assert_eq!(offset_sundays(-1).to_day(2023), Some(date(2022, 12, 25)));
}

#[test]
fn test_fixed_feast_scenario() {
    let christmas = fixed(12, 25);
    let day = christmas.to_day(2025).unwrap();
    assert_eq!(day, date(2025, 12, 25));
    assert_eq!(day.ymd(), (2025, 12, 25));
    assert_eq!((day.year(), day.month(), day.day()), (2025, 12, 25));
    assert_eq!(day.to_string(), "2025-12-25");
    assert_eq!(christmas.to_string(), "12/25");
}

#[test]
fn test_fixed_day_that_does_not_exist() {
    assert_eq!(fixed(2, 29).to_day(2024), Some(date(2024, 2, 29)));
    assert_eq!(fixed(2, 29).to_day(2025), None);
    assert_eq!(fixed(2, 30).to_day(2024), None);
    assert_eq!(fixed(4, 31).to_day(2024), None);
    assert_eq!(fixed(0, 1).to_day(2024), None);
    assert_eq!(fixed(13, 1).to_day(2024), None);
    assert_eq!(fixed(1, 0).to_day(2024), None);
    assert_eq!(fixed(1, 1).to_day(262_143), None);
    assert_eq!(fixed(1, 1).to_day(-262_144), None);
    assert!(fixed(1, 1).to_day(-262_143).is_some());
    // the failure goes up through every rule around it
    let inner = fixed(2, 29);
    assert_eq!(DateRule::OffsetDays { rule: boxed(inner.clone()), offset: 1 }.to_day(2025), None);
    assert_eq!(DateRule::OffsetSundays { rule: boxed(inner.clone()), offset: 1 }.to_day(2025), None);
    assert_eq!(DateRule::AvoidSunday { rule: boxed(inner.clone()) }.to_day(2025), None);
    assert_eq!(DateRule::PreviousYear(boxed(inner.clone())).to_day(2025), None);
    assert_eq!(DateRule::NextYear(boxed(inner.clone())).to_day(2025), None);
    assert_eq!(
        DateRule::SundayBetweenOrFallback {
            start: boxed(inner.clone()),
            end: boxed(fixed(3, 10)),
            fallback: boxed(fixed(3, 1)),
        }
        .to_day(2025),
        None
    );
    assert_eq!(
        DateRule::SundayBetweenOrFallback {
            start: boxed(fixed(2, 1)),
            end: boxed(inner),
            fallback: boxed(fixed(3, 1)),
        }
        .to_day(2025),
        None
    );
}

#[test]
fn test_offset_beyond_the_range() {
    let far = DateRule::OffsetDays { rule: boxed(fixed(1, 1)), offset: i32::MAX };
    assert_eq!(far.to_day(2025), None);
    let far = DateRule::OffsetSundays { rule: boxed(fixed(1, 1)), offset: i32::MIN };
    assert_eq!(far.to_day(2025), None);
    let last = DateRule::OffsetDays { rule: boxed(fixed(12, 31)), offset: 1 };
    assert_eq!(last.to_day(262_142), None);
    // 30 December of the last year is a Sunday, and the Monday after it is the last day
    assert_eq!(
        DateRule::AvoidSunday { rule: boxed(fixed(12, 30)) }.to_day(262_142).map(|d| d.ymd()),
        Some((262_142, 12, 31))
    );
}

#[test]
fn test_offset_sundays_direction() {
    // for every base day of two years and offsets on both sides
    for days in 0..731i64 {
        let base = date(2024, 1, 1).add_days(days).unwrap();
        let (year, month, day) = base.ymd();
        for offset in [-5, -2, -1, 0, 1, 2, 7] {
            let rule = DateRule::OffsetSundays { rule: boxed(fixed(month as u8, day as u8)), offset };
            let result = rule.to_day(year).unwrap();
            assert!(result.is_sunday());
            let anchor = result.add_days(-7 * offset as i64).unwrap();
            assert!(anchor.is_sunday());
            if offset >= 0 {
                assert_eq!(Some(anchor), get_preceding_sunday(base));
                assert!(anchor <= base && base.days_since(&anchor) <= 6);
            } else {
                assert_eq!(Some(anchor), get_following_sunday(base));
                assert!(anchor >= base && anchor.days_since(&base) <= 6);
            }
        }
    }
}

#[test]
fn test_previous_and_next_year() {
    assert_eq!(DateRule::PreviousYear(boxed(fixed(12, 25))).to_day(2025), Some(date(2024, 12, 25)));
    assert_eq!(DateRule::NextYear(boxed(fixed(12, 25))).to_day(2025), Some(date(2026, 12, 25)));
    // month and day of Easter 2025, in the year before and after
    assert_eq!(DateRule::PreviousYear(boxed(DateRule::Easter)).to_day(2025), Some(date(2024, 4, 20)));
    assert_eq!(DateRule::NextYear(boxed(DateRule::Easter)).to_day(2025), Some(date(2026, 4, 20)));
    // 29 February is no day of the years around a leap year
    assert_eq!(DateRule::PreviousYear(boxed(fixed(2, 29))).to_day(2024), None);
    assert_eq!(DateRule::NextYear(boxed(fixed(2, 29))).to_day(2024), None);
    assert_eq!(DateRule::NextYear(boxed(fixed(2, 29))).to_day(2020).map(|d| d.ymd()), None);
    assert_eq!(DateRule::NextYear(boxed(fixed(1, 1))).to_day(262_142), None);
    assert_eq!(DateRule::PreviousYear(boxed(fixed(1, 1))).to_day(-262_143), None);
}

#[test]
fn test_sunday_between_or_fallback_with_no_sunday() {
    // Create a date range with no Sunday in between
    let start = DateRule::Fixed { month: 6, day: 15 };
    let end = DateRule::Fixed { month: 6, day: 17 };
    let fallback = DateRule::Fixed { month: 6, day: 20 };

    let rule = DateRule::SundayBetweenOrFallback {
        start: Box::new(start),
        end: Box::new(end),
        fallback: Box::new(fallback),
    };

    let result = rule.to_day(2025);
    assert_eq!(result, Date::from_ymd(2025, 6, 20));
}

#[test]
fn test_sunday_between_or_fallback_with_sunday() {
    // Create a date range with a Sunday in between
    let start = DateRule::Fixed { month: 6, day: 14 }; // Saturday in 2025
    let end = DateRule::Fixed { month: 6, day: 16 }; // Monday in 2025
    let fallback = DateRule::Fixed { month: 6, day: 20 };

    let rule = DateRule::SundayBetweenOrFallback {
        start: Box::new(start),
        end: Box::new(end),
        fallback: Box::new(fallback),
    };

    let result = rule.to_day(2025);
    assert_eq!(result, Date::from_ymd(2025, 6, 15)); // Sunday
}

#[test]
fn test_sunday_between_is_strictly_after_the_start() {
    let rule = |start: u8, end: u8| DateRule::SundayBetweenOrFallback {
        start: boxed(fixed(6, start)),
        end: boxed(fixed(6, end)),
        fallback: boxed(fixed(1, 1)),
    };
    // 15 June 2025 is a Sunday: the Sunday after it is the 22nd
    assert_eq!(rule(15, 21).to_day(2025), Some(date(2025, 1, 1)));
    assert_eq!(rule(15, 22).to_day(2025), Some(date(2025, 6, 22)));
    assert_eq!(rule(16, 22).to_day(2025), Some(date(2025, 6, 22)));
    assert_eq!(rule(14, 15).to_day(2025), Some(date(2025, 6, 15)));
    // the fallback may fail in its turn
    let rule = DateRule::SundayBetweenOrFallback {
        start: boxed(fixed(6, 15)),
        end: boxed(fixed(6, 17)),
        fallback: boxed(fixed(2, 29)),
    };
    assert_eq!(rule.to_day(2025), None);
}

#[test]
fn test_leap_year_conditional_leap_year() {
    let leap_rule = DateRule::Fixed { month: 2, day: 29 };
    let non_leap_rule = DateRule::Fixed { month: 3, day: 1 };

    let rule = DateRule::LeapYearConditional {
        leap_year_rule: Box::new(leap_rule),
        non_leap_year_rule: Box::new(non_leap_rule),
    };

    // 2024 is a leap year
    let result = rule.to_day(2024);
    assert_eq!(result, Date::from_ymd(2024, 2, 29));

    // 2025 is not a leap year
    let result = rule.to_day(2025);
    assert_eq!(result, Date::from_ymd(2025, 3, 1));
}

#[test]
fn test_leap_year_conditional_century_years() {
    let leap_rule = DateRule::Fixed { month: 2, day: 29 };
    let non_leap_rule = DateRule::Fixed { month: 3, day: 1 };

    let rule = DateRule::LeapYearConditional {
        leap_year_rule: Box::new(leap_rule),
        non_leap_year_rule: Box::new(non_leap_rule),
    };

    // 1900 is not a leap year (divisible by 100 but not 400)
    let result = rule.to_day(1900);
    assert_eq!(result, Date::from_ymd(1900, 3, 1));

    // 2000 is a leap year (divisible by 400)
    let result = rule.to_day(2000);
    assert_eq!(result, Date::from_ymd(2000, 2, 29));
}

#[test]
fn test_leap_years() {
    for (year, leap) in [(2024, true), (2025, false), (1900, false), (2000, true), (0, true), (-4, true), (-100, false), (-400, true), (-1, false)] {
        assert_eq!(DateRule::leap_year(year), leap);
        assert_eq!(Date::from_ymd(year, 2, 29).is_some(), leap);
    }
}

#[test]
fn test_avoid_sunday() {
    let base_rule = DateRule::Fixed { month: 1, day: 22 };
    let avoid_sunday_rule = DateRule::AvoidSunday { rule: Box::new(base_rule) };

    // 2025-01-22 is a Wednesday, so it should stay as-is
    let result = avoid_sunday_rule.to_day(2025);
    assert_eq!(result, Date::from_ymd(2025, 1, 22));

    // 2023-01-22 was a Sunday, so it should move to Monday (2023-01-23)
    let result = avoid_sunday_rule.to_day(2023);
    assert_eq!(result, Date::from_ymd(2023, 1, 23));

    // Test the display/parse round trip
    let display_string = avoid_sunday_rule.to_string();
    assert_eq!(display_string, "(1/22) (transfered on sundays)");
}

#[test]
fn test_divino_afflatu_anticipation_trigger_and_nontrigger() {
    // if a day is returned, it must be the day before Septuagesima
    let rule = DateRule::DivinoAfflatuAnticipation;
    for year in [2025, 2016, 2000, 2030] {
        if let Some(d) = rule.to_day(year) {
            let sept = DateRule::OffsetDays { rule: Box::new(DateRule::Easter), offset: -63 };
            let septd = sept.to_day(year).unwrap();
            assert_eq!(Some(d), septd.add_days(-1));
        }
    }
}

#[test]
fn test_divino_afflatu_anticipation_by_the_count_of_sundays() {
    // the day is the Saturday before Septuagesima exactly where fewer than six Sundays
    // lie between 14 January and that Saturday, which is so in every year of these
    let rule = DateRule::DivinoAfflatuAnticipation;
    let mut some = 0;
    let mut none = 0;
    for year in 1900..2200 {
        let easter = DateRule::easter_date(year).unwrap();
        let saturday = easter.add_days(-64).unwrap();
        let mut sundays = 0;
        let mut day = date(year, 1, 14);
        while day <= saturday {
            if day.is_sunday() {
                sundays += 1;
            }
            day = day.succ().unwrap();
        }
        if sundays < 6 {
            assert_eq!(rule.to_day(year), Some(saturday));
            some += 1;
        } else {
            assert_eq!(rule.to_day(year), None);
            none += 1;
        }
    }
    assert_eq!((some, none), (300, 0));
    assert_eq!(rule.to_day(2025), Some(date(2025, 2, 15)));
    assert_eq!(rule.to_day(2038), Some(date(2038, 2, 20)));
    assert_eq!(rule.to_day(-1), None);
}

#[test]
fn test_dates_agree_with_chrono() {
    // day numbers, weekdays, year, month and day, and the text, over a span of years
    let mut day = NaiveDate::from_ymd_opt(1999, 12, 25).unwrap();
    let end = NaiveDate::from_ymd_opt(2005, 1, 10).unwrap();
    while day <= end {
        let ours = Date::from_ymd(day.year(), day.month(), day.day()).unwrap();
        assert_eq!(ours.days(), day.num_days_from_ce());
        assert_eq!(ours.weekday_from_sunday(), day.weekday().num_days_from_sunday());
        assert_eq!(ours.weekday_from_monday(), day.weekday().number_from_monday());
        assert_eq!(ours.ymd(), (day.year(), day.month(), day.day()));
        assert_eq!(ours.to_string(), day.to_string());
        assert_eq!(Date::from_days(day.num_days_from_ce() as i64), Some(ours));
        day = day.succ_opt().unwrap();
    }
    for (year, month, dom) in [(1, 1, 1), (0, 12, 31), (-1, 3, 4), (-262_143, 1, 1), (262_142, 12, 31)] {
        let theirs = NaiveDate::from_ymd_opt(year, month, dom).unwrap();
        let ours = date(year, month, dom);
        assert_eq!(ours.days(), theirs.num_days_from_ce());
        assert_eq!(ours.weekday_from_sunday(), theirs.weekday().num_days_from_sunday());
        assert_eq!(ours.to_string(), theirs.to_string());
    }
}

#[test]
fn test_range_of_dates() {
    assert_eq!(date(-262_143, 1, 1).days(), liturgy::date::DAYS_MIN);
    assert_eq!(date(262_142, 12, 31).days(), liturgy::date::DAYS_MAX);
    assert_eq!(NaiveDate::MIN.num_days_from_ce(), liturgy::date::DAYS_MIN);
    assert_eq!(NaiveDate::MAX.num_days_from_ce(), liturgy::date::DAYS_MAX);
    assert_eq!(NaiveDate::MIN.year(), liturgy::date::YEAR_MIN);
    assert_eq!(NaiveDate::MAX.year(), liturgy::date::YEAR_MAX);
    assert_eq!(Date::from_days(liturgy::date::DAYS_MAX as i64 + 1), None);
    assert_eq!(Date::from_days(liturgy::date::DAYS_MIN as i64 - 1), None);
    assert_eq!(Date::from_days(i64::MAX), None);
    assert_eq!(date(262_142, 12, 31).succ(), None);
    assert_eq!(date(-262_143, 1, 1).pred(), None);
    assert_eq!(date(262_142, 12, 31).add_days(i64::MIN), None);
    assert_eq!(date(2025, 1, 1).pred(), Some(date(2024, 12, 31)));
    assert_eq!(date(2024, 2, 28).succ(), Some(date(2024, 2, 29)));
    assert_eq!(date(2025, 3, 1).days_since(&date(2024, 3, 1)), 365);
    assert!(date(2025, 3, 1).is_after(&date(2024, 3, 1)));
    assert!(date(2024, 3, 1).is_before(&date(2025, 3, 1)));
    assert!(date(2024, 3, 1).same_day(&date(2024, 3, 1)));
    assert!(!date(2024, 3, 1).same_day(&date(2024, 3, 2)));
    assert_eq!(get_preceding_sunday(date(-262_143, 1, 1)), None);
}

#[test]
fn test_edge_cases_with_year_boundary() {
    // Test get_preceding_sunday across year boundary
    let new_years_day = date(2025, 1, 1); // Wednesday
    let expected_preceding = date(2024, 12, 29); // Sunday
    assert_eq!(get_preceding_sunday(new_years_day), Some(expected_preceding));

    // Test get_following_sunday across year boundary
    let new_years_eve = date(2024, 12, 31); // Tuesday
    let expected_following = date(2025, 1, 5); // Sunday
    assert_eq!(get_following_sunday(new_years_eve), Some(expected_following));
}

#[test]
fn test_get_preceding_sunday() {
    for (input, expected) in [
        (date(2025, 8, 24), date(2025, 8, 24)),
        (date(2025, 8, 25), date(2025, 8, 24)),
        (date(2025, 8, 30), date(2025, 8, 24)),
        (date(2025, 8, 27), date(2025, 8, 24)),
        (date(2025, 1, 1), date(2024, 12, 29)),
    ] {
        assert_eq!(get_preceding_sunday(input), Some(expected));
    }
}

#[test]
fn test_get_following_sunday() {
    for (input, expected) in [
        (date(2025, 8, 24), date(2025, 8, 24)),
        (date(2025, 8, 25), date(2025, 8, 31)),
        (date(2025, 8, 30), date(2025, 8, 31)),
        (date(2025, 8, 27), date(2025, 8, 31)),
        (date(2024, 12, 31), date(2025, 1, 5)),
    ] {
        assert_eq!(get_following_sunday(input), Some(expected));
    }
}

#[test]
fn test_num_sundays_after_date_inclusive() {
    for (base, sunday, expected) in [
        (date(2025, 8, 25), date(2025, 8, 24), 1),
        (date(2025, 8, 25), date(2025, 8, 31), 2),
        (date(2025, 8, 25), date(2025, 9, 14), 4),
        (date(2025, 8, 25), date(2025, 9, 7), 3),
        (date(2025, 8, 25), date(2025, 8, 17), 0),
        (date(2025, 8, 24), date(2025, 8, 24), 1),
    ] {
        assert_eq!(num_sundays_after_date_inclusive(base, sunday), expected);
    }
}

#[test]
fn test_num_weeks_after_date() {
    for (base, other, expected) in [
        (date(2025, 8, 25), date(2025, 8, 20), 0),
        (date(2025, 8, 25), date(2025, 8, 25), 1),
        (date(2025, 8, 25), date(2025, 8, 27), 1),
        (date(2025, 8, 25), date(2025, 9, 1), 2),
        (date(2025, 8, 25), date(2025, 9, 15), 4),
        (date(2025, 8, 25), date(2025, 8, 31), 2),
    ] {
        assert_eq!(num_weeks_after_date(base, other), expected);
    }
}

#[test]
fn test_roman_numerals_and_months() {
    for (n, text) in [
        (0, ""),
        (-3, ""),
        (1, "I"),
        (2, "II"),
        (4, "IV"),
        (5, "V"),
        (9, "IX"),
        (14, "XIV"),
        (34, "XXXIV"),
        (40, "XL"),
        (49, "XLIX"),
        (90, "XC"),
        (400, "CD"),
        (944, "CMXLIV"),
        (1994, "MCMXCIV"),
        (3888, "MMMDCCCLXXXVIII"),
    ] {
        assert_eq!(to_roman_numeral(n), text);
    }
    let months: Vec<String> = (1..=12).map(to_month_string).collect();
    assert_eq!(
        months,
        vec![
            "January", "February", "March", "April", "May", "June", "July", "August", "September",
            "October", "November", "December"
        ]
    );
}
