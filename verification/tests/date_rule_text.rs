use liturgy::date_rule::DateRule;
use liturgy::date_rule_text::ParseError;

fn fixed(month: u8, day: u8) -> DateRule {
    DateRule::Fixed { month, day }
}

fn boxed(rule: DateRule) -> Box<DateRule> {
    Box::new(rule)
}

fn fragment(input: &str) -> String {
    DateRule::parse(input).unwrap_err().fragment
}

fn base_rules() -> Vec<DateRule> {
    vec![DateRule::Easter, fixed(1, 1), fixed(12, 31)]
}

fn depth1_rules() -> Vec<DateRule> {
    let mut rules = vec![];
    for base in base_rules() {
        rules.push(DateRule::OffsetDays { rule: boxed(base.clone()), offset: 3 });
        rules.push(DateRule::OffsetSundays { rule: boxed(base.clone()), offset: -2 });
    }
    rules
}

fn depth2_rules() -> Vec<DateRule> {
    let mut rules = vec![];
    for r1 in depth1_rules() {
        rules.push(DateRule::OffsetDays { rule: boxed(r1.clone()), offset: 1 });
        rules.push(DateRule::OffsetSundays { rule: boxed(r1.clone()), offset: -1 });
        rules.push(DateRule::PreviousYear(boxed(r1.clone())));
        rules.push(DateRule::NextYear(boxed(r1.clone())));
        rules.push(DateRule::AvoidSunday { rule: boxed(r1.clone()) });
        rules.push(DateRule::LeapYearConditional {
            leap_year_rule: boxed(r1.clone()),
            non_leap_year_rule: boxed(DateRule::DivinoAfflatuAnticipation),
        });
        rules.push(DateRule::SundayBetweenOrFallback {
            start: boxed(r1.clone()),
            end: boxed(DateRule::PreviousYear(boxed(r1.clone()))),
            fallback: boxed(DateRule::AvoidSunday { rule: boxed(fixed(2, 29)) }),
        });
    }
    rules
}

fn all_test_rules() -> Vec<DateRule> {
    let mut rules = vec![DateRule::DivinoAfflatuAnticipation];
    rules.extend(base_rules());
    rules.extend(depth1_rules());
    rules.extend(depth2_rules());
    let nested: Vec<DateRule> = depth2_rules()
        .into_iter()
        .map(|r| DateRule::SundayBetweenOrFallback {
            start: boxed(r.clone()),
            end: boxed(DateRule::LeapYearConditional {
                leap_year_rule: boxed(r.clone()),
                non_leap_year_rule: boxed(r.clone()),
            }),
            fallback: boxed(DateRule::OffsetDays { rule: boxed(r), offset: i32::MIN }),
        })
        .collect();
    rules.extend(nested);
    rules
}

#[test]
fn test_display_hardcoded() {
    let cases = [
        (DateRule::Easter, "Easter"),
        (fixed(1, 1), "1/1"),
        (fixed(2, 14), "2/14"),
        (fixed(7, 4), "7/4"),
        (fixed(12, 25), "12/25"),
        (DateRule::OffsetDays { rule: boxed(DateRule::Easter), offset: 0 }, "(Easter) + 0 days"),
        (DateRule::OffsetDays { rule: boxed(fixed(12, 25)), offset: 5 }, "(12/25) + 5 days"),
        (DateRule::OffsetSundays { rule: boxed(DateRule::Easter), offset: -1 }, "(Easter) + -1 Sundays"),
        (DateRule::OffsetSundays { rule: boxed(fixed(7, 4)), offset: 2 }, "(7/4) + 2 Sundays"),
        (
            DateRule::OffsetDays {
                rule: boxed(DateRule::OffsetSundays { rule: boxed(fixed(12, 25)), offset: 2 }),
                offset: -3,
            },
            "((12/25) + 2 Sundays) + -3 days",
        ),
        (
            DateRule::SundayBetweenOrFallback {
                start: boxed(fixed(1, 2)),
                end: boxed(fixed(1, 5)),
                fallback: boxed(fixed(1, 2)),
            },
            "Sunday Between (1/2) and (1/5) or (1/2)",
        ),
        (
            DateRule::LeapYearConditional {
                leap_year_rule: boxed(fixed(2, 25)),
                non_leap_year_rule: boxed(fixed(2, 24)),
            },
            "(2/25) in leap year else (2/24)",
        ),
        (DateRule::AvoidSunday { rule: boxed(fixed(1, 22)) }, "(1/22) (transfered on sundays)"),
        (DateRule::DivinoAfflatuAnticipation, "(DivinoAfflatuAnticipation)"),
        (DateRule::PreviousYear(boxed(fixed(12, 25))), "PreviousYear(12/25)"),
        (DateRule::NextYear(boxed(DateRule::Easter)), "NextYear(Easter)"),
        (fixed(0, 255), "0/255"),
        (
            DateRule::OffsetDays { rule: boxed(DateRule::Easter), offset: i32::MIN },
            "(Easter) + -2147483648 days",
        ),
        (
            DateRule::OffsetSundays { rule: boxed(DateRule::Easter), offset: i32::MAX },
            "(Easter) + 2147483647 Sundays",
        ),
    ];
    for (rule, expected) in cases {
        assert_eq!(rule.to_string(), expected, "Display mismatch for {:?}", rule);
    }
}

#[test]
fn test_parse_invalid() {
    for input in [
        "",
        "Fixed()",
        "Fixed(0,10)",
        "Fixed(13,32)",
        "OffsetDays(Easter)",
        "OffsetSundays(Fixed(12,25))",
        "UnknownRule",
        "OffsetDays(Easter, abc)",
    ] {
        let result: Result<DateRule, _> = input.parse::<DateRule>();
        assert!(result.is_err(), "Expected error parsing '{}'", input);
    }
}

#[test]
fn test_nested_parse_example() {
    let sin = "OffsetDays(OffsetSundays(Fixed(12,25), 2), -3)";
    let sout = "((12/25) + 2 Sundays) + -3 days";
    let rule: DateRule = sin.parse().expect("Failed to parse nested rule");

    let expected = DateRule::OffsetDays {
        rule: Box::new(DateRule::OffsetSundays {
            rule: Box::new(DateRule::Fixed { month: 12, day: 25 }),
            offset: 2,
        }),
        offset: -3,
    };

    assert_eq!(rule, expected);
    assert_eq!(rule.to_string(), sout);
}

#[test]
fn test_round_trip_of_canonical_texts() {
    for rule in all_test_rules() {
        let text = rule.to_string();
        assert_eq!(DateRule::parse(&text), Ok(rule.clone()), "round trip of {}", text);
        let padded = format!("  \t{}\n ", text);
        assert_eq!(DateRule::parse(&padded), Ok(rule));
    }
    // months and days that no calendar has, and an offset of 0, come back as they are
    for rule in [
        fixed(0, 0),
        fixed(255, 255),
        fixed(13, 32),
        DateRule::OffsetDays { rule: boxed(DateRule::Easter), offset: 0 },
        DateRule::OffsetSundays { rule: boxed(DateRule::Easter), offset: 0 },
    ] {
        assert_eq!(DateRule::parse(&rule.to_string()), Ok(rule));
    }
}

#[test]
fn test_function_forms() {
    let cases = [
        ("Easter", DateRule::Easter),
        (" Easter ", DateRule::Easter),
        ("DivinoAfflatuAnticipation", DateRule::DivinoAfflatuAnticipation),
        ("Fixed(3,19)", fixed(3, 19)),
        ("Fixed(+3,+19)", fixed(3, 19)),
        ("Fixed(03,019)", fixed(3, 19)),
        ("Fixed(3,19,77)", fixed(3, 19)),
        ("Fixed(12,31)", fixed(12, 31)),
        ("OffsetDays(Easter, -63)", DateRule::OffsetDays { rule: boxed(DateRule::Easter), offset: -63 }),
        ("OffsetDays( Easter ,+7 )", DateRule::OffsetDays { rule: boxed(DateRule::Easter), offset: 7 }),
        (
            "OffsetSundays(PreviousYear(Fixed(12,25)), -4)",
            DateRule::OffsetSundays { rule: boxed(DateRule::PreviousYear(boxed(fixed(12, 25)))), offset: -4 },
        ),
        ("PreviousYear(Easter)", DateRule::PreviousYear(boxed(DateRule::Easter))),
        ("NextYear( Fixed(1,6) )", DateRule::NextYear(boxed(fixed(1, 6)))),
        ("AvoidSunday(Fixed(1,22))", DateRule::AvoidSunday { rule: boxed(fixed(1, 22)) }),
        (
            "SundayBetweenOrFallback(Fixed(1,2), Fixed(1,5), Fixed(1,2))",
            DateRule::SundayBetweenOrFallback {
                start: boxed(fixed(1, 2)),
                end: boxed(fixed(1, 5)),
                fallback: boxed(fixed(1, 2)),
            },
        ),
        (
            "LeapYearConditional(Fixed(2,25),Fixed(2,24))",
            DateRule::LeapYearConditional {
                leap_year_rule: boxed(fixed(2, 25)),
                non_leap_year_rule: boxed(fixed(2, 24)),
            },
        ),
        (
            "LeapYearConditional(OffsetDays(Fixed(2,25), 1), 2/24)",
            DateRule::LeapYearConditional {
                leap_year_rule: boxed(DateRule::OffsetDays { rule: boxed(fixed(2, 25)), offset: 1 }),
                non_leap_year_rule: boxed(fixed(2, 24)),
            },
        ),
        (
            "OffsetDays((Easter) + 1 Sundays, 2)",
            DateRule::OffsetDays {
                rule: boxed(DateRule::OffsetSundays { rule: boxed(DateRule::Easter), offset: 1 }),
                offset: 2,
            },
        ),
        ("(Easter) + +5 days", DateRule::OffsetDays { rule: boxed(DateRule::Easter), offset: 5 }),
        ("( Easter ) + 007 days", DateRule::OffsetDays { rule: boxed(DateRule::Easter), offset: 7 }),
        ("(DivinoAfflatuAnticipation)", DateRule::DivinoAfflatuAnticipation),
        (
            "(DivinoAfflatuAnticipation) + 1 days",
            DateRule::OffsetDays { rule: boxed(DateRule::DivinoAfflatuAnticipation), offset: 1 },
        ),
    ];
    for (text, expected) in cases {
        assert_eq!(DateRule::parse(text), Ok(expected), "reading {}", text);
    }
}

#[test]
fn test_parse_errors_carry_the_fragment() {
    assert_eq!(DateRule::parse(""), Err(ParseError { fragment: String::new() }));
    assert_eq!(fragment("   "), "");
    assert_eq!(fragment("  UnknownRule "), "UnknownRule");
    assert_eq!(fragment("easter"), "easter");
    // a number that is no number, or out of its bounds: the whole form is the fragment
    assert_eq!(fragment("Fixed()"), "Fixed()");
    assert_eq!(fragment("Fixed(12)"), "Fixed(12)");
    assert_eq!(fragment("Fixed(0,10)"), "Fixed(0,10)");
    assert_eq!(fragment("Fixed(13,32)"), "Fixed(13,32)");
    assert_eq!(fragment("Fixed(12,32)"), "Fixed(12,32)");
    assert_eq!(fragment("Fixed(12, 25)"), "Fixed(12, 25)");
    assert_eq!(fragment("Fixed(-1,25)"), "Fixed(-1,25)");
    assert_eq!(fragment("Fixed(256,1)"), "Fixed(256,1)");
    assert_eq!(fragment("300/1"), "300/1");
    assert_eq!(fragment("1/"), "1/");
    assert_eq!(fragment("/1"), "/1");
    assert_eq!(fragment("1/2/3"), "1/2/3");
    assert_eq!(fragment("+/1"), "+/1");
    assert_eq!(fragment("OffsetDays(Easter)"), "OffsetDays(Easter)");
    assert_eq!(fragment("OffsetDays(Easter, abc)"), "OffsetDays(Easter, abc)");
    assert_eq!(fragment("OffsetDays(Easter, 0)"), "OffsetDays(Easter, 0)");
    assert_eq!(fragment("OffsetSundays(Easter, -0)"), "OffsetSundays(Easter, -0)");
    assert_eq!(fragment("OffsetDays(Easter, 2147483648)"), "OffsetDays(Easter, 2147483648)");
    assert_eq!(
        DateRule::parse("OffsetDays(Easter, -2147483648)"),
        Ok(DateRule::OffsetDays { rule: boxed(DateRule::Easter), offset: i32::MIN })
    );
    assert_eq!(fragment("(Easter) + 1 weeks"), "(Easter) + 1 weeks");
    assert_eq!(fragment("(Easter) +  days"), "(Easter) +  days");
    assert_eq!(fragment("(Easter) + 1  days"), "(Easter) + 1  days");
    assert_eq!(fragment("(Easter"), "(Easter");
    assert_eq!(fragment("(Easter)"), "(Easter)");
    assert_eq!(fragment("Sunday Between (1/2) and (1/5)"), "Sunday Between (1/2) and (1/5)");
    assert_eq!(
        fragment("SundayBetweenOrFallback(Easter, Easter)"),
        "SundayBetweenOrFallback(Easter, Easter)"
    );
    assert_eq!(
        fragment("LeapYearConditional(Easter, Easter, Easter)"),
        "LeapYearConditional(Easter, Easter, Easter)"
    );
    // an argument that is no rule is the fragment, the innermost and the first of them
    assert_eq!(fragment("OffsetDays(Estr, abc)"), "Estr");
    assert_eq!(fragment("PreviousYear( NextYear(xyz) )"), "xyz");
    assert_eq!(fragment("AvoidSunday(Fixed(1,50))"), "Fixed(1,50)");
    assert_eq!(fragment("SundayBetweenOrFallback(Easter, b, c)"), "b");
    assert_eq!(fragment("LeapYearConditional(a, b)"), "a");
    assert_eq!(fragment("(what) + 3 days"), "what");
    assert_eq!(fragment("(1/2) in leap year else (1/x)"), "1/x");
    assert_eq!(fragment("Sunday Between (1/2) and (two) or (three)"), "two");
    assert_eq!(fragment("(nothing) (transfered on sundays)"), "nothing");
}

#[test]
fn test_commas_inside_brackets_are_no_separators() {
    let inner = "SundayBetweenOrFallback(Fixed(1,2), Fixed(1,5), Fixed(1,2))";
    let between = DateRule::SundayBetweenOrFallback {
        start: boxed(fixed(1, 2)),
        end: boxed(fixed(1, 5)),
        fallback: boxed(fixed(1, 2)),
    };
    assert_eq!(DateRule::parse(inner), Ok(between.clone()));
    let text = format!("LeapYearConditional({}, OffsetDays({}, 1))", inner, inner);
    assert_eq!(
        DateRule::parse(&text),
        Ok(DateRule::LeapYearConditional {
            leap_year_rule: boxed(between.clone()),
            non_leap_year_rule: boxed(DateRule::OffsetDays { rule: boxed(between.clone()), offset: 1 }),
        })
    );
    let text = format!("SundayBetweenOrFallback({}, {}, {})", inner, inner, inner);
    assert_eq!(
        DateRule::parse(&text),
        Ok(DateRule::SundayBetweenOrFallback {
            start: boxed(between.clone()),
            end: boxed(between.clone()),
            fallback: boxed(between),
        })
    );
}

#[test]
fn test_default_and_clone() {
    assert_eq!(DateRule::default(), DateRule::Easter);
    for rule in all_test_rules() {
        assert_eq!(rule.clone(), rule);
    }
}
