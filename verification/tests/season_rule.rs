use liturgy::date::Date;
use liturgy::date_rule::DateRule;
use liturgy::season_rule::{
    CountingConfig, DisplayConfig, FerialRule, HierarchyConfig, OctaveConfig, SeasonCore, SeasonRule,
};

fn date(year: i32, month: u32, day: u32) -> Date {
    Date::from_ymd(year, month, day).unwrap()
}

fn fixed(month: u8, day: u8) -> DateRule {
    DateRule::Fixed { month, day }
}

fn plain_season(name: &str, begin: DateRule, end: DateRule, color: &str) -> SeasonRule<DateRule> {
    SeasonRule::new(
        name.to_string(),
        begin,
        end,
        color.to_string(),
        None,
        None,
        None,
        None,
        None,
        false,
        None,
        vec![],
        false,
        None,
        None,
    )
}

fn test_season_of_year(sunday_rank: Option<String>, ferial_rules: Vec<FerialRule<Date>>) -> SeasonRule<Date> {
    SeasonRule::new(
        "Test Season".to_string(),
        date(2025, 1, 1),
        date(2025, 3, 31),
        "green".to_string(),
        Some("after Epiphany".to_string()),
        Some("in Ordinary Time".to_string()),
        Some(date(2025, 1, 6)),
        Some(date(2025, 1, 7)),
        Some(date(2025, 2, 1)),
        false,
        sunday_rank,
        ferial_rules,
        false,
        None,
        None,
    )
}

#[test]
fn test_season_ferial_ranking() {
    for (day, expected_rank) in [(date(2025, 2, 15), "II"), (date(2025, 1, 15), "IV")] {
        let ferial_rule = FerialRule::new(
            "Special Period".to_string(),
            date(2025, 2, 1),
            date(2025, 2, 28),
            "II".to_string(),
        );
        let season_rule = test_season_of_year(Some("III".to_string()), vec![ferial_rule]);
        assert_eq!(season_rule.get_ferial_rank_for_date(&day), expected_rank);
    }
}

#[test]
fn test_season_ferial_ranking_takes_the_first_rule() {
    let season = test_season_of_year(
        None,
        vec![
            FerialRule::new("Week".to_string(), date(2025, 2, 10), date(2025, 2, 16), "I".to_string()),
            FerialRule::new("Month".to_string(), date(2025, 2, 1), date(2025, 2, 28), "II".to_string()),
            FerialRule::new("Day".to_string(), date(2025, 2, 12), date(2025, 2, 12), "III".to_string()),
        ],
    );
    assert_eq!(season.get_ferial_rank_for_date(&date(2025, 2, 12)), "I");
    assert_eq!(season.get_ferial_rank_for_date(&date(2025, 2, 10)), "I");
    assert_eq!(season.get_ferial_rank_for_date(&date(2025, 2, 17)), "II");
    assert_eq!(season.get_ferial_rank_for_date(&date(2025, 2, 1)), "II");
    assert_eq!(season.get_ferial_rank_for_date(&date(2025, 3, 1)), "IV");
    assert_eq!(season.get_ferial_rank_for_date(&date(2025, 1, 1)), "IV");
    assert_eq!(season.get_ferial_rank_for_date(&date(2025, 3, 31)), "IV");
}

#[test]
fn test_season_sunday_ranking() {
    for (sunday_rank, expected) in [(Some("I".to_string()), "I"), (None, "II")] {
        let season_rule = test_season_of_year(sunday_rank, vec![]);
        assert_eq!(season_rule.get_sunday_rank(), expected);
    }
}

#[test]
fn test_ferial_rule_instantiation() {
    for lit_year in [2025, 2024, 2026] {
        let ferial_date_rule =
            FerialRule::new("Test Ferial".to_string(), fixed(3, 1), fixed(3, 31), "II".to_string());

        let instantiated = ferial_date_rule.instantiate_for_lit_year(lit_year).unwrap();

        assert_eq!(instantiated.name, "Test Ferial");
        assert_eq!(instantiated.rank, "II");
        assert_eq!(instantiated.begin, date(lit_year, 3, 1));
        assert_eq!(instantiated.end, date(lit_year, 3, 31));
    }
    let leap = FerialRule::new("Leap".to_string(), fixed(2, 29), fixed(3, 31), "II".to_string());
    assert!(leap.instantiate_for_lit_year(2024).is_some());
    assert!(leap.instantiate_for_lit_year(2025).is_none());
    let leap = FerialRule::new("Leap".to_string(), fixed(2, 1), fixed(2, 29), "II".to_string());
    assert!(leap.instantiate_for_lit_year(2025).is_none());
}

#[test]
fn test_season_rule_instantiation() {
    for lit_year in [2025, 2024, 2026] {
        let ferial_rule =
            FerialRule::new("Inner Ferial".to_string(), fixed(2, 1), fixed(2, 28), "III".to_string());

        let season_date_rule = SeasonRule::new(
            "Complex Season".to_string(),
            fixed(1, 1),
            fixed(3, 31),
            "purple".to_string(),
            Some("after Epiphany".to_string()),
            Some("in Ordinary Time".to_string()),
            Some(fixed(1, 6)),
            Some(fixed(1, 7)),
            Some(fixed(2, 1)),
            false,
            Some("I".to_string()),
            vec![ferial_rule],
            false,
            None,
            None,
        );

        let instantiated = season_date_rule.instantiate_for_lit_year(lit_year).unwrap();

        assert_eq!(instantiated.name(), "Complex Season");
        assert!(instantiated.count_sundays_suffix().is_some());
        assert!(instantiated.count_ferias_suffix().is_some());
        assert!(instantiated.count_sundays_from().is_some());
        assert!(instantiated.count_ferias_from().is_some());
        assert!(instantiated.append_week_of_month().is_some());
        assert_eq!(instantiated.sunday_rank(), &Some("I".to_string()));
        assert_eq!(instantiated.ferial_rules().len(), 1);
        assert_eq!(*instantiated.begin(), date(lit_year, 1, 1));
        assert_eq!(*instantiated.end(), date(lit_year, 3, 31));
        assert_eq!(instantiated.get_count_sundays_from(), Some(date(lit_year, 1, 6)));
        assert_eq!(instantiated.get_count_ferias_from(), Some(date(lit_year, 1, 7)));
        assert_eq!(instantiated.get_count_sundays_suffix(), Some("after Epiphany"));
        assert_eq!(instantiated.get_count_ferias_suffix(), Some("in Ordinary Time"));
        assert_eq!(instantiated.color(), "purple");
        assert_eq!(instantiated.ferial_rules()[0].begin, date(lit_year, 2, 1));
    }
}

#[test]
fn test_season_rule_instantiation_fails_without_a_day() {
    let mut season = plain_season("Season", fixed(1, 1), fixed(3, 31), "green");
    assert!(season.instantiate_for_lit_year(2025).is_some());
    season.set_count_ferias_from(Some(fixed(2, 29)));
    assert!(season.instantiate_for_lit_year(2025).is_none());
    assert!(season.instantiate_with_hierarchy(2025, None).is_none());
    assert!(season.instantiate_for_lit_year(2024).is_some());
    let mut season = plain_season("Season", fixed(1, 1), fixed(2, 30), "green");
    assert!(season.instantiate_for_lit_year(2024).is_none());
    season.set_end(fixed(3, 1));
    season.set_ferial_rules(vec![FerialRule::new(
        "Rule".to_string(),
        fixed(2, 29),
        fixed(3, 1),
        "II".to_string(),
    )]);
    assert!(season.instantiate_for_lit_year(2023).is_none());
    assert!(season.instantiate_for_lit_year(2024).is_some());
}

#[test]
fn test_season_rule_accessors() {
    let season = plain_season("Test Season", fixed(1, 1), fixed(6, 30), "green");

    assert_eq!(season.name(), "Test Season");
    assert_eq!(season.color(), "green");
    assert_eq!(season.count_sundays_suffix(), &None);
    assert_eq!(season.count_ferias_suffix(), &None);
    assert_eq!(season.count_sundays_from(), &None);
    assert_eq!(season.count_ferias_from(), &None);
    assert_eq!(season.sunday_rank(), &None);
    assert_eq!(season.ferial_rules().len(), 0);
    assert_eq!(season.begin(), &fixed(1, 1));
    assert_eq!(season.end(), &fixed(6, 30));
    assert_eq!(season.continue_counting_from_season(), &None);
    assert_eq!(season.append_week_of_month(), &None);
    assert!(!season.dont_show_week_of_season());
    assert!(!season.is_octave());
    assert_eq!(season.octave_rank(), &None);
    assert_eq!(season.parent_season(), &None);
}

#[test]
fn test_season_rule_setters() {
    let mut season = plain_season("Test Season", fixed(1, 1), fixed(6, 30), "green");

    season.set_name("Updated Season".to_string());
    season.set_begin(DateRule::Fixed { month: 2, day: 1 });
    season.set_end(DateRule::Fixed { month: 7, day: 31 });
    season.set_color("red".to_string());
    season.set_count_sundays_suffix(Some("after Epiphany".to_string()));
    season.set_count_ferias_suffix(Some("in Lent".to_string()));
    season.set_count_sundays_from(Some(DateRule::Fixed { month: 1, day: 6 }));
    season.set_count_ferias_from(Some(DateRule::Fixed { month: 2, day: 1 }));
    season.set_append_week_of_month(Some(DateRule::Fixed { month: 1, day: 6 }));
    season.set_dont_show_week_of_season(false);
    season.set_sunday_rank(Some("II".to_string()));
    season.set_ferial_rules(vec![]);
    season.set_is_octave(true);
    season.set_octave_rank(Some("Simple".to_string()));
    season.set_parent_season(Some("Ordinary Time".to_string()));

    assert_eq!(season.name(), "Updated Season");
    assert_eq!(season.color(), "red");
    assert_eq!(season.count_sundays_suffix(), &Some("after Epiphany".to_string()));
    assert_eq!(season.count_ferias_suffix(), &Some("in Lent".to_string()));
    assert!(season.count_sundays_from().is_some());
    assert!(season.count_ferias_from().is_some());
    assert_eq!(season.sunday_rank(), &Some("II".to_string()));
    assert_eq!(season.begin(), &fixed(2, 1));
    assert_eq!(season.end(), &fixed(7, 31));
    assert_eq!(season.count_sundays_from(), &Some(fixed(1, 6)));
    assert_eq!(season.count_ferias_from(), &Some(fixed(2, 1)));
    assert_eq!(season.append_week_of_month(), &Some(fixed(1, 6)));
    assert!(season.is_octave());
    assert_eq!(season.octave_rank(), &Some("Simple".to_string()));
    assert_eq!(season.parent_season(), &Some("Ordinary Time".to_string()));
    season.set_dont_show_week_of_season(true);
    assert!(season.dont_show_week_of_season());
}

#[test]
fn test_season_rule_with_ferial_rules() {
    let season = SeasonRule::new(
        "Lent".to_string(),
        fixed(2, 1),
        fixed(4, 15),
        "purple".to_string(),
        None,
        None,
        None,
        None,
        None,
        false,
        Some("I".to_string()),
        vec![],
        false,
        None,
        None,
    );

    assert_eq!(season.ferial_rules().len(), 0);
    assert_eq!(season.sunday_rank(), &Some("I".to_string()));
}

#[test]
fn test_season_rule_get_sunday_rank() {
    let mut season = plain_season("Test Season", fixed(1, 1), fixed(6, 30), "green");
    season.set_sunday_rank(Some("II".to_string()));

    // Instantiate to test get_sunday_rank method
    let instantiated = season.instantiate_for_lit_year(2025).unwrap();
    let sunday_rank = instantiated.get_sunday_rank();
    assert_eq!(sunday_rank, "II");
}

#[test]
fn test_season_rule_get_effective_color() {
    let season = plain_season("Test Season", fixed(1, 1), fixed(6, 30), "green");

    let instantiated = season.instantiate_for_lit_year(2025).unwrap();
    let color = &instantiated.core.color;
    assert_eq!(color, "green");
}

#[test]
fn test_is_of_lent_by_the_name() {
    for (name, expected) in [
        ("Lent", true),
        ("Time of LENT", true),
        ("Passiontide", true),
        ("Holy Week", true),
        ("holy  week", false),
        ("Advent", false),
        ("Ordinary Time", false),
        ("Excellent", true),
    ] {
        let season = plain_season(name, fixed(1, 1), fixed(6, 30), "green")
            .instantiate_for_lit_year(2025)
            .unwrap();
        assert_eq!(season.is_of_lent(), expected, "{}", name);
    }
}

#[test]
fn test_instantiate_with_hierarchy_inherits_what_is_open() {
    let mut parent_rule = plain_season("Lent", fixed(2, 1), fixed(4, 30), "purple");
    parent_rule.set_sunday_rank(Some("I".to_string()));
    parent_rule.set_count_sundays_suffix(Some("of Lent".to_string()));
    parent_rule.set_count_ferias_suffix(Some("in Lent".to_string()));
    parent_rule.set_count_sundays_from(Some(fixed(2, 2)));
    parent_rule.set_count_ferias_from(Some(fixed(2, 3)));
    parent_rule.set_append_week_of_month(Some(fixed(2, 4)));
    parent_rule.set_is_octave(true);
    parent_rule.set_octave_rank(Some("II".to_string()));
    parent_rule.set_ferial_rules(vec![
        FerialRule::new("Long".to_string(), fixed(2, 1), fixed(4, 30), "III".to_string()),
        FerialRule::new("Short".to_string(), fixed(3, 1), fixed(3, 7), "II".to_string()),
    ]);
    let parent = parent_rule.instantiate_with_hierarchy(2025, None).unwrap();
    // the rules are ordered by their length, the shortest first
    let names: Vec<&str> = parent.ferial_rules().iter().map(|r| r.name.as_str()).collect();
    assert_eq!(names, vec!["Short", "Long"]);

    let mut child_rule = plain_season("Holy Week", fixed(4, 13), fixed(4, 19), "green");
    child_rule.set_parent_season(Some("Lent".to_string()));
    child_rule.set_ferial_rules(vec![
        FerialRule::new("Week".to_string(), fixed(4, 13), fixed(4, 19), "I".to_string()),
        FerialRule::new("Same as short".to_string(), fixed(4, 13), fixed(4, 19), "I".to_string()),
        FerialRule::new("Day".to_string(), fixed(4, 18), fixed(4, 18), "I".to_string()),
    ]);
    let child = child_rule.instantiate_with_hierarchy(2025, Some(&parent)).unwrap();
    assert_eq!(child.name(), "Holy Week");
    // green is taken for no color of its own
    assert_eq!(child.color(), "purple");
    assert_eq!(child.get_sunday_rank(), "I");
    assert_eq!(child.get_count_sundays_suffix(), Some("of Lent"));
    assert_eq!(child.get_count_ferias_suffix(), Some("in Lent"));
    assert_eq!(child.get_count_sundays_from(), Some(date(2025, 2, 2)));
    assert_eq!(child.get_count_ferias_from(), Some(date(2025, 2, 3)));
    // what is not inherited
    assert_eq!(child.append_week_of_month(), &None);
    assert!(!child.is_octave());
    assert_eq!(child.octave_rank(), &None);
    assert_eq!(child.parent_season(), &None);
    assert_eq!(*child.begin(), date(2025, 4, 13));
    // the parent's rules come before the child's, and rules of one length keep their order
    let names: Vec<&str> = child.ferial_rules().iter().map(|r| r.name.as_str()).collect();
    assert_eq!(names, vec!["Day", "Short", "Week", "Same as short", "Long"]);

    // what the child states stays
    let mut child_rule = plain_season("Passiontide", fixed(4, 6), fixed(4, 19), "red");
    child_rule.set_sunday_rank(Some("II".to_string()));
    child_rule.set_count_sundays_suffix(Some("of the Passion".to_string()));
    child_rule.set_count_ferias_from(Some(fixed(4, 7)));
    let child = child_rule.instantiate_with_hierarchy(2025, Some(&parent)).unwrap();
    assert_eq!(child.color(), "red");
    assert_eq!(child.get_sunday_rank(), "II");
    assert_eq!(child.get_count_sundays_suffix(), Some("of the Passion"));
    assert_eq!(child.get_count_ferias_suffix(), Some("in Lent"));
    assert_eq!(child.get_count_sundays_from(), Some(date(2025, 2, 2)));
    assert_eq!(child.get_count_ferias_from(), Some(date(2025, 4, 7)));

    // an empty color is taken from the parent too
    let child_rule = plain_season("Empty", fixed(4, 6), fixed(4, 19), "");
    assert_eq!(child_rule.instantiate_with_hierarchy(2025, Some(&parent)).unwrap().color(), "purple");
    assert_eq!(child_rule.instantiate_with_hierarchy(2025, None).unwrap().color(), "");
}

#[test]
fn test_season_parts_default() {
    let counting: CountingConfig<Date> = CountingConfig::default();
    assert!(counting.sundays_suffix.is_none() && counting.ferias_from.is_none());
    let display: DisplayConfig<Date> = DisplayConfig::default();
    assert!(display.append_week_of_month.is_none() && !display.dont_show_week_of_season);
    let season = SeasonRule {
        core: SeasonCore {
            name: "Season".to_string(),
            begin: date(2025, 1, 1),
            end: date(2025, 12, 31),
            color: "green".to_string(),
            sunday_rank: Some("III".to_string()),
            ferial_rules: vec![],
        },
        counting,
        display,
        octave: OctaveConfig::default(),
        hierarchy: HierarchyConfig::default(),
    };
    assert!(!season.is_octave());
    assert_eq!(season.get_sunday_rank(), "III");
    let copy = season.duplicate();
    assert_eq!(copy.name(), "Season");
    assert_eq!(copy.end(), season.end());
}
