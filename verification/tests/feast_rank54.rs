use liturgy::day_type::DayType;
use liturgy::feast_rank::feast_rank54::{
    can_commemorate_1954, FeastClass, FeastRank54, FeastRank54Inner, OccurrenceResult, OctaveType,
};
use liturgy::feast_rank::feast_rank62::{FeastFlags, FeriaFlags};
use liturgy::feast_rank::{
    BVMOnSaturdayResult, FeastRank, LiturgicalContext, OccurrenceError, RankError, ResolveError,
};

fn feast(rank: FeastClass, of_our_lord: bool) -> FeastRank54Inner {
    let mut flags = FeastFlags::empty();
    flags.of_our_lord = of_our_lord;
    FeastRank54Inner::Feast { rank, flags }
}

fn feria(rank: u8) -> FeastRank54Inner {
    FeastRank54Inner::Feria { rank, flags: FeriaFlags::empty() }
}

fn octave(rank: OctaveType, is_octave_day: bool) -> FeastRank54Inner {
    FeastRank54Inner::Octave { rank, is_octave_day }
}

fn all_classes() -> [FeastClass; 7] {
    [
        FeastClass::FirstClassDouble,
        FeastClass::SecondClassDouble,
        FeastClass::MajorDouble,
        FeastClass::Double,
        FeastClass::Semidouble,
        FeastClass::Simple,
        FeastClass::Commemoration,
    ]
}

fn all_octaves() -> [OctaveType; 5] {
    [
        OctaveType::Privileged1,
        OctaveType::Privileged2,
        OctaveType::Privileged3,
        OctaveType::Common,
        OctaveType::Simple,
    ]
}

#[test]
fn feast_rank54_test_feast_rank_54_precedence() {
    let context = LiturgicalContext::new();

    let christmas =
        FeastRank54::new_with_context("I", &DayType::Feast, &context.clone().of_our_lord()).unwrap();
    let saint_feast = FeastRank54::new_with_context("III", &DayType::Feast, &context).unwrap();

    let competetors = vec![
        (christmas, "Christmas".to_string()),
        (saint_feast, "St. John".to_string()),
    ];

    let result = FeastRank54::resolve_conflicts(&competetors).unwrap();
    assert_eq!(result.winner, "Christmas");
}

#[test]
fn test_feast_rank_54_precedence() {
    let context = LiturgicalContext::new();

    let christmas = FeastRank54Inner::new_with_context(
        "I",
        &DayType::Feast,
        &context.clone().of_our_lord(),
    )
    .unwrap();
    let saint_feast = FeastRank54Inner::new_with_context("III", &DayType::Feast, &context).unwrap();

    let competetors = vec![
        (christmas, "Christmas".to_string()),
        (saint_feast, "St. John".to_string()),
    ];

    let result = FeastRank54Inner::resolve_conflicts(&competetors).unwrap();
    assert_eq!(result.winner, "Christmas");
}

#[test]
fn test_54_precedence_commemorates_the_double() {
    let result = FeastRank54Inner::resolve_conflicts(&[
        (feast(FeastClass::FirstClassDouble, true), "Christmas".to_string()),
        (feast(FeastClass::Double, false), "St. John".to_string()),
    ])
    .unwrap();
    assert_eq!(result.winner, "Christmas");
    assert_eq!(result.winner_rank, FeastRank54(feast(FeastClass::FirstClassDouble, true)));
    assert_eq!(result.commemorations, vec!["St. John"]);
    assert!(result.transferred.is_none());
}

#[test]
fn test_54_keeps_the_order_of_the_list() {
    // the competitors are not ordered by rank: every one meets the first of the list
    let result = FeastRank54Inner::resolve_conflicts(&[
        (feria(3), "Feria".to_string()),
        (feast(FeastClass::Commemoration, false), "Comm".to_string()),
        (feast(FeastClass::Semidouble, false), "Semidouble".to_string()),
        (FeastRank54Inner::Sunday { rank: 3 }, "Sunday".to_string()),
    ])
    .unwrap();
    // the semidouble takes the day from the feria without a trace of it; the Sunday is
    // compared with the feria, the first of the list, and is commemorated
    assert_eq!(result.winner, "Semidouble");
    assert_eq!(result.commemorations, vec!["Sunday", "Comm"]);
}

#[test]
fn test_54_resolve_errors() {
    let none: Vec<(FeastRank54Inner, String)> = vec![];
    assert_eq!(FeastRank54Inner::resolve_conflicts(&none).err(), Some(ResolveError::NoCompetitors));
    assert_eq!(
        FeastRank54Inner::resolve_conflicts(&[(feast(FeastClass::Commemoration, false), 1u8)]).err(),
        Some(ResolveError::OnlyCommemorations)
    );
    assert_eq!(
        FeastRank54Inner::resolve_conflicts(&[
            (feast(FeastClass::Commemoration, false), 0u8),
            (FeastRank54Inner::Sunday { rank: 1 }, 1u8),
            (feria(3), 2u8),
            (FeastRank54Inner::Sunday { rank: 1 }, 3u8),
        ])
        .err(),
        Some(ResolveError::Unresolved { first: 1, second: 3 })
    );
}

#[test]
fn test_54_transfer() {
    let result = FeastRank54Inner::resolve_conflicts(&[
        (feast(FeastClass::FirstClassDouble, false), "Feast 1"),
        (feast(FeastClass::SecondClassDouble, false), "Feast 2"),
    ])
    .unwrap();
    assert_eq!(result.winner, "Feast 2");
    assert_eq!(result.transferred, Some((FeastRank54(feast(FeastClass::FirstClassDouble, false)), "Feast 1")));
}

#[test]
fn test_54_feast_against_sunday() {
    let cases = [
        (FeastClass::FirstClassDouble, false, 1, OccurrenceResult::SecondCommemorationOfFirst),
        (FeastClass::FirstClassDouble, false, 2, OccurrenceResult::FirstNothingOfSecond),
        (FeastClass::SecondClassDouble, false, 2, OccurrenceResult::SecondCommemorationOfFirst),
        (FeastClass::SecondClassDouble, true, 2, OccurrenceResult::FirstNothingOfSecond),
        (FeastClass::MajorDouble, true, 2, OccurrenceResult::FirstNothingOfSecond),
        (FeastClass::Double, true, 2, OccurrenceResult::SecondCommemorationOfFirst),
        (FeastClass::FirstClassDouble, false, 3, OccurrenceResult::FirstCommemorationOfSecond),
        (FeastClass::SecondClassDouble, false, 3, OccurrenceResult::FirstCommemorationOfSecond),
        (FeastClass::Simple, true, 3, OccurrenceResult::FirstNothingOfSecond),
        (FeastClass::Simple, false, 3, OccurrenceResult::SecondCommemorationOfFirst),
    ];
    for (class, of_our_lord, sunday, expected) in cases {
        let a = feast(class, of_our_lord);
        let b = FeastRank54Inner::Sunday { rank: sunday };
        assert_eq!(a.resolve_occurrence(&b, true), Ok(expected));
        assert_eq!(b.resolve_occurrence(&a, true), Ok(expected.reverse()));
    }
    // a Sunday of an unknown class: the numbers decide
    assert_eq!(
        feast(FeastClass::Double, false).resolve_occurrence(&FeastRank54Inner::Sunday { rank: 9 }, true),
        Ok(OccurrenceResult::FirstNothingOfSecond)
    );
    assert_eq!(
        feast(FeastClass::Double, false).resolve_occurrence(&FeastRank54Inner::Sunday { rank: 4 }, true),
        Err(OccurrenceError::EqualRank)
    );
}

#[test]
fn test_54_feast_against_feria_and_vigil() {
    let double = feast(FeastClass::Double, false);
    let semidouble = feast(FeastClass::Semidouble, false);
    let simple = feast(FeastClass::Simple, false);
    assert_eq!(double.resolve_occurrence(&feria(1), true), Ok(OccurrenceResult::SecondCommemorationOfFirst));
    assert_eq!(semidouble.resolve_occurrence(&feria(1), true), Ok(OccurrenceResult::SecondNothingOfFirst));
    assert_eq!(simple.resolve_occurrence(&feria(2), true), Ok(OccurrenceResult::SecondNothingOfFirst));
    assert_eq!(semidouble.resolve_occurrence(&feria(2), true), Ok(OccurrenceResult::FirstCommemorationOfSecond));
    assert_eq!(simple.resolve_occurrence(&feria(3), true), Ok(OccurrenceResult::FirstNothingOfSecond));
    assert_eq!(feria(3).resolve_occurrence(&simple, true), Ok(OccurrenceResult::SecondNothingOfFirst));
    let major = FeastRank54Inner::Vigil { major: true };
    let minor = FeastRank54Inner::Vigil { major: false };
    assert_eq!(
        feast(FeastClass::SecondClassDouble, false).resolve_occurrence(&major, true),
        Ok(OccurrenceResult::FirstCommemorationOfSecond)
    );
    assert_eq!(
        feast(FeastClass::SecondClassDouble, false).resolve_occurrence(&minor, true),
        Ok(OccurrenceResult::FirstNothingOfSecond)
    );
    assert_eq!(simple.resolve_occurrence(&minor, true), Ok(OccurrenceResult::SecondCommemorationOfFirst));
    assert_eq!(
        feast(FeastClass::Commemoration, false).resolve_occurrence(&major, true),
        Ok(OccurrenceResult::SecondNothingOfFirst)
    );
    // a vigil named first follows its own rule
    assert_eq!(minor.resolve_occurrence(&simple, true), Ok(OccurrenceResult::FirstNothingOfSecond));
    assert_eq!(
        minor.resolve_occurrence(&feast(FeastClass::FirstClassDouble, false), true),
        Ok(OccurrenceResult::SecondNothingOfFirst)
    );
    assert_eq!(major.resolve_occurrence(&feria(2), true), Ok(OccurrenceResult::FirstNothingOfSecond));
    assert_eq!(minor.resolve_occurrence(&feria(2), true), Ok(OccurrenceResult::SecondCommemorationOfFirst));
    assert_eq!(
        minor.resolve_occurrence(&FeastRank54Inner::Sunday { rank: 3 }, true),
        Ok(OccurrenceResult::SecondCommemorationOfFirst)
    );
    // no rule for a vigil against a greater privileged feria: the numbers decide
    assert_eq!(minor.resolve_occurrence(&feria(1), true), Ok(OccurrenceResult::SecondNothingOfFirst));
    assert_eq!(major.resolve_occurrence(&feria(1), true), Err(OccurrenceError::EqualRank));
    assert_eq!(major.resolve_occurrence(&major, true), Err(OccurrenceError::EqualRank));
}

#[test]
fn test_54_feast_against_octave() {
    let first = feast(FeastClass::FirstClassDouble, false);
    let second = feast(FeastClass::SecondClassDouble, false);
    let major_lord = feast(FeastClass::MajorDouble, true);
    let simple = feast(FeastClass::Simple, false);
    let comm = feast(FeastClass::Commemoration, false);
    assert_eq!(
        first.resolve_occurrence(&octave(OctaveType::Privileged1, true), true),
        Ok(OccurrenceResult::FirstNothingOfSecond)
    );
    assert_eq!(
        second.resolve_occurrence(&octave(OctaveType::Privileged1, false), true),
        Ok(OccurrenceResult::SecondTransferOfFirst)
    );
    assert_eq!(
        simple.resolve_occurrence(&octave(OctaveType::Privileged1, true), true),
        Ok(OccurrenceResult::SecondCommemorationOfFirst)
    );
    assert_eq!(
        simple.resolve_occurrence(&octave(OctaveType::Privileged1, false), true),
        Ok(OccurrenceResult::SecondNothingOfFirst)
    );
    assert_eq!(
        first.resolve_occurrence(&octave(OctaveType::Privileged2, true), true),
        Ok(OccurrenceResult::SecondTransferOfFirst)
    );
    assert_eq!(
        first.resolve_occurrence(&octave(OctaveType::Privileged2, false), true),
        Ok(OccurrenceResult::SecondCommemorationOfFirst)
    );
    assert_eq!(
        major_lord.resolve_occurrence(&octave(OctaveType::Privileged2, false), true),
        Ok(OccurrenceResult::FirstCommemorationOfSecond)
    );
    assert_eq!(
        second.resolve_occurrence(&octave(OctaveType::Privileged2, true), true),
        Ok(OccurrenceResult::FirstNothingOfSecond)
    );
    for kind in [OctaveType::Privileged3, OctaveType::Common] {
        assert_eq!(
            second.resolve_occurrence(&octave(kind, false), true),
            Ok(OccurrenceResult::FirstCommemorationOfSecond)
        );
        assert_eq!(
            second.resolve_occurrence(&octave(kind, true), true),
            Ok(OccurrenceResult::FirstNothingOfSecond)
        );
        assert_eq!(
            simple.resolve_occurrence(&octave(kind, false), true),
            Ok(OccurrenceResult::SecondCommemorationOfFirst)
        );
        assert_eq!(
            comm.resolve_occurrence(&octave(kind, false), true),
            Ok(OccurrenceResult::FirstNothingOfSecond)
        );
        assert_eq!(
            octave(kind, false).resolve_occurrence(&second, true),
            Ok(OccurrenceResult::SecondCommemorationOfFirst)
        );
    }
    assert_eq!(
        comm.resolve_occurrence(&octave(OctaveType::Simple, true), true),
        Ok(OccurrenceResult::SecondCommemorationOfFirst)
    );
    assert_eq!(
        comm.resolve_occurrence(&octave(OctaveType::Simple, false), true),
        Ok(OccurrenceResult::FirstNothingOfSecond)
    );
}

#[test]
fn test_54_octave_and_sunday_rules() {
    assert_eq!(
        octave(OctaveType::Simple, true).resolve_occurrence(&feria(1), true),
        Ok(OccurrenceResult::FirstNothingOfSecond)
    );
    assert_eq!(
        octave(OctaveType::Simple, false).resolve_occurrence(&feria(3), true),
        Ok(OccurrenceResult::SecondNothingOfFirst)
    );
    assert_eq!(
        octave(OctaveType::Common, false).resolve_occurrence(&feria(2), true),
        Ok(OccurrenceResult::FirstCommemorationOfSecond)
    );
    assert_eq!(
        octave(OctaveType::Privileged3, false).resolve_occurrence(&feria(2), true),
        Ok(OccurrenceResult::FirstNothingOfSecond)
    );
    let sunday = |rank: u8| FeastRank54Inner::Sunday { rank };
    for kind in all_octaves() {
        for day in [false, true] {
            assert_eq!(
                octave(kind, day).resolve_occurrence(&sunday(1), true),
                Ok(OccurrenceResult::SecondNothingOfFirst)
            );
        }
    }
    assert_eq!(
        octave(OctaveType::Common, true).resolve_occurrence(&sunday(2), true),
        Ok(OccurrenceResult::SecondCommemorationOfFirst)
    );
    assert_eq!(
        octave(OctaveType::Privileged1, false).resolve_occurrence(&sunday(3), true),
        Ok(OccurrenceResult::FirstNothingOfSecond)
    );
    assert_eq!(
        octave(OctaveType::Privileged3, true).resolve_occurrence(&sunday(2), true),
        Ok(OccurrenceResult::SecondNothingOfFirst)
    );
    assert_eq!(
        octave(OctaveType::Simple, false).resolve_occurrence(&sunday(2), true),
        Ok(OccurrenceResult::SecondNothingOfFirst)
    );
    // the eighth day of a privileged octave of the first order has no rule against a
    // Sunday of the second class: the numbers decide
    assert_eq!(
        octave(OctaveType::Privileged1, true).resolve_occurrence(&sunday(2), true),
        Ok(OccurrenceResult::FirstNothingOfSecond)
    );
    assert_eq!(
        octave(OctaveType::Privileged2, true).resolve_occurrence(&sunday(2), true),
        Err(OccurrenceError::EqualRank)
    );
    assert_eq!(sunday(2).resolve_occurrence(&feria(1), true), Ok(OccurrenceResult::FirstNothingOfSecond));
    assert_eq!(
        sunday(2).resolve_occurrence(&feria(3), true),
        Ok(OccurrenceResult::SecondCommemorationOfFirst)
    );
    assert_eq!(sunday(3).resolve_occurrence(&feria(2), true), Ok(OccurrenceResult::FirstNothingOfSecond));
    assert_eq!(
        feria(3).resolve_occurrence(&sunday(3), true),
        Ok(OccurrenceResult::FirstCommemorationOfSecond)
    );
    // no rule for two octaves: the numbers decide
    assert_eq!(
        octave(OctaveType::Privileged1, false).resolve_occurrence(&octave(OctaveType::Common, true), true),
        Ok(OccurrenceResult::FirstNothingOfSecond)
    );
    assert_eq!(
        octave(OctaveType::Common, false).resolve_occurrence(&octave(OctaveType::Common, true), true),
        Err(OccurrenceError::EqualRank)
    );
}

#[test]
fn test_54_same_kind_same_rank() {
    // two ferias or two Sundays of one class cannot be ordered
    assert_eq!(feria(1).resolve_occurrence(&feria(1), true), Err(OccurrenceError::EqualFerias));
    let sunday = FeastRank54Inner::Sunday { rank: 1 };
    assert_eq!(sunday.resolve_occurrence(&sunday, true), Err(OccurrenceError::EqualRank));
    // of the feasts, two doubles of the second class or two commemorations
    for class in [FeastClass::SecondClassDouble, FeastClass::Commemoration] {
        assert_eq!(
            feast(class, true).resolve_occurrence(&feast(class, false), true),
            Err(OccurrenceError::EqualRank)
        );
    }
    // the table orders two doubles of the first class, two semidoubles and two simples
    assert_eq!(
        feast(FeastClass::FirstClassDouble, false)
            .resolve_occurrence(&feast(FeastClass::FirstClassDouble, false), true),
        Ok(OccurrenceResult::SecondTransferOfFirst)
    );
    for class in [FeastClass::Semidouble, FeastClass::Simple] {
        assert_eq!(
            feast(class, false).resolve_occurrence(&feast(class, false), true),
            Ok(OccurrenceResult::SecondCommemorationOfFirst)
        );
    }
    // and two greater doubles or two doubles where one is of Our Lord
    for class in [FeastClass::MajorDouble, FeastClass::Double] {
        assert_eq!(
            feast(class, false).resolve_occurrence(&feast(class, true), true),
            Ok(OccurrenceResult::SecondCommemorationOfFirst)
        );
        assert_eq!(
            feast(class, true).resolve_occurrence(&feast(class, false), true),
            Ok(OccurrenceResult::FirstCommemorationOfSecond)
        );
        assert_eq!(
            feast(class, false).resolve_occurrence(&feast(class, false), true),
            Err(OccurrenceError::EqualRank)
        );
    }
}

#[test]
fn test_54_numeric_ranks_and_reverse() {
    let numbers: Vec<u8> = all_classes().iter().map(|c| feast(*c, false).get_numeric_rank()).collect();
    assert_eq!(numbers, vec![1, 2, 3, 4, 5, 6, 7]);
    let numbers: Vec<u8> = all_classes().iter().map(|c| c.to_number()).collect();
    assert_eq!(numbers, vec![1, 2, 3, 4, 5, 6, 7]);
    let numbers: Vec<u8> = all_octaves().iter().map(|k| octave(*k, false).get_numeric_rank()).collect();
    assert_eq!(numbers, vec![1, 2, 3, 4, 5]);
    assert_eq!(FeastRank54Inner::Vigil { major: true }.get_numeric_rank(), 1);
    assert_eq!(FeastRank54Inner::Vigil { major: false }.get_numeric_rank(), 2);
    assert_eq!(feria(3).get_numeric_rank(), 3);
    assert_eq!(FeastRank54Inner::Sunday { rank: 2 }.get_numeric_rank(), 2);
    let pairs = [
        (OccurrenceResult::FirstNothingOfSecond, OccurrenceResult::SecondNothingOfFirst),
        (OccurrenceResult::FirstCommemorationOfSecond, OccurrenceResult::SecondCommemorationOfFirst),
        (
            OccurrenceResult::FirstCommemorationOfSecondAtLauds,
            OccurrenceResult::SecondCommemorationOfFirstAtLauds,
        ),
        (OccurrenceResult::FirstTransferOfSecond, OccurrenceResult::SecondTransferOfFirst),
    ];
    for (a, b) in pairs {
        assert_eq!(a.reverse(), b);
        assert_eq!(b.reverse(), a);
    }
}

#[test]
fn test_54_rank_codes() {
    let plain = LiturgicalContext::new();
    let build = |code: &str, kind: DayType| FeastRank54Inner::new_with_context(code, &kind, &plain);
    for (code, rank) in [
        ("greater privileged", 1),
        ("I", 1),
        ("greater non-privileged", 2),
        ("II", 2),
        ("ordinary", 3),
        ("III", 3),
        ("IV", 3),
    ] {
        assert_eq!(build(code, DayType::Feria), Ok(feria(rank)));
    }
    for (code, class) in [
        ("totum_duplex", FeastClass::FirstClassDouble),
        ("first_class_duplex", FeastClass::FirstClassDouble),
        ("first class double", FeastClass::FirstClassDouble),
        ("I", FeastClass::FirstClassDouble),
        ("second_class_duplex", FeastClass::SecondClassDouble),
        ("second class double", FeastClass::SecondClassDouble),
        ("II", FeastClass::SecondClassDouble),
        ("major_duplex", FeastClass::MajorDouble),
        ("greater_duplex", FeastClass::MajorDouble),
        ("major double", FeastClass::MajorDouble),
        ("duplex", FeastClass::Double),
        ("double", FeastClass::Double),
        ("III", FeastClass::Double),
        ("semiduplex", FeastClass::Semidouble),
        ("semidouble", FeastClass::Semidouble),
        ("IV", FeastClass::Semidouble),
        ("simplex", FeastClass::Simple),
        ("simple", FeastClass::Simple),
        ("V", FeastClass::Simple),
        ("commemoratio", FeastClass::Commemoration),
        ("commemoration", FeastClass::Commemoration),
        ("com", FeastClass::Commemoration),
        ("VI", FeastClass::Commemoration),
    ] {
        assert_eq!(build(code, DayType::Feast), Ok(feast(class, false)));
    }
    for (code, rank) in [("I", 1), ("II", 2), ("III", 3)] {
        assert_eq!(build(code, DayType::Sunday), Ok(FeastRank54Inner::Sunday { rank }));
    }
    for (code, major) in [("major", true), ("I", true), ("minor", false), ("II", false)] {
        assert_eq!(build(code, DayType::Vigil), Ok(FeastRank54Inner::Vigil { major }));
    }
    for (code, kind) in [
        ("privileged1", OctaveType::Privileged1),
        ("I", OctaveType::Privileged1),
        ("privileged2", OctaveType::Privileged2),
        ("II", OctaveType::Privileged2),
        ("privileged3", OctaveType::Privileged3),
        ("III", OctaveType::Privileged3),
        ("common", OctaveType::Common),
        ("IV", OctaveType::Common),
        ("simple", OctaveType::Simple),
        ("V", OctaveType::Simple),
    ] {
        assert_eq!(build(code, DayType::Octave), Ok(octave(kind, false)));
    }
    // an unknown code is an error for every kind of day; case matters
    for kind in [DayType::Feria, DayType::Feast, DayType::Sunday, DayType::Vigil, DayType::Octave] {
        assert_eq!(build("VII", kind), Err(RankError::UnknownRank));
        assert_eq!(build("", kind), Err(RankError::UnknownRank));
        assert_eq!(build("i", kind), Err(RankError::UnknownRank));
    }
    assert_eq!(build("IV", DayType::Sunday), Err(RankError::UnknownRank));
    assert_eq!(build("III", DayType::Vigil), Err(RankError::UnknownRank));
}

#[test]
fn test_54_context_flags() {
    let context = LiturgicalContext::new()
        .season("Ember Days of September")
        .feast("Immaculate Conception; All Souls")
        .of_lent(true)
        .of_our_lord()
        .movable()
        .octave_day(true);
    assert_eq!(
        FeastRank54Inner::new_with_context("II", &DayType::Feria, &context),
        Ok(FeastRank54Inner::Feria { rank: 2, flags: FeriaFlags { of_lent: true, ember_day: true } })
    );
    assert_eq!(
        FeastRank54Inner::new_with_context("I", &DayType::Feast, &context),
        Ok(FeastRank54Inner::Feast {
            rank: FeastClass::FirstClassDouble,
            flags: FeastFlags { of_our_lord: true, immaculate_conception: true, movable: true, all_souls: true },
        })
    );
    assert_eq!(
        FeastRank54Inner::new_with_context("common", &DayType::Octave, &context),
        Ok(octave(OctaveType::Common, true))
    );
    // the names are read letter for letter
    let lower = LiturgicalContext::new().season("ember").feast("immaculate conception");
    assert_eq!(
        FeastRank54Inner::new_with_context("II", &DayType::Feria, &lower),
        Ok(FeastRank54Inner::Feria { rank: 2, flags: FeriaFlags { of_lent: false, ember_day: false } })
    );
    assert_eq!(
        FeastRank54Inner::new_with_context("I", &DayType::Feast, &lower),
        Ok(feast(FeastClass::FirstClassDouble, false))
    );
}

#[test]
fn test_54_rank_strings() {
    assert_eq!(feria(1).get_rank_string(), "Greater Privileged Feria");
    assert_eq!(feria(2).get_rank_string(), "Greater Non-Privileged Feria");
    assert_eq!(feria(3).get_rank_string(), "Ordinary Feria");
    assert_eq!(
        FeastRank54Inner::Feria { rank: 2, flags: FeriaFlags { of_lent: true, ember_day: true } }
            .get_rank_string(),
        "Greater Non-Privileged Feria of Lent Ember Day"
    );
    assert_eq!(
        FeastRank54Inner::Feria { rank: 3, flags: FeriaFlags { of_lent: false, ember_day: true } }
            .get_rank_string(),
        "Ordinary Feria Ember Day"
    );
    let names: Vec<String> = all_classes().iter().map(|c| feast(*c, true).get_rank_string()).collect();
    assert_eq!(
        names,
        vec![
            "First Class Double",
            "Second Class Double",
            "Major Double",
            "Double",
            "Semidouble",
            "Simple",
            "Commemoration"
        ]
    );
    assert_eq!(FeastRank54Inner::Vigil { major: true }.get_rank_string(), "Major Vigil");
    assert_eq!(FeastRank54Inner::Vigil { major: false }.get_rank_string(), "Minor Vigil");
    assert_eq!(FeastRank54Inner::Sunday { rank: 1 }.get_rank_string(), "Greater Sunday of the First Class");
    assert_eq!(FeastRank54Inner::Sunday { rank: 2 }.get_rank_string(), "Greater Sunday of the Second Class");
    assert_eq!(FeastRank54Inner::Sunday { rank: 3 }.get_rank_string(), "Lesser Sunday");
    assert_eq!(FeastRank54Inner::Sunday { rank: 4 }.get_rank_string(), "Unknown Sunday");
    assert_eq!(
        octave(OctaveType::Privileged1, true).get_rank_string(),
        "Octave Day of a Privileged 1st Class Octave"
    );
    assert_eq!(
        octave(OctaveType::Privileged2, false).get_rank_string(),
        "Day within a Privileged 2nd Class Octave"
    );
    assert_eq!(
        octave(OctaveType::Privileged3, true).get_rank_string(),
        "Octave Day of a Privileged 3rd Class Octave"
    );
    assert_eq!(octave(OctaveType::Common, true).get_rank_string(), "Major Double");
    assert_eq!(octave(OctaveType::Common, false).get_rank_string(), "Day within a Common Octave");
    assert_eq!(octave(OctaveType::Simple, true).get_rank_string(), "Simple");
    assert_eq!(octave(OctaveType::Simple, false).get_rank_string(), "Day within a Simple Octave");
}

#[test]
fn test_54_can_commemorate() {
    for class in all_classes() {
        assert_eq!(can_commemorate_1954(&feast(class, false)), class.to_number() > 4);
    }
    assert!(!can_commemorate_1954(&FeastRank54Inner::Sunday { rank: 1 }));
    assert!(!can_commemorate_1954(&FeastRank54Inner::Sunday { rank: 2 }));
    assert!(can_commemorate_1954(&FeastRank54Inner::Sunday { rank: 3 }));
    assert!(!can_commemorate_1954(&octave(OctaveType::Simple, false)));
    assert!(!can_commemorate_1954(&feria(1)));
    assert!(can_commemorate_1954(&feria(2)));
    assert!(can_commemorate_1954(&FeastRank54Inner::Vigil { major: true }));
}

#[test]
fn test_54_trait_answers() {
    assert_eq!(FeastRank54::get_bvm_on_saturday_rank(), Some(FeastRank54(feria(3))));
    assert!(matches!(FeastRank54(feria(3)).admits_bvm_on_saturday(), BVMOnSaturdayResult::Admitted));
    assert!(matches!(FeastRank54(feria(2)).admits_bvm_on_saturday(), BVMOnSaturdayResult::NotAdmitted));
    assert!(matches!(
        FeastRank54(feast(FeastClass::Simple, false)).admits_bvm_on_saturday(),
        BVMOnSaturdayResult::Commemorated
    ));
    assert!(matches!(
        FeastRank54(feast(FeastClass::Semidouble, false)).admits_bvm_on_saturday(),
        BVMOnSaturdayResult::NotAdmitted
    ));
    assert!(FeastRank54(feast(FeastClass::FirstClassDouble, false)).is_high_festial());
    assert!(FeastRank54(feast(FeastClass::SecondClassDouble, false)).is_high_festial());
    assert!(!FeastRank54(feast(FeastClass::MajorDouble, false)).is_high_festial());
    assert!(FeastRank54(octave(OctaveType::Privileged1, false)).is_high_festial());
    assert!(!FeastRank54(octave(OctaveType::Privileged2, true)).is_high_festial());
    assert!(FeastRank54(feria(1)).is_ferial_or_sunday_rank());
    assert!(FeastRank54(FeastRank54Inner::Sunday { rank: 1 }).is_ferial_or_sunday_rank());
    assert!(!FeastRank54(octave(OctaveType::Common, true)).is_ferial_or_sunday_rank());
    assert_eq!(FeastRank54(feria(3)).get_rank_string(), "Ordinary Feria");
}

#[test]
fn test_54_occurrence_mirrors_where_one_rule_decides() {
    // over all ranks with small classes: the two orders mirror each other exactly where
    // the table does not hold a rule of its own for each order that disagrees
    let mut ranks: Vec<FeastRank54Inner> = Vec::new();
    for rank in 0..5u8 {
        ranks.push(FeastRank54Inner::Sunday { rank });
        ranks.push(feria(rank));
        ranks.push(FeastRank54Inner::Feria { rank, flags: FeriaFlags { of_lent: false, ember_day: true } });
    }
    for class in all_classes() {
        ranks.push(feast(class, false));
        ranks.push(feast(class, true));
    }
    for kind in all_octaves() {
        ranks.push(octave(kind, false));
        ranks.push(octave(kind, true));
    }
    ranks.push(FeastRank54Inner::Vigil { major: true });
    ranks.push(FeastRank54Inner::Vigil { major: false });
    let mut disagreeing = 0;
    for a in &ranks {
        for b in &ranks {
            let forward = a.resolve_occurrence(b, true);
            let backward = b.resolve_occurrence(a, true);
            let own_forward = a.resolve_occurrence(b, false);
            let own_backward = b.resolve_occurrence(a, false);
            if backward != forward.map(|o| o.reverse()) {
                // each order then follows a rule of its own
                assert_eq!(forward, own_forward);
                assert_eq!(backward, own_backward);
                disagreeing += 1;
            }
        }
    }
    assert!(disagreeing > 0);
    let first = feast(FeastClass::FirstClassDouble, false);
    assert_eq!(first.resolve_occurrence(&first, true), Ok(OccurrenceResult::SecondTransferOfFirst));
}
