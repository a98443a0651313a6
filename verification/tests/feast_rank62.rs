use liturgy::day_type::DayType;
use liturgy::feast_rank::feast_rank62::{
    FeastFlags, FeastRank62, FeastRank62Inner, FeriaFlags, OccurrenceResult,
};
use liturgy::feast_rank::feast_rank62::OccurrenceResult::{
    FirstCommemorationOfSecondAtLauds, FirstCommemorationOfSecondAtLaudsAndVespers,
    FirstNothingOfSecond, FirstTransferOfSecond, SecondCommemorationOfFirstAtLauds,
    SecondCommemorationOfFirstAtLaudsAndVespers, SecondNothingOfFirst, SecondTransferOfFirst,
};
use liturgy::feast_rank::{
    resolve_competitors, BVMOnSaturdayResult, FeastRank, LiturgicalContext, OccurrenceError,
    RankError, ResolveError,
};

fn create_feast(rank: u8, of_our_lord: bool) -> FeastRank62Inner {
    let mut flags = FeastFlags::empty();
    if of_our_lord {
        flags.of_our_lord = true;
    }
    FeastRank62Inner::Feast { rank, flags }
}

fn create_feria(rank: u8, of_lent: bool) -> FeastRank62Inner {
    let mut flags = FeriaFlags::empty();
    if of_lent {
        flags.of_lent = true;
    }
    FeastRank62Inner::Feria { rank, flags }
}

fn create_ember_day(rank: u8) -> FeastRank62Inner {
    let mut flags = FeriaFlags::empty();
    flags.ember_day = true;
    FeastRank62Inner::Feria { rank, flags }
}

fn create_sunday(rank: u8) -> FeastRank62Inner {
    FeastRank62Inner::Sunday { rank }
}

fn create_vigil(rank: u8) -> FeastRank62Inner {
    FeastRank62Inner::Vigil { rank }
}

fn create_octave(rank: u8) -> FeastRank62Inner {
    FeastRank62Inner::Octave { rank }
}

fn named(rank: FeastRank62Inner, name: &str) -> (FeastRank62Inner, String) {
    (rank, name.to_string())
}

#[test]
fn test_feast_vs_feast_combinations() {
    let cases = [
        (1, 2, FirstNothingOfSecond),
        (1, 3, FirstNothingOfSecond),
        (1, 4, FirstNothingOfSecond),
        (2, 1, SecondNothingOfFirst),
        (3, 1, SecondNothingOfFirst),
        (4, 1, SecondNothingOfFirst),
        (2, 3, FirstCommemorationOfSecondAtLauds),
        (2, 4, FirstCommemorationOfSecondAtLauds),
        (3, 4, FirstCommemorationOfSecondAtLauds),
        (3, 2, SecondCommemorationOfFirstAtLauds),
        (4, 2, SecondCommemorationOfFirstAtLauds),
        (4, 3, SecondCommemorationOfFirstAtLauds),
    ];
    for (rank1, rank2, expected) in cases {
        let feast1 = create_feast(rank1, false);
        let feast2 = create_feast(rank2, false);
        assert_eq!(feast1.resolve_occurrence(&feast2, true).unwrap(), expected);
    }
}

#[test]
fn test_feast_vs_sunday_combinations() {
    let cases = [
        (1, false, 1, SecondTransferOfFirst),
        (1, false, 2, FirstCommemorationOfSecondAtLaudsAndVespers),
        (2, false, 1, SecondNothingOfFirst),
        (2, false, 2, SecondCommemorationOfFirstAtLauds),
        (3, false, 1, SecondNothingOfFirst),
        (3, false, 2, SecondNothingOfFirst),
        (1, true, 1, FirstNothingOfSecond),
        (1, true, 2, FirstNothingOfSecond),
        (2, true, 1, FirstNothingOfSecond),
        (2, true, 2, FirstNothingOfSecond),
    ];
    for (feast_rank, of_our_lord, sunday_rank, expected) in cases {
        let feast = create_feast(feast_rank, of_our_lord);
        let sunday = create_sunday(sunday_rank);
        assert_eq!(feast.resolve_occurrence(&sunday, true).unwrap(), expected);
    }
}

#[test]
fn test_feast_vs_vigil_combinations() {
    let cases = [
        (1, 1, SecondTransferOfFirst),
        (1, 2, FirstNothingOfSecond),
        (2, 1, SecondNothingOfFirst),
        (2, 2, FirstCommemorationOfSecondAtLauds),
        (3, 1, SecondNothingOfFirst),
        (3, 2, SecondCommemorationOfFirstAtLauds),
    ];
    for (feast_rank, vigil_rank, expected) in cases {
        let feast = create_feast(feast_rank, false);
        let vigil = create_vigil(vigil_rank);
        assert_eq!(feast.resolve_occurrence(&vigil, true).unwrap(), expected);
    }
}

#[test]
fn test_feast_vs_feria_combinations() {
    let cases = [
        (1, 1, false, SecondTransferOfFirst),
        (1, 2, false, FirstCommemorationOfSecondAtLaudsAndVespers),
        (1, 3, false, FirstCommemorationOfSecondAtLaudsAndVespers),
        (1, 3, true, FirstCommemorationOfSecondAtLaudsAndVespers),
        (2, 1, false, SecondNothingOfFirst),
        (2, 2, false, FirstCommemorationOfSecondAtLauds),
        (2, 3, true, FirstCommemorationOfSecondAtLaudsAndVespers),
        (3, 1, false, SecondNothingOfFirst),
        (3, 2, false, SecondCommemorationOfFirstAtLauds),
        (3, 3, true, SecondCommemorationOfFirstAtLauds),
        (3, 3, false, FirstCommemorationOfSecondAtLaudsAndVespers),
    ];
    for (feast_rank, feria_rank, of_lent, expected) in cases {
        let feast = create_feast(feast_rank, false);
        let feria = create_feria(feria_rank, of_lent);
        assert_eq!(feast.resolve_occurrence(&feria, true).unwrap(), expected);
    }
}

#[test]
fn test_vigil_vs_sunday_combinations() {
    for vigil_rank in [2, 3] {
        let vigil = create_vigil(vigil_rank);
        let sunday = create_sunday(2);
        assert_eq!(
            vigil.resolve_occurrence(&sunday, true).unwrap(),
            OccurrenceResult::SecondNothingOfFirst
        );
    }
}

#[test]
fn test_vigil_vs_vigil_combinations() {
    assert_eq!(
        create_vigil(1).resolve_occurrence(&create_vigil(2), true).unwrap(),
        OccurrenceResult::FirstNothingOfSecond
    );
    assert_eq!(
        create_vigil(2).resolve_occurrence(&create_vigil(1), true).unwrap(),
        OccurrenceResult::SecondNothingOfFirst
    );
}

#[test]
fn test_sunday_vs_sunday_combinations() {
    assert_eq!(
        create_sunday(1).resolve_occurrence(&create_sunday(2), true).unwrap(),
        OccurrenceResult::FirstNothingOfSecond
    );
    assert_eq!(
        create_sunday(2).resolve_occurrence(&create_sunday(1), true).unwrap(),
        OccurrenceResult::SecondNothingOfFirst
    );
}

#[test]
fn test_feria_vs_feria_combinations() {
    assert_eq!(
        create_feria(1, false).resolve_occurrence(&create_feria(2, false), true).unwrap(),
        OccurrenceResult::FirstNothingOfSecond
    );
    assert_eq!(
        create_feria(2, false).resolve_occurrence(&create_feria(1, false), true).unwrap(),
        OccurrenceResult::SecondNothingOfFirst
    );
}

#[test]
fn test_ember_day_vs_feria_combinations() {
    for rank in [2, 3] {
        let ember_day = create_ember_day(rank);
        let feria = create_feria(rank, false);
        assert_eq!(
            ember_day.resolve_occurrence(&feria, true).unwrap(),
            OccurrenceResult::FirstNothingOfSecond
        );
    }
}

#[test]
fn test_feria_vs_ember_day_combinations() {
    for rank in [2, 3] {
        let feria = create_feria(rank, false);
        let ember_day = create_ember_day(rank);
        assert_eq!(
            feria.resolve_occurrence(&ember_day, true).unwrap(),
            OccurrenceResult::SecondNothingOfFirst
        );
    }
}

#[test]
fn test_vigil_vs_vigil_same_rank_error() {
    let vigil1 = create_vigil(1);
    let vigil2 = create_vigil(1);

    assert!(vigil1.resolve_occurrence(&vigil2, true).is_err());
}

#[test]
fn test_sunday_vs_sunday_same_rank_error() {
    let sunday1 = create_sunday(1);
    let sunday2 = create_sunday(1);

    assert!(sunday1.resolve_occurrence(&sunday2, true).is_err());
}

#[test]
fn test_feria_vs_feria_same_rank_error() {
    let feria1 = create_feria(1, false);
    let feria2 = create_feria(1, false);

    assert!(feria1.resolve_occurrence(&feria2, true).is_err());
}

#[test]
fn test_same_rank_errors_are_told_apart() {
    assert_eq!(
        create_feria(1, false).resolve_occurrence(&create_feria(1, false), true),
        Err(OccurrenceError::EqualFerias)
    );
    assert_eq!(
        create_octave(2).resolve_occurrence(&create_octave(2), true),
        Err(OccurrenceError::EqualOctaves)
    );
    assert_eq!(
        create_sunday(1).resolve_occurrence(&create_sunday(1), true),
        Err(OccurrenceError::EqualRank)
    );
    assert_eq!(
        create_feast(3, false).resolve_occurrence(&create_feast(3, true), true),
        Err(OccurrenceError::EqualRank)
    );
}

#[test]
fn test_swapping_logic() {
    let feast1 = create_feast(1, false);
    let feast2 = create_feast(2, false);

    // Test that swapping gives the reverse result
    let result1 = feast1.resolve_occurrence(&feast2, true).unwrap();
    let result2 = feast2.resolve_occurrence(&feast1, true).unwrap();

    assert_eq!(result1, OccurrenceResult::FirstNothingOfSecond);
    assert_eq!(result2, OccurrenceResult::SecondNothingOfFirst);
}

#[test]
fn test_feast_vs_octave() {
    let feast1 = create_feast(1, false);
    let octave2 = create_octave(2);
    assert_eq!(
        feast1.resolve_occurrence(&octave2, true).unwrap(),
        OccurrenceResult::FirstNothingOfSecond
    );

    let feast2 = create_feast(2, false);
    let octave1 = create_octave(1);
    assert_eq!(
        feast2.resolve_occurrence(&octave1, true).unwrap(),
        OccurrenceResult::SecondNothingOfFirst
    );

    let feast3 = create_feast(3, false);
    let octave2 = create_octave(2);
    assert_eq!(
        feast3.resolve_occurrence(&octave2, true).unwrap(),
        OccurrenceResult::SecondCommemorationOfFirstAtLauds
    );
}

#[test]
fn test_vigil_vs_octave() {
    let vigil1 = create_vigil(1);
    let octave2 = create_octave(2);
    assert_eq!(
        vigil1.resolve_occurrence(&octave2, true).unwrap(),
        OccurrenceResult::FirstNothingOfSecond
    );

    let vigil2 = create_vigil(2);
    let octave1 = create_octave(1);
    assert_eq!(
        vigil2.resolve_occurrence(&octave1, true).unwrap(),
        OccurrenceResult::SecondNothingOfFirst
    );
}

#[test]
fn test_octave_vs_feria() {
    let octave1 = create_octave(1);
    let feria2 = create_feria(2, false);
    assert_eq!(
        octave1.resolve_occurrence(&feria2, true).unwrap(),
        OccurrenceResult::FirstNothingOfSecond
    );

    let octave3 = create_octave(3);
    let feria1 = create_feria(1, true); // Lenten feria has higher precedence
    assert_eq!(
        octave3.resolve_occurrence(&feria1, true).unwrap(),
        OccurrenceResult::SecondNothingOfFirst
    );
}

#[test]
fn test_octave_vs_sunday() {
    let octave1 = create_octave(1);
    let sunday2 = create_sunday(2);
    assert_eq!(
        octave1.resolve_occurrence(&sunday2, true).unwrap(),
        OccurrenceResult::FirstNothingOfSecond
    );

    let octave2 = create_octave(2);
    let sunday1 = create_sunday(1);
    assert_eq!(
        octave2.resolve_occurrence(&sunday1, true).unwrap(),
        OccurrenceResult::SecondNothingOfFirst
    );
}

#[test]
fn test_octave_vs_octave() {
    let octave1 = create_octave(1);
    let octave2 = create_octave(2);
    assert_eq!(
        octave1.resolve_occurrence(&octave2, true).unwrap(),
        OccurrenceResult::FirstNothingOfSecond
    );

    let octave2_again = create_octave(2);
    let octave1_again = create_octave(1);
    assert_eq!(
        octave2_again.resolve_occurrence(&octave1_again, true).unwrap(),
        OccurrenceResult::SecondNothingOfFirst
    );
}

#[test]
fn test_resolve_conflicts_single_feast() {
    let competitors = vec![(create_feast(1, false), "Christmas".to_string())];
    let result = FeastRank62Inner::resolve_conflicts(&competitors).unwrap();

    assert_eq!(result.winner, "Christmas");
    assert_eq!(result.transferred, None);
    assert_eq!(result.commemorations.len(), 0);
}

#[test]
fn test_resolve_conflicts_rank_order() {
    let competitors = vec![
        (create_feast(3, false), "Third Class Feast".to_string()),
        (create_feast(1, false), "First Class Feast".to_string()),
        (create_feast(2, false), "Second Class Feast".to_string()),
    ];
    let result = FeastRank62Inner::resolve_conflicts(&competitors).unwrap();

    assert_eq!(result.winner, "First Class Feast");
}

#[test]
fn test_resolve_conflicts_commemorations() {
    let competitors = vec![
        (create_feast(4, false), "Commemoration".to_string()),
        (create_feast(1, false), "Major Feast".to_string()),
    ];
    let result = FeastRank62Inner::resolve_conflicts(&competitors).unwrap();

    assert_eq!(result.winner, "Major Feast");
    assert!(result.commemorations.contains(&"Commemoration".to_string()));
}

#[test]
fn test_resolve_conflicts_with_transfer() {
    let competitors = vec![
        (create_feast(1, false), "High Feast".to_string()),
        (create_feria(1, false), "High Feria".to_string()),
    ];
    let result = FeastRank62Inner::resolve_conflicts(&competitors).unwrap();

    // Based on the actual occurrence resolution: feria beats feast and feast is transferred
    assert_eq!(result.winner, "High Feria");
    assert_eq!(
        result.transferred,
        Some((FeastRank62(create_feast(1, false)), "High Feast".to_string()))
    );
}

#[test]
fn test_resolve_conflicts_commemoration_result() {
    let competitors = vec![
        (create_feast(2, false), "Second Class Feast".to_string()),
        (create_feast(3, false), "Third Class Feast".to_string()),
    ];
    let result = FeastRank62Inner::resolve_conflicts(&competitors).unwrap();

    assert_eq!(result.winner, "Second Class Feast");
    assert!(result.commemorations.contains(&"Third Class Feast".to_string()));
}

#[test]
fn test_resolve_conflicts_our_lord_feast_vs_sunday() {
    let competitors = vec![
        (create_feast(1, true), "Our Lord Feast".to_string()),
        (create_sunday(1), "Major Sunday".to_string()),
    ];
    let result = FeastRank62Inner::resolve_conflicts(&competitors).unwrap();

    assert_eq!(result.winner, "Our Lord Feast");
    // Our Lord feast beats any sunday
}

#[test]
fn test_resolve_conflicts_multiple_commemorations() {
    let competitors = vec![
        (create_feast(1, false), "Major Feast".to_string()),
        (create_feast(4, false), "Commemoration 1".to_string()),
        (create_feast(4, false), "Commemoration 2".to_string()),
        (create_feast(3, false), "Minor Feast".to_string()),
    ];
    let result = FeastRank62Inner::resolve_conflicts(&competitors).unwrap();

    assert_eq!(result.winner, "Major Feast");
    assert!(result.commemorations.contains(&"Commemoration 1".to_string()));
    assert!(result.commemorations.contains(&"Commemoration 2".to_string()));
    assert_eq!(result.commemorations.len(), 2); // Only rank 4 commemorations
}

#[test]
fn test_resolve_conflicts_complex_scenario() {
    let competitors = vec![
        (create_feria(3, true), "Lenten Feria".to_string()),
        (create_feast(2, false), "Second Class Feast".to_string()),
        (create_feast(4, false), "Commemoration".to_string()),
        (create_vigil(2), "Vigil".to_string()),
    ];
    let result = FeastRank62Inner::resolve_conflicts(&competitors).unwrap();

    assert_eq!(result.winner, "Second Class Feast");
}

#[test]
fn test_resolve_conflicts_single_winner() {
    let singles = [
        create_feast(1, false),
        create_feast(2, false),
        create_feast(3, false),
        create_sunday(1),
        create_feria(1, false),
        create_vigil(1),
    ];
    for rank in singles {
        let result = FeastRank62Inner::resolve_conflicts(&[named(rank, "Winner")]).unwrap();
        assert_eq!(result.winner, "Winner");
        assert_eq!(result.winner_rank, FeastRank62(rank));
        assert!(result.commemorations.is_empty());
        assert!(result.transferred.is_none());
    }
}

#[test]
fn test_resolve_conflicts_rank_winners() {
    let cases = [
        (vec![named(create_feast(2, false), "Second"), named(create_feast(1, false), "First")], "First"),
        (vec![named(create_feast(3, false), "Third"), named(create_feast(1, false), "First")], "First"),
        (vec![named(create_feast(3, false), "Third"), named(create_feast(2, false), "Second")], "Second"),
        (vec![named(create_sunday(2), "Lesser"), named(create_sunday(1), "Major")], "Major"),
        (vec![named(create_feria(3, false), "Low"), named(create_feria(1, false), "High")], "High"),
    ];
    for (competitors, expected) in cases {
        let result = FeastRank62Inner::resolve_conflicts(&competitors).unwrap();
        assert_eq!(result.winner, expected);
    }
}

#[test]
fn test_resolve_conflicts_our_lord_winners() {
    let cases = [
        vec![named(create_sunday(1), "Major Sunday"), named(create_feast(1, true), "Our Lord")],
        vec![named(create_sunday(2), "Lesser Sunday"), named(create_feast(1, true), "Our Lord")],
        vec![named(create_sunday(1), "Major Sunday"), named(create_feast(2, true), "Our Lord")],
    ];
    for competitors in cases {
        let result = FeastRank62Inner::resolve_conflicts(&competitors).unwrap();
        assert_eq!(result.winner, "Our Lord");
    }
}

#[test]
fn test_resolve_conflicts_transfers() {
    let cases = [
        vec![named(create_feast(1, false), "Feast"), named(create_feria(1, false), "Feria")],
        vec![named(create_feast(1, false), "Feast"), named(create_sunday(1), "Sunday")],
        vec![named(create_feast(1, false), "Feast"), named(create_vigil(1), "Vigil")],
    ];
    for competitors in cases {
        let result = FeastRank62Inner::resolve_conflicts(&competitors).unwrap();
        assert_eq!(result.transferred.map(|(_, name)| name), Some("Feast".to_string()));
    }
}

#[test]
fn test_resolve_conflicts_commemoration_counts() {
    let cases = [
        (vec![named(create_feast(1, false), "Major"), named(create_feast(4, false), "Comm")], 1),
        (
            vec![
                named(create_feast(1, false), "Major"),
                named(create_feast(4, false), "Comm1"),
                named(create_feast(4, false), "Comm2"),
            ],
            2,
        ),
        (vec![named(create_feast(1, false), "Major"), named(create_feast(2, false), "Second")], 0),
        (vec![named(create_feast(1, false), "Major"), named(create_feast(3, false), "Third")], 0),
        (vec![named(create_feast(2, false), "Second"), named(create_feast(3, false), "Third")], 1),
    ];
    for (competitors, expected) in cases {
        let result = FeastRank62Inner::resolve_conflicts(&competitors).unwrap();
        assert_eq!(result.commemorations.len(), expected);
    }
}

#[test]
fn test_resolve_conflicts_complex_scenarios() {
    let result = FeastRank62Inner::resolve_conflicts(&[
        named(create_feast(4, false), "Comm1"),
        named(create_feast(1, false), "Major"),
        named(create_feast(4, false), "Comm2"),
        named(create_feast(3, false), "Third"),
    ])
    .unwrap();
    assert_eq!((result.winner, result.commemorations.len()), ("Major".to_string(), 2));

    let result = FeastRank62Inner::resolve_conflicts(&[
        named(create_feria(3, true), "Lenten Feria"),
        named(create_feast(2, false), "Second Class"),
        named(create_vigil(3), "Vigil"),
    ])
    .unwrap();
    assert_eq!((result.winner, result.commemorations.len()), ("Second Class".to_string(), 1));

    let result = FeastRank62Inner::resolve_conflicts(&[
        named(create_sunday(1), "Major Sunday"),
        named(create_feast(1, true), "Our Lord Feast"),
    ])
    .unwrap();
    assert_eq!((result.winner, result.commemorations.len()), ("Our Lord Feast".to_string(), 0));
}

#[test]
fn test_resolve_conflicts_commemorations_in_order() {
    // the commemorations that the comparisons make come first, then those of the
    // fourth class, each group in the order of the classes
    let result = FeastRank62Inner::resolve_conflicts(&[
        named(create_feast(4, false), "Comm1"),
        named(create_feast(3, false), "Third"),
        named(create_feast(4, false), "Comm2"),
        named(create_feast(2, false), "Second"),
    ])
    .unwrap();
    assert_eq!(result.winner, "Second");
    assert_eq!(result.commemorations, vec!["Third", "Comm1", "Comm2"]);
}

#[test]
fn test_resolve_conflicts_compares_with_the_first() {
    // every competitor meets the first of the ordered list, also after the winner changed:
    // the Sunday takes the day from the feast, and the vigil is still compared with the feast
    let result = FeastRank62Inner::resolve_conflicts(&[
        named(create_feast(2, false), "Feast"),
        named(create_sunday(2), "Sunday"),
        named(create_vigil(2), "Vigil"),
    ])
    .unwrap();
    assert_eq!(result.winner, "Sunday");
    assert_eq!(result.commemorations, vec!["Feast", "Vigil"]);
}

#[test]
fn test_resolve_conflicts_keeps_no_commemoration_beside_a_sunday() {
    let result = FeastRank62Inner::resolve_conflicts(&[
        named(create_sunday(1), "Sunday"),
        named(create_feast(4, false), "Comm"),
    ])
    .unwrap();
    assert_eq!(result.winner, "Sunday");
    assert!(result.commemorations.is_empty());

    let mut movable = FeastFlags::empty();
    movable.movable = true;
    let result = FeastRank62Inner::resolve_conflicts(&[
        named(FeastRank62Inner::Feast { rank: 1, flags: movable }, "Movable"),
        named(create_feast(4, false), "Comm"),
    ])
    .unwrap();
    assert!(result.commemorations.is_empty());
}

#[test]
fn test_resolve_conflicts_errors() {
    let none: Vec<(FeastRank62Inner, String)> = vec![];
    assert_eq!(
        FeastRank62Inner::resolve_conflicts(&none).err(),
        Some(ResolveError::NoCompetitors)
    );
    assert_eq!(
        FeastRank62Inner::resolve_conflicts(&[named(create_feast(4, false), "Comm")]).err(),
        Some(ResolveError::OnlyCommemorations)
    );
    // two ferias of one class: the pair is named by its places in the list
    assert_eq!(
        FeastRank62Inner::resolve_conflicts(&[
            named(create_feria(2, false), "Feria 1"),
            named(create_feria(2, false), "Feria 2"),
        ])
        .err(),
        Some(ResolveError::Unresolved { first: 0, second: 1 })
    );
    // the pair is named by its places in the list as it was given
    assert_eq!(
        FeastRank62Inner::resolve_conflicts(&[
            named(create_vigil(3), "Vigil"),
            named(create_feast(4, false), "Comm"),
            named(create_sunday(3), "Sunday"),
            named(create_feast(1, false), "Feast"),
        ])
        .map(|r| r.winner),
        Ok("Feast".to_string())
    );
    assert_eq!(
        FeastRank62Inner::resolve_conflicts(&[
            named(create_vigil(3), "Vigil"),
            named(create_feast(4, false), "Comm"),
            named(create_sunday(3), "Sunday"),
        ])
        .err(),
        Some(ResolveError::Unresolved { first: 0, second: 2 })
    );
}

#[test]
fn test_resolve_competitors_of_wrapped_ranks() {
    let competitors = vec![
        (FeastRank62(create_feast(3, false)), 30u32),
        (FeastRank62(create_feast(2, false)), 20u32),
    ];
    let result = resolve_competitors(&competitors).unwrap();
    assert_eq!(result.winner, 20);
    assert_eq!(result.winner_rank, FeastRank62(create_feast(2, false)));
    assert_eq!(result.commemorations, vec![30]);
    let result = FeastRank62::resolve_conflicts(&competitors).unwrap();
    assert_eq!(result.winner, 20);
}

#[test]
fn test_parse_rank_string_unknown() {
    assert_eq!(FeastRank62Inner::parse_rank_string("INVALID"), Err(RankError::UnknownRank));
    assert_eq!(FeastRank62Inner::parse_rank_string(""), Err(RankError::UnknownRank));
    assert_eq!(FeastRank62Inner::parse_rank_string("ii"), Ok(2));
    assert_eq!(FeastRank62Inner::parse_rank_string("iv"), Ok(4));
    assert_eq!(FeastRank62Inner::parse_rank_string("comm."), Ok(4));
    assert_eq!(FeastRank62Inner::parse_rank_string("Commemoratio"), Ok(4));
    assert_eq!(
        FeastRank62Inner::new_with_context("V", &DayType::Feast, &LiturgicalContext::new()),
        Err(RankError::UnknownRank)
    );
}

#[test]
fn test_get_rank_string_all_variants() {
    // Test all rank string variants for complete coverage
    assert_eq!(create_feast(1, false).get_rank_string(), "I");
    assert_eq!(create_feast(2, false).get_rank_string(), "II");
    assert_eq!(create_feast(3, false).get_rank_string(), "III");
    assert_eq!(create_feast(4, false).get_rank_string(), "Comm.");
    assert_eq!(create_feast(99, false).get_rank_string(), "III"); // default case

    assert_eq!(create_feria(1, false).get_rank_string(), "I");
    assert_eq!(create_feria(2, false).get_rank_string(), "II");
    assert_eq!(create_feria(3, false).get_rank_string(), "III");
    assert_eq!(create_feria(99, false).get_rank_string(), "III"); // default case

    assert_eq!(create_sunday(1).get_rank_string(), "I");
    assert_eq!(create_sunday(2).get_rank_string(), "II");
    assert_eq!(create_sunday(99).get_rank_string(), "III"); // default case

    assert_eq!(create_vigil(1).get_rank_string(), "I");
    assert_eq!(create_vigil(2).get_rank_string(), "II");
    assert_eq!(create_vigil(99).get_rank_string(), "III"); // default case

    assert_eq!(FeastRank62Inner::Octave { rank: 1 }.get_rank_string(), "I");
    assert_eq!(FeastRank62Inner::Octave { rank: 99 }.get_rank_string(), "III"); // default case
}

#[test]
fn test_get_day_type_all_variants() {
    assert_eq!(create_feria(1, false).get_day_type(), DayType::Feria);
    assert_eq!(create_feast(1, false).get_day_type(), DayType::Feast);
    assert_eq!(create_sunday(1).get_day_type(), DayType::Sunday);
    assert_eq!(create_vigil(1).get_day_type(), DayType::Vigil);
    assert_eq!(FeastRank62Inner::Octave { rank: 1 }.get_day_type(), DayType::Octave);
}

#[test]
fn test_is_of_our_lord_all_variants() {
    // Only feasts can be "of our lord"
    assert!(create_feast(1, true).is_of_our_lord());
    assert!(!create_feast(1, false).is_of_our_lord());

    // Other types are never "of our lord"
    assert!(!create_feria(1, false).is_of_our_lord());
    assert!(!create_sunday(1).is_of_our_lord());
    assert!(!create_vigil(1).is_of_our_lord());
    assert!(!FeastRank62Inner::Octave { rank: 1 }.is_of_our_lord());
}

#[test]
fn test_get_numeric_rank_all_variants() {
    assert_eq!(create_feast(2, false).get_numeric_rank(), 2);
    assert_eq!(create_feria(3, false).get_numeric_rank(), 3);
    assert_eq!(create_sunday(1).get_numeric_rank(), 1);
    assert_eq!(create_vigil(2).get_numeric_rank(), 2);
    assert_eq!(FeastRank62Inner::Octave { rank: 1 }.get_numeric_rank(), 1);
}

#[test]
fn test_new_with_context_all_paths() {
    let context = LiturgicalContext::new();

    // Test all rank strings to cover parse_rank_string completely
    let rank_i = FeastRank62Inner::new_with_context("I", &DayType::Feast, &context).unwrap();
    assert_eq!(rank_i.get_numeric_rank(), 1);

    let rank_ii = FeastRank62Inner::new_with_context("II", &DayType::Feast, &context).unwrap();
    assert_eq!(rank_ii.get_numeric_rank(), 2);

    let rank_iii = FeastRank62Inner::new_with_context("III", &DayType::Feast, &context).unwrap();
    assert_eq!(rank_iii.get_numeric_rank(), 3);

    let rank_comm = FeastRank62Inner::new_with_context("Comm.", &DayType::Feast, &context).unwrap();
    assert_eq!(rank_comm.get_numeric_rank(), 4);
}

#[test]
fn test_new_with_context_flags() {
    let context = LiturgicalContext::new()
        .feast("The Immaculate Conception of the BVM")
        .of_our_lord()
        .movable();
    assert_eq!(
        FeastRank62Inner::new_with_context("i", &DayType::Feast, &context).unwrap(),
        FeastRank62Inner::Feast {
            rank: 1,
            flags: FeastFlags {
                of_our_lord: true,
                immaculate_conception: true,
                movable: true,
                all_souls: false,
            },
        }
    );
    let context = LiturgicalContext::new().feast("All Souls").of_lent(true);
    assert_eq!(
        FeastRank62Inner::new_with_context("III", &DayType::Feast, &context).unwrap(),
        FeastRank62Inner::Feast {
            rank: 3,
            flags: FeastFlags {
                of_our_lord: false,
                immaculate_conception: false,
                movable: false,
                all_souls: true,
            },
        }
    );
    assert_eq!(
        FeastRank62Inner::new_with_context("II", &DayType::Feria, &context).unwrap(),
        FeastRank62Inner::Feria { rank: 2, flags: FeriaFlags { of_lent: true, ember_day: false } }
    );
    assert_eq!(
        FeastRank62Inner::new_with_context("I", &DayType::Sunday, &context).unwrap(),
        create_sunday(1)
    );
}

#[test]
fn test_swapping_logic_all_cases() {
    // Test swapping by creating swappable results and using the match logic
    let result1 = OccurrenceResult::FirstCommemorationOfSecondAtLaudsAndVespers;
    let result2 = OccurrenceResult::FirstCommemorationOfSecondAtLauds;
    let result3 = OccurrenceResult::SecondCommemorationOfFirstAtLaudsAndVespers;
    let result4 = OccurrenceResult::SecondCommemorationOfFirstAtLauds;
    let result5 = OccurrenceResult::FirstTransferOfSecond;

    // Test that these variants exist and can be matched
    match result1 {
        OccurrenceResult::FirstCommemorationOfSecondAtLaudsAndVespers => assert!(true),
        _ => assert!(false),
    }

    match result2 {
        OccurrenceResult::FirstCommemorationOfSecondAtLauds => assert!(true),
        _ => assert!(false),
    }

    match result3 {
        OccurrenceResult::SecondCommemorationOfFirstAtLaudsAndVespers => assert!(true),
        _ => assert!(false),
    }

    match result4 {
        OccurrenceResult::SecondCommemorationOfFirstAtLauds => assert!(true),
        _ => assert!(false),
    }

    match result5 {
        OccurrenceResult::FirstTransferOfSecond => assert!(true),
        _ => assert!(false),
    }
}

#[test]
fn test_reverse_all_outcomes() {
    let pairs = [
        (FirstNothingOfSecond, SecondNothingOfFirst),
        (FirstCommemorationOfSecondAtLaudsAndVespers, SecondCommemorationOfFirstAtLaudsAndVespers),
        (FirstCommemorationOfSecondAtLauds, SecondCommemorationOfFirstAtLauds),
        (FirstTransferOfSecond, SecondTransferOfFirst),
    ];
    for (a, b) in pairs {
        assert_eq!(a.reverse(), b);
        assert_eq!(b.reverse(), a);
    }
}

#[test]
fn test_additional_uncovered_logic() {
    // Test to hit the uncovered lines in the code
    let context = LiturgicalContext {
        season_name: Some("Test Season".to_string()),
        feast_name: Some("Test Feast".to_string()),
        is_movable: false,
        of_our_lord: false,
        of_lent: false,
        secondary_day_type: None,
        is_octave_day: false,
    };

    // Create ranks that will exercise various code paths using valid rank strings
    let rank1 = FeastRank62Inner::new_with_context("II", &DayType::Vigil, &context).unwrap();
    let rank2 = FeastRank62Inner::new_with_context("III", &DayType::Octave, &context).unwrap();

    // This should exercise some of the uncovered match arms and default cases
    let result1 = rank1.get_rank_string();
    let result2 = rank2.get_rank_string();

    // These should be valid rank strings
    assert!(!result1.is_empty());
    assert!(!result2.is_empty());
    assert!(result1 == "II" || result1 == "III"); // Default cases
    assert!(result2 == "II" || result2 == "III"); // Default cases
}

#[test]
fn test_occurrence_mirrors_on_all_small_ranks() {
    // every pair of ranks with classes 0 to 5 and every choice of flags: the two orders
    // mirror each other, but for two feasts of the first or fourth class and two movable
    // feasts of the second
    let mut ranks: Vec<FeastRank62Inner> = Vec::new();
    for rank in 0..6u8 {
        ranks.push(create_sunday(rank));
        ranks.push(create_vigil(rank));
        ranks.push(create_octave(rank));
        for bits in 0..4u8 {
            ranks.push(FeastRank62Inner::Feria {
                rank,
                flags: FeriaFlags { of_lent: bits & 1 != 0, ember_day: bits & 2 != 0 },
            });
        }
        for bits in 0..16u8 {
            ranks.push(FeastRank62Inner::Feast {
                rank,
                flags: FeastFlags {
                    of_our_lord: bits & 1 != 0,
                    immaculate_conception: bits & 2 != 0,
                    movable: bits & 4 != 0,
                    all_souls: bits & 8 != 0,
                },
            });
        }
    }
    for a in &ranks {
        for b in &ranks {
            let order_decides = match (a, b) {
                (
                    FeastRank62Inner::Feast { rank: r1, flags: f1 },
                    FeastRank62Inner::Feast { rank: r2, flags: f2 },
                ) => r1 == r2 && (*r1 == 1 || *r1 == 4 || (*r1 == 2 && f1.movable && f2.movable)),
                _ => false,
            };
            let forward = a.resolve_occurrence(b, true);
            let backward = b.resolve_occurrence(a, true);
            let mirrored = forward.map(|o| o.reverse());
            assert_eq!(backward == mirrored, !order_decides);
        }
    }
}

#[test]
fn test_trait_answers() {
    let feria4 = FeastRank62(create_feria(4, false));
    assert!(matches!(feria4.admits_bvm_on_saturday(), BVMOnSaturdayResult::Admitted));
    assert!(matches!(
        FeastRank62(create_feria(3, false)).admits_bvm_on_saturday(),
        BVMOnSaturdayResult::NotAdmitted
    ));
    assert_eq!(FeastRank62::get_bvm_on_saturday_rank(), Some(feria4));
    assert!(feria4.is_ferial_or_sunday_rank());
    assert!(FeastRank62(create_sunday(1)).is_ferial_or_sunday_rank());
    assert!(!FeastRank62(create_vigil(1)).is_ferial_or_sunday_rank());
    assert!(FeastRank62(create_feast(1, false)).is_high_festial());
    assert!(FeastRank62(create_feast(2, false)).is_high_festial());
    assert!(!FeastRank62(create_feast(3, false)).is_high_festial());
    assert!(!FeastRank62(create_sunday(1)).is_high_festial());
    assert_eq!(FeastRank62(create_feast(4, false)).get_rank_string(), "Comm.");
    assert_eq!(
        FeastRank62::new_with_context("II", &DayType::Vigil, &LiturgicalContext::new()),
        Ok(FeastRank62(create_vigil(2)))
    );
}
