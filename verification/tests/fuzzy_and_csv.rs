use liturgy::csv_utils::{CsvUtils, LiturgicalDayRecord, Tally};
use liturgy::fuzzy_search::{get_ngrams, levenshtein_distance};
use liturgy::web::WebConfig;

fn record(date: &str, season: &str, color: &str, rank: &str, feast: Option<&str>) -> LiturgicalDayRecord {
    LiturgicalDayRecord {
        date: date.to_string(),
        day_name: "Feria".to_string(),
        season: season.to_string(),
        color: color.to_string(),
        rank: rank.to_string(),
        feast_name: feast.map(|f| f.to_string()),
        commemorations: vec![],
    }
}

fn records() -> Vec<LiturgicalDayRecord> {
    vec![
        record("2025-12-24", "Advent", "purple", "II", None),
        record("2025-12-25", "Christmas", "white", "I", Some("Nativity")),
        record("2025-12-26", "Christmas", "red", "II", Some("St. Stephen")),
        record("2025-12-27", "Christmas", "white", "II", Some("St. John")),
        record("2025-12-28", "Christmas", "red/purple", "II", Some("Holy Innocents")),
        record("2026-12-25", "Christmas", "white", "I", Some("Nativity")),
        record("2026-12-29", "Christmas", "white", "IV", None),
    ]
}

#[test]
fn test_levenshtein_distance() {
    assert_eq!(levenshtein_distance("", ""), 0);
    assert_eq!(levenshtein_distance("hello", "hello"), 0);
    assert_eq!(levenshtein_distance("hello", "helo"), 1);
    assert_eq!(levenshtein_distance("hello", "help"), 2);
}

#[test]
fn test_levenshtein_distance_more() {
    assert_eq!(levenshtein_distance("", "abc"), 3);
    assert_eq!(levenshtein_distance("abc", ""), 3);
    assert_eq!(levenshtein_distance("kitten", "sitting"), 3);
    assert_eq!(levenshtein_distance("sitting", "kitten"), 3);
    assert_eq!(levenshtein_distance("flaw", "lawn"), 2);
    assert_eq!(levenshtein_distance("St. Jospeh", "St. Joseph"), 2);
    assert_eq!(levenshtein_distance("abc", "xyz"), 3);
    assert_eq!(levenshtein_distance("a", "b"), 1);
    // characters count, not bytes
    assert_eq!(levenshtein_distance("héllo", "hello"), 1);
}

#[test]
fn test_get_ngrams() {
    assert_eq!(get_ngrams("hello", 2), vec!["he", "el", "ll", "lo"]);
    assert_eq!(get_ngrams("hello", 3), vec!["hel", "ell", "llo"]);
    assert_eq!(get_ngrams("hello", 5), vec!["hello"]);
    assert_eq!(get_ngrams("hi", 3), vec!["hi"]);
    assert_eq!(get_ngrams("", 2), vec![""]);
    assert_eq!(get_ngrams("ab", 0), vec!["", "", ""]);
    assert_eq!(get_ngrams("añb", 2), vec!["añ", "ñb"]);
}

#[test]
fn test_record_questions() {
    let all = records();
    assert!(all[1].is_major_feast());
    assert!(!all[2].is_major_feast());
    assert!(all[1].is_feast());
    assert!(!all[0].is_feast());
    assert!(all[0].is_in_season("Advent"));
    assert!(!all[0].is_in_season("advent"));
    assert_eq!(all[0].primary_color(), "purple");
    assert_eq!(all[4].primary_color(), "red");
    assert_eq!(record("d", "s", "/white", "I", None).primary_color(), "");
    assert_eq!(record("d", "s", "", "I", None).primary_color(), "");
    assert_eq!(record("d", "s", "a/b/c", "I", None).primary_color(), "a");
}

#[test]
fn test_filters() {
    let all = records();
    let first: Vec<&str> = CsvUtils::filter_by_rank(&all, "I").iter().map(|r| r.date.as_str()).collect();
    assert_eq!(first, vec!["2025-12-25", "2026-12-25"]);
    assert!(CsvUtils::filter_by_rank(&all, "III").is_empty());
    let advent: Vec<&str> =
        CsvUtils::filter_by_season(&all, "Advent").iter().map(|r| r.date.as_str()).collect();
    assert_eq!(advent, vec!["2025-12-24"]);
    assert_eq!(CsvUtils::filter_by_season(&all, "Christmas").len(), 6);
    assert!(CsvUtils::filter_by_season(&[], "Christmas").is_empty());
}

#[test]
fn test_extract_feast_names() {
    let names = CsvUtils::extract_feast_names(&records());
    assert_eq!(names, vec!["Holy Innocents", "Nativity", "St. John", "St. Stephen"]);
    assert!(CsvUtils::extract_feast_names(&[]).is_empty());
    // the order is that of the characters, as the sort of strings has it
    let mixed: Vec<LiturgicalDayRecord> = ["b", "a", "B", "ab", "", "a", "é", "z", "Z", "aa", "b "]
        .iter()
        .map(|n| record("d", "s", "c", "I", Some(n)))
        .collect();
    let mut expected: Vec<String> = mixed.iter().map(|r| r.feast_name.clone().unwrap()).collect();
    expected.sort();
    expected.dedup();
    assert_eq!(CsvUtils::extract_feast_names(&mixed), expected);
}

#[test]
fn test_generate_statistics() {
    let stats = CsvUtils::generate_statistics(&records());
    assert_eq!(stats.total_days, 7);
    assert_eq!(stats.feast_days, 5);
    assert_eq!(stats.ferial_days, 2);
    assert_eq!(stats.season_counts.count_of("Christmas"), 6);
    assert_eq!(stats.season_counts.count_of("Advent"), 1);
    assert_eq!(stats.season_counts.count_of("Lent"), 0);
    assert_eq!(
        stats.season_counts.entries,
        vec![("Advent".to_string(), 1), ("Christmas".to_string(), 6)]
    );
    assert_eq!(
        stats.color_counts.entries,
        vec![
            ("purple".to_string(), 1),
            ("white".to_string(), 4),
            ("red".to_string(), 1),
            ("red/purple".to_string(), 1)
        ]
    );
    assert_eq!(
        stats.rank_counts.entries,
        vec![("II".to_string(), 4), ("I".to_string(), 2), ("IV".to_string(), 1)]
    );
    let empty = CsvUtils::generate_statistics(&[]);
    assert_eq!((empty.total_days, empty.feast_days, empty.ferial_days), (0, 0, 0));
    assert!(empty.rank_counts.entries.is_empty());
    assert_eq!(Tally::new().count_of("x"), 0);
}

#[test]
fn test_web_config_default() {
    let config = WebConfig::default();
    assert_eq!(config.host, "127.0.0.1");
    assert_eq!(config.port, 3000);
    assert_eq!(config.calendar_data_dir, "calendar_data");
    let copy = config.clone();
    assert_eq!((copy.host, copy.port, copy.calendar_data_dir), (config.host, config.port, config.calendar_data_dir));
}
