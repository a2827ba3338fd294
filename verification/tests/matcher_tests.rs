use difficulty_match::DifficultyType;
use difficulty_match::extract_category_sheet;
use difficulty_match::extract_roster;
use difficulty_match::match_students_with_difficulty;
use difficulty_match::schema_for;

fn cell(s: &str) -> Option<String> {
    Some(s.to_string())
}

fn row_of(texts: &[&str]) -> Vec<Option<String>> {
    texts.iter().map(|t| cell(t)).collect()
}

#[test]
fn test_join_case_insensitive() {
    // Roster 甲/A1 and 乙/B2 against candidates a1 (certificate) and C3
    // (low income): one match pairing 甲 with the certificate tag; the C3
    // candidate is silently excluded.
    let roster_sheet = vec![
        row_of(&["name", "id", "c"]),
        row_of(&["甲", "A1", ""]),
        row_of(&["乙", "B2", ""]),
    ];
    let students = extract_roster(&roster_sheet);

    let cert_schema = schema_for(DifficultyType::DisabledWithCertificate);
    let cert_sheet = vec![row_of(&["h", "h"]), row_of(&["", "a1"]), row_of(&["", "C3"])];
    let candidates =
        extract_category_sheet(&cert_sheet, &cert_schema, DifficultyType::DisabledWithCertificate);
    assert_eq!(candidates.len(), 2);

    let matches = match_students_with_difficulty(&students, &candidates);
    assert_eq!(matches.len(), 1);
    assert_eq!(matches[0].student.name, "甲");
    assert_eq!(matches[0].student.id_number, "A1");
    assert_eq!(
        matches[0].difficult_info.difficulty_type,
        DifficultyType::DisabledWithCertificate
    );
    assert_eq!(matches[0].difficult_info.id_number, "A1");
}

#[test]
fn test_duplicate_roster_last_wins() {
    // Two roster rows share the normalized identifier A1: the matcher
    // deterministically selects the later one, and emits a single result.
    let roster_sheet = vec![
        row_of(&["name", "id", "c"]),
        row_of(&["甲", "a1", ""]),
        row_of(&["丙", " A1 ", ""]),
    ];
    let students = extract_roster(&roster_sheet);
    assert_eq!(students.len(), 2);

    let cert_schema = schema_for(DifficultyType::DisabledWithCertificate);
    let cert_sheet = vec![row_of(&["h", "h"]), row_of(&["", "A1"])];
    let candidates =
        extract_category_sheet(&cert_sheet, &cert_schema, DifficultyType::DisabledWithCertificate);

    let matches = match_students_with_difficulty(&students, &candidates);
    assert_eq!(matches.len(), 1);
    assert_eq!(matches[0].student.name, "丙");
}

#[test]
fn test_miss_excluded_and_order_preserved() {
    let roster_sheet = vec![
        row_of(&["name", "id", "c"]),
        row_of(&["甲", "A1", ""]),
        row_of(&["乙", "B2", ""]),
    ];
    let students = extract_roster(&roster_sheet);

    let schema = schema_for(DifficultyType::LowIncomePopulation);
    let sheet = vec![
        row_of(&["h", "h", "h", "h"]),
        row_of(&["", "", "", "B2"]),
        row_of(&["", "", "", "ZZ"]),
        row_of(&["", "", "", "A1"]),
    ];
    let candidates = extract_category_sheet(&sheet, &schema, DifficultyType::LowIncomePopulation);
    assert_eq!(candidates.len(), 3);

    let matches = match_students_with_difficulty(&students, &candidates);
    // Output order preserves candidate input order; the miss is excluded.
    assert_eq!(matches.len(), 2);
    assert_eq!(matches[0].student.name, "乙");
    assert_eq!(matches[1].student.name, "甲");
}

#[test]
fn test_empty_inputs() {
    let no_students = extract_roster(&vec![]);
    let no_candidates = Vec::new();
    let matches = match_students_with_difficulty(&no_students, &no_candidates);
    assert_eq!(matches.len(), 0);
}
