use difficulty_match::DifficultyType;
use difficulty_match::count_matches_by_type;
use difficulty_match::extract_category_sheet;
use difficulty_match::extract_roster;
use difficulty_match::filter_by_name;
use difficulty_match::filter_by_type;
use difficulty_match::match_statistics;
use difficulty_match::match_students_with_difficulty;
use difficulty_match::schema_for;
use difficulty_match::MatchResult;

fn cell(s: &str) -> Option<String> {
    Some(s.to_string())
}

fn row_of(texts: &[&str]) -> Vec<Option<String>> {
    texts.iter().map(|t| cell(t)).collect()
}

fn sample_matches() -> Vec<MatchResult> {
    let roster_sheet = vec![
        row_of(&["name", "id", "c"]),
        row_of(&["甲", "A1", ""]),
        row_of(&["乙", "B2", ""]),
        row_of(&["张三", "C3", ""]),
    ];
    let students = extract_roster(&roster_sheet);

    let cert_schema = schema_for(DifficultyType::DisabledWithCertificate);
    let cert_sheet = vec![row_of(&["h", "h"]), row_of(&["", "a1"]), row_of(&["", "b2"])];
    let mut candidates =
        extract_category_sheet(&cert_sheet, &cert_schema, DifficultyType::DisabledWithCertificate);

    let low_schema = schema_for(DifficultyType::LowIncomePopulation);
    let low_sheet = vec![row_of(&["h", "", "", "h"]), row_of(&["", "", "", "c3"])];
    candidates.extend(extract_category_sheet(
        &low_sheet,
        &low_schema,
        DifficultyType::LowIncomePopulation,
    ));

    match_students_with_difficulty(&students, &candidates)
}

#[test]
fn test_count_by_type() {
    let matches = sample_matches();
    assert_eq!(matches.len(), 3);
    let counts = count_matches_by_type(&matches);
    assert_eq!(counts.len(), 10);
    for (tag, count) in &counts {
        let expected = match tag {
            DifficultyType::DisabledWithCertificate => 2,
            DifficultyType::LowIncomePopulation => 1,
            _ => 0,
        };
        assert_eq!(*count, expected);
    }
}

#[test]
fn test_filter_by_type_round_trip() {
    // Matching the records of one category source and filtering by that same
    // tag gives back the whole matched set.
    let roster_sheet = vec![
        row_of(&["name", "id", "c"]),
        row_of(&["甲", "A1", ""]),
        row_of(&["乙", "B2", ""]),
    ];
    let students = extract_roster(&roster_sheet);
    let schema = schema_for(DifficultyType::UrbanMinimumLiving);
    let mut wide = vec![cell(""); 25];
    wide[6] = cell("a1");
    wide[16] = cell("b2");
    wide[24] = cell("zz");
    let sheet = vec![vec![cell("")], vec![cell("")], wide];
    let candidates =
        extract_category_sheet(&sheet, &schema, DifficultyType::UrbanMinimumLiving);
    assert_eq!(candidates.len(), 3);
    let matches = match_students_with_difficulty(&students, &candidates);
    assert_eq!(matches.len(), 2);
    let filtered = filter_by_type(&matches, DifficultyType::UrbanMinimumLiving);
    assert_eq!(filtered.len(), matches.len());
    for (f, m) in filtered.iter().zip(matches.iter()) {
        assert_eq!(f.student.id_number, m.student.id_number);
        assert_eq!(f.difficult_info.id_number, m.difficult_info.id_number);
    }
    // Filtering by a tag no candidate carried is empty.
    let none = filter_by_type(&matches, DifficultyType::RuralMinimumLiving);
    assert_eq!(none.len(), 0);
}

#[test]
fn test_filter_by_name() {
    let matches = sample_matches();
    let zhang = filter_by_name(&matches, "张");
    assert_eq!(zhang.len(), 1);
    assert_eq!(zhang[0].student.name, "张三");
    let all = filter_by_name(&matches, "");
    assert_eq!(all.len(), matches.len());
    let none = filter_by_name(&matches, "李");
    assert_eq!(none.len(), 0);
}

#[test]
fn test_match_statistics() {
    let matches = sample_matches();
    let stats = match_statistics(&matches);
    assert_eq!(stats.total_students, 3);
    assert_eq!(stats.total_matches, 3);
    assert_eq!(stats.difficulty_type_counts.len(), 10);
    let total: usize = stats.difficulty_type_counts.iter().map(|(_, c)| *c).sum();
    assert_eq!(total, 3);
}
