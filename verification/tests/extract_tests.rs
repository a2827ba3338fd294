use difficulty_match::CategorySchema;
use difficulty_match::DifficultyType;
use difficulty_match::HeaderRule;
use difficulty_match::detect_header_row;
use difficulty_match::extract_category_sheet;
use difficulty_match::extract_roster;
use difficulty_match::read_difficult_type_table;
use difficulty_match::schema_for;
use difficulty_match::ExcelError;

fn cell(s: &str) -> Option<String> {
    Some(s.to_string())
}

fn row_of(texts: &[&str]) -> Vec<Option<String>> {
    texts.iter().map(|t| cell(t)).collect()
}

fn blank_row(width: usize) -> Vec<Option<String>> {
    (0..width).map(|_| cell("")).collect()
}

#[test]
fn test_extract_roster_basic() {
    let sheet = vec![
        row_of(&["姓名", "身份证件号", "c"]),
        vec![
            cell("甲 "),
            cell(" 1234x "),
            cell(""),
            None,
            cell(" 一中 "),
            None,
            None,
            None,
            cell("九年级"),
            cell("1班"),
            cell("S001"),
        ],
        row_of(&["乙", "G123", "x"]),
    ];
    let students = extract_roster(&sheet);
    assert_eq!(students.len(), 2);
    assert_eq!(students[0].name, "甲");
    assert_eq!(students[0].id_number, "1234X");
    assert_eq!(students[0].school.as_deref(), Some("一中"));
    assert_eq!(students[0].grade.as_deref(), Some("九年级"));
    assert_eq!(students[0].class.as_deref(), Some("1班"));
    assert_eq!(students[0].student_id.as_deref(), Some("S001"));
    assert_eq!(students[1].name, "乙");
    assert_eq!(students[1].id_number, "G123");
    assert_eq!(students[1].school, None);
    assert_eq!(students[1].student_id, None);
}

#[test]
fn test_extract_roster_short_row_continues() {
    // The short row yields nothing; extraction of the later rows continues.
    let sheet = vec![
        row_of(&["name", "id", "c"]),
        row_of(&["甲", "A1"]),
        row_of(&["乙", "B2", ""]),
    ];
    let students = extract_roster(&sheet);
    assert_eq!(students.len(), 1);
    assert_eq!(students[0].name, "乙");
    assert_eq!(students[0].id_number, "B2");
}

#[test]
fn test_extract_roster_drops_blank_name_or_id() {
    let sheet = vec![
        row_of(&["name", "id", "c"]),
        row_of(&["  ", "A1", ""]),
        row_of(&["丙", "   ", ""]),
        row_of(&["丁", "d4", ""]),
    ];
    let students = extract_roster(&sheet);
    assert_eq!(students.len(), 1);
    assert_eq!(students[0].name, "丁");
    assert_eq!(students[0].id_number, "D4");
}

#[test]
fn test_extract_roster_empty_source() {
    let header_only = vec![row_of(&["name", "id", "c"])];
    assert_eq!(extract_roster(&header_only).len(), 0);
    let no_rows: Vec<Vec<Option<String>>> = vec![];
    assert_eq!(extract_roster(&no_rows).len(), 0);
}

#[test]
fn test_category_multi_column_row() {
    // The rural minimum-living schema lists nine identifier columns; a row
    // with three of them populated yields exactly three records.
    let schema = schema_for(DifficultyType::RuralMinimumLiving);
    assert_eq!(schema.id_columns, vec![6, 15, 17, 19, 21, 23, 25, 27, 29]);
    assert_eq!(schema.skip_rows, 2);
    let mut data = blank_row(30);
    data[6] = cell(" a1 ");
    data[17] = cell("b2");
    data[29] = cell("c3");
    let sheet = vec![blank_row(30), blank_row(30), data];
    let records = extract_category_sheet(&sheet, &schema, DifficultyType::RuralMinimumLiving);
    assert_eq!(records.len(), 3);
    assert_eq!(records[0].id_number, "A1");
    assert_eq!(records[1].id_number, "B2");
    assert_eq!(records[2].id_number, "C3");
    for r in &records {
        assert_eq!(r.difficulty_type, DifficultyType::RuralMinimumLiving);
        assert_eq!(r.name, "unknown");
    }
}

#[test]
fn test_category_skips_header_rows() {
    let schema = schema_for(DifficultyType::DisabledWithCertificate);
    let sheet = vec![
        row_of(&["title", "id-header"]),
        row_of(&["x", "d1"]),
        row_of(&["y", " d2 "]),
    ];
    let records = extract_category_sheet(&sheet, &schema, DifficultyType::DisabledWithCertificate);
    assert_eq!(records.len(), 2);
    assert_eq!(records[0].id_number, "D1");
    assert_eq!(records[1].id_number, "D2");
}

#[test]
fn test_category_empty_source() {
    let schema = schema_for(DifficultyType::LowIncomePopulation);
    let header_only = vec![row_of(&["a", "b", "c", "id"])];
    let records = extract_category_sheet(&header_only, &schema, DifficultyType::LowIncomePopulation);
    assert_eq!(records.len(), 0);
}

#[test]
fn test_read_difficult_type_table_two_sheets() {
    // The orphans schema reads sheets 0 and 2, skipping three rows on each.
    let mut sheet0 = vec![blank_row(3), blank_row(3), blank_row(3)];
    sheet0.push(row_of(&["", "", "o1"]));
    sheet0.push(row_of(&["", "", " o2 "]));
    let sheet1 = vec![row_of(&["", "", "ignored"])];
    let mut sheet2 = vec![blank_row(3), blank_row(3), blank_row(3)];
    sheet2.push(row_of(&["", "", "o3"]));
    let workbook = vec![sheet0, sheet1, sheet2];
    let records = read_difficult_type_table(
        &workbook,
        DifficultyType::OrphansAndFactuallyUnsupportedChildren,
    )
    .unwrap();
    assert_eq!(records.len(), 3);
    assert_eq!(records[0].id_number, "O1");
    assert_eq!(records[1].id_number, "O2");
    assert_eq!(records[2].id_number, "O3");
}

#[test]
fn test_read_difficult_type_table_missing_sheet() {
    // The rural minimum-living schema reads sheet 1; a one-sheet workbook is
    // a whole-source failure.
    let workbook = vec![vec![row_of(&["only", "sheet"])]];
    let result = read_difficult_type_table(&workbook, DifficultyType::RuralMinimumLiving);
    assert!(matches!(result, Err(ExcelError::ReadError(_))));
}

#[test]
fn test_read_difficult_type_table_short_rows_continue() {
    // Rows narrower than the identifier column yield nothing; later rows
    // still do.
    let sheet = vec![
        row_of(&["h"]),
        row_of(&["x"]),
        row_of(&["x", "x", "x", "p1"]),
    ];
    let records =
        read_difficult_type_table(&vec![sheet], DifficultyType::LowIncomePopulation).unwrap();
    assert_eq!(records.len(), 1);
    assert_eq!(records[0].id_number, "P1");
}

#[test]
fn test_header_detection() {
    let rule = HeaderRule {
        max_scan: 5,
        name_token: "姓名".to_string(),
        id_token: "身份证".to_string(),
    };
    let sheet = vec![
        row_of(&["2025年花名册", ""]),
        row_of(&["填报单位: 某单位", ""]),
        row_of(&["姓名", "身份证号码"]),
        row_of(&["甲", "a1"]),
        row_of(&["乙", "b2"]),
    ];
    assert_eq!(detect_header_row(&sheet, &rule), Some(2));
    let schema = CategorySchema {
        sheet_indices: vec![0],
        id_columns: vec![1],
        name_column: Some(0),
        skip_rows: 1,
        header_rule: Some(rule),
    };
    let records = extract_category_sheet(&sheet, &schema, DifficultyType::LowIncomePopulation);
    assert_eq!(records.len(), 2);
    assert_eq!(records[0].name, "甲");
    assert_eq!(records[0].id_number, "A1");
    assert_eq!(records[1].name, "乙");
    assert_eq!(records[1].id_number, "B2");
}

#[test]
fn test_header_detection_fallback() {
    // No row holds both tokens: the fixed skip count is used instead.
    let rule = HeaderRule {
        max_scan: 5,
        name_token: "姓名".to_string(),
        id_token: "身份证".to_string(),
    };
    let sheet = vec![row_of(&["标题", ""]), row_of(&["甲", "a1"]), row_of(&["乙", "b2"])];
    assert_eq!(detect_header_row(&sheet, &rule), None);
    let schema = CategorySchema {
        sheet_indices: vec![0],
        id_columns: vec![1],
        name_column: None,
        skip_rows: 1,
        header_rule: Some(rule),
    };
    let records = extract_category_sheet(&sheet, &schema, DifficultyType::LowIncomePopulation);
    assert_eq!(records.len(), 2);
}

#[test]
fn test_category_name_column_rules() {
    // With a name column, a blank name drops the record; without one, the
    // sentinel name is recorded.
    let schema = CategorySchema {
        sheet_indices: vec![0],
        id_columns: vec![1],
        name_column: Some(0),
        skip_rows: 0,
        header_rule: None,
    };
    let sheet = vec![row_of(&[" 甲 ", "a1"]), row_of(&["  ", "b2"]), row_of(&["丙", "c3"])];
    let records = extract_category_sheet(&sheet, &schema, DifficultyType::UrbanMinimumLiving);
    assert_eq!(records.len(), 2);
    assert_eq!(records[0].name, "甲");
    assert_eq!(records[1].name, "丙");
}

#[test]
fn test_absent_cells_are_empty() {
    let schema = CategorySchema {
        sheet_indices: vec![0],
        id_columns: vec![0, 1, 2],
        name_column: None,
        skip_rows: 0,
        header_rule: None,
    };
    let sheet = vec![vec![None, cell("v1"), None]];
    let records = extract_category_sheet(&sheet, &schema, DifficultyType::UrbanMinimumLiving);
    assert_eq!(records.len(), 1);
    assert_eq!(records[0].id_number, "V1");
}
