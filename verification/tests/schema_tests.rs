use difficulty_match::CommandResult;
use difficulty_match::DifficultyType;
use difficulty_match::ExcelError;
use difficulty_match::FileInfo;
use difficulty_match::Memory;
use difficulty_match::difficulty_type_from_label;
use difficulty_match::extension_supported;
use difficulty_match::get_difficulty_type_options;
use difficulty_match::schema_for;

#[test]
fn test_all_tags_order() {
    let all = DifficultyType::all();
    assert_eq!(all.len(), 10);
    assert_eq!(all[0], DifficultyType::PovertyAlleviatedContinuePolicy);
    assert_eq!(all[9], DifficultyType::LowIncomePopulation);
}

#[test]
fn test_get_column_config() {
    let expected = [
        (DifficultyType::PovertyAlleviatedContinuePolicy, (7, 1)),
        (DifficultyType::PovertyAlleviatedNoPolicy, (7, 1)),
        (DifficultyType::DisabledWithCertificate, (1, 1)),
        (DifficultyType::RuralMinimumLiving, (6, 2)),
        (DifficultyType::UrbanMinimumLiving, (6, 1)),
        (DifficultyType::RuralSpecialDifficulty, (5, 3)),
        (DifficultyType::AntiPovertyMonitoringRiskNotEliminated, (11, 1)),
        (DifficultyType::AntiPovertyMonitoringRiskEliminated, (11, 1)),
        (DifficultyType::OrphansAndFactuallyUnsupportedChildren, (2, 1)),
        (DifficultyType::LowIncomePopulation, (3, 1)),
    ];
    for (tag, config) in expected {
        assert_eq!(tag.get_column_config(), config);
    }
}

#[test]
fn test_schema_registry() {
    let rural = schema_for(DifficultyType::RuralMinimumLiving);
    assert_eq!(rural.sheet_indices, vec![1]);
    assert_eq!(rural.id_columns, vec![6, 15, 17, 19, 21, 23, 25, 27, 29]);
    assert_eq!(rural.skip_rows, 2);
    let special = schema_for(DifficultyType::RuralSpecialDifficulty);
    assert_eq!(special.sheet_indices, vec![1]);
    assert_eq!(special.id_columns, vec![5, 26, 31, 33, 35, 37, 39, 41]);
    assert_eq!(special.skip_rows, 3);
    let urban = schema_for(DifficultyType::UrbanMinimumLiving);
    assert_eq!(urban.id_columns, vec![6, 16, 18, 20, 22, 24]);
    assert_eq!(urban.skip_rows, 2);
    let orphans = schema_for(DifficultyType::OrphansAndFactuallyUnsupportedChildren);
    assert_eq!(orphans.sheet_indices, vec![0, 2]);
    assert_eq!(orphans.id_columns, vec![2]);
    assert_eq!(orphans.skip_rows, 3);
    let common = schema_for(DifficultyType::PovertyAlleviatedContinuePolicy);
    assert_eq!(common.sheet_indices, vec![0]);
    assert_eq!(common.id_columns, vec![7]);
    assert_eq!(common.skip_rows, 1);
}

#[test]
fn test_labels() {
    assert_eq!(
        DifficultyType::PovertyAlleviatedContinuePolicy.label(),
        "脱贫户(继续享受政策)"
    );
    assert_eq!(DifficultyType::RuralMinimumLiving.label(), "农村低保");
    assert_eq!(
        DifficultyType::OrphansAndFactuallyUnsupportedChildren.label(),
        "孤儿及事实无人抚养儿童"
    );
}

#[test]
fn test_from_label() {
    for tag in DifficultyType::all() {
        assert_eq!(difficulty_type_from_label(&tag.label()), Some(tag));
    }
    assert_eq!(difficulty_type_from_label("没有这种类型"), None);
    assert_eq!(difficulty_type_from_label(""), None);
}

#[test]
fn test_difficulty_type_options() {
    let options = get_difficulty_type_options();
    assert_eq!(options.len(), 10);
    for (option, tag) in options.iter().zip(DifficultyType::all()) {
        assert_eq!(option.label, tag.label());
        assert_eq!(option.value, tag.label());
    }
}

#[test]
fn test_extension_supported() {
    assert!(extension_supported("xlsx"));
    assert!(extension_supported("xls"));
    assert!(!extension_supported("csv"));
    assert!(!extension_supported("XLSX"));
    assert!(!extension_supported(""));
}

#[test]
fn test_command_result() {
    let ok: CommandResult<u32> = CommandResult::success(7);
    assert!(ok.success);
    assert_eq!(ok.data, Some(7));
    assert!(ok.error.is_none());
    let err: CommandResult<u32> = CommandResult::error("失败".to_string());
    assert!(!err.success);
    assert!(err.data.is_none());
    assert_eq!(err.error.as_deref(), Some("失败"));
}

#[test]
fn test_excel_error_message() {
    let e = ExcelError::FileNotFound("/tmp/a.xlsx".to_string());
    assert_eq!(e.message(), "File not found: /tmp/a.xlsx");
    let e = ExcelError::ReadError("NO DATA".to_string());
    assert_eq!(e.message(), "Read error: NO DATA");
    let e = ExcelError::ParseError("bad cell".to_string());
    assert_eq!(e.message(), "Parse error: bad cell");
}

#[test]
fn test_plain_value_shapes() {
    let info = FileInfo {
        name: "a.xlsx".to_string(),
        path: "/tmp/a.xlsx".to_string(),
        size: 123,
        extension: "xlsx".to_string(),
    };
    assert_eq!(info.extension, "xlsx");
    let memory = Memory { total_memory: 4, used_memory: 1, total_swap: 2, used_swap: 0 };
    assert_eq!(memory, memory.clone());
}
