use difficulty_match::normalize_id_number;

#[test]
fn test_normalize_idempotent_examples() {
    let inputs = [
        " 1234  x ",
        "G123",
        "G12345678901234567X",
        "g12345678901234567x",
        "",
        "   ",
        "\tAB\ncd\r",
        "G1234567890123456X",
    ];
    for input in inputs {
        let once = normalize_id_number(input);
        let twice = normalize_id_number(&once);
        assert_eq!(once, twice);
    }
}

#[test]
fn test_normalize_case_whitespace() {
    assert_eq!(normalize_id_number(" 1234  x "), normalize_id_number("1234X"));
    assert_eq!(normalize_id_number(" 1234  x "), "1234X");
}

#[test]
fn test_normalize_tabs_newlines() {
    assert_eq!(normalize_id_number("12\t34\n56\r78 "), "12345678");
    assert_eq!(normalize_id_number("abcdef"), "ABCDEF");
    assert_eq!(normalize_id_number("   "), "");
    assert_eq!(normalize_id_number(""), "");
}

#[test]
fn test_prefix_rule() {
    // The remainder after the 'G' must be exactly 18 characters for the
    // prefix to be stripped.
    // "G123": remainder 3 characters, too short, kept as is.
    assert_eq!(normalize_id_number("G123"), "G123");
    // "G1234567890123456X": remainder 17 characters, not stripped.
    assert_eq!(normalize_id_number("G1234567890123456X"), "G1234567890123456X");
    // remainder exactly 18 characters: stripped.
    assert_eq!(normalize_id_number("G12345678901234567X"), "12345678901234567X");
    // lowercase prefix is uppercased first, then stripped.
    assert_eq!(normalize_id_number("g12345678901234567x"), "12345678901234567X");
    // whitespace is removed before the length is measured.
    assert_eq!(normalize_id_number(" G 12345678901234567X "), "12345678901234567X");
    // a 19-character remainder is not stripped.
    assert_eq!(
        normalize_id_number("G123456789012345678X"),
        "G123456789012345678X"
    );
}

#[test]
fn test_normalize_non_ascii_kept() {
    assert_eq!(normalize_id_number(" 张三 12x "), "张三12X");
}
