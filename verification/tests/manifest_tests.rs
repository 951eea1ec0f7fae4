use regressions::manifest::{parse_manifest, parse_manifest_line};

#[test]
fn wellformed_lines_yield_entries_in_order() {
    let lines: Vec<String> = vec![
        "abc123 *Some Make/file one.raw".to_string(),
        "no separator here".to_string(),
        "def456 *two.raw".to_string(),
    ];
    let entries = parse_manifest(&lines);
    assert_eq!(entries.len(), 2);
    assert_eq!(entries[0].checksum().as_str(), "abc123");
    assert_eq!(entries[0].file_name().as_str(), "Some Make/file one.raw");
    assert_eq!(entries[1].checksum().as_str(), "def456");
    assert_eq!(entries[1].file_name().as_str(), "two.raw");
}

#[test]
fn empty_manifest_yields_no_entries() {
    let lines: Vec<String> = vec![];
    let entries = parse_manifest(&lines);
    assert_eq!(entries.len(), 0);
}

#[test]
fn malformed_line_dropped_without_affecting_neighbors() {
    let with_bad: Vec<String> = vec![
        "aa *one.raw".to_string(),
        "garbage".to_string(),
        "bb *two.raw".to_string(),
    ];
    let without_bad: Vec<String> = vec!["aa *one.raw".to_string(), "bb *two.raw".to_string()];
    let a = parse_manifest(&with_bad);
    let b = parse_manifest(&without_bad);
    assert_eq!(a.len(), b.len());
    for i in 0..a.len() {
        assert_eq!(a[i].checksum(), b[i].checksum());
        assert_eq!(a[i].file_name(), b[i].file_name());
    }
}

#[test]
fn line_splits_at_first_star() {
    let entry = parse_manifest_line("aa *name*with*stars.raw").unwrap();
    assert_eq!(entry.checksum().as_str(), "aa");
    assert_eq!(entry.file_name().as_str(), "name*with*stars.raw");
}

#[test]
fn line_without_star_is_skipped() {
    assert!(parse_manifest_line("aa one.raw").is_none());
}

#[test]
fn checksum_is_trimmed() {
    let entry = parse_manifest_line("\t  aa11  \t*x.raw").unwrap();
    assert_eq!(entry.checksum().as_str(), "aa11");
    assert_eq!(entry.file_name().as_str(), "x.raw");
}
