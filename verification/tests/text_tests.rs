use regressions::files::{golden_path_for, store_path_for, FilesList};
use regressions::text::{encode_spaces, render_area_list, render_u64_list, trim_str, u64_to_string};

#[test]
fn decimal_rendering() {
    assert_eq!(u64_to_string(0).as_str(), "0");
    assert_eq!(u64_to_string(7).as_str(), "7");
    assert_eq!(u64_to_string(12345).as_str(), "12345");
    assert_eq!(u64_to_string(u64::MAX).as_str(), "18446744073709551615");
}

#[test]
fn list_rendering() {
    assert_eq!(render_u64_list(&vec![]).as_str(), "[]");
    assert_eq!(render_u64_list(&vec![1]).as_str(), "[1]");
    assert_eq!(render_u64_list(&vec![1, 22, 333]).as_str(), "[1, 22, 333]");
}

#[test]
fn area_rendering() {
    assert_eq!(render_area_list(&vec![]).as_str(), "[]");
    assert_eq!(render_area_list(&vec![(1, 2, 3, 4)]).as_str(), "[(1, 2, 3, 4)]");
    assert_eq!(
        render_area_list(&vec![(0, 0, 10, 20), (5, 6, 7, 8)]).as_str(),
        "[(0, 0, 10, 20), (5, 6, 7, 8)]"
    );
}

#[test]
fn trimming() {
    assert_eq!(trim_str("  abc\t ").as_str(), "abc");
    assert_eq!(trim_str("abc").as_str(), "abc");
    assert_eq!(trim_str(" \t\r\n ").as_str(), "");
    assert_eq!(trim_str("").as_str(), "");
    assert_eq!(trim_str(" a b ").as_str(), "a b");
}

#[test]
fn space_encoding() {
    assert_eq!(encode_spaces("a b c").as_str(), "a%20b%20c");
    assert_eq!(encode_spaces("nospace").as_str(), "nospace");
    assert_eq!(encode_spaces(" ").as_str(), "%20");
    assert_eq!(encode_spaces("").as_str(), "");
}

#[test]
fn download_url_encodes_spaces() {
    let entry = FilesList::new("c1".to_string(), "Some Make/file one.raw".to_string());
    assert_eq!(
        entry.download_url().as_str(),
        "https://raw.pixls.us/download/data/Some%20Make/file%20one.raw"
    );
}

#[test]
fn store_layout() {
    let entry = FilesList::new("deadbeef".to_string(), "x.raw".to_string());
    assert_eq!(entry.save_path().as_str(), "./files/deadbeef");
    assert_eq!(store_path_for("deadbeef").as_str(), "./files/deadbeef");
    assert_eq!(golden_path_for("deadbeef").as_str(), "./known_good_outputs/deadbeef");
}
