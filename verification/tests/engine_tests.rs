use regressions::diff::{diff_report, render_diff, DiffChange, DiffTag};
use regressions::engine::{check_entry, verify_entry, verify_run, EntryInput, EntryOutcome};
use regressions::summary::{render_decode_result, DecodedSummary, Orientation};

fn sample_summary() -> DecodedSummary {
    DecodedSummary {
        make: "Canon".to_string(),
        model: "EOS 5D".to_string(),
        width: 5792,
        height: 3804,
        cpp: 1,
        wb_coeffs: "[2048.0, 1024.0, 1536.0, NaN]".to_string(),
        whitelevels: vec![15600, 15600, 15600, 15600],
        blacklevels: vec![2047, 2047, 2047, 2047],
        xyz_to_cam: "[[0.6722, -0.0635, -0.0963], [-0.4287, 1.246, 0.2028], [-0.0908, 0.2162, 0.5668], [0.0, 0.0, 0.0]]".to_string(),
        cfa: "RGGB".to_string(),
        crops: vec![0, 0, 0, 0],
        blackareas: vec![(0, 0, 10, 3804)],
        orientation: Orientation::Normal,
    }
}

#[test]
fn summary_rendering_is_canonical() {
    let expected = "make = Canon\n\
                    model = EOS 5D\n\
                    width = 5792\n\
                    height = 3804\n\
                    cpp = 1\n\
                    wb_coeffs = [2048.0, 1024.0, 1536.0, NaN]\n\
                    whitelevels = [15600, 15600, 15600, 15600]\n\
                    blacklevels = [2047, 2047, 2047, 2047]\n\
                    xyz_to_cam = [[0.6722, -0.0635, -0.0963], [-0.4287, 1.246, 0.2028], [-0.0908, 0.2162, 0.5668], [0.0, 0.0, 0.0]]\n\
                    cfa = RGGB\n\
                    crops = [0, 0, 0, 0]\n\
                    blackareas = [(0, 0, 10, 3804)]\n\
                    orientation = Normal";
    assert_eq!(sample_summary().render().as_str(), expected);
}

#[test]
fn decode_failure_renders_empty() {
    assert_eq!(render_decode_result(&None).as_str(), "");
}

#[test]
fn diff_marks_removed_and_inserted_lines() {
    let report = diff_report("a\nb\nc", "a\nx\nc");
    assert_eq!(report.as_str(), "-b\n+x\n");
}

#[test]
fn diff_of_equal_texts_is_empty() {
    assert_eq!(diff_report("a\nb\n", "a\nb\n").as_str(), "");
}

#[test]
fn mismatch_increments_count_and_carries_diff() {
    let entries = vec![EntryInput {
        checksum: "c1".to_string(),
        golden: Some("a\nb\nc".to_string()),
        decoded: None,
    }];
    // An empty rendering against a non-empty golden record is a mismatch.
    let (reports, count) = verify_run(&entries);
    assert_eq!(count, 1);
    assert_eq!(reports.len(), 1);
    assert_eq!(reports[0].checksum.as_str(), "c1");
    assert_eq!(reports[0].diff.as_str(), "-a\n-b\n-c");
}

#[test]
fn golden_line_diff_has_one_removal_one_insertion() {
    let outcome = check_entry(
        "c9",
        &Some("a\nb\nc".to_string()),
        &"a\nx\nc".to_string(),
    );
    match outcome {
        EntryOutcome::Mismatch(rep) => {
            assert_eq!(rep.checksum.as_str(), "c9");
            assert_eq!(rep.diff.as_str(), "-b\n+x\n");
        }
        EntryOutcome::Pass => panic!("divergent entry must not pass"),
    }
}

#[test]
fn absent_and_empty_golden_behave_identically() {
    // Expected decode failure: both pass.
    let none_pass = verify_entry("c1", &None, &None);
    let empty_pass = verify_entry("c1", &Some(String::new()), &None);
    assert!(matches!(none_pass, EntryOutcome::Pass));
    assert!(matches!(empty_pass, EntryOutcome::Pass));

    // Unexpected decode success: both diverge, with the same diff.
    let decoded = Some(sample_summary());
    let none_fail = verify_entry("c1", &None, &decoded);
    let empty_fail = verify_entry("c1", &Some(String::new()), &decoded);
    match (none_fail, empty_fail) {
        (EntryOutcome::Mismatch(a), EntryOutcome::Mismatch(b)) => {
            assert_eq!(a.diff, b.diff);
        }
        _ => panic!("an unexpected decode success must diverge either way"),
    }
}

#[test]
fn end_to_end_two_entries_one_mismatch() {
    let passing = sample_summary();
    let golden_text = passing.render();
    let entries = vec![
        EntryInput {
            checksum: "good".to_string(),
            golden: Some(golden_text),
            decoded: Some(passing),
        },
        EntryInput {
            checksum: "bad".to_string(),
            golden: Some("make = Canon\nmodel = EOS 5D".to_string()),
            decoded: None,
        },
    ];
    let (reports, count) = verify_run(&entries);
    assert_eq!(count, 1);
    assert_eq!(reports.len(), 1);
    assert_eq!(reports[0].checksum.as_str(), "bad");
}

#[test]
fn verification_is_idempotent() {
    let entries = vec![
        EntryInput {
            checksum: "c1".to_string(),
            golden: Some("x".to_string()),
            decoded: None,
        },
        EntryInput {
            checksum: "c2".to_string(),
            golden: None,
            decoded: None,
        },
    ];
    let (first_reports, first_count) = verify_run(&entries);
    let (second_reports, second_count) = verify_run(&entries);
    assert_eq!(first_count, second_count);
    assert_eq!(first_reports.len(), second_reports.len());
    for i in 0..first_reports.len() {
        assert_eq!(first_reports[i].checksum, second_reports[i].checksum);
        assert_eq!(first_reports[i].diff, second_reports[i].diff);
    }
}

#[test]
fn change_rendering_keeps_only_marked_lines() {
    let changes = vec![
        DiffChange { tag: DiffTag::Equal, text: "a\n".to_string() },
        DiffChange { tag: DiffTag::Delete, text: "b\n".to_string() },
        DiffChange { tag: DiffTag::Insert, text: "x\n".to_string() },
        DiffChange { tag: DiffTag::Equal, text: "c".to_string() },
    ];
    assert_eq!(render_diff(&changes).as_str(), "-b\n+x\n");
    assert_eq!(render_diff(&vec![]).as_str(), "");
}
