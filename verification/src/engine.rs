//! The verification engine's per-entry decision: compare a golden record
//! against the fresh rendering of a decode result, report a diff on
//! divergence, and count mismatches over a run. An absent golden record and
//! an empty one both mean "expect an empty baseline", so an expected decode
//! failure passes; every divergence is contained at its entry and never
//! aborts the run.

use vstd::prelude::*;
use crate::diff::{diff_report, line_diff, spec_render_changes};
use crate::summary::{DecodedSummary, render_decode_result, rendering_of};

verus! {

/// The baseline a golden record stands for: an absent or empty record both
/// mean the empty text.
pub open spec fn baseline_of(g: Option<Seq<char>>) -> Seq<char> {
    match g {
        Option::None => Seq::empty(),
        Option::Some(b) => b,
    }
}

/// The golden record as a mathematical value, kept apart from "absent".
pub open spec fn golden_view(g: Option<String>) -> Option<Seq<char>> {
    match g {
        Option::None => Option::None,
        Option::Some(s) => Option::Some(s@),
    }
}

/// An entry passes exactly when its baseline equals the fresh rendering.
pub open spec fn entry_passes(g: Option<Seq<char>>, rendered: Seq<char>) -> bool {
    baseline_of(g) == rendered
}

/// What is reported for one diverging entry.
pub struct MismatchReport {
    pub checksum: String,
    pub diff: String,
}

/// The outcome of checking one entry.
pub enum EntryOutcome {
    Pass,
    Mismatch(MismatchReport),
}

/// Law: a checksum with no golden record and one with an empty golden
/// record behave identically against the same fresh rendering — the
/// baselines agree, so the pass verdict and the reported diff agree too.
pub proof fn lemma_empty_absent_equivalent(rendered: Seq<char>)
    ensures
        baseline_of(Option::None) == baseline_of(Option::Some(Seq::<char>::empty())),
        entry_passes(Option::None, rendered) == entry_passes(
            Option::Some(Seq::<char>::empty()),
            rendered,
        ),
        line_diff(baseline_of(Option::None), rendered) == line_diff(
            baseline_of(Option::Some(Seq::<char>::empty())),
            rendered,
        ),
{
}

/// Checks one entry's rendering against its golden record, exactly as
/// `entry_passes` states; a diverging entry carries its checksum and the
/// rendered line diff from the baseline to the fresh rendering.
pub fn check_entry(checksum: &str, golden: &Option<String>, fresh: &String) -> (r: EntryOutcome)
    ensures
        (r is Pass) <==> entry_passes(golden_view(*golden), fresh@),
        match r {
            EntryOutcome::Pass => true,
            EntryOutcome::Mismatch(rep) => rep.checksum@ == checksum@ && rep.diff@
                == spec_render_changes(line_diff(baseline_of(golden_view(*golden)), fresh@)),
        },
{
    let equal: bool = match golden {
        Option::None => fresh.as_str().is_empty(),
        Option::Some(g) => g.eq(fresh),
    };
    if equal {
        proof {
            if golden is None {
                assert(baseline_of(golden_view(*golden)) =~= fresh@);
            }
        }
        EntryOutcome::Pass
    } else {
        let baseline: &str = match golden {
            Option::None => "",
            Option::Some(g) => g.as_str(),
        };
        proof {
            reveal_strlit("");
            if golden is None {
                assert(baseline@ =~= baseline_of(golden_view(*golden)));
            }
        }
        let diff = diff_report(baseline, fresh.as_str());
        EntryOutcome::Mismatch(MismatchReport { checksum: checksum.to_owned(), diff })
    }
}

/// One unit of verification work: the checksum, the golden record read for
/// it (or nothing, where the file is absent or unreadable), and the decode
/// result of its content-store file.
pub struct EntryInput {
    pub checksum: String,
    pub golden: Option<String>,
    pub decoded: Option<DecodedSummary>,
}

/// Whether an entry diverges from its golden record.
pub open spec fn entry_mismatch(e: EntryInput) -> bool {
    !entry_passes(golden_view(e.golden), rendering_of(e.decoded))
}

/// The mathematical value of one mismatch report.
pub ghost struct ReportModel {
    pub checksum: Seq<char>,
    pub diff: Seq<char>,
}

/// The report owed for one diverging entry.
pub open spec fn report_model(e: EntryInput) -> ReportModel {
    ReportModel {
        checksum: e.checksum@,
        diff: spec_render_changes(
            line_diff(baseline_of(golden_view(e.golden)), rendering_of(e.decoded)),
        ),
    }
}

/// The mathematical value of a report.
pub open spec fn report_view(r: MismatchReport) -> ReportModel {
    ReportModel { checksum: r.checksum@, diff: r.diff@ }
}

/// The reports of a run: one per diverging entry, in entry order.
pub open spec fn spec_reports(s: Seq<EntryInput>) -> Seq<ReportModel>
    decreases s.len(),
{
    if s.len() == 0 {
        Seq::empty()
    } else {
        (if entry_mismatch(s[0]) {
            seq![report_model(s[0])]
        } else {
            Seq::empty()
        }) + spec_reports(s.drop_first())
    }
}

/// The mismatch count of a run.
pub open spec fn spec_mismatch_count(s: Seq<EntryInput>) -> nat
    decreases s.len(),
{
    if s.len() == 0 {
        0
    } else {
        (if entry_mismatch(s[0]) {
            1nat
        } else {
            0nat
        }) + spec_mismatch_count(s.drop_first())
    }
}

/// Law: the count a run reports is the number of its mismatch reports.
pub proof fn lemma_count_is_reports_len(s: Seq<EntryInput>)
    ensures
        spec_mismatch_count(s) == spec_reports(s).len(),
    decreases s.len(),
{
    if s.len() > 0 {
        lemma_count_is_reports_len(s.drop_first());
    }
}

/// Law: verification is idempotent — the count is a function of the content
/// store and golden set alone, so two runs over unchanged entries yield the
/// same count. The counts of any two runs are pinned to
/// `spec_mismatch_count` by `verify_run`'s contract, hence equal.
pub proof fn lemma_verification_idempotent(entries: Seq<EntryInput>, first: nat, second: nat)
    requires
        first == spec_mismatch_count(entries),
        second == spec_mismatch_count(entries),
    ensures
        first == second,
{
}

/// Checks one entry end to end: renders the decode result and compares it
/// against the golden record.
pub fn verify_entry(checksum: &str, golden: &Option<String>, decoded: &Option<DecodedSummary>) -> (r:
    EntryOutcome)
    ensures
        (r is Pass) <==> entry_passes(golden_view(*golden), rendering_of(*decoded)),
        match r {
            EntryOutcome::Pass => true,
            EntryOutcome::Mismatch(rep) => rep.checksum@ == checksum@ && rep.diff@
                == spec_render_changes(
                line_diff(baseline_of(golden_view(*golden)), rendering_of(*decoded)),
            ),
        },
{
    let fresh = render_decode_result(decoded);
    check_entry(checksum, golden, &fresh)
}

/// Runs the verification phase over every entry: one report per diverging
/// entry, in entry order, and the total mismatch count — exactly as
/// `spec_reports` and `spec_mismatch_count` state.
pub fn verify_run(entries: &Vec<EntryInput>) -> (r: (Vec<MismatchReport>, usize))
    ensures
        r.0@.map_values(|rep: MismatchReport| report_view(rep)) == spec_reports(entries@),
        r.1 == spec_mismatch_count(entries@),
        r.1 == r.0@.len(),
{
    let mut reports: Vec<MismatchReport> = Vec::new();
    let mut count: usize = 0;
    let mut i: usize = 0;
    proof {
        assert(entries@.skip(0) =~= entries@);
        assert(reports@.map_values(|rep: MismatchReport| report_view(rep)) + spec_reports(entries@)
            =~= spec_reports(entries@));
    }
    while i < entries.len()
        invariant
            0 <= i <= entries.len(),
            spec_reports(entries@) == reports@.map_values(|rep: MismatchReport| report_view(rep))
                + spec_reports(entries@.skip(i as int)),
            spec_mismatch_count(entries@) == count + spec_mismatch_count(entries@.skip(i as int)),
            count == reports@.len(),
            count <= i,
        decreases entries.len() - i,
    {
        proof {
            assert(entries@.skip(i as int)[0] == entries@[i as int]);
            assert(entries@.skip(i as int).drop_first() =~= entries@.skip(i as int + 1));
        }
        let ghost prev = reports@;
        let e = &entries[i];
        match verify_entry(e.checksum.as_str(), &e.golden, &e.decoded) {
            EntryOutcome::Pass => {},
            EntryOutcome::Mismatch(rep) => {
                reports.push(rep);
                count += 1;
                proof {
                    assert(reports@.map_values(|rep: MismatchReport| report_view(rep))
                        =~= prev.map_values(|rep: MismatchReport| report_view(rep)) + seq![
                        report_model(entries@[i as int]),
                    ]);
                }
            },
        }
        proof {
            assert(spec_reports(entries@) =~= reports@.map_values(
                |rep: MismatchReport| report_view(rep),
            ) + spec_reports(entries@.skip(i as int + 1)));
        }
        i += 1;
    }
    proof {
        assert(entries@.skip(entries@.len() as int) =~= Seq::<EntryInput>::empty());
        assert(reports@.map_values(|rep: MismatchReport| report_view(rep)) =~= spec_reports(
            entries@,
        ));
        lemma_count_is_reports_len(entries@);
    }
    (reports, count)
}

} // verus!
