//! The manifest reader: a line-oriented text source of
//! `<checksum> *<remote_name>` records. A line is split at its first '*';
//! the part before it, trimmed of surrounding whitespace, is the checksum,
//! and everything after it is the remote name. A line without a '*' is
//! skipped and affects nothing else.

use vstd::prelude::*;
use vstd::string::*;
use crate::files::{FilesList, FilesListView};
use crate::text::{find_star, spec_trim, star_index, trim_str};

verus! {

/// A line is well formed when it splits in two at a '*'.
pub open spec fn line_well_formed(l: Seq<char>) -> bool {
    star_index(l) >= 0
}

/// The entry a well-formed line parses to.
pub open spec fn parsed_line(l: Seq<char>) -> FilesListView
    recommends
        line_well_formed(l),
{
    FilesListView {
        checksum: spec_trim(l.subrange(0, star_index(l))),
        file_name: l.subrange(star_index(l) + 1, l.len() as int),
    }
}

/// The entries of a manifest: each well-formed line's entry, in file order,
/// with malformed lines dropped.
pub open spec fn parse_lines(ls: Seq<Seq<char>>) -> Seq<FilesListView>
    decreases ls.len(),
{
    if ls.len() == 0 {
        Seq::empty()
    } else {
        (if line_well_formed(ls[0]) {
            seq![parsed_line(ls[0])]
        } else {
            Seq::empty()
        }) + parse_lines(ls.drop_first())
    }
}

/// Parses one manifest line, exactly as `parsed_line` states; a line
/// without a '*' yields nothing.
pub fn parse_manifest_line(line: &str) -> (r: Option<FilesList>)
    ensures
        match r {
            Some(f) => line_well_formed(line@) && f@ == parsed_line(line@),
            None => !line_well_formed(line@),
        },
{
    let n = line.unicode_len();
    match find_star(line) {
        None => None,
        Some(i) => {
            let head = line.substring_char(0, i);
            let checksum = trim_str(head);
            let rest = line.substring_char(i + 1, n);
            let file_name = rest.to_owned();
            proof {
                assert(head@ =~= line@.subrange(0, star_index(line@)));
                assert(rest@ =~= line@.subrange(star_index(line@) + 1, line@.len() as int));
            }
            Some(FilesList::new(checksum, file_name))
        },
    }
}

/// Parses a manifest, exactly as `parse_lines` states: one entry per
/// well-formed line, in file order.
pub fn parse_manifest(lines: &Vec<String>) -> (r: Vec<FilesList>)
    ensures
        r@.map_values(|f: FilesList| f@) == parse_lines(lines@.map_values(|l: String| l@)),
{
    let ghost all: Seq<Seq<char>> = lines@.map_values(|l: String| l@);
    let mut out: Vec<FilesList> = Vec::new();
    let mut i: usize = 0;
    proof {
        assert(all.skip(0) =~= all);
        assert(out@.map_values(|f: FilesList| f@) + parse_lines(all) =~= parse_lines(all));
    }
    while i < lines.len()
        invariant
            0 <= i <= lines.len(),
            all == lines@.map_values(|l: String| l@),
            parse_lines(all) == out@.map_values(|f: FilesList| f@) + parse_lines(
                all.skip(i as int),
            ),
        decreases lines.len() - i,
    {
        proof {
            assert(all.skip(i as int)[0] == all[i as int]);
            assert(all.skip(i as int).drop_first() =~= all.skip(i as int + 1));
        }
        let ghost prev = out@;
        match parse_manifest_line(lines[i].as_str()) {
            Some(f) => {
                out.push(f);
                proof {
                    assert(out@.map_values(|f: FilesList| f@) =~= prev.map_values(
                        |f: FilesList| f@,
                    ) + seq![parsed_line(all[i as int])]);
                    assert(parse_lines(all) =~= out@.map_values(|f: FilesList| f@) + parse_lines(
                        all.skip(i as int + 1),
                    ));
                }
            },
            None => {
                proof {
                    assert(parse_lines(all.skip(i as int)) =~= parse_lines(all.skip(i as int + 1)));
                }
            },
        }
        i += 1;
    }
    proof {
        assert(all.skip(lines@.len() as int) =~= Seq::<Seq<char>>::empty());
        assert(out@.map_values(|f: FilesList| f@) =~= parse_lines(all));
    }
    out
}

/// The number of well-formed lines of a manifest.
pub open spec fn count_well_formed(ls: Seq<Seq<char>>) -> nat
    decreases ls.len(),
{
    if ls.len() == 0 {
        0
    } else {
        (if line_well_formed(ls[0]) {
            1nat
        } else {
            0nat
        }) + count_well_formed(ls.drop_first())
    }
}

/// Law: a manifest with N well-formed lines yields exactly N entries.
pub proof fn lemma_manifest_count(ls: Seq<Seq<char>>)
    ensures
        parse_lines(ls).len() == count_well_formed(ls),
    decreases ls.len(),
{
    if ls.len() > 0 {
        lemma_manifest_count(ls.drop_first());
    }
}

/// Law: the entries come in file order — over well-formed lines the reader
/// is exactly the per-line parse, applied in order.
pub proof fn lemma_manifest_in_order(ls: Seq<Seq<char>>)
    requires
        forall|i: int| 0 <= i < ls.len() ==> line_well_formed(ls[i]),
    ensures
        parse_lines(ls) == ls.map_values(|l: Seq<char>| parsed_line(l)),
    decreases ls.len(),
{
    if ls.len() == 0 {
        assert(ls.map_values(|l: Seq<char>| parsed_line(l)) =~= Seq::<FilesListView>::empty());
    } else {
        lemma_manifest_in_order(ls.drop_first());
        assert(ls.map_values(|l: Seq<char>| parsed_line(l)) =~= seq![parsed_line(ls[0])]
            + ls.drop_first().map_values(|l: Seq<char>| parsed_line(l)));
    }
}

/// Law: a malformed line is dropped without affecting its neighbours.
pub proof fn lemma_malformed_line_dropped(
    before: Seq<Seq<char>>,
    bad: Seq<char>,
    after: Seq<Seq<char>>,
)
    requires
        !line_well_formed(bad),
    ensures
        parse_lines(before + seq![bad] + after) == parse_lines(before + after),
    decreases before.len(),
{
    if before.len() == 0 {
        assert((before + seq![bad] + after)[0] == bad);
        assert((before + seq![bad] + after).drop_first() =~= after);
        assert(before + after =~= after);
    } else {
        lemma_malformed_line_dropped(before.drop_first(), bad, after);
        assert((before + seq![bad] + after)[0] == before[0]);
        assert((before + after)[0] == before[0]);
        assert((before + seq![bad] + after).drop_first() =~= before.drop_first() + seq![bad]
            + after);
        assert((before + after).drop_first() =~= before.drop_first() + after);
    }
}

} // verus!
