//! Line diffs between a golden record and a fresh rendering. The diff itself
//! comes from the `similar` crate; what this module proves is how its
//! changes are rendered for the report: removed lines behind '-', inserted
//! lines behind '+', unchanged lines not at all.

use vstd::prelude::*;
use vstd::string::*;

verus! {

/// How one line of a diff relates the old text to the new.
#[derive(Debug, Clone, Copy, PartialEq, Eq, Structural)]
pub enum DiffTag {
    Equal,
    Delete,
    Insert,
}

/// One change of a line diff: a tag and the line it concerns, with its
/// line terminator attached where the text has one.
pub struct DiffChange {
    pub tag: DiffTag,
    pub text: String,
}

/// The mathematical value of a change list.
pub open spec fn change_models(s: Seq<DiffChange>) -> Seq<(DiffTag, Seq<char>)> {
    s.map_values(|c: DiffChange| (c.tag, c.text@))
}

/// The line diff of an old text against a new one, as the `similar` crate
/// computes it: a function of the two texts alone.
pub uninterp spec fn line_diff(old: Seq<char>, new: Seq<char>) -> Seq<(DiffTag, Seq<char>)>;

/// The concatenation of the changes' lines, those of one tag left out.
pub open spec fn restrict_concat(s: Seq<(DiffTag, Seq<char>)>, excluded: DiffTag) -> Seq<char>
    decreases s.len(),
{
    if s.len() == 0 {
        Seq::empty()
    } else {
        (if s[0].0 == excluded {
            Seq::<char>::empty()
        } else {
            s[0].1
        }) + restrict_concat(s.drop_first(), excluded)
    }
}

/// Relies on similar::TextDiff::from_lines and TextDiff::iter_all_changes:
/// the changes are a line diff of the two texts whose ops cover both sides
/// completely and in order, so the lines not tagged Insert concatenate to
/// the old text and the lines not tagged Delete to the new one.
#[verifier::external_body]
fn diff_lines(old: &str, new: &str) -> (r: Vec<DiffChange>)
    ensures
        change_models(r@) == line_diff(old@, new@),
        restrict_concat(change_models(r@), DiffTag::Insert) == old@,
        restrict_concat(change_models(r@), DiffTag::Delete) == new@,
{
    let diff = similar::TextDiff::from_lines(old, new);
    let mut out = Vec::new();
    for c in diff.iter_all_changes() {
        let tag = match c.tag() {
            similar::ChangeTag::Equal => DiffTag::Equal,
            similar::ChangeTag::Delete => DiffTag::Delete,
            similar::ChangeTag::Insert => DiffTag::Insert,
        };
        out.push(DiffChange { tag, text: c.value().to_string() });
    }
    out
}

/// The rendering of one change: removed lines behind '-', inserted lines
/// behind '+', unchanged lines dropped.
pub open spec fn render_change(c: (DiffTag, Seq<char>)) -> Seq<char> {
    match c.0 {
        DiffTag::Equal => Seq::empty(),
        DiffTag::Delete => "-"@ + c.1,
        DiffTag::Insert => "+"@ + c.1,
    }
}

/// The rendering of a change list, change by change in order.
pub open spec fn spec_render_changes(s: Seq<(DiffTag, Seq<char>)>) -> Seq<char>
    decreases s.len(),
{
    if s.len() == 0 {
        Seq::empty()
    } else {
        render_change(s[0]) + spec_render_changes(s.drop_first())
    }
}

proof fn lemma_render_changes_skip(s: Seq<(DiffTag, Seq<char>)>, i: int)
    requires
        0 <= i < s.len(),
    ensures
        spec_render_changes(s.skip(i)) == render_change(s[i]) + spec_render_changes(s.skip(i + 1)),
{
    assert(s.skip(i)[0] == s[i]);
    assert(s.skip(i).drop_first() =~= s.skip(i + 1));
}

/// Renders a change list, exactly as `spec_render_changes` states.
pub fn render_diff(changes: &Vec<DiffChange>) -> (r: String)
    ensures
        r@ == spec_render_changes(change_models(changes@)),
{
    let ghost model = change_models(changes@);
    let mut out = String::new();
    let mut i: usize = 0;
    proof {
        assert(model.skip(0) =~= model);
        assert(out@ + spec_render_changes(model) =~= spec_render_changes(model));
    }
    while i < changes.len()
        invariant
            0 <= i <= changes.len(),
            model == change_models(changes@),
            spec_render_changes(model) == out@ + spec_render_changes(model.skip(i as int)),
        decreases changes.len() - i,
    {
        proof {
            lemma_render_changes_skip(model, i as int);
            assert(model[i as int] == (changes@[i as int].tag, changes@[i as int].text@));
        }
        let c = &changes[i];
        match c.tag {
            DiffTag::Equal => {},
            DiffTag::Delete => {
                out.append("-");
                out.append(c.text.as_str());
            },
            DiffTag::Insert => {
                out.append("+");
                out.append(c.text.as_str());
            },
        }
        proof {
            assert(spec_render_changes(model) =~= out@ + spec_render_changes(
                model.skip(i as int + 1),
            ));
        }
        i += 1;
    }
    proof {
        assert(model.skip(changes@.len() as int) =~= Seq::<(DiffTag, Seq<char>)>::empty());
        assert(out@ =~= spec_render_changes(model));
    }
    out
}

/// Computes and renders the line diff of a golden record against a fresh
/// rendering, exactly as `spec_render_changes` states of `line_diff`.
pub fn diff_report(old: &str, new: &str) -> (r: String)
    ensures
        r@ == spec_render_changes(line_diff(old@, new@)),
{
    let changes = diff_lines(old, new);
    render_diff(&changes)
}

} // verus!
