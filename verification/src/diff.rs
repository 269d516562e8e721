//! Line-level comparison: change records, their mathematical
//! representation, and the alignment computed by the diff engine.

use vstd::prelude::*;

verus! {

/// The kind of one line-level change record: a line present only in the
/// stored reference, only in the candidate, or in both.
#[derive(Clone, Copy, Debug, PartialEq, Eq, Structural)]
pub enum ChangeKind {
    Delete,
    Insert,
    Equal,
}

/// One record of a line-level diff: a single line of text, kept with
/// its terminator when it has one, together with the side it belongs
/// to. `terminated` records whether the line ends in a line terminator.
#[derive(Debug)]
pub struct Change {
    pub kind: ChangeKind,
    pub text: String,
    pub terminated: bool,
}

/// Numeric stand-in for a change kind, used in the mathematical
/// representation of a diff.
pub open spec fn tag_num(kind: ChangeKind) -> int {
    match kind {
        ChangeKind::Delete => 0,
        ChangeKind::Insert => 1,
        ChangeKind::Equal => 2,
    }
}

/// Mathematical representation of a sequence of change records: each
/// record becomes its numeric kind paired with its text.
pub open spec fn changes_rep(cs: Seq<Change>) -> Seq<(int, Seq<char>)> {
    cs.map_values(|c: Change| (tag_num(c.kind), c.text@))
}

/// The reference-side text of an alignment: the concatenation of all
/// records that stem from the stored reference, that is the deleted and
/// the unchanged lines, in order.
pub open spec fn old_side(rep: Seq<(int, Seq<char>)>) -> Seq<char>
    decreases rep.len(),
{
    if rep.len() == 0 {
        Seq::<char>::empty()
    } else if rep.first().0 == 1 {
        old_side(rep.drop_first())
    } else {
        rep.first().1 + old_side(rep.drop_first())
    }
}

/// The candidate-side text of an alignment: the concatenation of all
/// records that stem from the candidate, that is the inserted and the
/// unchanged lines, in order.
pub open spec fn new_side(rep: Seq<(int, Seq<char>)>) -> Seq<char>
    decreases rep.len(),
{
    if rep.len() == 0 {
        Seq::<char>::empty()
    } else if rep.first().0 == 0 {
        new_side(rep.drop_first())
    } else {
        rep.first().1 + new_side(rep.drop_first())
    }
}

/// Whether an alignment holds at least one record that is not an
/// unchanged line.
pub open spec fn has_edit(rep: Seq<(int, Seq<char>)>) -> bool {
    exists|i: int| 0 <= i < rep.len() && rep[i].0 != 2
}

/// Whether every record of an alignment carries one of the three
/// numeric kinds.
pub open spec fn tags_valid(rep: Seq<(int, Seq<char>)>) -> bool {
    forall|i: int| 0 <= i < rep.len() ==> 0 <= #[trigger] rep[i].0 <= 2
}

/// The representation of any sequence of change records carries only
/// the three numeric kinds.
pub proof fn lemma_changes_rep_tags_valid(cs: Seq<Change>)
    ensures
        tags_valid(changes_rep(cs)),
{
    assert forall|i: int| 0 <= i < changes_rep(cs).len() implies 0 <= #[trigger] changes_rep(
        cs,
    )[i].0 <= 2 by {
        assert(changes_rep(cs)[i] == (tag_num(cs[i].kind), cs[i].text@));
    }
}

/// Whether a text ends in a line terminator.
pub open spec fn ends_newline(t: Seq<char>) -> bool {
    t.len() > 0 && (t.last() == '\n' || t.last() == '\r')
}

/// The line-level alignment that the diff engine computes for a pair of
/// texts, as a sequence of records of numeric kind and line text.
pub uninterp spec fn line_diff(stored: Seq<char>, candidate: Seq<char>) -> Seq<(int, Seq<char>)>;

/// Relies on `similar::TextDiff::from_lines` together with
/// `iter_all_changes`, `tag`, `value` and `missing_newline`: the line
/// tokens keep their terminators, so the delete and equal records, in
/// order, concatenate to the first argument, and the insert and equal
/// records, in order, concatenate to the second; `missing_newline`
/// reports a record whose line does not end in a terminator.
#[verifier::external_body]
pub(crate) fn diff_lines(stored: &str, candidate: &str) -> (r: Vec<Change>)
    ensures
        changes_rep(r@) == line_diff(stored@, candidate@),
        old_side(changes_rep(r@)) == stored@,
        new_side(changes_rep(r@)) == candidate@,
        forall|i: int| 0 <= i < r@.len() ==> (#[trigger] r@[i]).terminated == ends_newline(r@[i].text@),
{
    let diff = similar::TextDiff::from_lines(stored, candidate);
    let mut out = Vec::new();
    for change in diff.iter_all_changes() {
        let kind = match change.tag() {
            similar::ChangeTag::Delete => ChangeKind::Delete,
            similar::ChangeTag::Insert => ChangeKind::Insert,
            similar::ChangeTag::Equal => ChangeKind::Equal,
        };
        let terminated = !change.missing_newline();
        out.push(Change { kind, text: change.value().to_string(), terminated });
    }
    out
}

/// When every record of an alignment is an unchanged line, both sides
/// read back the same text.
proof fn lemma_all_equal_sides(rep: Seq<(int, Seq<char>)>)
    requires
        forall|i: int| 0 <= i < rep.len() ==> rep[i].0 == 2,
    ensures
        old_side(rep) == new_side(rep),
    decreases rep.len(),
{
    if rep.len() > 0 {
        assert(forall|i: int| 0 <= i < rep.drop_first().len() ==> rep.drop_first()[i].0 == 2);
        lemma_all_equal_sides(rep.drop_first());
    }
}

/// Mismatch detection is complete: any line alignment whose records
/// reconstruct both texts must, when the two texts differ, hold at
/// least one deleted or inserted line.
pub proof fn lemma_differing_texts_have_edit(
    rep: Seq<(int, Seq<char>)>,
    stored: Seq<char>,
    candidate: Seq<char>,
)
    requires
        old_side(rep) == stored,
        new_side(rep) == candidate,
        stored != candidate,
    ensures
        has_edit(rep),
{
    if !has_edit(rep) {
        assert(forall|i: int| 0 <= i < rep.len() ==> rep[i].0 == 2);
        lemma_all_equal_sides(rep);
    }
}

} // verus!
