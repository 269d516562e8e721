//! Diff rendering: one output line per change record, prefixed by a
//! three-character marker, bracketed by a key-labeled banner.

use crate::diff::Change;
use crate::diff::ChangeKind;
use crate::diff::changes_rep;
use crate::diff::ends_newline;
use crate::diff::tag_num;
use vstd::prelude::*;
use vstd::string::StringExecFns;

verus! {

/// The marker that prefixes a rendered line of the given numeric kind.
pub open spec fn sign_spec(tag: int) -> Seq<char> {
    if tag == 0 {
        "-┃"@
    } else if tag == 1 {
        "+┃"@
    } else {
        " ┃"@
    }
}

/// One rendered line: the marker, then the line itself, then a newline
/// where the line does not already end in a terminator.
pub open spec fn segment_spec(entry: (int, Seq<char>)) -> Seq<char> {
    sign_spec(entry.0) + entry.1 + (if ends_newline(entry.1) {
        Seq::<char>::empty()
    } else {
        "\n"@
    })
}

/// The rendered lines of a whole alignment, in document order.
pub open spec fn body_spec(rep: Seq<(int, Seq<char>)>) -> Seq<char>
    decreases rep.len(),
{
    if rep.len() == 0 {
        Seq::<char>::empty()
    } else {
        body_spec(rep.drop_last()) + segment_spec(rep.last())
    }
}

/// The opening banner, labeled with the snapshot key.
pub open spec fn header_spec(key: Seq<char>) -> Seq<char> {
    " ┏━━━━━━━━ "@ + key + " ━━━━━\n"@
}

/// The closing banner, labeled with the snapshot key.
pub open spec fn footer_spec(key: Seq<char>) -> Seq<char> {
    " ┗━━━━━━━━ "@ + key + " ━━━━━\n"@
}

/// The full rendered diff block for a key and an alignment.
pub open spec fn render_spec(key: Seq<char>, rep: Seq<(int, Seq<char>)>) -> Seq<char> {
    header_spec(key) + body_spec(rep) + footer_spec(key)
}

/// A mismatch is visible in the rendering: an alignment that holds an
/// edit renders at least one record under the deleted-line or the
/// inserted-line marker, never under the unchanged-context marker
/// alone.
pub proof fn lemma_edit_renders_marker(rep: Seq<(int, Seq<char>)>)
    requires
        crate::diff::tags_valid(rep),
        crate::diff::has_edit(rep),
    ensures
        exists|i: int|
            0 <= i < rep.len() && (sign_spec(#[trigger] rep[i].0) == "-┃"@ || sign_spec(rep[i].0)
                == "+┃"@),
{
    let i = choose|i: int| 0 <= i < rep.len() && rep[i].0 != 2;
    if rep[i].0 == 0 {
        assert(sign_spec(rep[i].0) == "-┃"@);
    } else {
        assert(sign_spec(rep[i].0) == "+┃"@);
    }
}

/// Render a diff block for console output: each change record becomes
/// one line prefixed by its marker, unchanged lines included, the whole
/// bracketed by banners naming the key.
pub fn render_diff(key: &str, changes: &Vec<Change>) -> (out: String)
    requires
        forall|i: int| 0 <= i < changes@.len() ==> (#[trigger] changes@[i]).terminated
            == ends_newline(changes@[i].text@),
    ensures
        out@ == render_spec(key@, changes_rep(changes@)),
{
    let ghost rep = changes_rep(changes@);
    let mut out = " ┏━━━━━━━━ ".to_owned();
    out.append(key);
    out.append(" ━━━━━\n");
    let mut i: usize = 0;
    while i < changes.len()
        invariant
            i <= changes.len(),
            rep == changes_rep(changes@),
            rep.len() == changes@.len(),
            forall|j: int| 0 <= j < changes@.len() ==> (#[trigger] changes@[j]).terminated
                == ends_newline(changes@[j].text@),
            out@ == header_spec(key@) + body_spec(rep.take(i as int)),
        decreases changes.len() - i,
    {
        match changes[i].kind {
            ChangeKind::Delete => out.append("-┃"),
            ChangeKind::Insert => out.append("+┃"),
            ChangeKind::Equal => out.append(" ┃"),
        }
        out.append(changes[i].text.as_str());
        if !changes[i].terminated {
            out.append("\n");
        }
        proof {
            assert(rep.take(i as int + 1).drop_last() =~= rep.take(i as int));
            assert(rep.take(i as int + 1).last() == rep[i as int]);
            assert(rep[i as int] == (tag_num(changes@[i as int].kind), changes@[i as int].text@));
        }
        i += 1;
    }
    proof {
        assert(rep.take(changes@.len() as int) =~= rep);
    }
    out.append(" ┗━━━━━━━━ ");
    out.append(key);
    out.append(" ━━━━━\n");
    out
}

} // verus!
