//! The snapshot engine: given a key, the stored reference (if any), the
//! candidate payload and the run mode, decide whether to capture, pass,
//! or fail, and render the line diff on a mismatch.
//!
//! The engine performs no file access itself: the caller reads the
//! reference beforehand and carries out the returned decision (writing
//! the payload on a first-run capture, printing the diff and failing on
//! a mismatch).

use crate::diff::changes_rep;
use crate::diff::diff_lines;
use crate::diff::has_edit;
use crate::diff::lemma_changes_rep_tags_valid;
use crate::diff::lemma_differing_texts_have_edit;
use crate::diff::line_diff;
use crate::diff::tags_valid;
use crate::render::render_diff;
use crate::render::render_spec;
use vstd::prelude::*;

verus! {

/// What the engine asks the caller to do for a text payload.
#[derive(Debug, PartialEq, Eq)]
pub enum SnapshotOutcome {
    /// No reference exists and the run is not strict: write the carried
    /// payload to the resolved path; the test passes.
    Write(String),
    /// The reference matches the candidate: the test passes.
    Pass,
    /// No reference exists and the run is strict: the test fails at
    /// once, with no file created and no diff to show.
    MissingSnapshot,
    /// The reference differs from the candidate: print the carried
    /// rendered diff block, then fail the test.
    Mismatch(String),
}

/// Mathematical counterpart of a text outcome.
pub enum SpecOutcome {
    Write(Seq<char>),
    Pass,
    MissingSnapshot,
    Mismatch(Seq<char>),
}

impl View for SnapshotOutcome {
    type V = SpecOutcome;

    open spec fn view(&self) -> SpecOutcome {
        match self {
            SnapshotOutcome::Write(payload) => SpecOutcome::Write(payload@),
            SnapshotOutcome::Pass => SpecOutcome::Pass,
            SnapshotOutcome::MissingSnapshot => SpecOutcome::MissingSnapshot,
            SnapshotOutcome::Mismatch(rendered) => SpecOutcome::Mismatch(rendered@),
        }
    }
}

/// The stored reference as the engine's model sees it: its text when
/// the reference file exists, nothing otherwise.
pub open spec fn reference_view(reference: Option<String>) -> Option<Seq<char>> {
    match reference {
        Option::Some(stored) => Option::Some(stored@),
        Option::None => Option::None,
    }
}

/// The write-or-compare policy, in full: a missing reference fails in
/// strict mode and is captured otherwise; an existing reference is
/// never written, it either matches or yields a rendered diff.
pub open spec fn snapshot_spec(
    reference: Option<Seq<char>>,
    candidate: Seq<char>,
    strict: bool,
    key: Seq<char>,
) -> SpecOutcome {
    match reference {
        Option::None => if strict {
            SpecOutcome::MissingSnapshot
        } else {
            SpecOutcome::Write(candidate)
        },
        Option::Some(stored) => if stored == candidate {
            SpecOutcome::Pass
        } else {
            SpecOutcome::Mismatch(render_spec(key, line_diff(stored, candidate)))
        },
    }
}

/// Interpret the CI environment signal: the strict run mode holds
/// exactly when the signal is present and reads "true".
pub fn ci_mode(value: &Option<String>) -> (strict: bool)
    ensures
        strict == (match *value {
            Option::Some(v) => v@ == "true"@,
            Option::None => false,
        }),
{
    match value {
        Option::Some(v) => *v == "true".to_owned(),
        Option::None => false,
    }
}

/// Decide what becomes of one snapshot check: capture the candidate
/// when no reference exists (failing instead in strict mode), pass when
/// the reference matches the candidate exactly, and otherwise hand back
/// the rendered line diff of the two texts. Differing texts always
/// yield an alignment with at least one deleted or inserted line.
pub fn check_snapshot(
    key: &str,
    reference: &Option<String>,
    candidate: &String,
    strict: bool,
) -> (outcome: SnapshotOutcome)
    ensures
        outcome@ == snapshot_spec(reference_view(*reference), candidate@, strict, key@),
        (match *reference {
            Option::Some(stored) => stored@ != candidate@ ==> has_edit(
                line_diff(stored@, candidate@),
            ) && tags_valid(line_diff(stored@, candidate@)),
            Option::None => true,
        }),
{
    match reference {
        Option::None => {
            if strict {
                SnapshotOutcome::MissingSnapshot
            } else {
                SnapshotOutcome::Write(candidate.clone())
            }
        },
        Option::Some(stored) => {
            if *stored == *candidate {
                SnapshotOutcome::Pass
            } else {
                let changes = diff_lines(stored.as_str(), candidate.as_str());
                proof {
                    lemma_differing_texts_have_edit(changes_rep(changes@), stored@, candidate@);
                    lemma_changes_rep_tags_valid(changes@);
                }
                let rendered = render_diff(key, &changes);
                SnapshotOutcome::Mismatch(rendered)
            }
        },
    }
}

/// What the engine asks the caller to do for a raw byte payload. The
/// byte path compares byte for byte and renders no diff.
#[derive(Debug, PartialEq, Eq)]
pub enum ByteOutcome {
    /// No reference exists and the run is not strict: write the carried
    /// payload; the test passes.
    Write(Vec<u8>),
    /// The reference equals the candidate byte for byte.
    Pass,
    /// No reference exists and the run is strict.
    MissingSnapshot,
    /// The reference differs from the candidate.
    Mismatch,
}

/// Byte-for-byte equality of two payloads.
fn bytes_equal(a: &Vec<u8>, b: &Vec<u8>) -> (r: bool)
    ensures
        r == (a@ == b@),
{
    if a.len() != b.len() {
        return false;
    }
    let mut i: usize = 0;
    while i < a.len()
        invariant
            a@.len() == b@.len(),
            i <= a@.len(),
            forall|j: int| 0 <= j < i ==> a@[j] == b@[j],
        decreases a@.len() - i,
    {
        if a[i] != b[i] {
            return false;
        }
        i += 1;
    }
    proof {
        assert(a@ =~= b@);
    }
    true
}

/// The write-or-compare policy for raw byte payloads: the same gating
/// as the text path, with equality taken byte for byte and no diff
/// rendered on a mismatch.
pub fn check_snapshot_bytes(
    reference: &Option<Vec<u8>>,
    candidate: &Vec<u8>,
    strict: bool,
) -> (outcome: ByteOutcome)
    ensures
        (match *reference {
            Option::None => if strict {
                outcome == ByteOutcome::MissingSnapshot
            } else {
                outcome matches ByteOutcome::Write(payload) && payload@ == candidate@
            },
            Option::Some(stored) => if stored@ == candidate@ {
                outcome == ByteOutcome::Pass
            } else {
                outcome == ByteOutcome::Mismatch
            },
        }),
{
    match reference {
        Option::None => {
            if strict {
                ByteOutcome::MissingSnapshot
            } else {
                ByteOutcome::Write(candidate.clone())
            }
        },
        Option::Some(stored) => {
            if bytes_equal(stored, candidate) {
                ByteOutcome::Pass
            } else {
                ByteOutcome::Mismatch
            }
        },
    }
}

/// Comparison is idempotent: with a reference equal to the candidate
/// the engine passes, in either run mode, and a call that finds an
/// existing reference never asks for a write — a reference, once
/// written, is never overwritten by the engine.
pub proof fn lemma_comparison_idempotent(
    stored: Seq<char>,
    candidate: Seq<char>,
    strict: bool,
    key: Seq<char>,
)
    ensures
        snapshot_spec(Option::Some(stored), stored, strict, key) == SpecOutcome::Pass,
        !(snapshot_spec(Option::Some(stored), candidate, strict, key) is Write),
{
}

/// First-run capture is deterministic: with no reference, outside the
/// strict mode, the engine asks for exactly the candidate to be
/// written, and the test passes.
pub proof fn lemma_first_write(candidate: Seq<char>, key: Seq<char>)
    ensures
        snapshot_spec(Option::None, candidate, false, key) == SpecOutcome::Write(candidate),
{
}

/// Strict runs never create references: with no reference, in strict
/// mode, the engine fails at once and asks for no write.
pub proof fn lemma_strict_missing(candidate: Seq<char>, key: Seq<char>)
    ensures
        snapshot_spec(Option::None, candidate, true, key) == SpecOutcome::MissingSnapshot,
{
}

/// The reference after a check: a capture leaves the candidate on disk,
/// every other outcome leaves the reference as it was.
pub open spec fn reference_after(
    reference: Option<Seq<char>>,
    outcome: SpecOutcome,
) -> Option<Seq<char>> {
    match outcome {
        SpecOutcome::Write(payload) => Option::Some(payload),
        _ => reference,
    }
}

/// A repeated check passes: when a check captured or matched, checking
/// the same candidate again, against the reference that the first check
/// left behind, passes in either run mode.
pub proof fn lemma_rerun_passes(
    reference: Option<Seq<char>>,
    candidate: Seq<char>,
    strict: bool,
    strict_again: bool,
    key: Seq<char>,
)
    requires
        ({
            let first = snapshot_spec(reference, candidate, strict, key);
            first is Write || first is Pass
        }),
    ensures
        snapshot_spec(
            reference_after(reference, snapshot_spec(reference, candidate, strict, key)),
            candidate,
            strict_again,
            key,
        ) == SpecOutcome::Pass,
{
}

} // verus!
