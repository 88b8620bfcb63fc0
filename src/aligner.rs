use vstd::prelude::*;
use bio::alignment::pairwise::Aligner;
use bio::alignment::AlignmentOperation;
use crate::trace::{
    consumes, is_best_alignment, is_optimal, symbol_score, AlignmentTrace, EditOp, GAP_EXTEND, GAP_OPEN,
    MAX_SEQ_LEN,
};

verus! {

/// Relies on bio's `Aligner::with_capacity` and `Aligner::global`: a
/// Gotoh-style global alignment of `x` (query) against `y` (reference), scored
/// by `symbol_score` per column and `gap_open + gap_extend * (k - 1)` per gap
/// of length k. Global mode filters out clip operations, labels a column
/// `Match` exactly when its symbols are equal, and returns the best score with
/// a trace that reaches it. The bounds keep every score far above bio's clip
/// sentinel `MIN_SCORE` and free of `i32` overflow; `with_capacity` panics on
/// a positive gap score.
#[verifier::external_body]
fn global_alignment(x: &[u8], y: &[u8], gap_open: i32, gap_extend: i32) -> (r: AlignmentTrace)
    requires
        x@.len() <= MAX_SEQ_LEN,
        y@.len() <= MAX_SEQ_LEN,
        -16 <= gap_open <= gap_extend <= 0,
    ensures
        is_optimal(r.ops@, r.score as int, x@, y@, gap_open as int, gap_extend as int),
{
    let score = |a: u8, b: u8| symbol_score(a, b);
    let mut aligner = Aligner::with_capacity(x.len(), y.len(), gap_open, gap_extend, &score);
    let alignment = aligner.global(x, y);
    let ops = alignment.operations.iter().map(|op| match op {
        AlignmentOperation::Match => EditOp::Match,
        AlignmentOperation::Subst => EditOp::Subst,
        AlignmentOperation::Del => EditOp::Del,
        AlignmentOperation::Ins => EditOp::Ins,
        AlignmentOperation::Xclip(n) => EditOp::Xclip(*n),
        AlignmentOperation::Yclip(n) => EditOp::Yclip(*n),
    }).collect();
    AlignmentTrace { ops, score: alignment.score }
}

/// Optimal global alignment of `query` against `reference`: match +1,
/// mismatch -1, gap open -5, gap extend -1. The trace consumes both sequences
/// exactly, also when one of them is empty.
pub fn align(query: &[u8], reference: &[u8]) -> (r: AlignmentTrace)
    requires
        query@.len() <= MAX_SEQ_LEN,
        reference@.len() <= MAX_SEQ_LEN,
    ensures
        consumes(r.ops@, query@, reference@),
        is_best_alignment(r, query@, reference@),
{
    global_alignment(query, reference, GAP_OPEN, GAP_EXTEND)
}

} // verus!
