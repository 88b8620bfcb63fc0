use vstd::prelude::*;

verus! {

/// Score of two equal symbols in an aligned column.
pub const MATCH_SCORE: i32 = 1;

/// Score of two different symbols in an aligned column.
pub const MISMATCH_SCORE: i32 = -1;

/// Score of the first column of a gap.
pub const GAP_OPEN: i32 = -5;

/// Score of each further column of a gap.
pub const GAP_EXTEND: i32 = -1;

/// Longest sequence the aligner accepts: its traceback matrix holds one cell
/// for each pair of positions of the two sequences.
pub const MAX_SEQ_LEN: usize = 10000;

/// One column of a pairwise alignment of a query against a reference.
/// `Ins` consumes a query symbol only, `Del` a reference symbol only.
/// The clip operations never occur in a global alignment.
#[derive(Clone, Copy, Debug, PartialEq, Eq, Structural)]
pub enum EditOp {
    Match,
    Subst,
    Del,
    Ins,
    Xclip(usize),
    Yclip(usize),
}

/// An ordered edit trace together with its score.
#[derive(Clone, Debug)]
pub struct AlignmentTrace {
    pub ops: Vec<EditOp>,
    pub score: i32,
}

pub open spec fn uses_query(op: EditOp) -> bool {
    op is Match || op is Subst || op is Ins
}

pub open spec fn uses_reference(op: EditOp) -> bool {
    op is Match || op is Subst || op is Del
}

/// Number of query symbols consumed by `ops`.
pub open spec fn query_used(ops: Seq<EditOp>) -> nat
    decreases ops.len(),
{
    if ops.len() == 0 {
        0
    } else {
        query_used(ops.drop_last()) + if uses_query(ops.last()) { 1nat } else { 0nat }
    }
}

/// Number of reference symbols consumed by `ops`.
pub open spec fn ref_used(ops: Seq<EditOp>) -> nat
    decreases ops.len(),
{
    if ops.len() == 0 {
        0
    } else {
        ref_used(ops.drop_last()) + if uses_reference(ops.last()) { 1nat } else { 0nat }
    }
}

/// `ops` consumes the whole query and the whole reference.
pub open spec fn consumes(ops: Seq<EditOp>, q: Seq<u8>, r: Seq<u8>) -> bool {
    query_used(ops) == q.len() && ref_used(ops) == r.len()
}

/// Operation `op`, applied at query offset `qi` and reference offset `ri`,
/// stays inside both sequences and is labelled as the symbols there demand.
pub open spec fn step_ok(op: EditOp, q: Seq<u8>, r: Seq<u8>, qi: int, ri: int) -> bool {
    match op {
        EditOp::Match => qi < q.len() && ri < r.len() && q[qi] == r[ri],
        EditOp::Subst => qi < q.len() && ri < r.len() && q[qi] != r[ri],
        EditOp::Ins => qi < q.len(),
        EditOp::Del => ri < r.len(),
        EditOp::Xclip(_) => false,
        EditOp::Yclip(_) => false,
    }
}

/// Every operation of `ops` is a column of an alignment of `q` against `r`.
pub open spec fn well_labelled(ops: Seq<EditOp>, q: Seq<u8>, r: Seq<u8>) -> bool
    decreases ops.len(),
{
    ops.len() == 0 || (well_labelled(ops.drop_last(), q, r) && step_ok(
        ops.last(),
        q,
        r,
        query_used(ops.drop_last()) as int,
        ref_used(ops.drop_last()) as int,
    ))
}

/// `ops` is a global alignment of `q` against `r`.
pub open spec fn is_alignment(ops: Seq<EditOp>, q: Seq<u8>, r: Seq<u8>) -> bool {
    well_labelled(ops, q, r) && consumes(ops, q, r)
}

/// Score of column `i`: a gap column costs `gap_open` when it starts a gap
/// and `gap_extend` when it continues one of the same kind.
pub open spec fn column_score(ops: Seq<EditOp>, i: int, gap_open: int, gap_extend: int) -> int {
    match ops[i] {
        EditOp::Match => MATCH_SCORE as int,
        EditOp::Subst => MISMATCH_SCORE as int,
        EditOp::Ins => if i > 0 && ops[i - 1] is Ins { gap_extend } else { gap_open },
        EditOp::Del => if i > 0 && ops[i - 1] is Del { gap_extend } else { gap_open },
        _ => 0,
    }
}

/// Affine-gap score of a trace.
pub open spec fn trace_score(ops: Seq<EditOp>, gap_open: int, gap_extend: int) -> int
    decreases ops.len(),
{
    if ops.len() == 0 {
        0
    } else {
        trace_score(ops.drop_last(), gap_open, gap_extend) + column_score(
            ops,
            ops.len() - 1,
            gap_open,
            gap_extend,
        )
    }
}

/// `ops` is a global alignment of `q` against `r`, `score` is its score,
/// and no global alignment of the two scores higher.
pub open spec fn is_optimal(
    ops: Seq<EditOp>,
    score: int,
    q: Seq<u8>,
    r: Seq<u8>,
    gap_open: int,
    gap_extend: int,
) -> bool {
    &&& is_alignment(ops, q, r)
    &&& score == trace_score(ops, gap_open, gap_extend)
    &&& forall|o: Seq<EditOp>| #[trigger]
        is_alignment(o, q, r) ==> trace_score(o, gap_open, gap_extend) <= score
}

/// `t` is an optimal global alignment of `q` against `r` under the
/// library's scores.
pub open spec fn is_best_alignment(t: AlignmentTrace, q: Seq<u8>, r: Seq<u8>) -> bool {
    is_optimal(t.ops@, t.score as int, q, r, GAP_OPEN as int, GAP_EXTEND as int)
}

/// Score of one aligned column of symbols `a` and `b`.
pub fn symbol_score(a: u8, b: u8) -> (r: i32)
    ensures
        r == if a == b { MATCH_SCORE } else { MISMATCH_SCORE },
{
    if a == b {
        MATCH_SCORE
    } else {
        MISMATCH_SCORE
    }
}

/// Counting a prefix of a trace never exceeds counting the whole trace.
pub proof fn lemma_used_prefix(ops: Seq<EditOp>, i: int)
    requires
        0 <= i <= ops.len(),
    ensures
        query_used(ops.take(i)) <= query_used(ops),
        ref_used(ops.take(i)) <= ref_used(ops),
    decreases ops.len(),
{
    if i < ops.len() {
        assert(ops.drop_last().take(i) =~= ops.take(i));
        lemma_used_prefix(ops.drop_last(), i);
    } else {
        assert(ops.take(i) =~= ops);
    }
}

} // verus!
