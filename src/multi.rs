use vstd::prelude::*;
use crate::aligner::align;
use crate::render::{outside_read, BLANK, GAP};
use crate::trace::{
    consumes, is_best_alignment, lemma_used_prefix, query_used, ref_used, AlignmentTrace, EditOp,
    MAX_SEQ_LEN,
};

verus! {

/// Query line and reference line of `ops` in the multi-read view: interior
/// deletions show `-` in the query line, reference columns that the read
/// does not cover show a blank, and every reference symbol is shown.
pub open spec fn coverage_lines(ops: Seq<EditOp>, q: Seq<u8>, r: Seq<u8>) -> (Seq<u8>, Seq<u8>)
    decreases ops.len(),
{
    if ops.len() == 0 {
        (seq![], seq![])
    } else {
        let p = coverage_lines(ops.drop_last(), q, r);
        let qi = query_used(ops.drop_last()) as int;
        let ri = ref_used(ops.drop_last()) as int;
        match ops.last() {
            EditOp::Match => (p.0.push(q[qi]), p.1.push(r[ri])),
            EditOp::Subst => (p.0.push(q[qi]), p.1.push(r[ri])),
            EditOp::Del => (
                p.0.push(if outside_read(qi, q.len() as int) { BLANK } else { GAP }),
                p.1.push(r[ri]),
            ),
            EditOp::Ins => (p.0.push(q[qi]), p.1.push(GAP)),
            _ => p,
        }
    }
}

/// Offsets, in trace order, of the substitution columns of `ops`.
pub open spec fn subst_positions(ops: Seq<EditOp>) -> Seq<usize>
    decreases ops.len(),
{
    if ops.len() == 0 {
        seq![]
    } else if ops.last() is Subst {
        subst_positions(ops.drop_last()).push((ops.len() - 1) as usize)
    } else {
        subst_positions(ops.drop_last())
    }
}

/// One read aligned against the shared reference.
#[derive(Clone, Debug)]
pub struct ReadAlignment {
    pub trace: AlignmentTrace,
    pub query_line: Vec<u8>,
    pub reference_line: Vec<u8>,
    pub substitutions: Vec<usize>,
}

/// `a` is a rendering of an optimal alignment of `q` against `r`.
pub open spec fn is_read_alignment(a: ReadAlignment, q: Seq<u8>, r: Seq<u8>) -> bool {
    let lines = coverage_lines(a.trace.ops@, q, r);
    &&& is_best_alignment(a.trace, q, r)
    &&& a.query_line@ == lines.0
    &&& a.reference_line@ == lines.1
    &&& a.substitutions@ == subst_positions(a.trace.ops@)
}

/// Renders `trace` in the multi-read view and lists its substitution columns.
pub fn render_coverage(query: &[u8], reference: &[u8], trace: &AlignmentTrace) -> (r: (Vec<u8>, Vec<u8>, Vec<usize>))
    requires
        consumes(trace.ops@, query@, reference@),
    ensures
        (r.0@, r.1@) == coverage_lines(trace.ops@, query@, reference@),
        r.2@ == subst_positions(trace.ops@),
{
    let ops = &trace.ops;
    let mut ql: Vec<u8> = Vec::new();
    let mut rl: Vec<u8> = Vec::new();
    let mut subst: Vec<usize> = Vec::new();
    let mut j: usize = 0;
    let mut k: usize = 0;
    let mut i: usize = 0;
    while i < ops.len()
        invariant
            0 <= i <= ops@.len(),
            consumes(ops@, query@, reference@),
            j == query_used(ops@.take(i as int)),
            k == ref_used(ops@.take(i as int)),
            (ql@, rl@) == coverage_lines(ops@.take(i as int), query@, reference@),
            subst@ == subst_positions(ops@.take(i as int)),
        decreases ops@.len() - i,
    {
        let op = ops[i];
        proof {
            assert(ops@.take(i + 1).drop_last() =~= ops@.take(i as int));
            lemma_used_prefix(ops@, i + 1);
        }
        match op {
            EditOp::Match => {
                ql.push(query[j]);
                rl.push(reference[k]);
                j = j + 1;
                k = k + 1;
            },
            EditOp::Subst => {
                subst.push(i);
                ql.push(query[j]);
                rl.push(reference[k]);
                j = j + 1;
                k = k + 1;
            },
            EditOp::Del => {
                if j == 0 || j >= query.len() {
                    ql.push(BLANK);
                } else {
                    ql.push(GAP);
                }
                rl.push(reference[k]);
                k = k + 1;
            },
            EditOp::Ins => {
                ql.push(query[j]);
                rl.push(GAP);
                j = j + 1;
            },
            _ => {},
        }
        i = i + 1;
    }
    proof {
        assert(ops@.take(ops@.len() as int) =~= ops@);
    }
    (ql, rl, subst)
}

/// Aligns one read against the reference and renders it in the multi-read
/// view.
pub fn align_multi_reads(query: &[u8], reference: &[u8]) -> (r: ReadAlignment)
    requires
        query@.len() <= MAX_SEQ_LEN,
        reference@.len() <= MAX_SEQ_LEN,
    ensures
        is_read_alignment(r, query@, reference@),
{
    let trace = align(query, reference);
    let (query_line, reference_line, substitutions) = render_coverage(query, reference, &trace);
    ReadAlignment { trace, query_line, reference_line, substitutions }
}

/// Every read aligned on its own against one reference.
#[derive(Clone, Debug)]
pub struct MultiReadResult {
    /// One entry per read, in input order.
    pub reads: Vec<ReadAlignment>,
    /// The reference line of the last read; empty when there is no read.
    pub reference_line: Vec<u8>,
}

/// Aligns each read independently against `reference`, in input order.
pub fn align_many_reads(reference: &[u8], reads: &Vec<Vec<u8>>) -> (r: MultiReadResult)
    requires
        reference@.len() <= MAX_SEQ_LEN,
        forall|i: int| 0 <= i < reads@.len() ==> (#[trigger] reads@[i])@.len() <= MAX_SEQ_LEN,
    ensures
        r.reads@.len() == reads@.len(),
        forall|i: int|
            0 <= i < reads@.len() ==> is_read_alignment(
                #[trigger] r.reads@[i],
                reads@[i]@,
                reference@,
            ),
        reads@.len() == 0 ==> r.reference_line@ == Seq::<u8>::empty(),
        reads@.len() > 0 ==> r.reference_line@ == r.reads@.last().reference_line@,
{
    let mut out: Vec<ReadAlignment> = Vec::new();
    let mut reference_line: Vec<u8> = Vec::new();
    let mut i: usize = 0;
    while i < reads.len()
        invariant
            0 <= i <= reads@.len(),
            out@.len() == i,
            reference@.len() <= MAX_SEQ_LEN,
            forall|n: int| 0 <= n < reads@.len() ==> (#[trigger] reads@[n])@.len() <= MAX_SEQ_LEN,
            forall|n: int|
                0 <= n < i ==> is_read_alignment(#[trigger] out@[n], reads@[n]@, reference@),
            i == 0 ==> reference_line@ == Seq::<u8>::empty(),
            i > 0 ==> reference_line@ == out@[i - 1].reference_line@,
        decreases reads@.len() - i,
    {
        let a = align_multi_reads(reads[i].as_slice(), reference);
        reference_line = a.reference_line.clone();
        out.push(a);
        i = i + 1;
    }
    MultiReadResult { reads: out, reference_line }
}

} // verus!
