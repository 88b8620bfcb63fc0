use vstd::prelude::*;
use crate::trace::{consumes, lemma_used_prefix, query_used, ref_used, AlignmentTrace, EditOp};

verus! {

/// Gap character in a rendered sequence line.
pub const GAP: u8 = 0x2d;

/// Fill character of a query line where the read does not cover the reference.
pub const BLANK: u8 = 0x20;

/// Symbol-line mark of a match.
pub const MATCH_MARK: u8 = 0x7c;

/// Symbol-line mark of a substitution.
pub const SUBST_MARK: u8 = 0x2a;

/// Symbol-line mark of an insertion or a deletion.
pub const GAP_MARK: u8 = 0x78;

/// Query line, symbol line and reference line of one rendered alignment.
#[derive(Clone, Debug, PartialEq, Eq)]
pub struct DisplayTriple {
    pub query_line: Vec<u8>,
    pub symbol_line: Vec<u8>,
    pub reference_line: Vec<u8>,
}

/// A deletion at query offset `qi` lies before the read starts or after it
/// ends.
pub open spec fn outside_read(qi: int, q_len: int) -> bool {
    qi == 0 || qi >= q_len
}

/// The three display lines of `ops`: reference-only columns outside the read
/// are left out of all three lines.
pub open spec fn display_lines(ops: Seq<EditOp>, q: Seq<u8>, r: Seq<u8>) -> (Seq<u8>, Seq<u8>, Seq<u8>)
    decreases ops.len(),
{
    if ops.len() == 0 {
        (seq![], seq![], seq![])
    } else {
        let p = display_lines(ops.drop_last(), q, r);
        let qi = query_used(ops.drop_last()) as int;
        let ri = ref_used(ops.drop_last()) as int;
        match ops.last() {
            EditOp::Match => (p.0.push(q[qi]), p.1.push(MATCH_MARK), p.2.push(r[ri])),
            EditOp::Subst => (p.0.push(q[qi]), p.1.push(SUBST_MARK), p.2.push(r[ri])),
            EditOp::Del => if outside_read(qi, q.len() as int) {
                p
            } else {
                (p.0.push(GAP), p.1.push(GAP_MARK), p.2.push(r[ri]))
            },
            EditOp::Ins => (p.0.push(q[qi]), p.1.push(GAP_MARK), p.2.push(GAP)),
            _ => p,
        }
    }
}

/// The triple holds exactly the three display lines of `ops`.
pub open spec fn shows(t: DisplayTriple, ops: Seq<EditOp>, q: Seq<u8>, r: Seq<u8>) -> bool {
    let d = display_lines(ops, q, r);
    t.query_line@ == d.0 && t.symbol_line@ == d.1 && t.reference_line@ == d.2
}

/// The three display lines always have one length.
pub proof fn lemma_display_lines_equal_length(ops: Seq<EditOp>, q: Seq<u8>, r: Seq<u8>)
    ensures
        display_lines(ops, q, r).0.len() == display_lines(ops, q, r).1.len(),
        display_lines(ops, q, r).1.len() == display_lines(ops, q, r).2.len(),
    decreases ops.len(),
{
    if ops.len() > 0 {
        lemma_display_lines_equal_length(ops.drop_last(), q, r);
    }
}

/// Renders `trace` of `query` against `reference` as three lines of one
/// length: `|` marks a match, `*` a substitution and `x` a gap column.
/// Deletions before the first or after the last query symbol are not shown.
pub fn render(query: &[u8], reference: &[u8], trace: &AlignmentTrace) -> (t: DisplayTriple)
    requires
        consumes(trace.ops@, query@, reference@),
    ensures
        shows(t, trace.ops@, query@, reference@),
        t.query_line@.len() == t.symbol_line@.len(),
        t.symbol_line@.len() == t.reference_line@.len(),
{
    let ops = &trace.ops;
    let mut ql: Vec<u8> = Vec::new();
    let mut sl: Vec<u8> = Vec::new();
    let mut rl: Vec<u8> = Vec::new();
    let mut j: usize = 0;
    let mut k: usize = 0;
    let mut i: usize = 0;
    while i < ops.len()
        invariant
            0 <= i <= ops@.len(),
            consumes(ops@, query@, reference@),
            j == query_used(ops@.take(i as int)),
            k == ref_used(ops@.take(i as int)),
            (ql@, sl@, rl@) == display_lines(ops@.take(i as int), query@, reference@),
        decreases ops@.len() - i,
    {
        let op = ops[i];
        proof {
            assert(ops@.take(i + 1).drop_last() =~= ops@.take(i as int));
            lemma_used_prefix(ops@, i + 1);
        }
        match op {
            EditOp::Match => {
                ql.push(query[j]);
                sl.push(MATCH_MARK);
                rl.push(reference[k]);
                j = j + 1;
                k = k + 1;
            },
            EditOp::Subst => {
                ql.push(query[j]);
                sl.push(SUBST_MARK);
                rl.push(reference[k]);
                j = j + 1;
                k = k + 1;
            },
            EditOp::Del => {
                if j > 0 && j < query.len() {
                    ql.push(GAP);
                    sl.push(GAP_MARK);
                    rl.push(reference[k]);
                }
                k = k + 1;
            },
            EditOp::Ins => {
                ql.push(query[j]);
                sl.push(GAP_MARK);
                rl.push(GAP);
                j = j + 1;
            },
            _ => {},
        }
        i = i + 1;
    }
    proof {
        assert(ops@.take(ops@.len() as int) =~= ops@);
        lemma_display_lines_equal_length(ops@, query@, reference@);
    }
    DisplayTriple { query_line: ql, symbol_line: sl, reference_line: rl }
}

} // verus!
