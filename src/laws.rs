use vstd::prelude::*;
use crate::highlight::line_region;
use crate::multi::coverage_lines;
use crate::render::{display_lines, outside_read, BLANK, GAP};
use crate::trace::{
    consumes, is_alignment, is_optimal, lemma_used_prefix, query_used, ref_used, uses_query, EditOp,
};
use crate::window::AnchorSide;

verus! {

pub open spec fn is_gap_char(b: u8) -> bool {
    b == GAP || b == BLANK
}

/// `s` without its gap and blank characters.
pub open spec fn strip_gaps(s: Seq<u8>) -> Seq<u8>
    decreases s.len(),
{
    if s.len() == 0 {
        s
    } else if is_gap_char(s.last()) {
        strip_gaps(s.drop_last())
    } else {
        strip_gaps(s.drop_last()).push(s.last())
    }
}

/// `s` holds no gap or blank character.
pub open spec fn gap_free(s: Seq<u8>) -> bool {
    forall|i: int| 0 <= i < s.len() ==> !is_gap_char(#[trigger] s[i])
}

/// No deletion of `ops` falls before the first or after the last query
/// symbol, so the display renderer suppresses nothing.
pub open spec fn no_edge_deletion(ops: Seq<EditOp>, q_len: int) -> bool
    decreases ops.len(),
{
    ops.len() == 0 || (no_edge_deletion(ops.drop_last(), q_len) && !(ops.last() is Del
        && outside_read(query_used(ops.drop_last()) as int, q_len)))
}

proof fn lemma_strip_push(s: Seq<u8>, c: u8)
    ensures
        strip_gaps(s.push(c)) == if is_gap_char(c) {
            strip_gaps(s)
        } else {
            strip_gaps(s).push(c)
        },
{
    assert(s.push(c).drop_last() =~= s);
}

proof fn lemma_display_prefixes(ops: Seq<EditOp>, q: Seq<u8>, r: Seq<u8>)
    requires
        query_used(ops) <= q.len(),
        ref_used(ops) <= r.len(),
        gap_free(q),
        gap_free(r),
    ensures
        strip_gaps(display_lines(ops, q, r).0) == q.take(query_used(ops) as int),
        no_edge_deletion(ops, q.len() as int) ==> strip_gaps(display_lines(ops, q, r).2)
            == r.take(ref_used(ops) as int),
    decreases ops.len(),
{
    if ops.len() > 0 {
        let p = ops.drop_last();
        lemma_used_prefix(ops, ops.len() - 1);
        assert(ops.take(ops.len() - 1) =~= p);
        lemma_display_prefixes(p, q, r);
        let qi = query_used(p) as int;
        let ri = ref_used(p) as int;
        let d = display_lines(p, q, r);
        match ops.last() {
            EditOp::Match | EditOp::Subst => {
                lemma_strip_push(d.0, q[qi]);
                lemma_strip_push(d.2, r[ri]);
            },
            EditOp::Ins => {
                lemma_strip_push(d.0, q[qi]);
                lemma_strip_push(d.2, GAP);
            },
            EditOp::Del => {
                lemma_strip_push(d.0, GAP);
                lemma_strip_push(d.2, r[ri]);
            },
            _ => {},
        }
        if uses_query(ops.last()) {
            assert(q.take(qi + 1) =~= q.take(qi).push(q[qi]));
        } else {
            assert(q.take(qi) =~= q.take(query_used(ops) as int));
        }
        if ops.last() is Match || ops.last() is Subst || ops.last() is Del {
            assert(r.take(ri + 1) =~= r.take(ri).push(r[ri]));
        } else {
            assert(r.take(ri) =~= r.take(ref_used(ops) as int));
        }
    }
}

/// Removing the gaps from the rendered query line gives back the query; the
/// same holds of the reference line whenever no deletion lies outside the
/// read, the only columns that the display renderer leaves out.
pub proof fn law_display_round_trip(ops: Seq<EditOp>, q: Seq<u8>, r: Seq<u8>)
    requires
        consumes(ops, q, r),
        gap_free(q),
        gap_free(r),
    ensures
        strip_gaps(display_lines(ops, q, r).0) == q,
        no_edge_deletion(ops, q.len() as int) ==> strip_gaps(display_lines(ops, q, r).2) == r,
{
    lemma_display_prefixes(ops, q, r);
    assert(q.take(q.len() as int) =~= q);
    assert(r.take(r.len() as int) =~= r);
}

proof fn lemma_coverage_prefixes(ops: Seq<EditOp>, q: Seq<u8>, r: Seq<u8>)
    requires
        query_used(ops) <= q.len(),
        ref_used(ops) <= r.len(),
        gap_free(q),
        gap_free(r),
    ensures
        strip_gaps(coverage_lines(ops, q, r).0) == q.take(query_used(ops) as int),
        strip_gaps(coverage_lines(ops, q, r).1) == r.take(ref_used(ops) as int),
    decreases ops.len(),
{
    if ops.len() > 0 {
        let p = ops.drop_last();
        lemma_used_prefix(ops, ops.len() - 1);
        assert(ops.take(ops.len() - 1) =~= p);
        lemma_coverage_prefixes(p, q, r);
        let qi = query_used(p) as int;
        let ri = ref_used(p) as int;
        let d = coverage_lines(p, q, r);
        match ops.last() {
            EditOp::Match | EditOp::Subst => {
                lemma_strip_push(d.0, q[qi]);
                lemma_strip_push(d.1, r[ri]);
            },
            EditOp::Ins => {
                lemma_strip_push(d.0, q[qi]);
                lemma_strip_push(d.1, GAP);
            },
            EditOp::Del => {
                lemma_strip_push(d.0, GAP);
                lemma_strip_push(d.0, BLANK);
                lemma_strip_push(d.1, r[ri]);
            },
            _ => {},
        }
        if uses_query(ops.last()) {
            assert(q.take(qi + 1) =~= q.take(qi).push(q[qi]));
        } else {
            assert(q.take(qi) =~= q.take(query_used(ops) as int));
        }
        if ops.last() is Match || ops.last() is Subst || ops.last() is Del {
            assert(r.take(ri + 1) =~= r.take(ri).push(r[ri]));
        } else {
            assert(r.take(ri) =~= r.take(ref_used(ops) as int));
        }
    }
}

/// In the multi-read view, removing gaps and blanks from the query line and
/// from the reference line gives back the read and the reference.
pub proof fn law_coverage_round_trip(ops: Seq<EditOp>, q: Seq<u8>, r: Seq<u8>)
    requires
        consumes(ops, q, r),
        gap_free(q),
        gap_free(r),
    ensures
        strip_gaps(coverage_lines(ops, q, r).0) == q,
        strip_gaps(coverage_lines(ops, q, r).1) == r,
{
    lemma_coverage_prefixes(ops, q, r);
    assert(q.take(q.len() as int) =~= q);
    assert(r.take(r.len() as int) =~= r);
}

/// Aligning the query again, as read back from its rendered line, against the
/// same reference gives the same optimal score.
pub proof fn law_realignment_keeps_score(
    q: Seq<u8>,
    r: Seq<u8>,
    first: Seq<EditOp>,
    first_score: int,
    second: Seq<EditOp>,
    second_score: int,
    gap_open: int,
    gap_extend: int,
)
    requires
        gap_free(q),
        gap_free(r),
        is_optimal(first, first_score, q, r, gap_open, gap_extend),
        is_optimal(
            second,
            second_score,
            strip_gaps(display_lines(first, q, r).0),
            r,
            gap_open,
            gap_extend,
        ),
    ensures
        second_score == first_score,
{
    law_display_round_trip(first, q, r);
    let q2 = strip_gaps(display_lines(first, q, r).0);
    assert(q2 == q);
    assert(is_alignment(first, q, r));
    assert(is_alignment(second, q, r));
}

/// The highlight offsets are never negative nor past their line, whatever
/// the variant position, the allele lengths and the corrected read span.
pub proof fn law_region_in_bounds(
    variant_pos: int,
    correct_start: int,
    correct_end: int,
    ref_allele_len: int,
    allele_len: int,
    side: AnchorSide,
    line_len: int,
)
    requires
        line_len >= 0,
    ensures
        0 <= line_region(
            variant_pos,
            correct_start,
            correct_end,
            ref_allele_len,
            allele_len,
            side,
            line_len,
        ).0 <= line_len,
        0 <= line_region(
            variant_pos,
            correct_start,
            correct_end,
            ref_allele_len,
            allele_len,
            side,
            line_len,
        ).1 <= line_len,
{
}

} // verus!
