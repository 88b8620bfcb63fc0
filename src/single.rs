use vstd::prelude::*;
use crate::aligner::align;
use crate::highlight::{highlight, line_region, HighlightRegion};
use crate::render::{render, shows, DisplayTriple};
use crate::trace::{is_best_alignment, AlignmentTrace, MAX_SEQ_LEN};
use crate::window::{select_window, window_of, SpliceContext};

verus! {

/// Aligns `query` against `reference` and renders the result.
pub fn align_reads(query: &[u8], reference: &[u8]) -> (r: (AlignmentTrace, DisplayTriple))
    requires
        query@.len() <= MAX_SEQ_LEN,
        reference@.len() <= MAX_SEQ_LEN,
    ensures
        is_best_alignment(r.0, query@, reference@),
        shows(r.1, r.0.ops@, query@, reference@),
{
    let trace = align(query, reference);
    let triple = render(query, reference, &trace);
    (trace, triple)
}

/// A read aligned against both alleles of a variant, with the region to
/// highlight in each rendering.
#[derive(Clone, Debug)]
pub struct VariantView {
    /// The part of the read that was aligned.
    pub window: Vec<u8>,
    pub ref_trace: AlignmentTrace,
    pub against_reference: DisplayTriple,
    pub alt_trace: AlignmentTrace,
    pub against_alternate: DisplayTriple,
    pub region: HighlightRegion,
}

/// `v` is the view of `read` against `reference` and `alternate` for the
/// variant at `variant_pos` with the given allele lengths.
pub open spec fn is_variant_view(
    v: VariantView,
    read: Seq<u8>,
    reference: Seq<u8>,
    alternate: Seq<u8>,
    ctx: SpliceContext,
    variant_pos: i64,
    ref_allele_len: usize,
    alt_allele_len: usize,
) -> bool {
    let w = window_of(read, ctx);
    let ref_len = v.against_reference.query_line@.len() as int;
    let alt_len = v.against_alternate.query_line@.len() as int;
    &&& v.window@ == w
    &&& is_best_alignment(v.ref_trace, w, reference)
    &&& shows(v.against_reference, v.ref_trace.ops@, w, reference)
    &&& is_best_alignment(v.alt_trace, w, alternate)
    &&& shows(v.against_alternate, v.alt_trace.ops@, w, alternate)
    &&& (v.region.start_ref as int, v.region.stop_ref as int) == line_region(
        variant_pos as int,
        ctx.correct_start as int,
        ctx.correct_end as int,
        ref_allele_len as int,
        ref_allele_len as int,
        ctx.side,
        ref_len,
    )
    &&& (v.region.start_alt as int, v.region.stop_alt as int) == line_region(
        variant_pos as int,
        ctx.correct_start as int,
        ctx.correct_end as int,
        ref_allele_len as int,
        alt_allele_len as int,
        ctx.side,
        alt_len,
    )
}

/// Narrows the read to the window that `ctx` selects, aligns it against the
/// reference and the alternate sequence, renders both and computes the
/// variant region in each rendering.
pub fn align_single_read(
    read: &[u8],
    reference: &[u8],
    alternate: &[u8],
    ctx: &SpliceContext,
    variant_pos: i64,
    ref_allele_len: usize,
    alt_allele_len: usize,
) -> (r: VariantView)
    requires
        read@.len() <= MAX_SEQ_LEN,
        reference@.len() <= MAX_SEQ_LEN,
        alternate@.len() <= MAX_SEQ_LEN,
    ensures
        is_variant_view(
            r,
            read@,
            reference@,
            alternate@,
            *ctx,
            variant_pos,
            ref_allele_len,
            alt_allele_len,
        ),
{
    let window = select_window(read, ctx);
    let (ref_trace, against_reference) = align_reads(window.as_slice(), reference);
    let (alt_trace, against_alternate) = align_reads(window.as_slice(), alternate);
    let region = highlight(
        variant_pos,
        ctx.correct_start,
        ctx.correct_end,
        ref_allele_len,
        alt_allele_len,
        ctx.side,
        against_reference.query_line.len(),
        against_alternate.query_line.len(),
    );
    VariantView { window, ref_trace, against_reference, alt_trace, against_alternate, region }
}

} // verus!
