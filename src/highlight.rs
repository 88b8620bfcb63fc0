use vstd::prelude::*;
use crate::window::{clamp_int, AnchorSide};

verus! {

/// Offsets into the rendered query lines that mark the variant region, for
/// the rendering against the reference and the one against the alternate.
#[derive(Clone, Copy, Debug, PartialEq, Eq, Structural)]
pub struct HighlightRegion {
    pub start_ref: usize,
    pub stop_ref: usize,
    pub start_alt: usize,
    pub stop_alt: usize,
}

pub open spec fn abs_int(v: int) -> int {
    if v < 0 {
        -v
    } else {
        v
    }
}

/// Unclamped (start, stop) of the variant in a line of length `line_len`,
/// for an allele of length `allele_len`.
pub open spec fn raw_region(
    variant_pos: int,
    correct_start: int,
    correct_end: int,
    ref_allele_len: int,
    allele_len: int,
    side: AnchorSide,
    line_len: int,
) -> (int, int) {
    match side {
        AnchorSide::Left => {
            let s = abs_int(variant_pos - correct_start);
            (s, s + allele_len)
        },
        AnchorSide::Right => {
            let tail = correct_end - variant_pos - ref_allele_len;
            let stop = line_len - tail;
            (stop - allele_len, stop)
        },
    }
}

/// Start and stop of the variant in one line, each clamped into
/// `0..=line_len`.
pub open spec fn line_region(
    variant_pos: int,
    correct_start: int,
    correct_end: int,
    ref_allele_len: int,
    allele_len: int,
    side: AnchorSide,
    line_len: int,
) -> (int, int) {
    let raw = raw_region(
        variant_pos,
        correct_start,
        correct_end,
        ref_allele_len,
        allele_len,
        side,
        line_len,
    );
    (clamp_int(raw.0, 0, line_len), clamp_int(raw.1, 0, line_len))
}

fn clamp_wide(v: i128, len: usize) -> (r: usize)
    ensures
        r == clamp_int(v as int, 0, len as int),
{
    if v <= 0 {
        0
    } else if v >= len as i128 {
        len
    } else {
        v as usize
    }
}

fn region_in_line(
    variant_pos: i64,
    correct_start: i64,
    correct_end: i64,
    ref_allele_len: usize,
    allele_len: usize,
    side: AnchorSide,
    line_len: usize,
) -> (r: (usize, usize))
    ensures
        (r.0 as int, r.1 as int) == line_region(
            variant_pos as int,
            correct_start as int,
            correct_end as int,
            ref_allele_len as int,
            allele_len as int,
            side,
            line_len as int,
        ),
{
    let (start, stop): (i128, i128) = match side {
        AnchorSide::Left => {
            let d: i128 = variant_pos as i128 - correct_start as i128;
            let s: i128 = if d < 0 { -d } else { d };
            (s, s + allele_len as i128)
        },
        AnchorSide::Right => {
            let tail: i128 = correct_end as i128 - variant_pos as i128 - ref_allele_len as i128;
            let stop: i128 = line_len as i128 - tail;
            (stop - allele_len as i128, stop)
        },
    };
    (clamp_wide(start, line_len), clamp_wide(stop, line_len))
}

/// The variant region in both renderings. Anchored left, it starts
/// `|variant_pos - correct_start|` into each line and spans the allele of
/// that rendering; anchored right, it ends `correct_end - variant_pos -
/// ref_allele_len` before the end of each line. Every offset is clamped
/// into `0..=` its line's length.
pub fn highlight(
    variant_pos: i64,
    correct_start: i64,
    correct_end: i64,
    ref_allele_len: usize,
    alt_allele_len: usize,
    side: AnchorSide,
    ref_line_len: usize,
    alt_line_len: usize,
) -> (r: HighlightRegion)
    ensures
        (r.start_ref as int, r.stop_ref as int) == line_region(
            variant_pos as int,
            correct_start as int,
            correct_end as int,
            ref_allele_len as int,
            ref_allele_len as int,
            side,
            ref_line_len as int,
        ),
        (r.start_alt as int, r.stop_alt as int) == line_region(
            variant_pos as int,
            correct_start as int,
            correct_end as int,
            ref_allele_len as int,
            alt_allele_len as int,
            side,
            alt_line_len as int,
        ),
        r.start_ref <= ref_line_len && r.stop_ref <= ref_line_len,
        r.start_alt <= alt_line_len && r.stop_alt <= alt_line_len,
{
    let (start_ref, stop_ref) = region_in_line(
        variant_pos,
        correct_start,
        correct_end,
        ref_allele_len,
        ref_allele_len,
        side,
        ref_line_len,
    );
    let (start_alt, stop_alt) = region_in_line(
        variant_pos,
        correct_start,
        correct_end,
        ref_allele_len,
        alt_allele_len,
        side,
        alt_line_len,
    );
    HighlightRegion { start_ref, stop_ref, start_alt, stop_alt }
}

} // verus!
