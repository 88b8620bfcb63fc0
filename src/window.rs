use vstd::prelude::*;

verus! {

/// Side of the variant on which a read's unambiguous alignment is anchored.
#[derive(Clone, Copy, Debug, PartialEq, Eq, Structural)]
pub enum AnchorSide {
    Left,
    Right,
}

/// What the indel-region analysis reports about one read. `splice_start`
/// and `splice_stop` are half-open offsets into the read.
#[derive(Clone, Copy, Debug, PartialEq, Eq, Structural)]
pub struct SpliceContext {
    pub within_indel: bool,
    pub correct_start: i64,
    pub correct_end: i64,
    pub splice_count: i64,
    pub splice_start: i64,
    pub splice_stop: i64,
    pub side: AnchorSide,
}

pub open spec fn clamp_int(v: int, lo: int, hi: int) -> int {
    if v < lo {
        lo
    } else if v > hi {
        hi
    } else {
        v
    }
}

/// The part of `read` that is aligned: the window `[splice_start,
/// splice_stop)` clamped to the read when the read is spliced, else the
/// whole read.
pub open spec fn window_of(read: Seq<u8>, ctx: SpliceContext) -> Seq<u8> {
    if ctx.splice_count > 0 {
        let lo = clamp_int(ctx.splice_start as int, 0, read.len() as int);
        let hi = clamp_int(ctx.splice_stop as int, lo, read.len() as int);
        read.subrange(lo, hi)
    } else {
        read
    }
}

/// Offset `v` clamped into `0..=len`.
fn clamp_offset(v: i64, len: usize) -> (r: usize)
    ensures
        r == clamp_int(v as int, 0, len as int),
{
    if v <= 0 {
        0
    } else if v as u64 >= len as u64 {
        len
    } else {
        v as usize
    }
}

/// The sub-window of `read` that `ctx` selects for alignment.
pub fn select_window(read: &[u8], ctx: &SpliceContext) -> (r: Vec<u8>)
    ensures
        r@ == window_of(read@, *ctx),
{
    let n = read.len();
    let (lo, hi) = if ctx.splice_count > 0 {
        let lo = clamp_offset(ctx.splice_start, n);
        let hi = if ctx.splice_stop <= lo as i64 {
            lo
        } else {
            clamp_offset(ctx.splice_stop, n)
        };
        (lo, hi)
    } else {
        (0, n)
    };
    let mut out: Vec<u8> = Vec::new();
    let mut k: usize = lo;
    while k < hi
        invariant
            lo <= k <= hi <= n,
            n == read@.len(),
            out@ == read@.subrange(lo as int, k as int),
        decreases hi - k,
    {
        out.push(read[k]);
        k = k + 1;
    }
    proof {
        assert(read@.subrange(0, n as int) =~= read@);
    }
    out
}

} // verus!
