use read_align::aligner::align;
use read_align::highlight::highlight;
use read_align::multi::{align_many_reads, align_multi_reads};
use read_align::render::render;
use read_align::single::{align_reads, align_single_read};
use read_align::trace::{symbol_score, EditOp};
use read_align::window::{select_window, AnchorSide, SpliceContext};

fn text(v: &[u8]) -> String {
    String::from_utf8(v.to_vec()).unwrap()
}

fn strip(v: &[u8]) -> Vec<u8> {
    v.iter().copied().filter(|b| *b != b'-' && *b != b' ').collect()
}

fn query_count(ops: &[EditOp]) -> usize {
    ops.iter()
        .filter(|op| matches!(op, EditOp::Match | EditOp::Subst | EditOp::Ins))
        .count()
}

fn reference_count(ops: &[EditOp]) -> usize {
    ops.iter()
        .filter(|op| matches!(op, EditOp::Match | EditOp::Subst | EditOp::Del))
        .count()
}

fn ctx(count: i64, start: i64, stop: i64) -> SpliceContext {
    SpliceContext {
        within_indel: true,
        correct_start: 100,
        correct_end: 120,
        splice_count: count,
        splice_start: start,
        splice_stop: stop,
        side: AnchorSide::Left,
    }
}

#[test]
fn identical_sequences_align_as_matches() {
    let t = align(b"ACGT", b"ACGT");
    assert_eq!(t.ops, vec![EditOp::Match; 4]);
    assert_eq!(t.score, 4);
    let d = render(b"ACGT", b"ACGT", &t);
    assert_eq!(text(&d.query_line), "ACGT");
    assert_eq!(text(&d.symbol_line), "||||");
    assert_eq!(text(&d.reference_line), "ACGT");
}

#[test]
fn missing_query_base_is_a_deletion() {
    let (t, d) = align_reads(b"ACT", b"ACGT");
    assert_eq!(t.ops, vec![EditOp::Match, EditOp::Match, EditOp::Del, EditOp::Match]);
    assert_eq!(t.score, -2);
    assert_eq!(text(&d.query_line), "AC-T");
    assert_eq!(text(&d.symbol_line), "||x|");
    assert_eq!(text(&d.reference_line), "ACGT");
}

#[test]
fn extra_query_base_is_an_insertion() {
    let (t, d) = align_reads(b"ACGT", b"ACT");
    assert_eq!(t.ops, vec![EditOp::Match, EditOp::Match, EditOp::Ins, EditOp::Match]);
    assert_eq!(text(&d.query_line), "ACGT");
    assert_eq!(text(&d.symbol_line), "||x|");
    assert_eq!(text(&d.reference_line), "AC-T");
}

#[test]
fn substitution_is_marked() {
    let (t, d) = align_reads(b"ACCT", b"ACGT");
    assert_eq!(t.ops, vec![EditOp::Match, EditOp::Match, EditOp::Subst, EditOp::Match]);
    assert_eq!(t.score, 2);
    assert_eq!(text(&d.symbol_line), "||*|");
}

#[test]
fn reference_outside_read_is_suppressed() {
    let (t, d) = align_reads(b"ACGT", b"GGACGTCC");
    assert_eq!(t.score, -8);
    assert_eq!(query_count(&t.ops), 4);
    assert_eq!(reference_count(&t.ops), 8);
    assert_eq!(text(&d.query_line), "ACGT");
    assert_eq!(text(&d.symbol_line), "||||");
    assert_eq!(text(&d.reference_line), "ACGT");
}

#[test]
fn empty_query_renders_nothing() {
    let (t, d) = align_reads(b"", b"ACG");
    assert_eq!(t.ops, vec![EditOp::Del; 3]);
    assert_eq!(t.score, -7);
    assert!(d.query_line.is_empty());
    assert!(d.symbol_line.is_empty());
    assert!(d.reference_line.is_empty());
}

#[test]
fn empty_reference_gives_insertions() {
    let (t, d) = align_reads(b"AC", b"");
    assert_eq!(t.ops, vec![EditOp::Ins; 2]);
    assert_eq!(t.score, -6);
    assert_eq!(text(&d.query_line), "AC");
    assert_eq!(text(&d.symbol_line), "xx");
    assert_eq!(text(&d.reference_line), "--");
}

#[test]
fn both_empty() {
    let (t, d) = align_reads(b"", b"");
    assert!(t.ops.is_empty());
    assert_eq!(t.score, 0);
    assert!(d.query_line.is_empty());
}

#[test]
fn trace_consumes_both_sequences() {
    let q = b"GATTACAGATTACA";
    let r = b"GATCACAGGTTTACA";
    let t = align(q, r);
    assert_eq!(query_count(&t.ops), q.len());
    assert_eq!(reference_count(&t.ops), r.len());
}

#[test]
fn lines_have_equal_length() {
    for (q, r) in [
        (&b"ACGTTGCA"[..], &b"ACGGCA"[..]),
        (&b""[..], &b"ACGT"[..]),
        (&b"ACGT"[..], &b""[..]),
        (&b"TTTT"[..], &b"AAAAAAAA"[..]),
    ] {
        let (_, d) = align_reads(q, r);
        assert_eq!(d.query_line.len(), d.symbol_line.len());
        assert_eq!(d.symbol_line.len(), d.reference_line.len());
    }
}

#[test]
fn stripped_lines_give_back_the_sequences() {
    let q = b"ACGTTGCAAC";
    let r = b"ACGTGCATAC";
    let (_, d) = align_reads(q, r);
    assert_eq!(strip(&d.query_line), q.to_vec());
    let m = align_multi_reads(q, r);
    assert_eq!(strip(&m.query_line), q.to_vec());
    assert_eq!(strip(&m.reference_line), r.to_vec());
}

#[test]
fn realigning_rendered_query_keeps_score() {
    let q = b"ACGTTGCAAGT";
    let r = b"ACGTGCATAGGT";
    let (t, d) = align_reads(q, r);
    let again = align(&strip(&d.query_line), r);
    assert_eq!(again.score, t.score);
}

#[test]
fn symbol_scores() {
    assert_eq!(symbol_score(b'A', b'A'), 1);
    assert_eq!(symbol_score(b'A', b'C'), -1);
}

#[test]
fn multi_read_scenario() {
    let reference = b"ACGTACGT".to_vec();
    let reads = vec![b"ACGA".to_vec(), b"CGTA".to_vec()];
    let r = align_many_reads(&reference, &reads);
    assert_eq!(r.reads.len(), 2);
    let first = &r.reads[0];
    assert_eq!(first.trace.score, -6);
    assert_eq!(first.substitutions.len(), 1);
    assert_eq!(first.trace.ops[first.substitutions[0]], EditOp::Subst);
    assert_eq!(strip(&first.query_line), b"ACGA".to_vec());
    let second = &r.reads[1];
    assert_eq!(second.trace.score, -8);
    assert!(second.substitutions.is_empty());
    assert_eq!(text(&second.query_line), " CGTA   ");
    assert_eq!(text(&second.reference_line), "ACGTACGT");
    assert_eq!(r.reference_line, second.reference_line);
}

#[test]
fn multi_read_interior_gap_and_substitution() {
    let m = align_multi_reads(b"ACGTAGGT", b"ACGTACGT");
    assert_eq!(m.substitutions, vec![5]);
    assert_eq!(text(&m.query_line), "ACGTAGGT");
    let m = align_multi_reads(b"AACCCCTT", b"AACCGCCTT");
    assert_eq!(text(&m.reference_line), "AACCGCCTT");
    assert_eq!(strip(&m.query_line), b"AACCCCTT".to_vec());
    assert_eq!(m.query_line.iter().filter(|b| **b == b'-').count(), 1);
}

#[test]
fn no_reads_give_empty_reference_line() {
    let r = align_many_reads(b"ACGT", &Vec::new());
    assert!(r.reads.is_empty());
    assert!(r.reference_line.is_empty());
}

#[test]
fn window_unspliced_keeps_read() {
    assert_eq!(select_window(b"ACGTACGT", &ctx(0, 2, 5)), b"ACGTACGT".to_vec());
}

#[test]
fn window_spliced() {
    assert_eq!(select_window(b"ACGTACGT", &ctx(1, 2, 5)), b"GTA".to_vec());
    assert_eq!(select_window(b"ACGTACGT", &ctx(2, -3, 100)), b"ACGTACGT".to_vec());
    assert_eq!(select_window(b"ACGTACGT", &ctx(1, 5, 2)), Vec::<u8>::new());
    assert_eq!(select_window(b"ACGTACGT", &ctx(1, 9, 12)), Vec::<u8>::new());
}

#[test]
fn highlight_left_anchor() {
    let h = highlight(105, 100, 120, 1, 3, AnchorSide::Left, 20, 22);
    assert_eq!((h.start_ref, h.stop_ref, h.start_alt, h.stop_alt), (5, 6, 5, 8));
    let h = highlight(95, 100, 120, 1, 3, AnchorSide::Left, 20, 22);
    assert_eq!((h.start_ref, h.stop_ref, h.start_alt, h.stop_alt), (5, 6, 5, 8));
}

#[test]
fn highlight_right_anchor() {
    let h = highlight(105, 100, 120, 1, 3, AnchorSide::Right, 20, 22);
    assert_eq!((h.start_ref, h.stop_ref, h.start_alt, h.stop_alt), (5, 6, 5, 8));
}

#[test]
fn highlight_is_clamped() {
    let h = highlight(105, 100, 150, 1, 3, AnchorSide::Right, 20, 22);
    assert_eq!((h.start_ref, h.stop_ref, h.start_alt, h.stop_alt), (0, 0, 0, 0));
    let h = highlight(200, 100, 220, 1, 3, AnchorSide::Left, 20, 22);
    assert_eq!((h.start_ref, h.stop_ref, h.start_alt, h.stop_alt), (20, 20, 22, 22));
    let h = highlight(i64::MIN, i64::MAX, 0, 0, 0, AnchorSide::Left, 5, 5);
    assert_eq!((h.start_ref, h.stop_ref), (5, 5));
}

#[test]
fn single_read_against_both_alleles() {
    let c = SpliceContext {
        within_indel: true,
        correct_start: 100,
        correct_end: 107,
        splice_count: 0,
        splice_start: 0,
        splice_stop: 0,
        side: AnchorSide::Left,
    };
    let v = align_single_read(b"ACGTACG", b"ACGTACG", b"ACGGTACG", &c, 103, 1, 2);
    assert_eq!(text(&v.against_reference.query_line), "ACGTACG");
    assert_eq!(text(&v.against_reference.symbol_line), "|||||||");
    assert_eq!(text(&v.against_alternate.reference_line), "ACGGTACG");
    assert_eq!(v.against_alternate.symbol_line.iter().filter(|b| **b == b'x').count(), 1);
    assert_eq!((v.region.start_ref, v.region.stop_ref), (3, 4));
    assert_eq!((v.region.start_alt, v.region.stop_alt), (3, 5));
}

#[test]
fn single_read_uses_window() {
    let c = ctx(1, 2, 6);
    let v = align_single_read(b"TTACGTTT", b"ACGT", b"ACT", &c, 101, 2, 1);
    assert_eq!(v.window, b"ACGT".to_vec());
    assert_eq!(text(&v.against_reference.query_line), "ACGT");
    assert_eq!(text(&v.against_alternate.reference_line), "AC-T");
    assert_eq!(v.ref_trace.score, 4);
}
