use datamancer::event::{GapSpan, Timestamp};
use datamancer::session::segment::{confirmed_prefix_end, tile, Segment};

fn gap(a: i64, b: i64) -> GapSpan {
    GapSpan { from_source_ts: Timestamp(a), to_source_ts: Timestamp(b) }
}

fn segs(v: &[Segment]) -> Vec<(char, i64, i64)> {
    v.iter()
        .map(|s| match *s {
            Segment::Covered { from, to } => ('C', from.0, to.0),
            Segment::Gap { from, to } => ('G', from.0, to.0),
        })
        .collect()
}

#[test]
fn no_gaps_is_one_covered_segment() {
    let t = tile(Timestamp(0), Timestamp(100), &[]);
    assert_eq!(segs(&t), vec![('C', 0, 100)]);
}

#[test]
fn whole_range_gap_is_one_gap_segment() {
    let t = tile(Timestamp(0), Timestamp(100), &[gap(0, 100)]);
    assert_eq!(segs(&t), vec![('G', 0, 100)]);
}

#[test]
fn leading_trailing_and_middle_gaps_interleave() {
    let t = tile(Timestamp(0), Timestamp(60), &[gap(0, 10), gap(20, 40), gap(50, 60)]);
    assert_eq!(
        segs(&t),
        vec![('G', 0, 10), ('C', 10, 20), ('G', 20, 40), ('C', 40, 50), ('G', 50, 60)]
    );
}

#[test]
fn gap_flush_with_start_emits_no_empty_covered() {
    let t = tile(Timestamp(0), Timestamp(30), &[gap(0, 10)]);
    assert_eq!(segs(&t), vec![('G', 0, 10), ('C', 10, 30)]);
}

#[test]
fn gap_flush_with_end_emits_no_empty_covered() {
    let t = tile(Timestamp(0), Timestamp(30), &[gap(20, 30)]);
    assert_eq!(segs(&t), vec![('C', 0, 20), ('G', 20, 30)]);
}

#[test]
fn empty_gaps_and_empty_ranges_leave_nothing_behind() {
    assert_eq!(segs(&tile(Timestamp(5), Timestamp(5), &[])), vec![]);
    assert_eq!(segs(&tile(Timestamp(0), Timestamp(10), &[gap(4, 4)])), vec![('C', 0, 4), ('C', 4, 10)]);
}

#[test]
fn confirmed_prefix_is_clamped_to_the_segment() {
    let (f, t) = (Timestamp(10), Timestamp(20));
    assert_eq!(confirmed_prefix_end(None, f, t), Timestamp(10));
    assert_eq!(confirmed_prefix_end(Some(Timestamp(14)), f, t), Timestamp(15));
    assert_eq!(confirmed_prefix_end(Some(Timestamp(3)), f, t), Timestamp(10));
    assert_eq!(confirmed_prefix_end(Some(Timestamp(19)), f, t), Timestamp(20));
    assert_eq!(confirmed_prefix_end(Some(Timestamp(i64::MAX)), f, t), Timestamp(20));
}
