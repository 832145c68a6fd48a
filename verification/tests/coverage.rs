use datamancer::storage::coverage::CoverageDoc;

#[test]
fn coverage_coverage_merges_overlapping_segments() {
    let mut c = CoverageDoc::default();
    c.merge_in(10, 20, 1);
    c.merge_in(15, 30, 1);
    assert_eq!(c.segments, vec![(10, 30)]);
    c.merge_in(50, 60, 1);
    assert_eq!(c.segments, vec![(10, 30), (50, 60)]);
    c.merge_in(25, 55, 1);
    assert_eq!(c.segments, vec![(10, 60)]);
}

#[test]
fn coverage_coverage_gaps_within_request() {
    let mut c = CoverageDoc::default();
    c.merge_in(10, 20, 1);
    c.merge_in(40, 50, 1);
    assert_eq!(c.gaps_within(0, 60), vec![(0, 10), (20, 40), (50, 60)]);
    assert_eq!(c.gaps_within(10, 50), vec![(20, 40)]);
    assert_eq!(c.gaps_within(0, 5), vec![(0, 5)]);
    assert!(c.gaps_within(10, 20).is_empty());
}

#[test]
fn coverage_coverage_intersect_picks_widest_overlap() {
    let mut c = CoverageDoc::default();
    c.merge_in(0, 100, 1);
    c.merge_in(200, 210, 1);
    assert_eq!(c.intersect(50, 150), Some((50, 100)));
    assert_eq!(c.intersect(150, 250), Some((200, 210)));
}

#[test]
fn surreal_coverage_merges_overlapping_segments() {
    let mut c = CoverageDoc::default();
    c.merge_in(10, 20, 1);
    c.merge_in(15, 30, 1);
    assert_eq!(c.segments, vec![(10, 30)]);
    c.merge_in(50, 60, 1);
    assert_eq!(c.segments, vec![(10, 30), (50, 60)]);
    c.merge_in(25, 55, 1);
    assert_eq!(c.segments, vec![(10, 60)]);
}

#[test]
fn surreal_coverage_gaps_within_request() {
    let mut c = CoverageDoc::default();
    c.merge_in(10, 20, 1);
    c.merge_in(40, 50, 1);
    assert_eq!(c.gaps_within(0, 60), vec![(0, 10), (20, 40), (50, 60)]);
    assert_eq!(c.gaps_within(10, 50), vec![(20, 40)]);
    assert_eq!(c.gaps_within(0, 5), vec![(0, 5)]);
    assert!(c.gaps_within(10, 20).is_empty());
}

#[test]
fn surreal_coverage_intersect_picks_widest_overlap() {
    let mut c = CoverageDoc::default();
    c.merge_in(0, 100, 1);
    c.merge_in(200, 210, 1);
    assert_eq!(c.intersect(50, 150), Some((50, 100)));
    assert_eq!(c.intersect(150, 250), Some((200, 210)));
}

#[test]
fn empty_ranges_change_nothing_and_counts_saturate() {
    let mut c = CoverageDoc::default();
    c.merge_in(5, 5, 7);
    c.merge_in(9, 3, 7);
    assert!(c.segments.is_empty());
    assert_eq!(c.event_count, 0);
    c.merge_in(0, 1, u64::MAX - 1);
    c.merge_in(1, 2, 5);
    assert_eq!(c.segments, vec![(0, 2)]);
    assert_eq!(c.event_count, u64::MAX);
}

#[test]
fn touching_segments_join_and_ties_go_to_the_earlier() {
    let mut c = CoverageDoc::default();
    c.merge_in(20, 30, 0);
    c.merge_in(0, 10, 0);
    assert_eq!(c.intersect(5, 25), Some((5, 10)));
    c.merge_in(10, 20, 0);
    assert_eq!(c.segments, vec![(0, 30)]);
    assert_eq!(c.intersect(40, 50), None);
}

#[test]
fn extreme_bounds_do_not_overflow() {
    let mut c = CoverageDoc::default();
    c.merge_in(i64::MIN, -10, 0);
    c.merge_in(10, i64::MAX, 0);
    assert_eq!(c.intersect(i64::MIN, i64::MAX), Some((i64::MIN, -10)));
    assert_eq!(c.gaps_within(i64::MIN, i64::MAX), vec![(-10, 10)]);
}

#[test]
fn what_was_merged_has_no_gaps() {
    let mut c = CoverageDoc::default();
    for (a, b) in [(7, 9), (1, 3), (2, 8), (20, 25)] {
        c.merge_in(a, b, 0);
        assert!(c.gaps_within(a, b).is_empty());
    }
    assert_eq!(c.segments, vec![(1, 9), (20, 25)]);
}
