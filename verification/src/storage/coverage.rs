//! Coverage bookkeeping shared by the storage backends: sorted,
//! non-overlapping half-open `[from, to)` segments with merge, intersection
//! and gap queries.

use vstd::prelude::*;

verus! {

/// Whether the instant `t` lies in the half-open segment `s`.
pub open spec fn within(s: (i64, i64), t: int) -> bool {
    s.0 <= t < s.1
}

/// Whether some segment contains the instant `t`.
pub open spec fn covered(segs: Seq<(i64, i64)>, t: int) -> bool {
    exists|i: int| 0 <= i < segs.len() && #[trigger] within(segs[i], t)
}

/// Nonempty segments in ascending order, none overlapping another.
pub open spec fn sorted_disjoint(segs: Seq<(i64, i64)>) -> bool {
    &&& forall|i: int| 0 <= i < segs.len() ==> (#[trigger] segs[i]).0 < segs[i].1
    &&& forall|i: int, j: int|
        0 <= i < j < segs.len() ==> (#[trigger] segs[i]).1 <= (#[trigger] segs[j]).0
}

/// Between any two segments lies an instant that neither contains.
pub open spec fn separated(segs: Seq<(i64, i64)>) -> bool {
    forall|i: int, j: int|
        0 <= i < j < segs.len() ==> (#[trigger] segs[i]).1 < (#[trigger] segs[j]).0
}

/// The part of segment `s` inside `[from, to)`; empty where its first bound
/// is not below its second.
pub open spec fn overlap(s: (i64, i64), from: i64, to: i64) -> (i64, i64) {
    (
        if s.0 >= from {
            s.0
        } else {
            from
        },
        if s.1 <= to {
            s.1
        } else {
            to
        },
    )
}

pub open spec fn overlaps(s: (i64, i64), from: i64, to: i64) -> bool {
    overlap(s, from, to).0 < overlap(s, from, to).1
}

pub open spec fn width(s: (i64, i64)) -> int {
    s.1 - s.0
}

/// What is cached of one key: its covered segments and the number of events
/// they hold.
#[derive(Debug)]
pub struct CoverageDoc {
    /// Covered source-time ranges in nanoseconds.
    pub segments: Vec<(i64, i64)>,
    pub event_count: u64,
    /// Asset class of the covered instrument, so that a catalog can restore a
    /// faithful instrument; absent on documents written without it.
    pub asset_class: Option<String>,
}

impl Default for CoverageDoc {
    fn default() -> (r: CoverageDoc)
        ensures
            r.segments@ == Seq::<(i64, i64)>::empty(),
            r.event_count == 0,
            r.asset_class is None,
    {
        CoverageDoc { segments: Vec::new(), event_count: 0, asset_class: None }
    }
}

impl CoverageDoc {
    /// Segments are sorted and do not overlap.
    pub open spec fn wf(self) -> bool {
        sorted_disjoint(self.segments@)
    }

    /// Whether the document covers the instant `t`.
    pub open spec fn covers(self, t: int) -> bool {
        covered(self.segments@, t)
    }

    /// Add `[from, to)` to the covered set and `added_events` to the count; a
    /// range that is empty changes nothing.
    pub fn merge_in(&mut self, from: i64, to: i64, added_events: u64)
        ensures
            final(self).asset_class == old(self).asset_class,
            to <= from ==> *final(self) == *old(self),
            from < to ==> final(self).event_count == if old(self).event_count + added_events
                > u64::MAX {
                u64::MAX as int
            } else {
                old(self).event_count + added_events
            },
            old(self).wf() ==> final(self).wf(),
            old(self).wf() ==> forall|t: int|
                #[trigger] final(self).covers(t) <==> (old(self).covers(t) || from <= t < to),
            old(self).wf() && separated(old(self).segments@) ==> separated(final(self).segments@),
    {
        if to <= from {
            return ;
        }
        self.event_count = self.event_count.saturating_add(added_events);
        let mut new_from: i64 = from;
        let mut new_to: i64 = to;
        let mut merged: Vec<(i64, i64)> = Vec::new();
        let mut consumed = false;
        let ghost segs = self.segments@;
        let mut k: usize = 0;
        proof {
            assert(segs.take(0) =~= Seq::<(i64, i64)>::empty());
            lemma_covered_push(merged@, (from, to));
        }
        while k < self.segments.len()
            invariant
                0 <= k <= segs.len(),
                self.segments@ == segs,
                from < to,
                new_from < new_to,
                sorted_disjoint(segs) ==> sorted_disjoint(merged@),
                sorted_disjoint(segs) && separated(segs) ==> separated(merged@),
                sorted_disjoint(segs) ==> forall|m: int, j: int|
                    0 <= m < merged@.len() && k <= j < segs.len() ==> (#[trigger] merged@[m]).1 <= (
                    #[trigger] segs[j]).0,
                separated(segs) && sorted_disjoint(segs) ==> forall|m: int, j: int|
                    0 <= m < merged@.len() && k <= j < segs.len() ==> (#[trigger] merged@[m]).1 < (
                    #[trigger] segs[j]).0,
                !consumed && sorted_disjoint(segs) ==> forall|m: int|
                    0 <= m < merged@.len() ==> (#[trigger] merged@[m]).1 <= new_from,
                !consumed && sorted_disjoint(segs) && separated(segs) ==> forall|m: int|
                    0 <= m < merged@.len() ==> (#[trigger] merged@[m]).1 < new_from,
                consumed && sorted_disjoint(segs) ==> forall|j: int|
                    k <= j < segs.len() ==> new_to < (#[trigger] segs[j]).0,
                sorted_disjoint(segs) ==> forall|t: int|
                    #[trigger] covered(with_pending(merged@, (new_from, new_to), consumed), t) <==> (
                    covered(segs.take(k as int), t) || from <= t < to),
            decreases segs.len() - k,
        {
            let (a, b) = self.segments[k];
            let ghost before = merged@;
            let ghost was_consumed = consumed;
            let ghost old_new = (new_from, new_to);
            if b < new_from {
                merged.push((a, b));
            } else if a > new_to {
                if !consumed {
                    merged.push((new_from, new_to));
                    consumed = true;
                }
                merged.push((a, b));
            } else {
                if a < new_from {
                    new_from = a;
                }
                if b > new_to {
                    new_to = b;
                }
            }
            proof {
                if sorted_disjoint(segs) {
                    assert(segs[k as int] == (a, b));
                    lemma_covered_take(segs, k as int);
                    let now = with_pending(merged@, (new_from, new_to), consumed);
                    let earlier = with_pending(before, old_new, was_consumed);
                    lemma_covered_push(before, old_new);
                    lemma_covered_push(before, (a, b));
                    lemma_covered_push(before.push((a, b)), old_new);
                    lemma_covered_push(before.push(old_new), (a, b));
                    lemma_covered_push(before, (new_from, new_to));
                    assert forall|t: int| #[trigger] covered(now, t) <==> (covered(
                        segs.take(k as int + 1),
                        t,
                    ) || from <= t < to) by {
                        assert(covered(earlier, t) <==> (covered(segs.take(k as int), t) || from <= t
                            < to));
                        assert(covered(segs.take(k as int + 1), t) <==> (covered(
                            segs.take(k as int),
                            t,
                        ) || within((a, b), t)));
                        assert(covered(before.push((a, b)), t) <==> covered(before, t) || within(
                            (a, b),
                            t,
                        ));
                        assert(covered(before.push(old_new), t) <==> covered(before, t) || within(
                            old_new,
                            t,
                        ));
                        assert(covered(now, t) <==> covered(earlier, t) || within((a, b), t));
                    }
                }
            }
            k += 1;
        }
        proof {
            assert(segs.take(segs.len() as int) =~= segs);
        }
        let ghost whole = with_pending(merged@, (new_from, new_to), consumed);
        if !consumed {
            merged.push((new_from, new_to));
        }
        self.segments = merged;
        proof {
            assert(self.segments@ =~= whole);
            if sorted_disjoint(segs) {
                assert forall|t: int| #[trigger]
                    self.covers(t) <==> (covered(segs, t) || from <= t < to) by {
                    assert(covered(whole, t) <==> (covered(segs, t) || from <= t < to));
                }
            }
        }
    }

    /// The widest part of `[from, to)` inside one segment; the earliest of
    /// several that are equally wide.
    pub fn intersect(&self, from: i64, to: i64) -> (r: Option<(i64, i64)>)
        ensures
            r is None <==> forall|i: int|
                0 <= i < self.segments@.len() ==> !overlaps(#[trigger] self.segments@[i], from, to),
            r matches Some(best) ==> exists|i: int|
                {
                    &&& 0 <= i < self.segments@.len()
                    &&& overlaps(#[trigger] self.segments@[i], from, to)
                    &&& best == overlap(self.segments@[i], from, to)
                    &&& forall|j: int|
                        0 <= j < self.segments@.len() ==> width(
                            overlap(#[trigger] self.segments@[j], from, to),
                        ) <= width(best)
                    &&& forall|j: int|
                        0 <= j < i ==> width(overlap(#[trigger] self.segments@[j], from, to))
                            < width(best)
                },
    {
        let mut best: Option<(i64, i64)> = None;
        let ghost mut at: int = 0;
        let mut k: usize = 0;
        while k < self.segments.len()
            invariant
                0 <= k <= self.segments@.len(),
                best is None <==> forall|i: int|
                    0 <= i < k ==> !overlaps(#[trigger] self.segments@[i], from, to),
                best is Some ==> {
                    &&& 0 <= at < k
                    &&& overlaps(self.segments@[at], from, to)
                    &&& best->0 == overlap(self.segments@[at], from, to)
                    &&& forall|j: int|
                        0 <= j < k ==> width(overlap(#[trigger] self.segments@[j], from, to))
                            <= width(best->0)
                    &&& forall|j: int|
                        0 <= j < at ==> width(overlap(#[trigger] self.segments@[j], from, to))
                            < width(best->0)
                },
            decreases self.segments@.len() - k,
        {
            let (a, b) = self.segments[k];
            let lo: i64 = if a >= from {
                a
            } else {
                from
            };
            let hi: i64 = if b <= to {
                b
            } else {
                to
            };
            assert((lo, hi) == overlap(self.segments@[k as int], from, to));
            if lo < hi {
                let wider = match best {
                    None => true,
                    Some((prev_lo, prev_hi)) => hi as i128 - lo as i128 > prev_hi as i128
                        - prev_lo as i128,
                };
                if wider {
                    best = Some((lo, hi));
                    proof {
                        at = k as int;
                    }
                }
            }
            k += 1;
        }
        best
    }

    /// The maximal subranges of `[from, to)` that no segment covers, in
    /// ascending order.
    pub fn gaps_within(&self, from: i64, to: i64) -> (gaps: Vec<(i64, i64)>)
        ensures
            from >= to ==> gaps@.len() == 0,
            self.wf() ==> sorted_disjoint(gaps@) && separated(gaps@),
            self.wf() ==> forall|t: int|
                #[trigger] covered(gaps@, t) <==> (from <= t < to && !self.covers(t)),
    {
        if from >= to {
            return Vec::new();
        }
        let mut cursor: i64 = from;
        let mut gaps: Vec<(i64, i64)> = Vec::new();
        let ghost segs = self.segments@;
        let mut k: usize = 0;
        let mut done = false;
        proof {
            assert(segs.take(0) =~= Seq::<(i64, i64)>::empty());
        }
        while !done && k < self.segments.len()
            invariant
                0 <= k <= segs.len(),
                segs == self.segments@,
                from < to,
                from <= cursor,
                sorted_disjoint(segs) ==> sorted_disjoint(gaps@) && separated(gaps@),
                sorted_disjoint(segs) ==> forall|m: int|
                    0 <= m < gaps@.len() ==> (#[trigger] gaps@[m]).1 < cursor,
                // Everything in `[from, cursor)` is settled.
                sorted_disjoint(segs) ==> forall|t: int|
                    #[trigger] covered(gaps@, t) <==> (from <= t < cursor && t < to && !covered(
                        segs,
                        t,
                    )),
                sorted_disjoint(segs) ==> forall|j: int|
                    0 <= j < k && !done ==> (#[trigger] segs[j]).1 <= cursor,
                done && sorted_disjoint(segs) ==> cursor >= to || forall|j: int|
                    0 <= j < segs.len() ==> (#[trigger] segs[j]).1 <= cursor || segs[j].0 >= to,
            decreases segs.len() - k + if done {
                0int
            } else {
                1
            },
        {
            let (a, b) = self.segments[k];
            let ghost before = gaps@;
            let ghost before_cursor = cursor;
            if b <= cursor {
                k += 1;
            } else if a >= to {
                proof {
                    if sorted_disjoint(segs) {
                        assert forall|j: int| 0 <= j < segs.len() implies (#[trigger] segs[j]).1
                            <= cursor || segs[j].0 >= to by {
                            assert(segs[k as int] == (a, b));
                            if j > k {
                                assert(segs[k as int].1 <= segs[j].0);
                            }
                        }
                    }
                }
                done = true;
            } else {
                let upper: i64 = if a <= to {
                    a
                } else {
                    to
                };
                if a > cursor {
                    gaps.push((cursor, upper));
                }
                cursor = b;
                proof {
                    if sorted_disjoint(segs) {
                        assert(segs[k as int] == (a, b));
                        lemma_covered_push(before, (before_cursor, upper));
                        assert forall|t: int| #[trigger]
                            covered(gaps@, t) <==> (from <= t < cursor && t < to && !covered(
                                segs,
                                t,
                            )) by {
                            assert(covered(before, t) || !covered(before, t));
                            if before_cursor <= t < a {
                                lemma_not_covered_between(segs, k as int, before_cursor as int, t);
                            }
                            if a <= t < b {
                                assert(within(segs[k as int], t));
                            }
                        }
                    }
                }
                if cursor >= to {
                    done = true;
                } else {
                    k += 1;
                }
            }
        }
        let ghost before = gaps@;
        if cursor < to {
            gaps.push((cursor, to));
            proof {
                lemma_covered_push(before, (cursor, to));
                if sorted_disjoint(segs) {
                    assert forall|t: int| #[trigger]
                        covered(gaps@, t) <==> (from <= t < to && !covered(segs, t)) by {
                        assert(covered(before, t) || !covered(before, t));
                        if cursor <= t < to && covered(segs, t) {
                            let i = choose|i: int|
                                0 <= i < segs.len() && #[trigger] within(segs[i], t);
                            assert(segs[i].1 > cursor && segs[i].0 < to);
                            assert(false);
                        }
                    }
                }
            }
        }
        gaps
    }
}

/// The segments written so far, with the growing one where it has not been
/// written yet.
spec fn with_pending(
    merged: Seq<(i64, i64)>,
    pending: (i64, i64),
    consumed: bool,
) -> Seq<(i64, i64)> {
    if consumed {
        merged
    } else {
        merged.push(pending)
    }
}

proof fn lemma_covered_push(segs: Seq<(i64, i64)>, s: (i64, i64))
    ensures
        forall|t: int| #[trigger]
            covered(segs.push(s), t) <==> (covered(segs, t) || within(s, t)),
{
    assert forall|t: int| #[trigger]
        covered(segs.push(s), t) <==> (covered(segs, t) || within(s, t)) by {
        if covered(segs, t) {
            let i = choose|i: int| 0 <= i < segs.len() && #[trigger] within(segs[i], t);
            assert(segs.push(s)[i] == segs[i]);
            assert(within(segs.push(s)[i], t));
        }
        if within(s, t) {
            assert(within(segs.push(s)[segs.len() as int], t));
        }
        if covered(segs.push(s), t) {
            let i = choose|i: int|
                0 <= i < segs.push(s).len() && #[trigger] within(segs.push(s)[i], t);
            if i < segs.len() {
                assert(within(segs[i], t));
            }
        }
    }
}

proof fn lemma_covered_take(segs: Seq<(i64, i64)>, k: int)
    requires
        0 <= k < segs.len(),
    ensures
        forall|t: int| #[trigger]
            covered(segs.take(k + 1), t) <==> (covered(segs.take(k), t) || within(segs[k], t)),
{
    lemma_covered_push(segs.take(k), segs[k]);
    assert(segs.take(k + 1) =~= segs.take(k).push(segs[k]));
}

/// Nothing between the end of the segments before `k` and the start of the
/// segment at `k` is covered.
proof fn lemma_not_covered_between(segs: Seq<(i64, i64)>, k: int, cursor: int, t: int)
    requires
        sorted_disjoint(segs),
        0 <= k < segs.len(),
        forall|j: int| 0 <= j < k ==> (#[trigger] segs[j]).1 <= cursor,
        cursor <= t < segs[k].0,
    ensures
        !covered(segs, t),
{
    if covered(segs, t) {
        let i = choose|i: int| 0 <= i < segs.len() && #[trigger] within(segs[i], t);
        if i > k {
            assert(segs[k].1 <= segs[i].0);
        }
    }
}

/// A covered set has one list of separated segments: two such lists that
/// cover the same instants are equal.
pub proof fn law_segments_are_canonical(a: Seq<(i64, i64)>, b: Seq<(i64, i64)>)
    requires
        sorted_disjoint(a) && separated(a),
        sorted_disjoint(b) && separated(b),
        forall|t: int| #[trigger] covered(a, t) <==> covered(b, t),
    ensures
        a == b,
    decreases a.len(),
{
    if a.len() == 0 {
        if b.len() > 0 {
            assert(within(b[0], b[0].0 as int));
            assert(covered(b, b[0].0 as int));
            assert(covered(a, b[0].0 as int));
        }
        assert(a =~= b);
    } else {
        assert(within(a[0], a[0].0 as int));
        assert(covered(a, a[0].0 as int));
        assert(covered(b, a[0].0 as int));
        lemma_first_segment_starts_first(a, b);
        lemma_first_segment_starts_first(b, a);
        lemma_first_segment_ends_first(a, b);
        lemma_first_segment_ends_first(b, a);
        assert(a[0] == b[0]);
        let ta = a.skip(1);
        let tb = b.skip(1);
        assert forall|t: int| #[trigger] covered(ta, t) <==> covered(tb, t) by {
            lemma_covered_tail(a, t);
            lemma_covered_tail(b, t);
            assert(covered(a, t) <==> covered(b, t));
        }
        law_segments_are_canonical(ta, tb);
        assert(a =~= seq![a[0]] + ta);
        assert(b =~= seq![b[0]] + tb);
    }
}

proof fn lemma_first_segment_starts_first(a: Seq<(i64, i64)>, b: Seq<(i64, i64)>)
    requires
        a.len() > 0,
        sorted_disjoint(a),
        sorted_disjoint(b),
        forall|t: int| #[trigger] covered(a, t) <==> covered(b, t),
    ensures
        b.len() > 0,
        b[0].0 <= a[0].0,
{
    assert(within(a[0], a[0].0 as int));
    assert(covered(a, a[0].0 as int));
    assert(covered(b, a[0].0 as int));
    let i = choose|i: int| 0 <= i < b.len() && #[trigger] within(b[i], a[0].0 as int);
    if i > 0 {
        assert(b[0].1 <= b[i].0);
    }
}

proof fn lemma_first_segment_ends_first(a: Seq<(i64, i64)>, b: Seq<(i64, i64)>)
    requires
        a.len() > 0,
        b.len() > 0,
        sorted_disjoint(a) && separated(a),
        sorted_disjoint(b) && separated(b),
        a[0].0 == b[0].0,
        forall|t: int| #[trigger] covered(a, t) <==> covered(b, t),
    ensures
        b[0].1 <= a[0].1,
{
    if b[0].1 > a[0].1 {
        let t = a[0].1 as int;
        assert(within(b[0], t));
        assert(covered(b, t));
        assert(covered(a, t));
        let i = choose|i: int| 0 <= i < a.len() && #[trigger] within(a[i], t);
        if i > 0 {
            assert(a[0].1 < a[i].0);
        }
    }
}

/// The instants of all segments but the first are those at or behind its end.
proof fn lemma_covered_tail(a: Seq<(i64, i64)>, t: int)
    requires
        a.len() > 0,
        sorted_disjoint(a),
    ensures
        covered(a.skip(1), t) <==> (covered(a, t) && t >= a[0].1),
{
    if covered(a.skip(1), t) {
        let i = choose|i: int| 0 <= i < a.skip(1).len() && #[trigger] within(a.skip(1)[i], t);
        assert(within(a[i + 1], t));
        assert(a[0].1 <= a[i + 1].0);
    }
    if covered(a, t) && t >= a[0].1 {
        let i = choose|i: int| 0 <= i < a.len() && #[trigger] within(a[i], t);
        assert(i > 0);
        assert(within(a.skip(1)[i - 1], t));
    }
}

/// What has been merged is no longer missing: a range inside a covered set
/// has no gaps, and a range without gaps lies inside the covered set.
pub proof fn law_no_gaps_iff_covered(
    segs: Seq<(i64, i64)>,
    from: i64,
    to: i64,
    gaps: Seq<(i64, i64)>,
)
    requires
        sorted_disjoint(gaps),
        forall|t: int| #[trigger] covered(gaps, t) <==> (from <= t < to && !covered(segs, t)),
    ensures
        gaps.len() == 0 <==> forall|t: int| from <= t < to ==> #[trigger] covered(segs, t),
{
    if gaps.len() > 0 {
        assert(within(gaps[0], gaps[0].0 as int));
        assert(covered(gaps, gaps[0].0 as int));
        assert(!covered(segs, gaps[0].0 as int));
    } else {
        assert forall|t: int| from <= t < to implies #[trigger] covered(segs, t) by {
            assert(!covered(gaps, t));
        }
    }
}

/// The order in which two ranges are merged does not matter.
pub proof fn law_merge_order_is_irrelevant(
    base: Seq<(i64, i64)>,
    p: (i64, i64),
    q: (i64, i64),
    one: Seq<(i64, i64)>,
    other: Seq<(i64, i64)>,
)
    requires
        sorted_disjoint(one) && separated(one),
        sorted_disjoint(other) && separated(other),
        forall|t: int| #[trigger]
            covered(one, t) <==> ((covered(base, t) || within(p, t)) || within(q, t)),
        forall|t: int| #[trigger]
            covered(other, t) <==> ((covered(base, t) || within(q, t)) || within(p, t)),
    ensures
        one == other,
{
    assert forall|t: int| #[trigger] covered(one, t) <==> covered(other, t) by {
        assert(covered(other, t) || !covered(other, t));
    }
    law_segments_are_canonical(one, other);
}

/// The overlap of a segment and a range holds exactly the instants of both.
pub proof fn law_overlap_holds_the_instants_of_both(s: (i64, i64), from: i64, to: i64, t: int)
    ensures
        within(overlap(s, from, to), t) <==> within(s, t) && from <= t < to,
        within(s, t) && from <= t < to ==> overlaps(s, from, to),
        overlaps(s, from, to) ==> width(overlap(s, from, to)) > 0,
{
}

} // verus!
