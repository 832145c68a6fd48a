//! Tiling a requested range into covered and missing segments, and what a
//! fetch may claim of the segment it was made for.

use vstd::prelude::*;

use crate::event::{GapSpan, Timestamp};

verus! {

/// One slice of a requested range: already in the cache, or not yet fetched.
/// Half-open `[from, to)`.
#[derive(Clone, Copy, Debug, PartialEq, Eq, Structural)]
pub enum Segment {
    Covered { from: Timestamp, to: Timestamp },
    Gap { from: Timestamp, to: Timestamp },
}

impl Segment {
    pub open spec fn start(self) -> int {
        match self {
            Segment::Covered { from, to } => from.0 as int,
            Segment::Gap { from, to } => from.0 as int,
        }
    }

    pub open spec fn end(self) -> int {
        match self {
            Segment::Covered { from, to } => to.0 as int,
            Segment::Gap { from, to } => to.0 as int,
        }
    }

    pub open spec fn contains(self, t: int) -> bool {
        self.start() <= t < self.end()
    }
}

/// Spans in ascending order that do not overlap and lie in `[from, to)`.
pub open spec fn gaps_within_range(gaps: Seq<GapSpan>, from: Timestamp, to: Timestamp) -> bool {
    &&& forall|i: int|
        0 <= i < gaps.len() ==> from.0 <= (#[trigger] gaps[i]).from_source_ts.0
            && gaps[i].from_source_ts.0 <= gaps[i].to_source_ts.0 && gaps[i].to_source_ts.0 <= to.0
    &&& forall|i: int, j: int|
        0 <= i < j < gaps.len() ==> (#[trigger] gaps[i]).to_source_ts.0 <= (
        #[trigger] gaps[j]).from_source_ts.0
}

/// Nonempty segments that follow one another from `from` to `to` without a
/// hole or an overlap.
pub open spec fn partitions(segs: Seq<Segment>, from: Timestamp, to: Timestamp) -> bool {
    &&& segs.len() == 0 ==> from.0 == to.0
    &&& segs.len() > 0 ==> segs[0].start() == from.0 && segs.last().end() == to.0
    &&& forall|i: int| 0 <= i < segs.len() ==> (#[trigger] segs[i]).start() < segs[i].end()
    &&& forall|i: int|
        0 <= i < segs.len() - 1 ==> (#[trigger] segs[i]).end() == segs[i + 1].start()
}

pub open spec fn in_gap_segment(segs: Seq<Segment>, t: int) -> bool {
    exists|i: int| 0 <= i < segs.len() && (#[trigger] segs[i]) is Gap && segs[i].contains(t)
}

pub open spec fn in_some_gap(gaps: Seq<GapSpan>, t: int) -> bool {
    exists|i: int| 0 <= i < gaps.len() && (#[trigger] gaps[i]).contains(t)
}

/// What one span adds behind `cursor`: the covered stretch up to it, and the
/// span itself, each only where it is not empty.
pub open spec fn tiles_of(cursor: Timestamp, g: GapSpan) -> Seq<Segment> {
    (if g.from_source_ts.0 > cursor.0 {
        seq![Segment::Covered { from: cursor, to: g.from_source_ts }]
    } else {
        seq![]
    }) + (if g.to_source_ts.0 > g.from_source_ts.0 {
        seq![Segment::Gap { from: g.from_source_ts, to: g.to_source_ts }]
    } else {
        seq![]
    })
}

/// The furthest end among `from` and the spans' ends.
pub open spec fn tiled_to(from: Timestamp, gaps: Seq<GapSpan>) -> Timestamp
    decreases gaps.len(),
{
    if gaps.len() == 0 {
        from
    } else {
        let prev = tiled_to(from, gaps.drop_last());
        if gaps.last().to_source_ts.0 > prev.0 {
            gaps.last().to_source_ts
        } else {
            prev
        }
    }
}

/// The tiles of all spans in turn, without what follows the last of them.
pub open spec fn tiles(from: Timestamp, gaps: Seq<GapSpan>) -> Seq<Segment>
    decreases gaps.len(),
{
    if gaps.len() == 0 {
        seq![]
    } else {
        tiles(from, gaps.drop_last()) + tiles_of(tiled_to(from, gaps.drop_last()), gaps.last())
    }
}

/// The tiling of `[from, to)` by the reported `gaps`.
pub open spec fn tiling(from: Timestamp, to: Timestamp, gaps: Seq<GapSpan>) -> Seq<Segment> {
    let cursor = tiled_to(from, gaps);
    tiles(from, gaps) + if cursor.0 < to.0 {
        seq![Segment::Covered { from: cursor, to }]
    } else {
        seq![]
    }
}

/// Partition `[from, to)` into ordered, disjoint segments: the reported gaps
/// and the covered stretches between them. Empty pieces are never produced.
pub fn tile(from: Timestamp, to: Timestamp, gaps: &[GapSpan]) -> (out: Vec<Segment>)
    ensures
        out@ == tiling(from, to, gaps@),
        from.0 <= to.0 && gaps_within_range(gaps@, from, to) ==> {
            &&& partitions(out@, from, to)
            &&& forall|t: int| #[trigger] in_gap_segment(out@, t) <==> in_some_gap(gaps@, t)
        },
{
    let mut out: Vec<Segment> = Vec::new();
    let mut cursor: Timestamp = from;
    let mut k: usize = 0;
    while k < gaps.len()
        invariant
            0 <= k <= gaps@.len(),
            out@ == tiles(from, gaps@.take(k as int)),
            cursor == tiled_to(from, gaps@.take(k as int)),
        decreases gaps@.len() - k,
    {
        let g = gaps[k];
        let ghost before = out@;
        let g_from = g.from_source_ts;
        let g_to = g.to_source_ts;
        if g_from.0 > cursor.0 {
            out.push(Segment::Covered { from: cursor, to: g_from });
        }
        if g_to.0 > g_from.0 {
            out.push(Segment::Gap { from: g_from, to: g_to });
        }
        proof {
            assert(gaps@.take(k as int + 1).drop_last() =~= gaps@.take(k as int));
            assert(out@ =~= before + tiles_of(cursor, g));
        }
        if g_to.0 > cursor.0 {
            cursor = g_to;
        }
        k += 1;
    }
    let ghost before = out@;
    if cursor.0 < to.0 {
        out.push(Segment::Covered { from: cursor, to });
    }
    proof {
        assert(gaps@.take(gaps@.len() as int) =~= gaps@);
        assert(out@ =~= tiling(from, to, gaps@));
        if from.0 <= to.0 && gaps_within_range(gaps@, from, to) {
            law_tiling_partitions(from, to, gaps@);
        }
    }
    out
}

/// Tiling a range by its reported gaps gives a partition of the range whose
/// gap segments are exactly the reported gaps: no instant is skipped, served
/// twice, or served from the wrong side.
pub proof fn law_tiling_partitions(from: Timestamp, to: Timestamp, gaps: Seq<GapSpan>)
    requires
        from.0 <= to.0,
        gaps_within_range(gaps, from, to),
    ensures
        partitions(tiling(from, to, gaps), from, to),
        forall|t: int| #[trigger]
            in_gap_segment(tiling(from, to, gaps), t) <==> in_some_gap(gaps, t),
{
    lemma_tiles(from, to, gaps);
    let cursor = tiled_to(from, gaps);
    let tail = if cursor.0 < to.0 {
        seq![Segment::Covered { from: cursor, to }]
    } else {
        seq![]
    };
    let all = tiling(from, to, gaps);
    assert(all =~= tiles(from, gaps) + tail);
    assert forall|t: int| #[trigger] in_gap_segment(all, t) <==> in_some_gap(gaps, t) by {
        lemma_gap_segments_concat(tiles(from, gaps), tail, t);
    }
}

proof fn lemma_gap_segments_concat(a: Seq<Segment>, b: Seq<Segment>, t: int)
    ensures
        in_gap_segment(a + b, t) <==> (in_gap_segment(a, t) || in_gap_segment(b, t)),
{
    let c = a + b;
    if in_gap_segment(a, t) {
        let i = choose|i: int|
            0 <= i < a.len() && (#[trigger] a[i]) is Gap && a[i].contains(t);
        assert(c[i] == a[i]);
    }
    if in_gap_segment(b, t) {
        let i = choose|i: int|
            0 <= i < b.len() && (#[trigger] b[i]) is Gap && b[i].contains(t);
        assert(c[a.len() + i] == b[i]);
    }
    if in_gap_segment(c, t) {
        let i = choose|i: int|
            0 <= i < c.len() && (#[trigger] c[i]) is Gap && c[i].contains(t);
        if i < a.len() {
            assert(a[i] == c[i]);
        } else {
            assert(b[i - a.len()] == c[i]);
        }
    }
}

/// The tiles of the first spans partition the range up to where they end.
proof fn lemma_tiles(from: Timestamp, to: Timestamp, gaps: Seq<GapSpan>)
    requires
        from.0 <= to.0,
        gaps_within_range(gaps, from, to),
    ensures
        from.0 <= tiled_to(from, gaps).0 <= to.0,
        gaps.len() > 0 ==> tiled_to(from, gaps) == gaps.last().to_source_ts,
        partitions(tiles(from, gaps), from, tiled_to(from, gaps)),
        forall|t: int| #[trigger]
            in_gap_segment(tiles(from, gaps), t) <==> in_some_gap(gaps, t),
    decreases gaps.len(),
{
    if gaps.len() > 0 {
        let rest = gaps.drop_last();
        let g = gaps.last();
        lemma_tiles(from, to, rest);
        let cursor = tiled_to(from, rest);
        assert(g.from_source_ts.0 >= cursor.0) by {
            if rest.len() > 0 {
                assert(rest.last() == gaps[gaps.len() - 2]);
            }
        }
        let head = tiles(from, rest);
        let tail = tiles_of(cursor, g);
        assert(tiles(from, gaps) =~= head + tail);
        assert forall|t: int| #[trigger]
            in_gap_segment(tiles(from, gaps), t) <==> in_some_gap(gaps, t) by {
            lemma_gap_segments_concat(head, tail, t);
            assert(in_gap_segment(head, t) <==> in_some_gap(rest, t));
            if in_some_gap(rest, t) {
                let i = choose|i: int| 0 <= i < rest.len() && (#[trigger] rest[i]).contains(t);
                assert(gaps[i] == rest[i]);
            }
            if in_some_gap(gaps, t) {
                let i = choose|i: int| 0 <= i < gaps.len() && (#[trigger] gaps[i]).contains(t);
                if i < rest.len() {
                    assert(rest[i] == gaps[i]);
                } else {
                    assert(tail.last() is Gap);
                    assert(tail[tail.len() - 1].contains(t));
                }
            }
            if in_gap_segment(tail, t) {
                assert(gaps[gaps.len() - 1].contains(t));
            }
        }
        let whole = tiles(from, gaps);
        assert forall|i: int| 0 <= i < whole.len() - 1 implies (#[trigger] whole[i]).end()
            == whole[i + 1].start() by {
            if i + 1 < head.len() {
                assert(whole[i] == head[i] && whole[i + 1] == head[i + 1]);
            } else if i + 1 == head.len() {
                assert(whole[i] == head.last());
                assert(whole[i + 1] == tail[0]);
            } else {
                assert(whole[i] == tail[i - head.len()]);
            }
        }
        if head.len() > 0 {
            assert(whole[0] == head[0]);
        }
    } else {
        assert(tiles(from, gaps) =~= seq![]);
    }
}

/// The confirmed end of a fetch of `[f, t)`.
pub open spec fn confirmed_end(max_data_ts: Option<Timestamp>, f: Timestamp, t: Timestamp) -> int {
    match max_data_ts {
        None => f.0 as int,
        Some(m) => if m.0 + 1 < f.0 {
            f.0 as int
        } else if m.0 + 1 > t.0 {
            t.0 as int
        } else {
            m.0 + 1
        },
    }
}

/// One past the latest data event, clamped to `[f, t]`; `f` when no data
/// event arrived. The confirmed contiguous prefix of a fetch.
pub fn confirmed_prefix_end(max_data_ts: Option<Timestamp>, f: Timestamp, t: Timestamp) -> (r:
    Timestamp)
    requires
        max_data_ts is Some ==> f.0 <= t.0,
    ensures
        r.0 == confirmed_end(max_data_ts, f, t),
        f.0 <= t.0 ==> f.0 <= r.0 <= t.0,
{
    match max_data_ts {
        None => f,
        Some(m) => {
            if m.0 == i64::MAX || m.0 + 1 > t.0 {
                t
            } else if m.0 + 1 < f.0 {
                f
            } else {
                Timestamp(m.0 + 1)
            }
        },
    }
}

/// Of a segment that a fetch was made for, exactly the part up to and with the
/// last event is confirmed; nothing is where there was none.
pub proof fn law_confirmed_up_to_the_last_event(m: Timestamp, f: Timestamp, t: Timestamp, x: int)
    requires
        f.0 <= x < t.0,
    ensures
        x < confirmed_end(Some(m), f, t) <==> x <= m.0,
        !(x < confirmed_end(None, f, t)),
        f.0 <= confirmed_end(Some(m), f, t) <= t.0,
        confirmed_end(None, f, t) == f.0,
{
}

/// A segment spans its own two ends.
pub proof fn law_segments_span_their_ends(from: Timestamp, to: Timestamp, t: int)
    ensures
        (Segment::Covered { from, to }).contains(t) <==> from.0 <= t < to.0,
        (Segment::Gap { from, to }).contains(t) <==> from.0 <= t < to.0,
{
}

} // verus!
