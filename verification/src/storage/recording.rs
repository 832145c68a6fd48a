//! What a tap log has recorded, and what a replay gives back of it.

use vstd::prelude::*;

use crate::event::{event_views, EventKind, EventView, InstrumentView};
use crate::request::ReplayRequest;
use crate::table::pair_of;

use super::order::{law_ordering_is_a_permutation, ordered, Numbered};
use super::tap_documents::{
    law_recorded_rows_round_trip, recorded_by, tap_row_of, TapRow, TapShard,
};
use super::tap_log::{
    asks_for, events_of, law_tap_rows_round_trip, numbered_views, recorded_in, tap_row, ShardRows,
};

verus! {

/// An event that was recorded, and its ordinal.
pub type Recorded = (u64, EventView);

/// Whether events were recorded in order: each under a larger ordinal than
/// those before it. Only data is recorded.
pub open spec fn recorded_in_order(log: Seq<Recorded>) -> bool {
    &&& forall|i: int, j: int| 0 <= i < j < log.len() ==> (#[trigger] log[i]).0 < (#[trigger] log[j]).0
    &&& forall|i: int| 0 <= i < log.len() ==> (#[trigger] log[i]).1.is_data()
}

/// Whether an event is of the stream, in the window of source time.
pub open spec fn in_window(
    e: Recorded,
    pair: (InstrumentView, EventKind),
    request: ReplayRequest,
) -> bool {
    pair_of(e.1) == Some(pair) && request.from.0 <= e.1.source_ts().0 < request.to.0
}

/// Whether a request asks for an event.
pub open spec fn is_asked(e: Recorded, request: ReplayRequest) -> bool {
    &&& asks_for(request, pair_of(e.1)->0)
    &&& in_window(e, pair_of(e.1)->0, request)
}

/// What a request asks for of what was recorded, in order.
pub open spec fn asked_of(log: Seq<Recorded>, request: ReplayRequest) -> Seq<Recorded>
    decreases log.len(),
{
    if log.len() == 0 {
        seq![]
    } else if is_asked(log.last(), request) {
        asked_of(log.drop_last(), request).push(log.last())
    } else {
        asked_of(log.drop_last(), request)
    }
}

/// The events of what was recorded.
pub open spec fn events_in(s: Seq<Recorded>) -> Seq<EventView> {
    Seq::new(s.len(), |i: int| s[i].1)
}

spec fn distinct_ords(s: Seq<Recorded>) -> bool {
    forall|i: int, j: int|
        0 <= i < s.len() && 0 <= j < s.len() && (#[trigger] s[i]).0 == (#[trigger] s[j]).0 ==> i
            == j
}

spec fn ascends(s: Seq<Recorded>) -> bool {
    forall|i: int, j: int| 0 <= i < j < s.len() ==> (#[trigger] s[i]).0 < (#[trigger] s[j]).0
}

/// Whether a part holds what was recorded of a stream in the window, once.
spec fn is_part(
    part: Seq<Recorded>,
    log: Seq<Recorded>,
    pair: (InstrumentView, EventKind),
    request: ReplayRequest,
) -> bool {
    &&& part.no_duplicates()
    &&& forall|e: Recorded| #[trigger]
        part.contains(e) <==> (log.contains(e) && in_window(e, pair, request))
}

spec fn joined(parts: Seq<Seq<Recorded>>) -> Seq<Recorded>
    decreases parts.len(),
{
    if parts.len() == 0 {
        seq![]
    } else {
        joined(parts.drop_last()) + parts.last()
    }
}

proof fn lemma_in_sum<T>(a: Seq<T>, b: Seq<T>, e: T)
    ensures
        (a + b).contains(e) <==> (a.contains(e) || b.contains(e)),
{
    if a.contains(e) {
        let i = choose|i: int| 0 <= i < a.len() && a[i] == e;
        assert((a + b)[i] == e);
    }
    if b.contains(e) {
        let i = choose|i: int| 0 <= i < b.len() && b[i] == e;
        assert((a + b)[a.len() + i] == e);
    }
}

/// Events of the log that share an ordinal are the same.
proof fn lemma_same_ord(log: Seq<Recorded>, a: Recorded, b: Recorded)
    requires
        recorded_in_order(log),
        log.contains(a),
        log.contains(b),
        a.0 == b.0,
    ensures
        a == b,
{
    let i = choose|i: int| 0 <= i < log.len() && log[i] == a;
    let j = choose|j: int| 0 <= j < log.len() && log[j] == b;
    if i < j {
        assert(log[i].0 < log[j].0);
    } else if j < i {
        assert(log[j].0 < log[i].0);
    }
}

proof fn lemma_joined(
    parts: Seq<Seq<Recorded>>,
    pairs: Seq<(InstrumentView, EventKind)>,
    log: Seq<Recorded>,
    request: ReplayRequest,
)
    requires
        recorded_in_order(log),
        parts.len() == pairs.len(),
        pairs.no_duplicates(),
        forall|i: int| 0 <= i < parts.len() ==> is_part(#[trigger] parts[i], log, pairs[i], request),
    ensures
        distinct_ords(joined(parts)),
        forall|e: Recorded| #[trigger]
            joined(parts).contains(e) <==> (log.contains(e) && exists|i: int|
                0 <= i < pairs.len() && in_window(e, #[trigger] pairs[i], request)),
    decreases parts.len(),
{
    if parts.len() > 0 {
        let (p, q) = (parts.drop_last(), pairs.drop_last());
        let n = parts.len() - 1;
        assert forall|i: int| 0 <= i < p.len() implies is_part(
            #[trigger] p[i],
            log,
            q[i],
            request,
        ) by {
            assert(is_part(parts[i], log, pairs[i], request));
        }
        assert(q.no_duplicates());
        lemma_joined(p, q, log, request);
        assert(is_part(parts[n], log, pairs[n], request));
        let (a, b) = (joined(p), parts.last());
        assert forall|e: Recorded| #[trigger]
            joined(parts).contains(e) <==> (log.contains(e) && exists|i: int|
                0 <= i < pairs.len() && in_window(e, #[trigger] pairs[i], request)) by {
            lemma_in_sum(a, b, e);
            if a.contains(e) {
                let i = choose|i: int| 0 <= i < q.len() && in_window(e, #[trigger] q[i], request);
                assert(in_window(e, pairs[i], request));
            }
            if b.contains(e) {
                assert(in_window(e, pairs[n], request));
            }
            if log.contains(e) && exists|i: int|
                0 <= i < pairs.len() && in_window(e, #[trigger] pairs[i], request) {
                let i = choose|i: int|
                    0 <= i < pairs.len() && in_window(e, #[trigger] pairs[i], request);
                if i < n {
                    assert(in_window(e, q[i], request));
                } else {
                    assert(b.contains(e));
                }
            }
        }
        assert forall|i: int, j: int|
            0 <= i < joined(parts).len() && 0 <= j < joined(parts).len() && (#[trigger] joined(
                parts,
            )[i]).0 == (#[trigger] joined(parts)[j]).0 implies i == j by {
            let (x, y) = (joined(parts)[i], joined(parts)[j]);
            assert(joined(parts).contains(x) && joined(parts).contains(y));
            lemma_same_ord(log, x, y);
            if i < a.len() && j < a.len() {
                assert(a[i] == x && a[j] == y);
            } else if i >= a.len() && j >= a.len() {
                assert(b[i - a.len()] == x && b[j - a.len()] == y);
            } else {
                let e = if i < a.len() {
                    assert(a[i] == x && b[j - a.len()] == y);
                    x
                } else {
                    assert(a[j] == y && b[i - a.len()] == x);
                    x
                };
                assert(a.contains(e) && b.contains(e));
                let k = choose|k: int| 0 <= k < q.len() && in_window(e, #[trigger] q[k], request);
                assert(pairs[k] == pairs[n]);
            }
        }
    }
}

proof fn lemma_asked_of(log: Seq<Recorded>, request: ReplayRequest)
    requires
        recorded_in_order(log),
    ensures
        ascends(asked_of(log, request)),
        forall|e: Recorded| #[trigger]
            asked_of(log, request).contains(e) <==> (log.contains(e) && is_asked(e, request)),
    decreases log.len(),
{
    if log.len() > 0 {
        let d = log.drop_last();
        let last = log.last();
        assert(recorded_in_order(d)) by {
            assert forall|i: int, j: int| 0 <= i < j < d.len() implies (#[trigger] d[i]).0 < (
            #[trigger] d[j]).0 by {
                assert(log[i].0 < log[j].0);
            }
            assert forall|i: int| 0 <= i < d.len() implies (#[trigger] d[i]).1.is_data() by {
                assert(log[i].1.is_data());
            }
        }
        lemma_asked_of(d, request);
        let rest = asked_of(d, request);
        assert(log =~= d + seq![last]);
        assert forall|e: Recorded| #[trigger]
            asked_of(log, request).contains(e) <==> (log.contains(e) && is_asked(e, request)) by {
            lemma_in_sum(d, seq![last], e);
            assert(seq![last].contains(e) <==> e == last) by {
                assert(seq![last][0] == last);
            }
            if is_asked(last, request) {
                assert(rest.push(last) =~= rest + seq![last]);
                lemma_in_sum(rest, seq![last], e);
            }
        }
        if is_asked(last, request) {
            let s = rest.push(last);
            assert forall|i: int, j: int| 0 <= i < j < s.len() implies (#[trigger] s[i]).0 < (
            #[trigger] s[j]).0 by {
                if j < rest.len() {
                    assert(rest[i].0 < rest[j].0);
                } else {
                    assert(rest.contains(rest[i]));
                    let k = choose|k: int| 0 <= k < d.len() && d[k] == rest[i];
                    assert(log[k].0 < log[log.len() - 1].0);
                }
            }
        }
    }
}

proof fn lemma_same_ascending(a: Seq<Recorded>, b: Seq<Recorded>)
    requires
        ascends(a),
        ascends(b),
        forall|e: Recorded| #[trigger] a.contains(e) <==> b.contains(e),
    ensures
        a == b,
    decreases a.len(),
{
    if a.len() == 0 {
        if b.len() > 0 {
            assert(b.contains(b[0]) && a.contains(b[0]));
        }
        assert(a =~= b);
    } else {
        let (x, y) = (a.last(), b.last());
        assert(a.contains(a[a.len() - 1]));
        assert(b.contains(x));
        let j = choose|j: int| 0 <= j < b.len() && b[j] == x;
        assert(b.contains(b[b.len() - 1]));
        assert(a.contains(y));
        let i = choose|i: int| 0 <= i < a.len() && a[i] == y;
        if j < b.len() - 1 {
            assert(b[j].0 < b[b.len() - 1].0);
            if i < a.len() - 1 {
                assert(a[i].0 < a[a.len() - 1].0);
            }
        }
        assert(x == y);
        let (c, d) = (a.drop_last(), b.drop_last());
        assert forall|e: Recorded| #[trigger] c.contains(e) <==> d.contains(e) by {
            if c.contains(e) {
                let k = choose|k: int| 0 <= k < c.len() && c[k] == e;
                assert(a[k] == e && a[k].0 < a[a.len() - 1].0);
                assert(a.contains(e));
                let m = choose|m: int| 0 <= m < b.len() && b[m] == e;
                assert(d[m] == e);
            }
            if d.contains(e) {
                let k = choose|k: int| 0 <= k < d.len() && d[k] == e;
                assert(b[k] == e && b[k].0 < b[b.len() - 1].0);
                assert(b.contains(e) && a.contains(e));
                let m = choose|m: int| 0 <= m < a.len() && a[m] == e;
                assert(c[m] == e);
            }
        }
        lemma_same_ascending(c, d);
        assert(a =~= c.push(x));
        assert(b =~= d.push(y));
    }
}

/// Ordering keeps the members of a list whose ordinals are distinct, and makes
/// them ascend.
proof fn lemma_ordered_views(all: Seq<Numbered>)
    requires
        distinct_ords(numbered_views(all)),
    ensures
        ascends(numbered_views(ordered(all))),
        forall|e: Recorded| #[trigger]
            numbered_views(ordered(all)).contains(e) <==> numbered_views(all).contains(e),
{
    broadcast use vstd::seq_lib::group_to_multiset_ensures;

    let o = ordered(all);
    let (v, w) = (numbered_views(all), numbered_views(o));
    law_ordering_is_a_permutation(all);
    all.to_multiset_ensures();
    o.to_multiset_ensures();
    assert forall|x: Numbered| #[trigger] o.contains(x) <==> all.contains(x) by {
        assert(o.contains(x) <==> o.to_multiset().count(x) > 0);
        assert(all.contains(x) <==> all.to_multiset().count(x) > 0);
    }
    assert(all.no_duplicates()) by {
        assert forall|i: int, j: int| 0 <= i < all.len() && 0 <= j < all.len() && i != j implies all[i]
            != all[j] by {
            assert(v[i].0 != v[j].0);
        }
    }
    all.lemma_multiset_has_no_duplicates();
    o.lemma_multiset_has_no_duplicates_conv();
    assert forall|e: Recorded| #[trigger] w.contains(e) <==> v.contains(e) by {
        if w.contains(e) {
            let i = choose|i: int| 0 <= i < w.len() && w[i] == e;
            assert(o.contains(o[i]));
            let j = choose|j: int| 0 <= j < all.len() && all[j] == o[i];
            assert(v[j] == e);
        }
        if v.contains(e) {
            let j = choose|j: int| 0 <= j < v.len() && v[j] == e;
            assert(all.contains(all[j]) && o.contains(all[j]));
            let i = choose|i: int| 0 <= i < o.len() && o[i] == all[j];
            assert(w[i] == e);
        }
    }
    assert forall|i: int, j: int| 0 <= i < j < w.len() implies (#[trigger] w[i]).0 < (
    #[trigger] w[j]).0 by {
        assert(o[i].0 <= o[j].0);
        assert(o.contains(o[i]) && o.contains(o[j]));
        let k = choose|k: int| 0 <= k < all.len() && all[k] == o[i];
        let l = choose|l: int| 0 <= l < all.len() && all[l] == o[j];
        if o[i].0 == o[j].0 {
            assert(v[k].0 == v[l].0);
            assert(k == l);
            assert(o[i] == o[j]);
        }
    }
}

/// The parts of all streams that a request asks for, ordered, are what it asks
/// for of the log.
proof fn lemma_parts_give_the_log(
    parts: Seq<Seq<Recorded>>,
    pairs: Seq<(InstrumentView, EventKind)>,
    log: Seq<Recorded>,
    request: ReplayRequest,
    all: Seq<Numbered>,
)
    requires
        recorded_in_order(log),
        parts.len() == pairs.len(),
        pairs.no_duplicates(),
        forall|i: int| 0 <= i < parts.len() ==> is_part(#[trigger] parts[i], log, pairs[i], request),
        forall|i: int| 0 <= i < pairs.len() ==> asks_for(request, #[trigger] pairs[i]),
        forall|k: int|
            0 <= k < log.len() && is_asked(#[trigger] log[k], request) ==> pairs.contains(
                pair_of(log[k].1)->0,
            ),
        numbered_views(all) == joined(parts),
    ensures
        numbered_views(ordered(all)) == asked_of(log, request),
        event_views(events_of(ordered(all))) == events_in(asked_of(log, request)),
{
    lemma_joined(parts, pairs, log, request);
    lemma_ordered_views(all);
    lemma_asked_of(log, request);
    let (a, b) = (numbered_views(ordered(all)), asked_of(log, request));
    assert forall|e: Recorded| #[trigger] a.contains(e) <==> b.contains(e) by {
        assert(a.contains(e) <==> joined(parts).contains(e));
        if a.contains(e) {
            let i = choose|i: int| 0 <= i < pairs.len() && in_window(e, #[trigger] pairs[i], request);
            assert(asks_for(request, pairs[i]));
        }
        if b.contains(e) {
            let k = choose|k: int| 0 <= k < log.len() && log[k] == e;
            assert(is_asked(log[k], request));
            assert(pairs.contains(pair_of(log[k].1)->0));
            let i = choose|i: int| 0 <= i < pairs.len() && pairs[i] == pair_of(log[k].1)->0;
            assert(in_window(e, pairs[i], request));
        }
    }
    lemma_same_ascending(a, b);
    assert(event_views(events_of(ordered(all))) =~= events_in(b)) by {
        assert forall|i: int| 0 <= i < b.len() implies ordered(all)[i].1@ == #[trigger] b[i].1 by {
            assert(a[i] == b[i]);
        }
    }
}

// ---------------------------------------------------------------------------
// The document store
// ---------------------------------------------------------------------------

/// Whether the rows that were read of a shard are those of its stream in the
/// window, each once.
pub open spec fn read_of(shard: TapShard, log: Seq<Recorded>, request: ReplayRequest) -> bool {
    &&& shard.rows@.no_duplicates()
    &&& forall|row: TapRow| #[trigger]
        shard.rows@.contains(row) <==> exists|k: int|
            0 <= k < log.len() && in_window(#[trigger] log[k], shard.pair@, request) && row
                == tap_row_of(log[k].0, log[k].1)
}

spec fn document_parts(shards: Seq<TapShard>) -> Seq<Seq<Recorded>> {
    Seq::new(shards.len(), |i: int| shards[i].recorded(shards[i].rows@.len() as int))
}

proof fn lemma_document_parts(shards: Seq<TapShard>)
    ensures
        joined(document_parts(shards)) == recorded_by(shards),
    decreases shards.len(),
{
    if shards.len() > 0 {
        lemma_document_parts(shards.drop_last());
        assert(document_parts(shards).drop_last() =~= document_parts(shards.drop_last()));
    }
}

proof fn lemma_document_part(shard: TapShard, log: Seq<Recorded>, request: ReplayRequest)
    requires
        recorded_in_order(log),
        read_of(shard, log, request),
    ensures
        is_part(shard.recorded(shard.rows@.len() as int), log, shard.pair@, request),
{
    let rows = shard.rows@;
    let part = shard.recorded(rows.len() as int);
    assert forall|j: int| 0 <= j < rows.len() implies log.contains(#[trigger] part[j]) && in_window(
        part[j],
        shard.pair@,
        request,
    ) && rows[j] == tap_row_of(part[j].0, part[j].1) by {
        assert(rows.contains(rows[j]));
        let k = choose|k: int|
            0 <= k < log.len() && in_window(#[trigger] log[k], shard.pair@, request) && rows[j]
                == tap_row_of(log[k].0, log[k].1);
        law_recorded_rows_round_trip(log[k].0, log[k].1);
        assert(part[j] == log[k]);
    }
    assert forall|i: int, j: int| 0 <= i < part.len() && 0 <= j < part.len() && i != j implies part[i]
        != part[j] by {
        assert(rows[i] != rows[j]);
    }
    assert forall|e: Recorded| #[trigger]
        part.contains(e) <==> (log.contains(e) && in_window(e, shard.pair@, request)) by {
        if log.contains(e) && in_window(e, shard.pair@, request) {
            let k = choose|k: int| 0 <= k < log.len() && log[k] == e;
            let row = tap_row_of(log[k].0, log[k].1);
            assert(in_window(log[k], shard.pair@, request));
            assert(rows.contains(row));
            let j = choose|j: int| 0 <= j < rows.len() && rows[j] == row;
            law_recorded_rows_round_trip(log[k].0, log[k].1);
            assert(part[j] == e);
        }
    }
}

/// A replay gives back what was recorded: where the shards of the streams that
/// a request asks for are read, the events come back as they were recorded,
/// with their places, in the order in which they were recorded.
pub proof fn law_document_replay_gives_back_the_recording(
    log: Seq<Recorded>,
    request: ReplayRequest,
    shards: Seq<TapShard>,
    all: Seq<Numbered>,
)
    requires
        recorded_in_order(log),
        forall|i: int, j: int|
            0 <= i < j < shards.len() ==> (#[trigger] shards[i]).pair@ != (
            #[trigger] shards[j]).pair@,
        forall|i: int|
            0 <= i < shards.len() ==> asks_for(request, (#[trigger] shards[i]).pair@) && read_of(
                shards[i],
                log,
                request,
            ),
        forall|k: int|
            0 <= k < log.len() && is_asked(#[trigger] log[k], request) ==> exists|i: int|
                0 <= i < shards.len() && Some((#[trigger] shards[i]).pair@) == pair_of(log[k].1),
        numbered_views(all) == recorded_by(shards),
    ensures
        numbered_views(ordered(all)) == asked_of(log, request),
        event_views(events_of(ordered(all))) == events_in(asked_of(log, request)),
{
    let pairs = Seq::new(shards.len(), |i: int| shards[i].pair@);
    let parts = document_parts(shards);
    lemma_document_parts(shards);
    assert forall|i: int| 0 <= i < parts.len() implies is_part(
        #[trigger] parts[i],
        log,
        pairs[i],
        request,
    ) by {
        assert(read_of(shards[i], log, request));
        lemma_document_part(shards[i], log, request);
    }
    assert forall|i: int| 0 <= i < pairs.len() implies asks_for(request, #[trigger] pairs[i]) by {
        assert(asks_for(request, shards[i].pair@));
    }
    assert forall|k: int|
        0 <= k < log.len() && is_asked(#[trigger] log[k], request) implies pairs.contains(
        pair_of(log[k].1)->0,
    ) by {
        let i = choose|i: int|
            0 <= i < shards.len() && Some((#[trigger] shards[i]).pair@) == pair_of(log[k].1);
        assert(pairs[i] == pair_of(log[k].1)->0);
    }
    assert(pairs.no_duplicates()) by {
        assert forall|i: int, j: int| 0 <= i < pairs.len() && 0 <= j < pairs.len() && i
            != j implies pairs[i] != pairs[j] by {
            if i < j {
                assert(shards[i].pair@ != shards[j].pair@);
            } else {
                assert(shards[j].pair@ != shards[i].pair@);
            }
        }
    }
    lemma_parts_give_the_log(parts, pairs, log, request, all);
}

// ---------------------------------------------------------------------------
// The file
// ---------------------------------------------------------------------------

/// The integers of the rows that were read of a shard.
pub open spec fn ints_of(rows: Seq<Vec<i64>>) -> Seq<Seq<i64>> {
    Seq::new(rows.len(), |i: int| rows[i]@)
}

/// Whether the rows that were scanned of a shard are those of its stream in
/// the window, each once.
pub open spec fn scanned_of(shard: ShardRows, log: Seq<Recorded>, request: ReplayRequest) -> bool {
    &&& ints_of(shard.rows@).no_duplicates()
    &&& forall|row: Seq<i64>| #[trigger]
        ints_of(shard.rows@).contains(row) <==> exists|k: int|
            0 <= k < log.len() && in_window(#[trigger] log[k], shard.pair@, request) && row
                == tap_row(log[k].0, log[k].1)
}

spec fn file_parts(shards: Seq<ShardRows>) -> Seq<Seq<Recorded>> {
    Seq::new(shards.len(), |i: int| shards[i].recorded(shards[i].rows@.len() as int))
}

proof fn lemma_file_parts(shards: Seq<ShardRows>)
    ensures
        joined(file_parts(shards)) == recorded_in(shards),
    decreases shards.len(),
{
    if shards.len() > 0 {
        lemma_file_parts(shards.drop_last());
        assert(file_parts(shards).drop_last() =~= file_parts(shards.drop_last()));
    }
}

proof fn lemma_file_part(shard: ShardRows, log: Seq<Recorded>, request: ReplayRequest)
    requires
        recorded_in_order(log),
        scanned_of(shard, log, request),
    ensures
        shard.valid(),
        is_part(shard.recorded(shard.rows@.len() as int), log, shard.pair@, request),
{
    let rows = ints_of(shard.rows@);
    let part = shard.recorded(rows.len() as int);
    assert forall|j: int| 0 <= j < rows.len() implies log.contains(#[trigger] part[j]) && in_window(
        part[j],
        shard.pair@,
        request,
    ) && rows[j] == tap_row(part[j].0, part[j].1) by {
        assert(rows.contains(rows[j]));
        let k = choose|k: int|
            0 <= k < log.len() && in_window(#[trigger] log[k], shard.pair@, request) && rows[j]
                == tap_row(log[k].0, log[k].1);
        law_tap_rows_round_trip(log[k].0, log[k].1);
        assert(part[j] == log[k]);
    }
    assert forall|j: int| 0 <= j < shard.rows@.len() implies (#[trigger] shard.rows@[j])@.len()
        == super::rows::columns(shard.pair.kind) + 2 by {
        assert(rows[j] == tap_row(part[j].0, part[j].1));
        law_tap_rows_round_trip(part[j].0, part[j].1);
    }
    assert forall|i: int, j: int| 0 <= i < part.len() && 0 <= j < part.len() && i != j implies part[i]
        != part[j] by {
        assert(rows[i] != rows[j]);
    }
    assert forall|e: Recorded| #[trigger]
        part.contains(e) <==> (log.contains(e) && in_window(e, shard.pair@, request)) by {
        if log.contains(e) && in_window(e, shard.pair@, request) {
            let k = choose|k: int| 0 <= k < log.len() && log[k] == e;
            let row = tap_row(log[k].0, log[k].1);
            assert(in_window(log[k], shard.pair@, request));
            assert(rows.contains(row));
            let j = choose|j: int| 0 <= j < rows.len() && rows[j] == row;
            law_tap_rows_round_trip(log[k].0, log[k].1);
            assert(part[j] == e);
        }
    }
}

/// A replay gives back what was recorded: where the shards of the streams that
/// a request asks for are scanned, the events come back as they were recorded,
/// with their places, in the order in which they were recorded.
pub proof fn law_file_replay_gives_back_the_recording(
    log: Seq<Recorded>,
    request: ReplayRequest,
    shards: Seq<ShardRows>,
    all: Seq<Numbered>,
)
    requires
        recorded_in_order(log),
        forall|i: int, j: int|
            0 <= i < j < shards.len() ==> (#[trigger] shards[i]).pair@ != (
            #[trigger] shards[j]).pair@,
        forall|i: int|
            0 <= i < shards.len() ==> asks_for(request, (#[trigger] shards[i]).pair@)
                && scanned_of(shards[i], log, request),
        forall|k: int|
            0 <= k < log.len() && is_asked(#[trigger] log[k], request) ==> exists|i: int|
                0 <= i < shards.len() && Some((#[trigger] shards[i]).pair@) == pair_of(log[k].1),
        numbered_views(all) == recorded_in(shards),
    ensures
        forall|i: int| 0 <= i < shards.len() ==> (#[trigger] shards[i]).valid(),
        numbered_views(ordered(all)) == asked_of(log, request),
        event_views(events_of(ordered(all))) == events_in(asked_of(log, request)),
{
    let pairs = Seq::new(shards.len(), |i: int| shards[i].pair@);
    let parts = file_parts(shards);
    lemma_file_parts(shards);
    assert forall|i: int| 0 <= i < shards.len() implies (#[trigger] shards[i]).valid() by {
        lemma_file_part(shards[i], log, request);
    }
    assert forall|i: int| 0 <= i < parts.len() implies is_part(
        #[trigger] parts[i],
        log,
        pairs[i],
        request,
    ) by {
        assert(scanned_of(shards[i], log, request));
        lemma_file_part(shards[i], log, request);
    }
    assert forall|i: int| 0 <= i < pairs.len() implies asks_for(request, #[trigger] pairs[i]) by {
        assert(asks_for(request, shards[i].pair@));
    }
    assert forall|k: int|
        0 <= k < log.len() && is_asked(#[trigger] log[k], request) implies pairs.contains(
        pair_of(log[k].1)->0,
    ) by {
        let i = choose|i: int|
            0 <= i < shards.len() && Some((#[trigger] shards[i]).pair@) == pair_of(log[k].1);
        assert(pairs[i] == pair_of(log[k].1)->0);
    }
    assert(pairs.no_duplicates()) by {
        assert forall|i: int, j: int| 0 <= i < pairs.len() && 0 <= j < pairs.len() && i
            != j implies pairs[i] != pairs[j] by {
            if i < j {
                assert(shards[i].pair@ != shards[j].pair@);
            } else {
                assert(shards[j].pair@ != shards[i].pair@);
            }
        }
    }
    lemma_parts_give_the_log(parts, pairs, log, request, all);
}

} // verus!
