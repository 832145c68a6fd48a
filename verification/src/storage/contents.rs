//! What a store leaves in its table: the statements of a store, read as what
//! they do to the rows.

use vstd::prelude::*;

use crate::event::{Adjustment, EventView, SeqNo};
use crate::table::{pair_of, CacheKeyView};

use super::cache::{delete_view, insert_view, store_plan, stored_adjustment};
use super::rows::{event_of_row, row_of};
use super::sql::StatementView;

verus! {

/// What identifies a row of a table, its primary key.
pub struct RowKey {
    pub provider: Seq<char>,
    pub symbol: Seq<char>,
    pub adjustment: Adjustment,
    pub source_ts: i64,
}

/// The rows of a table: the integers that stand under a primary key, if any.
pub type Contents = spec_fn(RowKey) -> Option<Seq<i64>>;

/// The primary key of a row that is stored under a cache key.
pub open spec fn row_key(key: CacheKeyView, ts: i64) -> RowKey {
    RowKey {
        provider: key.instrument.provider,
        symbol: key.instrument.symbol,
        adjustment: stored_adjustment(key.kind, key.adjustment),
        source_ts: ts,
    }
}

/// Whether a row belongs to the series of a cache key.
pub open spec fn in_series(r: RowKey, key: CacheKeyView) -> bool {
    r == row_key(key, r.source_ts)
}

/// The table behind the deletion of a key's range.
pub open spec fn cleared(t: Contents, key: CacheKeyView) -> Contents {
    |r: RowKey|
        if in_series(r, key) && key.from.0 <= r.source_ts < key.to.0 {
            None
        } else {
            t(r)
        }
}

/// The table behind the storing of one event, which replaces a row with the
/// same primary key.
pub open spec fn upserted(t: Contents, key: CacheKeyView, ev: EventView) -> Contents {
    |r: RowKey|
        if r == row_key(key, ev.source_ts().0) {
            Some(row_of(ev))
        } else {
            t(r)
        }
}

/// The table behind a whole store.
pub open spec fn stored(t: Contents, key: CacheKeyView, evs: Seq<EventView>) -> Contents
    decreases evs.len(),
{
    if evs.len() == 0 {
        cleared(t, key)
    } else {
        upserted(stored(t, key, evs.drop_last()), key, evs.last())
    }
}

/// What a row statement does: the deletion of a key's range clears it, and the
/// storing of an event writes its row.
pub open spec fn does(s: StatementView, before: Contents, after: Contents) -> bool {
    ||| exists|key: CacheKeyView| s == #[trigger] delete_view(key) && after == cleared(before, key)
    ||| exists|key: CacheKeyView, ev: EventView|
        s == #[trigger] insert_view(key, ev) && after == upserted(before, key, ev)
}

/// The table behind the first `k` statements of a store.
pub open spec fn behind(t: Contents, key: CacheKeyView, evs: Seq<EventView>, k: int) -> Contents {
    if k <= 0 {
        t
    } else {
        stored(t, key, evs.take(k - 1))
    }
}

/// The statements of a store, one behind the other, do the store.
pub proof fn law_statements_do_the_store(
    t: Contents,
    key: CacheKeyView,
    evs: Seq<EventView>,
    k: int,
)
    requires
        0 <= k <= evs.len(),
    ensures
        does(store_plan(key, evs)[k], behind(t, key, evs, k), behind(t, key, evs, k + 1)),
        behind(t, key, evs, 0) == t,
        behind(t, key, evs, store_plan(key, evs).len() as int) == stored(t, key, evs),
{
    assert(evs.take(evs.len() as int) =~= evs);
    if k == 0 {
        assert(store_plan(key, evs)[0] == delete_view(key));
    } else {
        let ev = evs[k - 1];
        assert(store_plan(key, evs)[k] == insert_view(key, ev));
        assert(evs.take(k).drop_last() =~= evs.take(k - 1));
        assert(evs.take(k).last() == ev);
        assert(behind(t, key, evs, k + 1) == upserted(behind(t, key, evs, k), key, ev));
    }
}

/// Whether event `i` is the last of its source time.
pub open spec fn is_last_at(evs: Seq<EventView>, i: int) -> bool {
    &&& 0 <= i < evs.len()
    &&& forall|j: int|
        i < j < evs.len() ==> (#[trigger] evs[j]).source_ts() != evs[i].source_ts()
}

/// Whether no event has the source time.
pub open spec fn none_at(evs: Seq<EventView>, ts: i64) -> bool {
    forall|j: int| 0 <= j < evs.len() ==> (#[trigger] evs[j]).source_ts().0 != ts
}

/// A store replaces its range: behind it the series holds the last event of
/// each source time that was stored, nothing else in the key's range, and
/// outside of it what it held before. Other series are left alone.
pub proof fn law_store_replaces_its_range(
    t: Contents,
    key: CacheKeyView,
    evs: Seq<EventView>,
    r: RowKey,
)
    ensures
        !in_series(r, key) ==> stored(t, key, evs)(r) == t(r),
        forall|i: int|
            in_series(r, key) && #[trigger] is_last_at(evs, i) && evs[i].source_ts().0
                == r.source_ts ==> stored(t, key, evs)(r) == Some(row_of(evs[i])),
        in_series(r, key) && none_at(evs, r.source_ts) && key.from.0 <= r.source_ts < key.to.0
            ==> stored(t, key, evs)(r) is None,
        in_series(r, key) && none_at(evs, r.source_ts) && !(key.from.0 <= r.source_ts
            < key.to.0) ==> stored(t, key, evs)(r) == t(r),
    decreases evs.len(),
{
    if evs.len() > 0 {
        let d = evs.drop_last();
        let last = evs.last();
        law_store_replaces_its_range(t, key, d, r);
        if in_series(r, key) && last.source_ts().0 != r.source_ts {
            if none_at(evs, r.source_ts) {
                assert forall|j: int| 0 <= j < d.len() implies (#[trigger] d[j]).source_ts().0
                    != r.source_ts by {
                    assert(d[j] == evs[j]);
                }
            }
            assert forall|i: int| #[trigger]
                is_last_at(evs, i) && evs[i].source_ts().0 == r.source_ts implies stored(
                t,
                key,
                evs,
            )(r) == Some(row_of(evs[i])) by {
                assert(i < d.len());
                assert(d[i] == evs[i]);
                assert forall|j: int| i < j < d.len() implies (#[trigger] d[j]).source_ts()
                    != d[i].source_ts() by {
                    assert(d[j] == evs[j]);
                }
                assert(is_last_at(d, i));
            }
        }
        if in_series(r, key) && last.source_ts().0 == r.source_ts {
            assert(evs[evs.len() - 1] == last);
            assert forall|i: int| #[trigger]
                is_last_at(evs, i) && evs[i].source_ts().0 == r.source_ts implies stored(
                t,
                key,
                evs,
            )(r) == Some(row_of(evs[i])) by {
                if i < evs.len() - 1 {
                    assert(evs[evs.len() - 1].source_ts() == evs[i].source_ts());
                }
            }
        }
    }
}

/// A read gives back what was written: the row of a stored event, read as a
/// row of the key, is the event without its place.
pub proof fn law_read_gives_back_the_write(
    t: Contents,
    key: CacheKeyView,
    evs: Seq<EventView>,
    i: int,
)
    requires
        is_last_at(evs, i),
        pair_of(evs[i]) == Some((key.instrument, key.kind)),
    ensures
        ({
            let row = stored(t, key, evs)(row_key(key, evs[i].source_ts().0));
            &&& row is Some
            &&& event_of_row(key.instrument, key.kind, row->0, SeqNo(0)) == evs[i].with_seq(
                SeqNo(0),
            )
        }),
{
    law_store_replaces_its_range(t, key, evs, row_key(key, evs[i].source_ts().0));
    super::rows::law_rows_round_trip(evs[i], SeqNo(0));
}

/// Storing the same again changes nothing.
pub proof fn law_storing_again_changes_nothing(
    t: Contents,
    key: CacheKeyView,
    evs: Seq<EventView>,
    r: RowKey,
)
    ensures
        stored(stored(t, key, evs), key, evs)(r) == stored(t, key, evs)(r),
{
    law_store_replaces_its_range(t, key, evs, r);
    law_store_replaces_its_range(stored(t, key, evs), key, evs, r);
    if in_series(r, key) && !none_at(evs, r.source_ts) {
        lemma_some_last(evs, r.source_ts);
        let i = choose|i: int| #[trigger]
            is_last_at(evs, i) && evs[i].source_ts().0 == r.source_ts;
        assert(is_last_at(evs, i));
    }
}

proof fn lemma_some_last(evs: Seq<EventView>, ts: i64)
    requires
        !none_at(evs, ts),
    ensures
        exists|i: int| #[trigger] is_last_at(evs, i) && evs[i].source_ts().0 == ts,
    decreases evs.len(),
{
    let n = evs.len() - 1;
    if evs[n].source_ts().0 == ts {
        assert(is_last_at(evs, n));
    } else {
        let d = evs.drop_last();
        let k = choose|k: int| 0 <= k < evs.len() && (#[trigger] evs[k]).source_ts().0 == ts;
        assert(d[k] == evs[k]);
        lemma_some_last(d, ts);
        let i = choose|i: int| #[trigger] is_last_at(d, i) && d[i].source_ts().0 == ts;
        assert(evs[i] == d[i]);
        assert forall|j: int| i < j < evs.len() implies (#[trigger] evs[j]).source_ts()
            != evs[i].source_ts() by {
            if j < d.len() {
                assert(evs[j] == d[j]);
            }
        }
        assert(is_last_at(evs, i));
    }
}

/// Modes are kept apart: a store under one mode neither clears nor overwrites
/// the rows of another mode of the same series.
pub proof fn law_modes_are_kept_apart(
    t: Contents,
    key: CacheKeyView,
    evs: Seq<EventView>,
    other: CacheKeyView,
    ts: i64,
)
    requires
        stored_adjustment(key.kind, key.adjustment) != stored_adjustment(
            other.kind,
            other.adjustment,
        ),
    ensures
        stored(t, key, evs)(row_key(other, ts)) == t(row_key(other, ts)),
{
    law_store_replaces_its_range(t, key, evs, row_key(other, ts));
}

} // verus!
