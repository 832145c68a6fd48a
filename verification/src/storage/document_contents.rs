//! What a store leaves in the document store: the queries of a store and of a
//! replay, read as what they do to the rows and take of them.

use vstd::prelude::*;

use crate::event::{EventView, SeqNo};
use crate::request::ReplayRequest;
use crate::table::{pair_of, CacheKeyView};
use crate::text::{bar_free, lemma_padded_signed_injective, padded_signed};

use super::cache::{narrowed, stored_adjustment};
use super::contents::{is_last_at, none_at};
use super::documents::{
    event_of_stored, law_columns_round_trip, row_under, stores, RowView, StoredRow,
};
use super::sql::SqlValueView;
use super::surreal::{key_row_id, law_row_ids_keep_modes_apart, lemma_first_bar, range_binds};
use super::tags::{
    adjustment_text, law_adjustment_names_are_distinct, law_table_names_are_distinct,
    lemma_names_are_bar_free, table_name,
};

verus! {

/// The rows of the document store: what stands in a table under an id, if
/// anything.
pub type Documents = spec_fn((Seq<char>, Seq<char>)) -> Option<RowView>;

/// Whether the filter that deletion, count and replay share takes a row of a
/// table, by the values that are bound to its parameters.
pub open spec fn takes(
    binds: Seq<(Seq<char>, SqlValueView)>,
    table: Seq<char>,
    row: RowView,
) -> bool {
    &&& binds.contains(("tbl"@, SqlValueView::Text(table)))
    &&& binds.contains(("prov"@, SqlValueView::Text(row.provider)))
    &&& binds.contains(("sym"@, SqlValueView::Text(row.symbol)))
    &&& binds.contains(("adj"@, SqlValueView::Text(row.adjustment)))
    &&& exists|from: i64| #[trigger]
        binds.contains(("from"@, SqlValueView::Int(from))) && from <= row.source_ts.0
    &&& exists|to: i64| #[trigger]
        binds.contains(("to"@, SqlValueView::Int(to))) && row.source_ts.0 < to
}

/// Whether a row belongs to the series of a key.
pub open spec fn of_series(row: RowView, key: CacheKeyView) -> bool {
    &&& row.provider == key.instrument.provider
    &&& row.symbol == key.instrument.symbol
    &&& row.adjustment == adjustment_text(stored_adjustment(key.kind, key.adjustment))
}

/// The store behind a deletion with these values.
pub open spec fn deleted(db: Documents, binds: Seq<(Seq<char>, SqlValueView)>) -> Documents {
    |at: (Seq<char>, Seq<char>)|
        if db(at) is Some && takes(binds, at.0, db(at)->0) {
            None
        } else {
            db(at)
        }
}

/// The store behind the upsert of a row into a table: what stands there under
/// the row's id is replaced.
pub open spec fn upserted(db: Documents, table: Seq<char>, row: StoredRow) -> Documents {
    |at: (Seq<char>, Seq<char>)|
        if at == (table, row@.0) {
            Some(row@.1)
        } else {
            db(at)
        }
}

/// The store behind the deletion of a key's range and the upserts of rows into
/// the key's table, in order.
pub open spec fn stored(db: Documents, key: CacheKeyView, rows: Seq<StoredRow>) -> Documents
    decreases rows.len(),
{
    if rows.len() == 0 {
        deleted(db, range_binds(key, key.from.0, key.to.0))
    } else {
        upserted(stored(db, key, rows.drop_last()), table_name(key.kind), rows.last())
    }
}

/// Where the row of a source time stands that is stored under a key.
pub open spec fn place_of(key: CacheKeyView, ts: i64) -> (Seq<char>, Seq<char>) {
    (table_name(key.kind), key_row_id(key, ts))
}

/// The filter takes the rows of the key's series in the range, and no others.
pub proof fn lemma_takes_the_range(
    key: CacheKeyView,
    from: i64,
    to: i64,
    table: Seq<char>,
    row: RowView,
)
    ensures
        takes(range_binds(key, from, to), table, row) <==> table == table_name(key.kind)
            && of_series(row, key) && from <= row.source_ts.0 < to,
{
    reveal_strlit("tbl");
    reveal_strlit("prov");
    reveal_strlit("sym");
    reveal_strlit("adj");
    reveal_strlit("from");
    reveal_strlit("to");
    let b = range_binds(key, from, to);
    assert("tbl"@[0] == 't' && "sym"@[0] == 's' && "adj"@[0] == 'a');
    assert("prov"@[0] == 'p' && "from"@[0] == 'f');
    assert("tbl"@.len() == 3 && "to"@.len() == 2 && "from"@.len() == 4);
    assert(b[0].0 == "tbl"@ && b[1].0 == "prov"@ && b[2].0 == "sym"@);
    assert(b[3].0 == "adj"@ && b[4].0 == "from"@ && b[5].0 == "to"@);
    assert(b.contains(b[0]) && b.contains(b[1]) && b.contains(b[2]));
    assert(b.contains(b[3]) && b.contains(b[4]) && b.contains(b[5]));
    assert forall|v: SqlValueView| #[trigger] b.contains(("tbl"@, v)) implies v == b[0].1 by {}
    assert forall|v: SqlValueView| #[trigger] b.contains(("prov"@, v)) implies v == b[1].1 by {}
    assert forall|v: SqlValueView| #[trigger] b.contains(("sym"@, v)) implies v == b[2].1 by {}
    assert forall|v: SqlValueView| #[trigger] b.contains(("adj"@, v)) implies v == b[3].1 by {}
    assert forall|v: SqlValueView| #[trigger] b.contains(("from"@, v)) implies v == b[4].1 by {}
    assert forall|v: SqlValueView| #[trigger] b.contains(("to"@, v)) implies v == b[5].1 by {}
}

/// Rows of one series have different ids at different source times.
pub proof fn law_row_ids_keep_times_apart(key: CacheKeyView, a: i64, b: i64)
    requires
        key_row_id(key, a) == key_row_id(key, b),
    ensures
        a == b,
{
    let p = key.instrument.provider + "|"@ + key.instrument.symbol + "|"@ + adjustment_text(
        stored_adjustment(key.kind, key.adjustment),
    ) + "|"@;
    let n = p.len() as int;
    assert(key_row_id(key, a).skip(n) =~= padded_signed(a as int, 20));
    assert(key_row_id(key, b).skip(n) =~= padded_signed(b as int, 20));
    lemma_padded_signed_injective(a as int, b as int, 20);
}

/// A store replaces its range: the last event of each source time that was
/// stored stands in the key's table under its id, and everywhere else is what
/// the deletion of the range left.
pub proof fn law_documents_are_replaced(
    db: Documents,
    key: CacheKeyView,
    rows: Seq<StoredRow>,
    evs: Seq<EventView>,
    at: (Seq<char>, Seq<char>),
)
    requires
        stores(rows, key, evs),
    ensures
        forall|i: int| #[trigger]
            is_last_at(evs, i) && at == place_of(key, evs[i].source_ts().0) ==> stored(
                db,
                key,
                rows,
            )(at) == Some(row_under(key, evs[i])),
        (forall|i: int|
            0 <= i < evs.len() ==> at != place_of(key, (#[trigger] evs[i]).source_ts().0))
            ==> stored(db, key, rows)(at) == deleted(
            db,
            range_binds(key, key.from.0, key.to.0),
        )(at),
    decreases rows.len(),
{
    if rows.len() > 0 {
        let (r, d) = (rows.drop_last(), evs.drop_last());
        let last = evs.last();
        let n = evs.len() - 1;
        assert(rows.last()@ == (key_row_id(key, last.source_ts().0), row_under(key, last))) by {
            assert(rows[n] == rows.last());
        }
        assert(stores(r, key, d)) by {
            assert forall|i: int| 0 <= i < r.len() implies (#[trigger] r[i])@ == (
                key_row_id(key, d[i].source_ts().0),
                row_under(key, d[i]),
            ) by {
                assert(r[i] == rows[i]);
            }
        }
        law_documents_are_replaced(db, key, r, d, at);
        assert forall|i: int| #[trigger]
            is_last_at(evs, i) && at == place_of(key, evs[i].source_ts().0) implies stored(
            db,
            key,
            rows,
        )(at) == Some(row_under(key, evs[i])) by {
            if i < n {
                assert(evs[n].source_ts() != evs[i].source_ts());
                if key_row_id(key, evs[n].source_ts().0) == key_row_id(key, evs[i].source_ts().0) {
                    law_row_ids_keep_times_apart(key, evs[n].source_ts().0, evs[i].source_ts().0);
                }
                assert(d[i] == evs[i]);
                assert forall|j: int| i < j < d.len() implies (#[trigger] d[j]).source_ts()
                    != d[i].source_ts() by {
                    assert(d[j] == evs[j]);
                }
                assert(is_last_at(d, i));
            }
        }
        if forall|i: int|
            0 <= i < evs.len() ==> at != place_of(key, (#[trigger] evs[i]).source_ts().0) {
            assert(at != place_of(key, evs[n].source_ts().0));
            assert forall|i: int| 0 <= i < d.len() implies at != place_of(
                key,
                (#[trigger] d[i]).source_ts().0,
            ) by {
                assert(d[i] == evs[i]);
            }
        }
    }
}

/// Whether the last event of some source time in a range is what stands at a
/// place.
pub open spec fn is_stored_at(
    key: CacheKeyView,
    evs: Seq<EventView>,
    from: i64,
    to: i64,
    at: (Seq<char>, Seq<char>),
    i: int,
) -> bool {
    &&& is_last_at(evs, i)
    &&& at == place_of(key, evs[i].source_ts().0)
    &&& from <= evs[i].source_ts().0 < to
}

/// A read gives back the write. Behind a store under a key, what a replay of
/// the key takes are exactly the rows of the last event of each source time in
/// the range that is replayed; and an event of the key's instrument and kind
/// comes back as it was, without its place.
pub proof fn law_replay_reads_back_the_store(
    db: Documents,
    key: CacheKeyView,
    rows: Seq<StoredRow>,
    evs: Seq<EventView>,
    request: ReplayRequest,
    at: (Seq<char>, Seq<char>),
)
    requires
        stores(rows, key, evs),
        narrowed(key, request) is Some,
    ensures
        ({
            let (from, to) = narrowed(key, request)->0;
            let found = stored(db, key, rows)(at);
            &&& (found is Some && takes(range_binds(key, from, to), at.0, found->0))
                <==> exists|i: int| #[trigger] is_stored_at(key, evs, from, to, at, i)
            &&& forall|i: int| #[trigger]
                is_stored_at(key, evs, from, to, at, i) ==> found == Some(row_under(key, evs[i]))
                    && (pair_of(evs[i]) == Some((key.instrument, key.kind)) ==> event_of_stored(
                    key,
                    found->0,
                ) == Some(evs[i].with_seq(SeqNo(0))))
        }),
{
    let (from, to) = narrowed(key, request)->0;
    let found = stored(db, key, rows)(at);
    law_documents_are_replaced(db, key, rows, evs, at);
    assert forall|i: int| #[trigger]
        is_stored_at(key, evs, from, to, at, i) implies found == Some(row_under(key, evs[i])) && (
    pair_of(evs[i]) == Some((key.instrument, key.kind)) ==> event_of_stored(key, found->0) == Some(
        evs[i].with_seq(SeqNo(0)),
    )) && takes(range_binds(key, from, to), at.0, found->0) by {
        assert(is_last_at(evs, i));
        lemma_takes_the_range(key, from, to, at.0, found->0);
        if pair_of(evs[i]) == Some((key.instrument, key.kind)) {
            law_columns_round_trip(evs[i], SeqNo(0));
        }
    }
    if found is Some && takes(range_binds(key, from, to), at.0, found->0) {
        lemma_takes_the_range(key, from, to, at.0, found->0);
        lemma_takes_the_range(key, key.from.0, key.to.0, at.0, found->0);
        if forall|i: int|
            0 <= i < evs.len() ==> at != place_of(key, (#[trigger] evs[i]).source_ts().0) {
            assert(false);
        }
        let k = choose|k: int|
            0 <= k < evs.len() && at == place_of(key, (#[trigger] evs[k]).source_ts().0);
        lemma_last_of_its_time(evs, k);
        let i = choose|i: int| #[trigger]
            is_last_at(evs, i) && evs[i].source_ts() == evs[k].source_ts();
        assert(found == Some(row_under(key, evs[i])));
        assert(is_stored_at(key, evs, from, to, at, i));
    }
}

proof fn lemma_last_of_its_time(evs: Seq<EventView>, k: int)
    requires
        0 <= k < evs.len(),
    ensures
        exists|i: int| #[trigger] is_last_at(evs, i) && evs[i].source_ts() == evs[k].source_ts(),
    decreases evs.len() - k,
{
    if is_last_at(evs, k) {
    } else {
        let j = choose|j: int|
            k < j < evs.len() && (#[trigger] evs[j]).source_ts() == evs[k].source_ts();
        lemma_last_of_its_time(evs, j);
    }
}

/// Whether two keys stand for one series of one kind.
pub open spec fn same_series(a: CacheKeyView, b: CacheKeyView) -> bool {
    &&& a.kind == b.kind
    &&& a.instrument.provider == b.instrument.provider
    &&& a.instrument.symbol == b.instrument.symbol
    &&& stored_adjustment(a.kind, a.adjustment) == stored_adjustment(b.kind, b.adjustment)
}

/// The last bar tells texts apart that stand behind it.
proof fn lemma_last_bar(a: Seq<char>, x: Seq<char>, b: Seq<char>, y: Seq<char>)
    requires
        bar_free(x),
        bar_free(y),
        a + seq!['|'] + x == b + seq!['|'] + y,
    ensures
        a == b,
        x == y,
{
    let l = a + seq!['|'] + x;
    let r = b + seq!['|'] + y;
    assert(l.len() == a.len() + 1 + x.len());
    assert(r.len() == b.len() + 1 + y.len());
    if a.len() < b.len() {
        assert(r[b.len() as int] == '|');
        assert(l[b.len() as int] == x[b.len() - a.len() - 1]);
        assert(false);
    }
    if b.len() < a.len() {
        assert(l[a.len() as int] == '|');
        assert(r[a.len() as int] == y[a.len() - b.len() - 1]);
        assert(false);
    }
    assert(l.take(a.len() as int) =~= a);
    assert(r.take(b.len() as int) =~= b);
    assert(l.skip(a.len() as int + 1) =~= x);
    assert(r.skip(b.len() as int + 1) =~= y);
}

/// Rows of two series never share a place, where no bar stands in the names of
/// their providers or they are of one instrument.
pub proof fn law_places_keep_series_apart(a: CacheKeyView, b: CacheKeyView, at: i64, bt: i64)
    requires
        place_of(a, at) == place_of(b, bt),
        (bar_free(a.instrument.provider) && bar_free(b.instrument.provider)) || (
        a.instrument.provider == b.instrument.provider && a.instrument.symbol
            == b.instrument.symbol),
    ensures
        same_series(a, b),
        at == bt,
{
    law_table_names_are_distinct(a.kind, b.kind);
    if a.instrument.provider == b.instrument.provider && a.instrument.symbol
        == b.instrument.symbol {
        law_row_ids_keep_modes_apart(a, b, at, bt);
    } else {
        let (am, bm) = (
            stored_adjustment(a.kind, a.adjustment),
            stored_adjustment(b.kind, b.adjustment),
        );
        let (an, bn) = (adjustment_text(am), adjustment_text(bm));
        let (ap, bp) = (a.instrument.provider, b.instrument.provider);
        let (asym, bsym) = (a.instrument.symbol, b.instrument.symbol);
        let (ax, bx) = (padded_signed(at as int, 20), padded_signed(bt as int, 20));
        reveal_strlit("|");
        let bar = seq!['|'];
        assert("|"@ =~= bar);
        lemma_padded_signed_injective(at as int, bt as int, 20);
        lemma_padded_signed_injective(bt as int, at as int, 20);
        lemma_names_are_bar_free(a.kind, am);
        lemma_names_are_bar_free(b.kind, bm);
        lemma_last_bar(ap + bar + asym + bar + an, ax, bp + bar + bsym + bar + bn, bx);
        lemma_last_bar(ap + bar + asym, an, bp + bar + bsym, bn);
        lemma_first_bar(ap, asym, bp, bsym);
        assert((ap + bar + asym).skip(ap.len() as int + 1) =~= asym);
        assert((bp + bar + bsym).skip(bp.len() as int + 1) =~= bsym);
        law_adjustment_names_are_distinct(am, bm);
    }
    law_row_ids_keep_times_apart(a, at, bt);
}

/// A store leaves alone what it does not replace: the rows of other
/// instruments, modes and kinds, and those of its own series at source times
/// outside its range that it stores no event of.
pub proof fn law_other_documents_stay(
    db: Documents,
    key: CacheKeyView,
    rows: Seq<StoredRow>,
    evs: Seq<EventView>,
    other: CacheKeyView,
    ts: i64,
)
    requires
        stores(rows, key, evs),
        db(place_of(other, ts)) matches Some(row) ==> of_series(row, other) && row.source_ts.0
            == ts,
        (bar_free(key.instrument.provider) && bar_free(other.instrument.provider)) || (
        key.instrument.provider == other.instrument.provider && key.instrument.symbol
            == other.instrument.symbol),
        !same_series(key, other) || (!(key.from.0 <= ts < key.to.0) && none_at(evs, ts)),
    ensures
        stored(db, key, rows)(place_of(other, ts)) == db(place_of(other, ts)),
{
    let at = place_of(other, ts);
    law_documents_are_replaced(db, key, rows, evs, at);
    assert forall|i: int| 0 <= i < evs.len() implies at != place_of(
        key,
        (#[trigger] evs[i]).source_ts().0,
    ) by {
        if at == place_of(key, evs[i].source_ts().0) {
            law_places_keep_series_apart(key, other, evs[i].source_ts().0, ts);
        }
    }
    if db(at) is Some {
        lemma_takes_the_range(key, key.from.0, key.to.0, at.0, db(at)->0);
        if table_name(key.kind) == table_name(other.kind) {
            law_table_names_are_distinct(key.kind, other.kind);
        }
        let (km, om) = (
            stored_adjustment(key.kind, key.adjustment),
            stored_adjustment(other.kind, other.adjustment),
        );
        if adjustment_text(km) == adjustment_text(om) {
            law_adjustment_names_are_distinct(km, om);
        }
    }
}

} // verus!
