//! A small map for keys that are compared by value.

use vstd::prelude::*;

use crate::event::{EventKind, EventView, Instrument, InstrumentView, MarketEvent};
use crate::request::CacheKey;

verus! {

/// A key: two keys are the same where their values are.
pub trait Key: View + Sized {
    fn same_key(&self, other: &Self) -> (r: bool)
        ensures
            r == (self@ == other@),
    ;
}

impl Key for String {
    fn same_key(&self, other: &String) -> (r: bool) {
        *self == *other
    }
}

/// An instrument together with the kind of events asked of it.
#[derive(Debug, PartialEq, Eq, Hash)]
pub struct Pair {
    pub instrument: Instrument,
    pub kind: EventKind,
}

impl View for Pair {
    type V = (InstrumentView, EventKind);

    open spec fn view(&self) -> (InstrumentView, EventKind) {
        (self.instrument@, self.kind)
    }
}

impl Clone for Pair {
    fn clone(&self) -> (r: Pair)
        ensures
            r == *self,
    {
        Pair { instrument: self.instrument.clone(), kind: self.kind }
    }
}

impl Key for Pair {
    fn same_key(&self, other: &Pair) -> (r: bool) {
        self.kind == other.kind && self.instrument.same(&other.instrument)
    }
}

/// The pair that a data event belongs to; controls belong to none.
pub open spec fn pair_of(ev: EventView) -> Option<(InstrumentView, EventKind)> {
    match ev {
        EventView::Trade(t) => Some((t.instrument, EventKind::Trade)),
        EventView::Quote(q) => Some((q.instrument, EventKind::Quote)),
        EventView::Bar(b) => Some((b.instrument, EventKind::Bar(b.interval))),
        EventView::Control(_) => None,
    }
}

pub fn event_pair(ev: &MarketEvent) -> (r: Option<Pair>)
    ensures
        r is Some <==> pair_of(ev@) is Some,
        r is Some ==> Some(r->0@) == pair_of(ev@),
{
    match ev {
        MarketEvent::Trade(t) => Some(
            Pair { instrument: t.instrument.clone(), kind: EventKind::Trade },
        ),
        MarketEvent::Quote(q) => Some(
            Pair { instrument: q.instrument.clone(), kind: EventKind::Quote },
        ),
        MarketEvent::Bar(b) => Some(
            Pair { instrument: b.instrument.clone(), kind: EventKind::Bar(b.interval) },
        ),
        MarketEvent::Control(_) => None,
    }
}

/// The value of a [`CacheKey`].
pub struct CacheKeyView {
    pub instrument: InstrumentView,
    pub kind: EventKind,
    pub from: crate::event::Timestamp,
    pub to: crate::event::Timestamp,
    pub adjustment: crate::event::Adjustment,
}

impl View for CacheKey {
    type V = CacheKeyView;

    open spec fn view(&self) -> CacheKeyView {
        CacheKeyView {
            instrument: self.instrument@,
            kind: self.kind,
            from: self.from,
            to: self.to,
            adjustment: self.adjustment,
        }
    }
}

impl Key for CacheKey {
    fn same_key(&self, other: &CacheKey) -> (r: bool) {
        self.kind == other.kind && self.from == other.from && self.to == other.to
            && self.adjustment == other.adjustment && self.instrument.same(&other.instrument)
    }
}

/// The map that a list of rows stands for.
pub open spec fn rows_map<K: Key, T>(rows: Seq<(K, T)>) -> Map<K::V, T>
    decreases rows.len(),
{
    if rows.len() == 0 {
        Map::empty()
    } else {
        rows_map(rows.drop_last()).insert(rows.last().0@, rows.last().1)
    }
}

pub open spec fn distinct_keys<K: Key, T>(rows: Seq<(K, T)>) -> bool {
    forall|i: int, j: int|
        0 <= i < j < rows.len() ==> (#[trigger] rows[i]).0@ != (#[trigger] rows[j]).0@
}

/// A map from keys to values, in the order in which keys were added.
#[derive(Debug)]
pub struct Table<K: Key, T> {
    pub rows: Vec<(K, T)>,
}

impl<K: Key, T> View for Table<K, T> {
    type V = Map<K::V, T>;

    open spec fn view(&self) -> Map<K::V, T> {
        rows_map(self.rows@)
    }
}

impl<K: Key, T> Table<K, T> {
    /// No key occurs twice.
    pub open spec fn wf(self) -> bool {
        distinct_keys(self.rows@)
    }

    pub fn new() -> (r: Table<K, T>)
        ensures
            r.wf(),
            r@ == Map::<K::V, T>::empty(),
            r.rows@.len() == 0,
    {
        Table { rows: Vec::new() }
    }

    /// Position of the row of `key`, or the number of rows.
    pub fn position(&self, key: &K) -> (k: usize)
        requires
            self.wf(),
        ensures
            k <= self.rows@.len(),
            self@.contains_key(key@) <==> k < self.rows@.len(),
            k < self.rows@.len() ==> self.rows@[k as int].0@ == key@ && self@[key@]
                == self.rows@[k as int].1,
            k == self.rows@.len() ==> forall|i: int|
                0 <= i < self.rows@.len() ==> (#[trigger] self.rows@[i]).0@ != key@,
    {
        let mut k: usize = 0;
        while k < self.rows.len()
            invariant
                self.wf(),
                0 <= k <= self.rows@.len(),
                forall|i: int| 0 <= i < k ==> (#[trigger] self.rows@[i]).0@ != key@,
            decreases self.rows@.len() - k,
        {
            if self.rows[k].0.same_key(key) {
                proof {
                    lemma_rows_lookup(self.rows@, k as int);
                }
                return k;
            }
            k += 1;
        }
        proof {
            lemma_rows_absent(self.rows@, key@);
        }
        k
    }

    pub fn contains(&self, key: &K) -> (r: bool)
        requires
            self.wf(),
        ensures
            r == self@.contains_key(key@),
    {
        self.position(key) < self.rows.len()
    }

    pub fn get(&self, key: &K) -> (r: Option<&T>)
        requires
            self.wf(),
        ensures
            r is Some <==> self@.contains_key(key@),
            r is Some ==> *r->0 == self@[key@],
    {
        let k: usize = self.position(key);
        if k < self.rows.len() {
            Some(&self.rows[k].1)
        } else {
            None
        }
    }

    /// Map `key` to `value`, in place of what it was mapped to.
    pub fn insert(&mut self, key: K, value: T)
        requires
            old(self).wf(),
        ensures
            final(self).wf(),
            final(self)@ == old(self)@.insert(key@, value),
    {
        let k: usize = self.position(&key);
        let ghost before = self.rows@;
        if k < self.rows.len() {
            self.rows.set(k, (key, value));
            proof {
                lemma_rows_update(before, k as int, (key, value));
            }
        } else {
            self.rows.push((key, value));
            proof {
                assert(self.rows@.drop_last() =~= before);
                assert forall|i: int, j: int| 0 <= i < j < self.rows@.len() implies (
                #[trigger] self.rows@[i]).0@ != (#[trigger] self.rows@[j]).0@ by {
                    assert(self.rows@[i] == before[i]);
                    if j < before.len() {
                        assert(self.rows@[j] == before[j]);
                    }
                }
            }
        }
    }

    /// Remove `key` and give back what it was mapped to.
    pub fn remove(&mut self, key: &K) -> (r: Option<T>)
        requires
            old(self).wf(),
        ensures
            final(self).wf(),
            final(self)@ == old(self)@.remove(key@),
            r is Some <==> old(self)@.contains_key(key@),
            r is Some ==> r->0 == old(self)@[key@],
    {
        let k: usize = self.position(key);
        let ghost before = self.rows@;
        if k < self.rows.len() {
            let (_, value) = self.rows.remove(k);
            proof {
                lemma_rows_remove(before, k as int);
            }
            Some(value)
        } else {
            proof {
                assert(rows_map(before) =~= rows_map(before).remove(key@));
            }
            None
        }
    }
}

pub proof fn lemma_rows_absent<K: Key, T>(rows: Seq<(K, T)>, key: K::V)
    requires
        forall|i: int| 0 <= i < rows.len() ==> (#[trigger] rows[i]).0@ != key,
    ensures
        !rows_map(rows).contains_key(key),
    decreases rows.len(),
{
    if rows.len() > 0 {
        assert(rows.last() == rows[rows.len() - 1]);
        assert forall|i: int| 0 <= i < rows.drop_last().len() implies (
        #[trigger] rows.drop_last()[i]).0@ != key by {
            assert(rows.drop_last()[i] == rows[i]);
        }
        lemma_rows_absent(rows.drop_last(), key);
    }
}

proof fn lemma_drop_last_distinct<K: Key, T>(rows: Seq<(K, T)>)
    requires
        rows.len() > 0,
        distinct_keys(rows),
    ensures
        distinct_keys(rows.drop_last()),
{
    let d = rows.drop_last();
    assert forall|i: int, j: int| 0 <= i < j < d.len() implies (#[trigger] d[i]).0@ != (
    #[trigger] d[j]).0@ by {
        assert(d[i] == rows[i] && d[j] == rows[j]);
    }
}

pub proof fn lemma_rows_lookup<K: Key, T>(rows: Seq<(K, T)>, k: int)
    requires
        distinct_keys(rows),
        0 <= k < rows.len(),
    ensures
        rows_map(rows).contains_key(rows[k].0@),
        rows_map(rows)[rows[k].0@] == rows[k].1,
    decreases rows.len(),
{
    if k < rows.len() - 1 {
        lemma_drop_last_distinct(rows);
        lemma_rows_lookup(rows.drop_last(), k);
        assert(rows[k].0@ != rows[rows.len() - 1].0@);
    }
}

proof fn lemma_rows_update<K: Key, T>(rows: Seq<(K, T)>, k: int, row: (K, T))
    requires
        distinct_keys(rows),
        0 <= k < rows.len(),
        row.0@ == rows[k].0@,
    ensures
        distinct_keys(rows.update(k, row)),
        rows_map(rows.update(k, row)) == rows_map(rows).insert(row.0@, row.1),
    decreases rows.len(),
{
    let u = rows.update(k, row);
    assert forall|i: int, j: int| 0 <= i < j < u.len() implies (#[trigger] u[i]).0@ != (
    #[trigger] u[j]).0@ by {
        assert(rows[i].0@ != rows[j].0@);
    }
    if k == rows.len() - 1 {
        assert(u.drop_last() =~= rows.drop_last());
        assert(rows_map(u) =~= rows_map(rows).insert(row.0@, row.1));
    } else {
        lemma_drop_last_distinct(rows);
        lemma_rows_update(rows.drop_last(), k, row);
        assert(u.drop_last() =~= rows.drop_last().update(k, row));
        assert(u.last() == rows.last());
        assert(rows[k].0@ != rows[rows.len() - 1].0@);
        assert(rows_map(u) =~= rows_map(rows).insert(row.0@, row.1));
    }
}

proof fn lemma_rows_remove<K: Key, T>(rows: Seq<(K, T)>, k: int)
    requires
        distinct_keys(rows),
        0 <= k < rows.len(),
    ensures
        distinct_keys(rows.remove(k)),
        rows_map(rows.remove(k)) == rows_map(rows).remove(rows[k].0@),
    decreases rows.len(),
{
    let r = rows.remove(k);
    assert forall|i: int, j: int| 0 <= i < j < r.len() implies (#[trigger] r[i]).0@ != (
    #[trigger] r[j]).0@ by {
        let a = if i < k {
            i
        } else {
            i + 1
        };
        let b = if j < k {
            j
        } else {
            j + 1
        };
        assert(r[i] == rows[a] && r[j] == rows[b]);
        assert(rows[a].0@ != rows[b].0@);
    }
    lemma_drop_last_distinct(rows);
    if k == rows.len() - 1 {
        assert(r =~= rows.drop_last());
        assert forall|i: int| 0 <= i < r.len() implies (#[trigger] r[i]).0@ != rows[k].0@ by {
            assert(r[i] == rows[i]);
        }
        lemma_rows_absent(r, rows[k].0@);
        assert(rows_map(r) =~= rows_map(rows).remove(rows[k].0@));
    } else {
        lemma_rows_remove(rows.drop_last(), k);
        assert(r.drop_last() =~= rows.drop_last().remove(k));
        assert(r.last() == rows.last());
        assert(rows[k].0@ != rows[rows.len() - 1].0@);
        assert(rows_map(r) =~= rows_map(rows).remove(rows[k].0@));
    }
}

/// Data belongs to the stream of its own instrument and of its own kind, a bar
/// to that of its own length; controls belong to none.
pub proof fn law_data_belongs_to_its_own_stream(
    t: crate::event::TradeView,
    q: crate::event::QuoteView,
    b: crate::event::BarView,
    c: crate::event::ControlView,
)
    ensures
        pair_of(EventView::Trade(t)) == Some((t.instrument, EventKind::Trade)),
        pair_of(EventView::Quote(q)) == Some((q.instrument, EventKind::Quote)),
        pair_of(EventView::Bar(b)) == Some((b.instrument, EventKind::Bar(b.interval))),
        pair_of(EventView::Control(c)) is None,
{
}

/// Stamping an event does not move it to another stream.
pub proof fn law_stamping_keeps_the_stream(ev: EventView, seq: crate::event::SeqNo)
    ensures
        pair_of(ev.with_seq(seq)) == pair_of(ev),
        pair_of(ev) is Some <==> ev.is_data(),
{
}

/// The value of a cache key keeps each of its parts under its own name.
pub proof fn law_keys_keep_their_names(key: CacheKey, pair: Pair)
    ensures
        key@.from == key.from && key@.to == key.to,
        key@.kind == key.kind && key@.adjustment == key.adjustment,
        key@.instrument == key.instrument@,
        pair@.0 == pair.instrument@ && pair@.1 == pair.kind,
{
}

} // verus!
