//! The tap log in the document store: its rows, and replay of its shards.

use vstd::prelude::*;

use crate::event::{EventKind, EventView, InstrumentView, MarketEvent, SeqNo, Timestamp};
use crate::request::ReplayRequest;
use crate::table::{pair_of, Pair};

use super::documents::{
    event_of_columns, law_columns_round_trip, payload, payload_of, read_columns, rx_ts_of, Payload,
};
use super::order::{ordered, Numbered};
use super::surreal::{bind_views, shard_binds, shard_query, shard_scan_text, Query};
use super::tap_log::{
    asked_rows, asks_for, events_of, merge_shards, numbered_views, ord_or_first, replay_window,
    row_names, selected, StreamRow,
};

verus! {

/// One recorded event in a shard, which stands for one stream and so names
/// none. Rows that were written before ordinals existed have no ordinal.
#[derive(Clone, Copy, Debug, PartialEq, Eq, Structural)]
pub struct TapRow {
    pub ord: Option<u64>,
    pub seq: u64,
    pub source_ts: Timestamp,
    pub rx_ts: Timestamp,
    pub columns: Payload,
}

/// The row of a data event that is recorded under an ordinal.
pub open spec fn tap_row_of(ord: u64, ev: EventView) -> TapRow {
    TapRow {
        ord: Some(ord),
        seq: ev.seq().0,
        source_ts: ev.source_ts(),
        rx_ts: rx_ts_of(ev),
        columns: payload_of(ev)->0,
    }
}

/// The row that records an event; controls are not recorded.
pub fn record_row(ord: u64, ev: &MarketEvent) -> (r: Option<TapRow>)
    ensures
        r == if ev@.is_data() {
            Some(tap_row_of(ord, ev@))
        } else {
            None
        },
{
    match payload(ev) {
        Some((source_ts, rx_ts, columns)) => Some(
            TapRow { ord: Some(ord), seq: ev.place().0, source_ts, rx_ts, columns },
        ),
        None => None,
    }
}

/// The ordinal and the event that a row of a stream stands for; `None` where
/// the row is of another kind. Rows without an ordinal count as the first.
pub open spec fn recorded_event(
    instrument: InstrumentView,
    kind: EventKind,
    row: TapRow,
) -> Option<(u64, EventView)> {
    match event_of_columns(
        instrument,
        kind,
        row.source_ts,
        row.rx_ts,
        row.columns,
        SeqNo(row.seq),
    ) {
        Some(ev) => Some(
            (
                match row.ord {
                    Some(n) => n,
                    None => 0,
                },
                ev,
            ),
        ),
        None => None,
    }
}

/// Reading gives back what was recorded: ordinal, place and payload.
pub proof fn law_recorded_rows_round_trip(ord: u64, ev: EventView)
    requires
        ev.is_data(),
    ensures
        ({
            let (instrument, kind) = pair_of(ev)->0;
            recorded_event(instrument, kind, tap_row_of(ord, ev)) == Some((ord, ev))
        }),
{
    law_columns_round_trip(ev, ev.seq());
    assert(ev.with_seq(ev.seq()) == ev);
}

/// The query of one stream's shard.
#[derive(Debug)]
pub struct ShardRead {
    pub pair: Pair,
    pub query: Query,
}

/// Whether a query reads the shard of a registry row in the request's window.
pub open spec fn reads(s: ShardRead, row: StreamRow, request: ReplayRequest) -> bool {
    &&& row_names(row, s.pair@)
    &&& s.query.text@ == shard_scan_text()
    &&& bind_views(s.query.binds@) == shard_binds(row.table@, request.from.0, request.to.0)
}

/// The queries of a replay: one for each registered stream that the request
/// asks for, and none where its window is empty.
pub fn plan_reads(request: &ReplayRequest, rows: &Vec<StreamRow>) -> (r: Vec<ShardRead>)
    ensures
        request.from.0 >= request.to.0 ==> r@.len() == 0,
        request.from.0 < request.to.0 ==> {
            let asked = asked_rows(*request, rows@);
            &&& r@.len() == asked.len()
            &&& forall|i: int| 0 <= i < r@.len() ==> reads(#[trigger] r@[i], asked[i], *request)
        },
{
    let mut out: Vec<ShardRead> = Vec::new();
    let (from, to) = match replay_window(request) {
        Some(window) => window,
        None => {
            return out;
        },
    };
    let mut k: usize = 0;
    proof {
        assert(rows@.take(0) =~= seq![]);
    }
    while k < rows.len()
        invariant
            0 <= k <= rows@.len(),
            from == request.from.0,
            to == request.to.0,
            out@.len() == asked_rows(*request, rows@.take(k as int)).len(),
            forall|i: int|
                0 <= i < out@.len() ==> reads(
                    #[trigger] out@[i],
                    asked_rows(*request, rows@.take(k as int))[i],
                    *request,
                ),
        decreases rows@.len() - k,
    {
        let row = &rows[k];
        proof {
            assert(rows@.take(k as int + 1).drop_last() =~= rows@.take(k as int));
            assert(rows@.take(k as int + 1).last() == *row);
        }
        if let Some(pair) = selected(request, row) {
            let query = shard_query(row.table.as_str(), from, to);
            proof {
                assert(row_names(*row, pair@) && asks_for(*request, pair@));
            }
            out.push(ShardRead { pair, query });
        }
        k += 1;
    }
    proof {
        assert(rows@.take(k as int) =~= rows@);
    }
    out
}

/// What was read of one stream: its pair and the rows of its shard.
#[derive(Debug)]
pub struct TapShard {
    pub pair: Pair,
    pub rows: Vec<TapRow>,
}

impl TapShard {
    /// Every row is of the stream's kind.
    pub open spec fn readable(self) -> bool {
        forall|i: int| 0 <= i < self.rows@.len() ==> self.event_at(i) is Some
    }

    pub open spec fn event_at(self, i: int) -> Option<(u64, EventView)> {
        recorded_event(self.pair.instrument@, self.pair.kind, self.rows@[i])
    }

    /// The ordinals and events of the first `n` rows, in order.
    pub open spec fn recorded(self, n: int) -> Seq<(u64, EventView)> {
        Seq::new(n as nat, |i: int| self.event_at(i)->0)
    }
}

/// The ordinals and events of shards, in order.
pub open spec fn recorded_by(shards: Seq<TapShard>) -> Seq<(u64, EventView)>
    decreases shards.len(),
{
    if shards.len() == 0 {
        seq![]
    } else {
        recorded_by(shards.drop_last()) + shards.last().recorded(shards.last().rows@.len() as int)
    }
}

/// The events of a replay: what was recorded in the shards that were read, in
/// the order in which it was recorded; `None` where a row is not of its
/// stream's kind.
pub fn replay_tap_shards(shards: &Vec<TapShard>) -> (r: Option<Vec<MarketEvent>>)
    ensures
        r is Some <==> forall|i: int|
            0 <= i < shards@.len() ==> (#[trigger] shards@[i]).readable(),
        r matches Some(evs) ==> exists|all: Seq<Numbered>|
            numbered_views(all) == recorded_by(shards@) && evs@ == #[trigger] events_of(
                ordered(all),
            ),
{
    let mut all: Vec<Numbered> = Vec::new();
    let mut k: usize = 0;
    proof {
        assert(shards@.take(0) =~= seq![]);
        assert(numbered_views(all@) =~= seq![]);
    }
    while k < shards.len()
        invariant
            0 <= k <= shards@.len(),
            forall|i: int| 0 <= i < k ==> (#[trigger] shards@[i]).readable(),
            numbered_views(all@) == recorded_by(shards@.take(k as int)),
        decreases shards@.len() - k,
    {
        let shard = &shards[k];
        let ghost base = numbered_views(all@);
        proof {
            assert(base + shard.recorded(0) =~= base);
        }
        let mut i: usize = 0;
        while i < shard.rows.len()
            invariant
                0 <= k < shards@.len(),
                *shard == shards@[k as int],
                0 <= i <= shard.rows@.len(),
                forall|j: int| 0 <= j < i ==> #[trigger] shard.event_at(j) is Some,
                numbered_views(all@) == base + shard.recorded(i as int),
            decreases shard.rows@.len() - i,
        {
            let ghost before = numbered_views(all@);
            let row = shard.rows[i];
            let found = read_columns(
                &shard.pair.instrument,
                shard.pair.kind,
                row.source_ts,
                row.rx_ts,
                row.columns,
                SeqNo(row.seq),
            );
            match found {
                Some(ev) => {
                    all.push((ord_or_first(row.ord), ev));
                    proof {
                        let e = shard.event_at(i as int)->0;
                        assert(numbered_views(all@) =~= before.push(e));
                        assert(shard.recorded(i as int + 1) =~= shard.recorded(i as int).push(e));
                        assert(before.push(e) =~= base + shard.recorded(i as int + 1));
                    }
                },
                None => {
                    assert(shards@[k as int].event_at(i as int) is None);
                    assert(!shards@[k as int].readable());
                    return None;
                },
            }
            i += 1;
        }
        proof {
            assert(shards@.take(k as int + 1).drop_last() =~= shards@.take(k as int));
            assert(shards@.take(k as int + 1).last() == *shard);
            assert(shards@[k as int].readable());
        }
        k += 1;
    }
    proof {
        assert(shards@.take(k as int) =~= shards@);
    }
    Some(merge_shards(all))
}

/// A recorded row holds the ordinal, the place and the two times of the event,
/// each under its own name, and what the event says.
pub proof fn law_recorded_rows_keep_their_names(ord: u64, ev: EventView)
    requires
        ev.is_data(),
    ensures
        tap_row_of(ord, ev).ord == Some(ord),
        tap_row_of(ord, ev).seq == ev.seq().0,
        tap_row_of(ord, ev).source_ts == ev.source_ts(),
        tap_row_of(ord, ev).rx_ts == rx_ts_of(ev),
        Some(tap_row_of(ord, ev).columns) == payload_of(ev),
{
}

} // verus!
