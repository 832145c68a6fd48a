//! Rows of the document store: their columns by name, with sizes unsigned.

use vstd::prelude::*;

use crate::event::{
    Bar, BarView, EventKind, EventView, Instrument, InstrumentView, MarketEvent, Price, Quantity,
    Quote, QuoteView, SeqNo, Timestamp, Trade, TradeView,
};
use crate::request::CacheKey;
use crate::table::{pair_of, CacheKeyView};

use super::cache::{data_events, effective_adjustment, stored_adjustment};
use super::surreal::{key_row_id, row_id};
use super::tags::adjustment_text;

verus! {

/// The columns that a row has by its kind, in raw units.
#[derive(Clone, Copy, Debug, PartialEq, Eq, Structural)]
pub enum Payload {
    Trade { price_raw: i64, size_raw: u64 },
    Quote { bid_raw: i64, bid_size_raw: u64, ask_raw: i64, ask_size_raw: u64 },
    Bar { open_raw: i64, high_raw: i64, low_raw: i64, close_raw: i64, volume_raw: u64 },
}

/// The columns of a data event by its kind; controls have none.
pub open spec fn payload_of(ev: EventView) -> Option<Payload> {
    match ev {
        EventView::Trade(t) => Some(Payload::Trade { price_raw: t.price.0, size_raw: t.size.0 }),
        EventView::Quote(q) => Some(
            Payload::Quote {
                bid_raw: q.bid.0,
                bid_size_raw: q.bid_size.0,
                ask_raw: q.ask.0,
                ask_size_raw: q.ask_size.0,
            },
        ),
        EventView::Bar(b) => Some(
            Payload::Bar {
                open_raw: b.open.0,
                high_raw: b.high.0,
                low_raw: b.low.0,
                close_raw: b.close.0,
                volume_raw: b.volume.0,
            },
        ),
        EventView::Control(_) => None,
    }
}

/// When an event was received.
pub open spec fn rx_ts_of(ev: EventView) -> Timestamp {
    match ev {
        EventView::Trade(t) => t.rx_ts,
        EventView::Quote(q) => q.rx_ts,
        EventView::Bar(b) => b.rx_ts,
        EventView::Control(c) => c.rx_ts,
    }
}

/// The two times of a data event and its columns.
pub fn payload(ev: &MarketEvent) -> (r: Option<(Timestamp, Timestamp, Payload)>)
    ensures
        r is Some <==> ev@.is_data(),
        r matches Some(p) ==> p.0 == ev@.source_ts() && p.1 == rx_ts_of(ev@) && Some(p.2)
            == payload_of(ev@),
{
    match ev {
        MarketEvent::Trade(t) => Some(
            (
                t.source_ts,
                t.rx_ts,
                Payload::Trade { price_raw: t.price.raw(), size_raw: t.size.raw() },
            ),
        ),
        MarketEvent::Quote(q) => Some(
            (
                q.source_ts,
                q.rx_ts,
                Payload::Quote {
                    bid_raw: q.bid.raw(),
                    bid_size_raw: q.bid_size.raw(),
                    ask_raw: q.ask.raw(),
                    ask_size_raw: q.ask_size.raw(),
                },
            ),
        ),
        MarketEvent::Bar(b) => Some(
            (
                b.source_ts,
                b.rx_ts,
                Payload::Bar {
                    open_raw: b.open.raw(),
                    high_raw: b.high.raw(),
                    low_raw: b.low.raw(),
                    close_raw: b.close.raw(),
                    volume_raw: b.volume.raw(),
                },
            ),
        ),
        MarketEvent::Control(_) => None,
    }
}

/// The event that the columns of a row stand for, read as a row of the kind;
/// `None` where they are columns of another kind.
pub open spec fn event_of_columns(
    instrument: InstrumentView,
    kind: EventKind,
    source_ts: Timestamp,
    rx_ts: Timestamp,
    columns: Payload,
    seq: SeqNo,
) -> Option<EventView> {
    match (kind, columns) {
        (EventKind::Trade, Payload::Trade { price_raw, size_raw }) => Some(
            EventView::Trade(
                TradeView {
                    instrument,
                    source_ts,
                    rx_ts,
                    seq,
                    price: Price(price_raw),
                    size: Quantity(size_raw),
                },
            ),
        ),
        (
            EventKind::Quote,
            Payload::Quote { bid_raw, bid_size_raw, ask_raw, ask_size_raw },
        ) => Some(
            EventView::Quote(
                QuoteView {
                    instrument,
                    source_ts,
                    rx_ts,
                    seq,
                    bid: Price(bid_raw),
                    bid_size: Quantity(bid_size_raw),
                    ask: Price(ask_raw),
                    ask_size: Quantity(ask_size_raw),
                },
            ),
        ),
        (
            EventKind::Bar(interval),
            Payload::Bar { open_raw, high_raw, low_raw, close_raw, volume_raw },
        ) => Some(
            EventView::Bar(
                BarView {
                    instrument,
                    interval,
                    source_ts,
                    rx_ts,
                    seq,
                    open: Price(open_raw),
                    high: Price(high_raw),
                    low: Price(low_raw),
                    close: Price(close_raw),
                    volume: Quantity(volume_raw),
                },
            ),
        ),
        _ => None,
    }
}

/// The event that the columns of a row stand for.
pub fn read_columns(
    instrument: &Instrument,
    kind: EventKind,
    source_ts: Timestamp,
    rx_ts: Timestamp,
    columns: Payload,
    seq: SeqNo,
) -> (r: Option<MarketEvent>)
    ensures
        r is Some <==> event_of_columns(instrument@, kind, source_ts, rx_ts, columns, seq) is Some,
        r matches Some(ev) ==> Some(ev@) == event_of_columns(
            instrument@,
            kind,
            source_ts,
            rx_ts,
            columns,
            seq,
        ),
{
    match (kind, columns) {
        (EventKind::Trade, Payload::Trade { price_raw, size_raw }) => Some(
            MarketEvent::Trade(
                Trade {
                    instrument: instrument.clone(),
                    source_ts,
                    rx_ts,
                    seq,
                    price: Price::from_raw(price_raw),
                    size: Quantity::from_raw(size_raw),
                },
            ),
        ),
        (
            EventKind::Quote,
            Payload::Quote { bid_raw, bid_size_raw, ask_raw, ask_size_raw },
        ) => Some(
            MarketEvent::Quote(
                Quote {
                    instrument: instrument.clone(),
                    source_ts,
                    rx_ts,
                    seq,
                    bid: Price::from_raw(bid_raw),
                    bid_size: Quantity::from_raw(bid_size_raw),
                    ask: Price::from_raw(ask_raw),
                    ask_size: Quantity::from_raw(ask_size_raw),
                },
            ),
        ),
        (
            EventKind::Bar(interval),
            Payload::Bar { open_raw, high_raw, low_raw, close_raw, volume_raw },
        ) => Some(
            MarketEvent::Bar(
                Bar {
                    instrument: instrument.clone(),
                    interval,
                    source_ts,
                    rx_ts,
                    seq,
                    open: Price::from_raw(open_raw),
                    high: Price::from_raw(high_raw),
                    low: Price::from_raw(low_raw),
                    close: Price::from_raw(close_raw),
                    volume: Quantity::from_raw(volume_raw),
                },
            ),
        ),
        _ => None,
    }
}

/// Reading gives back what was written: the columns of a data event, read as
/// a row of its instrument and kind, are the event, at the place asked for.
pub proof fn law_columns_round_trip(ev: EventView, seq: SeqNo)
    requires
        ev.is_data(),
    ensures
        ({
            let (instrument, kind) = pair_of(ev)->0;
            event_of_columns(
                instrument,
                kind,
                ev.source_ts(),
                rx_ts_of(ev),
                payload_of(ev)->0,
                seq,
            ) == Some(ev.with_seq(seq))
        }),
{
}

// ---------------------------------------------------------------------------
// Rows of the historical cache
// ---------------------------------------------------------------------------

/// One row of the historical cache: its id within the table, the columns that
/// queries filter by, and those of its kind.
#[derive(Debug, PartialEq, Eq)]
pub struct StoredRow {
    pub id: String,
    pub provider: String,
    pub symbol: String,
    pub adjustment: String,
    pub source_ts: Timestamp,
    pub rx_ts: Timestamp,
    pub columns: Payload,
}

/// The columns of a [`StoredRow`].
pub struct RowView {
    pub provider: Seq<char>,
    pub symbol: Seq<char>,
    pub adjustment: Seq<char>,
    pub source_ts: Timestamp,
    pub rx_ts: Timestamp,
    pub columns: Payload,
}

impl View for StoredRow {
    type V = (Seq<char>, RowView);

    open spec fn view(&self) -> (Seq<char>, RowView) {
        (
            self.id@,
            RowView {
                provider: self.provider@,
                symbol: self.symbol@,
                adjustment: self.adjustment@,
                source_ts: self.source_ts,
                rx_ts: self.rx_ts,
                columns: self.columns,
            },
        )
    }
}

/// The row of a data event that is stored under a key.
pub open spec fn row_under(key: CacheKeyView, ev: EventView) -> RowView {
    RowView {
        provider: key.instrument.provider,
        symbol: key.instrument.symbol,
        adjustment: adjustment_text(stored_adjustment(key.kind, key.adjustment)),
        source_ts: ev.source_ts(),
        rx_ts: rx_ts_of(ev),
        columns: payload_of(ev)->0,
    }
}

/// Whether rows are those of the data events of a sequence, in order.
pub open spec fn stores(rows: Seq<StoredRow>, key: CacheKeyView, evs: Seq<EventView>) -> bool {
    &&& rows.len() == evs.len()
    &&& forall|i: int|
        0 <= i < rows.len() ==> (#[trigger] rows[i])@ == (
            key_row_id(key, evs[i].source_ts().0),
            row_under(key, evs[i]),
        )
}

/// The rows that storing upserts into the key's table, in order.
pub fn store_rows(key: &CacheKey, events: &[MarketEvent]) -> (r: Vec<StoredRow>)
    ensures
        stores(r@, key@, data_events(events@)),
{
    let mut out: Vec<StoredRow> = Vec::new();
    let mut k: usize = 0;
    proof {
        assert(events@.take(0) =~= seq![]);
    }
    while k < events.len()
        invariant
            0 <= k <= events@.len(),
            stores(out@, key@, data_events(events@.take(k as int))),
        decreases events@.len() - k,
    {
        proof {
            assert(events@.take(k as int + 1).drop_last() =~= events@.take(k as int));
            assert(events@.take(k as int + 1).last() == events@[k as int]);
        }
        if let Some((source_ts, rx_ts, columns)) = payload(&events[k]) {
            out.push(
                StoredRow {
                    id: row_id(key, source_ts.0),
                    provider: key.instrument.provider.as_str().to_owned(),
                    symbol: key.instrument.symbol().to_owned(),
                    adjustment: effective_adjustment(key).as_str().to_owned(),
                    source_ts,
                    rx_ts,
                    columns,
                },
            );
        }
        k += 1;
    }
    proof {
        assert(events@.take(k as int) =~= events@);
    }
    out
}

/// The event that a row of a key stands for, not yet placed.
pub open spec fn event_of_stored(key: CacheKeyView, row: RowView) -> Option<EventView> {
    event_of_columns(
        key.instrument,
        key.kind,
        row.source_ts,
        row.rx_ts,
        row.columns,
        SeqNo(0),
    )
}

/// The events of rows that were read for a key, in order and not yet placed;
/// `None` where a row is of another kind.
pub fn replay_rows(key: &CacheKey, rows: &Vec<StoredRow>) -> (r: Option<Vec<MarketEvent>>)
    ensures
        r is Some <==> forall|i: int|
            0 <= i < rows@.len() ==> event_of_stored(key@, (#[trigger] rows@[i])@.1) is Some,
        r matches Some(evs) ==> evs@.len() == rows@.len() && forall|i: int|
            0 <= i < evs@.len() ==> Some((#[trigger] evs@[i])@) == event_of_stored(
                key@,
                rows@[i]@.1,
            ),
{
    let mut out: Vec<MarketEvent> = Vec::new();
    let mut k: usize = 0;
    while k < rows.len()
        invariant
            0 <= k <= rows@.len(),
            out@.len() == k,
            forall|i: int|
                0 <= i < k ==> event_of_stored(key@, (#[trigger] rows@[i])@.1) is Some,
            forall|i: int|
                0 <= i < k ==> Some((#[trigger] out@[i])@) == event_of_stored(key@, rows@[i]@.1),
        decreases rows@.len() - k,
    {
        let row = &rows[k];
        match read_columns(
            &key.instrument,
            key.kind,
            row.source_ts,
            row.rx_ts,
            row.columns,
            SeqNo(0),
        ) {
            Some(ev) => {
                out.push(ev);
            },
            None => {
                assert(event_of_stored(key@, rows@[k as int]@.1) is None);
                return None;
            },
        }
        k += 1;
    }
    Some(out)
}

/// The columns of a row say by their names what they hold: the price and the
/// size of a trade, the bid and the ask of a quote with the size of each, the
/// four prices and the volume of a bar.
pub proof fn law_columns_keep_their_names(t: TradeView, q: QuoteView, b: BarView)
    ensures
        payload_of(EventView::Trade(t)) matches Some(Payload::Trade { price_raw, size_raw })
            && price_raw == t.price.0 && size_raw == t.size.0,
        payload_of(EventView::Quote(q)) matches Some(
            Payload::Quote { bid_raw, bid_size_raw, ask_raw, ask_size_raw },
        ) && bid_raw == q.bid.0 && bid_size_raw == q.bid_size.0 && ask_raw == q.ask.0
            && ask_size_raw == q.ask_size.0,
        payload_of(EventView::Bar(b)) matches Some(
            Payload::Bar { open_raw, high_raw, low_raw, close_raw, volume_raw },
        ) && open_raw == b.open.0 && high_raw == b.high.0 && low_raw == b.low.0 && close_raw
            == b.close.0 && volume_raw == b.volume.0,
        rx_ts_of(EventView::Trade(t)) == t.rx_ts,
        rx_ts_of(EventView::Quote(q)) == q.rx_ts,
        rx_ts_of(EventView::Bar(b)) == b.rx_ts,
{
}

/// A stored row names the series that it belongs to, the event's two times each
/// under its own name, and what the event says.
pub proof fn law_stored_rows_name_their_series(key: CacheKeyView, ev: EventView, row: StoredRow)
    ensures
        row_under(key, ev).provider == key.instrument.provider,
        row_under(key, ev).symbol == key.instrument.symbol,
        row_under(key, ev).adjustment == adjustment_text(
            stored_adjustment(key.kind, key.adjustment),
        ),
        row_under(key, ev).source_ts == ev.source_ts(),
        row_under(key, ev).rx_ts == rx_ts_of(ev),
        ev.is_data() ==> Some(row_under(key, ev).columns) == payload_of(ev),
        row@.0 == row.id@,
        row@.1.provider == row.provider@ && row@.1.symbol == row.symbol@,
        row@.1.adjustment == row.adjustment@,
        row@.1.source_ts == row.source_ts && row@.1.rx_ts == row.rx_ts,
        row@.1.columns == row.columns,
{
}

} // verus!
