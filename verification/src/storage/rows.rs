//! Stored form of data events: the integers of a row.

use vstd::prelude::*;

use crate::event::{
    Bar, BarView, EventKind, EventView, Instrument, InstrumentView, MarketEvent, Price, Quantity,
    Quote, QuoteView, SeqNo, Timestamp, Trade, TradeView,
};
use crate::num::{cast_signed, cast_unsigned, signed, unsigned};
use crate::table::pair_of;

verus! {

/// Number of integers in a row of the kind.
pub open spec fn columns(kind: EventKind) -> nat {
    match kind {
        EventKind::Trade => 4,
        EventKind::Quote => 6,
        EventKind::Bar(_) => 7,
    }
}

pub fn column_count(kind: EventKind) -> (r: usize)
    ensures
        r == columns(kind),
{
    match kind {
        EventKind::Trade => 4,
        EventKind::Quote => 6,
        EventKind::Bar(_) => 7,
    }
}

/// The integers of a data event's row: its two times, then its payload in raw
/// units. Quantities are stored with their bits.
pub open spec fn row_of(ev: EventView) -> Seq<i64> {
    match ev {
        EventView::Trade(t) => seq![t.source_ts.0, t.rx_ts.0, t.price.0, signed(t.size.0)],
        EventView::Quote(q) => seq![
            q.source_ts.0,
            q.rx_ts.0,
            q.bid.0,
            signed(q.bid_size.0),
            q.ask.0,
            signed(q.ask_size.0),
        ],
        EventView::Bar(b) => seq![
            b.source_ts.0,
            b.rx_ts.0,
            b.open.0,
            b.high.0,
            b.low.0,
            b.close.0,
            signed(b.volume.0),
        ],
        EventView::Control(_) => seq![],
    }
}

/// The event that a row of the kind stands for, at the given place.
pub open spec fn event_of_row(
    instrument: InstrumentView,
    kind: EventKind,
    row: Seq<i64>,
    seq: SeqNo,
) -> EventView {
    match kind {
        EventKind::Trade => EventView::Trade(
            TradeView {
                instrument,
                source_ts: Timestamp(row[0]),
                rx_ts: Timestamp(row[1]),
                seq,
                price: Price(row[2]),
                size: Quantity(unsigned(row[3])),
            },
        ),
        EventKind::Quote => EventView::Quote(
            QuoteView {
                instrument,
                source_ts: Timestamp(row[0]),
                rx_ts: Timestamp(row[1]),
                seq,
                bid: Price(row[2]),
                bid_size: Quantity(unsigned(row[3])),
                ask: Price(row[4]),
                ask_size: Quantity(unsigned(row[5])),
            },
        ),
        EventKind::Bar(interval) => EventView::Bar(
            BarView {
                instrument,
                interval,
                source_ts: Timestamp(row[0]),
                rx_ts: Timestamp(row[1]),
                seq,
                open: Price(row[2]),
                high: Price(row[3]),
                low: Price(row[4]),
                close: Price(row[5]),
                volume: Quantity(unsigned(row[6])),
            },
        ),
    }
}

/// The integers of a data event's row; none for a control.
pub fn encode_row(ev: &MarketEvent) -> (r: Vec<i64>)
    ensures
        r@ == row_of(ev@),
{
    let r: Vec<i64> = match ev {
        MarketEvent::Trade(t) => vec![
            t.source_ts.0,
            t.rx_ts.0,
            t.price.raw(),
            cast_signed(t.size.raw()),
        ],
        MarketEvent::Quote(q) => vec![
            q.source_ts.0,
            q.rx_ts.0,
            q.bid.raw(),
            cast_signed(q.bid_size.raw()),
            q.ask.raw(),
            cast_signed(q.ask_size.raw()),
        ],
        MarketEvent::Bar(b) => vec![
            b.source_ts.0,
            b.rx_ts.0,
            b.open.raw(),
            b.high.raw(),
            b.low.raw(),
            b.close.raw(),
            cast_signed(b.volume.raw()),
        ],
        MarketEvent::Control(_) => Vec::new(),
    };
    proof {
        assert(r@ =~= row_of(ev@));
    }
    r
}

/// The event that a row of the kind stands for, at the given place.
pub fn decode_row(
    instrument: &Instrument,
    kind: EventKind,
    row: &Vec<i64>,
    seq: SeqNo,
) -> (r: MarketEvent)
    requires
        row@.len() == columns(kind),
    ensures
        r@ == event_of_row(instrument@, kind, row@, seq),
{
    match kind {
        EventKind::Trade => MarketEvent::Trade(
            Trade {
                instrument: instrument.clone(),
                source_ts: Timestamp(row[0]),
                rx_ts: Timestamp(row[1]),
                seq,
                price: Price::from_raw(row[2]),
                size: Quantity::from_raw(cast_unsigned(row[3])),
            },
        ),
        EventKind::Quote => MarketEvent::Quote(
            Quote {
                instrument: instrument.clone(),
                source_ts: Timestamp(row[0]),
                rx_ts: Timestamp(row[1]),
                seq,
                bid: Price::from_raw(row[2]),
                bid_size: Quantity::from_raw(cast_unsigned(row[3])),
                ask: Price::from_raw(row[4]),
                ask_size: Quantity::from_raw(cast_unsigned(row[5])),
            },
        ),
        EventKind::Bar(interval) => MarketEvent::Bar(
            Bar {
                instrument: instrument.clone(),
                interval,
                source_ts: Timestamp(row[0]),
                rx_ts: Timestamp(row[1]),
                seq,
                open: Price::from_raw(row[2]),
                high: Price::from_raw(row[3]),
                low: Price::from_raw(row[4]),
                close: Price::from_raw(row[5]),
                volume: Quantity::from_raw(cast_unsigned(row[6])),
            },
        ),
    }
}

/// Reading gives back what was written: a data event's row, read as a row of
/// the event's instrument and kind, is the event, at the place asked for.
pub proof fn law_rows_round_trip(ev: EventView, seq: SeqNo)
    requires
        ev.is_data(),
    ensures
        ({
            let (instrument, kind) = pair_of(ev)->0;
            &&& row_of(ev).len() == columns(kind)
            &&& event_of_row(instrument, kind, row_of(ev), seq) == ev.with_seq(seq)
        }),
{
}

} // verus!
