//! Translation of stock stream messages into events.

use vstd::prelude::*;

use crate::event::{
    Bar, BarInterval, BarView, ControlKind, ControlKindView, EventView, MarketEvent, Price,
    Quantity, Quote, QuoteView, SeqNo, Timestamp, Trade, TradeView, QUANTITY_SCALE,
};
use crate::providers::clock::{chrono_to_ts, timestamp_of, UtcInstant};
use crate::text::join;

use super::config::{provider_instrument, stock, PROVIDER_ID};

verus! {

/// A trade of the stream.
#[derive(Debug)]
pub struct StockTradeEvent {
    pub symbol: String,
    pub timestamp: UtcInstant,
    pub price: Price,
    pub size: Quantity,
}

/// A quote of the stream.
#[derive(Debug)]
pub struct StockQuoteEvent {
    pub symbol: String,
    pub timestamp: UtcInstant,
    pub bid_price: Price,
    pub bid_size: Quantity,
    pub ask_price: Price,
    pub ask_size: Quantity,
}

/// A bar of the stream. Its volume counts whole units.
#[derive(Debug)]
pub struct StockBar {
    pub symbol: String,
    pub timestamp: UtcInstant,
    pub open: Price,
    pub high: Price,
    pub low: Price,
    pub close: Price,
    pub volume: i64,
}

/// An error that the server sent, its code as it is rendered.
#[derive(Debug)]
pub struct StreamError {
    pub code: String,
    pub message: String,
}

/// One message of the stream.
#[derive(Debug)]
pub enum StockStreamMessage {
    Trade(StockTradeEvent),
    Quote(StockQuoteEvent),
    /// A finished minute.
    Bar(StockBar),
    DailyBar(StockBar),
    /// A correction of a minute.
    UpdatedBar(StockBar),
    Error(StreamError),
    /// Envelopes, confirmations and auxiliary messages.
    Other,
}

/// Whole units of a volume; a negative one counts as none.
pub open spec fn volume_units(volume: int) -> int {
    if volume < 0 {
        0
    } else {
        volume
    }
}

impl StockStreamMessage {
    /// The message's instant is one of the calendar, and its volume one that
    /// a quantity can hold.
    pub open spec fn valid(self) -> bool {
        match self {
            StockStreamMessage::Trade(t) => t.timestamp.valid(),
            StockStreamMessage::Quote(q) => q.timestamp.valid(),
            StockStreamMessage::Bar(b) => b.valid(),
            StockStreamMessage::DailyBar(b) => b.valid(),
            StockStreamMessage::UpdatedBar(b) => b.valid(),
            _ => true,
        }
    }
}

impl StockBar {
    pub open spec fn valid(self) -> bool {
        self.timestamp.valid() && Quantity::units_fit(volume_units(self.volume as int))
    }

    /// The event of the bar.
    pub open spec fn as_event(self, interval: BarInterval, rx: Timestamp) -> BarView {
        BarView {
            instrument: stock(self.symbol@),
            interval,
            source_ts: timestamp_of(self.timestamp),
            rx_ts: rx,
            seq: SeqNo(0),
            open: self.open,
            high: self.high,
            low: self.low,
            close: self.close,
            volume: Quantity((volume_units(self.volume as int) * QUANTITY_SCALE) as u64),
        }
    }
}

/// A trade received at `rx`, not yet placed.
pub fn translate_trade(t: &StockTradeEvent, rx: Timestamp) -> (r: Trade)
    requires
        t.timestamp.valid(),
    ensures
        r@ == (TradeView {
            instrument: stock(t.symbol@),
            source_ts: timestamp_of(t.timestamp),
            rx_ts: rx,
            seq: SeqNo(0),
            price: t.price,
            size: t.size,
        }),
        Some(EventView::Trade(r@)) == message_event(StockStreamMessage::Trade(*t), rx),
        r.price == t.price,
        r.size == t.size,
{
    Trade {
        instrument: provider_instrument(t.symbol.as_str()),
        source_ts: chrono_to_ts(t.timestamp),
        rx_ts: rx,
        seq: SeqNo(0),
        price: t.price,
        size: t.size,
    }
}

/// A quote received at `rx`, not yet placed.
pub fn translate_quote(q: &StockQuoteEvent, rx: Timestamp) -> (r: Quote)
    requires
        q.timestamp.valid(),
    ensures
        r@ == (QuoteView {
            instrument: stock(q.symbol@),
            source_ts: timestamp_of(q.timestamp),
            rx_ts: rx,
            seq: SeqNo(0),
            bid: q.bid_price,
            bid_size: q.bid_size,
            ask: q.ask_price,
            ask_size: q.ask_size,
        }),
        Some(EventView::Quote(r@)) == message_event(StockStreamMessage::Quote(*q), rx),
        r.bid == q.bid_price,
        r.bid_size == q.bid_size,
        r.ask == q.ask_price,
        r.ask_size == q.ask_size,
{
    Quote {
        instrument: provider_instrument(q.symbol.as_str()),
        source_ts: chrono_to_ts(q.timestamp),
        rx_ts: rx,
        seq: SeqNo(0),
        bid: q.bid_price,
        bid_size: q.bid_size,
        ask: q.ask_price,
        ask_size: q.ask_size,
    }
}

/// A bar received at `rx`, not yet placed.
pub fn translate_bar(b: &StockBar, interval: BarInterval, rx: Timestamp) -> (r: Bar)
    requires
        b.valid(),
    ensures
        r@ == b.as_event(interval, rx),
        r.open == b.open,
        r.high == b.high,
        r.low == b.low,
        r.close == b.close,
        r.interval == interval,
{
    let units: u64 = if b.volume < 0 {
        0
    } else {
        b.volume as u64
    };
    Bar {
        instrument: provider_instrument(b.symbol.as_str()),
        interval,
        source_ts: chrono_to_ts(b.timestamp),
        rx_ts: rx,
        seq: SeqNo(0),
        open: b.open,
        high: b.high,
        low: b.low,
        close: b.close,
        volume: Quantity::from_units(units),
    }
}

/// The event of a message received at `rx`, if it has one. A minute and its
/// correction are both minute bars.
pub open spec fn message_event(msg: StockStreamMessage, rx: Timestamp) -> Option<EventView> {
    match msg {
        StockStreamMessage::Trade(t) => Some(
            EventView::Trade(
                TradeView {
                    instrument: stock(t.symbol@),
                    source_ts: timestamp_of(t.timestamp),
                    rx_ts: rx,
                    seq: SeqNo(0),
                    price: t.price,
                    size: t.size,
                },
            ),
        ),
        StockStreamMessage::Quote(q) => Some(
            EventView::Quote(
                QuoteView {
                    instrument: stock(q.symbol@),
                    source_ts: timestamp_of(q.timestamp),
                    rx_ts: rx,
                    seq: SeqNo(0),
                    bid: q.bid_price,
                    bid_size: q.bid_size,
                    ask: q.ask_price,
                    ask_size: q.ask_size,
                },
            ),
        ),
        StockStreamMessage::Bar(b) => Some(EventView::Bar(b.as_event(BarInterval::OneMinute, rx))),
        StockStreamMessage::DailyBar(b) => Some(
            EventView::Bar(b.as_event(BarInterval::OneDay, rx)),
        ),
        StockStreamMessage::UpdatedBar(b) => Some(
            EventView::Bar(b.as_event(BarInterval::OneMinute, rx)),
        ),
        StockStreamMessage::Error(e) => Some(
            EventView::control(
                rx,
                SeqNo(0),
                ControlKindView::ProviderError {
                    provider: PROVIDER_ID@,
                    message: e.code@ + ": "@ + e.message@,
                },
            ),
        ),
        StockStreamMessage::Other => None,
    }
}

/// Translate one message received at `rx` into its events, at most one.
pub fn translate_stock_message(msg: StockStreamMessage, rx: Timestamp) -> (r: Vec<MarketEvent>)
    requires
        msg.valid(),
    ensures
        message_event(msg, rx) is None ==> r@.len() == 0,
        message_event(msg, rx) matches Some(ev) ==> r@.len() == 1 && r@[0]@ == ev,
{
    let mut out: Vec<MarketEvent> = Vec::new();
    match msg {
        StockStreamMessage::Trade(t) => out.push(MarketEvent::Trade(translate_trade(&t, rx))),
        StockStreamMessage::Quote(q) => out.push(MarketEvent::Quote(translate_quote(&q, rx))),
        StockStreamMessage::Bar(b) => out.push(
            MarketEvent::Bar(translate_bar(&b, BarInterval::OneMinute, rx)),
        ),
        StockStreamMessage::DailyBar(b) => out.push(
            MarketEvent::Bar(translate_bar(&b, BarInterval::OneDay, rx)),
        ),
        StockStreamMessage::UpdatedBar(b) => out.push(
            MarketEvent::Bar(translate_bar(&b, BarInterval::OneMinute, rx)),
        ),
        StockStreamMessage::Error(e) => {
            let head = join(e.code.as_str(), ": ");
            out.push(
                MarketEvent::control(
                    rx,
                    SeqNo(0),
                    ControlKind::ProviderError {
                        provider: PROVIDER_ID.to_owned(),
                        message: join(head.as_str(), e.message.as_str()),
                    },
                ),
            )
        },
        StockStreamMessage::Other => {},
    }
    out
}

/// A streamed trade becomes a trade of its symbol with its own price and size.
pub proof fn law_streamed_trades_keep_their_names(t: StockTradeEvent, rx: Timestamp)
    ensures
        message_event(StockStreamMessage::Trade(t), rx) matches Some(EventView::Trade(e)) && {
            &&& e.instrument.symbol == t.symbol@
            &&& e.instrument.provider == PROVIDER_ID@
            &&& e.instrument.asset_class is Equity
            &&& e.price == t.price
            &&& e.size == t.size
            &&& e.source_ts == timestamp_of(t.timestamp)
            &&& e.rx_ts == rx
            &&& e.seq.0 == 0
        },
{
}

/// A streamed quote becomes a quote of its symbol that keeps its bid and its
/// ask apart, with the size of each.
pub proof fn law_streamed_quotes_keep_their_names(q: StockQuoteEvent, rx: Timestamp)
    ensures
        message_event(StockStreamMessage::Quote(q), rx) matches Some(EventView::Quote(e)) && {
            &&& e.instrument.symbol == q.symbol@
            &&& e.instrument.provider == PROVIDER_ID@
            &&& e.instrument.asset_class is Equity
            &&& e.bid == q.bid_price
            &&& e.bid_size == q.bid_size
            &&& e.ask == q.ask_price
            &&& e.ask_size == q.ask_size
            &&& e.source_ts == timestamp_of(q.timestamp)
            &&& e.rx_ts == rx
            &&& e.seq.0 == 0
        },
{
}

/// Whether a bar is that of a message: of its symbol and time, with each of its
/// prices under its own name and its volume in whole units.
pub open spec fn is_bar_of(e: BarView, b: StockBar, rx: Timestamp) -> bool {
    &&& e.instrument.symbol == b.symbol@
    &&& e.instrument.provider == PROVIDER_ID@
    &&& e.instrument.asset_class is Equity
    &&& e.open == b.open
    &&& e.high == b.high
    &&& e.low == b.low
    &&& e.close == b.close
    &&& b.volume >= 0 ==> e.volume.0 == b.volume * 1_000_000_000
    &&& b.volume < 0 ==> e.volume.0 == 0
    &&& e.source_ts == timestamp_of(b.timestamp)
    &&& e.rx_ts == rx
    &&& e.seq.0 == 0
}

/// A streamed bar keeps each of its prices under its own name, whichever
/// message brings it: a minute and its correction become minute bars, a day a
/// daily bar. A bar whose prices lie between its low and its high still has
/// them there.
pub proof fn law_streamed_bars_keep_their_names(b: StockBar, rx: Timestamp)
    requires
        b.valid(),
    ensures
        message_event(StockStreamMessage::Bar(b), rx) matches Some(EventView::Bar(e)) && is_bar_of(e, b, rx)
            && e.interval is OneMinute && e.open == b.open && e.high == b.high && e.low == b.low
            && e.close == b.close,
        message_event(StockStreamMessage::UpdatedBar(b), rx) matches Some(EventView::Bar(e)) && is_bar_of(e, b, rx)
            && e.interval is OneMinute && e.open == b.open && e.high == b.high && e.low == b.low
            && e.close == b.close,
        message_event(StockStreamMessage::DailyBar(b), rx) matches Some(EventView::Bar(e)) && is_bar_of(e, b, rx)
            && e.interval is OneDay && e.open == b.open && e.high == b.high && e.low == b.low
            && e.close == b.close,
        forall|e: BarView|
            #[trigger] is_bar_of(e, b, rx) && b.low.0 <= b.open.0 <= b.high.0 && b.low.0
                <= b.close.0 <= b.high.0 ==> e.low.0 <= e.open.0 <= e.high.0 && e.low.0
                <= e.close.0 <= e.high.0,
{
}

/// Trades become trades, quotes quotes and bars bars; an error of the server
/// becomes an error control of the provider, and nothing else becomes an event.
pub proof fn law_messages_keep_their_kind(msg: StockStreamMessage, rx: Timestamp)
    ensures
        msg is Trade <==> message_event(msg, rx) matches Some(EventView::Trade(_)),
        msg is Quote <==> message_event(msg, rx) matches Some(EventView::Quote(_)),
        msg is Bar || msg is DailyBar || msg is UpdatedBar <==> message_event(msg, rx) matches Some(
            EventView::Bar(_),
        ),
        msg is Other <==> message_event(msg, rx) is None,
        msg matches StockStreamMessage::Error(e) ==> {
            &&& message_event(msg, rx) matches Some(EventView::Control(c))
            &&& message_event(msg, rx)->0->Control_0.kind is ProviderError
            &&& message_event(msg, rx)->0->Control_0.kind->ProviderError_provider == PROVIDER_ID@
            &&& message_event(msg, rx)->0->Control_0.kind->message == e.code@ + ": "@ + e.message@
            &&& message_event(msg, rx)->0->Control_0.source_ts == rx
        },
{
}

} // verus!
