//! Snapshots and history of the stock provider.

use vstd::prelude::*;

use crate::error::{Error, ErrorView};
use crate::event::{
    Adjustment, Bar, BarInterval, BarView, EventKind, EventView, Instrument, MarketEvent, Price,
    Quantity, Quote, QuoteView, SeqNo, Timestamp, Trade, TradeView, QUANTITY_SCALE,
};
use crate::providers::clock::{chrono_to_ts, timestamp_of, ts_to_chrono, UtcInstant};
use crate::providers::link::provider_failure;
use crate::request::HistoryRequest;

use super::config::{snapshot_feed, snapshot_source, AlpacaProvider, RestFeed, PROVIDER_ID};

verus! {

/// A trade as REST reports it. Sizes count whole units.
#[derive(Debug)]
pub struct RestTrade {
    pub timestamp: UtcInstant,
    pub price: Price,
    pub size: u32,
}

/// A quote as REST reports it.
#[derive(Debug)]
pub struct RestQuote {
    pub timestamp: UtcInstant,
    pub bid_price: Price,
    pub bid_size: u32,
    pub ask_price: Price,
    pub ask_size: u32,
}

/// A bar as REST reports it.
#[derive(Debug)]
pub struct RestBar {
    pub time: UtcInstant,
    pub open: Price,
    pub high: Price,
    pub low: Price,
    pub close: Price,
    pub volume: u64,
}

/// The latest data of one symbol.
#[derive(Debug)]
pub struct StockSnapshot {
    pub latest_trade: Option<RestTrade>,
    pub latest_quote: Option<RestQuote>,
    pub minute_bar: Option<RestBar>,
    pub daily_bar: Option<RestBar>,
}

pub open spec fn units(n: int) -> Quantity {
    Quantity((n * QUANTITY_SCALE) as u64)
}

impl RestTrade {
    pub open spec fn as_event(self, instrument: Instrument, rx: Timestamp) -> EventView {
        EventView::Trade(
            TradeView {
                instrument: instrument@,
                source_ts: timestamp_of(self.timestamp),
                rx_ts: rx,
                seq: SeqNo(0),
                price: self.price,
                size: units(self.size as int),
            },
        )
    }
}

impl RestQuote {
    pub open spec fn as_event(self, instrument: Instrument, rx: Timestamp) -> EventView {
        EventView::Quote(
            QuoteView {
                instrument: instrument@,
                source_ts: timestamp_of(self.timestamp),
                rx_ts: rx,
                seq: SeqNo(0),
                bid: self.bid_price,
                bid_size: units(self.bid_size as int),
                ask: self.ask_price,
                ask_size: units(self.ask_size as int),
            },
        )
    }
}

impl RestBar {
    pub open spec fn valid(self) -> bool {
        self.time.valid() && Quantity::units_fit(self.volume as int)
    }

    pub open spec fn as_event(
        self,
        instrument: Instrument,
        interval: BarInterval,
        rx: Timestamp,
    ) -> EventView {
        EventView::Bar(
            BarView {
                instrument: instrument@,
                interval,
                source_ts: timestamp_of(self.time),
                rx_ts: rx,
                seq: SeqNo(0),
                open: self.open,
                high: self.high,
                low: self.low,
                close: self.close,
                volume: units(self.volume as int),
            },
        )
    }
}

/// A trade received at `rx`, not yet placed.
pub fn trade_event(t: &RestTrade, instrument: &Instrument, rx: Timestamp) -> (r: MarketEvent)
    requires
        t.timestamp.valid(),
    ensures
        r@ == t.as_event(*instrument, rx),
{
    MarketEvent::Trade(
        Trade {
            instrument: instrument.clone(),
            source_ts: chrono_to_ts(t.timestamp),
            rx_ts: rx,
            seq: SeqNo(0),
            price: t.price,
            size: Quantity::from_units(t.size as u64),
        },
    )
}

/// A bar received at `rx`, not yet placed.
pub fn bar_event(
    b: &RestBar,
    instrument: &Instrument,
    interval: BarInterval,
    rx: Timestamp,
) -> (r: MarketEvent)
    requires
        b.valid(),
    ensures
        r@ == b.as_event(*instrument, interval, rx),
{
    MarketEvent::Bar(
        Bar {
            instrument: instrument.clone(),
            interval,
            source_ts: chrono_to_ts(b.time),
            rx_ts: rx,
            seq: SeqNo(0),
            open: b.open,
            high: b.high,
            low: b.low,
            close: b.close,
            volume: Quantity::from_units(b.volume),
        },
    )
}

impl StockSnapshot {
    pub open spec fn valid(self) -> bool {
        &&& self.latest_trade matches Some(t) ==> t.timestamp.valid()
        &&& self.latest_quote matches Some(q) ==> q.timestamp.valid()
        &&& self.minute_bar matches Some(b) ==> b.valid()
        &&& self.daily_bar matches Some(b) ==> b.valid()
    }

    /// The event of the kind, where the snapshot has the datum. There are
    /// minute and daily bars only.
    pub open spec fn event_of(
        self,
        instrument: Instrument,
        kind: EventKind,
        rx: Timestamp,
    ) -> Option<EventView> {
        match kind {
            EventKind::Trade => match self.latest_trade {
                Some(t) => Some(t.as_event(instrument, rx)),
                None => None,
            },
            EventKind::Quote => match self.latest_quote {
                Some(q) => Some(q.as_event(instrument, rx)),
                None => None,
            },
            EventKind::Bar(interval) => match (interval, self.minute_bar, self.daily_bar) {
                (BarInterval::OneMinute, Some(b), _) => Some(b.as_event(instrument, interval, rx)),
                (BarInterval::OneDay, _, Some(b)) => Some(b.as_event(instrument, interval, rx)),
                _ => None,
            },
        }
    }
}

/// The event that a snapshot gives for the kind, not yet placed.
pub fn snapshot_to_event(
    snap: &StockSnapshot,
    instrument: &Instrument,
    kind: EventKind,
    rx: Timestamp,
) -> (r: Option<MarketEvent>)
    requires
        snap.valid(),
    ensures
        r is Some <==> snap.event_of(*instrument, kind, rx) is Some,
        r is Some ==> Some(r->0@) == snap.event_of(*instrument, kind, rx),
{
    match kind {
        EventKind::Trade => match &snap.latest_trade {
            Some(t) => Some(trade_event(t, instrument, rx)),
            None => None,
        },
        EventKind::Quote => match &snap.latest_quote {
            Some(q) => Some(
                MarketEvent::Quote(
                    Quote {
                        instrument: instrument.clone(),
                        source_ts: chrono_to_ts(q.timestamp),
                        rx_ts: rx,
                        seq: SeqNo(0),
                        bid: q.bid_price,
                        bid_size: Quantity::from_units(q.bid_size as u64),
                        ask: q.ask_price,
                        ask_size: Quantity::from_units(q.ask_size as u64),
                    },
                ),
            ),
            None => None,
        },
        EventKind::Bar(interval) => {
            let bar = match interval {
                BarInterval::OneMinute => &snap.minute_bar,
                BarInterval::OneDay => &snap.daily_bar,
                _ => {
                    return None;
                },
            };
            match bar {
                Some(b) => Some(bar_event(b, instrument, interval, rx)),
                None => None,
            }
        },
    }
}

/// Adjustment modes of the bars endpoint.
#[derive(Clone, Copy, Debug, PartialEq, Eq, Structural)]
pub enum AlpacaAdjustment {
    Raw,
    Split,
    Dividend,
    SpinOff,
    All,
}

/// The endpoint's name for an adjustment mode, one for one.
pub open spec fn endpoint_adjustment(adjustment: Adjustment) -> AlpacaAdjustment {
    match adjustment {
        Adjustment::Raw => AlpacaAdjustment::Raw,
        Adjustment::Split => AlpacaAdjustment::Split,
        Adjustment::Dividend => AlpacaAdjustment::Dividend,
        Adjustment::SpinOff => AlpacaAdjustment::SpinOff,
        Adjustment::All => AlpacaAdjustment::All,
    }
}

pub fn map_adjustment(adjustment: Adjustment) -> (r: AlpacaAdjustment)
    ensures
        r == endpoint_adjustment(adjustment),
{
    match adjustment {
        Adjustment::Raw => AlpacaAdjustment::Raw,
        Adjustment::Split => AlpacaAdjustment::Split,
        Adjustment::Dividend => AlpacaAdjustment::Dividend,
        Adjustment::SpinOff => AlpacaAdjustment::SpinOff,
        Adjustment::All => AlpacaAdjustment::All,
    }
}

/// Distinct adjustment modes stay distinct at the endpoint.
pub proof fn law_adjustments_are_one_for_one(a: Adjustment, b: Adjustment)
    ensures
        endpoint_adjustment(a) == endpoint_adjustment(b) <==> a == b,
{
}

/// Bar lengths of the bars endpoint.
#[derive(Clone, Copy, Debug, PartialEq, Eq, Structural)]
pub enum TimeFrame {
    OneMinute,
    FiveMinutes,
    FifteenMinutes,
    OneHour,
    OneDay,
}

/// The endpoint's bar length; it has no one-second bars.
pub open spec fn time_frame(interval: BarInterval) -> Option<TimeFrame> {
    match interval {
        BarInterval::OneSecond => None,
        BarInterval::OneMinute => Some(TimeFrame::OneMinute),
        BarInterval::FiveMinute => Some(TimeFrame::FiveMinutes),
        BarInterval::FifteenMinute => Some(TimeFrame::FifteenMinutes),
        BarInterval::OneHour => Some(TimeFrame::OneHour),
        BarInterval::OneDay => Some(TimeFrame::OneDay),
    }
}

/// The REST call that a history request becomes.
#[derive(Debug)]
pub enum HistoryCall {
    Trades { symbol: String, start: UtcInstant, end: UtcInstant },
    Bars {
        symbol: String,
        time_frame: TimeFrame,
        start: UtcInstant,
        end: UtcInstant,
        adjustment: AlpacaAdjustment,
        interval: BarInterval,
    },
}

/// The message of a request for historical quotes.
pub open spec fn quotes_unavailable() -> Seq<char> {
    "historical quotes not yet wired through fetch_history"@
}

/// What a history request becomes: trades and bars can be fetched, quotes and
/// one-second bars cannot.
pub open spec fn planned(request: HistoryRequest, r: Result<HistoryCall, Error>) -> bool {
    match request.kind {
        EventKind::Trade => r matches Ok(HistoryCall::Trades { symbol, start, end }) && symbol@
            == request.instrument@.symbol && start.total_nanos() == request.from.0
            && end.total_nanos() == request.to.0,
        EventKind::Quote => r is Err && r->Err_0@ == provider_failure(
            PROVIDER_ID@,
            quotes_unavailable(),
        ),
        EventKind::Bar(i) => if time_frame(i) is None {
            r is Err && r->Err_0@ == (ErrorView::UnsupportedEventKind {
                kind: request.kind,
                instrument: request.instrument@,
            })
        } else {
            r matches Ok(
                HistoryCall::Bars { symbol, time_frame: tf, start, end, adjustment, interval },
            ) && symbol@ == request.instrument@.symbol && Some(tf) == time_frame(i)
                && start.total_nanos() == request.from.0 && end.total_nanos() == request.to.0
                && adjustment == endpoint_adjustment(request.adjustment) && interval == i
        },
    }
}

/// The REST call of a history request: trades and bars can be fetched, quotes
/// and one-second bars cannot. Only bars are adjusted.
pub fn plan_history(request: &HistoryRequest) -> (r: Result<HistoryCall, Error>)
    ensures
        planned(*request, r),
{
    let symbol = request.instrument.symbol().to_owned();
    let start = ts_to_chrono(request.from);
    let end = ts_to_chrono(request.to);
    match request.kind {
        EventKind::Trade => Ok(HistoryCall::Trades { symbol, start, end }),
        EventKind::Quote => Err(
            Error::Provider {
                provider: PROVIDER_ID.to_owned(),
                message: "historical quotes not yet wired through fetch_history".to_owned(),
            },
        ),
        EventKind::Bar(interval) => {
            let time_frame = match interval {
                BarInterval::OneSecond => {
                    return Err(
                        Error::UnsupportedEventKind {
                            kind: request.kind,
                            instrument: request.instrument.clone(),
                        },
                    );
                },
                BarInterval::OneMinute => TimeFrame::OneMinute,
                BarInterval::FiveMinute => TimeFrame::FiveMinutes,
                BarInterval::FifteenMinute => TimeFrame::FifteenMinutes,
                BarInterval::OneHour => TimeFrame::OneHour,
                BarInterval::OneDay => TimeFrame::OneDay,
            };
            Ok(
                HistoryCall::Bars {
                    symbol,
                    time_frame,
                    start,
                    end,
                    adjustment: map_adjustment(request.adjustment),
                    interval,
                },
            )
        },
    }
}

/// The message of calls that find no market-data client.
pub open spec fn no_market_data() -> Seq<char> {
    "REST client not initialized (Alpaca credentials missing?)"@
}

/// The message of calls that find no trading client.
pub open spec fn no_trading() -> Seq<char> {
    "Trading client not initialized (Alpaca credentials missing?)"@
}

impl AlpacaProvider {
    /// The call of a history request; without a client there is none.
    pub fn fetch_history(&self, request: &HistoryRequest, has_client: bool) -> (r: Result<
        HistoryCall,
        Error,
    >)
        ensures
            !has_client ==> r is Err && r->Err_0@ == provider_failure(
                PROVIDER_ID@,
                no_market_data(),
            ),
            has_client ==> planned(*request, r),
    {
        if !has_client {
            return Err(
                Error::Provider {
                    provider: PROVIDER_ID.to_owned(),
                    message: "REST client not initialized (Alpaca credentials missing?)".to_owned(),
                },
            );
        }
        plan_history(request)
    }

    /// The feed of the snapshot that seeds a live subscription: that of the
    /// stream, and none where the stream's feed has no snapshots.
    pub fn latest(&self, has_client: bool) -> (r: Result<Option<RestFeed>, Error>)
        ensures
            snapshot_source(self.cfg.stream_feed) is None ==> r == Ok::<Option<RestFeed>, Error>(
                None,
            ),
            snapshot_source(self.cfg.stream_feed) is Some && has_client ==> r == Ok::<
                Option<RestFeed>,
                Error,
            >(snapshot_source(self.cfg.stream_feed)),
            snapshot_source(self.cfg.stream_feed) is Some && !has_client ==> r is Err && r->Err_0@
                == provider_failure(PROVIDER_ID@, no_market_data()),
    {
        let feed = match snapshot_feed(self.cfg.stream_feed) {
            Some(feed) => feed,
            None => {
                return Ok(None);
            },
        };
        if !has_client {
            return Err(
                Error::Provider {
                    provider: PROVIDER_ID.to_owned(),
                    message: "REST client not initialized (Alpaca credentials missing?)".to_owned(),
                },
            );
        }
        Ok(Some(feed))
    }

    /// Whether the catalog can be asked: it takes a trading client.
    pub fn list_instruments(&self, has_client: bool) -> (r: Result<(), Error>)
        ensures
            r is Ok <==> has_client,
            r is Err ==> r->Err_0@ == provider_failure(PROVIDER_ID@, no_trading()),
    {
        if has_client {
            Ok(())
        } else {
            Err(
                Error::Provider {
                    provider: PROVIDER_ID.to_owned(),
                    message: "Trading client not initialized (Alpaca credentials missing?)".to_owned(),
                },
            )
        }
    }
}

/// The events of fetched trades, in order.
pub fn trade_events(rows: &Vec<RestTrade>, instrument: &Instrument, rx: Timestamp) -> (r: Vec<
    MarketEvent,
>)
    requires
        forall|i: int| 0 <= i < rows@.len() ==> (#[trigger] rows@[i]).timestamp.valid(),
    ensures
        r@.len() == rows@.len(),
        forall|i: int|
            0 <= i < r@.len() ==> (#[trigger] r@[i])@ == rows@[i].as_event(*instrument, rx),
{
    let mut out: Vec<MarketEvent> = Vec::new();
    let mut k: usize = 0;
    while k < rows.len()
        invariant
            0 <= k <= rows@.len(),
            forall|i: int| 0 <= i < rows@.len() ==> (#[trigger] rows@[i]).timestamp.valid(),
            out@.len() == k,
            forall|i: int|
                0 <= i < k ==> (#[trigger] out@[i])@ == rows@[i].as_event(*instrument, rx),
        decreases rows@.len() - k,
    {
        out.push(trade_event(&rows[k], instrument, rx));
        k += 1;
    }
    out
}

/// The events of fetched bars, in order.
pub fn bar_events(
    rows: &Vec<RestBar>,
    instrument: &Instrument,
    interval: BarInterval,
    rx: Timestamp,
) -> (r: Vec<MarketEvent>)
    requires
        forall|i: int| 0 <= i < rows@.len() ==> (#[trigger] rows@[i]).valid(),
    ensures
        r@.len() == rows@.len(),
        forall|i: int|
            0 <= i < r@.len() ==> (#[trigger] r@[i])@ == rows@[i].as_event(
                *instrument,
                interval,
                rx,
            ),
{
    let mut out: Vec<MarketEvent> = Vec::new();
    let mut k: usize = 0;
    while k < rows.len()
        invariant
            0 <= k <= rows@.len(),
            forall|i: int| 0 <= i < rows@.len() ==> (#[trigger] rows@[i]).valid(),
            out@.len() == k,
            forall|i: int|
                0 <= i < k ==> (#[trigger] out@[i])@ == rows@[i].as_event(
                    *instrument,
                    interval,
                    rx,
                ),
        decreases rows@.len() - k,
    {
        out.push(bar_event(&rows[k], instrument, interval, rx));
        k += 1;
    }
    out
}

/// How many seconds a bar lasts.
pub open spec fn interval_seconds(interval: BarInterval) -> int {
    match interval {
        BarInterval::OneSecond => 1,
        BarInterval::OneMinute => 60,
        BarInterval::FiveMinute => 300,
        BarInterval::FifteenMinute => 900,
        BarInterval::OneHour => 3_600,
        BarInterval::OneDay => 86_400,
    }
}

/// How many seconds a bar of the endpoint lasts.
pub open spec fn frame_seconds(frame: TimeFrame) -> int {
    match frame {
        TimeFrame::OneMinute => 60,
        TimeFrame::FiveMinutes => 300,
        TimeFrame::FifteenMinutes => 900,
        TimeFrame::OneHour => 3_600,
        TimeFrame::OneDay => 86_400,
    }
}

/// What an adjustment mode corrects prices for: splits, dividends, spin-offs.
pub open spec fn corrects(adjustment: Adjustment) -> (bool, bool, bool) {
    (
        adjustment is Split || adjustment is All,
        adjustment is Dividend || adjustment is All,
        adjustment is SpinOff || adjustment is All,
    )
}

/// What a mode of the endpoint corrects prices for.
pub open spec fn endpoint_corrects(adjustment: AlpacaAdjustment) -> (bool, bool, bool) {
    (
        adjustment is Split || adjustment is All,
        adjustment is Dividend || adjustment is All,
        adjustment is SpinOff || adjustment is All,
    )
}

/// The endpoint corrects prices for exactly what the mode asks for.
pub proof fn law_endpoint_adjusts_as_asked(a: Adjustment)
    ensures
        endpoint_corrects(endpoint_adjustment(a)) == corrects(a),
{
}

/// The bars that the endpoint is asked for last exactly as long as those that
/// are requested, and distinct lengths stay distinct.
pub proof fn law_bars_last_as_long_as_asked(i: BarInterval, j: BarInterval)
    ensures
        time_frame(i) matches Some(frame) ==> frame_seconds(frame) == interval_seconds(i),
        time_frame(i) is None <==> interval_seconds(i) < 60,
        time_frame(i) is Some && time_frame(i) == time_frame(j) ==> i == j,
{
}

/// A planned call fetches what is requested: the symbol, from the first
/// instant of the range to its end, bars as long as requested, labelled with
/// that length and adjusted as asked. Exactly quotes and bars under a minute
/// cannot be fetched.
pub proof fn law_planned_calls_fetch_what_is_requested(
    request: HistoryRequest,
    r: Result<HistoryCall, Error>,
)
    requires
        planned(request, r),
    ensures
        r is Err <==> request.kind is Quote || (request.kind matches EventKind::Bar(i)
            && interval_seconds(i) < 60),
        r matches Ok(HistoryCall::Trades { symbol, start, end }) ==> {
            &&& request.kind is Trade
            &&& symbol@ == request.instrument.symbol@
            &&& timestamp_of(start) == request.from
            &&& timestamp_of(end) == request.to
        },
        r matches Ok(
            HistoryCall::Bars { symbol, time_frame: frame, start, end, adjustment, interval },
        ) ==> {
            &&& request.kind == EventKind::Bar(interval)
            &&& frame_seconds(frame) == interval_seconds(interval)
            &&& symbol@ == request.instrument.symbol@
            &&& timestamp_of(start) == request.from
            &&& timestamp_of(end) == request.to
            &&& endpoint_corrects(adjustment) == corrects(request.adjustment)
        },
{
}

/// A fetched trade becomes a trade of the instrument with its own price, time
/// and size in whole units.
pub proof fn law_fetched_trades_keep_their_names(
    t: RestTrade,
    instrument: Instrument,
    rx: Timestamp,
)
    ensures
        t.as_event(instrument, rx) matches EventView::Trade(e) && {
            &&& e.instrument == instrument@
            &&& e.price == t.price
            &&& e.size.0 == t.size * 1_000_000_000
            &&& e.source_ts == timestamp_of(t.timestamp)
            &&& e.rx_ts == rx
            &&& e.seq.0 == 0
        },
{
    assert(0 <= t.size * 1_000_000_000 <= u64::MAX) by (nonlinear_arith)
        requires
            0 <= t.size <= u32::MAX,
    ;
}

/// A quote of a snapshot keeps its bid and its ask apart.
pub proof fn law_snapshot_quotes_keep_their_names(
    q: RestQuote,
    instrument: Instrument,
    rx: Timestamp,
)
    ensures
        q.as_event(instrument, rx) matches EventView::Quote(e) && {
            &&& e.instrument == instrument@
            &&& e.bid == q.bid_price
            &&& e.bid_size.0 == q.bid_size * 1_000_000_000
            &&& e.ask == q.ask_price
            &&& e.ask_size.0 == q.ask_size * 1_000_000_000
            &&& e.source_ts == timestamp_of(q.timestamp)
            &&& e.rx_ts == rx
            &&& e.seq.0 == 0
        },
{
    assert(0 <= q.bid_size * 1_000_000_000 <= u64::MAX) by (nonlinear_arith)
        requires
            0 <= q.bid_size <= u32::MAX,
    ;
    assert(0 <= q.ask_size * 1_000_000_000 <= u64::MAX) by (nonlinear_arith)
        requires
            0 <= q.ask_size <= u32::MAX,
    ;
}

/// A fetched bar keeps each of its prices under its own name, and so a bar
/// whose prices lie between its low and its high still has them there.
pub proof fn law_fetched_bars_keep_their_names(
    b: RestBar,
    instrument: Instrument,
    interval: BarInterval,
    rx: Timestamp,
)
    requires
        b.valid(),
    ensures
        b.as_event(instrument, interval, rx) matches EventView::Bar(e) && {
            &&& e.instrument == instrument@
            &&& e.interval == interval
            &&& e.open == b.open && e.high == b.high && e.low == b.low && e.close == b.close
            &&& e.volume.0 == b.volume * 1_000_000_000
            &&& e.source_ts == timestamp_of(b.time)
            &&& e.rx_ts == rx
            &&& e.seq.0 == 0
            &&& b.low.0 <= b.open.0 <= b.high.0 && b.low.0 <= b.close.0 <= b.high.0 ==> e.low.0
                <= e.open.0 <= e.high.0 && e.low.0 <= e.close.0 <= e.high.0
        },
{
}

/// A snapshot seeds a stream with an event of that stream, if with any: one of
/// the instrument and of the kind asked for. A minute bar is the minute's, a
/// daily bar the day's, and there are no other bars.
pub proof fn law_snapshots_seed_the_stream_asked_for(
    snap: StockSnapshot,
    instrument: Instrument,
    kind: EventKind,
    rx: Timestamp,
)
    ensures
        snap.event_of(instrument, kind, rx) matches Some(ev) ==> crate::table::pair_of(ev) == Some(
            (instrument@, kind),
        ),
        snap.event_of(instrument, EventKind::Trade, rx) is Some <==> snap.latest_trade is Some,
        snap.event_of(instrument, EventKind::Quote, rx) is Some <==> snap.latest_quote is Some,
        snap.latest_trade matches Some(t) ==> snap.event_of(instrument, EventKind::Trade, rx)
            == Some(t.as_event(instrument, rx)),
        snap.latest_quote matches Some(q) ==> snap.event_of(instrument, EventKind::Quote, rx)
            == Some(q.as_event(instrument, rx)),
        snap.event_of(instrument, EventKind::Bar(BarInterval::OneMinute), rx) is Some
            <==> snap.minute_bar is Some,
        snap.event_of(instrument, EventKind::Bar(BarInterval::OneDay), rx) is Some
            <==> snap.daily_bar is Some,
        snap.minute_bar matches Some(b) ==> snap.event_of(
            instrument,
            EventKind::Bar(BarInterval::OneMinute),
            rx,
        ) == Some(b.as_event(instrument, BarInterval::OneMinute, rx)),
        snap.daily_bar matches Some(b) ==> snap.event_of(
            instrument,
            EventKind::Bar(BarInterval::OneDay),
            rx,
        ) == Some(b.as_event(instrument, BarInterval::OneDay, rx)),
        kind matches EventKind::Bar(i) ==> (snap.event_of(instrument, kind, rx) is Some
            ==> interval_seconds(i) == 60 || interval_seconds(i) == 86_400),
{
}

} // verus!
