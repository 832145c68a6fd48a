//! The Alpaca crypto provider: one shared connection whose events are routed
//! to the sessions that subscribed them.

use vstd::prelude::*;

use crate::error::Error;
use crate::event::{
    AssetClass, Bar, BarInterval, BarView, ControlKind, ControlKindView, DisconnectCause, EventKind,
    EventView, Instrument, InstrumentView, MarketEvent, Price, ProviderId, Quantity, Quote,
    QuoteView, SeqNo, Timestamp, Trade, TradeView, QUANTITY_SCALE,
};
use crate::session::options::ReconnectPolicy;
use crate::table::{event_pair, pair_of, Pair, Table};
use crate::text::join;

use super::alpaca::config::AccountType;
use super::alpaca::messages::StreamError;
use super::clock::{chrono_to_ts, timestamp_of, UtcInstant};
use super::link::{call_failed, next_backoff, provider_failure, Backoff};
use super::symbols::{
    changed, channel_of, clone_field, lists_nothing, mutate_field, symbols_in,
};

verus! {

/// Id of the crypto provider.
pub const PROVIDER_ID: &'static str = "alpaca-crypto";

/// Venue of the crypto stream.
#[derive(Clone, Copy, Debug, PartialEq, Eq, Structural)]
pub enum AlpacaCryptoVenue {
    /// The aggregated US feed.
    Us,
    /// The Kraken-backed US feed.
    UsKraken,
    /// The Kraken-backed EU feed.
    EuKraken,
}

/// Configuration of the crypto provider.
#[derive(Clone, Copy, Debug, PartialEq, Eq, Structural)]
pub struct AlpacaCryptoProviderConfig {
    pub account_type: AccountType,
    pub venue: AlpacaCryptoVenue,
    pub reconnect: ReconnectPolicy,
}

impl Default for AlpacaCryptoProviderConfig {
    fn default() -> (r: AlpacaCryptoProviderConfig)
        ensures
            r == (AlpacaCryptoProviderConfig {
                account_type: AccountType::Paper,
                venue: AlpacaCryptoVenue::Us,
                reconnect: ReconnectPolicy {
                    initial_backoff_ms: 500,
                    max_backoff_ms: 30_000,
                    jitter: true,
                },
            }),
    {
        AlpacaCryptoProviderConfig {
            account_type: AccountType::Paper,
            venue: AlpacaCryptoVenue::Us,
            reconnect: ReconnectPolicy::default(),
        }
    }
}

/// The crypto provider.
#[derive(Clone, Copy, Debug)]
pub struct AlpacaCryptoProvider {
    pub cfg: AlpacaCryptoProviderConfig,
}

impl AlpacaCryptoProvider {
    pub fn new(cfg: AlpacaCryptoProviderConfig) -> (r: AlpacaCryptoProvider)
        ensures
            r.cfg == cfg,
    {
        AlpacaCryptoProvider { cfg }
    }

    pub fn id(&self) -> (r: &str)
        ensures
            r@ == PROVIDER_ID@,
    {
        PROVIDER_ID
    }

    /// Trades, quotes, and minute and daily bars, of any instrument.
    pub fn supports(&self, _instrument: &Instrument, kind: EventKind) -> (r: bool)
        ensures
            r == coin_supports(kind),
    {
        match kind {
            EventKind::Trade => true,
            EventKind::Quote => true,
            EventKind::Bar(BarInterval::OneMinute) => true,
            EventKind::Bar(BarInterval::OneDay) => true,
            EventKind::Bar(_) => false,
        }
    }

    /// There is no history here.
    pub fn history_unavailable(&self) -> (r: Error)
        ensures
            r@ == provider_failure(
                PROVIDER_ID@,
                "crypto historical fetch is not wired up in this provider"@,
            ),
    {
        Error::Provider {
            provider: PROVIDER_ID.to_owned(),
            message: "crypto historical fetch is not wired up in this provider".to_owned(),
        }
    }
}

/// The kinds that the provider supports.
pub open spec fn coin_supports(kind: EventKind) -> bool {
    match kind {
        EventKind::Trade => true,
        EventKind::Quote => true,
        EventKind::Bar(i) => i is OneMinute || i is OneDay,
    }
}

/// The value of an instrument of this provider.
pub open spec fn coin(symbol: Seq<char>) -> InstrumentView {
    InstrumentView { provider: PROVIDER_ID@, asset_class: AssetClass::Crypto, symbol }
}

pub fn provider_instrument(symbol: &str) -> (r: Instrument)
    ensures
        r@ == coin(symbol@),
{
    Instrument::new(ProviderId::from_static(PROVIDER_ID), AssetClass::Crypto, symbol)
}

// ---------------------------------------------------------------------------
// Messages
// ---------------------------------------------------------------------------

/// A trade of the stream. Sizes count whole units.
#[derive(Debug)]
pub struct CryptoTrade {
    pub symbol: String,
    pub timestamp: UtcInstant,
    pub price: Price,
    pub size: u64,
}

/// A quote of the stream.
#[derive(Debug)]
pub struct CryptoQuote {
    pub symbol: String,
    pub timestamp: UtcInstant,
    pub bid_price: Price,
    pub bid_size: u64,
    pub ask_price: Price,
    pub ask_size: u64,
}

/// A bar of the stream.
#[derive(Debug)]
pub struct CryptoBar {
    pub symbol: String,
    pub timestamp: UtcInstant,
    pub open: Price,
    pub high: Price,
    pub low: Price,
    pub close: Price,
    pub volume: u64,
}

/// One message of the stream.
#[derive(Debug)]
pub enum CryptoStreamMessage {
    Trade(CryptoTrade),
    Quote(CryptoQuote),
    Bar(CryptoBar),
    DailyBar(CryptoBar),
    UpdatedBar(CryptoBar),
    Error(StreamError),
    /// Confirmations and order books.
    Other,
}

pub open spec fn units(n: int) -> Quantity {
    Quantity((n * QUANTITY_SCALE) as u64)
}

impl CryptoTrade {
    pub open spec fn valid(self) -> bool {
        self.timestamp.valid() && Quantity::units_fit(self.size as int)
    }

    pub open spec fn as_event(self, rx: Timestamp) -> TradeView {
        TradeView {
            instrument: coin(self.symbol@),
            source_ts: timestamp_of(self.timestamp),
            rx_ts: rx,
            seq: SeqNo(0),
            price: self.price,
            size: units(self.size as int),
        }
    }
}

impl CryptoQuote {
    pub open spec fn valid(self) -> bool {
        self.timestamp.valid() && Quantity::units_fit(self.bid_size as int) && Quantity::units_fit(
            self.ask_size as int,
        )
    }

    pub open spec fn as_event(self, rx: Timestamp) -> QuoteView {
        QuoteView {
            instrument: coin(self.symbol@),
            source_ts: timestamp_of(self.timestamp),
            rx_ts: rx,
            seq: SeqNo(0),
            bid: self.bid_price,
            bid_size: units(self.bid_size as int),
            ask: self.ask_price,
            ask_size: units(self.ask_size as int),
        }
    }
}

impl CryptoBar {
    pub open spec fn valid(self) -> bool {
        self.timestamp.valid() && Quantity::units_fit(self.volume as int)
    }

    pub open spec fn as_event(self, interval: BarInterval, rx: Timestamp) -> BarView {
        BarView {
            instrument: coin(self.symbol@),
            interval,
            source_ts: timestamp_of(self.timestamp),
            rx_ts: rx,
            seq: SeqNo(0),
            open: self.open,
            high: self.high,
            low: self.low,
            close: self.close,
            volume: units(self.volume as int),
        }
    }
}

impl CryptoStreamMessage {
    pub open spec fn valid(self) -> bool {
        match self {
            CryptoStreamMessage::Trade(t) => t.valid(),
            CryptoStreamMessage::Quote(q) => q.valid(),
            CryptoStreamMessage::Bar(b) => b.valid(),
            CryptoStreamMessage::DailyBar(b) => b.valid(),
            CryptoStreamMessage::UpdatedBar(b) => b.valid(),
            _ => true,
        }
    }

    /// The event of the message received at `rx`, if it has one.
    pub open spec fn as_event(self, rx: Timestamp) -> Option<EventView> {
        match self {
            CryptoStreamMessage::Trade(t) => Some(EventView::Trade(t.as_event(rx))),
            CryptoStreamMessage::Quote(q) => Some(EventView::Quote(q.as_event(rx))),
            CryptoStreamMessage::Bar(b) => Some(
                EventView::Bar(b.as_event(BarInterval::OneMinute, rx)),
            ),
            CryptoStreamMessage::DailyBar(b) => Some(
                EventView::Bar(b.as_event(BarInterval::OneDay, rx)),
            ),
            CryptoStreamMessage::UpdatedBar(b) => Some(
                EventView::Bar(b.as_event(BarInterval::OneMinute, rx)),
            ),
            CryptoStreamMessage::Error(e) => Some(
                EventView::control(
                    rx,
                    SeqNo(0),
                    ControlKindView::ProviderError {
                        provider: PROVIDER_ID@,
                        message: e.code@ + ": "@ + e.message@,
                    },
                ),
            ),
            CryptoStreamMessage::Other => None,
        }
    }
}

pub fn translate_trade(t: &CryptoTrade, rx: Timestamp) -> (r: Trade)
    requires
        t.valid(),
    ensures
        r@ == t.as_event(rx),
        r.price == t.price,
{
    Trade {
        instrument: provider_instrument(t.symbol.as_str()),
        source_ts: chrono_to_ts(t.timestamp),
        rx_ts: rx,
        seq: SeqNo(0),
        price: t.price,
        size: Quantity::from_units(t.size),
    }
}

pub fn translate_quote(q: &CryptoQuote, rx: Timestamp) -> (r: Quote)
    requires
        q.valid(),
    ensures
        r@ == q.as_event(rx),
        r.bid == q.bid_price,
        r.ask == q.ask_price,
{
    Quote {
        instrument: provider_instrument(q.symbol.as_str()),
        source_ts: chrono_to_ts(q.timestamp),
        rx_ts: rx,
        seq: SeqNo(0),
        bid: q.bid_price,
        bid_size: Quantity::from_units(q.bid_size),
        ask: q.ask_price,
        ask_size: Quantity::from_units(q.ask_size),
    }
}

pub fn translate_bar(b: &CryptoBar, interval: BarInterval, rx: Timestamp) -> (r: Bar)
    requires
        b.valid(),
    ensures
        r@ == b.as_event(interval, rx),
        r.open == b.open,
        r.high == b.high,
        r.low == b.low,
        r.close == b.close,
        r.interval == interval,
{
    Bar {
        instrument: provider_instrument(b.symbol.as_str()),
        interval,
        source_ts: chrono_to_ts(b.timestamp),
        rx_ts: rx,
        seq: SeqNo(0),
        open: b.open,
        high: b.high,
        low: b.low,
        close: b.close,
        volume: Quantity::from_units(b.volume),
    }
}

/// Translate one message received at `rx` into its events, at most one.
pub fn translate_crypto_message(msg: CryptoStreamMessage, rx: Timestamp) -> (r: Vec<MarketEvent>)
    requires
        msg.valid(),
    ensures
        msg.as_event(rx) is None ==> r@.len() == 0,
        msg.as_event(rx) matches Some(ev) ==> r@.len() == 1 && r@[0]@ == ev,
{
    let mut out: Vec<MarketEvent> = Vec::new();
    match msg {
        CryptoStreamMessage::Trade(t) => out.push(MarketEvent::Trade(translate_trade(&t, rx))),
        CryptoStreamMessage::Quote(q) => out.push(MarketEvent::Quote(translate_quote(&q, rx))),
        CryptoStreamMessage::Bar(b) => out.push(
            MarketEvent::Bar(translate_bar(&b, BarInterval::OneMinute, rx)),
        ),
        CryptoStreamMessage::DailyBar(b) => out.push(
            MarketEvent::Bar(translate_bar(&b, BarInterval::OneDay, rx)),
        ),
        CryptoStreamMessage::UpdatedBar(b) => out.push(
            MarketEvent::Bar(translate_bar(&b, BarInterval::OneMinute, rx)),
        ),
        CryptoStreamMessage::Error(e) => {
            let head = join(e.code.as_str(), ": ");
            out.push(
                MarketEvent::control(
                    rx,
                    SeqNo(0),
                    ControlKind::ProviderError {
                        provider: PROVIDER_ID.to_owned(),
                        message: join(head.as_str(), e.message.as_str()),
                    },
                ),
            )
        },
        CryptoStreamMessage::Other => {},
    }
    out
}

// ---------------------------------------------------------------------------
// Subscriptions
// ---------------------------------------------------------------------------

/// Symbols subscribed per channel; an absent channel has none.
#[derive(Debug, PartialEq, Eq)]
pub struct CryptoSubscriptionList {
    pub bars: Option<Vec<String>>,
    pub daily_bars: Option<Vec<String>>,
    pub updated_bars: Option<Vec<String>>,
    pub quotes: Option<Vec<String>>,
    pub trades: Option<Vec<String>>,
    pub orderbooks: Option<Vec<String>>,
}

/// The value of a [`CryptoSubscriptionList`].
pub struct CryptoListView {
    pub bars: Option<Seq<Seq<char>>>,
    pub daily_bars: Option<Seq<Seq<char>>>,
    pub updated_bars: Option<Seq<Seq<char>>>,
    pub quotes: Option<Seq<Seq<char>>>,
    pub trades: Option<Seq<Seq<char>>>,
    pub orderbooks: Option<Seq<Seq<char>>>,
}

impl CryptoListView {
    pub open spec fn empty() -> CryptoListView {
        CryptoListView {
            bars: None,
            daily_bars: None,
            updated_bars: None,
            quotes: None,
            trades: None,
            orderbooks: None,
        }
    }

    pub open spec fn is_empty(self) -> bool {
        symbols_in(self.bars).len() == 0 && symbols_in(self.daily_bars).len() == 0 && symbols_in(self.updated_bars).len() == 0
            && symbols_in(self.quotes).len() == 0 && symbols_in(self.trades).len() == 0 && symbols_in(self.orderbooks).len() == 0
    }

    pub open spec fn applied(self, symbol: Seq<char>, kind: EventKind, add: bool) -> CryptoListView {
        match kind {
            EventKind::Trade => CryptoListView {
                trades: changed(self.trades, symbol, add),
                ..self
            },
            EventKind::Quote => CryptoListView {
                quotes: changed(self.quotes, symbol, add),
                ..self
            },
            EventKind::Bar(BarInterval::OneMinute) => CryptoListView {
                bars: changed(self.bars, symbol, add),
                ..self
            },
            EventKind::Bar(BarInterval::OneDay) => CryptoListView {
                daily_bars: changed(self.daily_bars, symbol, add),
                ..self
            },
            EventKind::Bar(_) => self,
        }
    }
}

impl View for CryptoSubscriptionList {
    type V = CryptoListView;

    open spec fn view(&self) -> CryptoListView {
        CryptoListView {
            bars: channel_of(self.bars),
            daily_bars: channel_of(self.daily_bars),
            updated_bars: channel_of(self.updated_bars),
            quotes: channel_of(self.quotes),
            trades: channel_of(self.trades),
            orderbooks: channel_of(self.orderbooks),
        }
    }
}

impl Clone for CryptoSubscriptionList {
    fn clone(&self) -> (r: CryptoSubscriptionList)
        ensures
            r@ == self@,
    {
        CryptoSubscriptionList {
            bars: clone_field(&self.bars),
            daily_bars: clone_field(&self.daily_bars),
            updated_bars: clone_field(&self.updated_bars),
            quotes: clone_field(&self.quotes),
            trades: clone_field(&self.trades),
            orderbooks: clone_field(&self.orderbooks),
        }
    }
}

impl CryptoSubscriptionList {
    /// A list on which every channel is absent.
    pub fn new() -> (r: CryptoSubscriptionList)
        ensures
            r@ == CryptoListView::empty(),
    {
        CryptoSubscriptionList {
            bars: None,
            daily_bars: None,
            updated_bars: None,
            quotes: None,
            trades: None,
            orderbooks: None,
        }
    }
}

/// Whether the list has no subscription.
pub fn is_empty(list: &CryptoSubscriptionList) -> (r: bool)
    ensures
        r == list@.is_empty(),
{
    lists_nothing(&list.bars) && lists_nothing(&list.daily_bars) && lists_nothing(
        &list.updated_bars,
    ) && lists_nothing(&list.quotes) && lists_nothing(&list.trades) && lists_nothing(
        &list.orderbooks,
    )
}

/// Add a pair to the list, or remove it.
pub fn apply_pair_to_list(
    list: &mut CryptoSubscriptionList,
    instrument: &Instrument,
    kind: EventKind,
    add: bool,
)
    ensures
        final(list)@ == old(list)@.applied(instrument@.symbol, kind, add),
{
    let symbol = instrument.symbol();
    match kind {
        EventKind::Trade => mutate_field(&mut list.trades, symbol, add),
        EventKind::Quote => mutate_field(&mut list.quotes, symbol, add),
        EventKind::Bar(BarInterval::OneMinute) => mutate_field(&mut list.bars, symbol, add),
        EventKind::Bar(BarInterval::OneDay) => mutate_field(&mut list.daily_bars, symbol, add),
        EventKind::Bar(_) => {},
    }
}

// ---------------------------------------------------------------------------
// The hub
// ---------------------------------------------------------------------------

/// Number of a session's sink at the hub.
#[derive(Clone, Copy, Debug, PartialEq, Eq, Structural)]
pub struct SinkId(pub u64);

/// The pair that a data event is routed by.
pub fn event_route_key(ev: &MarketEvent) -> (r: Option<Pair>)
    ensures
        r is Some <==> pair_of(ev@) is Some,
        r is Some ==> Some(r->0@) == pair_of(ev@),
{
    event_pair(ev)
}

/// The answer to a subscription change: what the caller gets, and what to
/// send to whom.
#[derive(Debug)]
pub struct HubAnswer {
    pub reply: Result<(), Error>,
    pub notify: Option<(SinkId, MarketEvent)>,
}

/// A lost connection: what to broadcast, and how long to wait.
#[derive(Debug)]
pub struct HubLoss {
    pub event: MarketEvent,
    pub delay_ms: u64,
}

/// A new connection: what to broadcast, and what to subscribe on it.
#[derive(Debug)]
pub struct HubConnected {
    pub event: MarketEvent,
    pub resubscribe: Option<CryptoSubscriptionList>,
}

/// State of the hub: the sink of each pair, the subscriptions of the shared
/// connection, and its retry ladder.
pub struct HubTask {
    pub routes: Table<Pair, SinkId>,
    pub subs: CryptoSubscriptionList,
    pub backoff: Backoff,
}

/// The sinks of all routes, in order.
pub open spec fn all_sinks(rows: Seq<(Pair, SinkId)>) -> Seq<SinkId> {
    Seq::new(rows.len(), |i: int| rows[i].1)
}

pub open spec fn disconnected(now: Timestamp, reason: Seq<char>) -> EventView {
    EventView::control(
        now,
        SeqNo(0),
        ControlKindView::ProviderDisconnected {
            provider: PROVIDER_ID@,
            reason,
            cause: DisconnectCause::Error,
        },
    )
}

pub open spec fn subscription_report(now: Timestamp, pair: Pair, active: bool) -> EventView {
    EventView::control(
        now,
        SeqNo(0),
        ControlKindView::SubscriptionChanged {
            provider: PROVIDER_ID@,
            instrument: pair.instrument@,
            kind: pair.kind,
            active,
        },
    )
}

fn subscription_event(now: Timestamp, pair: &Pair, active: bool) -> (r: MarketEvent)
    ensures
        r@ == subscription_report(now, *pair, active),
{
    MarketEvent::control(
        now,
        SeqNo(0),
        ControlKind::SubscriptionChanged {
            provider: PROVIDER_ID.to_owned(),
            instrument: pair.instrument.clone(),
            kind: pair.kind,
            active,
        },
    )
}

impl HubTask {
    pub open spec fn wf(self) -> bool {
        self.routes.wf()
    }

    pub fn new(policy: ReconnectPolicy) -> (r: HubTask)
        ensures
            r.wf(),
            r.routes@ == Map::<(InstrumentView, EventKind), SinkId>::empty(),
            r.subs@ == CryptoListView::empty(),
            r.backoff == (Backoff { current_ms: policy.initial_backoff_ms, policy }),
    {
        HubTask {
            routes: Table::new(),
            subs: CryptoSubscriptionList::new(),
            backoff: Backoff::new(policy),
        }
    }

    /// The sinks of all routes: the audience of connection controls.
    pub fn audience(&self) -> (r: Vec<SinkId>)
        ensures
            r@ == all_sinks(self.routes.rows@),
    {
        let mut out: Vec<SinkId> = Vec::new();
        let mut k: usize = 0;
        while k < self.routes.rows.len()
            invariant
                0 <= k <= self.routes.rows@.len(),
                out@ == all_sinks(self.routes.rows@).take(k as int),
            decreases self.routes.rows@.len() - k,
        {
            out.push(self.routes.rows[k].1);
            proof {
                assert(out@ =~= all_sinks(self.routes.rows@).take(k as int + 1));
            }
            k += 1;
        }
        proof {
            assert(out@ =~= all_sinks(self.routes.rows@));
        }
        out
    }

    /// The sinks that an event goes to: a data event to the sink of its pair,
    /// if it has one, and a control to every sink.
    pub fn dispatch(&self, ev: &MarketEvent) -> (r: Vec<SinkId>)
        requires
            self.wf(),
        ensures
            match pair_of(ev@) {
                Some(key) => r@ == if self.routes@.contains_key(key) {
                    seq![self.routes@[key]]
                } else {
                    seq![]
                },
                None => r@ == all_sinks(self.routes.rows@),
            },
    {
        match event_route_key(ev) {
            Some(pair) => {
                let mut out: Vec<SinkId> = Vec::new();
                if let Some(sink) = self.routes.get(&pair) {
                    out.push(*sink);
                }
                proof {
                    if self.routes@.contains_key(pair@) {
                        assert(out@ =~= seq![self.routes@[pair@]]);
                    } else {
                        assert(out@ =~= seq![]);
                    }
                }
                out
            },
            None => self.audience(),
        }
    }

    /// A connection is up: the ladder starts over, and whatever is subscribed
    /// is applied to it.
    pub fn connected(&mut self, now: Timestamp) -> (r: HubConnected)
        ensures
            final(self).routes == old(self).routes,
            final(self).subs == old(self).subs,
            final(self).backoff == (Backoff {
                current_ms: old(self).backoff.policy.initial_backoff_ms,
                ..old(self).backoff
            }),
            r.event@ == EventView::control(
                now,
                SeqNo(0),
                ControlKindView::ProviderConnected { provider: PROVIDER_ID@ },
            ),
            r.resubscribe is Some <==> !old(self).subs@.is_empty(),
            r.resubscribe is Some ==> r.resubscribe->0@ == old(self).subs@,
    {
        self.backoff.reset();
        let resubscribe = if is_empty(&self.subs) {
            None
        } else {
            Some(self.subs.clone())
        };
        HubConnected {
            event: MarketEvent::control(
                now,
                SeqNo(0),
                ControlKind::ProviderConnected { provider: PROVIDER_ID.to_owned() },
            ),
            resubscribe,
        }
    }

    /// The report that subscriptions could not be applied to a new
    /// connection; `said` is the failure with its causes.
    pub fn resubscribe_failed(said: &str, now: Timestamp) -> (r: MarketEvent)
        ensures
            r@ == EventView::control(
                now,
                SeqNo(0),
                ControlKindView::ProviderError {
                    provider: PROVIDER_ID@,
                    message: "re-subscribe failed: "@ + said@,
                },
            ),
    {
        MarketEvent::control(
            now,
            SeqNo(0),
            ControlKind::ProviderError {
                provider: PROVIDER_ID.to_owned(),
                message: join("re-subscribe failed: ", said),
            },
        )
    }

    fn lost(&mut self, what: &str, said: &str, now: Timestamp) -> (r: HubLoss)
        requires
            old(self).backoff.can_double(),
        ensures
            final(self).routes == old(self).routes,
            final(self).subs == old(self).subs,
            final(self).backoff.policy == old(self).backoff.policy,
            final(self).backoff.current_ms == next_backoff(
                old(self).backoff.current_ms as int,
                old(self).backoff.policy.max_backoff_ms as int,
            ),
            r.delay_ms == old(self).backoff.current_ms,
            r.event@ == disconnected(now, what@ + said@),
    {
        let delay_ms: u64 = self.backoff.fixed_delay();
        HubLoss {
            event: MarketEvent::control(
                now,
                SeqNo(0),
                ControlKind::ProviderDisconnected {
                    provider: PROVIDER_ID.to_owned(),
                    reason: join(what, said),
                    cause: DisconnectCause::Error,
                },
            ),
            delay_ms,
        }
    }

    /// Connecting failed.
    pub fn connect_failed(&mut self, said: &str, now: Timestamp) -> (r: HubLoss)
        requires
            old(self).backoff.can_double(),
        ensures
            final(self).routes == old(self).routes,
            final(self).subs == old(self).subs,
            final(self).backoff.policy == old(self).backoff.policy,
            final(self).backoff.current_ms == next_backoff(
                old(self).backoff.current_ms as int,
                old(self).backoff.policy.max_backoff_ms as int,
            ),
            r.delay_ms == old(self).backoff.current_ms,
            r.event@ == disconnected(now, "connect failed: "@ + said@),
    {
        self.lost("connect failed: ", said, now)
    }

    /// The connection broke.
    pub fn websocket_failed(&mut self, said: &str, now: Timestamp) -> (r: HubLoss)
        requires
            old(self).backoff.can_double(),
        ensures
            final(self).routes == old(self).routes,
            final(self).subs == old(self).subs,
            final(self).backoff.policy == old(self).backoff.policy,
            final(self).backoff.current_ms == next_backoff(
                old(self).backoff.current_ms as int,
                old(self).backoff.policy.max_backoff_ms as int,
            ),
            r.delay_ms == old(self).backoff.current_ms,
            r.event@ == disconnected(now, "websocket: "@ + said@),
    {
        self.lost("websocket: ", said, now)
    }

    /// Route a pair to a sink and ask the server for everything subscribed.
    pub fn subscribe(&mut self, pair: &Pair, sink: SinkId) -> (r: CryptoSubscriptionList)
        requires
            old(self).wf(),
        ensures
            final(self).wf(),
            final(self).backoff == old(self).backoff,
            final(self).routes@ == old(self).routes@.insert(pair@, sink),
            final(self).subs@ == old(self).subs@.applied(
                pair.instrument@.symbol,
                pair.kind,
                true,
            ),
            r@ == final(self).subs@,
    {
        self.routes.insert(pair.clone(), sink);
        apply_pair_to_list(&mut self.subs, &pair.instrument, pair.kind, true);
        self.subs.clone()
    }

    /// The server answered a subscription. A refusal takes the pair back out,
    /// so that a retry can succeed; otherwise the pair's own sink is told.
    pub fn subscribe_answered(&mut self, pair: &Pair, refusal: Option<&str>, now: Timestamp) -> (r:
        HubAnswer)
        requires
            old(self).wf(),
        ensures
            final(self).wf(),
            final(self).backoff == old(self).backoff,
            refusal is None ==> {
                &&& final(self).routes == old(self).routes
                &&& final(self).subs == old(self).subs
                &&& r.reply is Ok
                &&& r.notify is Some <==> old(self).routes@.contains_key(pair@)
                &&& r.notify is Some ==> (r.notify->0).0 == old(self).routes@[pair@] && (
                r.notify->0).1@ == subscription_report(now, *pair, true)
            },
            refusal matches Some(said) ==> {
                &&& final(self).routes@ == old(self).routes@.remove(pair@)
                &&& final(self).subs@ == old(self).subs@.applied(
                    pair.instrument@.symbol,
                    pair.kind,
                    false,
                )
                &&& r.reply is Err
                &&& r.reply->Err_0@ == provider_failure(
                    PROVIDER_ID@,
                    "add_subscriptions"@ + ": "@ + said@,
                )
                &&& r.notify is None
            },
    {
        match refusal {
            None => {
                let notify = match self.routes.get(pair) {
                    Some(sink) => Some((*sink, subscription_event(now, pair, true))),
                    None => None,
                };
                HubAnswer { reply: Ok(()), notify }
            },
            Some(said) => {
                let _ = self.routes.remove(pair);
                apply_pair_to_list(&mut self.subs, &pair.instrument, pair.kind, false);
                HubAnswer {
                    reply: Err(call_failed(PROVIDER_ID, "add_subscriptions", said)),
                    notify: None,
                }
            },
        }
    }

    /// Take a pair out of the subscriptions and ask the server to remove it.
    /// Its route stays until the server has answered, for events that are
    /// still on their way.
    pub fn unsubscribe(&mut self, pair: &Pair) -> (r: CryptoSubscriptionList)
        requires
            old(self).wf(),
        ensures
            final(self).wf(),
            final(self).backoff == old(self).backoff,
            final(self).routes == old(self).routes,
            final(self).subs@ == old(self).subs@.applied(
                pair.instrument@.symbol,
                pair.kind,
                false,
            ),
            r@ == CryptoListView::empty().applied(pair.instrument@.symbol, pair.kind, true),
    {
        apply_pair_to_list(&mut self.subs, &pair.instrument, pair.kind, false);
        let mut removal = CryptoSubscriptionList::new();
        apply_pair_to_list(&mut removal, &pair.instrument, pair.kind, true);
        removal
    }

    /// The server answered a removal. With its consent the route goes, and
    /// its sink is told; otherwise the pair goes back into the subscriptions,
    /// so that a reconnect asks for it.
    pub fn unsubscribe_answered(
        &mut self,
        pair: &Pair,
        refusal: Option<&str>,
        now: Timestamp,
    ) -> (r: HubAnswer)
        requires
            old(self).wf(),
        ensures
            final(self).wf(),
            final(self).backoff == old(self).backoff,
            refusal is None ==> {
                &&& final(self).routes@ == old(self).routes@.remove(pair@)
                &&& final(self).subs == old(self).subs
                &&& r.reply is Ok
                &&& r.notify is Some <==> old(self).routes@.contains_key(pair@)
                &&& r.notify is Some ==> (r.notify->0).0 == old(self).routes@[pair@] && (
                r.notify->0).1@ == subscription_report(now, *pair, false)
            },
            refusal matches Some(said) ==> {
                &&& final(self).routes == old(self).routes
                &&& final(self).subs@ == old(self).subs@.applied(
                    pair.instrument@.symbol,
                    pair.kind,
                    true,
                )
                &&& r.reply is Err
                &&& r.reply->Err_0@ == provider_failure(
                    PROVIDER_ID@,
                    "remove_subscriptions"@ + ": "@ + said@,
                )
                &&& r.notify is None
            },
    {
        match refusal {
            None => {
                let notify = match self.routes.remove(pair) {
                    Some(sink) => Some((sink, subscription_event(now, pair, false))),
                    None => None,
                };
                HubAnswer { reply: Ok(()), notify }
            },
            Some(said) => {
                apply_pair_to_list(&mut self.subs, &pair.instrument, pair.kind, true);
                HubAnswer {
                    reply: Err(call_failed(PROVIDER_ID, "remove_subscriptions", said)),
                    notify: None,
                }
            },
        }
    }
}

/// A session's handle onto the hub, which remembers the pair to give up when
/// it closes.
#[derive(Debug)]
pub struct SharedLiveHandle {
    pub subscribed: Option<Pair>,
}

impl SharedLiveHandle {
    pub fn new() -> (r: SharedLiveHandle)
        ensures
            r.subscribed is None,
    {
        SharedLiveHandle { subscribed: None }
    }

    /// The hub accepted a subscription.
    pub fn on_subscribed(&mut self, pair: Pair)
        ensures
            final(self).subscribed == Some(pair),
    {
        self.subscribed = Some(pair);
    }

    /// The hub accepted a removal.
    pub fn on_unsubscribed(&mut self, pair: &Pair)
        ensures
            final(self).subscribed == match old(self).subscribed {
                Some(p) => if p@ == pair@ {
                    None
                } else {
                    Some(p)
                },
                None => None,
            },
    {
        let same = match &self.subscribed {
            Some(p) => p.kind == pair.kind && p.instrument.same(&pair.instrument),
            None => false,
        };
        if same {
            self.subscribed = None;
        }
    }

    /// The pair that closing has to give up, if any.
    pub fn on_close(&mut self) -> (r: Option<Pair>)
        ensures
            r == old(self).subscribed,
            final(self).subscribed is None,
    {
        self.subscribed.take()
    }
}

/// A streamed trade becomes a trade of its symbol with its own price and size.
pub proof fn law_streamed_trades_keep_their_names(t: CryptoTrade, rx: Timestamp)
    requires
        t.valid(),
    ensures
        CryptoStreamMessage::Trade(t).as_event(rx) matches Some(EventView::Trade(e)) && {
            &&& e.instrument.symbol == t.symbol@
            &&& e.instrument.provider == PROVIDER_ID@
            &&& e.instrument.asset_class is Crypto
            &&& e.price == t.price
            &&& e.size.0 == t.size * 1_000_000_000
            &&& e.source_ts == timestamp_of(t.timestamp)
            &&& e.rx_ts == rx
            &&& e.seq.0 == 0
        },
{
}

/// A streamed quote becomes a quote of its symbol that keeps its bid and its
/// ask apart, with the size of each.
pub proof fn law_streamed_quotes_keep_their_names(q: CryptoQuote, rx: Timestamp)
    requires
        q.valid(),
    ensures
        CryptoStreamMessage::Quote(q).as_event(rx) matches Some(EventView::Quote(e)) && {
            &&& e.instrument.symbol == q.symbol@
            &&& e.instrument.provider == PROVIDER_ID@
            &&& e.instrument.asset_class is Crypto
            &&& e.bid == q.bid_price
            &&& e.bid_size.0 == q.bid_size * 1_000_000_000
            &&& e.ask == q.ask_price
            &&& e.ask_size.0 == q.ask_size * 1_000_000_000
            &&& e.source_ts == timestamp_of(q.timestamp)
            &&& e.rx_ts == rx
            &&& e.seq.0 == 0
        },
{
}

/// Whether a bar is that of a message: of its symbol and time, with each of its
/// prices under its own name and its volume in whole units.
pub open spec fn is_bar_of(e: BarView, b: CryptoBar, rx: Timestamp) -> bool {
    &&& e.instrument.symbol == b.symbol@
    &&& e.instrument.provider == PROVIDER_ID@
    &&& e.instrument.asset_class is Crypto
    &&& e.open == b.open
    &&& e.high == b.high
    &&& e.low == b.low
    &&& e.close == b.close
    &&& e.volume.0 == b.volume * 1_000_000_000
    &&& e.source_ts == timestamp_of(b.timestamp)
    &&& e.rx_ts == rx
    &&& e.seq.0 == 0
}

/// A streamed bar keeps each of its prices under its own name, whichever
/// message brings it: a minute and its correction become minute bars, a day a
/// daily bar. A bar whose prices lie between its low and its high still has
/// them there.
pub proof fn law_streamed_bars_keep_their_names(b: CryptoBar, rx: Timestamp)
    requires
        b.valid(),
    ensures
        CryptoStreamMessage::Bar(b).as_event(rx) matches Some(EventView::Bar(e)) && is_bar_of(e, b, rx)
            && e.interval is OneMinute && e.open == b.open && e.high == b.high && e.low == b.low
            && e.close == b.close,
        CryptoStreamMessage::UpdatedBar(b).as_event(rx) matches Some(EventView::Bar(e)) && is_bar_of(e, b, rx)
            && e.interval is OneMinute && e.open == b.open && e.high == b.high && e.low == b.low
            && e.close == b.close,
        CryptoStreamMessage::DailyBar(b).as_event(rx) matches Some(EventView::Bar(e)) && is_bar_of(e, b, rx)
            && e.interval is OneDay && e.open == b.open && e.high == b.high && e.low == b.low
            && e.close == b.close,
        forall|e: BarView|
            #[trigger] is_bar_of(e, b, rx) && b.low.0 <= b.open.0 <= b.high.0 && b.low.0
                <= b.close.0 <= b.high.0 ==> e.low.0 <= e.open.0 <= e.high.0 && e.low.0
                <= e.close.0 <= e.high.0,
{
}

/// Trades become trades, quotes quotes and bars bars; an error of the server
/// becomes an error control of the provider, and nothing else becomes an event.
pub proof fn law_messages_keep_their_kind(msg: CryptoStreamMessage, rx: Timestamp)
    ensures
        msg is Trade <==> msg.as_event(rx) matches Some(EventView::Trade(_)),
        msg is Quote <==> msg.as_event(rx) matches Some(EventView::Quote(_)),
        msg is Bar || msg is DailyBar || msg is UpdatedBar <==> msg.as_event(rx) matches Some(
            EventView::Bar(_),
        ),
        msg is Other <==> msg.as_event(rx) is None,
        msg matches CryptoStreamMessage::Error(e) ==> {
            &&& msg.as_event(rx) matches Some(EventView::Control(c))
            &&& msg.as_event(rx)->0->Control_0.kind is ProviderError
            &&& msg.as_event(rx)->0->Control_0.kind->ProviderError_provider == PROVIDER_ID@
            &&& msg.as_event(rx)->0->Control_0.kind->message == e.code@ + ": "@ + e.message@
            &&& msg.as_event(rx)->0->Control_0.source_ts == rx
        },
{
}

/// A subscription reaches the channel of its kind and no other: trades the
/// trades, quotes the quotes, minute bars the bars and daily bars the daily
/// bars. The symbol is there behind adding it and gone behind removing it. Bars
/// of other lengths have no channel.
pub proof fn law_subscribing_reaches_the_kinds_channel(
    list: CryptoListView,
    symbol: Seq<char>,
    kind: EventKind,
    add: bool,
)
    ensures
        ({
            let r = list.applied(symbol, kind, add);
            &&& kind is Trade ==> symbols_in(r.trades).contains(symbol) == add
            &&& kind is Quote ==> symbols_in(r.quotes).contains(symbol) == add
            &&& kind == EventKind::Bar(BarInterval::OneMinute) ==> symbols_in(r.bars).contains(
                symbol,
            ) == add
            &&& kind == EventKind::Bar(BarInterval::OneDay) ==> symbols_in(r.daily_bars).contains(
                symbol,
            ) == add
            &&& !(kind is Trade) ==> r.trades == list.trades
            &&& !(kind is Quote) ==> r.quotes == list.quotes
            &&& kind != EventKind::Bar(BarInterval::OneMinute) ==> r.bars == list.bars
            &&& kind != EventKind::Bar(BarInterval::OneDay) ==> r.daily_bars == list.daily_bars
            &&& r.updated_bars == list.updated_bars && r.orderbooks == list.orderbooks
        }),
{
    super::symbols::law_changes_touch_one_symbol(list.trades, symbol, add);
    super::symbols::law_changes_touch_one_symbol(list.quotes, symbol, add);
    super::symbols::law_changes_touch_one_symbol(list.bars, symbol, add);
    super::symbols::law_changes_touch_one_symbol(list.daily_bars, symbol, add);
}

/// The value of a list keeps each channel under its own name.
pub proof fn law_lists_keep_their_channels(list: CryptoSubscriptionList)
    ensures
        list@.trades == channel_of(list.trades),
        list@.quotes == channel_of(list.quotes),
        list@.bars == channel_of(list.bars),
        list@.daily_bars == channel_of(list.daily_bars),
        list@.updated_bars == channel_of(list.updated_bars),
        list@.orderbooks == channel_of(list.orderbooks),
{
}

/// The kinds that the provider supports are exactly those that its stream has
/// a channel for.
pub proof fn law_supported_kinds_have_a_channel(kind: EventKind, symbol: Seq<char>)
    ensures
        coin_supports(kind) <==> {
            let r = CryptoListView::empty().applied(symbol, kind, true);
            ||| symbols_in(r.trades).contains(symbol)
            ||| symbols_in(r.quotes).contains(symbol)
            ||| symbols_in(r.bars).contains(symbol)
            ||| symbols_in(r.daily_bars).contains(symbol)
        },
{
    law_subscribing_reaches_the_kinds_channel(CryptoListView::empty(), symbol, kind, true);
}

/// A symbol of the wire becomes the provider's coin of that symbol, and
/// distinct symbols distinct instruments.
pub proof fn law_symbols_become_coins(a: Seq<char>, b: Seq<char>)
    ensures
        coin(a).symbol == a,
        coin(a).asset_class is Crypto,
        coin(a).provider == PROVIDER_ID@,
        coin(a) == coin(b) <==> a == b,
{
}

/// The reports of the hub name the provider and what happened: a lost
/// connection with its reason, a subscription that changed with its pair and
/// whether it is active.
pub proof fn law_hub_reports_say_what_happened(
    now: Timestamp,
    reason: Seq<char>,
    pair: Pair,
    active: bool,
)
    ensures
        disconnected(now, reason) matches EventView::Control(c) && {
            &&& c.kind is ProviderDisconnected
            &&& c.kind->ProviderDisconnected_provider == PROVIDER_ID@
            &&& c.kind->reason == reason
            &&& c.kind->cause is Error
            &&& c.source_ts == now && c.rx_ts == now
        },
        subscription_report(now, pair, active) matches EventView::Control(c) && {
            &&& c.kind is SubscriptionChanged
            &&& c.kind->SubscriptionChanged_provider == PROVIDER_ID@
            &&& c.kind->SubscriptionChanged_instrument == pair.instrument@
            &&& c.kind->SubscriptionChanged_kind == pair.kind
            &&& c.kind->active == active
            &&& c.source_ts == now && c.rx_ts == now
        },
{
}

} // verus!
