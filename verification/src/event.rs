//! The event model: instruments, timestamps, quantities, data events and
//! control events, each with the mathematical value it stands for.

use vstd::prelude::*;

use crate::num::{cast_signed, signed, TWO_64};

verus! {

/// Nanoseconds since the Unix epoch.
#[derive(Clone, Copy, Debug, PartialEq, Eq, Hash, PartialOrd, Ord, Structural)]
pub struct Timestamp(pub i64);

impl Timestamp {
    /// The later of two optional instants, where an absent one is earlier than
    /// every present one.
    pub open spec fn latest(a: Option<Timestamp>, b: Option<Timestamp>) -> Option<Timestamp> {
        match (a, b) {
            (Some(x), Some(y)) => if y.0 >= x.0 {
                b
            } else {
                a
            },
            (Some(_), None) => a,
            (None, _) => b,
        }
    }

    pub fn max_opt(a: Option<Timestamp>, b: Option<Timestamp>) -> (r: Option<Timestamp>)
        ensures
            r == Timestamp::latest(a, b),
    {
        match (a, b) {
            (Some(x), Some(y)) => if y.0 >= x.0 {
                Some(y)
            } else {
                Some(x)
            },
            (Some(x), None) => Some(x),
            (None, y) => y,
        }
    }

    /// The timestamp of a wall clock that reads `nanos_since_epoch`
    /// nanoseconds, or the epoch itself where the clock stands before it. Of
    /// a reading that does not fit, the low 64 bits are kept.
    pub fn from_wall_clock(nanos_since_epoch: Option<u128>) -> (r: Timestamp)
        ensures
            nanos_since_epoch is None ==> r.0 == 0,
            nanos_since_epoch matches Some(n) ==> r.0 == signed((n % TWO_64) as u64),
            nanos_since_epoch matches Some(n) ==> (n <= i64::MAX ==> r.0 == n),
    {
        match nanos_since_epoch {
            None => Timestamp(0),
            Some(n) => Timestamp(cast_signed((n % TWO_64) as u64)),
        }
    }
}

/// Position of an event in its instrument's substream.
#[derive(Clone, Copy, Debug, PartialEq, Eq, Hash, PartialOrd, Ord, Structural)]
pub struct SeqNo(pub u64);

/// Marks an event that belongs to no substream order.
pub const SYNTHETIC_SEQ: u64 = u64::MAX;

impl SeqNo {
    pub fn synthetic() -> (r: SeqNo)
        ensures
            r.0 == SYNTHETIC_SEQ,
    {
        SeqNo(SYNTHETIC_SEQ)
    }
}

/// A fixed-point price, held as its raw integer.
#[derive(Clone, Copy, Debug, PartialEq, Eq, Hash, PartialOrd, Ord, Structural)]
pub struct Price(pub i64);

impl Price {
    pub fn from_raw(raw: i64) -> (r: Price)
        ensures
            r.0 == raw,
    {
        Price(raw)
    }

    pub fn raw(&self) -> (r: i64)
        ensures
            r == self.0,
    {
        self.0
    }
}

/// Raw quantity units in one whole unit.
pub const QUANTITY_SCALE: u64 = 1_000_000_000;

/// A quantity, held in units of 1e-9 of a base unit.
#[derive(Clone, Copy, Debug, PartialEq, Eq, Hash, PartialOrd, Ord, Structural)]
pub struct Quantity(pub u64);

impl Quantity {
    /// Whether a whole number of units fits the representation.
    pub open spec fn units_fit(units: int) -> bool {
        0 <= units * QUANTITY_SCALE <= u64::MAX
    }

    pub fn from_raw(raw: u64) -> (r: Quantity)
        ensures
            r.0 == raw,
    {
        Quantity(raw)
    }

    pub fn from_units(units: u64) -> (r: Quantity)
        requires
            Quantity::units_fit(units as int),
        ensures
            r.0 == units * QUANTITY_SCALE,
    {
        Quantity(units * QUANTITY_SCALE)
    }

    pub fn raw(&self) -> (r: u64)
        ensures
            r == self.0,
    {
        self.0
    }
}

#[derive(Clone, Copy, Debug, PartialEq, Eq, Hash, PartialOrd, Ord, Structural)]
pub enum AssetClass {
    Equity,
    Etf,
    Crypto,
}

#[derive(Clone, Copy, Debug, PartialEq, Eq, Hash, PartialOrd, Ord, Structural)]
pub enum BarInterval {
    OneSecond,
    OneMinute,
    FiveMinute,
    FifteenMinute,
    OneHour,
    OneDay,
}

#[derive(Clone, Copy, Debug, PartialEq, Eq, Hash, PartialOrd, Ord, Structural)]
pub enum EventKind {
    Trade,
    Quote,
    Bar(BarInterval),
}

/// Corporate-action adjustment mode of historical bars.
#[derive(Clone, Copy, Debug, PartialEq, Eq, Hash, PartialOrd, Ord, Structural)]
pub enum Adjustment {
    Raw,
    Split,
    Dividend,
    SpinOff,
    All,
}

impl Default for Adjustment {
    fn default() -> (r: Adjustment)
        ensures
            r == Adjustment::All,
    {
        Adjustment::All
    }
}

/// Name of a provider. Its value is the text of the name.
#[derive(Debug, PartialEq, Eq, Hash, PartialOrd, Ord)]
pub struct ProviderId {
    pub id: String,
}

impl View for ProviderId {
    type V = Seq<char>;

    open spec fn view(&self) -> Seq<char> {
        self.id@
    }
}

impl Clone for ProviderId {
    fn clone(&self) -> (r: ProviderId)
        ensures
            r == *self,
    {
        ProviderId { id: self.id.clone() }
    }
}

impl ProviderId {
    pub fn new(id: String) -> (r: ProviderId)
        ensures
            r@ == id@,
            r.id == id,
    {
        ProviderId { id }
    }

    pub fn from_static(id: &str) -> (r: ProviderId)
        ensures
            r@ == id@,
    {
        ProviderId { id: id.to_owned() }
    }

    pub fn as_str(&self) -> (r: &str)
        ensures
            r@ == self@,
    {
        self.id.as_str()
    }
}

/// One tradable instrument of one provider.
#[derive(Debug, PartialEq, Eq, Hash, PartialOrd, Ord)]
pub struct Instrument {
    pub provider: ProviderId,
    pub asset_class: AssetClass,
    pub symbol: String,
}

/// The value of an [`Instrument`].
pub struct InstrumentView {
    pub provider: Seq<char>,
    pub asset_class: AssetClass,
    pub symbol: Seq<char>,
}

impl View for Instrument {
    type V = InstrumentView;

    open spec fn view(&self) -> InstrumentView {
        InstrumentView {
            provider: self.provider@,
            asset_class: self.asset_class,
            symbol: self.symbol@,
        }
    }
}

impl Clone for Instrument {
    fn clone(&self) -> (r: Instrument)
        ensures
            r == *self,
    {
        Instrument {
            provider: self.provider.clone(),
            asset_class: self.asset_class,
            symbol: self.symbol.clone(),
        }
    }
}

impl Instrument {
    pub fn new(provider: ProviderId, asset_class: AssetClass, symbol: &str) -> (r: Instrument)
        ensures
            r@ == (InstrumentView { provider: provider@, asset_class, symbol: symbol@ }),
    {
        Instrument { provider, asset_class, symbol: symbol.to_owned() }
    }

    pub fn provider(&self) -> (r: &ProviderId)
        ensures
            *r == self.provider,
    {
        &self.provider
    }

    pub fn asset_class(&self) -> (r: AssetClass)
        ensures
            r == self@.asset_class,
    {
        self.asset_class
    }

    pub fn symbol(&self) -> (r: &str)
        ensures
            r@ == self@.symbol,
    {
        self.symbol.as_str()
    }

    /// Whether two instruments are the same one.
    pub fn same(&self, other: &Instrument) -> (r: bool)
        ensures
            r == (self@ == other@),
    {
        self.asset_class == other.asset_class && self.symbol == other.symbol && self.provider.id
            == other.provider.id
    }
}

/// A half-open range `[from_source_ts, to_source_ts)` of source time.
#[derive(Clone, Copy, Debug, PartialEq, Eq, Hash, Structural)]
pub struct GapSpan {
    pub from_source_ts: Timestamp,
    pub to_source_ts: Timestamp,
}

impl GapSpan {
    /// Whether the instant `t` lies in the span.
    pub open spec fn contains(self, t: int) -> bool {
        self.from_source_ts.0 <= t < self.to_source_ts.0
    }
}

#[derive(Debug, PartialEq, Eq, Hash)]
pub struct Trade {
    pub instrument: Instrument,
    pub source_ts: Timestamp,
    pub rx_ts: Timestamp,
    pub seq: SeqNo,
    pub price: Price,
    pub size: Quantity,
}

/// The value of a [`Trade`].
pub struct TradeView {
    pub instrument: InstrumentView,
    pub source_ts: Timestamp,
    pub rx_ts: Timestamp,
    pub seq: SeqNo,
    pub price: Price,
    pub size: Quantity,
}

impl View for Trade {
    type V = TradeView;

    open spec fn view(&self) -> TradeView {
        TradeView {
            instrument: self.instrument@,
            source_ts: self.source_ts,
            rx_ts: self.rx_ts,
            seq: self.seq,
            price: self.price,
            size: self.size,
        }
    }
}

impl Clone for Trade {
    fn clone(&self) -> (r: Trade)
        ensures
            r == *self,
    {
        Trade {
            instrument: self.instrument.clone(),
            source_ts: self.source_ts,
            rx_ts: self.rx_ts,
            seq: self.seq,
            price: self.price,
            size: self.size,
        }
    }
}

#[derive(Debug, PartialEq, Eq, Hash)]
pub struct Quote {
    pub instrument: Instrument,
    pub source_ts: Timestamp,
    pub rx_ts: Timestamp,
    pub seq: SeqNo,
    pub bid: Price,
    pub bid_size: Quantity,
    pub ask: Price,
    pub ask_size: Quantity,
}

/// The value of a [`Quote`].
pub struct QuoteView {
    pub instrument: InstrumentView,
    pub source_ts: Timestamp,
    pub rx_ts: Timestamp,
    pub seq: SeqNo,
    pub bid: Price,
    pub bid_size: Quantity,
    pub ask: Price,
    pub ask_size: Quantity,
}

impl View for Quote {
    type V = QuoteView;

    open spec fn view(&self) -> QuoteView {
        QuoteView {
            instrument: self.instrument@,
            source_ts: self.source_ts,
            rx_ts: self.rx_ts,
            seq: self.seq,
            bid: self.bid,
            bid_size: self.bid_size,
            ask: self.ask,
            ask_size: self.ask_size,
        }
    }
}

impl Clone for Quote {
    fn clone(&self) -> (r: Quote)
        ensures
            r == *self,
    {
        Quote {
            instrument: self.instrument.clone(),
            source_ts: self.source_ts,
            rx_ts: self.rx_ts,
            seq: self.seq,
            bid: self.bid,
            bid_size: self.bid_size,
            ask: self.ask,
            ask_size: self.ask_size,
        }
    }
}

#[derive(Debug, PartialEq, Eq, Hash)]
pub struct Bar {
    pub instrument: Instrument,
    pub interval: BarInterval,
    pub source_ts: Timestamp,
    pub rx_ts: Timestamp,
    pub seq: SeqNo,
    pub open: Price,
    pub high: Price,
    pub low: Price,
    pub close: Price,
    pub volume: Quantity,
}

/// The value of a [`Bar`].
pub struct BarView {
    pub instrument: InstrumentView,
    pub interval: BarInterval,
    pub source_ts: Timestamp,
    pub rx_ts: Timestamp,
    pub seq: SeqNo,
    pub open: Price,
    pub high: Price,
    pub low: Price,
    pub close: Price,
    pub volume: Quantity,
}

impl View for Bar {
    type V = BarView;

    open spec fn view(&self) -> BarView {
        BarView {
            instrument: self.instrument@,
            interval: self.interval,
            source_ts: self.source_ts,
            rx_ts: self.rx_ts,
            seq: self.seq,
            open: self.open,
            high: self.high,
            low: self.low,
            close: self.close,
            volume: self.volume,
        }
    }
}

impl Clone for Bar {
    fn clone(&self) -> (r: Bar)
        ensures
            r == *self,
    {
        Bar {
            instrument: self.instrument.clone(),
            interval: self.interval,
            source_ts: self.source_ts,
            rx_ts: self.rx_ts,
            seq: self.seq,
            open: self.open,
            high: self.high,
            low: self.low,
            close: self.close,
            volume: self.volume,
        }
    }
}

/// Why a provider connection ended.
#[derive(Clone, Copy, Debug, PartialEq, Eq, Hash, Structural)]
pub enum DisconnectCause {
    Error,
    Unauthenticated,
}

/// What a control event reports.
#[derive(Debug, PartialEq, Eq, Hash)]
pub enum ControlKind {
    ProviderConnected { provider: String },
    ProviderDisconnected { provider: String, reason: String, cause: DisconnectCause },
    ProviderError { provider: String, message: String },
    Gap { provider: String, instrument: Instrument, span: GapSpan },
    SubscriptionChanged {
        provider: String,
        instrument: Instrument,
        kind: EventKind,
        active: bool,
    },
    SessionClosing,
}

/// The value of a [`ControlKind`].
pub enum ControlKindView {
    ProviderConnected { provider: Seq<char> },
    ProviderDisconnected { provider: Seq<char>, reason: Seq<char>, cause: DisconnectCause },
    ProviderError { provider: Seq<char>, message: Seq<char> },
    Gap { provider: Seq<char>, instrument: InstrumentView, span: GapSpan },
    SubscriptionChanged {
        provider: Seq<char>,
        instrument: InstrumentView,
        kind: EventKind,
        active: bool,
    },
    SessionClosing,
}

impl View for ControlKind {
    type V = ControlKindView;

    open spec fn view(&self) -> ControlKindView {
        match *self {
            ControlKind::ProviderConnected { provider } => ControlKindView::ProviderConnected {
                provider: provider@,
            },
            ControlKind::ProviderDisconnected {
                provider,
                reason,
                cause,
            } => ControlKindView::ProviderDisconnected {
                provider: provider@,
                reason: reason@,
                cause,
            },
            ControlKind::ProviderError { provider, message } => ControlKindView::ProviderError {
                provider: provider@,
                message: message@,
            },
            ControlKind::Gap { provider, instrument, span } => ControlKindView::Gap {
                provider: provider@,
                instrument: instrument@,
                span,
            },
            ControlKind::SubscriptionChanged {
                provider,
                instrument,
                kind,
                active,
            } => ControlKindView::SubscriptionChanged {
                provider: provider@,
                instrument: instrument@,
                kind,
                active,
            },
            ControlKind::SessionClosing => ControlKindView::SessionClosing,
        }
    }
}

impl Clone for ControlKind {
    fn clone(&self) -> (r: ControlKind)
        ensures
            r == *self,
    {
        match self {
            ControlKind::ProviderConnected { provider } => ControlKind::ProviderConnected {
                provider: provider.clone(),
            },
            ControlKind::ProviderDisconnected {
                provider,
                reason,
                cause,
            } => ControlKind::ProviderDisconnected {
                provider: provider.clone(),
                reason: reason.clone(),
                cause: *cause,
            },
            ControlKind::ProviderError { provider, message } => ControlKind::ProviderError {
                provider: provider.clone(),
                message: message.clone(),
            },
            ControlKind::Gap { provider, instrument, span } => ControlKind::Gap {
                provider: provider.clone(),
                instrument: instrument.clone(),
                span: *span,
            },
            ControlKind::SubscriptionChanged {
                provider,
                instrument,
                kind,
                active,
            } => ControlKind::SubscriptionChanged {
                provider: provider.clone(),
                instrument: instrument.clone(),
                kind: *kind,
                active: *active,
            },
            ControlKind::SessionClosing => ControlKind::SessionClosing,
        }
    }
}

#[derive(Debug, PartialEq, Eq, Hash)]
pub struct Control {
    pub source_ts: Timestamp,
    pub rx_ts: Timestamp,
    pub seq: SeqNo,
    pub kind: ControlKind,
}

/// The value of a [`Control`].
pub struct ControlView {
    pub source_ts: Timestamp,
    pub rx_ts: Timestamp,
    pub seq: SeqNo,
    pub kind: ControlKindView,
}

impl View for Control {
    type V = ControlView;

    open spec fn view(&self) -> ControlView {
        ControlView {
            source_ts: self.source_ts,
            rx_ts: self.rx_ts,
            seq: self.seq,
            kind: self.kind@,
        }
    }
}

impl Clone for Control {
    fn clone(&self) -> (r: Control)
        ensures
            r == *self,
    {
        Control {
            source_ts: self.source_ts,
            rx_ts: self.rx_ts,
            seq: self.seq,
            kind: self.kind.clone(),
        }
    }
}

/// One element of an event stream: data or an in-band control.
#[derive(Debug, PartialEq, Eq, Hash)]
pub enum MarketEvent {
    Trade(Trade),
    Quote(Quote),
    Bar(Bar),
    Control(Control),
}

/// The value of a [`MarketEvent`].
pub enum EventView {
    Trade(TradeView),
    Quote(QuoteView),
    Bar(BarView),
    Control(ControlView),
}

impl View for MarketEvent {
    type V = EventView;

    open spec fn view(&self) -> EventView {
        match *self {
            MarketEvent::Trade(t) => EventView::Trade(t@),
            MarketEvent::Quote(q) => EventView::Quote(q@),
            MarketEvent::Bar(b) => EventView::Bar(b@),
            MarketEvent::Control(c) => EventView::Control(c@),
        }
    }
}

impl Clone for MarketEvent {
    fn clone(&self) -> (r: MarketEvent)
        ensures
            r == *self,
    {
        match self {
            MarketEvent::Trade(t) => MarketEvent::Trade(t.clone()),
            MarketEvent::Quote(q) => MarketEvent::Quote(q.clone()),
            MarketEvent::Bar(b) => MarketEvent::Bar(b.clone()),
            MarketEvent::Control(c) => MarketEvent::Control(c.clone()),
        }
    }
}

impl EventView {
    pub open spec fn is_data(self) -> bool {
        !(self is Control)
    }

    pub open spec fn seq(self) -> SeqNo {
        match self {
            EventView::Trade(t) => t.seq,
            EventView::Quote(q) => q.seq,
            EventView::Bar(b) => b.seq,
            EventView::Control(c) => c.seq,
        }
    }

    pub open spec fn source_ts(self) -> Timestamp {
        match self {
            EventView::Trade(t) => t.source_ts,
            EventView::Quote(q) => q.source_ts,
            EventView::Bar(b) => b.source_ts,
            EventView::Control(c) => c.source_ts,
        }
    }

    /// Source time of a data event; controls have none.
    pub open spec fn data_source_ts(self) -> Option<Timestamp> {
        if self.is_data() {
            Some(self.source_ts())
        } else {
            None
        }
    }

    /// The same event at another place of its substream.
    pub open spec fn with_seq(self, seq: SeqNo) -> EventView {
        match self {
            EventView::Trade(t) => EventView::Trade(TradeView { seq, ..t }),
            EventView::Quote(q) => EventView::Quote(QuoteView { seq, ..q }),
            EventView::Bar(b) => EventView::Bar(BarView { seq, ..b }),
            EventView::Control(c) => EventView::Control(ControlView { seq, ..c }),
        }
    }

    /// An unstamped control whose two clocks read `at`.
    pub open spec fn control(at: Timestamp, seq: SeqNo, kind: ControlKindView) -> EventView {
        EventView::Control(ControlView { source_ts: at, rx_ts: at, seq, kind })
    }
}

impl MarketEvent {
    pub fn is_data(&self) -> (r: bool)
        ensures
            r == self@.is_data(),
    {
        match self {
            MarketEvent::Control(_) => false,
            _ => true,
        }
    }

    /// Place in the substream; every variant has one.
    pub fn seq(&self) -> (r: Option<SeqNo>)
        ensures
            r == Some(self@.seq()),
    {
        Some(self.place())
    }

    pub fn place(&self) -> (r: SeqNo)
        ensures
            r == self@.seq(),
    {
        match self {
            MarketEvent::Trade(t) => t.seq,
            MarketEvent::Quote(q) => q.seq,
            MarketEvent::Bar(b) => b.seq,
            MarketEvent::Control(c) => c.seq,
        }
    }

    /// An unstamped control whose two clocks read `at`.
    pub fn control(at: Timestamp, seq: SeqNo, kind: ControlKind) -> (r: MarketEvent)
        ensures
            r@ == EventView::control(at, seq, kind@),
            r is Control,
            r->Control_0.kind == kind,
    {
        MarketEvent::Control(Control { source_ts: at, rx_ts: at, seq, kind })
    }
}

/// Source time of any event.
pub fn source_ts(ev: &MarketEvent) -> (r: Timestamp)
    ensures
        r == ev@.source_ts(),
{
    match ev {
        MarketEvent::Trade(t) => t.source_ts,
        MarketEvent::Quote(q) => q.source_ts,
        MarketEvent::Bar(b) => b.source_ts,
        MarketEvent::Control(c) => c.source_ts,
    }
}

/// Source time of data events only; `None` for controls.
pub fn data_source_ts(ev: &MarketEvent) -> (r: Option<Timestamp>)
    ensures
        r == ev@.data_source_ts(),
{
    if ev.is_data() {
        Some(source_ts(ev))
    } else {
        None
    }
}

/// Overwrite an event's place in its substream and nothing else.
pub fn stamp_seq(ev: MarketEvent, seq: SeqNo) -> (r: MarketEvent)
    ensures
        r@ == ev@.with_seq(seq),
{
    match ev {
        MarketEvent::Trade(t) => MarketEvent::Trade(Trade { seq, ..t }),
        MarketEvent::Quote(q) => MarketEvent::Quote(Quote { seq, ..q }),
        MarketEvent::Bar(b) => MarketEvent::Bar(Bar { seq, ..b }),
        MarketEvent::Control(c) => MarketEvent::Control(Control { seq, ..c }),
    }
}

/// The values of a sequence of events.
pub open spec fn event_views(evs: Seq<MarketEvent>) -> Seq<EventView> {
    Seq::new(evs.len(), |i: int| evs[i]@)
}

/// Trades, quotes and bars are data, each with the source time that it
/// carries; controls are not.
pub proof fn law_trades_quotes_and_bars_are_data(
    t: TradeView,
    q: QuoteView,
    b: BarView,
    c: ControlView,
)
    ensures
        EventView::Trade(t).data_source_ts() == Some(t.source_ts),
        EventView::Quote(q).data_source_ts() == Some(q.source_ts),
        EventView::Bar(b).data_source_ts() == Some(b.source_ts),
        EventView::Control(c).data_source_ts() is None,
        EventView::Trade(t).is_data() && EventView::Quote(q).is_data() && EventView::Bar(b).is_data(),
        !EventView::Control(c).is_data(),
        EventView::Control(c).source_ts() == c.source_ts,
        EventView::Trade(t).source_ts() == t.source_ts,
        EventView::Quote(q).source_ts() == q.source_ts,
        EventView::Bar(b).source_ts() == b.source_ts,
{
}

/// Stamping gives an event its place and changes nothing else: the place
/// asked for is the one that it then has, stamping an event with its own place
/// leaves it as it is, and the last stamp counts.
pub proof fn law_stamping_changes_the_place_only(ev: EventView, first: SeqNo, last: SeqNo)
    ensures
        ev.with_seq(first).seq() == first,
        ev.with_seq(ev.seq()) == ev,
        ev.with_seq(first).with_seq(last) == ev.with_seq(last),
        ev.with_seq(first).source_ts() == ev.source_ts(),
        ev.with_seq(first).is_data() == ev.is_data(),
{
}

/// Each event shows its place under its own name, whatever it is.
pub proof fn law_places_are_shown(t: TradeView, q: QuoteView, b: BarView, c: ControlView)
    ensures
        EventView::Trade(t).seq() == t.seq,
        EventView::Quote(q).seq() == q.seq,
        EventView::Bar(b).seq() == b.seq,
        EventView::Control(c).seq() == c.seq,
{
}

/// The value of an event keeps each of its parts under its own name.
pub proof fn law_values_keep_their_names(t: Trade, q: Quote, b: Bar, c: Control)
    ensures
        t@.price == t.price && t@.size == t.size,
        t@.source_ts == t.source_ts && t@.rx_ts == t.rx_ts && t@.seq == t.seq,
        q@.bid == q.bid && q@.bid_size == q.bid_size,
        q@.ask == q.ask && q@.ask_size == q.ask_size,
        q@.source_ts == q.source_ts && q@.rx_ts == q.rx_ts && q@.seq == q.seq,
        b@.open == b.open && b@.high == b.high && b@.low == b.low && b@.close == b.close,
        b@.volume == b.volume && b@.interval == b.interval,
        b@.source_ts == b.source_ts && b@.rx_ts == b.rx_ts && b@.seq == b.seq,
        c@.source_ts == c.source_ts && c@.rx_ts == c.rx_ts && c@.seq == c.seq,
        MarketEvent::Trade(t)@ == EventView::Trade(t@),
        MarketEvent::Quote(q)@ == EventView::Quote(q@),
        MarketEvent::Bar(b)@ == EventView::Bar(b@),
        MarketEvent::Control(c)@ == EventView::Control(c@),
        t@.instrument.symbol == t.instrument.symbol@,
        t@.instrument.provider == t.instrument.provider.id@,
        t@.instrument.asset_class == t.instrument.asset_class,
{
}

/// The later of two times is one of them, and none is later.
pub proof fn law_latest_is_the_larger(a: Timestamp, b: Timestamp)
    ensures
        ({
            let r = Timestamp::latest(Some(a), Some(b));
            &&& r is Some
            &&& (r->0).0 >= a.0 && (r->0).0 >= b.0
            &&& (r->0).0 == a.0 || (r->0).0 == b.0
        }),
        Timestamp::latest(Some(a), None) == Some(a),
        Timestamp::latest(None, Some(b)) == Some(b),
        Timestamp::latest(None, None) is None,
{
}

/// A whole unit is a billion of the units that quantities are counted in.
pub proof fn law_units_are_billions(n: int)
    ensures
        Quantity::units_fit(n) <==> 0 <= n && n * 1_000_000_000 <= u64::MAX,
        QUANTITY_SCALE == 1_000_000_000,
{
}

} // verus!
