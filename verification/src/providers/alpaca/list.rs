//! The subscription list of the stock stream.

use vstd::prelude::*;

use crate::event::{BarInterval, EventKind, Instrument};
use crate::providers::symbols::{
    changed, channel_of, clone_field, is_tidy, lists_nothing, mutate_field, symbols_in,
};

verus! {

/// Symbols subscribed per channel; an absent channel has none.
#[derive(Debug, PartialEq, Eq)]
pub struct StockSubscriptionList {
    pub bars: Option<Vec<String>>,
    pub daily_bars: Option<Vec<String>>,
    pub quotes: Option<Vec<String>>,
    pub trades: Option<Vec<String>>,
}

/// The value of a [`StockSubscriptionList`].
pub struct ListView {
    pub bars: Option<Seq<Seq<char>>>,
    pub daily_bars: Option<Seq<Seq<char>>>,
    pub quotes: Option<Seq<Seq<char>>>,
    pub trades: Option<Seq<Seq<char>>>,
}

impl ListView {
    pub open spec fn empty() -> ListView {
        ListView { bars: None, daily_bars: None, quotes: None, trades: None }
    }

    pub open spec fn is_empty(self) -> bool {
        symbols_in(self.bars).len() == 0 && symbols_in(self.daily_bars).len() == 0 && symbols_in(
            self.quotes,
        ).len() == 0 && symbols_in(self.trades).len() == 0
    }

    /// No channel is there that lists nothing.
    pub open spec fn tidy(self) -> bool {
        is_tidy(self.bars) && is_tidy(self.daily_bars) && is_tidy(self.quotes) && is_tidy(
            self.trades,
        )
    }

    /// Whether some channel has the symbol.
    pub open spec fn mentions(self, symbol: Seq<char>) -> bool {
        symbols_in(self.bars).contains(symbol) || symbols_in(self.daily_bars).contains(symbol)
            || symbols_in(self.quotes).contains(symbol) || symbols_in(self.trades).contains(symbol)
    }

    /// The list with a symbol added to the channel of the kind, or removed
    /// from it. Bars of other lengths have no channel.
    pub open spec fn applied(self, symbol: Seq<char>, kind: EventKind, add: bool) -> ListView {
        match kind {
            EventKind::Trade => ListView { trades: changed(self.trades, symbol, add), ..self },
            EventKind::Quote => ListView { quotes: changed(self.quotes, symbol, add), ..self },
            EventKind::Bar(BarInterval::OneMinute) => ListView {
                bars: changed(self.bars, symbol, add),
                ..self
            },
            EventKind::Bar(BarInterval::OneDay) => ListView {
                daily_bars: changed(self.daily_bars, symbol, add),
                ..self
            },
            EventKind::Bar(_) => self,
        }
    }
}

impl View for StockSubscriptionList {
    type V = ListView;

    open spec fn view(&self) -> ListView {
        ListView {
            bars: channel_of(self.bars),
            daily_bars: channel_of(self.daily_bars),
            quotes: channel_of(self.quotes),
            trades: channel_of(self.trades),
        }
    }
}

impl Clone for StockSubscriptionList {
    fn clone(&self) -> (r: StockSubscriptionList)
        ensures
            r@ == self@,
    {
        StockSubscriptionList {
            bars: clone_field(&self.bars),
            daily_bars: clone_field(&self.daily_bars),
            quotes: clone_field(&self.quotes),
            trades: clone_field(&self.trades),
        }
    }
}

impl StockSubscriptionList {
    /// A list without any subscription.
    pub fn new() -> (r: StockSubscriptionList)
        ensures
            r@ == ListView::empty(),
    {
        StockSubscriptionList { bars: None, daily_bars: None, quotes: None, trades: None }
    }
}

/// Whether the list has no subscription.
pub fn is_empty(list: &StockSubscriptionList) -> (r: bool)
    ensures
        r == list@.is_empty(),
{
    lists_nothing(&list.bars) && lists_nothing(&list.daily_bars) && lists_nothing(&list.quotes)
        && lists_nothing(&list.trades)
}

/// Add a pair to the list, or remove it. A channel left without symbols is
/// absent.
pub fn apply_pair_to_list(
    list: &mut StockSubscriptionList,
    instrument: &Instrument,
    kind: EventKind,
    add: bool,
)
    ensures
        final(list)@ == old(list)@.applied(instrument@.symbol, kind, add),
{
    let symbol = instrument.symbol();
    match kind {
        EventKind::Trade => mutate_field(&mut list.trades, symbol, add),
        EventKind::Quote => mutate_field(&mut list.quotes, symbol, add),
        EventKind::Bar(BarInterval::OneMinute) => mutate_field(&mut list.bars, symbol, add),
        EventKind::Bar(BarInterval::OneDay) => mutate_field(&mut list.daily_bars, symbol, add),
        EventKind::Bar(_) => {},
    }
}

/// Lists that are built from nothing never hold a channel that lists nothing.
pub proof fn law_lists_stay_tidy(list: ListView, symbol: Seq<char>, kind: EventKind, add: bool)
    requires
        list.tidy(),
    ensures
        ListView::empty().tidy(),
        list.applied(symbol, kind, add).tidy(),
{
}

/// Rolling back a refused subscription of a new symbol restores the list.
pub proof fn law_rollback_restores_the_list(list: ListView, symbol: Seq<char>, kind: EventKind)
    requires
        list.tidy(),
        !list.mentions(symbol),
    ensures
        list.applied(symbol, kind, true).applied(symbol, kind, false) == list,
{
    crate::providers::symbols::law_channels_are_restored(list.trades, symbol);
    crate::providers::symbols::law_channels_are_restored(list.quotes, symbol);
    crate::providers::symbols::law_channels_are_restored(list.bars, symbol);
    crate::providers::symbols::law_channels_are_restored(list.daily_bars, symbol);
}

/// A subscription reaches the channel of its kind and no other: trades the
/// trades, quotes the quotes, minute bars the bars and daily bars the daily
/// bars. The symbol is there behind adding it and gone behind removing it, and
/// other symbols stay. Bars of other lengths have no channel.
pub proof fn law_subscribing_reaches_the_kinds_channel(
    list: ListView,
    symbol: Seq<char>,
    kind: EventKind,
    add: bool,
)
    ensures
        ({
            let r = list.applied(symbol, kind, add);
            &&& kind is Trade ==> symbols_in(r.trades).contains(symbol) == add
            &&& kind is Quote ==> symbols_in(r.quotes).contains(symbol) == add
            &&& kind == EventKind::Bar(BarInterval::OneMinute) ==> symbols_in(r.bars).contains(
                symbol,
            ) == add
            &&& kind == EventKind::Bar(BarInterval::OneDay) ==> symbols_in(r.daily_bars).contains(
                symbol,
            ) == add
            &&& !(kind is Trade) ==> r.trades == list.trades
            &&& !(kind is Quote) ==> r.quotes == list.quotes
            &&& kind != EventKind::Bar(BarInterval::OneMinute) ==> r.bars == list.bars
            &&& kind != EventKind::Bar(BarInterval::OneDay) ==> r.daily_bars == list.daily_bars
        }),
{
    crate::providers::symbols::law_changes_touch_one_symbol(list.trades, symbol, add);
    crate::providers::symbols::law_changes_touch_one_symbol(list.quotes, symbol, add);
    crate::providers::symbols::law_changes_touch_one_symbol(list.bars, symbol, add);
    crate::providers::symbols::law_changes_touch_one_symbol(list.daily_bars, symbol, add);
}

/// The value of a list keeps each channel under its own name.
pub proof fn law_lists_keep_their_channels(list: StockSubscriptionList)
    ensures
        list@.trades == channel_of(list.trades),
        list@.quotes == channel_of(list.quotes),
        list@.bars == channel_of(list.bars),
        list@.daily_bars == channel_of(list.daily_bars),
{
}

} // verus!
