//! Conversion between per-channel symbol lists and per-instrument
//! subscriptions, and the client that applies them.

use vstd::prelude::*;

use crate::providers::symbols::{channel_of, mutate_field, symbols_in, texts_of};

verus! {

/// What is subscribed of one instrument.
#[derive(Debug, PartialEq, Eq)]
pub struct Subscription {
    pub instrument: String,
    pub bars: bool,
    pub daily_bars: bool,
    pub updated_bars: bool,
    pub quotes: bool,
    pub trades: bool,
    pub news: bool,
}

/// The channels of the stream.
#[derive(Clone, Copy, Debug, PartialEq, Eq, Structural)]
pub enum Channel {
    Bars,
    DailyBars,
    UpdatedBars,
    Quotes,
    Trades,
    News,
}

impl Subscription {
    pub open spec fn has(self, c: Channel) -> bool {
        match c {
            Channel::Bars => self.bars,
            Channel::DailyBars => self.daily_bars,
            Channel::UpdatedBars => self.updated_bars,
            Channel::Quotes => self.quotes,
            Channel::Trades => self.trades,
            Channel::News => self.news,
        }
    }

    /// An instrument of which nothing is subscribed.
    pub fn new(instrument: String) -> (r: Subscription)
        ensures
            r.instrument == instrument,
            forall|c: Channel| !#[trigger] r.has(c),
    {
        Subscription {
            instrument,
            bars: false,
            daily_bars: false,
            updated_bars: false,
            quotes: false,
            trades: false,
            news: false,
        }
    }

    /// Add one channel.
    pub fn add(&mut self, c: Channel)
        ensures
            final(self).instrument == old(self).instrument,
            forall|d: Channel| #[trigger] final(self).has(d) == (old(self).has(d) || d == c),
    {
        match c {
            Channel::Bars => {
                self.bars = true;
            },
            Channel::DailyBars => {
                self.daily_bars = true;
            },
            Channel::UpdatedBars => {
                self.updated_bars = true;
            },
            Channel::Quotes => {
                self.quotes = true;
            },
            Channel::Trades => {
                self.trades = true;
            },
            Channel::News => {
                self.news = true;
            },
        }
    }
}

impl Clone for Subscription {
    fn clone(&self) -> (r: Subscription)
        ensures
            r == *self,
    {
        Subscription {
            instrument: self.instrument.clone(),
            bars: self.bars,
            daily_bars: self.daily_bars,
            updated_bars: self.updated_bars,
            quotes: self.quotes,
            trades: self.trades,
            news: self.news,
        }
    }
}

/// Symbols subscribed per channel; an absent channel has none.
#[derive(Debug, PartialEq, Eq)]
pub struct SubscriptionList {
    pub bars: Option<Vec<String>>,
    pub daily_bars: Option<Vec<String>>,
    pub updated_bars: Option<Vec<String>>,
    pub quotes: Option<Vec<String>>,
    pub trades: Option<Vec<String>>,
    pub news: Option<Vec<String>>,
}

impl SubscriptionList {
    /// The symbols of a channel.
    pub open spec fn symbols(self, c: Channel) -> Seq<Seq<char>> {
        symbols_in(self.channel(c))
    }

    /// The value of a channel, which may be absent.
    pub open spec fn channel(self, c: Channel) -> Option<Seq<Seq<char>>> {
        match c {
            Channel::Bars => channel_of(self.bars),
            Channel::DailyBars => channel_of(self.daily_bars),
            Channel::UpdatedBars => channel_of(self.updated_bars),
            Channel::Quotes => channel_of(self.quotes),
            Channel::Trades => channel_of(self.trades),
            Channel::News => channel_of(self.news),
        }
    }

    pub fn new() -> (r: SubscriptionList)
        ensures
            forall|c: Channel| #[trigger] r.channel(c) is None,
    {
        SubscriptionList {
            bars: None,
            daily_bars: None,
            updated_bars: None,
            quotes: None,
            trades: None,
            news: None,
        }
    }

    /// The list of one subscription: its instrument, in each of its channels.
    pub fn of_subscription(subscription: &Subscription) -> (r: SubscriptionList)
        ensures
            forall|c: Channel| #[trigger]
                r.channel(c) == if subscription.has(c) {
                    Some(seq![subscription.instrument@])
                } else {
                    None
                },
    {
        let symbol = subscription.instrument.as_str();
        SubscriptionList {
            bars: only(subscription.bars, symbol),
            daily_bars: only(subscription.daily_bars, symbol),
            updated_bars: only(subscription.updated_bars, symbol),
            quotes: only(subscription.quotes, symbol),
            trades: only(subscription.trades, symbol),
            news: only(subscription.news, symbol),
        }
    }
}

/// A channel with the one symbol, or none.
fn only(on: bool, symbol: &str) -> (r: Option<Vec<String>>)
    ensures
        channel_of(r) == if on {
            Some(seq![symbol@])
        } else {
            None
        },
{
    let mut field: Option<Vec<String>> = None;
    if on {
        mutate_field(&mut field, symbol, true);
        proof {
            assert(channel_of(field)->0 =~= seq![symbol@]);
        }
    }
    field
}

/// Whether some subscription is for the instrument.
pub open spec fn has_instrument(subs: Seq<Subscription>, symbol: Seq<char>) -> bool {
    exists|i: int| 0 <= i < subs.len() && (#[trigger] subs[i]).instrument@ == symbol
}

/// One subscription per instrument.
pub open spec fn one_each(subs: Seq<Subscription>) -> bool {
    forall|i: int, j: int|
        0 <= i < j < subs.len() ==> (#[trigger] subs[i]).instrument@ != (
        #[trigger] subs[j]).instrument@
}

/// A symbol is subscribed on a channel.
pub open spec fn subscribes(subs: Seq<Subscription>, symbol: Seq<char>, c: Channel) -> bool {
    exists|i: int|
        0 <= i < subs.len() && (#[trigger] subs[i]).instrument@ == symbol && subs[i].has(c)
}

/// Note that the symbol is subscribed on the channel.
fn note(subs: &mut Vec<Subscription>, symbol: &String, c: Channel)
    requires
        one_each(old(subs)@),
    ensures
        one_each(final(subs)@),
        forall|s: Seq<char>, d: Channel| #[trigger]
            subscribes(final(subs)@, s, d) <==> (subscribes(old(subs)@, s, d) || (s == symbol@ && d
                == c)),
        forall|s: Seq<char>| #[trigger]
            has_instrument(final(subs)@, s) <==> (has_instrument(old(subs)@, s) || s == symbol@),
{
    let ghost pre = subs@;
    let mut k: usize = 0;
    while k < subs.len() && subs[k].instrument != *symbol
        invariant
            0 <= k <= subs@.len(),
            subs@ == pre,
            forall|i: int| 0 <= i < k ==> (#[trigger] subs@[i]).instrument@ != symbol@,
        decreases subs@.len() - k,
    {
        k += 1;
    }
    if k == subs.len() {
        subs.push(Subscription::new(symbol.clone()));
    }
    let ghost mid = subs@;
    proof {
        assert(mid[k as int].instrument@ == symbol@);
        assert forall|s: Seq<char>, d: Channel| #[trigger]
            subscribes(mid, s, d) <==> subscribes(pre, s, d) by {
            if subscribes(pre, s, d) {
                let i = choose|i: int|
                    0 <= i < pre.len() && (#[trigger] pre[i]).instrument@ == s && pre[i].has(d);
                assert(mid[i] == pre[i]);
            }
            if subscribes(mid, s, d) {
                let i = choose|i: int|
                    0 <= i < mid.len() && (#[trigger] mid[i]).instrument@ == s && mid[i].has(d);
                assert(i < pre.len());
                assert(pre[i] == mid[i]);
            }
        }
        assert(one_each(mid)) by {
            assert forall|i: int, j: int| 0 <= i < j < mid.len() implies (
            #[trigger] mid[i]).instrument@ != (#[trigger] mid[j]).instrument@ by {
                assert(mid[i] == pre[i]);
                if j < pre.len() {
                    assert(mid[j] == pre[j]);
                }
            }
        }
    }
    subs[k].add(c);
    proof {
        let post = subs@;
        let upd = post[k as int];
        assert(post =~= mid.update(k as int, upd));
        assert(upd.instrument == mid[k as int].instrument);
        assert forall|i: int, j: int| 0 <= i < j < post.len() implies (
        #[trigger] post[i]).instrument@ != (#[trigger] post[j]).instrument@ by {
            assert(mid[i].instrument@ != mid[j].instrument@);
        }
        assert forall|s: Seq<char>, d: Channel| #[trigger]
            subscribes(post, s, d) <==> (subscribes(pre, s, d) || (s == symbol@ && d == c)) by {
            assert(subscribes(mid, s, d) <==> subscribes(pre, s, d));
            if subscribes(mid, s, d) {
                let i = choose|i: int|
                    0 <= i < mid.len() && (#[trigger] mid[i]).instrument@ == s && mid[i].has(d);
                assert(post[i].instrument@ == s && post[i].has(d));
            }
            if s == symbol@ && d == c {
                assert(post[k as int].has(d));
            }
            if subscribes(post, s, d) {
                let i = choose|i: int|
                    0 <= i < post.len() && (#[trigger] post[i]).instrument@ == s && post[i].has(d);
                if i == k {
                    assert(mid[k as int].instrument@ == s);
                } else {
                    assert(mid[i] == post[i]);
                }
            }
        }
        assert forall|s: Seq<char>| #[trigger]
            has_instrument(post, s) <==> (has_instrument(pre, s) || s == symbol@) by {
            if has_instrument(pre, s) {
                let i = choose|i: int| 0 <= i < pre.len() && (#[trigger] pre[i]).instrument@ == s;
                assert(post[i].instrument@ == s);
            }
            if s == symbol@ {
                assert(post[k as int].instrument@ == s);
            }
            if has_instrument(post, s) {
                let i = choose|i: int| 0 <= i < post.len() && (#[trigger] post[i]).instrument@ == s;
                if i < pre.len() {
                    assert(pre[i].instrument@ == s);
                }
            }
        }
    }
}

/// Note all symbols of one channel.
fn note_all(subs: &mut Vec<Subscription>, field: &Option<Vec<String>>, c: Channel)
    requires
        one_each(old(subs)@),
    ensures
        one_each(final(subs)@),
        forall|s: Seq<char>, d: Channel| #[trigger]
            subscribes(final(subs)@, s, d) <==> (subscribes(old(subs)@, s, d) || (d == c
                && symbols_in(
                channel_of(*field),
            ).contains(s))),
        forall|s: Seq<char>| #[trigger]
            has_instrument(final(subs)@, s) <==> (has_instrument(old(subs)@, s) || symbols_in(
                channel_of(*field),
            ).contains(s)),
{
    let ghost pre = subs@;
    if let Some(v) = field {
        let ghost all = texts_of(v@);
        let mut k: usize = 0;
        proof {
            assert(all.take(0) =~= seq![]);
        }
        while k < v.len()
            invariant
                0 <= k <= v@.len(),
                all == texts_of(v@),
                one_each(subs@),
                forall|s: Seq<char>, d: Channel| #[trigger]
                    subscribes(subs@, s, d) <==> (subscribes(pre, s, d) || (d == c && all.take(
                        k as int,
                    ).contains(s))),
                forall|s: Seq<char>| #[trigger]
                    has_instrument(subs@, s) <==> (has_instrument(pre, s) || all.take(
                        k as int,
                    ).contains(s)),
            decreases v@.len() - k,
        {
            note(subs, &v[k], c);
            proof {
                assert forall|s: Seq<char>| #[trigger] all.take(k as int + 1).contains(s) <==> (
                all.take(k as int).contains(s) || s == all[k as int]) by {
                    let longer = all.take(k as int + 1);
                    let shorter = all.take(k as int);
                    if shorter.contains(s) {
                        let i = choose|i: int| 0 <= i < shorter.len() && shorter[i] == s;
                        assert(longer[i] == s);
                    }
                    if s == all[k as int] {
                        assert(longer[k as int] == s);
                    }
                    if longer.contains(s) {
                        let i = choose|i: int| 0 <= i < longer.len() && longer[i] == s;
                        if i < k {
                            assert(shorter[i] == s);
                        }
                    }
                }
            }
            k += 1;
        }
        proof {
            assert(all.take(k as int) =~= all);
        }
    }
}

/// The subscriptions of a list: one per instrument that some channel names,
/// with exactly the channels that name it.
pub fn subscription_list_to_subscriptions(subscription_list: &SubscriptionList) -> (r: Vec<
    Subscription,
>)
    ensures
        one_each(r@),
        forall|s: Seq<char>, c: Channel| #[trigger]
            subscribes(r@, s, c) <==> subscription_list.symbols(c).contains(s),
        forall|s: Seq<char>| #[trigger]
            has_instrument(r@, s) <==> exists|c: Channel| #[trigger]
                subscription_list.symbols(c).contains(s),
{
    let mut subs: Vec<Subscription> = Vec::new();
    note_all(&mut subs, &subscription_list.bars, Channel::Bars);
    note_all(&mut subs, &subscription_list.daily_bars, Channel::DailyBars);
    note_all(&mut subs, &subscription_list.updated_bars, Channel::UpdatedBars);
    note_all(&mut subs, &subscription_list.quotes, Channel::Quotes);
    note_all(&mut subs, &subscription_list.trades, Channel::Trades);
    note_all(&mut subs, &subscription_list.news, Channel::News);
    proof {
        assert forall|s: Seq<char>| #[trigger]
            has_instrument(subs@, s) <==> exists|c: Channel| #[trigger]
                subscription_list.symbols(c).contains(s) by {
            assert(symbols_in(channel_of(subscription_list.bars)) == subscription_list.symbols(Channel::Bars));
            assert(symbols_in(channel_of(subscription_list.daily_bars)) == subscription_list.symbols(
                Channel::DailyBars,
            ));
            assert(symbols_in(channel_of(subscription_list.updated_bars)) == subscription_list.symbols(
                Channel::UpdatedBars,
            ));
            assert(symbols_in(channel_of(subscription_list.quotes)) == subscription_list.symbols(Channel::Quotes));
            assert(symbols_in(channel_of(subscription_list.trades)) == subscription_list.symbols(Channel::Trades));
            assert(symbols_in(channel_of(subscription_list.news)) == subscription_list.symbols(Channel::News));
        }
    }
    subs
}

/// What the data client does about a request.
#[derive(Debug)]
pub enum ClientStep {
    /// Connect, then ask for these.
    ConnectAndAdd(SubscriptionList),
    /// Ask to remove these; the answer is what is then subscribed.
    Remove(SubscriptionList),
    /// Close the connection.
    ShutDown,
    Nothing,
}

/// The data client, which connects on its first subscription.
#[derive(Clone, Copy, Debug)]
pub struct AlpacaDataClient {
    pub connected: bool,
}

impl AlpacaDataClient {
    pub fn new() -> (r: AlpacaDataClient)
        ensures
            !r.connected,
    {
        AlpacaDataClient { connected: false }
    }

    /// Subscribe: the first subscription connects and asks for its channels.
    pub fn subscribe(&mut self, subscription: &Subscription) -> (r: ClientStep)
        ensures
            final(self).connected,
            old(self).connected ==> r is Nothing,
            !old(self).connected ==> r is ConnectAndAdd && forall|c: Channel| #[trigger]
                r->ConnectAndAdd_0.channel(c) == if subscription.has(c) {
                    Some(seq![subscription.instrument@])
                } else {
                    None
                },
    {
        if self.connected {
            return ClientStep::Nothing;
        }
        self.connected = true;
        ClientStep::ConnectAndAdd(SubscriptionList::of_subscription(subscription))
    }

    /// Unsubscribe, on a connection that exists.
    pub fn unsubscribe(&self, subscription: &Subscription) -> (r: ClientStep)
        requires
            self.connected,
        ensures
            r is Remove,
            forall|c: Channel| #[trigger]
                r->Remove_0.channel(c) == if subscription.has(c) {
                    Some(seq![subscription.instrument@])
                } else {
                    None
                },
    {
        ClientStep::Remove(SubscriptionList::of_subscription(subscription))
    }

    /// Shut down, closing the connection if there is one.
    pub fn shut_down(&mut self) -> (r: ClientStep)
        ensures
            !final(self).connected,
            old(self).connected ==> r is ShutDown,
            !old(self).connected ==> r is Nothing,
    {
        if self.connected {
            self.connected = false;
            ClientStep::ShutDown
        } else {
            ClientStep::Nothing
        }
    }
}

/// A subscription survives the way to a list and back: the list of a
/// subscription names its instrument in exactly its channels.
pub proof fn law_subscription_round_trip(
    sub: Subscription,
    list: SubscriptionList,
    back: Seq<Subscription>,
)
    requires
        forall|c: Channel| #[trigger]
            list.channel(c) == if sub.has(c) {
                Some(seq![sub.instrument@])
            } else {
                None
            },
        one_each(back),
        forall|s: Seq<char>, c: Channel| #[trigger]
            subscribes(back, s, c) <==> list.symbols(c).contains(s),
    ensures
        forall|s: Seq<char>, c: Channel| #[trigger]
            subscribes(back, s, c) <==> (s == sub.instrument@ && sub.has(c)),
{
    assert forall|s: Seq<char>, c: Channel| #[trigger]
        subscribes(back, s, c) <==> (s == sub.instrument@ && sub.has(c)) by {
        assert(subscribes(back, s, c) <==> list.symbols(c).contains(s));
        if sub.has(c) {
            assert(list.symbols(c)[0] == sub.instrument@);
        }
    }
}

/// Each channel of a subscription and of a list is the one of its own name.
pub proof fn law_channels_keep_their_names(sub: Subscription, list: SubscriptionList)
    ensures
        sub.has(Channel::Bars) == sub.bars && sub.has(Channel::DailyBars) == sub.daily_bars,
        sub.has(Channel::UpdatedBars) == sub.updated_bars && sub.has(Channel::Quotes)
            == sub.quotes,
        sub.has(Channel::Trades) == sub.trades && sub.has(Channel::News) == sub.news,
        list.channel(Channel::Bars) == channel_of(list.bars),
        list.channel(Channel::DailyBars) == channel_of(list.daily_bars),
        list.channel(Channel::UpdatedBars) == channel_of(list.updated_bars),
        list.channel(Channel::Quotes) == channel_of(list.quotes),
        list.channel(Channel::Trades) == channel_of(list.trades),
        list.channel(Channel::News) == channel_of(list.news),
{
}

} // verus!
