//! The service's subscription manager.

use vstd::prelude::*;

use crate::alpaca::alpaca_streaming_client::{
    BusListView, PricingSubscription, Request, SubscriptionList,
};
use crate::commands::{provider_name, DataProvider, Subscription, SubscriptionError};
use crate::providers::symbols::{symbols_in, texts_of};
use crate::text::join;

verus! {

/// The key under which a provider's subscriptions are stored.
pub open spec fn list_key(provider: DataProvider) -> Seq<char> {
    "subscriptions:"@ + provider_name(provider)
}

pub fn stored_list_key(provider: DataProvider) -> (r: String)
    ensures
        r@ == list_key(provider),
{
    join("subscriptions:", provider.name())
}

/// The key of one subscription.
pub open spec fn entry_key(sub: Subscription) -> Seq<char> {
    "subscriptions:"@ + provider_name(sub.provider) + ":"@ + sub.symbol@
}

/// Manages what is subscribed on the stream.
#[derive(Debug)]
pub struct SubscriptionManager {
    pub alpaca_crypto_client: PricingSubscription,
}

impl SubscriptionManager {
    pub fn new(alpaca_crypto_client: PricingSubscription) -> (r: SubscriptionManager)
        ensures
            r.alpaca_crypto_client == alpaca_crypto_client,
    {
        SubscriptionManager { alpaca_crypto_client }
    }

    /// Whether bars of the symbol are subscribed.
    pub open spec fn has(self, symbol: Seq<char>) -> bool {
        symbols_in(self.alpaca_crypto_client.active_subscriptions@.bars).contains(symbol)
    }

    /// What the server has confirmed.
    pub fn list(&self) -> (r: SubscriptionList)
        ensures
            r@ == self.alpaca_crypto_client.active_subscriptions@,
    {
        self.alpaca_crypto_client.active_subscriptions.clone()
    }

    /// Whether a symbol is subscribed.
    pub fn check_subscription_exists(&self, sub: &Subscription) -> (r: bool)
        ensures
            r == self.has(sub.symbol@),
    {
        let subscriptions = self.list();
        match &subscriptions.bars {
            None => false,
            Some(bars) => {
                let mut k: usize = 0;
                while k < bars.len()
                    invariant
                        0 <= k <= bars@.len(),
                        subscriptions@.bars == Some(texts_of(bars@)),
                        subscriptions@.bars
                            == self.alpaca_crypto_client.active_subscriptions@.bars,
                        forall|i: int| 0 <= i < k ==> (#[trigger] bars@[i])@ != sub.symbol@,
                    decreases bars@.len() - k,
                {
                    if bars[k] == sub.symbol {
                        assert(texts_of(bars@)[k as int] == sub.symbol@);
                        return true;
                    }
                    k += 1;
                }
                false
            },
        }
    }

    /// Ask the server for bars, quotes and trades of a symbol.
    fn subscribe_data_broker(&mut self, symbol: &str)
        ensures
            asked(*old(self), *final(self), symbol@, true),
    {
        let list = SubscriptionList::of_symbol(symbol);
        self.alpaca_crypto_client.subscribe(list);
    }

    /// Subscribe a symbol, unless it is subscribed.
    pub fn subscribe(&mut self, subscription: &Subscription) -> (r: Result<(), SubscriptionError>)
        ensures
            subscribed(*old(self), subscription.symbol@, *final(self), r),
    {
        if self.check_subscription_exists(subscription) {
            return Err(SubscriptionError::SubscriptionExists);
        }
        self.subscribe_data_broker(subscription.symbol.as_str());
        Ok(())
    }

    /// Unsubscribe a symbol that is subscribed; the result is the key of its
    /// stored entry, which is to be deleted.
    pub fn unsubscribe(&mut self, sub: &Subscription) -> (r: Result<String, SubscriptionError>)
        ensures
            unsubscribed(*old(self), *sub, *final(self), r),
    {
        if !self.check_subscription_exists(sub) {
            return Err(SubscriptionError::SubscriptionDoesNotExist);
        }
        let mut key = join("subscriptions:", sub.provider.name());
        key = join(key.as_str(), ":");
        key = join(key.as_str(), sub.symbol.as_str());
        let list = SubscriptionList::of_symbol(sub.symbol.as_str());
        self.alpaca_crypto_client.unsubscribe(list);
        Ok(key)
    }

    /// Ask the server again for every symbol of a stored list that has bars.
    pub fn load_subscriptions(&mut self, stored: Option<SubscriptionList>)
        ensures
            ({
                let symbols = match stored {
                    Some(list) => symbols_in(list@.bars),
                    None => seq![],
                };
                let before = old(self).alpaca_crypto_client.outbox@;
                let after = final(self).alpaca_crypto_client.outbox@;
                &&& after.len() == before.len() + symbols.len()
                &&& after.take(before.len() as int) == before
                &&& forall|i: int|
                    0 <= i < symbols.len() ==> is_request_for(
                        after[before.len() + i],
                        #[trigger] symbols[i],
                        true,
                    )
                &&& final(self).alpaca_crypto_client.active_subscriptions == old(
                    self,
                ).alpaca_crypto_client.active_subscriptions
                &&& final(self).alpaca_crypto_client.shut_down == old(
                    self,
                ).alpaca_crypto_client.shut_down
            }),
    {
        let ghost before = self.alpaca_crypto_client.outbox@;
        proof {
            assert(before.take(before.len() as int) =~= before);
        }
        let bars = match stored {
            Some(list) => list.bars,
            None => None,
        };
        if let Some(symbols) = bars {
            let ghost texts = texts_of(symbols@);
            let mut k: usize = 0;
            while k < symbols.len()
                invariant
                    0 <= k <= symbols@.len(),
                    texts == texts_of(symbols@),
                    before == old(self).alpaca_crypto_client.outbox@,
                    self.alpaca_crypto_client.outbox@.len() == before.len() + k,
                    self.alpaca_crypto_client.outbox@.take(before.len() as int) == before,
                    forall|i: int|
                        0 <= i < k ==> is_request_for(
                            self.alpaca_crypto_client.outbox@[before.len() + i],
                            #[trigger] texts[i],
                            true,
                        ),
                    self.alpaca_crypto_client.active_subscriptions == old(
                        self,
                    ).alpaca_crypto_client.active_subscriptions,
                    self.alpaca_crypto_client.shut_down == old(self).alpaca_crypto_client.shut_down,
                decreases symbols@.len() - k,
            {
                let ghost now = self.alpaca_crypto_client.outbox@;
                self.subscribe_data_broker(symbols[k].as_str());
                proof {
                    let after = self.alpaca_crypto_client.outbox@;
                    assert(after =~= now.push(after.last()));
                    assert(after.take(before.len() as int) =~= now.take(before.len() as int));
                }
                k += 1;
            }
        }
    }
}

/// Whether a request asks for, or gives up, bars, quotes and trades of the
/// symbol.
pub open spec fn is_request_for(request: Request, symbol: Seq<char>, add: bool) -> bool {
    if add {
        request matches Request::Subscribe(list) && list@ == BusListView::of_symbol(symbol)
    } else {
        request matches Request::Unsubscribe(list) && list@ == BusListView::of_symbol(symbol)
    }
}

/// One request for the symbol is on its way, and nothing else has changed.
pub open spec fn asked(
    pre: SubscriptionManager,
    post: SubscriptionManager,
    symbol: Seq<char>,
    add: bool,
) -> bool {
    let before = pre.alpaca_crypto_client.outbox@;
    let after = post.alpaca_crypto_client.outbox@;
    &&& after.len() == before.len() + 1
    &&& after == before.push(after.last())
    &&& is_request_for(after.last(), symbol, add)
    &&& post.alpaca_crypto_client == (PricingSubscription {
        outbox: post.alpaca_crypto_client.outbox,
        ..pre.alpaca_crypto_client
    })
}

/// A symbol is asked for by a request to subscribe its bars, quotes and trades,
/// and given up by one to unsubscribe them.
pub proof fn law_requests_say_what_is_asked(request: Request, symbol: Seq<char>, add: bool)
    requires
        is_request_for(request, symbol, add),
    ensures
        add ==> request is Subscribe,
        !add ==> request is Unsubscribe,
        ({
            let list = if add {
                request->Subscribe_0
            } else {
                request->Unsubscribe_0
            };
            &&& symbols_in(list@.bars).contains(symbol)
            &&& symbols_in(list@.quotes).contains(symbol)
            &&& symbols_in(list@.trades).contains(symbol)
            &&& list@.news is None
        }),
{
    let s = seq![symbol];
    assert(s[0] == symbol);
}

/// The entries of distinct symbols of a provider are stored apart.
pub proof fn law_entries_are_stored_apart(a: Subscription, b: Subscription)
    requires
        a.provider == b.provider,
    ensures
        entry_key(a) == entry_key(b) <==> a.symbol@ == b.symbol@,
{
    let p = "subscriptions:"@ + provider_name(a.provider) + ":"@;
    let n = p.len() as int;
    if entry_key(a) == entry_key(b) {
        assert(entry_key(a).skip(n) =~= a.symbol@);
        assert(entry_key(b).skip(n) =~= b.symbol@);
    }
}

/// A symbol counts as subscribed exactly where the server has confirmed its
/// bars.
pub proof fn law_confirmed_bars_are_subscriptions(m: SubscriptionManager, symbol: Seq<char>)
    ensures
        m.has(symbol) <==> (m.alpaca_crypto_client.active_subscriptions.bars matches Some(v)
            && texts_of(v@).contains(symbol)),
{
    if m.alpaca_crypto_client.active_subscriptions.bars is None {
        assert(!Seq::<Seq<char>>::empty().contains(symbol));
    }
}

/// What subscribing a symbol does.
pub open spec fn subscribed(
    pre: SubscriptionManager,
    symbol: Seq<char>,
    post: SubscriptionManager,
    r: Result<(), SubscriptionError>,
) -> bool {
    if pre.has(symbol) {
        r == Err::<(), SubscriptionError>(SubscriptionError::SubscriptionExists) && post == pre
    } else {
        r is Ok && asked(pre, post, symbol, true)
    }
}

/// What unsubscribing a symbol does.
pub open spec fn unsubscribed(
    pre: SubscriptionManager,
    sub: Subscription,
    post: SubscriptionManager,
    r: Result<String, SubscriptionError>,
) -> bool {
    if pre.has(sub.symbol@) {
        r is Ok && r->Ok_0@ == entry_key(sub) && asked(pre, post, sub.symbol@, false)
    } else {
        r == Err::<String, SubscriptionError>(SubscriptionError::SubscriptionDoesNotExist) && post
            == pre
    }
}

/// A symbol is asked of the server exactly where it is not subscribed yet, and
/// given up exactly where it is; otherwise the caller is told why not, and
/// nothing is sent.
pub proof fn law_symbols_are_subscribed_once(
    pre: SubscriptionManager,
    sub: Subscription,
    added: SubscriptionManager,
    add: Result<(), SubscriptionError>,
    removed: SubscriptionManager,
    remove: Result<String, SubscriptionError>,
)
    requires
        subscribed(pre, sub.symbol@, added, add),
        unsubscribed(pre, sub, removed, remove),
    ensures
        add is Ok <==> !pre.has(sub.symbol@),
        remove is Ok <==> pre.has(sub.symbol@),
        add is Err ==> add->Err_0 is SubscriptionExists && added == pre,
        remove is Err ==> remove->Err_0 is SubscriptionDoesNotExist && removed == pre,
        add is Ok ==> added.alpaca_crypto_client.outbox@.len()
            == pre.alpaca_crypto_client.outbox@.len() + 1
            && added.alpaca_crypto_client.outbox@.last() is Subscribe,
        remove is Ok ==> removed.alpaca_crypto_client.outbox@.len()
            == pre.alpaca_crypto_client.outbox@.len() + 1
            && removed.alpaca_crypto_client.outbox@.last() is Unsubscribe,
{
}

} // verus!
