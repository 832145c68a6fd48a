//! The service's streaming client: connecting, authenticating, and passing
//! messages on.

use vstd::prelude::*;

use crate::providers::symbols::{changed, channel_of, clone_field, mutate_field};

verus! {

/// Endpoint of the stream.
pub const MARKET_DATA_STREAM_HOST: &'static str = "wss://stream.data.alpaca.markets/v1beta3/crypto/us";

/// Data feed of the stream.
#[derive(Clone, Copy, Debug, PartialEq, Eq, Structural)]
pub enum Feed {
    /// Available to all accounts.
    IEX,
    /// Only usable with the unlimited data plan.
    SIP,
}

/// The endpoint of a feed; both feeds share one.
pub fn stream_url(_feed: Feed) -> (r: &'static str)
    ensures
        r@ == MARKET_DATA_STREAM_HOST@,
{
    MARKET_DATA_STREAM_HOST
}

#[derive(Clone, Copy, Debug, PartialEq, Eq, Structural)]
pub enum StreamingClientState {
    Error,
    NotConnected,
    Connecting,
    Connected,
    Authenticating,
    Authenticated,
}

#[derive(Clone, Copy, Debug, PartialEq, Eq, Structural)]
pub enum ControlMessage {
    Connected,
    Authenticated,
}

/// An error that the server reports.
#[derive(Clone, Copy, Debug, PartialEq, Eq, Structural)]
pub enum Error {
    InvalidSyntax,
    NotAuthenticated,
    AuthFailed,
    AlreadyAuthorized,
    AuthTimeout,
}

impl Error {
    /// Number of the error on the wire.
    pub open spec fn number(self) -> u16 {
        match self {
            Error::InvalidSyntax => 400,
            Error::NotAuthenticated => 401,
            Error::AuthFailed => 402,
            Error::AlreadyAuthorized => 403,
            Error::AuthTimeout => 404,
        }
    }

    pub fn code(&self) -> (r: u16)
        ensures
            r == self.number(),
    {
        match self {
            Error::InvalidSyntax => 400,
            Error::NotAuthenticated => 401,
            Error::AuthFailed => 402,
            Error::AlreadyAuthorized => 403,
            Error::AuthTimeout => 404,
        }
    }

    /// The error with that number, if there is one.
    pub fn from_code(code: u16) -> (r: Option<Error>)
        ensures
            r matches Some(e) ==> e.number() == code,
            r is None ==> forall|e: Error| #[trigger] e.number() != code,
    {
        if code == 400 {
            Some(Error::InvalidSyntax)
        } else if code == 401 {
            Some(Error::NotAuthenticated)
        } else if code == 402 {
            Some(Error::AuthFailed)
        } else if code == 403 {
            Some(Error::AlreadyAuthorized)
        } else if code == 404 {
            Some(Error::AuthTimeout)
        } else {
            None
        }
    }
}

/// Symbols subscribed per channel; an absent channel has none.
#[derive(Debug, PartialEq, Eq)]
pub struct SubscriptionList {
    pub trades: Option<Vec<String>>,
    pub quotes: Option<Vec<String>>,
    pub bars: Option<Vec<String>>,
    pub news: Option<Vec<String>>,
}

/// The value of a [`SubscriptionList`].
pub struct BusListView {
    pub trades: Option<Seq<Seq<char>>>,
    pub quotes: Option<Seq<Seq<char>>>,
    pub bars: Option<Seq<Seq<char>>>,
    pub news: Option<Seq<Seq<char>>>,
}

impl BusListView {
    pub open spec fn empty() -> BusListView {
        BusListView { trades: None, quotes: None, bars: None, news: None }
    }

    /// Bars, quotes and trades of one symbol.
    pub open spec fn of_symbol(symbol: Seq<char>) -> BusListView {
        BusListView {
            trades: Some(seq![symbol]),
            quotes: Some(seq![symbol]),
            bars: Some(seq![symbol]),
            news: None,
        }
    }
}

impl View for SubscriptionList {
    type V = BusListView;

    open spec fn view(&self) -> BusListView {
        BusListView {
            trades: channel_of(self.trades),
            quotes: channel_of(self.quotes),
            bars: channel_of(self.bars),
            news: channel_of(self.news),
        }
    }
}

impl Clone for SubscriptionList {
    fn clone(&self) -> (r: SubscriptionList)
        ensures
            r@ == self@,
    {
        SubscriptionList {
            trades: clone_field(&self.trades),
            quotes: clone_field(&self.quotes),
            bars: clone_field(&self.bars),
            news: clone_field(&self.news),
        }
    }
}

impl SubscriptionList {
    pub fn new() -> (r: SubscriptionList)
        ensures
            r@ == BusListView::empty(),
    {
        SubscriptionList { trades: None, quotes: None, bars: None, news: None }
    }

    pub fn add_bars(self, symbol: &str) -> (r: SubscriptionList)
        ensures
            r@ == (BusListView { bars: changed(self@.bars, symbol@, true), ..self@ }),
    {
        let mut r = self;
        mutate_field(&mut r.bars, symbol, true);
        r
    }

    pub fn add_quotes(self, symbol: &str) -> (r: SubscriptionList)
        ensures
            r@ == (BusListView { quotes: changed(self@.quotes, symbol@, true), ..self@ }),
    {
        let mut r = self;
        mutate_field(&mut r.quotes, symbol, true);
        r
    }

    pub fn add_trades(self, symbol: &str) -> (r: SubscriptionList)
        ensures
            r@ == (BusListView { trades: changed(self@.trades, symbol@, true), ..self@ }),
    {
        let mut r = self;
        mutate_field(&mut r.trades, symbol, true);
        r
    }

    /// Bars, quotes and trades of one symbol.
    pub fn of_symbol(symbol: &str) -> (r: SubscriptionList)
        ensures
            r@ == BusListView::of_symbol(symbol@),
    {
        let r = SubscriptionList::new().add_bars(symbol).add_quotes(symbol).add_trades(symbol);
        proof {
            assert(r@.bars->0 =~= seq![symbol@]);
            assert(r@.quotes->0 =~= seq![symbol@]);
            assert(r@.trades->0 =~= seq![symbol@]);
        }
        r
    }
}

/// A request to the server.
#[derive(Debug, PartialEq, Eq)]
pub enum Request {
    AuthMessage { key: String, secret: String },
    Subscribe(SubscriptionList),
    Unsubscribe(SubscriptionList),
}

/// A running subscription to the stream: the requests on their way to the
/// server, and what it has confirmed.
#[derive(Debug)]
pub struct PricingSubscription {
    /// Requests yet to be sent, in order.
    pub outbox: Vec<Request>,
    pub shut_down: bool,
    pub active_subscriptions: SubscriptionList,
}

impl PricingSubscription {
    pub fn subscribe(&mut self, subscriptions: SubscriptionList)
        ensures
            final(self).outbox@ == old(self).outbox@.push(Request::Subscribe(subscriptions)),
            *final(self) == (PricingSubscription { outbox: final(self).outbox, ..*old(self) }),
    {
        self.outbox.push(Request::Subscribe(subscriptions));
    }

    pub fn unsubscribe(&mut self, subscriptions: SubscriptionList)
        ensures
            final(self).outbox@ == old(self).outbox@.push(Request::Unsubscribe(subscriptions)),
            *final(self) == (PricingSubscription { outbox: final(self).outbox, ..*old(self) }),
    {
        self.outbox.push(Request::Unsubscribe(subscriptions));
    }

    pub fn shutdown(&mut self)
        ensures
            *final(self) == (PricingSubscription { shut_down: true, ..*old(self) }),
    {
        self.shut_down = true;
    }
}

/// What a message of the stream is about. Payloads are passed on as they are.
#[derive(Debug)]
pub enum StreamMessage {
    Control { kind: ControlMessage },
    Error { code: Error, msg: String },
    Subscription(SubscriptionList),
    Trade,
    Quote,
    MinuteBar,
    MinuteUpdateBar,
    DailyBar,
}

/// What follows a message.
#[derive(Debug)]
pub enum StreamAction {
    Nothing,
    /// Print the error.
    Report(Error, String),
    /// Save what is subscribed under this key.
    Save(&'static str),
    /// Publish the payload on this channel.
    Publish(&'static str),
}

/// The streaming client while it connects and runs.
#[derive(Debug)]
pub struct AlpacaStreamingClient {
    pub state: StreamingClientState,
    pub active_subscriptions: SubscriptionList,
}

/// The channel of a data message.
pub open spec fn channel(msg: StreamMessage) -> Option<Seq<char>> {
    match msg {
        StreamMessage::Trade => Some("trade"@),
        StreamMessage::Quote => Some("quote"@),
        StreamMessage::MinuteBar => Some("minute_bar"@),
        StreamMessage::MinuteUpdateBar => Some("minute_update_bar"@),
        StreamMessage::DailyBar => Some("daily_bar"@),
        _ => None,
    }
}

/// The client's state behind a message.
pub open spec fn state_after(state: StreamingClientState, msg: StreamMessage) -> StreamingClientState {
    match msg {
        StreamMessage::Control { kind: ControlMessage::Connected } => {
            StreamingClientState::Connected
        },
        StreamMessage::Control { kind: ControlMessage::Authenticated } => {
            StreamingClientState::Authenticated
        },
        _ => state,
    }
}

/// What is subscribed behind a message.
pub open spec fn subscribed_after(list: SubscriptionList, msg: StreamMessage) -> SubscriptionList {
    match msg {
        StreamMessage::Subscription(confirmed) => confirmed,
        _ => list,
    }
}

pub open spec fn state_after_all(
    state: StreamingClientState,
    msgs: Seq<StreamMessage>,
) -> StreamingClientState
    decreases msgs.len(),
{
    if msgs.len() == 0 {
        state
    } else {
        state_after(state_after_all(state, msgs.drop_last()), msgs.last())
    }
}

pub open spec fn subscribed_after_all(
    list: SubscriptionList,
    msgs: Seq<StreamMessage>,
) -> SubscriptionList
    decreases msgs.len(),
{
    if msgs.len() == 0 {
        list
    } else {
        subscribed_after(subscribed_after_all(list, msgs.drop_last()), msgs.last())
    }
}

/// What a message calls for.
pub open spec fn answers(msg: StreamMessage, r: StreamAction) -> bool {
    match msg {
        StreamMessage::Control { .. } => r is Nothing,
        StreamMessage::Error { code, msg: text } => r == StreamAction::Report(code, text),
        StreamMessage::Subscription(_) => r is Save && r->Save_0@ == "subscriptions:AlpacaCrypto"@,
        _ => r is Publish && channel(msg) == Some(r->Publish_0@),
    }
}

impl AlpacaStreamingClient {
    pub fn new() -> (r: AlpacaStreamingClient)
        ensures
            r.state == StreamingClientState::NotConnected,
            r.active_subscriptions@ == BusListView::empty(),
    {
        AlpacaStreamingClient {
            state: StreamingClientState::NotConnected,
            active_subscriptions: SubscriptionList::new(),
        }
    }

    /// Whether the connection is still awaited.
    pub fn awaits_connection(&self) -> (r: bool)
        ensures
            r == (self.state == StreamingClientState::NotConnected),
    {
        self.state == StreamingClientState::NotConnected
    }

    /// Whether the answer to the authentication is still awaited.
    pub fn awaits_auth(&self) -> (r: bool)
        ensures
            r == (self.state == StreamingClientState::Authenticating),
    {
        self.state == StreamingClientState::Authenticating
    }

    /// The request that authenticates the connection.
    pub fn authenticate(&mut self, key: String, secret: String) -> (r: Request)
        ensures
            final(self).state == StreamingClientState::Authenticating,
            final(self).active_subscriptions == old(self).active_subscriptions,
            r == (Request::AuthMessage { key, secret }),
    {
        self.state = StreamingClientState::Authenticating;
        Request::AuthMessage { key, secret }
    }

    /// Deal with one message.
    pub fn on_message(&mut self, msg: StreamMessage) -> (r: StreamAction)
        ensures
            final(self).state == state_after(old(self).state, msg),
            final(self).active_subscriptions == subscribed_after(
                old(self).active_subscriptions,
                msg,
            ),
            answers(msg, r),
    {
        match msg {
            StreamMessage::Control { kind } => {
                self.state =
                match kind {
                    ControlMessage::Connected => StreamingClientState::Connected,
                    ControlMessage::Authenticated => StreamingClientState::Authenticated,
                };
                StreamAction::Nothing
            },
            StreamMessage::Error { code, msg } => StreamAction::Report(code, msg),
            StreamMessage::Subscription(list) => {
                self.active_subscriptions = list;
                StreamAction::Save("subscriptions:AlpacaCrypto")
            },
            StreamMessage::Trade => StreamAction::Publish("trade"),
            StreamMessage::Quote => StreamAction::Publish("quote"),
            StreamMessage::MinuteBar => StreamAction::Publish("minute_bar"),
            StreamMessage::MinuteUpdateBar => StreamAction::Publish("minute_update_bar"),
            StreamMessage::DailyBar => StreamAction::Publish("daily_bar"),
        }
    }

    /// Deal with the messages of one frame, in order.
    pub fn on_messages(&mut self, msgs: Vec<StreamMessage>) -> (r: Vec<StreamAction>)
        ensures
            final(self).state == state_after_all(old(self).state, msgs@),
            final(self).active_subscriptions == subscribed_after_all(
                old(self).active_subscriptions,
                msgs@,
            ),
            r@.len() == msgs@.len(),
            forall|i: int| 0 <= i < msgs@.len() ==> answers(#[trigger] msgs@[i], r@[i]),
    {
        let ghost all = msgs@;
        let mut rest = msgs;
        let mut done: Vec<StreamAction> = Vec::new();
        let ghost mut k: int = 0;
        proof {
            assert(all.take(0) =~= seq![]);
            assert(all.skip(0) =~= all);
        }
        while rest.len() > 0
            invariant
                0 <= k <= all.len(),
                rest@ == all.skip(k),
                done@.len() == k,
                self.state == state_after_all(old(self).state, all.take(k)),
                self.active_subscriptions == subscribed_after_all(
                    old(self).active_subscriptions,
                    all.take(k),
                ),
                forall|i: int| 0 <= i < k ==> answers(#[trigger] all[i], done@[i]),
            decreases rest@.len(),
        {
            let msg = rest.remove(0);
            let action = self.on_message(msg);
            done.push(action);
            proof {
                assert(all.take(k + 1).drop_last() =~= all.take(k));
                assert(all.take(k + 1).last() == all[k]);
                assert(rest@ =~= all.skip(k + 1));
                k = k + 1;
            }
        }
        proof {
            assert(all.take(k) =~= all);
        }
        done
    }
}

/// Each kind of data is published on a channel of its own; nothing else is
/// published.
pub proof fn law_channels_are_kept_apart(a: StreamMessage, b: StreamMessage)
    ensures
        channel(a) is None <==> a is Control || a is Error || a is Subscription,
        channel(a) is Some && channel(a) == channel(b) ==> {
            &&& a is Trade <==> b is Trade
            &&& a is Quote <==> b is Quote
            &&& a is MinuteBar <==> b is MinuteBar
            &&& a is MinuteUpdateBar <==> b is MinuteUpdateBar
            &&& a is DailyBar <==> b is DailyBar
        },
        a is Trade ==> channel(a) == Some("trade"@),
        a is Quote ==> channel(a) == Some("quote"@),
        a is MinuteBar ==> channel(a) == Some("minute_bar"@),
        a is MinuteUpdateBar ==> channel(a) == Some("minute_update_bar"@),
        a is DailyBar ==> channel(a) == Some("daily_bar"@),
{
    reveal_strlit("trade");
    reveal_strlit("quote");
    reveal_strlit("minute_bar");
    reveal_strlit("minute_update_bar");
    reveal_strlit("daily_bar");
    assert("trade"@[0] == 't' && "quote"@[0] == 'q');
    assert("trade"@.len() == 5 && "quote"@.len() == 5 && "minute_bar"@.len() == 10);
    assert("minute_update_bar"@.len() == 17 && "daily_bar"@.len() == 9);
}

/// The connection is known to stand once the server says so, and to be
/// authenticated once it says that; no other message moves it.
pub proof fn law_only_the_server_moves_the_connection(state: StreamingClientState, msg: StreamMessage)
    ensures
        state_after(state, msg) != state ==> msg is Control,
        msg is Control && msg->kind is Connected ==> state_after(state, msg) is Connected,
        msg is Control && msg->kind is Authenticated ==> state_after(state, msg) is Authenticated,
{
}

/// The codes of the server's errors are its own, one for each.
pub proof fn law_error_codes_are_the_servers(a: Error, b: Error)
    ensures
        a.number() == b.number() ==> a == b,
        400 <= a.number() <= 404,
        a is InvalidSyntax ==> a.number() == 400,
        a is NotAuthenticated ==> a.number() == 401,
        a is AuthFailed ==> a.number() == 402,
        a is AlreadyAuthorized ==> a.number() == 403,
        a is AuthTimeout ==> a.number() == 404,
{
}

/// What is subscribed is what the server confirmed last.
pub proof fn law_last_confirmation_counts(list: SubscriptionList, msgs: Seq<StreamMessage>, i: int)
    requires
        0 <= i < msgs.len(),
        msgs[i] is Subscription,
        forall|j: int| i < j < msgs.len() ==> !(#[trigger] msgs[j] is Subscription),
    ensures
        subscribed_after_all(list, msgs) == msgs[i]->Subscription_0,
    decreases msgs.len(),
{
    if i < msgs.len() - 1 {
        assert(!(msgs[msgs.len() - 1] is Subscription));
        let d = msgs.drop_last();
        assert forall|j: int| i < j < d.len() implies !(#[trigger] d[j] is Subscription) by {
            assert(d[j] == msgs[j]);
        }
        law_last_confirmation_counts(list, d, i);
    }
}

/// A symbol is asked for in bars, quotes and trades, alone, and in nothing else.
pub proof fn law_symbols_are_asked_for_in_three_channels(symbol: Seq<char>, list: SubscriptionList)
    ensures
        ({
            let v = BusListView::of_symbol(symbol);
            &&& v.bars matches Some(s) && s.len() == 1 && s[0] == symbol
            &&& v.quotes matches Some(s) && s.len() == 1 && s[0] == symbol
            &&& v.trades matches Some(s) && s.len() == 1 && s[0] == symbol
            &&& v.news is None
        }),
        list@.bars == channel_of(list.bars) && list@.quotes == channel_of(list.quotes),
        list@.trades == channel_of(list.trades) && list@.news == channel_of(list.news),
{
}

} // verus!
