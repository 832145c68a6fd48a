use datamancer::alpaca::alpaca_streaming_client::{
    stream_url, AlpacaStreamingClient, ControlMessage, Error, Feed, PricingSubscription, Request,
    StreamAction, StreamMessage, StreamingClientState, SubscriptionList,
};
use datamancer::commands::{
    process_command, Command, CommandTask, DataProvider, Subscription, SubscriptionError,
};
use datamancer::inner::{Error as InnerError, Inner, SubscriptionRequest};
use datamancer::subscription::{stored_list_key, SubscriptionManager};
use datamancer::subscriptions::alpaca::{
    subscription_list_to_subscriptions, AlpacaDataClient, Channel, ClientStep,
    Subscription as Entry, SubscriptionList as Lists,
};

fn btc() -> Subscription {
    Subscription { provider: DataProvider::AlpacaCrypto, symbol: "BTC/USD".to_string() }
}

fn manager(bars: Option<Vec<String>>) -> SubscriptionManager {
    let mut active = SubscriptionList::new();
    active.bars = bars;
    SubscriptionManager::new(PricingSubscription {
        outbox: Vec::new(),
        shut_down: false,
        active_subscriptions: active,
    })
}

#[test]
fn commands_become_tasks() {
    assert_eq!(process_command(Command::ShutDown), None);
    assert_eq!(process_command(Command::Sub(btc())), Some(CommandTask::Subscribe(btc())));
    assert_eq!(process_command(Command::Unsub(btc())), Some(CommandTask::Unsubscribe(btc())));
    assert_eq!(process_command(Command::List), Some(CommandTask::List));
    assert_eq!(stored_list_key(DataProvider::AlpacaCrypto), "subscriptions:AlpacaCrypto");
}

#[test]
fn symbols_are_subscribed_once() {
    let mut m = manager(None);
    assert_eq!(m.subscribe(&btc()), Ok(()));
    match &m.alpaca_crypto_client.outbox[..] {
        [Request::Subscribe(list)] => {
            let one = Some(vec!["BTC/USD".to_string()]);
            assert_eq!((&list.bars, &list.quotes, &list.trades), (&one, &one, &one));
            assert_eq!(list.news, None);
        }
        other => panic!("expected one request, got {other:?}"),
    }
    let mut m = manager(Some(vec!["BTC/USD".to_string()]));
    assert!(m.check_subscription_exists(&btc()));
    assert_eq!(m.subscribe(&btc()), Err(SubscriptionError::SubscriptionExists));
    assert!(m.alpaca_crypto_client.outbox.is_empty());
    assert_eq!(m.list().bars, Some(vec!["BTC/USD".to_string()]));
}

#[test]
fn only_subscribed_symbols_are_given_up() {
    let mut m = manager(None);
    assert_eq!(m.unsubscribe(&btc()), Err(SubscriptionError::SubscriptionDoesNotExist));
    let mut m = manager(Some(vec!["BTC/USD".to_string()]));
    assert_eq!(m.unsubscribe(&btc()), Ok("subscriptions:AlpacaCrypto:BTC/USD".to_string()));
    assert!(matches!(m.alpaca_crypto_client.outbox[..], [Request::Unsubscribe(_)]));
}

#[test]
fn stored_symbols_are_asked_for_again() {
    let mut stored = SubscriptionList::new();
    stored.bars = Some(vec!["BTC/USD".to_string(), "ETH/USD".to_string()]);
    stored.quotes = Some(vec!["DOGE/USD".to_string()]);
    let mut m = manager(None);
    m.load_subscriptions(Some(stored));
    assert_eq!(m.alpaca_crypto_client.outbox.len(), 2);
    match &m.alpaca_crypto_client.outbox[1] {
        Request::Subscribe(list) => assert_eq!(list.trades, Some(vec!["ETH/USD".to_string()])),
        other => panic!("expected a request, got {other:?}"),
    }
    let mut m = manager(None);
    m.load_subscriptions(None);
    assert!(m.alpaca_crypto_client.outbox.is_empty());
    m.alpaca_crypto_client.shutdown();
    assert!(m.alpaca_crypto_client.shut_down);
}

#[test]
fn client_connects_and_authenticates() {
    let mut c = AlpacaStreamingClient::new();
    assert!(c.awaits_connection());
    assert_eq!(stream_url(Feed::IEX), stream_url(Feed::SIP));
    let done = c.on_messages(vec![StreamMessage::Control { kind: ControlMessage::Connected }]);
    assert!(matches!(done[..], [StreamAction::Nothing]));
    assert!(!c.awaits_connection());
    let request = c.authenticate("k".to_string(), "s".to_string());
    assert_eq!(
        request,
        Request::AuthMessage { key: "k".to_string(), secret: "s".to_string() }
    );
    assert!(c.awaits_auth());
    c.on_message(StreamMessage::Control { kind: ControlMessage::Authenticated });
    assert_eq!(c.state, StreamingClientState::Authenticated);
}

#[test]
fn frames_are_dealt_with_in_order() {
    let mut c = AlpacaStreamingClient::new();
    let confirmed = SubscriptionList::of_symbol("BTC/USD");
    let done = c.on_messages(vec![
        StreamMessage::Trade,
        StreamMessage::Subscription(confirmed.clone()),
        StreamMessage::Error { code: Error::AuthFailed, msg: "no".to_string() },
        StreamMessage::MinuteUpdateBar,
        StreamMessage::Quote,
        StreamMessage::MinuteBar,
        StreamMessage::DailyBar,
    ]);
    let names: Vec<String> = done
        .iter()
        .map(|a| match a {
            StreamAction::Nothing => "-".to_string(),
            StreamAction::Report(code, msg) => format!("{} {msg}", code.code()),
            StreamAction::Save(key) => key.to_string(),
            StreamAction::Publish(channel) => channel.to_string(),
        })
        .collect();
    assert_eq!(
        names,
        vec![
            "trade",
            "subscriptions:AlpacaCrypto",
            "402 no",
            "minute_update_bar",
            "quote",
            "minute_bar",
            "daily_bar"
        ]
    );
    assert_eq!(c.active_subscriptions, confirmed);
}

#[test]
fn error_numbers_round_trip() {
    for n in 400..=404u16 {
        assert_eq!(Error::from_code(n).map(|e| e.code()), Some(n));
    }
    assert_eq!(Error::from_code(399), None);
    assert_eq!(Error::from_code(405), None);
}

#[test]
fn requests_are_answered_by_the_data_client() {
    let mut inner = Inner::new();
    let entry = || Entry::new("AAPL".to_string());
    assert!(matches!(SubscriptionRequest::subscribe(entry()), SubscriptionRequest::Subscribe { .. }));
    assert!(matches!(
        SubscriptionRequest::unsubscribe(entry()),
        SubscriptionRequest::Unsubscribe { .. }
    ));
    assert!(matches!(SubscriptionRequest::shut_down(), SubscriptionRequest::ShutDown));
    assert_eq!(inner.answered(Some(Ok(vec![entry()]))), Ok(vec![entry()]));
    assert_eq!(inner.answered(None), Err(InnerError::UnexpectedTermination));
    let failed = || InnerError::Alpaca("no".to_string());
    assert_eq!(inner.answered(Some(Err(failed()))), Err(failed()));
    assert_eq!(inner.subscriptions, vec![entry()]);
}

#[test]
fn lists_and_subscriptions_convert_into_each_other() {
    let mut aapl = Entry::new("AAPL".to_string());
    aapl.add(Channel::Bars);
    aapl.add(Channel::News);
    let lists = Lists::of_subscription(&aapl);
    assert_eq!(lists.bars, Some(vec!["AAPL".to_string()]));
    assert_eq!(lists.news, Some(vec!["AAPL".to_string()]));
    assert_eq!(lists.trades, None);
    assert_eq!(subscription_list_to_subscriptions(&lists), vec![aapl.clone()]);

    let mut both = Lists::new();
    both.trades = Some(vec!["MSFT".to_string(), "AAPL".to_string()]);
    both.quotes = Some(vec!["AAPL".to_string()]);
    let entries = subscription_list_to_subscriptions(&both);
    assert_eq!(entries.len(), 2);
    let one = entries.iter().find(|e| e.instrument == "AAPL").unwrap();
    assert!(one.trades && one.quotes && !one.bars);
}

#[test]
fn data_client_connects_on_first_use() {
    let mut aapl = Entry::new("AAPL".to_string());
    aapl.add(Channel::Trades);
    let mut c = AlpacaDataClient::new();
    assert!(matches!(c.subscribe(&aapl), ClientStep::ConnectAndAdd(_)));
    assert!(c.connected);
    assert!(matches!(c.unsubscribe(&aapl), ClientStep::Remove(_)));
    assert!(matches!(c.shut_down(), ClientStep::ShutDown));
    assert!(matches!(c.shut_down(), ClientStep::Nothing));
}
