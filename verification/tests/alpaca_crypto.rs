use chrono::{DateTime, Utc};
use datamancer::error::Error;
use datamancer::event::{
    AssetClass, Bar, BarInterval, Control, ControlKind, EventKind, Instrument, MarketEvent, Price,
    ProviderId, Quantity, SeqNo, Timestamp, Trade,
};
use datamancer::providers::alpaca_crypto::{
    apply_pair_to_list, event_route_key, provider_instrument, translate_crypto_message,
    AlpacaCryptoProvider, AlpacaCryptoProviderConfig, CryptoBar, CryptoQuote,
    CryptoStreamMessage, CryptoSubscriptionList, CryptoTrade, HubTask, SharedLiveHandle, SinkId,
    PROVIDER_ID,
};
use datamancer::providers::alpaca::messages::StreamError;
use datamancer::providers::clock::UtcInstant;
use datamancer::session::options::ReconnectPolicy;
use datamancer::table::Pair;
use oxidized_alpaca::streaming::messages::crypto::CryptoBarEvent;
use oxidized_alpaca::streaming::CryptoStreamMessage as WireMessage;

fn price(value: f64) -> Price {
    Price::from_raw((value * 1e9).round() as i64)
}

fn instant(at: DateTime<Utc>) -> UtcInstant {
    UtcInstant { secs: at.timestamp(), nanos: at.timestamp_subsec_nanos() }
}

fn bar_of(b: CryptoBarEvent) -> CryptoBar {
    CryptoBar {
        symbol: b.symbol,
        timestamp: instant(b.timestamp),
        open: price(b.open),
        high: price(b.high),
        low: price(b.low),
        close: price(b.close),
        volume: b.volume.max(0.0).round() as u64,
    }
}

fn message(json: &str) -> CryptoStreamMessage {
    let msg: WireMessage = serde_json::from_str(json).unwrap();
    match msg {
        WireMessage::Trade(t) => CryptoStreamMessage::Trade(CryptoTrade {
            symbol: t.symbol,
            timestamp: instant(t.timestamp),
            price: price(t.price),
            size: t.size.max(0.0).round() as u64,
        }),
        WireMessage::Quote(q) => CryptoStreamMessage::Quote(CryptoQuote {
            symbol: q.symbol,
            timestamp: instant(q.timestamp),
            bid_price: price(q.bid_price),
            bid_size: q.bid_size.max(0.0).round() as u64,
            ask_price: price(q.ask_price),
            ask_size: q.ask_size.max(0.0).round() as u64,
        }),
        WireMessage::Bar(b) => CryptoStreamMessage::Bar(bar_of(b)),
        WireMessage::DailyBar(b) => CryptoStreamMessage::DailyBar(bar_of(b)),
        WireMessage::UpdatedBar(b) => CryptoStreamMessage::UpdatedBar(bar_of(b)),
        WireMessage::Error(e) => CryptoStreamMessage::Error(StreamError {
            code: format!("{:?}", e.code),
            message: e.message,
        }),
        _ => CryptoStreamMessage::Other,
    }
}

#[test]
fn translates_crypto_trade() {
    let json = r#"{"T":"t","S":"BTC/USD","i":12345,"p":50050.0,"s":0.5,"tks":"B","t":"2024-01-02T15:30:00Z"}"#;
    let events = translate_crypto_message(message(json), Timestamp(1));
    assert_eq!(events.len(), 1);
    match &events[0] {
        MarketEvent::Trade(t) => {
            assert_eq!(t.instrument.symbol(), "BTC/USD");
            assert_eq!(t.price, price(50050.0));
        }
        other => panic!("expected Trade, got {other:?}"),
    }
}

#[test]
fn translates_crypto_quote() {
    let json = r#"{"T":"q","S":"BTC/USD","bp":50000.0,"bs":1.0,"ap":50100.0,"as":2.0,"t":"2024-01-02T15:30:00Z"}"#;
    let events = translate_crypto_message(message(json), Timestamp(1));
    assert_eq!(events.len(), 1);
    match &events[0] {
        MarketEvent::Quote(q) => {
            assert_eq!(q.instrument.symbol(), "BTC/USD");
            assert_eq!(q.bid, price(50000.0));
            assert_eq!(q.ask, price(50100.0));
            assert_eq!(q.bid_size.raw(), 1_000_000_000);
            assert_eq!(q.ask_size.raw(), 2_000_000_000);
        }
        other => panic!("expected Quote, got {other:?}"),
    }
}

#[test]
fn translates_crypto_bars_and_errors() {
    let daily = r#"{"T":"d","S":"ETH/USD","o":1.0,"h":2.0,"l":0.5,"c":1.5,"v":7.9,"t":"2024-01-02T00:00:00Z"}"#;
    match &translate_crypto_message(message(daily), Timestamp(1))[0] {
        MarketEvent::Bar(b) => {
            assert_eq!(b.interval, BarInterval::OneDay);
            assert_eq!(b.volume, Quantity::from_units(8));
        }
        other => panic!("expected Bar, got {other:?}"),
    }
    let error = r#"{"T":"error","code":405,"msg":"too many"}"#;
    match &translate_crypto_message(message(error), Timestamp(1))[0] {
        MarketEvent::Control(Control {
            kind: ControlKind::ProviderError { provider, message },
            ..
        }) => {
            assert_eq!(provider, "alpaca-crypto");
            assert_eq!(message, "SymbolLimitExceeded: too many");
        }
        other => panic!("expected ProviderError control, got {other:?}"),
    }
}

#[test]
fn alpaca_crypto_provider_supports_kinds() {
    let p = AlpacaCryptoProvider::new(AlpacaCryptoProviderConfig::default());
    let inst = provider_instrument("BTC/USD");
    assert!(p.supports(&inst, EventKind::Trade));
    assert!(p.supports(&inst, EventKind::Quote));
    assert!(p.supports(&inst, EventKind::Bar(BarInterval::OneMinute)));
    assert!(p.supports(&inst, EventKind::Bar(BarInterval::OneDay)));
    assert!(!p.supports(&inst, EventKind::Bar(BarInterval::FiveMinute)));
}

#[test]
fn event_route_key_matches_pair() {
    let now = Timestamp(1);
    let trade = MarketEvent::Trade(Trade {
        instrument: provider_instrument("BTC/USD"),
        source_ts: now,
        rx_ts: now,
        seq: SeqNo(0),
        price: price(1.0),
        size: Quantity::from_units(1),
    });
    assert_eq!(
        event_route_key(&trade),
        Some(Pair { instrument: provider_instrument("BTC/USD"), kind: EventKind::Trade })
    );

    let bar = MarketEvent::Bar(Bar {
        instrument: provider_instrument("ETH/USD"),
        interval: BarInterval::OneMinute,
        source_ts: now,
        rx_ts: now,
        seq: SeqNo(0),
        open: Price::from_raw(0),
        high: Price::from_raw(0),
        low: Price::from_raw(0),
        close: Price::from_raw(0),
        volume: Quantity::from_raw(0),
    });
    assert_eq!(
        event_route_key(&bar),
        Some(Pair {
            instrument: provider_instrument("ETH/USD"),
            kind: EventKind::Bar(BarInterval::OneMinute),
        })
    );
    let control = MarketEvent::control(now, SeqNo(0), ControlKind::SessionClosing);
    assert_eq!(event_route_key(&control), None);
}

#[test]
fn crypto_instruments_name_their_provider() {
    let inst = provider_instrument("BTC/USD");
    assert_eq!(inst, Instrument::new(ProviderId::from_static(PROVIDER_ID), AssetClass::Crypto, "BTC/USD"));
}

#[test]
fn crypto_has_no_history() {
    let p = AlpacaCryptoProvider::new(AlpacaCryptoProviderConfig::default());
    assert_eq!(
        p.history_unavailable(),
        Error::Provider {
            provider: "alpaca-crypto".to_string(),
            message: "crypto historical fetch is not wired up in this provider".to_string(),
        }
    );
}

fn pair(symbol: &str, kind: EventKind) -> Pair {
    Pair { instrument: provider_instrument(symbol), kind }
}

fn trade_of(symbol: &str) -> MarketEvent {
    MarketEvent::Trade(Trade {
        instrument: provider_instrument(symbol),
        source_ts: Timestamp(1),
        rx_ts: Timestamp(1),
        seq: SeqNo(0),
        price: Price::from_raw(1),
        size: Quantity::from_raw(1),
    })
}

#[test]
fn hub_routes_data_to_its_pair_and_controls_to_all() {
    let mut hub = HubTask::new(ReconnectPolicy::default());
    let btc = pair("BTC/USD", EventKind::Trade);
    let eth = pair("ETH/USD", EventKind::Trade);
    let list = hub.subscribe(&btc, SinkId(1));
    assert_eq!(list.trades, Some(vec!["BTC/USD".to_string()]));
    let list = hub.subscribe(&eth, SinkId(2));
    assert_eq!(list.trades, Some(vec!["BTC/USD".to_string(), "ETH/USD".to_string()]));
    assert_eq!(hub.dispatch(&trade_of("ETH/USD")), vec![SinkId(2)]);
    assert_eq!(hub.dispatch(&trade_of("DOGE/USD")), vec![]);
    let control = MarketEvent::control(Timestamp(1), SeqNo(0), ControlKind::SessionClosing);
    assert_eq!(hub.dispatch(&control), vec![SinkId(1), SinkId(2)]);
}

#[test]
fn hub_takes_a_refused_pair_back_out() {
    let mut hub = HubTask::new(ReconnectPolicy::default());
    let btc = pair("BTC/USD", EventKind::Quote);
    hub.subscribe(&btc, SinkId(1));
    let answer = hub.subscribe_answered(&btc, Some("no such pair"), Timestamp(5));
    assert_eq!(
        answer.reply,
        Err(Error::Provider {
            provider: "alpaca-crypto".to_string(),
            message: "add_subscriptions: no such pair".to_string(),
        })
    );
    assert!(answer.notify.is_none());
    assert!(hub.audience().is_empty());
    assert_eq!(hub.subs, CryptoSubscriptionList::new());
}

#[test]
fn hub_keeps_the_route_of_a_refused_removal() {
    let mut hub = HubTask::new(ReconnectPolicy::default());
    let btc = pair("BTC/USD", EventKind::Quote);
    hub.subscribe(&btc, SinkId(1));
    let removal = hub.unsubscribe(&btc);
    assert_eq!(removal.quotes, Some(vec!["BTC/USD".to_string()]));
    assert_eq!(hub.subs.quotes, None);
    let answer = hub.unsubscribe_answered(&btc, Some("busy"), Timestamp(5));
    assert!(answer.reply.is_err());
    assert_eq!(hub.subs.quotes, Some(vec!["BTC/USD".to_string()]));
    assert_eq!(hub.audience(), vec![SinkId(1)]);
    hub.unsubscribe(&btc);
    let answer = hub.unsubscribe_answered(&btc, None, Timestamp(6));
    assert!(answer.reply.is_ok());
    match answer.notify {
        Some((SinkId(1), MarketEvent::Control(c))) => assert_eq!(
            c.kind,
            ControlKind::SubscriptionChanged {
                provider: "alpaca-crypto".to_string(),
                instrument: provider_instrument("BTC/USD"),
                kind: EventKind::Quote,
                active: false,
            }
        ),
        other => panic!("expected a notice, got {other:?}"),
    }
    assert!(hub.audience().is_empty());
}

#[test]
fn hub_backs_off_and_resubscribes() {
    let mut hub = HubTask::new(ReconnectPolicy::default());
    hub.subscribe(&pair("BTC/USD", EventKind::Trade), SinkId(1));
    assert_eq!(hub.connect_failed("refused", Timestamp(1)).delay_ms, 500);
    let loss = hub.websocket_failed("reset", Timestamp(2));
    assert_eq!(loss.delay_ms, 1000);
    match loss.event {
        MarketEvent::Control(Control {
            kind: ControlKind::ProviderDisconnected { reason, .. },
            ..
        }) => assert_eq!(reason, "websocket: reset"),
        other => panic!("expected a disconnect, got {other:?}"),
    }
    let up = hub.connected(Timestamp(3));
    assert_eq!(up.resubscribe.unwrap().trades, Some(vec!["BTC/USD".to_string()]));
    assert_eq!(hub.connect_failed("refused", Timestamp(4)).delay_ms, 500);
}

#[test]
fn crypto_list_mutations_are_undone() {
    let mut list = CryptoSubscriptionList::new();
    let btc = provider_instrument("BTC/USD");
    apply_pair_to_list(&mut list, &btc, EventKind::Bar(BarInterval::OneDay), true);
    assert_eq!(list.daily_bars, Some(vec!["BTC/USD".to_string()]));
    apply_pair_to_list(&mut list, &btc, EventKind::Bar(BarInterval::OneDay), false);
    assert_eq!(list, CryptoSubscriptionList::new());
}

#[test]
fn shared_handle_gives_up_its_pair_once() {
    let mut handle = SharedLiveHandle::new();
    handle.on_subscribed(pair("BTC/USD", EventKind::Trade));
    handle.on_unsubscribed(&pair("BTC/USD", EventKind::Quote));
    assert_eq!(handle.on_close(), Some(pair("BTC/USD", EventKind::Trade)));
    assert_eq!(handle.on_close(), None);
    handle.on_subscribed(pair("BTC/USD", EventKind::Trade));
    handle.on_unsubscribed(&pair("BTC/USD", EventKind::Trade));
    assert_eq!(handle.on_close(), None);
}
