use chrono::{DateTime, Utc};
use datamancer::event::{
    Adjustment, AssetClass, BarInterval, Control, ControlKind, EventKind, MarketEvent, Price,
    Quantity, Timestamp,
};
use datamancer::providers::alpaca::catalog::{
    assets_to_entries, AlpacaAssetClass, Asset, OrderType, TimeInForce,
};
use datamancer::providers::alpaca::config::{
    provider_instrument, rest_access, snapshot_feed, AccountType, AlpacaProvider,
    AlpacaProviderConfig, AlpacaSettings, AlpacaStreamFeed, RestAccess, RestFeed, PROVIDER_ID,
};
use datamancer::providers::alpaca::history::{
    bar_events, map_adjustment, plan_history, snapshot_to_event, trade_events, AlpacaAdjustment,
    HistoryCall, RestBar, RestQuote, RestTrade, StockSnapshot, TimeFrame,
};
use datamancer::providers::alpaca::list::{apply_pair_to_list, is_empty, StockSubscriptionList};
use datamancer::providers::alpaca::messages::{
    translate_stock_message, StockBar, StockQuoteEvent, StockStreamMessage, StockTradeEvent,
    StreamError,
};
use datamancer::providers::clock::UtcInstant;
use datamancer::providers::credentials::{AlpacaCredentials, CredentialsSource, Resolved};
use datamancer::providers::runtime::SettingsSource;
use datamancer::request::HistoryRequest;
use datamancer::error::Error;
use oxidized_alpaca::restful::market_data::stock::snapshots::StockSnapshot as WireSnapshot;
use oxidized_alpaca::restful::market_data::stock::Bar as WireRestBar;
use oxidized_alpaca::restful::trading::assets::Asset as WireAsset;
use oxidized_alpaca::streaming::messages::stock::StockBar as WireBar;
use oxidized_alpaca::streaming::StockStreamMessage as WireMessage;

fn price(value: f64) -> Price {
    Price::from_raw((value * 1e9).round() as i64)
}

fn quantity(value: f64) -> Quantity {
    Quantity::from_raw((value * 1e9).round() as u64)
}

fn instant(at: DateTime<Utc>) -> UtcInstant {
    UtcInstant { secs: at.timestamp(), nanos: at.timestamp_subsec_nanos() }
}

fn stream_bar(b: WireBar) -> StockBar {
    StockBar {
        symbol: b.symbol,
        timestamp: instant(b.timestamp),
        open: price(b.open),
        high: price(b.high),
        low: price(b.low),
        close: price(b.close),
        volume: b.volume,
    }
}

fn message(json: &str) -> StockStreamMessage {
    let msg: WireMessage = serde_json::from_str(json).unwrap();
    match msg {
        WireMessage::Trade(t) => StockStreamMessage::Trade(StockTradeEvent {
            symbol: t.symbol,
            timestamp: instant(t.timestamp),
            price: price(t.price),
            size: quantity(t.size),
        }),
        WireMessage::Quote(q) => StockStreamMessage::Quote(StockQuoteEvent {
            symbol: q.symbol,
            timestamp: instant(q.timestamp),
            bid_price: price(q.bid_price),
            bid_size: quantity(q.bid_size),
            ask_price: price(q.ask_price),
            ask_size: quantity(q.ask_size),
        }),
        WireMessage::Bar(b) => StockStreamMessage::Bar(stream_bar(b)),
        WireMessage::DailyBar(b) => StockStreamMessage::DailyBar(stream_bar(b)),
        WireMessage::UpdatedBar(b) => StockStreamMessage::UpdatedBar(stream_bar(b)),
        WireMessage::Error(e) => StockStreamMessage::Error(StreamError {
            code: format!("{:?}", e.code),
            message: e.message,
        }),
        _ => StockStreamMessage::Other,
    }
}

fn rest_bar(b: &WireRestBar) -> RestBar {
    RestBar {
        time: instant(b.time),
        open: price(b.open),
        high: price(b.high),
        low: price(b.low),
        close: price(b.close),
        volume: b.volume,
    }
}

fn snapshot(json: &str) -> StockSnapshot {
    let snap: WireSnapshot = serde_json::from_str(json).unwrap();
    StockSnapshot {
        latest_trade: snap.latest_trade.as_ref().map(|t| RestTrade {
            timestamp: instant(t.timestamp),
            price: price(t.price),
            size: t.size,
        }),
        latest_quote: snap.latest_quote.as_ref().map(|q| RestQuote {
            timestamp: instant(q.timestamp),
            bid_price: price(q.bid_price),
            bid_size: q.bid_size,
            ask_price: price(q.ask_price),
            ask_size: q.ask_size,
        }),
        minute_bar: snap.minute_bar.as_ref().map(rest_bar),
        daily_bar: snap.daily_bar.as_ref().map(rest_bar),
    }
}

fn assets(json: &str) -> Vec<Asset> {
    let rows: Vec<WireAsset> = serde_json::from_str(json).expect("parse fixture");
    rows.iter()
        .map(|a| Asset {
            class: match a.class {
                oxidized_alpaca::AssetClass::UsEquity => AlpacaAssetClass::UsEquity,
                _ => AlpacaAssetClass::Other,
            },
            symbol: a.symbol.clone(),
            tradable: a.tradable,
            fractionable: a.fractionable,
        })
        .collect()
}

#[test]
fn snapshot_feed_mirrors_stream_feed() {
    assert_eq!(snapshot_feed(AlpacaStreamFeed::Iex), Some(RestFeed::IEX));
    assert_eq!(snapshot_feed(AlpacaStreamFeed::Sip), Some(RestFeed::SIP));
    assert_eq!(snapshot_feed(AlpacaStreamFeed::DelayedSip), Some(RestFeed::DelayedSip));
    assert_eq!(snapshot_feed(AlpacaStreamFeed::Test), None);
}

#[test]
fn snapshot_maps_kind_to_event() {
    let json = r#"{
        "latestTrade": {"t":"2024-01-02T15:00:00Z","x":"V","p":187.5,"s":10,"c":[],"z":"C"},
        "latestQuote": {"t":"2024-01-02T15:00:00Z","bx":"V","bp":187.4,"bs":3,"ax":"V","ap":187.6,"as":4,"c":[],"z":"C"},
        "minuteBar": {"t":"2024-01-02T15:00:00Z","o":187.0,"c":187.5,"h":188.0,"l":186.5,"v":1000,"n":50,"vw":187.3},
        "dailyBar": {"t":"2024-01-02T00:00:00Z","o":185.0,"c":187.5,"h":189.0,"l":184.0,"v":900000,"n":5000,"vw":186.9},
        "prevDailyBar": null
    }"#;
    let snap = snapshot(json);
    let inst = provider_instrument("AAPL");
    let rx = Timestamp(42);

    assert!(matches!(
        snapshot_to_event(&snap, &inst, EventKind::Trade, rx),
        Some(MarketEvent::Trade(_))
    ));
    assert!(matches!(
        snapshot_to_event(&snap, &inst, EventKind::Quote, rx),
        Some(MarketEvent::Quote(_))
    ));
    assert!(matches!(
        snapshot_to_event(&snap, &inst, EventKind::Bar(BarInterval::OneMinute), rx),
        Some(MarketEvent::Bar(_))
    ));
    assert!(matches!(
        snapshot_to_event(&snap, &inst, EventKind::Bar(BarInterval::OneDay), rx),
        Some(MarketEvent::Bar(_))
    ));
    assert!(
        snapshot_to_event(&snap, &inst, EventKind::Bar(BarInterval::FiveMinute), rx).is_none()
    );
}

#[test]
fn snapshot_events_carry_their_values() {
    let json = r#"{
        "latestTrade": {"t":"2024-01-02T15:00:00Z","x":"V","p":187.5,"s":10,"c":[],"z":"C"},
        "latestQuote": null,
        "minuteBar": null,
        "dailyBar": {"t":"2024-01-02T00:00:00Z","o":185.0,"c":187.5,"h":189.0,"l":184.0,"v":900000,"n":5000,"vw":186.9},
        "prevDailyBar": null
    }"#;
    let snap = snapshot(json);
    let inst = provider_instrument("AAPL");
    match snapshot_to_event(&snap, &inst, EventKind::Trade, Timestamp(42)) {
        Some(MarketEvent::Trade(t)) => {
            assert_eq!(t.source_ts, Timestamp(1_704_207_600_000_000_000));
            assert_eq!(t.rx_ts, Timestamp(42));
            assert_eq!(t.price.raw(), 187_500_000_000);
            assert_eq!(t.size.raw(), 10_000_000_000);
        }
        other => panic!("expected Trade, got {other:?}"),
    }
    assert!(snapshot_to_event(&snap, &inst, EventKind::Quote, Timestamp(42)).is_none());
    match snapshot_to_event(&snap, &inst, EventKind::Bar(BarInterval::OneDay), Timestamp(42)) {
        Some(MarketEvent::Bar(b)) => {
            assert_eq!(b.interval, BarInterval::OneDay);
            assert_eq!(b.volume.raw(), 900_000_000_000_000);
            assert_eq!(b.low.raw(), 184_000_000_000);
        }
        other => panic!("expected Bar, got {other:?}"),
    }
}

#[test]
fn translates_trade_message() {
    let json = r#"{"T":"t","S":"AAPL","i":12345,"x":"V","p":150.10,"s":100,"c":["@"],"t":"2024-01-02T15:30:00.123456789Z","z":"C"}"#;
    let events = translate_stock_message(message(json), Timestamp(1));
    assert_eq!(events.len(), 1);
    match &events[0] {
        MarketEvent::Trade(t) => {
            assert_eq!(t.instrument.symbol(), "AAPL");
            assert_eq!(t.size, Quantity::from_units(100));
            assert_eq!(t.price, price(150.10));
            assert_eq!(t.source_ts.0, 1_704_209_400_123_456_789);
        }
        other => panic!("expected Trade, got {other:?}"),
    }
}

#[test]
fn translates_quote_message() {
    let json = r#"{"T":"q","S":"MSFT","ax":"V","ap":420.10,"as":3,"bx":"V","bp":420.05,"bs":2,"c":["R"],"t":"2024-01-02T15:30:00Z","z":"C"}"#;
    let events = translate_stock_message(message(json), Timestamp(1));
    assert_eq!(events.len(), 1);
    match &events[0] {
        MarketEvent::Quote(q) => {
            assert_eq!(q.instrument.symbol(), "MSFT");
            assert_eq!(q.bid, price(420.05));
            assert_eq!(q.ask, price(420.10));
            assert_eq!(q.bid_size, Quantity::from_units(2));
            assert_eq!(q.ask_size, Quantity::from_units(3));
        }
        other => panic!("expected Quote, got {other:?}"),
    }
}

#[test]
fn translates_minute_bar() {
    let json = r#"{"T":"b","S":"AAPL","o":150.0,"h":151.0,"l":149.5,"c":150.5,"v":12345,"vw":150.25,"n":42,"t":"2024-01-02T15:30:00Z"}"#;
    let events = translate_stock_message(message(json), Timestamp(1));
    assert_eq!(events.len(), 1);
    match &events[0] {
        MarketEvent::Bar(b) => {
            assert_eq!(b.instrument.symbol(), "AAPL");
            assert_eq!(b.interval, BarInterval::OneMinute);
            assert_eq!(b.volume, Quantity::from_units(12345));
        }
        other => panic!("expected Bar, got {other:?}"),
    }
}

#[test]
fn translates_daily_bar() {
    let json = r#"{"T":"d","S":"AAPL","o":150.0,"h":151.0,"l":149.5,"c":150.5,"v":12345,"t":"2024-01-02T00:00:00Z"}"#;
    let events = translate_stock_message(message(json), Timestamp(1));
    match &events[0] {
        MarketEvent::Bar(b) => assert_eq!(b.interval, BarInterval::OneDay),
        other => panic!("expected Bar, got {other:?}"),
    }
}

#[test]
fn translates_error_to_provider_error_control() {
    let json = r#"{"T":"error","code":400,"msg":"invalid"}"#;
    let events = translate_stock_message(message(json), Timestamp(1));
    assert_eq!(events.len(), 1);
    match &events[0] {
        MarketEvent::Control(Control {
            kind: ControlKind::ProviderError { provider, message },
            ..
        }) => {
            assert_eq!(provider, PROVIDER_ID);
            assert!(message.contains("invalid"), "msg={message:?}");
            assert_eq!(message, "InvalidSyntax: invalid");
        }
        other => panic!("expected ProviderError control, got {other:?}"),
    }
}

#[test]
fn corrected_minutes_are_minute_bars_and_envelopes_are_silent() {
    let updated = r#"{"T":"u","S":"AAPL","o":1.0,"h":1.0,"l":1.0,"c":1.0,"v":-5,"t":"2024-01-02T15:30:00Z"}"#;
    match &translate_stock_message(message(updated), Timestamp(1))[0] {
        MarketEvent::Bar(b) => {
            assert_eq!(b.interval, BarInterval::OneMinute);
            assert_eq!(b.volume.raw(), 0);
        }
        other => panic!("expected Bar, got {other:?}"),
    }
    let control = r#"{"T":"success","msg":"connected"}"#;
    assert!(translate_stock_message(message(control), Timestamp(1)).is_empty());
}

#[test]
fn subscription_list_apply_add_remove() {
    let mut list = StockSubscriptionList::new();
    let aapl = provider_instrument("AAPL");
    apply_pair_to_list(&mut list, &aapl, EventKind::Trade, true);
    apply_pair_to_list(&mut list, &aapl, EventKind::Bar(BarInterval::OneMinute), true);
    assert_eq!(list.trades.as_deref(), Some(&["AAPL".to_string()][..]));
    assert_eq!(list.bars.as_deref(), Some(&["AAPL".to_string()][..]));
    apply_pair_to_list(&mut list, &aapl, EventKind::Trade, false);
    apply_pair_to_list(&mut list, &aapl, EventKind::Bar(BarInterval::OneMinute), false);
    assert!(list.trades.is_none());
    assert!(list.bars.is_none());
}

#[test]
fn repeated_mutations_keep_one_symbol_and_others() {
    let mut list = StockSubscriptionList::new();
    let aapl = provider_instrument("AAPL");
    let msft = provider_instrument("MSFT");
    assert!(is_empty(&list));
    apply_pair_to_list(&mut list, &aapl, EventKind::Quote, true);
    apply_pair_to_list(&mut list, &msft, EventKind::Quote, true);
    apply_pair_to_list(&mut list, &aapl, EventKind::Quote, true);
    assert_eq!(list.quotes.as_deref(), Some(&["AAPL".to_string(), "MSFT".to_string()][..]));
    apply_pair_to_list(&mut list, &aapl, EventKind::Quote, false);
    assert_eq!(list.quotes.as_deref(), Some(&["MSFT".to_string()][..]));
    // Intervals without a channel change nothing.
    apply_pair_to_list(&mut list, &aapl, EventKind::Bar(BarInterval::FiveMinute), true);
    assert_eq!(list.bars, None);
    assert!(!is_empty(&list));
}

#[test]
fn maps_core_adjustment_to_alpaca_adjustment() {
    assert_eq!(map_adjustment(Adjustment::Raw), AlpacaAdjustment::Raw);
    assert_eq!(map_adjustment(Adjustment::Split), AlpacaAdjustment::Split);
    assert_eq!(map_adjustment(Adjustment::Dividend), AlpacaAdjustment::Dividend);
    assert_eq!(map_adjustment(Adjustment::SpinOff), AlpacaAdjustment::SpinOff);
    assert_eq!(map_adjustment(Adjustment::All), AlpacaAdjustment::All);
}

#[test]
fn alpaca_provider_supports_kinds() {
    let p = AlpacaProvider::new(AlpacaProviderConfig::default());
    let inst = provider_instrument("AAPL");
    assert!(p.supports(&inst, EventKind::Trade));
    assert!(p.supports(&inst, EventKind::Quote));
    assert!(p.supports(&inst, EventKind::Bar(BarInterval::OneMinute)));
    assert!(p.supports(&inst, EventKind::Bar(BarInterval::OneDay)));
    assert!(!p.supports(&inst, EventKind::Bar(BarInterval::FiveMinute)));
}

#[test]
fn settings_source_default_is_enabled_paper() {
    let cfg = AlpacaProviderConfig::default();
    assert_eq!(
        cfg.settings.current(),
        Some(AlpacaSettings { account_type: AccountType::Paper })
    );
}

#[test]
fn assets_to_entries_filters_and_maps() {
    let json = r#"[
        {
            "id":"1","class":"us_equity","exchange":"NASDAQ","symbol":"AAPL",
            "name":"Apple Inc.","status":"active","tradable":true,
            "marginable":true,"shortable":true,"easy_to_borrow":true,
            "fractionable":true,"attributes":[]
        },
        {
            "id":"2","class":"us_equity","exchange":"NYSE","symbol":"GE",
            "name":"General Electric","status":"active","tradable":false,
            "marginable":false,"shortable":false,"easy_to_borrow":false,
            "fractionable":false,"attributes":[]
        },
        {
            "id":"3","class":"us_option","exchange":"AMEX","symbol":"AAPL250117C00150000",
            "name":"AAPL 2025 Call","status":"active","tradable":true,
            "marginable":false,"shortable":false,"easy_to_borrow":false,
            "fractionable":false,"attributes":[]
        },
        {
            "id":"4","class":"us_equity","exchange":"NYSEARCA","symbol":"SPY",
            "name":"SPDR S&P 500 ETF","status":"active","tradable":true,
            "marginable":true,"shortable":true,"easy_to_borrow":true,
            "fractionable":true,"attributes":["etp"]
        }
    ]"#;
    let entries = assets_to_entries(&assets(json));
    let symbols: Vec<&str> = entries.iter().map(|e| e.instrument.symbol()).collect();
    assert_eq!(symbols, vec!["AAPL", "SPY"]);
    for e in &entries {
        assert_eq!(e.instrument.provider().as_str(), PROVIDER_ID);
        assert_eq!(e.instrument.asset_class(), AssetClass::Equity);
    }
}

#[test]
fn assets_to_entries_maps_fractional_flag_and_policy() {
    let json = r#"[
        {
            "id":"1","class":"us_equity","exchange":"NASDAQ","symbol":"AAPL",
            "name":"Apple Inc.","status":"active","tradable":true,
            "marginable":true,"shortable":true,"easy_to_borrow":true,
            "fractionable":true,"attributes":[]
        },
        {
            "id":"2","class":"us_equity","exchange":"NYSE","symbol":"GE",
            "name":"General Electric","status":"active","tradable":true,
            "marginable":false,"shortable":false,"easy_to_borrow":false,
            "fractionable":false,"attributes":[]
        }
    ]"#;
    let entries = assets_to_entries(&assets(json));
    let frac = entries.iter().find(|e| e.instrument.symbol() == "AAPL").unwrap();
    let caps = frac.capabilities.as_ref().unwrap();
    assert_eq!(caps.fractionable, Some(true));
    assert_eq!(caps.supports_notional_orders, Some(true));
    assert_eq!(caps.allowed_tif.as_deref(), Some(&[TimeInForce::Day][..]));
    assert!(caps.min_qty.is_none());
    assert_eq!(
        caps.allowed_order_types.as_deref(),
        Some(&[OrderType::Market, OrderType::Limit, OrderType::Stop, OrderType::StopLimit][..])
    );

    let non_frac = entries.iter().find(|e| e.instrument.symbol() == "GE").unwrap();
    let non_frac_caps = non_frac.capabilities.as_ref().unwrap();
    assert_eq!(non_frac_caps.fractionable, Some(false));
}

fn request(kind: EventKind) -> HistoryRequest {
    HistoryRequest {
        instrument: provider_instrument("AAPL"),
        kind,
        from: Timestamp(-1),
        to: Timestamp(1_500_000_000),
        adjustment: Adjustment::SpinOff,
    }
}

#[test]
fn history_requests_become_rest_calls() {
    match plan_history(&request(EventKind::Trade)) {
        Ok(HistoryCall::Trades { symbol, start, end }) => {
            assert_eq!(symbol, "AAPL");
            assert_eq!(start, UtcInstant { secs: -1, nanos: 999_999_999 });
            assert_eq!(end, UtcInstant { secs: 1, nanos: 500_000_000 });
        }
        other => panic!("expected trades, got {other:?}"),
    }
    match plan_history(&request(EventKind::Bar(BarInterval::FiveMinute))) {
        Ok(HistoryCall::Bars { time_frame, adjustment, interval, .. }) => {
            assert_eq!(time_frame, TimeFrame::FiveMinutes);
            assert_eq!(adjustment, AlpacaAdjustment::SpinOff);
            assert_eq!(interval, BarInterval::FiveMinute);
        }
        other => panic!("expected bars, got {other:?}"),
    }
}

#[test]
fn history_refuses_quotes_and_seconds() {
    match plan_history(&request(EventKind::Quote)) {
        Err(Error::Provider { provider, message }) => {
            assert_eq!(provider, "alpaca");
            assert_eq!(message, "historical quotes not yet wired through fetch_history");
        }
        other => panic!("expected a provider error, got {other:?}"),
    }
    assert_eq!(
        plan_history(&request(EventKind::Bar(BarInterval::OneSecond))).unwrap_err(),
        Error::UnsupportedEventKind {
            kind: EventKind::Bar(BarInterval::OneSecond),
            instrument: provider_instrument("AAPL"),
        }
    );
}

#[test]
fn fetched_rows_become_events_in_order() {
    let inst = provider_instrument("AAPL");
    let at = |secs: i64| UtcInstant { secs, nanos: 7 };
    let rows = vec![
        RestTrade { timestamp: at(2), price: Price::from_raw(5), size: 3 },
        RestTrade { timestamp: at(1), price: Price::from_raw(6), size: 4 },
    ];
    let events = trade_events(&rows, &inst, Timestamp(9));
    let got: Vec<(i64, u64)> = events
        .iter()
        .map(|e| match e {
            MarketEvent::Trade(t) => (t.source_ts.0, t.size.raw()),
            other => panic!("expected Trade, got {other:?}"),
        })
        .collect();
    assert_eq!(got, vec![(2_000_000_007, 3_000_000_000), (1_000_000_007, 4_000_000_000)]);

    let bars = vec![RestBar {
        time: at(3),
        open: Price::from_raw(1),
        high: Price::from_raw(4),
        low: Price::from_raw(0),
        close: Price::from_raw(2),
        volume: 11,
    }];
    match &bar_events(&bars, &inst, BarInterval::OneHour, Timestamp(9))[0] {
        MarketEvent::Bar(b) => {
            assert_eq!(b.interval, BarInterval::OneHour);
            assert_eq!(b.volume.raw(), 11_000_000_000);
            assert_eq!((b.open.raw(), b.high.raw(), b.low.raw(), b.close.raw()), (1, 4, 0, 2));
        }
        other => panic!("expected Bar, got {other:?}"),
    }
}

#[test]
fn rest_needs_settings_and_credentials() {
    let settings = Some(AlpacaSettings { account_type: AccountType::Live });
    let creds = AlpacaCredentials { key_id: "k".to_string(), secret: "s".to_string() };
    assert!(matches!(rest_access(None, Resolved::Env), RestAccess::Unavailable));
    assert!(matches!(rest_access(settings, Resolved::Missing), RestAccess::Unavailable));
    assert!(matches!(
        rest_access(settings, Resolved::Env),
        RestAccess::FromEnv(AccountType::Live)
    ));
    match rest_access(settings, Resolved::Creds(creds)) {
        RestAccess::WithCredentials(AccountType::Live, c) => assert_eq!(c.key_id, "k"),
        _ => panic!("expected credentials"),
    }
}

#[test]
fn stale_rest_clients_are_noticed_once() {
    let (settings_tx, settings_rx) = tokio::sync::watch::channel(None);
    let (cred_tx, cred_rx) = tokio::sync::watch::channel(None);
    let mut p = AlpacaProvider::new(AlpacaProviderConfig {
        settings: SettingsSource::Watch(settings_rx),
        credentials: CredentialsSource::Watch(cred_rx),
        ..AlpacaProviderConfig::default()
    });
    assert!(!p.enabled());
    assert!(!AlpacaProvider::enabled_with(&None));
    assert!(AlpacaProvider::enabled_with(&Some(AlpacaSettings {
        account_type: AccountType::Paper,
    })));
    assert!(!p.rest_stale());
    settings_tx.send(Some(AlpacaSettings { account_type: AccountType::Live })).unwrap();
    cred_tx
        .send(Some(AlpacaCredentials { key_id: "k".to_string(), secret: "s".to_string() }))
        .unwrap();
    assert!(p.enabled());
    assert!(p.rest_stale());
    assert!(!p.rest_stale());
    // A source that is gone counts as changed once more.
    drop(cred_tx);
    assert!(p.rest_stale());
    assert!(!p.rest_stale());
    settings_tx.send(None).unwrap();
    assert!(p.rest_stale());
    assert!(!p.enabled());
}

#[test]
fn rest_calls_need_their_client() {
    let p = AlpacaProvider::new(AlpacaProviderConfig::default());
    let refused = |message: &str| Error::Provider {
        provider: "alpaca".to_string(),
        message: message.to_string(),
    };
    let no_rest = "REST client not initialized (Alpaca credentials missing?)";
    assert_eq!(p.latest(true), Ok(Some(RestFeed::IEX)));
    assert_eq!(p.latest(false), Err(refused(no_rest)));
    match p.fetch_history(&request(EventKind::Quote), false) {
        Err(e) => assert_eq!(e, refused(no_rest)),
        Ok(_) => panic!("expected a refusal"),
    }
    assert!(p.fetch_history(&request(EventKind::Trade), true).is_ok());
    assert_eq!(p.list_instruments(true), Ok(()));
    assert_eq!(
        p.list_instruments(false),
        Err(refused("Trading client not initialized (Alpaca credentials missing?)"))
    );
    let test_feed = AlpacaProvider::new(AlpacaProviderConfig {
        stream_feed: AlpacaStreamFeed::Test,
        ..AlpacaProviderConfig::default()
    });
    assert_eq!(test_feed.latest(false), Ok(None));
}
