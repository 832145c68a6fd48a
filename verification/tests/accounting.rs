use datamancer::accounting::{ConnectionState, ProviderAccounting};
use datamancer::event::{
    AssetClass, Control, ControlKind, DisconnectCause, GapSpan, Instrument, MarketEvent, Price,
    ProviderId, Quantity, SeqNo, Timestamp, Trade,
};

fn trade() -> MarketEvent {
    MarketEvent::Trade(Trade {
        instrument: Instrument::new(ProviderId::from_static("p"), AssetClass::Equity, "X"),
        source_ts: Timestamp(1),
        rx_ts: Timestamp(2),
        seq: SeqNo(0),
        price: Price::from_raw(1_000_000_000),
        size: Quantity::from_units(1),
    })
}

fn control(kind: ControlKind) -> MarketEvent {
    MarketEvent::Control(Control {
        source_ts: Timestamp(0),
        rx_ts: Timestamp(0),
        seq: SeqNo(0),
        kind,
    })
}

#[test]
fn cold_counters_increment() {
    let mut a = ProviderAccounting::default();
    a.record_history_fetch();
    a.record_history_fetch();
    a.record_history_fetch_coalesced();
    a.record_live_start();
    a.record_subscribe();
    a.record_unsubscribe();
    assert_eq!(a.history_fetches(), 2);
    assert_eq!(a.history_fetch_coalesced(), 1);
    assert_eq!(a.live_starts(), 1);
    assert_eq!(a.subscribes(), 1);
    assert_eq!(a.unsubscribes(), 1);
}

#[test]
fn messages_count_only_when_live() {
    let mut a = ProviderAccounting::default();
    a.record_forwarded(&trade(), false);
    a.record_forwarded(&trade(), true);
    assert_eq!(a.messages(), 1);
}

#[test]
fn connection_and_reconnect_from_control() {
    let mut a = ProviderAccounting::default();
    assert_eq!(a.connection_state(), ConnectionState::Unknown);
    a.record_forwarded(
        &control(ControlKind::ProviderConnected { provider: "p".to_string() }),
        true,
    );
    assert_eq!(a.connection_state(), ConnectionState::Connected);
    assert_eq!(a.reconnects(), 0);
    a.record_forwarded(
        &control(ControlKind::ProviderDisconnected {
            provider: "p".to_string(),
            reason: "x".to_string(),
            cause: DisconnectCause::Error,
        }),
        true,
    );
    assert_eq!(a.connection_state(), ConnectionState::Disconnected);
    a.record_forwarded(
        &control(ControlKind::ProviderConnected { provider: "p".to_string() }),
        true,
    );
    assert_eq!(a.connection_state(), ConnectionState::Connected);
    assert_eq!(a.reconnects(), 1);
}

#[test]
fn gaps_and_last_error_from_control() {
    let mut a = ProviderAccounting::default();
    a.record_forwarded(
        &control(ControlKind::Gap {
            provider: "p".to_string(),
            instrument: Instrument::new(ProviderId::from_static("p"), AssetClass::Equity, "X"),
            span: GapSpan { from_source_ts: Timestamp(1), to_source_ts: Timestamp(2) },
        }),
        true,
    );
    assert_eq!(a.gaps_emitted(), 1);
    assert_eq!(a.last_error(), None);
    a.record_forwarded(
        &control(ControlKind::ProviderError {
            provider: "p".to_string(),
            message: "boom".to_string(),
        }),
        true,
    );
    assert_eq!(a.last_error(), Some("boom".to_string()));
}

#[test]
fn session_level_controls_leave_the_counters_alone() {
    let mut a = ProviderAccounting::default();
    a.record_forwarded(&control(ControlKind::SessionClosing), true);
    assert_eq!(a.messages(), 0);
    assert_eq!(a.gaps_emitted(), 0);
    assert_eq!(a.reconnects(), 0);
    assert_eq!(a.connection_state(), ConnectionState::Unknown);
}

#[test]
fn a_mixed_feed_counts_each_kind_apart() {
    let connected = || control(ControlKind::ProviderConnected { provider: "p".to_string() });
    let gap = control(ControlKind::Gap {
        provider: "p".to_string(),
        instrument: Instrument::new(ProviderId::from_static("p"), AssetClass::Equity, "X"),
        span: GapSpan { from_source_ts: Timestamp(1), to_source_ts: Timestamp(2) },
    });
    let mut a = ProviderAccounting::default();
    for (ev, live) in [
        (trade(), true),
        (connected(), true),
        (trade(), false),
        (gap, false),
        (connected(), false),
        (trade(), true),
        (connected(), true),
    ] {
        a.record_forwarded(&ev, live);
    }
    assert_eq!(a.messages(), 2);
    assert_eq!(a.gaps_emitted(), 1);
    assert_eq!(a.reconnects(), 2);
    assert_eq!(a.connection_state(), ConnectionState::Connected);
    assert_eq!(a.last_error(), None);
}
