use datamancer::client::controller::{
    ClientAction, ClientCommand, ClientController, ClientSink, ConnState, Outgoing,
};
use datamancer::client::session::{answered, reported, ClientSession};
use datamancer::client::stats::ClientSessionId;
use datamancer::error::Error;
use datamancer::event::{
    AssetClass, ControlKind, DisconnectCause, EventKind, GapSpan, Instrument, MarketEvent, Price,
    ProviderId, Quantity, SeqNo, Timestamp, Trade,
};
use datamancer::session::options::{PersistenceOptions, Scope};
use datamancer::table::Pair;

const NOW: Timestamp = Timestamp(50);

fn inst(symbol: &str) -> Instrument {
    Instrument::new(ProviderId::from_static("p"), AssetClass::Equity, symbol)
}

fn pair(symbol: &str) -> Pair {
    Pair { instrument: inst(symbol), kind: EventKind::Trade }
}

fn trade(symbol: &str, ts: i64, seq: u64) -> MarketEvent {
    MarketEvent::Trade(Trade {
        instrument: inst(symbol),
        source_ts: Timestamp(ts),
        rx_ts: Timestamp(ts),
        seq: SeqNo(seq),
        price: Price::from_raw(1),
        size: Quantity::from_raw(1),
    })
}

fn control(kind: ControlKind) -> MarketEvent {
    MarketEvent::control(NOW, SeqNo(0), kind)
}

fn client() -> ClientController {
    let mut c = ClientController::new(ClientSessionId(1), 2, None);
    c.subscribed(pair("AAPL"), "p".to_string());
    c
}

fn out(symbol: &str, ts: i64, seq: u64) -> Outgoing {
    Outgoing { event: trade(symbol, ts, seq), provider: "p".to_string() }
}

#[test]
fn handle_asks_and_reads_answers() {
    let s = ClientSession::new(ClientSessionId(9));
    assert_eq!(s.id(), ClientSessionId(9));
    match s.subscribe(
        inst("AAPL"),
        EventKind::Trade,
        Scope::Live { backfill_from: None },
        PersistenceOptions::none(),
    ) {
        ClientCommand::Subscribe { pair: p, .. } => assert_eq!(p, pair("AAPL")),
        other => panic!("expected a subscription, got {other:?}"),
    }
    assert!(matches!(
        s.unsubscribe(inst("AAPL"), EventKind::Trade),
        ClientCommand::Unsubscribe { .. }
    ));
    assert!(matches!(s.take_events(), ClientCommand::Take));
    assert!(matches!(s.subscriptions(), ClientCommand::Subscriptions));
    assert!(matches!(s.close(), ClientCommand::Close));
    assert_eq!(answered::<u8>(None), Err(Error::SessionClosed));
    assert_eq!(answered(Some(Ok(3))), Ok(3));
    assert!(reported(None).is_empty());
    assert_eq!(reported(Some(vec![(inst("A"), EventKind::Quote)])).len(), 1);
}

#[test]
fn subscriptions_are_pure_live_and_unique() {
    let mut c = client();
    let live = Scope::Live { backfill_from: None };
    let ask = |symbol: &str, scope: Scope| ClientCommand::Subscribe {
        pair: pair(symbol),
        scope,
        options: PersistenceOptions::none(),
    };
    match c.handle_command(ask("AAPL", live), false, NOW) {
        ClientAction::Refuse(e) => assert_eq!(
            e,
            Error::DuplicateSubscription { instrument: inst("AAPL"), kind: EventKind::Trade }
        ),
        other => panic!("expected a refusal, got {other:?}"),
    }
    let stitched = Scope::Live { backfill_from: Some(Timestamp(0)) };
    match c.handle_command(ask("MSFT", stitched), false, NOW) {
        ClientAction::Refuse(e) => assert_eq!(e, Error::UnsupportedClientScope),
        other => panic!("expected a refusal, got {other:?}"),
    }
    assert!(matches!(
        c.handle_command(ask("MSFT", live), false, NOW),
        ClientAction::OpenSession { .. }
    ));
    c.subscribed(pair("MSFT"), "p".to_string());
    match c.handle_command(ClientCommand::Subscriptions, false, NOW) {
        ClientAction::Report(subs) => assert_eq!(
            subs,
            vec![(inst("AAPL"), EventKind::Trade), (inst("MSFT"), EventKind::Trade)]
        ),
        other => panic!("expected the set, got {other:?}"),
    }
    assert_eq!(c.stats.subscription_refs().len(), 2);
}

#[test]
fn unsubscribing_is_announced_outside_the_order() {
    let mut c = client();
    match c.handle_command(ClientCommand::Unsubscribe { pair: pair("AAPL") }, false, NOW) {
        ClientAction::Unsubscribed(Outgoing { event: MarketEvent::Control(control), provider }) => {
            assert_eq!(provider, "p");
            assert_eq!(control.seq, SeqNo::synthetic());
            assert_eq!(
                control.kind,
                ControlKind::SubscriptionChanged {
                    provider: "p".to_string(),
                    instrument: inst("AAPL"),
                    kind: EventKind::Trade,
                    active: false,
                }
            );
        }
        other => panic!("expected a notice, got {other:?}"),
    }
    match c.handle_command(ClientCommand::Unsubscribe { pair: pair("AAPL") }, false, NOW) {
        ClientAction::Refuse(e) => assert_eq!(
            e,
            Error::NotSubscribed { instrument: inst("AAPL"), kind: EventKind::Trade }
        ),
        other => panic!("expected a refusal, got {other:?}"),
    }
    assert!(c.handle_substream_end(&pair("AAPL"), NOW).is_none());
    assert!(c.subscriptions().is_empty());
}

#[test]
fn ended_substreams_are_dropped_and_announced() {
    let mut c = client();
    assert!(c.handle_substream_end(&pair("AAPL"), NOW).is_some());
    assert!(c.subscriptions().is_empty());
}

#[test]
fn repeated_connection_controls_are_told_once() {
    let mut c = client();
    let p = pair("AAPL");
    let connected = || control(ControlKind::ProviderConnected { provider: "p".to_string() });
    let lost = || {
        control(ControlKind::ProviderDisconnected {
            provider: "p".to_string(),
            reason: "reset".to_string(),
            cause: DisconnectCause::Error,
        })
    };
    let failed = |message: &str| {
        control(ControlKind::ProviderError {
            provider: "p".to_string(),
            message: message.to_string(),
        })
    };
    assert!(c.route(&p, connected()).is_some());
    assert!(c.route(&p, connected()).is_none());
    assert!(c.route(&p, lost()).is_some());
    assert!(c.route(&p, lost()).is_none());
    assert!(c.route(&p, connected()).is_some());
    assert!(c.route(&p, failed("a")).is_some());
    assert!(c.route(&p, failed("a")).is_none());
    assert!(c.route(&p, failed("b")).is_some());
    assert!(c.route(&p, failed("a")).is_some());
    assert!(c.note_conn("other", ConnState::Connected));
    assert!(!c.note_conn("other", ConnState::Connected));
    assert!(!c.duplicate_error("other", "a"));
    assert!(c.duplicate_error("other", "a"));
}

#[test]
fn data_and_symbol_controls_pass_and_closings_do_not() {
    let mut c = client();
    let p = pair("AAPL");
    let routed = c.route(&p, trade("AAPL", 1, 7)).unwrap();
    assert_eq!(routed.event, trade("AAPL", 1, 7));
    assert_eq!(routed.provider, "p");
    assert!(c.route(&p, control(ControlKind::SessionClosing)).is_none());
    let gap = ControlKind::Gap {
        provider: "p".to_string(),
        instrument: inst("AAPL"),
        span: GapSpan { from_source_ts: Timestamp(1), to_source_ts: Timestamp(2) },
    };
    assert!(c.route(&p, control(gap)).is_some());
}

#[test]
fn detached_client_resumes_with_its_losses_first() {
    let mut c = client();
    for n in 0..3u64 {
        assert!(c.deliver(out("AAPL", 100 + n as i64, n), true).is_none());
    }
    let snapshot = c.stats.resume_buffer_snapshot();
    assert_eq!((snapshot.occupancy, snapshot.dropped_events), (2, 1));
    match c.handle_command(ClientCommand::Take, false, NOW) {
        ClientAction::Attach(pending) => {
            assert_eq!(pending.len(), 3);
            match &pending[0].event {
                MarketEvent::Control(lost) => {
                    assert_eq!(lost.seq, SeqNo(0));
                    assert_eq!(
                        lost.kind,
                        ControlKind::Gap {
                            provider: "p".to_string(),
                            instrument: inst("AAPL"),
                            span: GapSpan {
                                from_source_ts: Timestamp(100),
                                to_source_ts: Timestamp(101),
                            },
                        }
                    );
                }
                other => panic!("expected a gap, got {other:?}"),
            }
            assert_eq!(pending[1].event, trade("AAPL", 101, 1));
            assert_eq!(pending[2].event, trade("AAPL", 102, 2));
        }
        other => panic!("expected a stream, got {other:?}"),
    }
    assert_eq!(c.stats.resume_buffer_snapshot().occupancy, 0);
    match c.handle_command(ClientCommand::Take, true, NOW) {
        ClientAction::Refuse(e) => assert_eq!(e, Error::EventsAlreadyTaken),
        other => panic!("expected a refusal, got {other:?}"),
    }
    assert!(c.deliver(out("AAPL", 103, 3), true).is_some());
    c.rejected(out("AAPL", 103, 3));
    assert!(matches!(c.sink, ClientSink::Detached(_)));
}

#[test]
fn closing_is_announced() {
    let mut c = client();
    for cmd in [ClientCommand::Close, ClientCommand::HandleDropped] {
        match c.handle_command(cmd, true, NOW) {
            ClientAction::Exit(Outgoing { event: MarketEvent::Control(control), provider }) => {
                assert_eq!(control.kind, ControlKind::SessionClosing);
                assert_eq!(provider, "");
            }
            other => panic!("expected the end, got {other:?}"),
        }
    }
}
