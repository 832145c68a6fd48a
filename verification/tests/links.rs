use datamancer::error::Error;
use datamancer::event::{
    AssetClass, Control, ControlKind, DisconnectCause, EventKind, Instrument, MarketEvent,
    ProviderId, Timestamp,
};
use datamancer::providers::alpaca::config::{provider_instrument, AccountType, AlpacaSettings};
use datamancer::providers::alpaca::machine::{
    Phase, StreamAction, StreamEvent, StreamingMachine,
};
use datamancer::providers::alpaca::messages::{StockStreamMessage, StreamError};
use datamancer::providers::alpaca_crypto::{CryptoStreamMessage, CryptoTrade, SinkId};
use datamancer::providers::clock::{
    chrono_to_ts, instant_of_parts, ts_to_chrono, wire_instant, UtcInstant,
};
use datamancer::providers::credentials::Resolved;
use datamancer::providers::crypto_hub::{HubAction, HubCommand, HubEvent, HubMachine, HubPhase};
use datamancer::providers::link::{
    call_failed, error_chain, while_down, while_retrying, Backoff, LiveCommand, WhileDown,
};
use datamancer::session::options::ReconnectPolicy;
use datamancer::table::Pair;
use datamancer::event::{Price, SeqNo};

const NOW: Timestamp = Timestamp(77);

fn policy(jitter: bool) -> ReconnectPolicy {
    ReconnectPolicy { initial_backoff_ms: 500, max_backoff_ms: 1_800, jitter }
}

fn aapl() -> Pair {
    Pair { instrument: provider_instrument("AAPL"), kind: EventKind::Trade }
}

fn btc() -> Pair {
    Pair {
        instrument: Instrument::new(
            ProviderId::from_static("alpaca-crypto"),
            AssetClass::Crypto,
            "BTC/USD",
        ),
        kind: EventKind::Trade,
    }
}

fn control(action: &StreamAction) -> &ControlKind {
    match action {
        StreamAction::Emit(MarketEvent::Control(Control { kind, .. })) => kind,
        _ => panic!("expected a control"),
    }
}

fn resolved(disabled: bool, credentials: Resolved) -> StreamEvent {
    StreamEvent::Resolved {
        settings: if disabled {
            None
        } else {
            Some(AlpacaSettings { account_type: AccountType::Paper })
        },
        settings_watched: true,
        credentials,
        credentials_watched: true,
    }
}

fn running() -> StreamingMachine {
    let mut m = StreamingMachine::new(policy(false));
    let acts = m.step(resolved(false, Resolved::Env), NOW);
    assert!(matches!(
        acts[..],
        [StreamAction::Connect { account_type: AccountType::Paper, credentials: None }]
    ));
    let acts = m.step(StreamEvent::Connected, NOW);
    assert!(matches!(control(&acts[0]), ControlKind::ProviderConnected { .. }));
    assert!(matches!(m.phase, Phase::Running));
    m
}

#[test]
fn ladder_climbs_to_its_limit_and_starts_over() {
    let mut b = Backoff::new(policy(false));
    assert_eq!(
        vec![b.delay(), b.delay(), b.delay(), b.delay()],
        vec![500, 1_000, 1_800, 1_800]
    );
    b.reset();
    assert_eq!(b.fixed_delay(), 500);
}

#[test]
fn jitter_stays_below_the_step_and_varies() {
    let mut seen: Vec<u64> = Vec::new();
    for _ in 0..64 {
        let mut b = Backoff::new(policy(true));
        let d = b.delay();
        assert!(d <= 500);
        assert_eq!(b.current_ms, 1_000);
        if !seen.contains(&d) {
            seen.push(d);
        }
    }
    assert!(seen.len() > 1);
}

#[test]
fn commands_fail_fast_while_down() {
    let refused = Error::Provider {
        provider: "p".to_string(),
        message: "waiting".to_string(),
    };
    match while_down("p", "waiting", &LiveCommand::Subscribe(aapl())) {
        WhileDown::Refuse(e) => assert_eq!(e, refused),
        other => panic!("expected a refusal, got {other:?}"),
    }
    assert!(matches!(while_down("p", "waiting", &LiveCommand::Close), WhileDown::AckAndExit));
    assert!(matches!(while_down("p", "waiting", &LiveCommand::HandleDropped), WhileDown::Exit));
    assert!(matches!(
        while_retrying("p", &LiveCommand::Unsubscribe(aapl())),
        WhileDown::Refuse(_)
    ));
    assert_eq!(
        call_failed("p", "add_subscriptions", "no"),
        Error::Provider { provider: "p".to_string(), message: "add_subscriptions: no".to_string() }
    );
}

#[test]
fn error_chains_join_their_causes() {
    assert_eq!(error_chain(&vec!["a".to_string()]), "a");
    assert_eq!(
        error_chain(&vec!["a".to_string(), "b".to_string(), "c".to_string()]),
        "a -> b -> c"
    );
}

#[test]
fn instants_round_trip() {
    for n in [0, 1, -1, 1_704_209_400_123_456_789, i64::MAX, i64::MIN] {
        assert_eq!(chrono_to_ts(ts_to_chrono(Timestamp(n))), Timestamp(n));
    }
    assert_eq!(ts_to_chrono(Timestamp(-1)), UtcInstant { secs: -1, nanos: 999_999_999 });
    // Out of range is the epoch.
    assert_eq!(chrono_to_ts(UtcInstant { secs: 10_000_000_000, nanos: 0 }), Timestamp(0));
    // A leap second reaches into the next one.
    assert_eq!(
        chrono_to_ts(UtcInstant { secs: 59, nanos: 1_500_000_000 }),
        Timestamp(60_500_000_000)
    );
}

#[test]
fn wire_texts_name_instants() {
    assert_eq!(
        wire_instant("2024-01-02T15:30:00.5Z"),
        Some(UtcInstant { secs: 1_704_209_400, nanos: 500_000_000 })
    );
    assert_eq!(
        wire_instant("1970-01-01T01:00:00+01:00"),
        Some(UtcInstant { secs: 0, nanos: 0 })
    );
    assert_eq!(wire_instant("yesterday"), None);
    assert_eq!(instant_of_parts(Some((3, 4))), Some(UtcInstant { secs: 3, nanos: 4 }));
    assert_eq!(instant_of_parts(None), None);
}

#[test]
fn disabled_provider_parks_and_fails_subscribes_fast() {
    let mut m = StreamingMachine::new(policy(false));
    assert!(m.step(resolved(true, Resolved::Env), NOW).is_empty());
    let acts = m.step(StreamEvent::Command(LiveCommand::Subscribe(aapl())), NOW);
    match &acts[..] {
        [StreamAction::Reply(Err(Error::Provider { message, .. }))] => {
            assert!(message.contains("provider disabled"), "msg={message:?}");
        }
        _ => panic!("disabled provider must fail subscribes fast"),
    }
    let acts = m.step(StreamEvent::Command(LiveCommand::Close), NOW);
    assert!(matches!(acts[..], [StreamAction::Ack, StreamAction::Exit]));
}

#[test]
fn missing_credentials_park_until_they_come() {
    let mut m = StreamingMachine::new(policy(false));
    assert!(m.step(resolved(false, Resolved::Missing), NOW).is_empty());
    let acts = m.step(StreamEvent::SourceChanged, NOW);
    assert!(matches!(acts[..], [StreamAction::Resolve]));
}

#[test]
fn unprovisioned_and_unwatched_exits() {
    let mut m = StreamingMachine::new(policy(false));
    let acts = m.step(
        StreamEvent::Resolved {
            settings: None,
            settings_watched: false,
            credentials: Resolved::Env,
            credentials_watched: false,
        },
        NOW,
    );
    assert!(matches!(acts[..], [StreamAction::Exit]));
}

#[test]
fn subscriptions_survive_a_reconnect() {
    let mut m = running();
    let acts = m.step(StreamEvent::Command(LiveCommand::Subscribe(aapl())), NOW);
    match &acts[..] {
        [StreamAction::Add(list)] => assert_eq!(list.trades, Some(vec!["AAPL".to_string()])),
        _ => panic!("expected a request"),
    }
    let acts = m.step(StreamEvent::Answered { refusal: None }, NOW);
    assert!(acts.iter().any(|a| matches!(a, StreamAction::Reply(Ok(())))));
    assert!(acts.iter().any(|a| matches!(
        a,
        StreamAction::Emit(MarketEvent::Control(Control {
            kind: ControlKind::SubscriptionChanged { active: true, .. },
            ..
        }))
    )));

    let acts = m.step(
        StreamEvent::StreamFailed { said: "reset".to_string(), unauthenticated: false },
        NOW,
    );
    assert!(acts.iter().any(|a| matches!(a, StreamAction::Sleep { ms: 500 })));
    let acts = m.step(StreamEvent::DelayOver, NOW);
    assert!(matches!(acts[..], [StreamAction::Resolve]));
    m.step(resolved(false, Resolved::Env), NOW);
    let acts = m.step(StreamEvent::Connected, NOW);
    assert!(acts.iter().any(|a| match a {
        StreamAction::Add(list) => list.trades == Some(vec!["AAPL".to_string()]),
        _ => false,
    }));
}

#[test]
fn refused_subscription_leaves_no_trace() {
    let mut m = running();
    m.step(StreamEvent::Command(LiveCommand::Subscribe(aapl())), NOW);
    let acts = m.step(StreamEvent::Answered { refusal: Some("no".to_string()) }, NOW);
    match &acts[..] {
        [StreamAction::Reply(Err(Error::Provider { provider, message }))] => {
            assert_eq!(provider, "alpaca");
            assert_eq!(message, "add_subscriptions: no");
        }
        _ => panic!("expected a refusal"),
    }
    assert_eq!(m.task.active.trades, None);
}

#[test]
fn rejected_credentials_park_and_rotation_reconnects() {
    let mut m = running();
    let acts = m.step(
        StreamEvent::StreamFailed { said: "auth".to_string(), unauthenticated: true },
        NOW,
    );
    assert!(acts.iter().all(|a| !matches!(a, StreamAction::Sleep { .. })));
    assert!(matches!(m.phase, Phase::Parked { .. }));
    let mut m = running();
    let acts = m.step(StreamEvent::CredentialsChanged, NOW);
    assert!(acts.iter().any(|a| matches!(
        a,
        StreamAction::Emit(MarketEvent::Control(Control {
            kind: ControlKind::ProviderDisconnected { cause: DisconnectCause::Error, .. },
            ..
        }))
    )));
    assert!(acts.iter().any(|a| matches!(a, StreamAction::CloseSocket)));
}

#[test]
fn stream_messages_are_translated_and_emitted() {
    let mut m = running();
    let acts = m.step(
        StreamEvent::Message(StockStreamMessage::Error(StreamError {
            code: "SlowClient".to_string(),
            message: "too slow".to_string(),
        })),
        NOW,
    );
    match control(&acts[0]) {
        ControlKind::ProviderError { message, .. } => assert_eq!(message, "SlowClient: too slow"),
        other => panic!("expected an error, got {other:?}"),
    }
    assert!(m.step(StreamEvent::Message(StockStreamMessage::Other), NOW).is_empty());
}

#[test]
fn hub_serves_two_sessions_over_one_connection() {
    let mut hub = HubMachine::new(policy(false));
    let acts = hub.step(HubEvent::Connected, NOW);
    assert!(acts.iter().all(|a| !matches!(a, HubAction::Add(_))));
    assert!(matches!(hub.phase, HubPhase::Running));
    let acts = hub.step(
        HubEvent::Command(HubCommand::Subscribe { pair: btc(), sink: SinkId(4) }),
        NOW,
    );
    assert!(matches!(acts[..], [HubAction::Add(_)]));
    hub.step(HubEvent::Answered { refusal: None }, NOW);
    let trade = CryptoStreamMessage::Trade(CryptoTrade {
        symbol: "BTC/USD".to_string(),
        timestamp: UtcInstant { secs: 1, nanos: 0 },
        price: Price::from_raw(5),
        size: 2,
    });
    let acts = hub.step(HubEvent::Message(trade), NOW);
    match &acts[..] {
        [HubAction::Send { to, event: MarketEvent::Trade(t) }] => {
            assert_eq!(to[..], [SinkId(4)]);
            assert_eq!(t.source_ts, Timestamp(1_000_000_000));
            assert_eq!(t.seq, SeqNo(0));
        }
        _ => panic!("expected one delivery"),
    }
    let acts = hub.step(
        HubEvent::StreamFailed { causes: vec!["gone".to_string(), "reset".to_string()] },
        NOW,
    );
    match &acts[..] {
        [HubAction::Send { to, event: MarketEvent::Control(c) }, HubAction::DropSocket, HubAction::Sleep { ms: 500 }] =>
        {
            assert_eq!(to[..], [SinkId(4)]);
            match &c.kind {
                ControlKind::ProviderDisconnected { reason, .. } => {
                    assert_eq!(reason, "websocket: gone -> reset");
                }
                other => panic!("expected a disconnect, got {other:?}"),
            }
        }
        _ => panic!("expected a report and a pause"),
    }
    assert!(matches!(hub.step(HubEvent::DelayOver, NOW)[..], [HubAction::Connect]));
    let acts = hub.step(HubEvent::Connected, NOW);
    assert!(acts.iter().any(|a| matches!(a, HubAction::Add(_))));
}
