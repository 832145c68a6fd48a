use datamancer::client::fanout::{gap_coords, FanOut, SubscriberId};
use datamancer::event::{
    AssetClass, Control, ControlKind, EventKind, Instrument, MarketEvent, Price, ProviderId,
    Quantity, SeqNo, Timestamp, Trade,
};
use tokio::sync::mpsc;

fn inst(symbol: &str) -> Instrument {
    Instrument::new(ProviderId::from_static("p"), AssetClass::Equity, symbol)
}

fn trade(ts: i64, seq: u64) -> MarketEvent {
    MarketEvent::Trade(Trade {
        instrument: inst("AAPL"),
        source_ts: Timestamp(ts),
        rx_ts: Timestamp(ts),
        seq: SeqNo(seq),
        price: Price::from_raw(1_000_000_000),
        size: Quantity::from_units(1),
    })
}

fn subscribed(active: bool, seq: u64) -> MarketEvent {
    MarketEvent::Control(Control {
        source_ts: Timestamp(0),
        rx_ts: Timestamp(0),
        seq: SeqNo(seq),
        kind: ControlKind::SubscriptionChanged {
            provider: "p".to_string(),
            instrument: inst("AAPL"),
            kind: EventKind::Trade,
            active,
        },
    })
}

#[test]
fn full_channel_surfaces_loss_as_gap_not_silent_drop() {
    let mut fo = FanOut::new();
    let (tx, mut rx) = mpsc::channel(1);
    fo.add(SubscriberId(1), tx);

    fo.fanout(&trade(100, 0));
    fo.fanout(&trade(200, 1));

    assert_eq!(rx.try_recv().unwrap().seq(), Some(SeqNo(0)));

    fo.fanout(&trade(300, 2));
    match rx.try_recv().unwrap() {
        MarketEvent::Control(c) => match c.kind {
            ControlKind::Gap { instrument, span, .. } => {
                assert_eq!(c.seq, SeqNo(1));
                assert_eq!(instrument, inst("AAPL"));
                assert_eq!(span.from_source_ts, Timestamp(200));
            }
            other => panic!("expected Gap, got {other:?}"),
        },
        other => panic!("expected a Control::Gap, got {other:?}"),
    }
}

#[test]
fn every_open_referrer_gets_the_event() {
    let mut fo = FanOut::new();
    let (tx_a, mut rx_a) = mpsc::channel(4);
    let (tx_b, mut rx_b) = mpsc::channel(4);
    fo.add(SubscriberId(1), tx_a);
    fo.add(SubscriberId(2), tx_b);
    fo.fanout(&trade(100, 0));
    assert_eq!(rx_a.try_recv().unwrap(), trade(100, 0));
    assert_eq!(rx_b.try_recv().unwrap(), trade(100, 0));
    assert_eq!(fo.subscriber_count(), 2);
}

#[test]
fn closed_referrers_leave_and_the_last_one_tears_down() {
    let mut fo = FanOut::new();
    assert!(!fo.should_teardown());
    let (tx_a, rx_a) = mpsc::channel(4);
    let (tx_b, mut rx_b) = mpsc::channel(4);
    fo.add(SubscriberId(1), tx_a);
    fo.add(SubscriberId(2), tx_b);
    drop(rx_a);
    fo.fanout(&trade(100, 0));
    assert_eq!(fo.subscriber_count(), 1);
    assert_eq!(rx_b.try_recv().unwrap(), trade(100, 0));
    assert!(!fo.should_teardown());
    fo.remove(SubscriberId(2));
    assert_eq!(fo.subscriber_count(), 0);
    assert!(fo.should_teardown());
}

#[test]
fn joiners_get_the_latest_active_subscription() {
    let mut fo = FanOut::new();
    fo.fanout(&subscribed(true, 3));
    fo.fanout(&subscribed(false, 4));
    let (tx, mut rx) = mpsc::channel(4);
    fo.add(SubscriberId(1), tx);
    assert_eq!(rx.try_recv().unwrap(), subscribed(true, 3));
    assert!(rx.try_recv().is_err());
}

#[test]
fn joining_under_a_taken_number_replaces_the_referrer() {
    let mut fo = FanOut::new();
    let (tx_a, mut rx_a) = mpsc::channel(4);
    let (tx_b, mut rx_b) = mpsc::channel(4);
    fo.add(SubscriberId(1), tx_a);
    fo.add(SubscriberId(1), tx_b);
    assert_eq!(fo.subscriber_count(), 1);
    fo.fanout(&trade(100, 0));
    assert!(rx_a.try_recv().is_err());
    assert_eq!(rx_b.try_recv().unwrap(), trade(100, 0));
}

#[test]
fn delivered_places_ascend_across_a_loss() {
    let mut fo = FanOut::new();
    let (tx, mut rx) = mpsc::channel(2);
    fo.add(SubscriberId(1), tx);
    let mut seen: Vec<u64> = Vec::new();
    for seq in 0..12_u64 {
        fo.fanout(&trade(i64::try_from(seq).unwrap() * 10, seq));
        if seq % 3 == 2 {
            while let Ok(ev) = rx.try_recv() {
                seen.push(ev.seq().unwrap().0);
            }
        }
    }
    for pair in seen.windows(2) {
        assert!(pair[0] < pair[1], "{seen:?}");
    }
    assert!(seen.len() >= 6);
}

#[test]
fn connection_controls_have_no_gap_coordinates() {
    let ev = MarketEvent::Control(Control {
        source_ts: Timestamp(5),
        rx_ts: Timestamp(5),
        seq: SeqNo(1),
        kind: ControlKind::ProviderConnected { provider: "p".to_string() },
    });
    assert!(gap_coords(&ev).is_none());
    let (i, from, to, provider, seq) = gap_coords(&trade(i64::MAX, 8)).unwrap();
    assert_eq!(i, inst("AAPL"));
    assert_eq!(from, Timestamp(i64::MAX));
    assert_eq!(to, Timestamp(i64::MAX));
    assert_eq!(provider, "p");
    assert_eq!(seq, SeqNo(8));
}

#[test]
fn an_owed_gap_goes_out_before_the_next_event() {
    let mut fo = FanOut::new();
    let (tx, mut rx) = mpsc::channel(2);
    fo.add(SubscriberId(1), tx);
    fo.fanout(&trade(100, 0));
    fo.fanout(&trade(200, 1));
    fo.fanout(&trade(300, 2));
    fo.fanout(&trade(400, 3));
    assert_eq!(rx.try_recv().unwrap(), trade(100, 0));
    assert_eq!(rx.try_recv().unwrap(), trade(200, 1));
    fo.fanout(&trade(500, 4));
    match rx.try_recv().unwrap() {
        MarketEvent::Control(c) => match c.kind {
            ControlKind::Gap { span, .. } => {
                assert_eq!(span.from_source_ts, Timestamp(300));
                assert!(span.to_source_ts.0 >= 400);
            }
            other => panic!("expected Gap, got {other:?}"),
        },
        other => panic!("expected a Control::Gap, got {other:?}"),
    }
    assert_eq!(rx.try_recv().unwrap(), trade(500, 4));
    assert!(rx.try_recv().is_err());
}
