use datamancer::event::{
    stamp_seq, AssetClass, Control, ControlKind, GapSpan, Instrument, MarketEvent, Price,
    ProviderId, Quantity, SeqNo, Timestamp, Trade,
};
use datamancer::session::ring::EventRing;

fn trade(ts: i64) -> MarketEvent {
    MarketEvent::Trade(Trade {
        instrument: Instrument::new(ProviderId::from_static("t"), AssetClass::Equity, "X"),
        source_ts: Timestamp(ts),
        rx_ts: Timestamp(ts),
        seq: SeqNo(0),
        price: Price::from_raw(1_000_000_000),
        size: Quantity::from_units(1),
    })
}

fn stamped_trade(ts: i64, seq: u64) -> MarketEvent {
    stamp_seq(trade(ts), SeqNo(seq))
}

fn control(ts: i64) -> MarketEvent {
    MarketEvent::Control(Control {
        source_ts: Timestamp(ts),
        rx_ts: Timestamp(ts),
        seq: SeqNo(0),
        kind: ControlKind::SessionClosing,
    })
}

fn gap_control(ts: i64, from: i64, to: i64) -> MarketEvent {
    MarketEvent::Control(Control {
        source_ts: Timestamp(ts),
        rx_ts: Timestamp(ts),
        seq: SeqNo(0),
        kind: ControlKind::Gap {
            provider: "t".to_string(),
            instrument: Instrument::new(ProviderId::from_static("t"), AssetClass::Equity, "X"),
            span: GapSpan { from_source_ts: Timestamp(from), to_source_ts: Timestamp(to) },
        },
    })
}

fn tss(events: &std::collections::VecDeque<MarketEvent>) -> Vec<i64> {
    events
        .iter()
        .map(|e| match e {
            MarketEvent::Trade(t) => t.source_ts.0,
            MarketEvent::Control(c) => c.source_ts.0,
            other => panic!("unexpected {other:?}"),
        })
        .collect()
}

#[test]
fn under_capacity_keeps_everything_with_no_span() {
    let mut ring = EventRing::new(4);
    for ts in [100, 200, 300] {
        ring.push(trade(ts));
    }
    let (dropped, _first, events) = ring.into_parts();
    assert!(dropped.is_none());
    assert_eq!(tss(&events), vec![100, 200, 300]);
}

#[test]
fn overflow_evicts_oldest_and_tracks_span() {
    let mut ring = EventRing::new(2);
    for ts in [100, 200, 300, 400] {
        ring.push(trade(ts));
    }
    let (dropped, _first, events) = ring.into_parts();
    let span = dropped.expect("overflow must record a span");
    assert_eq!(span.from_source_ts.0, 100);
    assert_eq!(span.to_source_ts.0, 201);
    assert_eq!(tss(&events), vec![300, 400]);
}

#[test]
fn span_covers_out_of_order_source_ts() {
    let mut ring = EventRing::new(1);
    for ts in [300, 100, 200, 50] {
        ring.push(trade(ts));
    }
    let (dropped, _first, events) = ring.into_parts();
    let span = dropped.expect("span");
    assert_eq!(span.from_source_ts.0, 100);
    assert_eq!(span.to_source_ts.0, 301);
    assert_eq!(tss(&events), vec![50]);
}

#[test]
fn evicted_controls_do_not_extend_the_span() {
    let mut ring = EventRing::new(1);
    ring.push(control(999));
    ring.push(trade(100));
    ring.push(trade(200));
    let (dropped, _first, events) = ring.into_parts();
    let span = dropped.expect("span");
    assert_eq!(span.from_source_ts.0, 100);
    assert_eq!(span.to_source_ts.0, 101);
    assert_eq!(tss(&events), vec![200]);
}

#[test]
fn evicted_gap_control_preserves_its_span() {
    let mut ring = EventRing::new(1);
    ring.push(gap_control(999, 100, 201));
    ring.push(trade(500));
    let (dropped, _first, events) = ring.into_parts();
    let span = dropped.expect("evicted gap control must preserve its span");
    assert_eq!(span.from_source_ts.0, 100);
    assert_eq!(span.to_source_ts.0, 201);
    assert_eq!(tss(&events), vec![500]);
}

#[test]
fn evicted_gap_control_span_merges_with_evicted_data() {
    let mut ring = EventRing::new(1);
    ring.push(gap_control(999, 100, 201));
    ring.push(trade(300));
    ring.push(trade(400));
    let (dropped, _first, events) = ring.into_parts();
    let span = dropped.expect("span");
    assert_eq!(span.from_source_ts.0, 100);
    assert_eq!(span.to_source_ts.0, 301);
    assert_eq!(tss(&events), vec![400]);
}

#[test]
fn zero_capacity_is_clamped_to_one() {
    let mut ring = EventRing::new(0);
    ring.push(trade(100));
    let (dropped, _first, events) = ring.into_parts();
    assert!(dropped.is_none());
    assert_eq!(tss(&events), vec![100]);
}

#[test]
fn records_first_evicted_seq_on_overflow() {
    let mut ring = EventRing::new(2);
    for (ts, seq) in [(100, 0), (200, 1), (300, 2), (400, 3)] {
        ring.push(stamped_trade(ts, seq));
    }
    let (dropped, first, events) = ring.into_parts();
    assert_eq!(first, Some(SeqNo(0)), "hole starts at the first-evicted seq");
    let span = dropped.expect("overflow must record a span");
    assert_eq!(span.from_source_ts.0, 100);
    assert_eq!(span.to_source_ts.0, 201);
    assert_eq!(tss(&events), vec![300, 400]);
}

#[test]
fn no_first_evicted_seq_without_overflow() {
    let mut ring = EventRing::new(4);
    for (ts, seq) in [(100, 0), (200, 1), (300, 2)] {
        ring.push(stamped_trade(ts, seq));
    }
    let (dropped, first, events) = ring.into_parts();
    assert!(dropped.is_none());
    assert!(first.is_none(), "no eviction means no hole");
    assert_eq!(tss(&events), vec![100, 200, 300]);
}
