use datamancer::client::ring::ClientRing;
use datamancer::event::{
    AssetClass, Control, ControlKind, GapSpan, Instrument, MarketEvent, Price, ProviderId,
    Quantity, SeqNo, Timestamp, Trade,
};

fn inst(symbol: &str) -> Instrument {
    Instrument::new(ProviderId::from_static("p"), AssetClass::Equity, symbol)
}

fn trade(symbol: &str, ts: i64, seq: u64) -> MarketEvent {
    MarketEvent::Trade(Trade {
        instrument: inst(symbol),
        source_ts: Timestamp(ts),
        rx_ts: Timestamp(ts),
        seq: SeqNo(seq),
        price: Price::from_raw(1_000_000_000),
        size: Quantity::from_units(1),
    })
}

fn gap(symbol: &str, seq: u64, from: i64, to: i64) -> MarketEvent {
    MarketEvent::Control(Control {
        source_ts: Timestamp(from),
        rx_ts: Timestamp(from),
        seq: SeqNo(seq),
        kind: ControlKind::Gap {
            provider: "p".to_string(),
            instrument: inst(symbol),
            span: GapSpan { from_source_ts: Timestamp(from), to_source_ts: Timestamp(to) },
        },
    })
}

#[test]
fn under_capacity_records_no_gaps() {
    let mut ring = ClientRing::new(4);
    ring.push(trade("AAPL", 100, 0), "p".to_string());
    ring.push(trade("MSFT", 200, 1), "p".to_string());
    let (gaps, events) = ring.into_parts();
    assert!(gaps.is_empty());
    assert_eq!(events.len(), 2);
}

#[test]
fn overflow_accounts_per_instrument() {
    let mut ring = ClientRing::new(2);
    ring.push(trade("AAPL", 100, 0), "p".to_string());
    ring.push(trade("MSFT", 200, 1), "p".to_string());
    ring.push(trade("AAPL", 300, 2), "p".to_string());
    ring.push(trade("MSFT", 400, 3), "p".to_string());
    let (gaps, events) = ring.into_parts();
    assert_eq!(gaps.len(), 2);
    assert_eq!(gaps[0].0, SeqNo(0));
    assert_eq!(gaps[0].1, inst("AAPL"));
    assert_eq!(gaps[0].2.from_source_ts, Timestamp(100));
    assert_eq!(gaps[0].2.to_source_ts, Timestamp(101));
    assert_eq!(gaps[1].0, SeqNo(1));
    assert_eq!(gaps[1].1, inst("MSFT"));
    assert_eq!(gaps[1].2.from_source_ts, Timestamp(200));
    assert_eq!(gaps[1].2.to_source_ts, Timestamp(201));
    assert_eq!(events.len(), 2);
}

#[test]
fn evicted_gap_control_folds_into_its_instrument() {
    let mut ring = ClientRing::new(1);
    ring.push(gap("AAPL", 5, 100, 201), "p".to_string());
    ring.push(trade("AAPL", 300, 6), "p".to_string());
    let (gaps, events) = ring.into_parts();
    assert_eq!(gaps.len(), 1);
    assert_eq!(gaps[0].1, inst("AAPL"));
    assert_eq!(gaps[0].2.from_source_ts, Timestamp(100));
    assert_eq!(gaps[0].2.to_source_ts, Timestamp(201));
    assert_eq!(events.len(), 1);
}

#[test]
fn push_reports_eviction_and_len_is_bounded() {
    let mut ring = ClientRing::new(0);
    assert!(!ring.push(trade("AAPL", 1, 0), "p".to_string()));
    assert!(ring.push(trade("AAPL", 2, 1), "p".to_string()));
    assert_eq!(ring.len(), 1);
}

#[test]
fn losses_are_listed_by_where_their_holes_start() {
    let mut ring = ClientRing::new(1);
    for (symbol, ts, seq) in [("C", 30, 9), ("A", 10, 4), ("B", 20, 6), ("C", 31, 10)] {
        ring.push(trade(symbol, ts, seq), "p".to_string());
    }
    ring.push(trade("Z", 99, 99), "p".to_string());
    let (gaps, _) = ring.into_parts();
    let order: Vec<(u64, String)> =
        gaps.iter().map(|g| (g.0.0, g.1.symbol().to_string())).collect();
    assert_eq!(
        order,
        vec![(4, "A".to_string()), (6, "B".to_string()), (9, "C".to_string())]
    );
    let c = gaps.iter().find(|g| g.1.symbol() == "C").unwrap();
    assert_eq!((c.2.from_source_ts.0, c.2.to_source_ts.0), (30, 32));
}
