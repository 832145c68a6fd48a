use datamancer::client::stats::{ClientSessionId, ClientStats, LiveStats, ResumeBufferSnapshot};
use datamancer::event::{
    AssetClass, Control, ControlKind, EventKind, GapSpan, Instrument, MarketEvent, Price,
    ProviderId, Quantity, SeqNo, Timestamp, Trade,
};

fn trade(ts: i64, seq: u64) -> MarketEvent {
    MarketEvent::Trade(Trade {
        instrument: Instrument::new(ProviderId::from_static("t"), AssetClass::Equity, "X"),
        source_ts: Timestamp(ts),
        rx_ts: Timestamp(ts + 5),
        seq: SeqNo(seq),
        price: Price::from_raw(1_000_000_000),
        size: Quantity::from_units(1),
    })
}

fn gap() -> MarketEvent {
    MarketEvent::Control(Control {
        source_ts: Timestamp(0),
        rx_ts: Timestamp(0),
        seq: SeqNo(7),
        kind: ControlKind::Gap {
            provider: "t".to_string(),
            instrument: Instrument::new(ProviderId::from_static("t"), AssetClass::Equity, "X"),
            span: GapSpan { from_source_ts: Timestamp(1), to_source_ts: Timestamp(2) },
        },
    })
}

#[test]
fn starts_empty() {
    let s = LiveStats::new();
    assert_eq!(s.seq_position(), None);
    assert_eq!(s.last_source_ts(), None);
    assert_eq!(s.last_rx_ts(), None);
    assert_eq!(s.gap_count(), 0);
}

#[test]
fn records_data_and_gaps() {
    let mut s = LiveStats::new();
    s.record_event(&trade(100, 0));
    s.record_event(&trade(200, 1));
    assert_eq!(s.seq_position(), Some(SeqNo(1)));
    assert_eq!(s.last_source_ts(), Some(Timestamp(200)));
    assert_eq!(s.last_rx_ts(), Some(Timestamp(205)));
    assert_eq!(s.gap_count(), 0);
    s.record_event(&gap());
    assert_eq!(s.gap_count(), 1);
    assert_eq!(s.seq_position(), Some(SeqNo(7)));
}

#[test]
fn live_stats_retain_bounded_recent_gap_spans() {
    let mut stats = LiveStats::new();
    for i in 0..10_i64 {
        stats.record_event(&MarketEvent::Control(Control {
            source_ts: Timestamp(i),
            rx_ts: Timestamp(1_000 + i),
            seq: SeqNo(u64::try_from(i).unwrap()),
            kind: ControlKind::Gap {
                provider: "p".to_string(),
                instrument: Instrument::new(ProviderId::from_static("p"), AssetClass::Equity, "X"),
                span: GapSpan { from_source_ts: Timestamp(i), to_source_ts: Timestamp(i + 1) },
            },
        }));
    }
    let spans = stats.recent_gaps();
    assert_eq!(spans.len(), 8);
    assert_eq!(spans[0].from_source_ts, Timestamp(2));
    assert_eq!(stats.last_gap_rx_ts(), Some(Timestamp(1_009)));
    assert_eq!(stats.gap_count(), 10);
}

#[test]
fn backfilling_flag_sets_and_clears() {
    let mut stats = LiveStats::new();
    assert!(!stats.backfilling());
    stats.set_backfilling(true);
    assert!(stats.backfilling());
    stats.set_backfilling(false);
    assert!(!stats.backfilling());
}

#[test]
fn subscriber_count_is_the_last_one_set() {
    let mut stats = LiveStats::new();
    assert_eq!(stats.subscriber_count(), 0);
    stats.set_subscribers(3);
    assert_eq!(stats.subscriber_count(), 3);
}

#[test]
fn client_stats_report_the_buffer_and_the_set() {
    let mut stats = ClientStats::new(ClientSessionId(9), 16);
    stats.record_drops(2);
    stats.record_drops(0);
    stats.set_occupancy(5);
    let inst = Instrument::new(ProviderId::from_static("p"), AssetClass::Crypto, "BTC/USD");
    stats.set_subscriptions(vec![(inst.clone(), EventKind::Quote)]);
    assert_eq!(stats.id(), ClientSessionId(9));
    assert_eq!(
        stats.resume_buffer_snapshot(),
        ResumeBufferSnapshot { capacity: 16, occupancy: 5, dropped_events: 2 }
    );
    let refs = stats.subscription_refs();
    assert_eq!(refs.len(), 1);
    assert_eq!(refs[0].instrument, inst);
    assert_eq!(refs[0].kind, EventKind::Quote);
}
