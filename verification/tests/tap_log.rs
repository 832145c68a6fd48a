use datamancer::error::Error;
use datamancer::event::{
    AssetClass, Bar, BarInterval, ControlKind, EventKind, Instrument, MarketEvent, Price,
    ProviderId, Quantity, SeqNo, Timestamp, Trade,
};
use datamancer::request::ReplayRequest;
use datamancer::storage::documents::Payload;
use datamancer::storage::order::sort_by_ord;
use datamancer::storage::sql::SqlValue;
use datamancer::storage::tap_documents::{
    plan_reads, record_row, replay_tap_shards, TapShard,
};
use datamancer::storage::tap_log::{
    decode_tap_row, encode_tap_row, instrument_from_row, load_registry, merge_shards,
    ord_or_first, plan_replay, registry_id, replay_shards, replay_window, selected, shard_name,
    shard_scan, stream_row, BatchStep, BatchWriter, MetaRow, ShardRows, StreamRow, WriteStep, Writer,
};
use datamancer::table::Pair;

fn inst(symbol: &str) -> Instrument {
    Instrument::new(ProviderId::from_static("p"), AssetClass::Crypto, symbol)
}

fn pair(symbol: &str) -> Pair {
    Pair { instrument: inst(symbol), kind: EventKind::Trade }
}

fn trade(symbol: &str, ts: i64, seq: u64) -> MarketEvent {
    MarketEvent::Trade(Trade {
        instrument: inst(symbol),
        source_ts: Timestamp(ts),
        rx_ts: Timestamp(ts),
        seq: SeqNo(seq),
        price: Price::from_raw(7),
        size: Quantity::from_raw(8),
    })
}

fn stream(symbol: &str, class: &str, kind: &str, table: &str) -> StreamRow {
    StreamRow {
        provider: "p".to_string(),
        asset_class: class.to_string(),
        symbol: symbol.to_string(),
        kind_tag: kind.to_string(),
        table: table.to_string(),
    }
}

#[test]
fn registry_ids_keep_their_parts_apart() {
    assert_eq!(registry_id(&inst("BTC/USD"), EventKind::Trade), "1:p6:crypto7:BTC/USD5:trade");
    assert_eq!(
        registry_id(&inst("é"), EventKind::Bar(BarInterval::OneHour)),
        "1:p6:crypto2:é6:bar_1h"
    );
}

#[test]
fn registry_rows_with_unknown_tags_are_skipped() {
    assert_eq!(instrument_from_row(&stream("A", "crypto", "trade", "t")), Some(pair("A")));
    assert_eq!(instrument_from_row(&stream("A", "bond", "trade", "t")), None);
    assert_eq!(instrument_from_row(&stream("A", "crypto", "depth", "t")), None);
    let rows = vec![
        stream("A", "crypto", "trade", "tap_000000"),
        stream("B", "bond", "trade", "tap_000001"),
        stream("A", "crypto", "trade", "tap_000002"),
    ];
    let shards = load_registry(&rows);
    assert_eq!(shards.get(&pair("A")), Some(&"tap_000002".to_string()));
    assert_eq!(shards.rows.len(), 1);
}

#[test]
fn shards_are_numbered_and_announced_before_they_exist() {
    let mut w = Writer::open(None, &vec![]);
    assert_eq!(w.shard_of(&pair("A")), None);
    assert_eq!(w.write_step(&pair("A")), WriteStep::CreateShard);
    let shard = w.allocate_shard(&pair("A"));
    assert_eq!(shard.name, "tap_000000");
    assert_eq!(shard.persist.params, vec![SqlValue::Int(1), SqlValue::Int(0)]);
    assert_eq!(
        shard.create,
        "CREATE TABLE IF NOT EXISTS tap_000000 (ord INTEGER PRIMARY KEY, seq INTEGER NOT NULL, source_ts INTEGER NOT NULL, rx_ts INTEGER NOT NULL, price_raw INTEGER NOT NULL, size_raw INTEGER NOT NULL)"
    );
    assert_eq!(shard.register.params[5], SqlValue::Text("tap_000000".to_string()));
    w.shard_ready(&pair("A"), shard.name);
    assert_eq!(w.shard_of(&pair("A")), Some("tap_000000".to_string()));
    assert_eq!(w.allocate_shard(&pair("B")).name, "tap_000001");
    assert_eq!(shard_name(1_234_567), "tap_1234567");
}

#[test]
fn ordinals_survive_a_restart() {
    let mut w = Writer::open(Some((3, 41)), &vec![]);
    w.shard_ready(&pair("A"), "tap_000000".to_string());
    assert_eq!(w.write_step(&pair("A")), WriteStep::Begin);
    w.began();
    assert_eq!(w.write_step(&pair("B")), WriteStep::Commit);
    assert_eq!(w.write_step(&pair("A")), WriteStep::Record("tap_000000".to_string()));
    let statement = w.record("tap_000000", EventKind::Trade, &trade("A", 5, 2));
    assert_eq!(
        statement.sql,
        "INSERT INTO tap_000000 (ord, seq, source_ts, rx_ts, price_raw, size_raw) VALUES (?1, ?2, ?3, ?4, ?5, ?6)"
    );
    let ints: Vec<i64> = statement
        .params
        .iter()
        .map(|v| match v {
            SqlValue::Int(n) => *n,
            other => panic!("expected an integer, got {other:?}"),
        })
        .collect();
    assert_eq!(ints, vec![41, 2, 5, 5, 7, 8]);
    let commit = w.begin_commit().unwrap();
    assert_eq!(commit.params, vec![SqlValue::Int(3), SqlValue::Int(42)]);
    assert!(w.begin_commit().is_none());
    let resumed = Writer::open(Some((3, 42)), &vec![]);
    assert_eq!(resumed.next_ord, 42);
}

#[test]
fn flush_reports_a_failure_once() {
    let mut w = Writer::open(None, &vec![]);
    w.failed(Error::Storage("disk".to_string()));
    assert_eq!(w.flush_result(Ok(())), Err(Error::Storage("disk".to_string())));
    assert_eq!(w.flush_result(Ok(())), Ok(()));
    assert_eq!(
        w.flush_result(Err(Error::Storage("commit".to_string()))),
        Err(Error::Storage("commit".to_string()))
    );
    let mut b = BatchWriter::open(None, &vec![]);
    b.failed(Error::Storage("disk".to_string()));
    assert_eq!(b.flush_result(), Err(Error::Storage("disk".to_string())));
    assert_eq!(b.flush_result(), Ok(()));
}

#[test]
fn reserved_ordinals_are_not_reused() {
    let mut w = BatchWriter::open(None, &vec![]);
    assert_eq!(w.write_step(&pair("A")), BatchStep::CreateShard);
    w.shard_ready(&pair("A"), "tap_000009".to_string());
    let meta = w.reservation().unwrap();
    assert_eq!(w.write_step(&pair("A")), BatchStep::Reserve(meta));
    assert_eq!(meta, MetaRow { next_shard: 0, next_ord: Some(1024) });
    w.reserved(meta);
    assert_eq!(w.write_step(&pair("A")), BatchStep::Record("tap_000009".to_string()));
    assert_eq!(w.allocate_ord(), 0);
    assert_eq!(w.allocate_ord(), 1);
    assert_eq!(w.reservation(), None);
    let (name, persisted) = w.allocate_shard();
    assert_eq!(name, "tap_000000");
    assert_eq!(persisted, MetaRow { next_shard: 1, next_ord: Some(1024) });
    // After a crash the rest of the reservation is skipped.
    let mut resumed = BatchWriter::open(Some(persisted), &vec![]);
    let meta = resumed.reservation().unwrap();
    resumed.reserved(meta);
    assert_eq!(resumed.allocate_ord(), 1024);
}

#[test]
fn recorded_rows_round_trip() {
    let ev = trade("A", -5, u64::MAX);
    let (ord, back) = decode_tap_row(&inst("A"), EventKind::Trade, &encode_tap_row(6, &ev));
    assert_eq!(ord, 6);
    assert_eq!(back, ev);
    let bar = MarketEvent::Bar(Bar {
        instrument: inst("A"),
        interval: BarInterval::FiveMinute,
        source_ts: Timestamp(1),
        rx_ts: Timestamp(2),
        seq: SeqNo(3),
        open: Price::from_raw(4),
        high: Price::from_raw(5),
        low: Price::from_raw(6),
        close: Price::from_raw(7),
        volume: Quantity::from_raw(8),
    });
    let kind = EventKind::Bar(BarInterval::FiveMinute);
    assert_eq!(decode_tap_row(&inst("A"), kind, &encode_tap_row(9, &bar)), (9, bar));
}

#[test]
fn replay_follows_arrival_across_shards() {
    let a0 = trade("A", 10, 0);
    let b0 = trade("B", 5, 0);
    let a1 = trade("A", 7, 1);
    let merged = merge_shards(vec![(0, a0.clone()), (2, a1.clone()), (1, b0.clone())]);
    assert_eq!(merged, vec![a0.clone(), b0.clone(), a1]);
    // Rows that share an ordinal keep the order in which they were read.
    let sorted = sort_by_ord(vec![(3, b0.clone()), (0, a0.clone()), (0, b0.clone())]);
    assert_eq!(sorted, vec![(0, a0), (0, b0.clone()), (3, b0)]);
    assert_eq!(ord_or_first(None), 0);
    assert_eq!(ord_or_first(Some(4)), 4);
}

#[test]
fn replay_selects_streams_and_windows() {
    let all = ReplayRequest {
        instruments: vec![],
        kinds: vec![],
        from: Timestamp(1),
        to: Timestamp(9),
    };
    let row = stream("A", "crypto", "trade", "tap_000000");
    assert_eq!(selected(&all, &row), Some(pair("A")));
    let other = ReplayRequest { instruments: vec![inst("B")], ..all };
    assert_eq!(selected(&other, &row), None);
    let quotes = ReplayRequest {
        instruments: vec![inst("A")],
        kinds: vec![EventKind::Quote],
        from: Timestamp(9),
        to: Timestamp(9),
    };
    assert_eq!(selected(&quotes, &row), None);
    assert_eq!(replay_window(&quotes), None);
    assert_eq!(replay_window(&other), Some((1, 9)));
    let scan = shard_scan("tap_000000", EventKind::Quote, 1, 9);
    assert_eq!(
        scan.sql,
        "SELECT ord, seq, source_ts, rx_ts, bid_raw, bid_size_raw, ask_raw, ask_size_raw FROM tap_000000 WHERE source_ts >= ?1 AND source_ts < ?2 ORDER BY ord ASC"
    );
    assert_eq!(scan.params, vec![SqlValue::Int(1), SqlValue::Int(9)]);
}

#[test]
fn replay_scans_and_merges_the_streams_asked_for() {
    let rows = vec![
        stream("A", "crypto", "trade", "tap_000000"),
        stream("A", "crypto", "quote", "tap_000001"),
        stream("B", "crypto", "trade", "tap_000002"),
        stream("C", "bond", "trade", "tap_000003"),
    ];
    let request = ReplayRequest {
        instruments: vec![],
        kinds: vec![EventKind::Trade],
        from: Timestamp(1),
        to: Timestamp(9),
    };
    let scans = plan_replay(&request, &rows);
    let pairs: Vec<Pair> = scans.iter().map(|s| s.pair.clone()).collect();
    assert_eq!(pairs, vec![pair("A"), pair("B")]);
    assert_eq!(scans[1].scan, shard_scan("tap_000002", EventKind::Trade, 1, 9));
    let empty = ReplayRequest { to: Timestamp(1), ..request };
    assert!(plan_replay(&empty, &rows).is_empty());

    let shards = vec![
        ShardRows {
            pair: pair("A"),
            rows: vec![
                encode_tap_row(0, &trade("A", 8, 0)),
                encode_tap_row(2, &trade("A", 3, 1)),
            ],
        },
        ShardRows { pair: pair("B"), rows: vec![encode_tap_row(1, &trade("B", 5, 0))] },
    ];
    assert_eq!(
        replay_shards(&shards),
        Some(vec![trade("A", 8, 0), trade("B", 5, 0), trade("A", 3, 1)])
    );
    let short = vec![ShardRows { pair: pair("A"), rows: vec![vec![0, 0, 1]] }];
    assert_eq!(replay_shards(&short), None);
}

#[test]
fn documents_of_a_tap_log_keep_sizes_unsigned() {
    let mut ev = trade("A", -5, u64::MAX);
    if let MarketEvent::Trade(t) = &mut ev {
        t.size = Quantity::from_raw(u64::MAX);
    }
    let row = record_row(6, &ev).unwrap();
    assert_eq!(row.ord, Some(6));
    assert_eq!(row.seq, u64::MAX);
    assert_eq!(row.source_ts, Timestamp(-5));
    match row.columns {
        Payload::Trade { size_raw, .. } => assert_eq!(size_raw, u64::MAX),
        other => panic!("expected a trade, got {other:?}"),
    }
    let shard = TapShard { pair: pair("A"), rows: vec![row] };
    assert_eq!(replay_tap_shards(&vec![shard]), Some(vec![ev]));
}

#[test]
fn document_replay_reads_and_merges_the_streams_asked_for() {
    let rows = vec![
        stream_row(&pair("A"), "tap_000000".to_string()),
        stream_row(&pair("B"), "tap_000002".to_string()),
        stream("C", "bond", "trade", "tap_000003"),
    ];
    assert_eq!(rows[0].asset_class, "crypto");
    assert_eq!(rows[0].kind_tag, "trade");
    assert_eq!(instrument_from_row(&rows[1]), Some(pair("B")));
    let request = ReplayRequest {
        instruments: vec![],
        kinds: vec![EventKind::Trade],
        from: Timestamp(1),
        to: Timestamp(9),
    };
    let reads = plan_reads(&request, &rows);
    assert_eq!(reads.len(), 2);
    assert_eq!(
        reads[1].query.text,
        "SELECT * FROM type::table($tbl) WHERE source_ts >= $from AND source_ts < $to ORDER BY ord ASC"
    );
    let binds: Vec<(&str, &SqlValue)> =
        reads[1].query.binds.iter().map(|b| (b.name, &b.value)).collect();
    assert_eq!(
        binds,
        vec![
            ("tbl", &SqlValue::Text("tap_000002".to_string())),
            ("from", &SqlValue::Int(1)),
            ("to", &SqlValue::Int(9)),
        ]
    );
    let empty = ReplayRequest { to: Timestamp(1), ..request };
    assert!(plan_reads(&empty, &rows).is_empty());

    let row = |ord: u64, ev: &MarketEvent| record_row(ord, ev).unwrap();
    let a = TapShard {
        pair: pair("A"),
        rows: vec![row(1, &trade("A", 8, 0)), row(3, &trade("A", 3, 1))],
    };
    let mut early = row(9, &trade("B", 4, 7));
    early.ord = None;
    let b = TapShard { pair: pair("B"), rows: vec![early, row(2, &trade("B", 5, 0))] };
    assert_eq!(
        replay_tap_shards(&vec![a, b]),
        Some(vec![trade("B", 4, 7), trade("A", 8, 0), trade("B", 5, 0), trade("A", 3, 1)])
    );
    let mut wrong = pair("A");
    wrong.kind = EventKind::Quote;
    let strange = TapShard { pair: wrong, rows: vec![row(0, &trade("A", 1, 0))] };
    assert_eq!(replay_tap_shards(&vec![strange]), None);
}

#[test]
fn controls_are_not_recorded() {
    let ev = MarketEvent::control(Timestamp(1), SeqNo(0), ControlKind::SessionClosing);
    assert_eq!(record_row(0, &ev), None);
}
