use datamancer::error::Error;
use datamancer::event::{
    Adjustment, AssetClass, Bar, BarInterval, ControlKind, EventKind, GapSpan, Instrument,
    MarketEvent, Price, ProviderId, Quantity, Quote, SeqNo, Timestamp, Trade,
};
use datamancer::request::{CacheKey, ReplayRequest};
use datamancer::storage::cache::{
    bytes_per_row, catalog, claim_range, coverage_id, coverage_report, create_table,
    decode_coverage, delete_statement, gaps_of, insert_statement, lookup_range, replay_events,
    replay_statement, schema_statements, store_statements, total_count,
    upsert_coverage_statement, CoverageRow,
};
use datamancer::storage::coverage::CoverageDoc;
use datamancer::storage::rows::encode_row;
use datamancer::storage::sql::{SqlValue, Statement};
use datamancer::storage::documents::{replay_rows, store_rows, Payload, StoredRow};
use datamancer::storage::surreal::{
    cache_definitions, count_query, delete_query, recounted, replay_query, row_id,
    shard_definition, tap_definitions, Query,
};
use datamancer::storage::turso::{end_of_store, rolls_back_after, StoreTx, TursoCache, TxEnd};
use datamancer::storage::turso_common::{
    check_user_version, is_busy, map_err, Retries, RetryStep, VersionStep,
};

fn inst() -> Instrument {
    Instrument::new(ProviderId::from_static("alpaca"), AssetClass::Equity, "AAPL")
}

fn key(kind: EventKind, from: i64, to: i64) -> CacheKey {
    CacheKey {
        instrument: inst(),
        kind,
        from: Timestamp(from),
        to: Timestamp(to),
        adjustment: Adjustment::Split,
    }
}

fn trade(ts: i64) -> MarketEvent {
    MarketEvent::Trade(Trade {
        instrument: inst(),
        source_ts: Timestamp(ts),
        rx_ts: Timestamp(ts + 1),
        seq: SeqNo(9),
        price: Price::from_raw(1_000_000_000),
        size: Quantity::from_units(1),
    })
}

fn daily(ts: i64) -> MarketEvent {
    MarketEvent::Bar(Bar {
        instrument: inst(),
        interval: BarInterval::OneDay,
        source_ts: Timestamp(ts),
        rx_ts: Timestamp(ts),
        seq: SeqNo(0),
        open: Price::from_raw(1),
        high: Price::from_raw(4),
        low: Price::from_raw(0),
        close: Price::from_raw(2),
        volume: Quantity::from_raw(u64::MAX),
    })
}

fn text(s: &str) -> SqlValue {
    SqlValue::Text(s.to_string())
}

fn doc(segments: Vec<(i64, i64)>) -> CoverageDoc {
    CoverageDoc { segments, event_count: 0, asset_class: None }
}

fn row(id: &str, segments: &str, count: i64, class: Option<&str>) -> CoverageRow {
    CoverageRow {
        id: id.to_string(),
        segments: segments.to_string(),
        event_count: count,
        asset_class: class.map(str::to_string),
    }
}

#[test]
fn coverage_ids_name_table_and_stored_mode() {
    assert_eq!(coverage_id(&key(EventKind::Trade, 0, 9)), "alpaca|AAPL|trades|raw");
    assert_eq!(
        coverage_id(&key(EventKind::Bar(BarInterval::OneDay), 5, 6)),
        "alpaca|AAPL|bars_1d|split"
    );
    assert_eq!(TursoCache::effective_adjustment(&key(EventKind::Quote, 0, 9)), Adjustment::Raw);
}

#[test]
fn catalog_skips_malformed_coverage_id() {
    let k = key(EventKind::Trade, 0, 100);
    let mut tx = StoreTx::claim(k, None);
    assert_eq!(
        tx.next_count().unwrap().params[3..],
        [SqlValue::Int(0), SqlValue::Int(100)]
    );
    tx.counted(1);
    assert!(tx.next_count().is_none());
    let stored = tx.finish().unwrap();
    let segments = match &stored.params[1] {
        SqlValue::Text(json) => json.clone(),
        other => panic!("expected json, got {other:?}"),
    };
    let rows = vec![
        row("alpaca|AAPL|trades|raw", &segments, 1, Some("equity")),
        row("broken-id-without-pipes", "[[0,50]]", 3, None),
        row("alpaca|AAPL|not_a_table|raw", "[[0,50]]", 3, None),
    ];
    let entries = catalog(&rows);
    assert_eq!(entries.len(), 1, "malformed ids are skipped, not panicked");
    assert_eq!(entries[0].symbol, "AAPL");
    assert_eq!(entries[0].kind, EventKind::Trade);
    assert_eq!(entries[0].provider.as_str(), "alpaca");
    assert_eq!(entries[0].adjustment, Adjustment::Raw);
    assert_eq!(entries[0].asset_class, Some(AssetClass::Equity));
    assert_eq!(entries[0].est_bytes, Some(32));
    assert_eq!(
        entries[0].segments,
        vec![GapSpan { from_source_ts: Timestamp(0), to_source_ts: Timestamp(100) }]
    );
}

#[test]
fn catalog_skips_unknown_modes_and_unreadable_segments() {
    let rows = vec![
        row("alpaca|AAPL|trades|odd", "[[0,50]]", 3, None),
        row("alpaca|AAPL|trades|raw", "not json", 3, None),
        row("alpaca|A|APL|trades|raw", "[]", 3, None),
        row("alpaca|MSFT|quotes|raw", "[[1,2],[5,9]]", -1, Some("vegetable")),
    ];
    let entries = catalog(&rows);
    assert_eq!(entries.len(), 1);
    assert_eq!(entries[0].symbol, "MSFT");
    assert_eq!(entries[0].event_count, u64::MAX);
    assert_eq!(entries[0].est_bytes, Some(u64::MAX));
    assert_eq!(entries[0].asset_class, None);
}

#[test]
fn segments_survive_their_json() {
    let k = key(EventKind::Trade, 0, 100);
    let d = doc(vec![(i64::MIN, -3), (0, i64::MAX)]);
    let stored = upsert_coverage_statement(&k, &d, 7).unwrap();
    assert_eq!(stored.params[0], text("alpaca|AAPL|trades|raw"));
    assert_eq!(stored.params[1], text("[[-9223372036854775808,-3],[0,9223372036854775807]]"));
    assert_eq!(stored.params[2], SqlValue::Int(7));
    assert_eq!(stored.params[3], text("equity"));
    let json = match &stored.params[1] {
        SqlValue::Text(json) => json.clone(),
        other => panic!("expected json, got {other:?}"),
    };
    let back = decode_coverage(&json, 7, Some("equity".to_string())).unwrap();
    assert_eq!(back.segments, d.segments);
    assert_eq!(back.event_count, 7);
    match decode_coverage("[[1]]", 0, None) {
        Err(Error::Storage(said)) => assert!(said.starts_with("coverage segments decode: ")),
        other => panic!("expected a storage error, got {other:?}"),
    }
}

#[test]
fn schema_has_a_table_per_kind() {
    let all = schema_statements();
    assert_eq!(all.len(), 9);
    assert_eq!(
        all[0],
        "CREATE TABLE IF NOT EXISTS trades (provider TEXT NOT NULL, symbol TEXT NOT NULL, adjustment TEXT NOT NULL, source_ts INTEGER NOT NULL, rx_ts INTEGER NOT NULL, price_raw INTEGER NOT NULL, size_raw INTEGER NOT NULL, PRIMARY KEY (provider, symbol, adjustment, source_ts))"
    );
    assert_eq!(all[7], create_table(EventKind::Bar(BarInterval::OneDay)));
    assert!(all[8].starts_with("CREATE TABLE IF NOT EXISTS coverage"));
    assert_eq!(bytes_per_row(EventKind::Quote), 48);
}

#[test]
fn storing_clears_the_range_and_skips_controls() {
    let k = key(EventKind::Bar(BarInterval::OneDay), 10, 20);
    let control = MarketEvent::control(Timestamp(12), SeqNo(0), ControlKind::SessionClosing);
    let plan = store_statements(&k, &[daily(11), control, daily(15)]);
    assert_eq!(plan.len(), 3);
    assert_eq!(plan[0], delete_statement(&k));
    assert_eq!(
        plan[0],
        Statement {
            sql: "DELETE FROM bars_1d WHERE provider = ?1 AND symbol = ?2 AND adjustment = ?3 AND source_ts >= ?4 AND source_ts < ?5".to_string(),
            params: vec![
                text("alpaca"),
                text("AAPL"),
                text("split"),
                SqlValue::Int(10),
                SqlValue::Int(20),
            ],
        }
    );
    assert_eq!(
        plan[2],
        Statement {
            sql: "INSERT OR REPLACE INTO bars_1d (provider, symbol, adjustment, source_ts, rx_ts, open_raw, high_raw, low_raw, close_raw, volume_raw) VALUES (?1, ?2, ?3, ?4, ?5, ?6, ?7, ?8, ?9, ?10)".to_string(),
            params: vec![
                text("alpaca"),
                text("AAPL"),
                text("split"),
                SqlValue::Int(15),
                SqlValue::Int(15),
                SqlValue::Int(1),
                SqlValue::Int(4),
                SqlValue::Int(0),
                SqlValue::Int(2),
                SqlValue::Int(-1),
            ],
        }
    );
    let only = MarketEvent::control(Timestamp(12), SeqNo(0), ControlKind::SessionClosing);
    assert!(insert_statement(&k, &only).is_none());
}

#[test]
fn replay_gives_back_what_was_stored() {
    let k = key(EventKind::Bar(BarInterval::OneDay), 10, 20);
    let rows = vec![encode_row(&daily(11)), encode_row(&daily(15))];
    assert_eq!(replay_events(&k, &rows), Some(vec![daily(11), daily(15)]));
    assert_eq!(replay_events(&k, &vec![vec![1, 2, 3]]), None);
    // Places are given anew when replayed events are delivered.
    let t = key(EventKind::Trade, 0, 100);
    match &replay_events(&t, &vec![encode_row(&trade(3))]).unwrap()[0] {
        MarketEvent::Trade(got) => {
            assert_eq!(got.seq, SeqNo(0));
            assert_eq!(got.source_ts, Timestamp(3));
            assert_eq!(got.rx_ts, Timestamp(4));
        }
        other => panic!("expected Trade, got {other:?}"),
    }
    let quote = MarketEvent::Quote(Quote {
        instrument: inst(),
        source_ts: Timestamp(5),
        rx_ts: Timestamp(6),
        seq: SeqNo(0),
        bid: Price::from_raw(-1),
        bid_size: Quantity::from_raw(2),
        ask: Price::from_raw(3),
        ask_size: Quantity::from_raw(u64::MAX - 1),
    });
    let q = key(EventKind::Quote, 0, 100);
    assert_eq!(replay_events(&q, &vec![encode_row(&quote)]), Some(vec![quote]));
}

fn request(instruments: Vec<Instrument>, kinds: Vec<EventKind>, from: i64, to: i64) -> ReplayRequest {
    ReplayRequest { instruments, kinds, from: Timestamp(from), to: Timestamp(to) }
}

#[test]
fn replay_reads_the_overlap_only() {
    let k = key(EventKind::Trade, 10, 20);
    let got = replay_statement(&k, &request(vec![], vec![], 15, 99)).unwrap();
    assert_eq!(
        got.sql,
        "SELECT source_ts, rx_ts, price_raw, size_raw FROM trades WHERE provider = ?1 AND symbol = ?2 AND adjustment = ?3 AND source_ts >= ?4 AND source_ts < ?5 ORDER BY source_ts ASC"
    );
    assert_eq!(got.params[3..], [SqlValue::Int(15), SqlValue::Int(20)]);
    assert!(replay_statement(&k, &request(vec![inst()], vec![EventKind::Trade], 0, 11)).is_some());
    assert!(replay_statement(&k, &request(vec![], vec![EventKind::Quote], 0, 99)).is_none());
    let other = Instrument::new(ProviderId::from_static("alpaca"), AssetClass::Equity, "MSFT");
    assert!(replay_statement(&k, &request(vec![other], vec![], 0, 99)).is_none());
    assert!(replay_statement(&k, &request(vec![], vec![], 20, 99)).is_none());
    assert!(replay_query(&k, &request(vec![], vec![], 20, 99)).is_none());
}

#[test]
fn stored_range_is_not_missing() {
    let k = key(EventKind::Trade, 10, 20);
    let claimed = claim_range(Some(doc(vec![(0, 5)])), &k);
    assert_eq!(claimed.segments, vec![(0, 5), (10, 20)]);
    assert_eq!(lookup_range(&Some(claimed), &k), Some((10, 20)));
    let whole = key(EventKind::Trade, 0, 30);
    let spans = gaps_of(Some(doc(vec![(0, 5), (10, 20)])), &whole);
    let got: Vec<(i64, i64)> =
        spans.iter().map(|s| (s.from_source_ts.0, s.to_source_ts.0)).collect();
    assert_eq!(got, vec![(5, 10), (20, 30)]);
    let all = gaps_of(None, &whole);
    assert_eq!(all.len(), 1);
    assert_eq!(lookup_range(&None, &whole), None);
    let report = coverage_report(10, 20, 3);
    assert_eq!((report.from, report.to, report.event_count), (Timestamp(10), Timestamp(20), 3));
    assert_eq!((report.first_seq, report.last_seq), (None, None));
}

#[test]
fn recounting_does_not_add_up_over_stores() {
    assert_eq!(total_count(&vec![2, 3]), 5);
    assert_eq!(total_count(&vec![u64::MAX, 1]), u64::MAX);
    let k = key(EventKind::Trade, 10, 20);
    let stale = CoverageDoc { segments: vec![(10, 20)], event_count: 99, asset_class: None };
    let fresh = recounted(claim_range(Some(stale), &k), &vec![4], &k);
    assert_eq!(fresh.event_count, 4);
    assert_eq!(fresh.segments, vec![(10, 20)]);
    assert_eq!(fresh.asset_class.as_deref(), Some("equity"));
}

#[test]
fn document_rows_are_identified_by_time() {
    let k = key(EventKind::Bar(BarInterval::OneDay), 10, 20);
    assert_eq!(row_id(&k, 15), "alpaca|AAPL|split|00000000000000000015");
    assert_eq!(row_id(&k, -15), "alpaca|AAPL|split|-0000000000000000015");
    let rows = store_rows(&k, &[daily(15)]);
    assert_eq!(rows.len(), 1);
    assert_eq!(rows[0].id, "alpaca|AAPL|split|00000000000000000015");
    assert_eq!(rows[0].provider, "alpaca");
    assert_eq!(rows[0].symbol, "AAPL");
    assert_eq!(rows[0].adjustment, "split");
    assert_eq!((rows[0].source_ts, rows[0].rx_ts), (Timestamp(15), Timestamp(15)));
    assert_eq!(
        rows[0].columns,
        Payload::Bar {
            open_raw: 1,
            high_raw: 4,
            low_raw: 0,
            close_raw: 2,
            volume_raw: u64::MAX,
        }
    );
    let query = delete_query(&k);
    let names: Vec<&str> = query.binds.iter().map(|b| b.name).collect();
    assert_eq!(names, vec!["tbl", "prov", "sym", "adj", "from", "to"]);
    assert_eq!(query.binds[0].value, text("bars_1d"));
    assert_eq!(count_query(&k, 1, 2).binds[5].value, SqlValue::Int(2));
}

#[test]
fn documents_need_their_tables_defined() {
    assert_eq!(cache_definitions().matches("DEFINE TABLE").count(), 9);
    assert_eq!(tap_definitions().matches("DEFINE TABLE").count(), 2);
    assert_eq!(
        shard_definition("tap_000001"),
        "DEFINE TABLE IF NOT EXISTS tap_000001 SCHEMALESS"
    );
}

#[test]
fn transactions_end_by_their_outcome() {
    assert_eq!(end_of_store(true), TxEnd::Commit);
    assert_eq!(end_of_store(false), TxEnd::Rollback);
    assert!(rolls_back_after(false));
    assert!(!rolls_back_after(true));
}

#[test]
fn fresh_database_is_stamped() {
    match check_user_version(0, 1, "test store") {
        VersionStep::Stamp(sql) => assert_eq!(sql, "PRAGMA user_version = 1"),
        other => panic!("expected a stamp, got {other:?}"),
    }
    assert!(matches!(check_user_version(1, 1, "test store"), VersionStep::Accept));
}

#[test]
fn mismatched_user_version_is_refused() {
    match check_user_version(999, 1, "test store") {
        VersionStep::Refuse(Error::Storage(said)) => {
            assert!(said.contains("999"), "unexpected error: {said}");
            assert_eq!(
                said,
                "test store schema version 999 does not match this build's 1; read it with a matching build or delete the file (data is recoverable from providers)"
            );
        }
        other => panic!("mismatch must refuse, got {other:?}"),
    }
}

#[test]
fn only_locked_databases_are_tried_again() {
    assert!(is_busy("database is locked"));
    assert!(!is_busy("no such table: nonexistent"));
    let mut tries = Retries::new();
    let mut again = 0;
    loop {
        match tries.failed("database is locked") {
            RetryStep::Again { .. } => again += 1,
            RetryStep::Fail(e) => {
                assert_eq!(
                    e,
                    Error::Storage(format!("turso: database is locked (after {again} busy retries)"))
                );
                break;
            }
        }
    }
    assert!(again > 0);
    match Retries::new().failed("no such table") {
        RetryStep::Fail(Error::Storage(said)) => {
            assert_eq!(said, "turso: no such table (after 0 busy retries)");
        }
        other => panic!("real errors are not tried again, got {other:?}"),
    }
    assert_eq!(map_err("x"), Error::Storage("turso: x".to_string()));
}

#[test]
fn document_rows_of_two_modes_stay_apart() {
    let split = key(EventKind::Bar(BarInterval::OneDay), 10, 20);
    let mut raw = key(EventKind::Bar(BarInterval::OneDay), 10, 20);
    raw.adjustment = Adjustment::Raw;
    assert_eq!(row_id(&raw, 15), "alpaca|AAPL|raw|00000000000000000015");
    assert_ne!(row_id(&split, 15), row_id(&raw, 15));
}

/// Whether the filter of a query takes a row of the one table.
fn takes(query: &Query, row: &StoredRow) -> bool {
    let bound = |name: &str| {
        let found = query.binds.iter().find(|b| b.name == name).unwrap();
        match &found.value {
            SqlValue::Text(s) => (s.clone(), 0),
            SqlValue::Int(n) => (String::new(), *n),
        }
    };
    bound("prov").0 == row.provider
        && bound("sym").0 == row.symbol
        && bound("adj").0 == row.adjustment
        && bound("from").1 <= row.source_ts.0
        && row.source_ts.0 < bound("to").1
}

fn store_documents(table: &mut Vec<StoredRow>, key: &CacheKey, events: &[MarketEvent]) {
    let clear = delete_query(key);
    table.retain(|row| !takes(&clear, row));
    for row in store_rows(key, events) {
        table.retain(|old| old.id != row.id);
        table.push(row);
    }
}

fn read_documents(table: &[StoredRow], key: &CacheKey, from: i64, to: i64) -> Vec<MarketEvent> {
    let query = replay_query(key, &request(vec![], vec![], from, to)).unwrap();
    let mut found: Vec<StoredRow> = Vec::new();
    for row in table.iter().filter(|row| takes(&query, row)) {
        found.push(StoredRow {
            id: row.id.clone(),
            provider: row.provider.clone(),
            symbol: row.symbol.clone(),
            adjustment: row.adjustment.clone(),
            source_ts: row.source_ts,
            rx_ts: row.rx_ts,
            columns: row.columns,
        });
    }
    found.sort_by_key(|row| row.source_ts.0);
    replay_rows(key, &found).unwrap()
}

#[test]
fn documents_read_back_the_store() {
    let split = key(EventKind::Bar(BarInterval::OneDay), 10, 20);
    let mut raw = key(EventKind::Bar(BarInterval::OneDay), 10, 20);
    raw.adjustment = Adjustment::Raw;
    let mut table: Vec<StoredRow> = Vec::new();
    store_documents(&mut table, &raw, &[daily(13)]);
    store_documents(&mut table, &split, &[daily(11), daily(12), daily(15)]);
    let closing = MarketEvent::control(Timestamp(12), SeqNo(0), ControlKind::SessionClosing);
    let mut later = daily(15);
    if let MarketEvent::Bar(b) = &mut later {
        b.close = Price::from_raw(3);
    }
    store_documents(&mut table, &split, &[daily(15), closing, later.clone(), daily(11)]);
    // The last event of a source time counts, and what is not stored again is gone.
    assert_eq!(read_documents(&table, &split, 0, 99), vec![daily(11), later.clone()]);
    assert_eq!(read_documents(&table, &split, 12, 99), vec![later]);
    // Another mode is left alone.
    assert_eq!(read_documents(&table, &raw, 0, 99), vec![daily(13)]);
    assert_eq!(table.iter().filter(|row| takes(&count_query(&split, 10, 20), row)).count(), 2);
}

#[test]
fn documents_of_another_kind_are_not_read() {
    let bars = key(EventKind::Bar(BarInterval::OneDay), 0, 100);
    assert_eq!(replay_rows(&bars, &store_rows(&bars, &[trade(3)])), None);
    let trades = key(EventKind::Trade, 0, 100);
    assert_eq!(store_rows(&trades, &[trade(3)])[0].adjustment, "raw");
    match &replay_rows(&trades, &store_rows(&trades, &[trade(3)])).unwrap()[0] {
        MarketEvent::Trade(got) => assert_eq!((got.seq, got.rx_ts), (SeqNo(0), Timestamp(4))),
        other => panic!("expected Trade, got {other:?}"),
    }
}
