//! The historical cache: identities of cached data, what storing writes, what
//! a replay reads, and the catalog.

use vstd::prelude::*;

use crate::error::{Error, ErrorView};
use crate::event::{
    Adjustment, AssetClass, BarInterval, EventKind, EventView, GapSpan, Instrument, InstrumentView,
    MarketEvent, ProviderId, SeqNo, Timestamp,
};
use crate::num::{cast_signed, cast_unsigned, signed, unsigned};
use crate::request::{CacheKey, ReplayRequest};
use crate::table::{pair_of, CacheKeyView};
use crate::text::{
    bar_free, bar_split, join, lemma_bar_split_bar, lemma_bar_split_extend, signed_decimal,
    split_bars, views_of,
};

use super::coverage::{covered, separated, sorted_disjoint, within, CoverageDoc};
use super::rows::{column_count, columns, decode_row, encode_row, event_of_row, row_of};
use super::sql::{int_values, push_ints, values_of, SqlValue, SqlValueView, Statement, StatementView};
use super::tags::{
    adjustment_text, asset_class_from_tag, asset_class_tag, asset_class_text, kind_for,
    lemma_names_are_bar_free, table_for, table_name,
};

verus! {

/// Schema version of cache files. It lies outside the range of tap-log files,
/// so that a file opened as the wrong store is refused.
pub const CACHE_SCHEMA_VERSION: i64 = 10;

/// Bytes of the numbers of one row; an estimate of what a row takes up.
pub open spec fn row_bytes(kind: EventKind) -> u64 {
    match kind {
        EventKind::Trade => 32,
        EventKind::Quote => 48,
        EventKind::Bar(_) => 56,
    }
}

pub fn bytes_per_row(kind: EventKind) -> (r: u64)
    ensures
        r == row_bytes(kind),
        r == 8 * columns(kind),
{
    match kind {
        EventKind::Trade => 32,
        EventKind::Quote => 48,
        EventKind::Bar(_) => 56,
    }
}

/// The mode that a key's data is stored under. Trades and quotes are never
/// adjusted; only bars are kept apart by mode.
pub open spec fn stored_adjustment(kind: EventKind, adjustment: Adjustment) -> Adjustment {
    match kind {
        EventKind::Bar(_) => adjustment,
        _ => Adjustment::Raw,
    }
}

pub fn effective_adjustment(key: &CacheKey) -> (r: Adjustment)
    ensures
        r == stored_adjustment(key.kind, key.adjustment),
{
    match key.kind {
        EventKind::Bar(_) => key.adjustment,
        EventKind::Trade => Adjustment::Raw,
        EventKind::Quote => Adjustment::Raw,
    }
}

/// The id of a coverage document.
pub open spec fn id_text(
    provider: Seq<char>,
    symbol: Seq<char>,
    kind: EventKind,
    adjustment: Adjustment,
) -> Seq<char> {
    provider + "|"@ + symbol + "|"@ + table_name(kind) + "|"@ + adjustment_text(adjustment)
}

pub open spec fn key_id(key: CacheKeyView) -> Seq<char> {
    id_text(
        key.instrument.provider,
        key.instrument.symbol,
        key.kind,
        stored_adjustment(key.kind, key.adjustment),
    )
}

/// The id of the coverage document of a key. It does not depend on the key's
/// range.
pub fn coverage_id(key: &CacheKey) -> (r: String)
    ensures
        r@ == key_id(key@),
{
    let mut id = join(key.instrument.provider.as_str(), "|");
    id = join(id.as_str(), key.instrument.symbol());
    id = join(id.as_str(), "|");
    id = join(id.as_str(), table_for(key.kind));
    id = join(id.as_str(), "|");
    join(id.as_str(), effective_adjustment(key).as_str())
}

/// A document's id splits into the four parts that it was made of, where
/// neither the provider nor the symbol has a bar in it.
pub proof fn law_coverage_ids_split(
    provider: Seq<char>,
    symbol: Seq<char>,
    kind: EventKind,
    adjustment: Adjustment,
)
    requires
        bar_free(provider),
        bar_free(symbol),
    ensures
        bar_split(id_text(provider, symbol, kind, adjustment)) == seq![
            provider,
            symbol,
            table_name(kind),
            adjustment_text(adjustment),
        ],
{
    let t = table_name(kind);
    let a = adjustment_text(adjustment);
    lemma_names_are_bar_free(kind, adjustment);
    reveal_strlit("|");
    let bar = seq!['|'];
    assert("|"@ =~= bar);
    let e = Seq::<char>::empty();
    let s1 = e + provider;
    lemma_bar_split_extend(e, provider);
    assert(bar_split(e) =~= seq![e]);
    assert(e + provider =~= provider);
    assert(bar_split(provider) =~= seq![provider]);
    lemma_bar_split_bar(provider);
    let s2 = provider + bar;
    assert(bar_split(s2) =~= seq![provider, e]);
    lemma_bar_split_extend(s2, symbol);
    assert(e + symbol =~= symbol);
    let s3 = s2 + symbol;
    assert(bar_split(s3) =~= seq![provider, symbol]);
    lemma_bar_split_bar(s3);
    let s4 = s3 + bar;
    assert(bar_split(s4) =~= seq![provider, symbol, e]);
    lemma_bar_split_extend(s4, t);
    assert(e + t =~= t);
    let s5 = s4 + t;
    assert(bar_split(s5) =~= seq![provider, symbol, t]);
    lemma_bar_split_bar(s5);
    let s6 = s5 + bar;
    assert(bar_split(s6) =~= seq![provider, symbol, t, e]);
    lemma_bar_split_extend(s6, a);
    assert(e + a =~= a);
    assert(bar_split(s6 + a) =~= seq![provider, symbol, t, a]);
    assert(id_text(provider, symbol, kind, adjustment) =~= s6 + a);
}

/// Two keys share a coverage document only where they agree on provider,
/// symbol, kind and stored mode.
pub proof fn law_coverage_ids_are_distinct(a: CacheKeyView, b: CacheKeyView)
    requires
        bar_free(a.instrument.provider) && bar_free(a.instrument.symbol),
        bar_free(b.instrument.provider) && bar_free(b.instrument.symbol),
        key_id(a) == key_id(b),
    ensures
        a.instrument.provider == b.instrument.provider,
        a.instrument.symbol == b.instrument.symbol,
        a.kind == b.kind,
        stored_adjustment(a.kind, a.adjustment) == stored_adjustment(b.kind, b.adjustment),
{
    let (aa, ba) = (
        stored_adjustment(a.kind, a.adjustment),
        stored_adjustment(b.kind, b.adjustment),
    );
    law_coverage_ids_split(a.instrument.provider, a.instrument.symbol, a.kind, aa);
    law_coverage_ids_split(b.instrument.provider, b.instrument.symbol, b.kind, ba);
    let pa = seq![a.instrument.provider, a.instrument.symbol, table_name(a.kind), adjustment_text(aa)];
    let pb = seq![b.instrument.provider, b.instrument.symbol, table_name(b.kind), adjustment_text(ba)];
    assert(pa == pb);
    assert(pa[0] == pb[0] && pa[1] == pb[1] && pa[2] == pb[2] && pa[3] == pb[3]);
    super::tags::law_table_names_are_distinct(a.kind, b.kind);
    super::tags::law_adjustment_names_are_distinct(aa, ba);
}

// ---------------------------------------------------------------------------
// Schema and statements of the file-backed cache
// ---------------------------------------------------------------------------

pub open spec fn payload_columns(kind: EventKind) -> Seq<char> {
    match kind {
        EventKind::Trade => "price_raw INTEGER NOT NULL, size_raw INTEGER NOT NULL"@,
        EventKind::Quote => "bid_raw INTEGER NOT NULL, bid_size_raw INTEGER NOT NULL, ask_raw INTEGER NOT NULL, ask_size_raw INTEGER NOT NULL"@,
        EventKind::Bar(_) => "open_raw INTEGER NOT NULL, high_raw INTEGER NOT NULL, low_raw INTEGER NOT NULL, close_raw INTEGER NOT NULL, volume_raw INTEGER NOT NULL"@,
    }
}

/// Column declarations of a kind's payload.
pub fn payload_declarations(kind: EventKind) -> (r: &'static str)
    ensures
        r@ == payload_columns(kind),
{
    match kind {
        EventKind::Trade => "price_raw INTEGER NOT NULL, size_raw INTEGER NOT NULL",
        EventKind::Quote => "bid_raw INTEGER NOT NULL, bid_size_raw INTEGER NOT NULL, ask_raw INTEGER NOT NULL, ask_size_raw INTEGER NOT NULL",
        EventKind::Bar(_) => "open_raw INTEGER NOT NULL, high_raw INTEGER NOT NULL, low_raw INTEGER NOT NULL, close_raw INTEGER NOT NULL, volume_raw INTEGER NOT NULL",
    }
}

pub open spec fn create_table_text(kind: EventKind) -> Seq<char> {
    "CREATE TABLE IF NOT EXISTS "@ + table_name(kind)
        + " (provider TEXT NOT NULL, symbol TEXT NOT NULL, adjustment TEXT NOT NULL, source_ts INTEGER NOT NULL, rx_ts INTEGER NOT NULL, "@
        + payload_columns(kind) + ", PRIMARY KEY (provider, symbol, adjustment, source_ts))"@
}

/// The statement that creates a kind's table. Provider, symbol, mode and
/// source time identify a row, so storing again overwrites.
pub fn create_table(kind: EventKind) -> (r: String)
    ensures
        r@ == create_table_text(kind),
{
    let mut s = join("CREATE TABLE IF NOT EXISTS ", table_for(kind));
    s =
    join(
        s.as_str(),
        " (provider TEXT NOT NULL, symbol TEXT NOT NULL, adjustment TEXT NOT NULL, source_ts INTEGER NOT NULL, rx_ts INTEGER NOT NULL, ",
    );
    s = join(s.as_str(), payload_declarations(kind));
    join(s.as_str(), ", PRIMARY KEY (provider, symbol, adjustment, source_ts))")
}

pub open spec fn create_coverage_text() -> Seq<char> {
    "CREATE TABLE IF NOT EXISTS coverage (id TEXT PRIMARY KEY, segments TEXT NOT NULL, event_count INTEGER NOT NULL, asset_class TEXT)"@
}

/// Every kind that has a table, in the order in which tables are created.
pub open spec fn all_kinds() -> Seq<EventKind> {
    seq![
        EventKind::Trade,
        EventKind::Quote,
        EventKind::Bar(BarInterval::OneSecond),
        EventKind::Bar(BarInterval::OneMinute),
        EventKind::Bar(BarInterval::FiveMinute),
        EventKind::Bar(BarInterval::FifteenMinute),
        EventKind::Bar(BarInterval::OneHour),
        EventKind::Bar(BarInterval::OneDay),
    ]
}

/// The statements that create the schema: a table per kind, and the coverage
/// table.
pub fn schema_statements() -> (r: Vec<String>)
    ensures
        r@.len() == 9,
        forall|i: int| 0 <= i < 8 ==> (#[trigger] r@[i])@ == create_table_text(all_kinds()[i]),
        r@[8]@ == create_coverage_text(),
{
    let kinds: Vec<EventKind> = vec![
        EventKind::Trade,
        EventKind::Quote,
        EventKind::Bar(BarInterval::OneSecond),
        EventKind::Bar(BarInterval::OneMinute),
        EventKind::Bar(BarInterval::FiveMinute),
        EventKind::Bar(BarInterval::FifteenMinute),
        EventKind::Bar(BarInterval::OneHour),
        EventKind::Bar(BarInterval::OneDay),
    ];
    proof {
        assert(kinds@ =~= all_kinds());
    }
    let mut out: Vec<String> = Vec::new();
    let mut k: usize = 0;
    while k < kinds.len()
        invariant
            0 <= k <= kinds@.len() == 8,
            kinds@ == all_kinds(),
            out@.len() == k,
            forall|i: int| 0 <= i < k ==> (#[trigger] out@[i])@ == create_table_text(all_kinds()[i]),
        decreases kinds@.len() - k,
    {
        out.push(create_table(kinds[k]));
        k += 1;
    }
    out.push(
        "CREATE TABLE IF NOT EXISTS coverage (id TEXT PRIMARY KEY, segments TEXT NOT NULL, event_count INTEGER NOT NULL, asset_class TEXT)".to_owned(),
    );
    out
}

/// The values that select a key's rows: provider, symbol and stored mode.
pub open spec fn key_values(key: CacheKeyView) -> Seq<SqlValueView> {
    seq![
        SqlValueView::Text(key.instrument.provider),
        SqlValueView::Text(key.instrument.symbol),
        SqlValueView::Text(adjustment_text(stored_adjustment(key.kind, key.adjustment))),
    ]
}

fn key_params(key: &CacheKey) -> (r: Vec<SqlValue>)
    ensures
        values_of(r@) == key_values(key@),
{
    let mut params: Vec<SqlValue> = Vec::new();
    params.push(SqlValue::text(key.instrument.provider.as_str()));
    params.push(SqlValue::text(key.instrument.symbol()));
    params.push(SqlValue::text(effective_adjustment(key).as_str()));
    proof {
        assert(values_of(params@) =~= key_values(key@));
    }
    params
}

pub open spec fn range_values(from: i64, to: i64) -> Seq<SqlValueView> {
    seq![SqlValueView::Int(from), SqlValueView::Int(to)]
}

fn with_range(params: Vec<SqlValue>, from: i64, to: i64) -> (r: Vec<SqlValue>)
    ensures
        values_of(r@) == values_of(params@) + range_values(from, to),
{
    let mut r = params;
    let ghost before = r@;
    r.push(SqlValue::Int(from));
    r.push(SqlValue::Int(to));
    proof {
        assert(values_of(r@) =~= values_of(before) + range_values(from, to));
    }
    r
}

pub open spec fn range_filter() -> Seq<char> {
    " WHERE provider = ?1 AND symbol = ?2 AND adjustment = ?3 AND source_ts >= ?4 AND source_ts < ?5"@
}

/// Deletion of a key's rows in its own range and mode, and of no others.
pub open spec fn delete_view(key: CacheKeyView) -> StatementView {
    StatementView {
        sql: "DELETE FROM "@ + table_name(key.kind) + range_filter(),
        params: key_values(key) + range_values(key.from.0, key.to.0),
    }
}

pub fn delete_statement(key: &CacheKey) -> (r: Statement)
    ensures
        r@ == delete_view(key@),
{
    let head = join("DELETE FROM ", table_for(key.kind));
    let sql = join(
        head.as_str(),
        " WHERE provider = ?1 AND symbol = ?2 AND adjustment = ?3 AND source_ts >= ?4 AND source_ts < ?5",
    );
    Statement { sql, params: with_range(key_params(key), key.from.0, key.to.0) }
}

/// The number of a key's rows in a range.
pub open spec fn count_view(key: CacheKeyView, from: i64, to: i64) -> StatementView {
    StatementView {
        sql: "SELECT count(*) FROM "@ + table_name(key.kind) + range_filter(),
        params: key_values(key) + range_values(from, to),
    }
}

pub fn count_statement(key: &CacheKey, from: i64, to: i64) -> (r: Statement)
    ensures
        r@ == count_view(key@, from, to),
{
    let head = join("SELECT count(*) FROM ", table_for(key.kind));
    let sql = join(
        head.as_str(),
        " WHERE provider = ?1 AND symbol = ?2 AND adjustment = ?3 AND source_ts >= ?4 AND source_ts < ?5",
    );
    Statement { sql, params: with_range(key_params(key), from, to) }
}

/// Storing of one data event under a key: trades and quotes go to their
/// tables, bars to the table of the key's kind.
pub open spec fn insert_view(key: CacheKeyView, ev: EventView) -> StatementView {
    StatementView {
        sql: match ev {
            EventView::Trade(_) => "INSERT OR REPLACE INTO trades (provider, symbol, adjustment, source_ts, rx_ts, price_raw, size_raw) VALUES (?1, ?2, ?3, ?4, ?5, ?6, ?7)"@,
            EventView::Quote(_) => "INSERT OR REPLACE INTO quotes (provider, symbol, adjustment, source_ts, rx_ts, bid_raw, bid_size_raw, ask_raw, ask_size_raw) VALUES (?1, ?2, ?3, ?4, ?5, ?6, ?7, ?8, ?9)"@,
            _ => "INSERT OR REPLACE INTO "@ + table_name(key.kind)
                + " (provider, symbol, adjustment, source_ts, rx_ts, open_raw, high_raw, low_raw, close_raw, volume_raw) VALUES (?1, ?2, ?3, ?4, ?5, ?6, ?7, ?8, ?9, ?10)"@,
        },
        params: key_values(key) + int_values(row_of(ev)),
    }
}

/// The statement that stores an event; controls are not stored.
pub fn insert_statement(key: &CacheKey, ev: &MarketEvent) -> (r: Option<Statement>)
    ensures
        r is Some <==> ev@.is_data(),
        r is Some ==> r->0@ == insert_view(key@, ev@),
{
    let sql = match ev {
        MarketEvent::Trade(_) => "INSERT OR REPLACE INTO trades (provider, symbol, adjustment, source_ts, rx_ts, price_raw, size_raw) VALUES (?1, ?2, ?3, ?4, ?5, ?6, ?7)".to_owned(),
        MarketEvent::Quote(_) => "INSERT OR REPLACE INTO quotes (provider, symbol, adjustment, source_ts, rx_ts, bid_raw, bid_size_raw, ask_raw, ask_size_raw) VALUES (?1, ?2, ?3, ?4, ?5, ?6, ?7, ?8, ?9)".to_owned(),
        MarketEvent::Bar(_) => {
            let head = join("INSERT OR REPLACE INTO ", table_for(key.kind));
            join(
                head.as_str(),
                " (provider, symbol, adjustment, source_ts, rx_ts, open_raw, high_raw, low_raw, close_raw, volume_raw) VALUES (?1, ?2, ?3, ?4, ?5, ?6, ?7, ?8, ?9, ?10)",
            )
        },
        MarketEvent::Control(_) => {
            return None;
        },
    };
    let mut params = key_params(key);
    push_ints(&mut params, &encode_row(ev));
    Some(Statement { sql, params })
}

/// The data events of a sequence, in order.
pub open spec fn data_events(evs: Seq<MarketEvent>) -> Seq<EventView>
    decreases evs.len(),
{
    if evs.len() == 0 {
        seq![]
    } else if evs.last()@.is_data() {
        data_events(evs.drop_last()).push(evs.last()@)
    } else {
        data_events(evs.drop_last())
    }
}

/// What storing writes of the events themselves: the claimed range is cleared
/// first, so that nothing stale survives in it, then every data event is
/// written in order.
pub open spec fn store_plan(key: CacheKeyView, evs: Seq<EventView>) -> Seq<StatementView> {
    seq![delete_view(key)] + Seq::new(evs.len(), |i: int| insert_view(key, evs[i]))
}

pub open spec fn statement_views(v: Seq<Statement>) -> Seq<StatementView> {
    Seq::new(v.len(), |i: int| v[i]@)
}

/// The row statements of a store, to be run in one transaction with the
/// update of the coverage.
pub fn store_statements(key: &CacheKey, events: &[MarketEvent]) -> (r: Vec<Statement>)
    ensures
        statement_views(r@) == store_plan(key@, data_events(events@)),
{
    let mut out: Vec<Statement> = Vec::new();
    out.push(delete_statement(key));
    let mut k: usize = 0;
    proof {
        assert(events@.take(0) =~= seq![]);
        assert(statement_views(out@) =~= store_plan(key@, data_events(events@.take(0))));
    }
    while k < events.len()
        invariant
            0 <= k <= events@.len(),
            statement_views(out@) == store_plan(key@, data_events(events@.take(k as int))),
        decreases events@.len() - k,
    {
        let ghost before = out@;
        let ghost prior = data_events(events@.take(k as int));
        proof {
            assert(events@.take(k as int + 1).drop_last() =~= events@.take(k as int));
            assert(events@.take(k as int + 1).last() == events@[k as int]);
        }
        if let Some(st) = insert_statement(key, &events[k]) {
            out.push(st);
            proof {
                assert(statement_views(out@) =~= statement_views(before).push(
                    insert_view(key@, events@[k as int]@),
                ));
                assert(store_plan(key@, prior.push(events@[k as int]@)) =~= store_plan(
                    key@,
                    prior,
                ).push(insert_view(key@, events@[k as int]@)));
            }
        }
        k += 1;
    }
    proof {
        assert(events@.take(k as int) =~= events@);
    }
    out
}

// ---------------------------------------------------------------------------
// Coverage documents
// ---------------------------------------------------------------------------

/// A pair of integers as JSON.
pub open spec fn pair_json(pair: (i64, i64)) -> Seq<char> {
    "["@ + signed_decimal(pair.0 as int) + ","@ + signed_decimal(pair.1 as int) + "]"@
}

/// Pairs of integers as JSON, with commas between them.
pub open spec fn pairs_json(pairs: Seq<(i64, i64)>) -> Seq<char>
    decreases pairs.len(),
{
    if pairs.len() == 0 {
        seq![]
    } else if pairs.len() == 1 {
        pair_json(pairs[0])
    } else {
        pairs_json(pairs.drop_last()) + ","@ + pair_json(pairs.last())
    }
}

/// A list of integer pairs as JSON, without white space.
pub open spec fn segments_json(segments: Seq<(i64, i64)>) -> Seq<char> {
    "["@ + pairs_json(segments) + "]"@
}

/// What `serde_json` reads from a text as a list of integer pairs, or how it
/// reports that the text is none.
pub uninterp spec fn segments_of_json(text: Seq<char>) -> Result<Seq<(i64, i64)>, Seq<char>>;

/// Calls `serde_json::to_string` on a list of pairs of integers. That cannot
/// fail for such a list. The text is the list in compact JSON, an array of
/// arrays of two decimal numbers, and reading it gives the list back.
#[verifier::external_body]
fn encode_segments(segments: &Vec<(i64, i64)>) -> (r: Result<String, String>)
    ensures
        r is Ok,
        r->Ok_0@ == segments_json(segments@),
        segments_of_json(r->Ok_0@) is Ok,
        segments_of_json(r->Ok_0@)->Ok_0 == segments@,
{
    serde_json::to_string(segments).map_err(|e| e.to_string())
}

/// Calls `serde_json::from_str` for a list of pairs of integers. The result,
/// and the text of the error, depend on the text alone.
#[verifier::external_body]
fn decode_segments(text: &str) -> (r: Result<Vec<(i64, i64)>, String>)
    ensures
        r is Ok <==> segments_of_json(text@) is Ok,
        r is Ok ==> r->Ok_0@ == segments_of_json(text@)->Ok_0,
        r is Err ==> r->Err_0@ == segments_of_json(text@)->Err_0,
{
    serde_json::from_str::<Vec<(i64, i64)>>(text).map_err(|e| e.to_string())
}

/// Reading of a coverage document.
pub open spec fn load_view(id: Seq<char>) -> StatementView {
    StatementView {
        sql: "SELECT segments, event_count, asset_class FROM coverage WHERE id = ?1"@,
        params: seq![SqlValueView::Text(id)],
    }
}

/// The statement that reads a key's coverage document.
pub fn load_coverage_statement(id: &str) -> (r: Statement)
    ensures
        r@ == load_view(id@),
{
    let mut params: Vec<SqlValue> = Vec::new();
    params.push(SqlValue::text(id));
    proof {
        assert(values_of(params@) =~= seq![SqlValueView::Text(id@)]);
    }
    Statement {
        sql: "SELECT segments, event_count, asset_class FROM coverage WHERE id = ?1".to_owned(),
        params,
    }
}

/// A coverage document with the given parts.
pub fn coverage_from_parts(
    parsed: Result<Vec<(i64, i64)>, String>,
    event_count: i64,
    asset_class: Option<String>,
) -> (r: Result<CoverageDoc, Error>)
    ensures
        match parsed {
            Ok(segments) => r is Ok && r->Ok_0 == (CoverageDoc {
                segments,
                event_count: unsigned(event_count),
                asset_class,
            }),
            Err(said) => r is Err && r->Err_0@ == ErrorView::Storage(
                "coverage segments decode: "@ + said@,
            ),
        },
{
    match parsed {
        Ok(segments) => Ok(
            CoverageDoc { segments, event_count: cast_unsigned(event_count), asset_class },
        ),
        Err(said) => Err(Error::Storage(join("coverage segments decode: ", said.as_str()))),
    }
}

/// The coverage document of a stored row.
pub fn decode_coverage(
    segments: &str,
    event_count: i64,
    asset_class: Option<String>,
) -> (r: Result<CoverageDoc, Error>)
    ensures
        match segments_of_json(segments@) {
            Ok(list) => r is Ok && r->Ok_0.segments@ == list && r->Ok_0.event_count == unsigned(
                event_count,
            ) && r->Ok_0.asset_class == asset_class,
            Err(said) => r is Err && r->Err_0@ == ErrorView::Storage(
                "coverage segments decode: "@ + said,
            ),
        },
{
    coverage_from_parts(decode_segments(segments), event_count, asset_class)
}

/// The document after the key's whole range has been stored. Coverage is what
/// the caller claims, not the span of what arrived: a range that was fetched
/// and is empty stays covered.
pub fn claim_range(existing: Option<CoverageDoc>, key: &CacheKey) -> (r: CoverageDoc)
    ensures
        ({
            let before = match existing {
                Some(doc) => doc.segments@,
                None => seq![],
            };
            &&& sorted_disjoint(before) ==> sorted_disjoint(r.segments@)
            &&& sorted_disjoint(before) ==> forall|t: int| #[trigger]
                covered(r.segments@, t) <==> (covered(before, t) || key.from.0 <= t < key.to.0)
            &&& sorted_disjoint(before) && separated(before) ==> separated(r.segments@)
            &&& key.to.0 <= key.from.0 ==> r.segments@ == before
        }),
        r.event_count == match existing {
            Some(doc) => doc.event_count,
            None => 0,
        },
        r.asset_class == match existing {
            Some(doc) => doc.asset_class,
            None => None,
        },
{
    let mut doc = match existing {
        Some(doc) => doc,
        None => CoverageDoc::default(),
    };
    let ghost before = doc;
    doc.merge_in(key.from.0, key.to.0, 0);
    proof {
        if before.wf() {
            assert forall|t: int| #[trigger] covered(doc.segments@, t) <==> (covered(
                before.segments@,
                t,
            ) || key.from.0 <= t < key.to.0) by {
                assert(doc.covers(t) <==> (before.covers(t) || key.from.0 <= t < key.to.0));
            }
        }
    }
    doc
}

/// The sum of counts, at most the largest count that can be held.
pub open spec fn total(counts: Seq<u64>) -> int
    decreases counts.len(),
{
    if counts.len() == 0 {
        0
    } else {
        let sum = total(counts.drop_last()) + counts.last();
        if sum > u64::MAX {
            u64::MAX as int
        } else {
            sum
        }
    }
}

/// The number of stored events, recounted over the covered segments, so that
/// storing again does not drive it up.
pub fn total_count(counts: &Vec<u64>) -> (r: u64)
    ensures
        r == total(counts@),
{
    let mut sum: u64 = 0;
    let mut k: usize = 0;
    proof {
        assert(counts@.take(0) =~= seq![]);
    }
    while k < counts.len()
        invariant
            0 <= k <= counts@.len(),
            sum == total(counts@.take(k as int)),
        decreases counts@.len() - k,
    {
        proof {
            assert(counts@.take(k as int + 1).drop_last() =~= counts@.take(k as int));
        }
        sum = sum.saturating_add(counts[k]);
        k += 1;
    }
    proof {
        assert(counts@.take(k as int) =~= counts@);
    }
    sum
}

/// Writing of a coverage document.
pub open spec fn upsert_view(
    key: CacheKeyView,
    segments: Seq<(i64, i64)>,
    count: u64,
) -> StatementView {
    StatementView {
        sql: "INSERT OR REPLACE INTO coverage (id, segments, event_count, asset_class) VALUES (?1, ?2, ?3, ?4)"@,
        params: seq![
            SqlValueView::Text(key_id(key)),
            SqlValueView::Text(segments_json(segments)),
            SqlValueView::Int(signed(count)),
            SqlValueView::Text(asset_class_text(key.instrument.asset_class)),
        ],
    }
}

/// The statement that writes a document with a recounted number of events.
pub fn upsert_coverage_statement(key: &CacheKey, doc: &CoverageDoc, count: u64) -> (r: Result<
    Statement,
    Error,
>)
    ensures
        r is Ok,
        r->Ok_0@ == upsert_view(key@, doc.segments@, count),
        segments_of_json(segments_json(doc.segments@)) is Ok,
        segments_of_json(segments_json(doc.segments@))->Ok_0 == doc.segments@,
{
    let segments = match encode_segments(&doc.segments) {
        Ok(text) => text,
        Err(said) => {
            return Err(Error::Storage(join("coverage segments encode: ", said.as_str())));
        },
    };
    let mut params: Vec<SqlValue> = Vec::new();
    params.push(SqlValue::Text(coverage_id(key)));
    params.push(SqlValue::Text(segments));
    params.push(SqlValue::Int(cast_signed(count)));
    params.push(SqlValue::text(asset_class_tag(key.instrument.asset_class())));
    proof {
        assert(values_of(params@) =~= upsert_view(key@, doc.segments@, count).params);
    }
    Ok(
        Statement {
            sql: "INSERT OR REPLACE INTO coverage (id, segments, event_count, asset_class) VALUES (?1, ?2, ?3, ?4)".to_owned(),
            params,
        },
    )
}

/// The coverage that a lookup reports.
#[derive(Clone, Copy, Debug, PartialEq, Eq)]
pub struct CacheCoverage {
    pub from: Timestamp,
    pub to: Timestamp,
    pub event_count: u64,
    pub first_seq: Option<SeqNo>,
    pub last_seq: Option<SeqNo>,
}

/// A covered range with its number of events. Cached events have no places.
pub fn coverage_report(from: i64, to: i64, event_count: u64) -> (r: CacheCoverage)
    ensures
        r == (CacheCoverage {
            from: Timestamp(from),
            to: Timestamp(to),
            event_count,
            first_seq: None,
            last_seq: None,
        }),
{
    CacheCoverage {
        from: Timestamp(from),
        to: Timestamp(to),
        event_count,
        first_seq: None,
        last_seq: None,
    }
}

/// The part of the key's range that a lookup reports: the widest in one
/// covered segment.
pub fn lookup_range(doc: &Option<CoverageDoc>, key: &CacheKey) -> (r: Option<(i64, i64)>)
    ensures
        doc is None ==> r is None,
        doc matches Some(d) ==> {
            &&& r is None <==> forall|i: int|
                0 <= i < d.segments@.len() ==> !super::coverage::overlaps(
                    #[trigger] d.segments@[i],
                    key.from.0,
                    key.to.0,
                )
            &&& r matches Some(best) ==> exists|i: int|
                {
                    &&& 0 <= i < d.segments@.len()
                    &&& best == super::coverage::overlap(
                        #[trigger] d.segments@[i],
                        key.from.0,
                        key.to.0,
                    )
                    &&& best.0 < best.1
                    &&& forall|j: int|
                        0 <= j < d.segments@.len() ==> super::coverage::width(
                            super::coverage::overlap(
                                #[trigger] d.segments@[j],
                                key.from.0,
                                key.to.0,
                            ),
                        ) <= super::coverage::width(best)
                    &&& forall|j: int|
                        0 <= j < i ==> super::coverage::width(
                            super::coverage::overlap(
                                #[trigger] d.segments@[j],
                                key.from.0,
                                key.to.0,
                            ),
                        ) < super::coverage::width(best)
                }
        },
{
    match doc {
        Some(d) => d.intersect(key.from.0, key.to.0),
        None => None,
    }
}

pub open spec fn spans(segments: Seq<(i64, i64)>) -> Seq<GapSpan> {
    Seq::new(
        segments.len(),
        |i: int|
            GapSpan {
                from_source_ts: Timestamp(segments[i].0),
                to_source_ts: Timestamp(segments[i].1),
            },
    )
}

fn to_spans(segments: &Vec<(i64, i64)>) -> (r: Vec<GapSpan>)
    ensures
        r@ == spans(segments@),
{
    let mut out: Vec<GapSpan> = Vec::new();
    let mut k: usize = 0;
    while k < segments.len()
        invariant
            0 <= k <= segments@.len(),
            out@ == spans(segments@).take(k as int),
        decreases segments@.len() - k,
    {
        let (a, b) = segments[k];
        out.push(GapSpan { from_source_ts: Timestamp(a), to_source_ts: Timestamp(b) });
        proof {
            assert(out@ =~= spans(segments@).take(k as int + 1));
        }
        k += 1;
    }
    proof {
        assert(out@ =~= spans(segments@));
    }
    out
}

/// What is missing of the key's range: everything where nothing is cached.
pub fn gaps_of(doc: Option<CoverageDoc>, key: &CacheKey) -> (r: Vec<GapSpan>)
    ensures
        ({
            let segs = match doc {
                Some(d) => d.segments@,
                None => seq![],
            };
            sorted_disjoint(segs) ==> {
                &&& forall|t: int| #[trigger]
                    crate::session::segment::in_some_gap(r@, t) <==> (key.from.0 <= t < key.to.0
                        && !covered(segs, t))
                &&& crate::session::segment::gaps_within_range(r@, key.from, key.to)
            }
        }),
        key.from.0 >= key.to.0 ==> r@.len() == 0,
{
    let doc = match doc {
        Some(d) => d,
        None => CoverageDoc::default(),
    };
    let gaps = doc.gaps_within(key.from.0, key.to.0);
    let r = to_spans(&gaps);
    proof {
        let segs = doc.segments@;
        if sorted_disjoint(segs) {
            assert forall|t: int| #[trigger]
                crate::session::segment::in_some_gap(r@, t) <==> (key.from.0 <= t < key.to.0
                    && !covered(segs, t)) by {
                lemma_spans_cover(gaps@, t);
                assert(covered(gaps@, t) <==> (key.from.0 <= t < key.to.0 && !doc.covers(t)));
            }
            assert forall|i: int| 0 <= i < r@.len() implies key.from.0 <= (
            #[trigger] r@[i]).from_source_ts.0 && r@[i].from_source_ts.0 <= r@[i].to_source_ts.0
                && r@[i].to_source_ts.0 <= key.to.0 by {
                assert(gaps@[i].0 < gaps@[i].1);
                assert(within(gaps@[i], gaps@[i].0 as int));
                assert(covered(gaps@, gaps@[i].0 as int));
                assert(within(gaps@[i], gaps@[i].1 - 1));
                assert(covered(gaps@, gaps@[i].1 - 1));
            }
            assert forall|i: int, j: int| 0 <= i < j < r@.len() implies (
            #[trigger] r@[i]).to_source_ts.0 <= (#[trigger] r@[j]).from_source_ts.0 by {
                assert(gaps@[i].1 <= gaps@[j].0);
            }
        }
    }
    r
}

proof fn lemma_spans_cover(gaps: Seq<(i64, i64)>, t: int)
    ensures
        crate::session::segment::in_some_gap(spans(gaps), t) <==> covered(gaps, t),
{
    if covered(gaps, t) {
        let i = choose|i: int| 0 <= i < gaps.len() && #[trigger] within(gaps[i], t);
        assert(spans(gaps)[i].contains(t));
    }
    if crate::session::segment::in_some_gap(spans(gaps), t) {
        let i = choose|i: int| 0 <= i < spans(gaps).len() && (#[trigger] spans(gaps)[i]).contains(t);
        assert(within(gaps[i], t));
    }
}

/// A stored range is never fetched again: once a key's range has been claimed,
/// nothing of it is missing, whatever arrived.
pub proof fn law_stored_range_is_not_missing(
    before: Seq<(i64, i64)>,
    after: Seq<(i64, i64)>,
    key: CacheKeyView,
    missing: Seq<GapSpan>,
)
    requires
        forall|t: int| #[trigger]
            covered(after, t) <==> (covered(before, t) || key.from.0 <= t < key.to.0),
        forall|t: int| #[trigger]
            crate::session::segment::in_some_gap(missing, t) <==> (key.from.0 <= t < key.to.0
                && !covered(after, t)),
    ensures
        forall|t: int| !#[trigger] crate::session::segment::in_some_gap(missing, t),
{
    assert forall|t: int| !#[trigger] crate::session::segment::in_some_gap(missing, t) by {
        assert(covered(after, t) <==> (covered(before, t) || key.from.0 <= t < key.to.0));
    }
}

// ---------------------------------------------------------------------------
// Catalog
// ---------------------------------------------------------------------------

/// One line of the catalog.
#[derive(Debug)]
pub struct CacheCatalogEntry {
    pub provider: ProviderId,
    pub symbol: String,
    pub kind: EventKind,
    pub adjustment: Adjustment,
    pub segments: Vec<GapSpan>,
    pub event_count: u64,
    pub asset_class: Option<AssetClass>,
    pub est_bytes: Option<u64>,
}

/// One row of the coverage table.
#[derive(Debug)]
pub struct CoverageRow {
    pub id: String,
    pub segments: String,
    pub event_count: i64,
    pub asset_class: Option<String>,
}

/// The product, at most the largest that can be held.
pub open spec fn bounded_product(a: int, b: int) -> int {
    if a * b > u64::MAX {
        u64::MAX as int
    } else {
        a * b
    }
}

fn saturating_product(a: u64, b: u64) -> (r: u64)
    ensures
        r == bounded_product(a as int, b as int),
{
    proof {
        assert(0 <= a * b <= u64::MAX * u64::MAX) by (nonlinear_arith)
            requires
                0 <= a <= u64::MAX,
                0 <= b <= u64::MAX,
        ;
    }
    let p: u128 = (a as u128) * (b as u128);
    if p > u64::MAX as u128 {
        u64::MAX
    } else {
        p as u64
    }
}

/// Whether an id has four parts, of which the third names a kind and the
/// fourth a mode.
pub open spec fn id_parses(id: Seq<char>) -> bool {
    let parts = bar_split(id);
    &&& parts.len() == 4
    &&& exists|k: EventKind| #[trigger] table_name(k) == parts[2]
    &&& exists|a: Adjustment| #[trigger] adjustment_text(a) == parts[3]
}

/// Whether an entry is what the catalog lists for a document.
pub open spec fn lists(
    e: CacheCatalogEntry,
    id: Seq<char>,
    segments: Seq<(i64, i64)>,
    event_count: u64,
    asset_class: Option<String>,
) -> bool {
    let parts = bar_split(id);
    &&& parts.len() == 4
    &&& e.provider@ == parts[0]
    &&& e.symbol@ == parts[1]
    &&& table_name(e.kind) == parts[2]
    &&& adjustment_text(e.adjustment) == parts[3]
    &&& e.segments@ == spans(segments)
    &&& e.event_count == event_count
    &&& e.est_bytes is Some
    &&& e.est_bytes->0 == bounded_product(event_count as int, row_bytes(e.kind) as int)
    &&& match asset_class {
        None => e.asset_class is None,
        Some(name) => match e.asset_class {
            Some(c) => asset_class_text(c) == name@,
            None => forall|c: AssetClass| #[trigger] asset_class_text(c) != name@,
        },
    }
}

/// The line of one document, whose segments have been read; `None` where the
/// id is malformed.
pub fn catalog_line(
    id: &str,
    segments: &Vec<(i64, i64)>,
    event_count: u64,
    asset_class: &Option<String>,
) -> (r: Option<CacheCatalogEntry>)
    ensures
        r is Some <==> id_parses(id@),
        r is Some ==> lists(r->0, id@, segments@, event_count, *asset_class),
{
    let parts = split_bars(id);
    proof {
        assert(views_of(parts@).len() == bar_split(id@).len());
    }
    if parts.len() != 4 {
        return None;
    }
    proof {
        assert(forall|i: int| 0 <= i < 4 ==> (#[trigger] views_of(parts@)[i]) == parts@[i]@);
        assert(bar_split(id@)[0] == parts@[0]@);
        assert(bar_split(id@)[1] == parts@[1]@);
        assert(bar_split(id@)[2] == parts@[2]@);
        assert(bar_split(id@)[3] == parts@[3]@);
    }
    let kind = match kind_for(parts[2].as_str()) {
        Some(kind) => kind,
        None => {
            return None;
        },
    };
    let adjustment = match Adjustment::from_token(parts[3].as_str()) {
        Some(adjustment) => adjustment,
        None => {
            return None;
        },
    };
    let class = match asset_class {
        Some(name) => asset_class_from_tag(name.as_str()),
        None => None,
    };
    Some(
        CacheCatalogEntry {
            provider: ProviderId::new(parts[0].clone()),
            symbol: parts[1].clone(),
            kind,
            adjustment,
            segments: to_spans(segments),
            event_count,
            asset_class: class,
            est_bytes: Some(saturating_product(event_count, bytes_per_row(kind))),
        },
    )
}

/// Whether a row is listed: its id is well formed and its segments can be
/// read.
pub open spec fn row_listed(row: CoverageRow) -> bool {
    id_parses(row.id@) && segments_of_json(row.segments@) is Ok
}

/// The rows that are listed, in order.
pub open spec fn listed_rows(rows: Seq<CoverageRow>) -> Seq<CoverageRow>
    decreases rows.len(),
{
    if rows.len() == 0 {
        seq![]
    } else if row_listed(rows.last()) {
        listed_rows(rows.drop_last()).push(rows.last())
    } else {
        listed_rows(rows.drop_last())
    }
}

pub open spec fn lists_row(e: CacheCatalogEntry, row: CoverageRow) -> bool {
    lists(
        e,
        row.id@,
        segments_of_json(row.segments@)->Ok_0,
        unsigned(row.event_count),
        row.asset_class,
    )
}

/// The catalog: one line for every well-formed row, in order. Malformed rows
/// are passed over.
pub fn catalog(rows: &Vec<CoverageRow>) -> (r: Vec<CacheCatalogEntry>)
    ensures
        r@.len() == listed_rows(rows@).len(),
        forall|i: int| 0 <= i < r@.len() ==> lists_row(#[trigger] r@[i], listed_rows(rows@)[i]),
{
    let mut out: Vec<CacheCatalogEntry> = Vec::new();
    let mut k: usize = 0;
    proof {
        assert(rows@.take(0) =~= seq![]);
    }
    while k < rows.len()
        invariant
            0 <= k <= rows@.len(),
            out@.len() == listed_rows(rows@.take(k as int)).len(),
            forall|i: int|
                0 <= i < out@.len() ==> lists_row(
                    #[trigger] out@[i],
                    listed_rows(rows@.take(k as int))[i],
                ),
        decreases rows@.len() - k,
    {
        let row = &rows[k];
        proof {
            assert(rows@.take(k as int + 1).drop_last() =~= rows@.take(k as int));
            assert(rows@.take(k as int + 1).last() == rows@[k as int]);
        }
        if let Ok(segments) = decode_segments(row.segments.as_str()) {
            if let Some(line) = catalog_line(
                row.id.as_str(),
                &segments,
                cast_unsigned(row.event_count),
                &row.asset_class,
            ) {
                out.push(line);
            }
        }
        k += 1;
    }
    proof {
        assert(rows@.take(k as int) =~= rows@);
    }
    out
}

/// The catalog finds every key again: the id of a key's document is well
/// formed and names the key's provider, symbol, kind and stored mode.
pub proof fn law_catalog_finds_stored_keys(key: CacheKeyView, e: CacheCatalogEntry,
    segments: Seq<(i64, i64)>, count: u64, asset_class: Option<String>)
    requires
        bar_free(key.instrument.provider),
        bar_free(key.instrument.symbol),
    ensures
        id_parses(key_id(key)),
        lists(e, key_id(key), segments, count, asset_class) ==> {
            &&& e.provider@ == key.instrument.provider
            &&& e.symbol@ == key.instrument.symbol
            &&& e.kind == key.kind
            &&& e.adjustment == stored_adjustment(key.kind, key.adjustment)
        },
{
    let adj = stored_adjustment(key.kind, key.adjustment);
    law_coverage_ids_split(key.instrument.provider, key.instrument.symbol, key.kind, adj);
    let parts = bar_split(key_id(key));
    assert(table_name(key.kind) == parts[2]);
    assert(adjustment_text(adj) == parts[3]);
    if lists(e, key_id(key), segments, count, asset_class) {
        super::tags::law_table_names_are_distinct(e.kind, key.kind);
        super::tags::law_adjustment_names_are_distinct(e.adjustment, adj);
    }
}

// ---------------------------------------------------------------------------
// Replay
// ---------------------------------------------------------------------------

/// The part of a key's range that a request asks for; `None` where the request
/// leaves out the key's instrument or kind, or nothing remains. An empty list
/// leaves nothing out.
pub open spec fn narrowed(key: CacheKeyView, request: ReplayRequest) -> Option<(i64, i64)> {
    let from = if request.from.0 >= key.from.0 {
        request.from.0
    } else {
        key.from.0
    };
    let to = if request.to.0 <= key.to.0 {
        request.to.0
    } else {
        key.to.0
    };
    if (request.instruments@.len() == 0 || asks_for_instrument(
        request.instruments@,
        key.instrument,
    )) && (request.kinds@.len() == 0 || request.kinds@.contains(key.kind)) && from < to {
        Some((from, to))
    } else {
        None
    }
}

pub open spec fn asks_for_instrument(instruments: Seq<Instrument>, inst: InstrumentView) -> bool {
    exists|i: int| 0 <= i < instruments.len() && (#[trigger] instruments[i])@ == inst
}

pub fn has_instrument(instruments: &Vec<Instrument>, inst: &Instrument) -> (r: bool)
    ensures
        r == asks_for_instrument(instruments@, inst@),
{
    let mut k: usize = 0;
    while k < instruments.len()
        invariant
            0 <= k <= instruments@.len(),
            forall|i: int| 0 <= i < k ==> (#[trigger] instruments@[i])@ != inst@,
        decreases instruments@.len() - k,
    {
        if instruments[k].same(inst) {
            return true;
        }
        k += 1;
    }
    false
}

pub fn has_kind(kinds: &Vec<EventKind>, kind: EventKind) -> (r: bool)
    ensures
        r == kinds@.contains(kind),
{
    let mut k: usize = 0;
    while k < kinds.len()
        invariant
            0 <= k <= kinds@.len(),
            forall|i: int| 0 <= i < k ==> #[trigger] kinds@[i] != kind,
        decreases kinds@.len() - k,
    {
        if kinds[k] == kind {
            return true;
        }
        k += 1;
    }
    false
}

pub fn narrow(key: &CacheKey, request: &ReplayRequest) -> (r: Option<(i64, i64)>)
    ensures
        r == narrowed(key@, *request),
{
    let from: i64 = if request.from.0 >= key.from.0 {
        request.from.0
    } else {
        key.from.0
    };
    let to: i64 = if request.to.0 <= key.to.0 {
        request.to.0
    } else {
        key.to.0
    };
    let instrument_matches = request.instruments.len() == 0 || has_instrument(
        &request.instruments,
        &key.instrument,
    );
    if !instrument_matches || (request.kinds.len() > 0 && !has_kind(&request.kinds, key.kind))
        || from >= to {
        None
    } else {
        Some((from, to))
    }
}

pub open spec fn select_columns(kind: EventKind) -> Seq<char> {
    match kind {
        EventKind::Trade => "SELECT source_ts, rx_ts, price_raw, size_raw FROM "@,
        EventKind::Quote => "SELECT source_ts, rx_ts, bid_raw, bid_size_raw, ask_raw, ask_size_raw FROM "@,
        EventKind::Bar(_) => "SELECT source_ts, rx_ts, open_raw, high_raw, low_raw, close_raw, volume_raw FROM "@,
    }
}

/// Reading of a key's rows in a range, in the order of source time.
pub open spec fn scan_view(key: CacheKeyView, from: i64, to: i64) -> StatementView {
    StatementView {
        sql: select_columns(key.kind) + table_name(key.kind) + range_filter()
            + " ORDER BY source_ts ASC"@,
        params: key_values(key) + range_values(from, to),
    }
}

/// The statement that reads what a request asks for of a key, if anything.
pub fn replay_statement(key: &CacheKey, request: &ReplayRequest) -> (r: Option<Statement>)
    ensures
        r is Some <==> narrowed(key@, *request) is Some,
        narrowed(key@, *request) matches Some(range) ==> r->0@ == scan_view(
            key@,
            range.0,
            range.1,
        ),
{
    let (from, to) = match narrow(key, request) {
        Some(range) => range,
        None => {
            return None;
        },
    };
    let head = match key.kind {
        EventKind::Trade => "SELECT source_ts, rx_ts, price_raw, size_raw FROM ",
        EventKind::Quote => "SELECT source_ts, rx_ts, bid_raw, bid_size_raw, ask_raw, ask_size_raw FROM ",
        EventKind::Bar(_) => "SELECT source_ts, rx_ts, open_raw, high_raw, low_raw, close_raw, volume_raw FROM ",
    };
    let mut sql = join(head, table_for(key.kind));
    sql =
    join(
        sql.as_str(),
        " WHERE provider = ?1 AND symbol = ?2 AND adjustment = ?3 AND source_ts >= ?4 AND source_ts < ?5",
    );
    sql = join(sql.as_str(), " ORDER BY source_ts ASC");
    Some(Statement { sql, params: with_range(key_params(key), from, to) })
}

/// The events of rows that were read for a key, in order and not yet placed;
/// `None` where a row has not the columns of the key's kind.
pub fn replay_events(key: &CacheKey, rows: &Vec<Vec<i64>>) -> (r: Option<Vec<MarketEvent>>)
    ensures
        r is Some <==> forall|i: int|
            0 <= i < rows@.len() ==> (#[trigger] rows@[i])@.len() == columns(key.kind),
        r matches Some(evs) ==> evs@.len() == rows@.len() && forall|i: int|
            0 <= i < evs@.len() ==> (#[trigger] evs@[i])@ == event_of_row(
                key.instrument@,
                key.kind,
                rows@[i]@,
                SeqNo(0),
            ),
{
    let width: usize = column_count(key.kind);
    let mut out: Vec<MarketEvent> = Vec::new();
    let mut k: usize = 0;
    while k < rows.len()
        invariant
            width == columns(key.kind),
            0 <= k <= rows@.len(),
            forall|i: int| 0 <= i < k ==> (#[trigger] rows@[i])@.len() == columns(key.kind),
            out@.len() == k,
            forall|i: int|
                0 <= i < k ==> (#[trigger] out@[i])@ == event_of_row(
                    key.instrument@,
                    key.kind,
                    rows@[i]@,
                    SeqNo(0),
                ),
        decreases rows@.len() - k,
    {
        if rows[k].len() != width {
            return None;
        }
        out.push(decode_row(&key.instrument, key.kind, &rows[k], SeqNo(0)));
        k += 1;
    }
    Some(out)
}

/// What a replay gives back of a store: the integers that storing an event
/// writes behind the key's own values are, read as a row of the key, the
/// event itself without its place.
pub proof fn law_replay_gives_back_what_was_stored(key: CacheKeyView, ev: EventView)
    requires
        pair_of(ev) == Some((key.instrument, key.kind)),
    ensures
        insert_view(key, ev).params == key_values(key) + int_values(row_of(ev)),
        row_of(ev).len() == columns(key.kind),
        event_of_row(key.instrument, key.kind, row_of(ev), SeqNo(0)) == ev.with_seq(SeqNo(0)),
        insert_view(key, ev).sql == "INSERT OR REPLACE INTO "@ + table_name(key.kind)
            + insert_columns(key.kind),
{
    super::rows::law_rows_round_trip(ev, SeqNo(0));
    reveal_strlit("INSERT OR REPLACE INTO ");
    reveal_strlit("trades");
    reveal_strlit("quotes");
    reveal_strlit(
        "INSERT OR REPLACE INTO trades (provider, symbol, adjustment, source_ts, rx_ts, price_raw, size_raw) VALUES (?1, ?2, ?3, ?4, ?5, ?6, ?7)",
    );
    reveal_strlit(
        " (provider, symbol, adjustment, source_ts, rx_ts, price_raw, size_raw) VALUES (?1, ?2, ?3, ?4, ?5, ?6, ?7)",
    );
    reveal_strlit(
        "INSERT OR REPLACE INTO quotes (provider, symbol, adjustment, source_ts, rx_ts, bid_raw, bid_size_raw, ask_raw, ask_size_raw) VALUES (?1, ?2, ?3, ?4, ?5, ?6, ?7, ?8, ?9)",
    );
    reveal_strlit(
        " (provider, symbol, adjustment, source_ts, rx_ts, bid_raw, bid_size_raw, ask_raw, ask_size_raw) VALUES (?1, ?2, ?3, ?4, ?5, ?6, ?7, ?8, ?9)",
    );
    assert(insert_view(key, ev).sql =~= "INSERT OR REPLACE INTO "@ + table_name(key.kind)
        + insert_columns(key.kind));
}

/// Columns and placeholders of a kind's rows.
pub open spec fn insert_columns(kind: EventKind) -> Seq<char> {
    match kind {
        EventKind::Trade => " (provider, symbol, adjustment, source_ts, rx_ts, price_raw, size_raw) VALUES (?1, ?2, ?3, ?4, ?5, ?6, ?7)"@,
        EventKind::Quote => " (provider, symbol, adjustment, source_ts, rx_ts, bid_raw, bid_size_raw, ask_raw, ask_size_raw) VALUES (?1, ?2, ?3, ?4, ?5, ?6, ?7, ?8, ?9)"@,
        EventKind::Bar(_) => " (provider, symbol, adjustment, source_ts, rx_ts, open_raw, high_raw, low_raw, close_raw, volume_raw) VALUES (?1, ?2, ?3, ?4, ?5, ?6, ?7, ?8, ?9, ?10)"@,
    }
}

/// Only bars are kept apart by adjustment: trades and quotes are never
/// adjusted, whatever is asked for, and a bar is stored under the mode that it
/// was fetched in.
pub proof fn law_only_bars_are_adjusted(kind: EventKind, a: Adjustment, b: Adjustment)
    ensures
        !(kind is Bar) ==> stored_adjustment(kind, a) is Raw,
        kind is Bar ==> stored_adjustment(kind, a) == a,
        kind is Bar ==> (stored_adjustment(kind, a) == stored_adjustment(kind, b) <==> a == b),
{
}

/// A replay reads what both the request and the key ask for: an instant is in
/// its range exactly where it is in both, and nothing is read where the request
/// leaves out the key's instrument or kind.
pub proof fn law_replays_read_the_overlap(key: CacheKeyView, request: ReplayRequest, t: int)
    ensures
        narrowed(key, request) matches Some(range) ==> {
            &&& range.0 <= t < range.1 <==> key.from.0 <= t < key.to.0 && request.from.0 <= t
                < request.to.0
            &&& range.0 < range.1
            &&& request.instruments@.len() == 0 || asks_for_instrument(
                request.instruments@,
                key.instrument,
            )
            &&& request.kinds@.len() == 0 || request.kinds@.contains(key.kind)
        },
        key.from.0 <= t < key.to.0 && request.from.0 <= t < request.to.0
            && request.instruments@.len() == 0 && request.kinds@.len() == 0 ==> narrowed(
            key,
            request,
        ) is Some,
        key.from.0 <= t < key.to.0 && request.from.0 <= t < request.to.0 && asks_for_instrument(
            request.instruments@,
            key.instrument,
        ) && request.kinds@.contains(key.kind) ==> narrowed(key, request) is Some,
{
}

/// Counts add up, and stop at the largest number that can be held.
pub proof fn law_counts_add_up(counts: Seq<u64>, n: u64)
    ensures
        total(seq![]) == 0,
        total(counts.push(n)) == if total(counts) + n > u64::MAX {
            u64::MAX as int
        } else {
            total(counts) + n
        },
        0 <= total(counts) <= u64::MAX,
    decreases counts.len(),
{
    assert(counts.push(n).drop_last() =~= counts);
    if counts.len() > 0 {
        law_counts_add_up(counts.drop_last(), counts.last());
        assert(counts.drop_last().push(counts.last()) =~= counts);
    }
}

/// Segments are reported from their first instant to their end.
pub proof fn law_segments_are_reported_as_they_are(segments: Seq<(i64, i64)>, i: int)
    requires
        0 <= i < segments.len(),
    ensures
        spans(segments).len() == segments.len(),
        spans(segments)[i].from_source_ts.0 == segments[i].0,
        spans(segments)[i].to_source_ts.0 == segments[i].1,
{
}

/// Every kind of event has its table.
pub proof fn law_every_kind_has_a_table(kind: EventKind)
    ensures
        all_kinds().contains(kind),
{
    let k = all_kinds();
    assert(k[0] is Trade && k[1] is Quote);
    assert(k[2] == EventKind::Bar(BarInterval::OneSecond));
    assert(k[3] == EventKind::Bar(BarInterval::OneMinute));
    assert(k[4] == EventKind::Bar(BarInterval::FiveMinute));
    assert(k[5] == EventKind::Bar(BarInterval::FifteenMinute));
    assert(k[6] == EventKind::Bar(BarInterval::OneHour));
    assert(k[7] == EventKind::Bar(BarInterval::OneDay));
}

/// A line of the catalog says what is stored: the segments and the number of
/// events as they are, and an estimate of eight bytes for each integer of each
/// event.
pub proof fn law_catalog_lines_say_what_is_stored(
    e: CacheCatalogEntry,
    id: Seq<char>,
    segments: Seq<(i64, i64)>,
    count: u64,
    asset_class: Option<String>,
    i: int,
)
    requires
        lists(e, id, segments, count, asset_class),
        0 <= i < segments.len(),
    ensures
        e.event_count == count,
        e.segments@.len() == segments.len(),
        e.segments@[i].from_source_ts.0 == segments[i].0,
        e.segments@[i].to_source_ts.0 == segments[i].1,
        count * (8 * columns(e.kind)) <= u64::MAX ==> e.est_bytes == Some(
            (count * (8 * columns(e.kind))) as u64,
        ),
        asset_class is None ==> e.asset_class is None,
{
}

} // verus!
