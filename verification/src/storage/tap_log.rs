//! Tap logs: shards and their registry, the writers' counters, and replay in
//! the order of arrival.

use vstd::prelude::*;
use vstd::utf8::{encode_scalar, encode_utf8};

use crate::error::Error;
use crate::event::{
    EventKind, EventView, Instrument, InstrumentView, MarketEvent, ProviderId, SeqNo,
};
use crate::num::{cast_signed, cast_unsigned, signed, unsigned};
use crate::request::ReplayRequest;
use crate::table::{pair_of, Pair, Table};
use crate::text::{
    decimal, decimal_text, join, lemma_decimal_denotes, lemma_decimal_injective,
    lemma_padded_injective, padded, padded_text,
};

use super::cache::{asks_for_instrument, has_instrument, has_kind, payload_columns, payload_declarations};
use super::order::{ordered, sort_by_ord, Numbered};
use super::rows::{column_count, columns, decode_row, encode_row, event_of_row, row_of};
use super::sql::{int_values, push_ints, values_of, SqlValue, SqlValueView, Statement, StatementView};
use super::tags::{
    asset_class_from_tag, asset_class_tag, asset_class_text, kind_from_tag, kind_tag, kind_tag_text,
};

verus! {

/// Schema version of tap-log files.
pub const TAP_SCHEMA_VERSION: i64 = 1;

// ---------------------------------------------------------------------------
// Registry ids
// ---------------------------------------------------------------------------

/// Length of a text in UTF-8.
pub open spec fn byte_len(s: Seq<char>) -> nat {
    encode_utf8(s).len()
}

/// A text behind its length in bytes and a colon.
pub open spec fn prefixed(s: Seq<char>) -> Seq<char> {
    decimal(byte_len(s) as usize as nat) + ":"@ + s
}

/// The id of a stream's registry entry.
pub open spec fn registry_text(instrument: InstrumentView, kind: EventKind) -> Seq<char> {
    prefixed(instrument.provider) + prefixed(asset_class_text(instrument.asset_class)) + prefixed(
        instrument.symbol,
    ) + prefixed(kind_tag_text(kind))
}

fn prefixed_text(s: &str) -> (r: String)
    ensures
        r@ == prefixed(s@),
{
    let len: usize = s.len();
    let head = join(decimal_text(len as u64).as_str(), ":");
    join(head.as_str(), s)
}

/// The id of a stream's registry entry. Every part is preceded by its length,
/// so that parts cannot run into each other.
pub fn registry_id(instrument: &Instrument, kind: EventKind) -> (r: String)
    ensures
        r@ == registry_text(instrument@, kind),
{
    let mut id = prefixed_text(instrument.provider.as_str());
    id = join(id.as_str(), prefixed_text(asset_class_tag(instrument.asset_class())).as_str());
    id = join(id.as_str(), prefixed_text(instrument.symbol()).as_str());
    join(id.as_str(), prefixed_text(kind_tag(kind)).as_str())
}

proof fn lemma_byte_len_concat(a: Seq<char>, b: Seq<char>)
    ensures
        byte_len(a + b) == byte_len(a) + byte_len(b),
    decreases a.len(),
{
    if a.len() == 0 {
        assert(a + b =~= b);
    } else {
        assert((a + b).drop_first() =~= a.drop_first() + b);
        lemma_byte_len_concat(a.drop_first(), b);
    }
}

proof fn lemma_byte_len_positive(a: Seq<char>)
    requires
        a.len() > 0,
    ensures
        byte_len(a) > 0,
{
    assert(encode_scalar(a[0] as u32).len() > 0);
}

/// Two texts of the same byte length that start the same text are the same.
proof fn lemma_same_prefix(a: Seq<char>, b: Seq<char>, x: Seq<char>, y: Seq<char>)
    requires
        a + x == b + y,
        byte_len(a) == byte_len(b),
    ensures
        a == b,
        x == y,
{
    if a.len() <= b.len() {
        let rest = b.skip(a.len() as int);
        assert forall|i: int| 0 <= i < a.len() implies a[i] == b[i] by {
            assert((a + x)[i] == a[i]);
            assert((b + y)[i] == b[i]);
        }
        assert(b =~= a + rest);
        lemma_byte_len_concat(a, rest);
        if rest.len() > 0 {
            lemma_byte_len_positive(rest);
        }
        assert(a =~= b);
    } else {
        let rest = a.skip(b.len() as int);
        assert forall|i: int| 0 <= i < b.len() implies a[i] == b[i] by {
            assert((a + x)[i] == a[i]);
            assert((b + y)[i] == b[i]);
        }
        assert(a =~= b + rest);
        lemma_byte_len_concat(b, rest);
        lemma_byte_len_positive(rest);
    }
    assert(x =~= (a + x).skip(a.len() as int));
    assert(y =~= (b + y).skip(b.len() as int));
}

/// A prefixed part can be told apart from whatever follows it.
proof fn lemma_prefixed_separates(a: Seq<char>, b: Seq<char>, x: Seq<char>, y: Seq<char>)
    requires
        prefixed(a) + x == prefixed(b) + y,
        byte_len(a) <= usize::MAX,
        byte_len(b) <= usize::MAX,
    ensures
        a == b,
        x == y,
{
    let la = byte_len(a) as usize as nat;
    let lb = byte_len(b) as usize as nat;
    let da = decimal(la);
    let db = decimal(lb);
    lemma_decimal_denotes(la);
    lemma_decimal_denotes(lb);
    reveal_strlit(":");
    let left = prefixed(a) + x;
    let right = prefixed(b) + y;
    assert(":"@.len() == 1 && ":"@[0] == ':');
    assert(left[da.len() as int] == ':');
    assert(right[db.len() as int] == ':');
    if da.len() < db.len() {
        assert(right[da.len() as int] == db[da.len() as int]);
    }
    if db.len() < da.len() {
        assert(left[db.len() as int] == da[db.len() as int]);
    }
    assert(da.len() == db.len());
    assert forall|i: int| 0 <= i < da.len() implies da[i] == db[i] by {
        assert(left[i] == da[i]);
        assert(right[i] == db[i]);
    }
    assert(da =~= db);
    lemma_decimal_injective(la, lb);
    let n = da.len() + 1;
    assert(a + x =~= left.skip(n as int));
    assert(b + y =~= right.skip(n as int));
    lemma_same_prefix(a, b, x, y);
}

/// Two streams never share a registry entry, whatever characters their
/// providers and symbols have.
pub proof fn law_registry_ids_are_distinct(
    a: InstrumentView,
    ka: EventKind,
    b: InstrumentView,
    kb: EventKind,
)
    requires
        registry_text(a, ka) == registry_text(b, kb),
        byte_len(a.provider) <= usize::MAX && byte_len(b.provider) <= usize::MAX,
        byte_len(a.symbol) <= usize::MAX && byte_len(b.symbol) <= usize::MAX,
    ensures
        a == b,
        ka == kb,
{
    lemma_tag_lens(a.asset_class, ka);
    lemma_tag_lens(b.asset_class, kb);
    lemma_parts_separate(
        (a.provider, asset_class_text(a.asset_class), a.symbol, kind_tag_text(ka)),
        (b.provider, asset_class_text(b.asset_class), b.symbol, kind_tag_text(kb)),
    );
    super::tags::law_asset_class_tags_are_distinct(a.asset_class, b.asset_class);
    super::tags::law_kind_tags_are_distinct(ka, kb);
}

proof fn lemma_regroup(a: Seq<char>, b: Seq<char>, c: Seq<char>, d: Seq<char>)
    ensures
        a + b + c + d == a + (b + (c + d)),
{
    assert(a + b + c + d =~= a + (b + (c + d)));
}

/// Four prefixed parts in a row can be told apart.
proof fn lemma_parts_separate(
    a: (Seq<char>, Seq<char>, Seq<char>, Seq<char>),
    b: (Seq<char>, Seq<char>, Seq<char>, Seq<char>),
)
    requires
        prefixed(a.0) + prefixed(a.1) + prefixed(a.2) + prefixed(a.3) == prefixed(b.0) + prefixed(
            b.1,
        ) + prefixed(b.2) + prefixed(b.3),
        byte_len(a.0) <= usize::MAX && byte_len(b.0) <= usize::MAX,
        byte_len(a.1) <= usize::MAX && byte_len(b.1) <= usize::MAX,
        byte_len(a.2) <= usize::MAX && byte_len(b.2) <= usize::MAX,
        byte_len(a.3) <= usize::MAX && byte_len(b.3) <= usize::MAX,
    ensures
        a == b,
{
    let (a1, a2, a3) = (prefixed(a.1), prefixed(a.2), prefixed(a.3));
    let (b1, b2, b3) = (prefixed(b.1), prefixed(b.2), prefixed(b.3));
    lemma_regroup(prefixed(a.0), a1, a2, a3);
    lemma_regroup(prefixed(b.0), b1, b2, b3);
    lemma_prefixed_separates(a.0, b.0, a1 + (a2 + a3), b1 + (b2 + b3));
    lemma_prefixed_separates(a.1, b.1, a2 + a3, b2 + b3);
    lemma_prefixed_separates(a.2, b.2, a3, b3);
    let e = Seq::<char>::empty();
    assert(a3 + e =~= a3);
    assert(b3 + e =~= b3);
    lemma_prefixed_separates(a.3, b.3, e, e);
}

/// Every character takes at most four bytes.
proof fn lemma_byte_len_bound(s: Seq<char>)
    ensures
        byte_len(s) <= 4 * s.len(),
    decreases s.len(),
{
    if s.len() > 0 {
        lemma_byte_len_bound(s.drop_first());
    }
}

proof fn lemma_tag_lens(class: crate::event::AssetClass, kind: EventKind)
    ensures
        byte_len(asset_class_text(class)) <= usize::MAX,
        byte_len(kind_tag_text(kind)) <= usize::MAX,
{
    reveal_strlit("equity");
    reveal_strlit("etf");
    reveal_strlit("crypto");
    reveal_strlit("trade");
    reveal_strlit("quote");
    reveal_strlit("bar_1s");
    reveal_strlit("bar_1m");
    reveal_strlit("bar_5m");
    reveal_strlit("bar_15m");
    reveal_strlit("bar_1h");
    reveal_strlit("bar_1d");
    lemma_byte_len_bound(asset_class_text(class));
    lemma_byte_len_bound(kind_tag_text(kind));
}

// ---------------------------------------------------------------------------
// Shards
// ---------------------------------------------------------------------------

/// The table of a shard: a plain token, whatever the symbol's characters.
pub open spec fn shard_text(ordinal: u64) -> Seq<char> {
    "tap_"@ + padded(ordinal as nat, 6)
}

pub fn shard_name(ordinal: u64) -> (r: String)
    ensures
        r@ == shard_text(ordinal),
{
    join("tap_", padded_text(ordinal, 6).as_str())
}

/// Shards with different numbers have different tables.
pub proof fn law_shard_names_are_distinct(a: u64, b: u64)
    requires
        shard_text(a) == shard_text(b),
    ensures
        a == b,
{
    let n = "tap_"@.len() as int;
    assert(shard_text(a).skip(n) =~= padded(a as nat, 6));
    assert(shard_text(b).skip(n) =~= padded(b as nat, 6));
    lemma_padded_injective(a as nat, b as nat, 6);
}

/// One row of the registry of streams.
#[derive(Debug)]
pub struct StreamRow {
    pub provider: String,
    pub asset_class: String,
    pub symbol: String,
    pub kind_tag: String,
    pub table: String,
}

/// Whether a row stands for the pair.
pub open spec fn row_names(row: StreamRow, pair: (InstrumentView, EventKind)) -> bool {
    &&& row.provider@ == pair.0.provider
    &&& row.asset_class@ == asset_class_text(pair.0.asset_class)
    &&& row.symbol@ == pair.0.symbol
    &&& row.kind_tag@ == kind_tag_text(pair.1)
}

/// The registry row of a stream whose shard is the table.
pub fn stream_row(pair: &Pair, table: String) -> (r: StreamRow)
    ensures
        row_names(r, pair@),
        r.table == table,
{
    StreamRow {
        provider: pair.instrument.provider.as_str().to_owned(),
        asset_class: asset_class_tag(pair.instrument.asset_class()).to_owned(),
        symbol: pair.instrument.symbol().to_owned(),
        kind_tag: kind_tag(pair.kind).to_owned(),
        table,
    }
}

/// The stream that a row stands for; `None` where a tag is not known.
pub fn instrument_from_row(row: &StreamRow) -> (r: Option<Pair>)
    ensures
        r is Some ==> row_names(*row, r->0@),
        r is None ==> forall|pair: (InstrumentView, EventKind)| !#[trigger] row_names(*row, pair),
{
    let class = match asset_class_from_tag(row.asset_class.as_str()) {
        Some(class) => class,
        None => {
            return None;
        },
    };
    let kind = match kind_from_tag(row.kind_tag.as_str()) {
        Some(kind) => kind,
        None => {
            return None;
        },
    };
    let instrument = Instrument::new(
        ProviderId::new(row.provider.clone()),
        class,
        row.symbol.as_str(),
    );
    Some(Pair { instrument, kind })
}

/// A registry row gives back the stream that it was written for, and no other.
pub proof fn law_registry_rows_are_unambiguous(
    row: StreamRow,
    a: (InstrumentView, EventKind),
    b: (InstrumentView, EventKind),
)
    requires
        row_names(row, a),
        row_names(row, b),
    ensures
        a == b,
{
    super::tags::law_asset_class_tags_are_distinct(a.0.asset_class, b.0.asset_class);
    super::tags::law_kind_tags_are_distinct(a.1, b.1);
}

/// The shards that registry rows name. Rows with an unknown tag name none, and
/// the last row of a stream counts.
pub open spec fn registry(rows: Seq<StreamRow>) -> Map<(InstrumentView, EventKind), String>
    decreases rows.len(),
{
    if rows.len() == 0 {
        Map::empty()
    } else if exists|pair: (InstrumentView, EventKind)| #[trigger] row_names(rows.last(), pair) {
        registry(rows.drop_last()).insert(
            choose|pair: (InstrumentView, EventKind)| #[trigger] row_names(rows.last(), pair),
            rows.last().table,
        )
    } else {
        registry(rows.drop_last())
    }
}

/// Rebuild the table of shards from the registry.
pub fn load_registry(rows: &Vec<StreamRow>) -> (r: Table<Pair, String>)
    ensures
        r.wf(),
        r@ == registry(rows@),
{
    let mut shards: Table<Pair, String> = Table::new();
    let mut k: usize = 0;
    proof {
        assert(rows@.take(0) =~= seq![]);
    }
    while k < rows.len()
        invariant
            0 <= k <= rows@.len(),
            shards.wf(),
            shards@ == registry(rows@.take(k as int)),
        decreases rows@.len() - k,
    {
        let row = &rows[k];
        proof {
            assert(rows@.take(k as int + 1).drop_last() =~= rows@.take(k as int));
            assert(rows@.take(k as int + 1).last() == *row);
        }
        if let Some(pair) = instrument_from_row(row) {
            proof {
                let chosen = choose|p: (InstrumentView, EventKind)| #[trigger] row_names(*row, p);
                law_registry_rows_are_unambiguous(*row, pair@, chosen);
            }
            shards.insert(pair, row.table.clone());
        }
        k += 1;
    }
    proof {
        assert(rows@.take(k as int) =~= rows@);
    }
    shards
}

// ---------------------------------------------------------------------------
// Rows
// ---------------------------------------------------------------------------

/// The integers of a recorded event: its ordinal, its place, and its row.
pub open spec fn tap_row(ord: u64, ev: EventView) -> Seq<i64> {
    seq![signed(ord), signed(ev.seq().0)] + row_of(ev)
}

pub fn encode_tap_row(ord: u64, ev: &MarketEvent) -> (r: Vec<i64>)
    ensures
        r@ == tap_row(ord, ev@),
{
    let mut out: Vec<i64> = Vec::new();
    out.push(cast_signed(ord));
    out.push(cast_signed(ev.place().0));
    let mut rest = encode_row(ev);
    out.append(&mut rest);
    proof {
        assert(out@ =~= tap_row(ord, ev@));
    }
    out
}

/// The ordinal and the event that a recorded row stands for.
pub open spec fn tap_event(
    instrument: InstrumentView,
    kind: EventKind,
    row: Seq<i64>,
) -> (u64, EventView) {
    (unsigned(row[0]), event_of_row(instrument, kind, row.skip(2), SeqNo(unsigned(row[1]))))
}

pub fn decode_tap_row(instrument: &Instrument, kind: EventKind, row: &Vec<i64>) -> (r: Numbered)
    requires
        row@.len() == columns(kind) + 2,
    ensures
        (r.0, r.1@) == tap_event(instrument@, kind, row@),
{
    let ord: u64 = cast_unsigned(row[0]);
    let seq = SeqNo(cast_unsigned(row[1]));
    let mut rest: Vec<i64> = Vec::new();
    let mut k: usize = 2;
    while k < row.len()
        invariant
            2 <= k <= row@.len(),
            rest@ == row@.subrange(2, k as int),
        decreases row@.len() - k,
    {
        rest.push(row[k]);
        proof {
            assert(rest@ =~= row@.subrange(2, k as int + 1));
        }
        k += 1;
    }
    proof {
        assert(rest@ =~= row@.skip(2));
    }
    (ord, decode_row(instrument, kind, &rest, seq))
}

/// Reading gives back what was recorded: ordinal, place and payload.
pub proof fn law_tap_rows_round_trip(ord: u64, ev: EventView)
    requires
        ev.is_data(),
    ensures
        ({
            let (instrument, kind) = pair_of(ev)->0;
            &&& tap_row(ord, ev).len() == columns(kind) + 2
            &&& tap_event(instrument, kind, tap_row(ord, ev)) == (ord, ev)
        }),
{
    super::rows::law_rows_round_trip(ev, ev.seq());
    assert(tap_row(ord, ev).skip(2) =~= row_of(ev));
    assert(ev.with_seq(ev.seq()) == ev);
}

// ---------------------------------------------------------------------------
// The file-backed writer
// ---------------------------------------------------------------------------

pub open spec fn meta_schema_text() -> Seq<char> {
    "CREATE TABLE IF NOT EXISTS meta (id INTEGER PRIMARY KEY CHECK (id = 0), next_shard INTEGER NOT NULL, next_ord INTEGER NOT NULL)"@
}

pub open spec fn streams_schema_text() -> Seq<char> {
    "CREATE TABLE IF NOT EXISTS streams (id TEXT PRIMARY KEY, provider TEXT NOT NULL, asset_class TEXT NOT NULL, symbol TEXT NOT NULL, kind_tag TEXT NOT NULL, shard_table TEXT NOT NULL)"@
}

/// The statements that create the log's own tables.
pub fn tap_schema() -> (r: (&'static str, &'static str))
    ensures
        r.0@ == meta_schema_text(),
        r.1@ == streams_schema_text(),
{
    (
        "CREATE TABLE IF NOT EXISTS meta (id INTEGER PRIMARY KEY CHECK (id = 0), next_shard INTEGER NOT NULL, next_ord INTEGER NOT NULL)",
        "CREATE TABLE IF NOT EXISTS streams (id TEXT PRIMARY KEY, provider TEXT NOT NULL, asset_class TEXT NOT NULL, symbol TEXT NOT NULL, kind_tag TEXT NOT NULL, shard_table TEXT NOT NULL)",
    )
}

pub open spec fn create_shard_text(name: Seq<char>, kind: EventKind) -> Seq<char> {
    "CREATE TABLE IF NOT EXISTS "@ + name
        + " (ord INTEGER PRIMARY KEY, seq INTEGER NOT NULL, source_ts INTEGER NOT NULL, rx_ts INTEGER NOT NULL, "@
        + payload_columns(kind) + ")"@
}

fn create_shard(name: &str, kind: EventKind) -> (r: String)
    ensures
        r@ == create_shard_text(name@, kind),
{
    let mut s = join("CREATE TABLE IF NOT EXISTS ", name);
    s =
    join(
        s.as_str(),
        " (ord INTEGER PRIMARY KEY, seq INTEGER NOT NULL, source_ts INTEGER NOT NULL, rx_ts INTEGER NOT NULL, ",
    );
    s = join(s.as_str(), payload_declarations(kind));
    join(s.as_str(), ")")
}

/// Entry of a stream into the registry.
pub open spec fn register_view(
    instrument: InstrumentView,
    kind: EventKind,
    name: Seq<char>,
) -> StatementView {
    StatementView {
        sql: "INSERT OR REPLACE INTO streams (id, provider, asset_class, symbol, kind_tag, shard_table) VALUES (?1, ?2, ?3, ?4, ?5, ?6)"@,
        params: seq![
            SqlValueView::Text(registry_text(instrument, kind)),
            SqlValueView::Text(instrument.provider),
            SqlValueView::Text(asset_class_text(instrument.asset_class)),
            SqlValueView::Text(instrument.symbol),
            SqlValueView::Text(kind_tag_text(kind)),
            SqlValueView::Text(name),
        ],
    }
}

fn register_statement(pair: &Pair, name: &str) -> (r: Statement)
    ensures
        r@ == register_view(pair.instrument@, pair.kind, name@),
{
    let mut params: Vec<SqlValue> = Vec::new();
    params.push(SqlValue::Text(registry_id(&pair.instrument, pair.kind)));
    params.push(SqlValue::text(pair.instrument.provider.as_str()));
    params.push(SqlValue::text(asset_class_tag(pair.instrument.asset_class())));
    params.push(SqlValue::text(pair.instrument.symbol()));
    params.push(SqlValue::text(kind_tag(pair.kind)));
    params.push(SqlValue::text(name));
    proof {
        assert(values_of(params@) =~= register_view(pair.instrument@, pair.kind, name@).params);
    }
    Statement {
        sql: "INSERT OR REPLACE INTO streams (id, provider, asset_class, symbol, kind_tag, shard_table) VALUES (?1, ?2, ?3, ?4, ?5, ?6)".to_owned(),
        params,
    }
}

/// Writing of the counters.
pub open spec fn persist_view(next_shard: u64, next_ord: u64) -> StatementView {
    StatementView {
        sql: "INSERT OR REPLACE INTO meta (id, next_shard, next_ord) VALUES (0, ?1, ?2)"@,
        params: seq![SqlValueView::Int(signed(next_shard)), SqlValueView::Int(signed(next_ord))],
    }
}

fn persist_statement(next_shard: u64, next_ord: u64) -> (r: Statement)
    ensures
        r@ == persist_view(next_shard, next_ord),
{
    let mut params: Vec<SqlValue> = Vec::new();
    params.push(SqlValue::Int(cast_signed(next_shard)));
    params.push(SqlValue::Int(cast_signed(next_ord)));
    proof {
        assert(values_of(params@) =~= persist_view(next_shard, next_ord).params);
    }
    Statement {
        sql: "INSERT OR REPLACE INTO meta (id, next_shard, next_ord) VALUES (0, ?1, ?2)".to_owned(),
        params,
    }
}

pub open spec fn tap_columns(kind: EventKind) -> Seq<char> {
    match kind {
        EventKind::Trade => " (ord, seq, source_ts, rx_ts, price_raw, size_raw) VALUES (?1, ?2, ?3, ?4, ?5, ?6)"@,
        EventKind::Quote => " (ord, seq, source_ts, rx_ts, bid_raw, bid_size_raw, ask_raw, ask_size_raw) VALUES (?1, ?2, ?3, ?4, ?5, ?6, ?7, ?8)"@,
        EventKind::Bar(_) => " (ord, seq, source_ts, rx_ts, open_raw, high_raw, low_raw, close_raw, volume_raw) VALUES (?1, ?2, ?3, ?4, ?5, ?6, ?7, ?8, ?9)"@,
    }
}

/// Recording of one event in a shard.
pub open spec fn record_view(
    shard: Seq<char>,
    kind: EventKind,
    ord: u64,
    ev: EventView,
) -> StatementView {
    StatementView {
        sql: "INSERT INTO "@ + shard + tap_columns(kind),
        params: int_values(tap_row(ord, ev)),
    }
}

fn record_statement(shard: &str, kind: EventKind, ord: u64, ev: &MarketEvent) -> (r: Statement)
    ensures
        r@ == record_view(shard@, kind, ord, ev@),
{
    let head = join("INSERT INTO ", shard);
    let columns_text = match kind {
        EventKind::Trade => " (ord, seq, source_ts, rx_ts, price_raw, size_raw) VALUES (?1, ?2, ?3, ?4, ?5, ?6)",
        EventKind::Quote => " (ord, seq, source_ts, rx_ts, bid_raw, bid_size_raw, ask_raw, ask_size_raw) VALUES (?1, ?2, ?3, ?4, ?5, ?6, ?7, ?8)",
        EventKind::Bar(_) => " (ord, seq, source_ts, rx_ts, open_raw, high_raw, low_raw, close_raw, volume_raw) VALUES (?1, ?2, ?3, ?4, ?5, ?6, ?7, ?8, ?9)",
    };
    let mut params: Vec<SqlValue> = Vec::new();
    push_ints(&mut params, &encode_tap_row(ord, ev));
    proof {
        assert(values_of(params@) =~= int_values(tap_row(ord, ev@)));
    }
    Statement { sql: join(head.as_str(), columns_text), params }
}

/// A new shard: the counters to persist first, its table, and its entry in
/// the registry.
#[derive(Debug)]
pub struct NewShard {
    pub name: String,
    pub persist: Statement,
    pub create: String,
    pub register: Statement,
}

/// What the writer of a file-backed log does next for an event.
#[derive(Debug, PartialEq, Eq)]
pub enum WriteStep {
    /// Commit the open transaction: tables are not created inside one.
    Commit,
    /// Allocate and create the stream's shard.
    CreateShard,
    /// Begin a transaction.
    Begin,
    /// Record the event in this shard.
    Record(String),
}

/// What the writer of a document-backed log does next for an event.
#[derive(Debug, PartialEq, Eq)]
pub enum BatchStep {
    /// Allocate and register the stream's shard.
    CreateShard,
    /// Persist these counters, which reserve more ordinals.
    Reserve(MetaRow),
    /// Record the event in this shard, under the next ordinal.
    Record(String),
}

/// Ordinals handed out so far, in order, below `next`.
pub open spec fn handed_out(issued: Seq<u64>, next: u64) -> bool {
    &&& forall|i: int| 0 <= i < issued.len() ==> #[trigger] issued[i] < next
    &&& forall|i: int, j: int|
        0 <= i < j < issued.len() ==> #[trigger] issued[i] < #[trigger] issued[j]
}

/// The next ordinal, unless the largest is reached.
pub open spec fn ord_after(ord: u64) -> u64 {
    if ord == u64::MAX {
        ord
    } else {
        (ord + 1) as u64
    }
}

/// State of the writer of a file-backed log.
pub struct Writer {
    pub next_shard: u64,
    pub next_ord: u64,
    pub shards: Table<Pair, String>,
    /// A transaction has begun and is not committed.
    pub tx_open: bool,
    pub last_error: Option<Error>,
    /// Ordinals handed out, in order.
    pub issued: Ghost<Seq<u64>>,
}

impl Writer {
    /// Ordinals ascend and are never handed out twice, until the largest one
    /// is reached.
    pub open spec fn wf(self) -> bool {
        &&& self.shards.wf()
        &&& self.next_ord < u64::MAX ==> handed_out(self.issued@, self.next_ord)
    }

    /// The counters as a commit writes them.
    pub open spec fn counters(self) -> StatementView {
        persist_view(self.next_shard, self.next_ord)
    }

    /// Resume from the persisted counters, or from zero, and the registry.
    pub fn open(counters: Option<(i64, i64)>, rows: &Vec<StreamRow>) -> (r: Writer)
        ensures
            r.wf(),
            (r.next_shard, r.next_ord) == resumed_from(counters),
            r.shards@ == registry(rows@),
            !r.tx_open,
            r.last_error is None,
            r.issued@ == Seq::<u64>::empty(),
    {
        let (next_shard, next_ord) = match counters {
            Some((shard, ord)) => (cast_unsigned(shard), cast_unsigned(ord)),
            None => (0u64, 0u64),
        };
        Writer {
            next_shard,
            next_ord,
            shards: load_registry(rows),
            tx_open: false,
            last_error: None,
            issued: Ghost(Seq::empty()),
        }
    }

    /// The shard of a stream that has one.
    pub fn shard_of(&self, pair: &Pair) -> (r: Option<String>)
        requires
            self.wf(),
        ensures
            r is Some <==> self.shards@.contains_key(pair@),
            r is Some ==> r->0 == self.shards@[pair@],
    {
        match self.shards.get(pair) {
            Some(name) => Some(name.clone()),
            None => None,
        }
    }

    /// What to do next for an event of the stream. Taken again after each
    /// step, this comes to `Record`.
    pub fn write_step(&self, pair: &Pair) -> (r: WriteStep)
        requires
            self.wf(),
        ensures
            r == next_write(*self, pair@),
    {
        match self.shard_of(pair) {
            None => {
                if self.tx_open {
                    WriteStep::Commit
                } else {
                    WriteStep::CreateShard
                }
            },
            Some(shard) => {
                if self.tx_open {
                    WriteStep::Record(shard)
                } else {
                    WriteStep::Begin
                }
            },
        }
    }

    /// Give a new stream the next shard. Tables are not created inside an open
    /// transaction, so there is none. The counters are persisted before the
    /// table exists, so that a crash can only skip a number.
    pub fn allocate_shard(&mut self, pair: &Pair) -> (r: NewShard)
        requires
            old(self).wf(),
            !old(self).tx_open,
            old(self).next_shard < u64::MAX,
        ensures
            final(self).wf(),
            *final(self) == (Writer {
                next_shard: (old(self).next_shard + 1) as u64,
                ..*old(self)
            }),
            r.name@ == shard_text(old(self).next_shard),
            r.persist@ == persist_view(final(self).next_shard, final(self).next_ord),
            r.create@ == create_shard_text(r.name@, pair.kind),
            r.register@ == register_view(pair.instrument@, pair.kind, r.name@),
    {
        let ordinal: u64 = self.next_shard;
        self.next_shard += 1;
        let name = shard_name(ordinal);
        let persist = persist_statement(self.next_shard, self.next_ord);
        let create = create_shard(name.as_str(), pair.kind);
        let register = register_statement(pair, name.as_str());
        NewShard { name, persist, create, register }
    }

    /// The new shard's table and registry entry exist.
    pub fn shard_ready(&mut self, pair: &Pair, name: String)
        requires
            old(self).wf(),
        ensures
            final(self).wf(),
            final(self).shards@ == old(self).shards@.insert(pair@, name),
            *final(self) == (Writer { shards: final(self).shards, ..*old(self) }),
    {
        self.shards.insert(pair.clone(), name);
    }

    /// Number one data event and give the statement that records it. A number
    /// is used up even where recording then fails.
    pub fn record(&mut self, shard: &str, kind: EventKind, ev: &MarketEvent) -> (r: Statement)
        requires
            old(self).wf(),
        ensures
            final(self).wf(),
            r@ == record_view(shard@, kind, old(self).next_ord, ev@),
            final(self).next_ord == ord_after(old(self).next_ord),
            final(self).issued@ == old(self).issued@.push(old(self).next_ord),
            *final(self) == (Writer {
                next_ord: final(self).next_ord,
                issued: final(self).issued,
                ..*old(self)
            }),
    {
        let ord: u64 = self.next_ord;
        self.next_ord = self.next_ord.saturating_add(1);
        proof {
            self.issued@ = self.issued@.push(ord);
        }
        record_statement(shard, kind, ord, ev)
    }

    pub fn began(&mut self)
        ensures
            *final(self) == (Writer { tx_open: true, ..*old(self) }),
    {
        self.tx_open = true;
    }

    /// Start committing the open transaction, if there is one: the counters
    /// are written inside it, so that they and the rows become durable
    /// together. The transaction counts as over, whatever becomes of it.
    pub fn begin_commit(&mut self) -> (r: Option<Statement>)
        ensures
            r is Some <==> old(self).tx_open,
            r is Some ==> r->0@ == old(self).counters(),
            *final(self) == (Writer { tx_open: false, ..*old(self) }),
    {
        if self.tx_open {
            self.tx_open = false;
            Some(persist_statement(self.next_shard, self.next_ord))
        } else {
            None
        }
    }

    /// Remember a failure for the next flush.
    pub fn failed(&mut self, e: Error)
        ensures
            *final(self) == (Writer { last_error: Some(e), ..*old(self) }),
    {
        self.last_error = Some(e);
    }

    /// The answer to a flush whose commit gave `commit`: the remembered
    /// failure, which is then forgotten, or else the commit's result.
    pub fn flush_result(&mut self, commit: Result<(), Error>) -> (r: Result<(), Error>)
        ensures
            r == flushed(old(self).last_error, commit),
            *final(self) == (Writer { last_error: None, ..*old(self) }),
    {
        match self.last_error.take() {
            Some(e) => Err(e),
            None => commit,
        }
    }
}

/// No ordinal is used again after a restart: a writer that resumes from the
/// counters which a commit wrote starts behind every ordinal handed out before
/// that commit.
pub proof fn law_ordinals_survive_a_restart(w: Writer, resumed: Writer, i: int)
    requires
        w.wf(),
        w.next_ord < u64::MAX,
        0 <= i < w.issued@.len(),
        resumed.next_ord == unsigned(signed(w.next_ord)),
        resumed.next_shard == unsigned(signed(w.next_shard)),
    ensures
        w.issued@[i] < resumed.next_ord,
        resumed.next_shard == w.next_shard,
{
}

// ---------------------------------------------------------------------------
// The document-backed writer
// ---------------------------------------------------------------------------

/// How many ordinals are reserved at a time. More mean fewer writes of the
/// counters and a larger gap after an unclean shutdown.
pub const ORD_BATCH: u64 = 1024;

/// The persisted counters: the next shard, and the end of the reserved
/// ordinals.
#[derive(Clone, Copy, Debug, PartialEq, Eq, Structural)]
pub struct MetaRow {
    pub next_shard: u64,
    pub next_ord: Option<u64>,
}

/// State of the writer of a document-backed log.
pub struct BatchWriter {
    pub next_shard: u64,
    pub next_ord: u64,
    /// End of the reserved ordinals, which is persisted.
    pub ord_high: u64,
    pub shards: Table<Pair, String>,
    pub last_error: Option<Error>,
    /// Ordinals handed out, in order.
    pub issued: Ghost<Seq<u64>>,
}

impl BatchWriter {
    /// No ordinal is handed out beyond those reserved, and none twice, until
    /// the largest one is reached.
    pub open spec fn wf(self) -> bool {
        &&& self.shards.wf()
        &&& self.next_ord <= self.ord_high
        &&& self.next_ord < u64::MAX ==> handed_out(self.issued@, self.next_ord)
    }

    /// The counters as they are to be persisted.
    pub open spec fn meta(self) -> MetaRow {
        MetaRow { next_shard: self.next_shard, next_ord: Some(self.ord_high) }
    }

    /// Resume from the persisted counters. What was reserved and not used is
    /// skipped.
    pub fn open(meta: Option<MetaRow>, rows: &Vec<StreamRow>) -> (r: BatchWriter)
        ensures
            r.wf(),
            (r.next_shard, r.next_ord) == resumed_at(meta),
            r.ord_high == r.next_ord,
            r.shards@ == registry(rows@),
            r.last_error is None,
            r.issued@ == Seq::<u64>::empty(),
    {
        let (next_shard, next_ord) = match meta {
            Some(m) => (
                m.next_shard,
                match m.next_ord {
                    Some(n) => n,
                    None => 0u64,
                },
            ),
            None => (0u64, 0u64),
        };
        BatchWriter {
            next_shard,
            next_ord,
            ord_high: next_ord,
            shards: load_registry(rows),
            last_error: None,
            issued: Ghost(Seq::empty()),
        }
    }

    pub fn shard_of(&self, pair: &Pair) -> (r: Option<String>)
        requires
            self.wf(),
        ensures
            r is Some <==> self.shards@.contains_key(pair@),
            r is Some ==> r->0 == self.shards@[pair@],
    {
        match self.shards.get(pair) {
            Some(name) => Some(name.clone()),
            None => None,
        }
    }

    /// What to do next for an event of the stream. Taken again after each
    /// step, this comes to `Record`. Ordinals that are used up for good are
    /// not reserved again.
    pub fn write_step(&self, pair: &Pair) -> (r: BatchStep)
        requires
            self.wf(),
        ensures
            r == next_batch_step(*self, pair@),
    {
        match self.shard_of(pair) {
            None => BatchStep::CreateShard,
            Some(shard) => {
                if self.ord_high < u64::MAX {
                    if let Some(meta) = self.reservation() {
                        return BatchStep::Reserve(meta);
                    }
                }
                BatchStep::Record(shard)
            },
        }
    }

    /// Give a new stream the next shard: its name, and the counters to
    /// persist before anything else.
    pub fn allocate_shard(&mut self) -> (r: (String, MetaRow))
        requires
            old(self).wf(),
            old(self).next_shard < u64::MAX,
        ensures
            final(self).wf(),
            *final(self) == (BatchWriter {
                next_shard: (old(self).next_shard + 1) as u64,
                ..*old(self)
            }),
            r.0@ == shard_text(old(self).next_shard),
            r.1 == final(self).meta(),
    {
        let ordinal: u64 = self.next_shard;
        self.next_shard += 1;
        (
            shard_name(ordinal),
            MetaRow { next_shard: self.next_shard, next_ord: Some(self.ord_high) },
        )
    }

    pub fn shard_ready(&mut self, pair: &Pair, name: String)
        requires
            old(self).wf(),
        ensures
            final(self).wf(),
            final(self).shards@ == old(self).shards@.insert(pair@, name),
            *final(self) == (BatchWriter { shards: final(self).shards, ..*old(self) }),
    {
        self.shards.insert(pair.clone(), name);
    }

    /// The counters to persist before an ordinal can be handed out, where the
    /// reserved ones are spent.
    pub fn reservation(&self) -> (r: Option<MetaRow>)
        ensures
            self.next_ord < self.ord_high ==> r is None,
            self.next_ord >= self.ord_high ==> r == Some(
                MetaRow {
                    next_shard: self.next_shard,
                    next_ord: Some(
                        if self.next_ord + ORD_BATCH > u64::MAX {
                            u64::MAX
                        } else {
                            (self.next_ord + ORD_BATCH) as u64
                        },
                    ),
                },
            ),
    {
        if self.next_ord >= self.ord_high {
            Some(
                MetaRow {
                    next_shard: self.next_shard,
                    next_ord: Some(self.next_ord.saturating_add(ORD_BATCH)),
                },
            )
        } else {
            None
        }
    }

    /// The reservation has been persisted.
    pub fn reserved(&mut self, meta: MetaRow)
        requires
            old(self).wf(),
            meta.next_ord matches Some(high) && high >= old(self).ord_high,
        ensures
            final(self).wf(),
            *final(self) == (BatchWriter { ord_high: meta.next_ord->0, ..*old(self) }),
    {
        if let Some(high) = meta.next_ord {
            self.ord_high = high;
        }
    }

    /// Hand out the next of the reserved ordinals.
    pub fn allocate_ord(&mut self) -> (ord: u64)
        requires
            old(self).wf(),
            old(self).next_ord < old(self).ord_high || old(self).ord_high == u64::MAX,
        ensures
            final(self).wf(),
            ord == old(self).next_ord,
            final(self).next_ord == ord_after(ord),
            final(self).issued@ == old(self).issued@.push(ord),
            *final(self) == (BatchWriter {
                next_ord: final(self).next_ord,
                issued: final(self).issued,
                ..*old(self)
            }),
    {
        let ord: u64 = self.next_ord;
        self.next_ord = self.next_ord.saturating_add(1);
        proof {
            self.issued@ = self.issued@.push(ord);
        }
        ord
    }

    /// Remember a failure for the next flush.
    pub fn failed(&mut self, e: Error)
        ensures
            *final(self) == (BatchWriter { last_error: Some(e), ..*old(self) }),
    {
        self.last_error = Some(e);
    }

    /// The answer to a flush: the remembered failure, which is then forgotten.
    pub fn flush_result(&mut self) -> (r: Result<(), Error>)
        ensures
            r == flushed(old(self).last_error, Ok(())),
            *final(self) == (BatchWriter { last_error: None, ..*old(self) }),
    {
        match self.last_error.take() {
            Some(e) => Err(e),
            None => Ok(()),
        }
    }
}

/// No ordinal is used again after a restart: every ordinal handed out lies
/// before the end of the reservation, where the next writer starts.
pub proof fn law_reserved_ordinals_are_not_reused(w: BatchWriter, i: int)
    requires
        w.wf(),
        w.next_ord < u64::MAX,
        0 <= i < w.issued@.len(),
    ensures
        w.issued@[i] < w.meta().next_ord->0,
{
}

// ---------------------------------------------------------------------------
// Replay
// ---------------------------------------------------------------------------

/// The source-time window of a replay, unless it is empty.
pub fn replay_window(request: &ReplayRequest) -> (r: Option<(i64, i64)>)
    ensures
        r == if request.from.0 < request.to.0 {
            Some((request.from.0, request.to.0))
        } else {
            None
        },
{
    if request.from.0 >= request.to.0 {
        None
    } else {
        Some((request.from.0, request.to.0))
    }
}

/// Whether a request asks for a stream. An empty list leaves nothing out.
pub open spec fn asks_for(request: ReplayRequest, pair: (InstrumentView, EventKind)) -> bool {
    &&& request.instruments@.len() == 0 || asks_for_instrument(request.instruments@, pair.0)
    &&& request.kinds@.len() == 0 || request.kinds@.contains(pair.1)
}

/// The stream of a registry row, where its tags are known and the request
/// asks for it.
pub fn selected(request: &ReplayRequest, row: &StreamRow) -> (r: Option<Pair>)
    ensures
        r is Some ==> row_names(*row, r->0@) && asks_for(*request, r->0@),
        r is None ==> forall|pair: (InstrumentView, EventKind)| #[trigger]
            row_names(*row, pair) ==> !asks_for(*request, pair),
{
    let pair = match instrument_from_row(row) {
        Some(pair) => pair,
        None => {
            return None;
        },
    };
    proof {
        assert forall|other: (InstrumentView, EventKind)| #[trigger]
            row_names(*row, other) implies other == pair@ by {
            law_registry_rows_are_unambiguous(*row, other, pair@);
        }
    }
    if request.instruments.len() > 0 && !has_instrument(&request.instruments, &pair.instrument) {
        return None;
    }
    if request.kinds.len() > 0 && !has_kind(&request.kinds, pair.kind) {
        return None;
    }
    Some(pair)
}

pub open spec fn tap_select(kind: EventKind) -> Seq<char> {
    match kind {
        EventKind::Trade => "SELECT ord, seq, source_ts, rx_ts, price_raw, size_raw FROM "@,
        EventKind::Quote => "SELECT ord, seq, source_ts, rx_ts, bid_raw, bid_size_raw, ask_raw, ask_size_raw FROM "@,
        EventKind::Bar(_) => "SELECT ord, seq, source_ts, rx_ts, open_raw, high_raw, low_raw, close_raw, volume_raw FROM "@,
    }
}

/// Reading of a shard in a window of source time, in the order of ordinals.
pub open spec fn shard_scan_view(
    shard: Seq<char>,
    kind: EventKind,
    from: i64,
    to: i64,
) -> StatementView {
    StatementView {
        sql: tap_select(kind) + shard + " WHERE source_ts >= ?1 AND source_ts < ?2 ORDER BY ord ASC"@,
        params: seq![SqlValueView::Int(from), SqlValueView::Int(to)],
    }
}

pub fn shard_scan(shard: &str, kind: EventKind, from: i64, to: i64) -> (r: Statement)
    ensures
        r@ == shard_scan_view(shard@, kind, from, to),
{
    let head = match kind {
        EventKind::Trade => "SELECT ord, seq, source_ts, rx_ts, price_raw, size_raw FROM ",
        EventKind::Quote => "SELECT ord, seq, source_ts, rx_ts, bid_raw, bid_size_raw, ask_raw, ask_size_raw FROM ",
        EventKind::Bar(_) => "SELECT ord, seq, source_ts, rx_ts, open_raw, high_raw, low_raw, close_raw, volume_raw FROM ",
    };
    let sql = join(head, shard);
    let sql = join(
        sql.as_str(),
        " WHERE source_ts >= ?1 AND source_ts < ?2 ORDER BY ord ASC",
    );
    let mut params: Vec<SqlValue> = Vec::new();
    params.push(SqlValue::Int(from));
    params.push(SqlValue::Int(to));
    proof {
        assert(values_of(params@) =~= seq![SqlValueView::Int(from), SqlValueView::Int(to)]);
    }
    Statement { sql, params }
}

/// The ordinal of a document-backed row; rows without one count as the first.
pub fn ord_or_first(ord: Option<u64>) -> (r: u64)
    ensures
        r == match ord {
            Some(n) => n,
            None => 0,
        },
{
    match ord {
        Some(n) => n,
        None => 0,
    }
}

/// The events of an ordered list.
pub open spec fn events_of(s: Seq<Numbered>) -> Seq<MarketEvent> {
    Seq::new(s.len(), |i: int| s[i].1)
}

/// The events of all shards, in the order in which they were recorded.
pub fn merge_shards(all: Vec<Numbered>) -> (r: Vec<MarketEvent>)
    ensures
        r@ == events_of(ordered(all@)),
{
    let sorted = sort_by_ord(all);
    let ghost whole = sorted@;
    let mut rest = sorted;
    let mut back: Vec<MarketEvent> = Vec::new();
    proof {
        assert(back@.reverse() =~= events_of(whole).skip(whole.len() as int));
    }
    while rest.len() > 0
        invariant
            rest@.len() <= whole.len(),
            rest@ == whole.take(rest@.len() as int),
            back@.reverse() == events_of(whole).skip(rest@.len() as int),
        decreases rest@.len(),
    {
        let ghost n = rest@.len() as int;
        let ghost b0 = back@;
        if let Some((_, ev)) = rest.pop() {
            back.push(ev);
            proof {
                assert(rest@ =~= whole.take(n - 1));
                assert(back@.reverse() =~= seq![ev] + b0.reverse());
                assert(seq![ev] + events_of(whole).skip(n) =~= events_of(whole).skip(n - 1));
            }
        }
    }
    let ghost want = back@.reverse();
    let mut out: Vec<MarketEvent> = Vec::new();
    proof {
        assert(events_of(whole).skip(0) =~= events_of(whole));
        assert(out@ + back@.reverse() =~= want);
    }
    while back.len() > 0
        invariant
            out@ + back@.reverse() == want,
        decreases back@.len(),
    {
        let ghost b0 = back@;
        let ghost o0 = out@;
        if let Some(ev) = back.pop() {
            out.push(ev);
            proof {
                assert(b0.reverse() =~= seq![ev] + back@.reverse());
                assert(out@ + back@.reverse() =~= o0 + b0.reverse());
            }
        }
    }
    proof {
        assert(back@.reverse() =~= seq![]);
        assert(out@ =~= want);
    }
    out
}

/// The scan of one stream's shard.
#[derive(Debug)]
pub struct ShardScan {
    pub pair: Pair,
    pub scan: Statement,
}

/// The registry rows that a request asks for, in order.
pub open spec fn asked_rows(request: ReplayRequest, rows: Seq<StreamRow>) -> Seq<StreamRow>
    decreases rows.len(),
{
    if rows.len() == 0 {
        seq![]
    } else if exists|pair: (InstrumentView, EventKind)| #[trigger]
        row_names(rows.last(), pair) && asks_for(request, pair) {
        asked_rows(request, rows.drop_last()).push(rows.last())
    } else {
        asked_rows(request, rows.drop_last())
    }
}

/// Whether a scan reads the shard of a registry row in the request's window.
pub open spec fn scans(s: ShardScan, row: StreamRow, request: ReplayRequest) -> bool {
    &&& row_names(row, s.pair@)
    &&& s.scan@ == shard_scan_view(row.table@, s.pair.kind, request.from.0, request.to.0)
}

/// The scans of a replay: one for each registered stream that the request asks
/// for, and none where its window is empty.
pub fn plan_replay(request: &ReplayRequest, rows: &Vec<StreamRow>) -> (r: Vec<ShardScan>)
    ensures
        request.from.0 >= request.to.0 ==> r@.len() == 0,
        request.from.0 < request.to.0 ==> {
            let asked = asked_rows(*request, rows@);
            &&& r@.len() == asked.len()
            &&& forall|i: int| 0 <= i < r@.len() ==> scans(#[trigger] r@[i], asked[i], *request)
        },
{
    let mut out: Vec<ShardScan> = Vec::new();
    let (from, to) = match replay_window(request) {
        Some(window) => window,
        None => {
            return out;
        },
    };
    let mut k: usize = 0;
    proof {
        assert(rows@.take(0) =~= seq![]);
    }
    while k < rows.len()
        invariant
            0 <= k <= rows@.len(),
            from == request.from.0,
            to == request.to.0,
            out@.len() == asked_rows(*request, rows@.take(k as int)).len(),
            forall|i: int|
                0 <= i < out@.len() ==> scans(
                    #[trigger] out@[i],
                    asked_rows(*request, rows@.take(k as int))[i],
                    *request,
                ),
        decreases rows@.len() - k,
    {
        let row = &rows[k];
        proof {
            assert(rows@.take(k as int + 1).drop_last() =~= rows@.take(k as int));
            assert(rows@.take(k as int + 1).last() == *row);
        }
        if let Some(pair) = selected(request, row) {
            let scan = shard_scan(row.table.as_str(), pair.kind, from, to);
            proof {
                assert(row_names(*row, pair@) && asks_for(*request, pair@));
            }
            out.push(ShardScan { pair, scan });
        }
        k += 1;
    }
    proof {
        assert(rows@.take(k as int) =~= rows@);
    }
    out
}

/// What was read of one stream: its pair and the rows of its shard.
#[derive(Debug)]
pub struct ShardRows {
    pub pair: Pair,
    pub rows: Vec<Vec<i64>>,
}

impl ShardRows {
    /// Every row has the columns of the stream's kind.
    pub open spec fn valid(self) -> bool {
        forall|i: int|
            0 <= i < self.rows@.len() ==> (#[trigger] self.rows@[i])@.len() == columns(
                self.pair.kind,
            ) + 2
    }

    /// The ordinals and events of the first `n` rows, in order.
    pub open spec fn recorded(self, n: int) -> Seq<(u64, EventView)> {
        Seq::new(
            n as nat,
            |i: int| tap_event(self.pair.instrument@, self.pair.kind, self.rows@[i]@),
        )
    }
}

/// The ordinals and events of the first shards, in order.
pub open spec fn recorded_in(shards: Seq<ShardRows>) -> Seq<(u64, EventView)>
    decreases shards.len(),
{
    if shards.len() == 0 {
        seq![]
    } else {
        recorded_in(shards.drop_last()) + shards.last().recorded(shards.last().rows@.len() as int)
    }
}

/// The ordinals and views of numbered events.
pub open spec fn numbered_views(s: Seq<Numbered>) -> Seq<(u64, EventView)> {
    Seq::new(s.len(), |i: int| (s[i].0, s[i].1@))
}

/// The events of a replay: what was recorded in the shards that were read, in
/// the order in which it was recorded; `None` where a row has not the columns
/// of its stream's kind.
pub fn replay_shards(shards: &Vec<ShardRows>) -> (r: Option<Vec<MarketEvent>>)
    ensures
        r is Some <==> forall|i: int| 0 <= i < shards@.len() ==> (#[trigger] shards@[i]).valid(),
        r matches Some(evs) ==> exists|all: Seq<Numbered>|
            numbered_views(all) == recorded_in(shards@) && evs@ == #[trigger] events_of(
                ordered(all),
            ),
{
    let mut all: Vec<Numbered> = Vec::new();
    let mut k: usize = 0;
    proof {
        assert(shards@.take(0) =~= seq![]);
        assert(numbered_views(all@) =~= seq![]);
    }
    while k < shards.len()
        invariant
            0 <= k <= shards@.len(),
            forall|i: int| 0 <= i < k ==> (#[trigger] shards@[i]).valid(),
            numbered_views(all@) == recorded_in(shards@.take(k as int)),
        decreases shards@.len() - k,
    {
        let shard = &shards[k];
        let ghost base = numbered_views(all@);
        proof {
            assert(base + shard.recorded(0) =~= base);
        }
        let width: usize = column_count(shard.pair.kind) + 2;
        let mut i: usize = 0;
        while i < shard.rows.len()
            invariant
                0 <= k < shards@.len(),
                *shard == shards@[k as int],
                width == columns(shard.pair.kind) + 2,
                0 <= i <= shard.rows@.len(),
                forall|j: int| 0 <= j < i ==> (#[trigger] shard.rows@[j])@.len() == width,
                numbered_views(all@) == base + shard.recorded(i as int),
            decreases shard.rows@.len() - i,
        {
            let ghost before = numbered_views(all@);
            if shard.rows[i].len() != width {
                assert(shard.rows@[i as int]@.len() != width);
                assert(!shards@[k as int].valid());
                return None;
            }
            all.push(decode_tap_row(&shard.pair.instrument, shard.pair.kind, &shard.rows[i]));
            proof {
                let e = tap_event(
                    shard.pair.instrument@,
                    shard.pair.kind,
                    shard.rows@[i as int]@,
                );
                assert(numbered_views(all@) =~= before.push(e));
                assert(shard.recorded(i as int + 1) =~= shard.recorded(i as int).push(e));
                assert(before.push(e) =~= base + shard.recorded(i as int + 1));
            }
            i += 1;
        }
        proof {
            assert(shards@.take(k as int + 1).drop_last() =~= shards@.take(k as int));
            assert(shards@.take(k as int + 1).last() == *shard);
            assert(shards@[k as int].valid());
        }
        k += 1;
    }
    proof {
        assert(shards@.take(k as int) =~= shards@);
    }
    Some(merge_shards(all))
}

/// A replay leaves out exactly what a request does not ask for: an empty list
/// leaves out nothing.
pub proof fn law_empty_lists_leave_nothing_out(
    request: ReplayRequest,
    pair: (InstrumentView, EventKind),
)
    ensures
        request.instruments@.len() == 0 && request.kinds@.len() == 0 ==> asks_for(request, pair),
        asks_for(request, pair) && request.kinds@.len() > 0 ==> request.kinds@.contains(pair.1),
        asks_for(request, pair) && request.instruments@.len() > 0 ==> exists|i: int|
            0 <= i < request.instruments@.len() && (#[trigger] request.instruments@[i])@ == pair.0,
        request.kinds@.contains(pair.1) && request.instruments@.len() == 0 ==> asks_for(
            request,
            pair,
        ),
{
}

/// A registry row is that of its own stream and names the stream's parts each
/// under its own name.
pub proof fn law_registry_rows_keep_their_names(
    row: StreamRow,
    pair: (InstrumentView, EventKind),
)
    requires
        row_names(row, pair),
    ensures
        row.provider@ == pair.0.provider,
        row.symbol@ == pair.0.symbol,
        row.asset_class@ == asset_class_text(pair.0.asset_class),
        row.kind_tag@ == kind_tag_text(pair.1),
{
}

/// The last row of a stream in the registry counts, and other streams are as
/// before.
pub proof fn law_last_registration_counts(
    rows: Seq<StreamRow>,
    row: StreamRow,
    pair: (InstrumentView, EventKind),
    other: (InstrumentView, EventKind),
)
    requires
        row_names(row, pair),
        other != pair,
    ensures
        registry(rows.push(row)).contains_key(pair),
        registry(rows.push(row))[pair] == row.table,
        registry(rows.push(row)).contains_key(other) <==> registry(rows).contains_key(other),
        registry(rows).contains_key(other) ==> registry(rows.push(row))[other] == registry(
            rows,
        )[other],
{
    let all = rows.push(row);
    assert(all.drop_last() =~= rows);
    assert(all.last() == row);
    assert(row_names(all.last(), pair));
    let chosen = choose|p: (InstrumentView, EventKind)| #[trigger] row_names(all.last(), p);
    law_registry_rows_are_unambiguous(row, pair, chosen);
}

/// Where a file-backed writer resumes: the next shard and the next ordinal.
pub open spec fn resumed_from(counters: Option<(i64, i64)>) -> (u64, u64) {
    match counters {
        Some((shard, ord)) => (unsigned(shard), unsigned(ord)),
        None => (0, 0),
    }
}

/// Where a document-backed writer resumes: the next shard and the next ordinal.
pub open spec fn resumed_at(meta: Option<MetaRow>) -> (u64, u64) {
    match meta {
        Some(m) => (
            m.next_shard,
            match m.next_ord {
                Some(n) => n,
                None => 0,
            },
        ),
        None => (0, 0),
    }
}

/// The answer to a flush.
pub open spec fn flushed(remembered: Option<Error>, commit: Result<(), Error>) -> Result<(), Error> {
    match remembered {
        Some(e) => Err(e),
        None => commit,
    }
}

/// What the writer of a file-backed log does next for an event of a stream.
pub open spec fn next_write(w: Writer, pair: (InstrumentView, EventKind)) -> WriteStep {
    if !w.shards@.contains_key(pair) {
        if w.tx_open {
            WriteStep::Commit
        } else {
            WriteStep::CreateShard
        }
    } else if !w.tx_open {
        WriteStep::Begin
    } else {
        WriteStep::Record(w.shards@[pair])
    }
}

/// What the writer of a document-backed log does next for an event of a stream.
pub open spec fn next_batch_step(w: BatchWriter, pair: (InstrumentView, EventKind)) -> BatchStep {
    if !w.shards@.contains_key(pair) {
        BatchStep::CreateShard
    } else if w.next_ord >= w.ord_high && w.ord_high < u64::MAX {
        BatchStep::Reserve(
            MetaRow {
                next_shard: w.next_shard,
                next_ord: Some(
                    if w.next_ord + ORD_BATCH > u64::MAX {
                        u64::MAX
                    } else {
                        (w.next_ord + ORD_BATCH) as u64
                    },
                ),
            },
        )
    } else {
        BatchStep::Record(w.shards@[pair])
    }
}

/// A writer resumes exactly where the counters were left, each counter where
/// its own was left, and at the first of both in a new log.
pub proof fn law_writers_resume_where_they_were_left(shard: u64, ord: u64)
    ensures
        resumed_from(Some((signed(shard), signed(ord)))) == (shard, ord),
        resumed_from(None) == (0u64, 0u64),
        resumed_at(Some(MetaRow { next_shard: shard, next_ord: Some(ord) })) == (shard, ord),
        resumed_at(Some(MetaRow { next_shard: shard, next_ord: None })) == (shard, 0u64),
        resumed_at(None) == (0u64, 0u64),
{
    crate::num::law_casts_round_trip(shard, 0);
    crate::num::law_casts_round_trip(ord, 0);
}

/// A commit writes the writer's own counters, each as what it is.
pub proof fn law_commits_write_the_counters(w: Writer)
    ensures
        w.counters().params.len() == 2,
        w.counters().params[0] == SqlValueView::Int(signed(w.next_shard)),
        w.counters().params[1] == SqlValueView::Int(signed(w.next_ord)),
{
}

/// An event is recorded in its own stream's shard, inside a transaction, and
/// only once the stream has a shard; shards are not made inside a transaction.
pub proof fn law_events_are_recorded_in_their_shard(w: Writer, pair: (InstrumentView, EventKind))
    ensures
        next_write(w, pair) is Record <==> w.shards@.contains_key(pair) && w.tx_open,
        next_write(w, pair) matches WriteStep::Record(shard) ==> shard == w.shards@[pair],
        next_write(w, pair) is CreateShard <==> !w.shards@.contains_key(pair) && !w.tx_open,
        next_write(w, pair) is Begin <==> w.shards@.contains_key(pair) && !w.tx_open,
        next_write(w, pair) is Commit <==> !w.shards@.contains_key(pair) && w.tx_open,
{
}

/// An event is recorded in its own stream's shard, and only under an ordinal
/// that is reserved; a reservation reserves more ordinals and never fewer, and
/// keeps the count of shards.
pub proof fn law_events_are_recorded_under_reserved_ordinals(
    w: BatchWriter,
    pair: (InstrumentView, EventKind),
)
    requires
        w.wf(),
    ensures
        !w.shards@.contains_key(pair) <==> next_batch_step(w, pair) is CreateShard,
        next_batch_step(w, pair) matches BatchStep::Record(shard) ==> shard == w.shards@[pair] && (
        w.next_ord < w.ord_high || w.ord_high == u64::MAX),
        next_batch_step(w, pair) matches BatchStep::Reserve(meta) ==> {
            &&& meta.next_ord is Some
            &&& meta.next_ord->0 > w.next_ord
            &&& meta.next_ord->0 >= w.ord_high
            &&& meta.next_shard == w.next_shard
        },
{
}

/// A failure is reported by the next flush, whatever its own commit says, and a
/// flush behind no failure reports its commit.
pub proof fn law_flushes_report_failures(e: Error, commit: Result<(), Error>)
    ensures
        flushed(Some(e), commit) == Err::<(), Error>(e),
        flushed(None, commit) == commit,
{
}

} // verus!
