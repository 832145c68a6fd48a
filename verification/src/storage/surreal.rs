//! The SurrealDB-backed historical cache.

use vstd::prelude::*;

use crate::error::{Error, ErrorView};
use crate::event::{Adjustment, EventKind};
use crate::request::{CacheKey, ReplayRequest};
use crate::table::CacheKeyView;
use crate::text::{
    bar_free, decimal, digit, join, padded, padded_signed, padded_signed_text, text_before, zeros,
};

use super::cache::{
    effective_adjustment, narrow, narrowed, stored_adjustment, total, total_count,
};
use super::coverage::CoverageDoc;
use super::sql::{SqlValue, SqlValueView};
use super::tags::{
    adjustment_text, asset_class_tag, asset_class_text, kind_for, law_adjustment_names_are_distinct,
    lemma_names_are_bar_free, table_for, table_name,
};

verus! {

/// The error of a database call that said `said`.
pub fn map_err(said: &str) -> (r: Error)
    ensures
        r@ == ErrorView::Storage("surrealdb: "@ + said@),
{
    Error::Storage(join("surrealdb: ", said))
}

/// A value bound to a named parameter.
#[derive(Debug)]
pub struct Bind {
    pub name: &'static str,
    pub value: SqlValue,
}

pub open spec fn bind_views(binds: Seq<Bind>) -> Seq<(Seq<char>, SqlValueView)> {
    Seq::new(binds.len(), |i: int| (binds[i].name@, binds[i].value@))
}

/// A query and its named values.
#[derive(Debug)]
pub struct Query {
    pub text: &'static str,
    pub binds: Vec<Bind>,
}

/// What selects a key's rows in a range.
pub open spec fn range_binds(key: CacheKeyView, from: i64, to: i64) -> Seq<
    (Seq<char>, SqlValueView),
> {
    seq![
        ("tbl"@, SqlValueView::Text(table_name(key.kind))),
        ("prov"@, SqlValueView::Text(key.instrument.provider)),
        ("sym"@, SqlValueView::Text(key.instrument.symbol)),
        (
            "adj"@,
            SqlValueView::Text(adjustment_text(stored_adjustment(key.kind, key.adjustment))),
        ),
        ("from"@, SqlValueView::Int(from)),
        ("to"@, SqlValueView::Int(to)),
    ]
}

fn bind_range(key: &CacheKey, from: i64, to: i64) -> (r: Vec<Bind>)
    ensures
        bind_views(r@) == range_binds(key@, from, to),
{
    let mut binds: Vec<Bind> = Vec::new();
    binds.push(Bind { name: "tbl", value: SqlValue::text(table_for(key.kind)) });
    binds.push(Bind { name: "prov", value: SqlValue::text(key.instrument.provider.as_str()) });
    binds.push(Bind { name: "sym", value: SqlValue::text(key.instrument.symbol()) });
    binds.push(Bind { name: "adj", value: SqlValue::text(effective_adjustment(key).as_str()) });
    binds.push(Bind { name: "from", value: SqlValue::Int(from) });
    binds.push(Bind { name: "to", value: SqlValue::Int(to) });
    proof {
        assert(bind_views(binds@) =~= range_binds(key@, from, to));
    }
    binds
}

/// The id of a row: provider, symbol, mode and source time, the time padded
/// so that ids of one series sort by it.
pub open spec fn row_id_text(
    provider: Seq<char>,
    symbol: Seq<char>,
    adjustment: Adjustment,
    ts: i64,
) -> Seq<char> {
    provider + "|"@ + symbol + "|"@ + adjustment_text(adjustment) + "|"@ + padded_signed(
        ts as int,
        20,
    )
}

pub open spec fn key_row_id(key: CacheKeyView, ts: i64) -> Seq<char> {
    row_id_text(
        key.instrument.provider,
        key.instrument.symbol,
        stored_adjustment(key.kind, key.adjustment),
        ts,
    )
}

pub fn row_id(key: &CacheKey, ts: i64) -> (r: String)
    ensures
        r@ == key_row_id(key@, ts),
{
    let mut id = join(key.instrument.provider.as_str(), "|");
    id = join(id.as_str(), key.instrument.symbol());
    id = join(id.as_str(), "|");
    id = join(id.as_str(), effective_adjustment(key).as_str());
    id = join(id.as_str(), "|");
    join(id.as_str(), padded_signed_text(ts, 20).as_str())
}

/// The cache of one SurrealDB database.
#[derive(Clone, Copy, Debug)]
pub struct SurrealCache {}

impl SurrealCache {
    pub fn table_for(kind: EventKind) -> (r: &'static str)
        ensures
            r@ == table_name(kind),
    {
        table_for(kind)
    }

    pub fn kind_for(table: &str) -> (r: Option<EventKind>)
        ensures
            r matches Some(k) ==> table_name(k) == table@,
            r is None ==> forall|k: EventKind| #[trigger] table_name(k) != table@,
    {
        kind_for(table)
    }
}

pub open spec fn cache_definitions_text() -> Seq<char> {
    "DEFINE TABLE IF NOT EXISTS coverage SCHEMALESS; DEFINE TABLE IF NOT EXISTS trades SCHEMALESS; DEFINE TABLE IF NOT EXISTS quotes SCHEMALESS; DEFINE TABLE IF NOT EXISTS bars_1s SCHEMALESS; DEFINE TABLE IF NOT EXISTS bars_1m SCHEMALESS; DEFINE TABLE IF NOT EXISTS bars_5m SCHEMALESS; DEFINE TABLE IF NOT EXISTS bars_15m SCHEMALESS; DEFINE TABLE IF NOT EXISTS bars_1h SCHEMALESS; DEFINE TABLE IF NOT EXISTS bars_1d SCHEMALESS;"@
}

pub open spec fn tap_definitions_text() -> Seq<char> {
    "DEFINE TABLE IF NOT EXISTS meta SCHEMALESS; DEFINE TABLE IF NOT EXISTS streams SCHEMALESS;"@
}

/// The definitions of the cache's tables, which can be run again and again: a
/// table that is not defined cannot be read.
pub fn cache_definitions() -> (r: &'static str)
    ensures
        r@ == cache_definitions_text(),
{
    "DEFINE TABLE IF NOT EXISTS coverage SCHEMALESS; DEFINE TABLE IF NOT EXISTS trades SCHEMALESS; DEFINE TABLE IF NOT EXISTS quotes SCHEMALESS; DEFINE TABLE IF NOT EXISTS bars_1s SCHEMALESS; DEFINE TABLE IF NOT EXISTS bars_1m SCHEMALESS; DEFINE TABLE IF NOT EXISTS bars_5m SCHEMALESS; DEFINE TABLE IF NOT EXISTS bars_15m SCHEMALESS; DEFINE TABLE IF NOT EXISTS bars_1h SCHEMALESS; DEFINE TABLE IF NOT EXISTS bars_1d SCHEMALESS;"
}

/// The definitions of the tap log's own tables.
pub fn tap_definitions() -> (r: &'static str)
    ensures
        r@ == tap_definitions_text(),
{
    "DEFINE TABLE IF NOT EXISTS meta SCHEMALESS; DEFINE TABLE IF NOT EXISTS streams SCHEMALESS;"
}

/// The definition of a shard's table, which has to be given again after the
/// log is opened.
pub fn shard_definition(table: &str) -> (r: String)
    ensures
        r@ == "DEFINE TABLE IF NOT EXISTS "@ + table@ + " SCHEMALESS"@,
{
    let head = join("DEFINE TABLE IF NOT EXISTS ", table);
    join(head.as_str(), " SCHEMALESS")
}

pub open spec fn delete_text() -> Seq<char> {
    "DELETE FROM type::table($tbl) WHERE provider = $prov AND symbol = $sym AND adjustment = $adj AND source_ts >= $from AND source_ts < $to"@
}

/// The query that clears the key's range in its own mode.
pub fn delete_query(key: &CacheKey) -> (r: Query)
    ensures
        r.text@ == delete_text(),
        bind_views(r.binds@) == range_binds(key@, key.from.0, key.to.0),
{
    Query {
        text: "DELETE FROM type::table($tbl) WHERE provider = $prov AND symbol = $sym AND adjustment = $adj AND source_ts >= $from AND source_ts < $to",
        binds: bind_range(key, key.from.0, key.to.0),
    }
}

pub open spec fn count_text() -> Seq<char> {
    "SELECT count() AS n FROM type::table($tbl) WHERE provider = $prov AND symbol = $sym AND adjustment = $adj AND source_ts >= $from AND source_ts < $to GROUP ALL"@
}

/// The query that counts the key's rows in a range.
pub fn count_query(key: &CacheKey, from: i64, to: i64) -> (r: Query)
    ensures
        r.text@ == count_text(),
        bind_views(r.binds@) == range_binds(key@, from, to),
{
    Query {
        text: "SELECT count() AS n FROM type::table($tbl) WHERE provider = $prov AND symbol = $sym AND adjustment = $adj AND source_ts >= $from AND source_ts < $to GROUP ALL",
        binds: bind_range(key, from, to),
    }
}

pub open spec fn scan_text() -> Seq<char> {
    "SELECT * FROM type::table($tbl) WHERE provider = $prov AND symbol = $sym AND adjustment = $adj AND source_ts >= $from AND source_ts < $to ORDER BY source_ts ASC"@
}

/// The query that reads what a request asks for of a key, if anything.
pub fn replay_query(key: &CacheKey, request: &ReplayRequest) -> (r: Option<Query>)
    ensures
        r is Some <==> narrowed(key@, *request) is Some,
        r is Some ==> r->0.text@ == scan_text(),
        narrowed(key@, *request) matches Some(range) ==> bind_views(r->0.binds@) == range_binds(
            key@,
            range.0,
            range.1,
        ),
{
    match narrow(key, request) {
        Some((from, to)) => Some(
            Query {
                text: "SELECT * FROM type::table($tbl) WHERE provider = $prov AND symbol = $sym AND adjustment = $adj AND source_ts >= $from AND source_ts < $to ORDER BY source_ts ASC",
                binds: bind_range(key, from, to),
            },
        ),
        None => None,
    }
}

pub open spec fn shard_scan_text() -> Seq<char> {
    "SELECT * FROM type::table($tbl) WHERE source_ts >= $from AND source_ts < $to ORDER BY ord ASC"@
}

/// What selects the rows of a shard in a window of source time.
pub open spec fn shard_binds(shard: Seq<char>, from: i64, to: i64) -> Seq<
    (Seq<char>, SqlValueView),
> {
    seq![
        ("tbl"@, SqlValueView::Text(shard)),
        ("from"@, SqlValueView::Int(from)),
        ("to"@, SqlValueView::Int(to)),
    ]
}

/// The query that reads a tap log's shard in a window of source time, in the
/// order of ordinals.
pub fn shard_query(shard: &str, from: i64, to: i64) -> (r: Query)
    ensures
        r.text@ == shard_scan_text(),
        bind_views(r.binds@) == shard_binds(shard@, from, to),
{
    let mut binds: Vec<Bind> = Vec::new();
    binds.push(Bind { name: "tbl", value: SqlValue::text(shard) });
    binds.push(Bind { name: "from", value: SqlValue::Int(from) });
    binds.push(Bind { name: "to", value: SqlValue::Int(to) });
    proof {
        assert(bind_views(binds@) =~= shard_binds(shard@, from, to));
    }
    Query {
        text: "SELECT * FROM type::table($tbl) WHERE source_ts >= $from AND source_ts < $to ORDER BY ord ASC",
        binds,
    }
}

/// The document of a key once its rows have been recounted, one count for each
/// covered segment. It names the asset class, so that a catalog can restore the
/// instrument.
pub fn recounted(doc: CoverageDoc, counts: &Vec<u64>, key: &CacheKey) -> (r: CoverageDoc)
    ensures
        is_recount(r, doc, counts@, key@),
{
    CoverageDoc {
        segments: doc.segments,
        event_count: total_count(counts),
        asset_class: Some(asset_class_tag(key.instrument.asset_class()).to_owned()),
    }
}

// ---------------------------------------------------------------------------
// Order of row ids
// ---------------------------------------------------------------------------

pub open spec fn pow10(k: nat) -> int
    decreases k,
{
    if k == 0 {
        1
    } else {
        10 * pow10((k - 1) as nat)
    }
}

proof fn lemma_decimal_len(n: nat, k: nat)
    requires
        k > 0,
        n < pow10(k),
    ensures
        decimal(n).len() <= k,
    decreases k,
{
    if n >= 10 {
        if k == 1 {
            reveal_with_fuel(pow10, 2);
        } else {
            lemma_decimal_len(n / 10, (k - 1) as nat);
        }
    }
}

/// A padded number ends in its last digit.
proof fn lemma_padded_step(n: nat, w: nat)
    requires
        w >= 2,
        decimal(n).len() <= w,
    ensures
        decimal(n / 10).len() <= w - 1,
        padded(n, w) == padded(n / 10, (w - 1) as nat).push(digit((n % 10) as int)),
{
    if n >= 10 {
        let d = decimal(n / 10);
        assert(decimal(n) =~= d.push(digit((n % 10) as int)));
        if decimal(n).len() < w {
            let z = zeros((w - decimal(n).len()) as nat);
            assert(zeros(((w - 1) - d.len()) as nat) =~= z);
            assert(z + decimal(n) =~= (z + d).push(digit((n % 10) as int)));
        }
    } else {
        assert(n / 10 == 0);
        assert(decimal(0) =~= seq!['0']);
        if w == 2 {
            assert(padded(0, 1) =~= seq!['0']);
            assert(zeros(1) =~= seq!['0']);
            assert(padded(n, w) =~= padded(0, 1).push(digit(n as int)));
        } else {
            assert(padded(0, (w - 1) as nat) =~= zeros((w - 1) as nat)) by {
                assert(zeros((w - 2) as nat) + decimal(0) =~= zeros((w - 1) as nat));
            }
            assert(zeros((w - 1) as nat) + decimal(n) =~= zeros((w - 1) as nat).push(
                digit(n as int),
            ));
        }
    }
}

proof fn lemma_before_push(a: Seq<char>, b: Seq<char>, c: char, d: char)
    requires
        a.len() == b.len(),
        text_before(a, b) || (a == b && (c as int) < (d as int)),
    ensures
        text_before(a.push(c), b.push(d)),
    decreases a.len(),
{
    if a.len() == 0 {
        assert(a.push(c)[0] == c && b.push(d)[0] == d);
    } else {
        assert(a.push(c).skip(1) =~= a.skip(1).push(c));
        assert(b.push(d).skip(1) =~= b.skip(1).push(d));
        assert(a.push(c)[0] == a[0] && b.push(d)[0] == b[0]);
        if a[0] == b[0] {
            lemma_before_push(a.skip(1), b.skip(1), c, d);
        }
    }
}

proof fn lemma_padded_len(n: nat, w: nat)
    requires
        decimal(n).len() <= w,
    ensures
        padded(n, w).len() == w,
{
}

/// Numbers padded to the same width sort as numbers.
proof fn lemma_padded_order(a: nat, b: nat, w: nat)
    requires
        a < b,
        w > 0,
        decimal(a).len() <= w,
        decimal(b).len() <= w,
    ensures
        text_before(padded(a, w), padded(b, w)),
    decreases w,
{
    if w == 1 {
        if a >= 10 {
            crate::text::lemma_decimal_denotes(a / 10);
        }
        if b >= 10 {
            crate::text::lemma_decimal_denotes(b / 10);
        }
        assert(a < 10 && b < 10);
        assert(padded(a, 1)[0] == digit(a as int));
        assert(padded(b, 1)[0] == digit(b as int));
    } else {
        lemma_padded_step(a, w);
        lemma_padded_step(b, w);
        let v = (w - 1) as nat;
        lemma_padded_len(a / 10, v);
        lemma_padded_len(b / 10, v);
        if a / 10 < b / 10 {
            lemma_padded_order(a / 10, b / 10, v);
        } else {
            assert(a / 10 == b / 10 && a % 10 < b % 10);
        }
        lemma_before_push(
            padded(a / 10, v),
            padded(b / 10, v),
            digit((a % 10) as int),
            digit((b % 10) as int),
        );
    }
}

proof fn lemma_before_prefix(p: Seq<char>, a: Seq<char>, b: Seq<char>)
    requires
        text_before(a, b),
    ensures
        text_before(p + a, p + b),
    decreases p.len(),
{
    if p.len() == 0 {
        assert(p + a =~= a);
        assert(p + b =~= b);
    } else {
        assert((p + a).skip(1) =~= p.skip(1) + a);
        assert((p + b).skip(1) =~= p.skip(1) + b);
        lemma_before_prefix(p.skip(1), a, b);
    }
}

/// Row ids of one series sort by source time, from the epoch on.
pub proof fn law_row_ids_sort_by_time(key: CacheKeyView, a: i64, b: i64)
    requires
        0 <= a < b,
    ensures
        text_before(key_row_id(key, a), key_row_id(key, b)),
{
    reveal_with_fuel(pow10, 21);
    lemma_decimal_len(a as nat, 20);
    lemma_decimal_len(b as nat, 20);
    lemma_padded_order(a as nat, b as nat, 20);
    let p = key.instrument.provider + "|"@ + key.instrument.symbol + "|"@ + adjustment_text(
        stored_adjustment(key.kind, key.adjustment),
    ) + "|"@;
    lemma_before_prefix(p, padded(a as nat, 20), padded(b as nat, 20));
}

/// Texts in front of their first bars are told apart by it.
pub proof fn lemma_first_bar(a: Seq<char>, x: Seq<char>, b: Seq<char>, y: Seq<char>)
    requires
        bar_free(a),
        bar_free(b),
        a + seq!['|'] + x == b + seq!['|'] + y,
    ensures
        a == b,
{
    let l = a + seq!['|'] + x;
    let r = b + seq!['|'] + y;
    if a.len() < b.len() {
        assert(l[a.len() as int] == '|');
        assert(r[a.len() as int] == b[a.len() as int]);
        assert(false);
    }
    if b.len() < a.len() {
        assert(r[b.len() as int] == '|');
        assert(l[b.len() as int] == a[b.len() as int]);
        assert(false);
    }
    assert forall|i: int| 0 <= i < a.len() implies a[i] == b[i] by {
        assert(l[i] == a[i] && r[i] == b[i]);
    }
    assert(a =~= b);
}

/// Rows of one series that are stored under different modes never collide: a
/// shared id means a shared mode, whatever the source times.
pub proof fn law_row_ids_keep_modes_apart(a: CacheKeyView, b: CacheKeyView, at: i64, bt: i64)
    requires
        a.instrument.provider == b.instrument.provider,
        a.instrument.symbol == b.instrument.symbol,
        key_row_id(a, at) == key_row_id(b, bt),
    ensures
        stored_adjustment(a.kind, a.adjustment) == stored_adjustment(b.kind, b.adjustment),
{
    let (am, bm) = (
        stored_adjustment(a.kind, a.adjustment),
        stored_adjustment(b.kind, b.adjustment),
    );
    let (an, bn) = (adjustment_text(am), adjustment_text(bm));
    let (ax, bx) = (padded_signed(at as int, 20), padded_signed(bt as int, 20));
    reveal_strlit("|");
    assert("|"@ =~= seq!['|']);
    let p = a.instrument.provider + "|"@ + a.instrument.symbol + "|"@;
    let n = p.len() as int;
    assert(key_row_id(a, at).skip(n) =~= an + seq!['|'] + ax);
    assert(key_row_id(b, bt).skip(n) =~= bn + seq!['|'] + bx);
    lemma_names_are_bar_free(a.kind, am);
    lemma_names_are_bar_free(b.kind, bm);
    lemma_first_bar(an, ax, bn, bx);
    law_adjustment_names_are_distinct(am, bm);
}

/// Whether a document is another one with its events counted anew.
pub open spec fn is_recount(
    r: CoverageDoc,
    doc: CoverageDoc,
    counts: Seq<u64>,
    key: CacheKeyView,
) -> bool {
    &&& r.segments == doc.segments
    &&& r.event_count == total(counts)
    &&& r.asset_class is Some
    &&& r.asset_class->0@ == asset_class_text(key.instrument.asset_class)
}

/// A recounted document covers what it covered, counts what is there now and
/// not what was counted before, and names the class of its instrument.
pub proof fn law_recounts_replace_the_count(
    r: CoverageDoc,
    doc: CoverageDoc,
    count: u64,
    key: CacheKeyView,
)
    requires
        is_recount(r, doc, seq![count], key),
    ensures
        r.segments@ == doc.segments@,
        r.event_count == count,
        r.asset_class->0@ == asset_class_text(key.instrument.asset_class),
{
    super::cache::law_counts_add_up(seq![], count);
    assert(Seq::<u64>::empty().push(count) =~= seq![count]);
}

} // verus!
