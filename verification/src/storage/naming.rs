//! The columns of stored rows by name: what each name stands for, and that
//! statements write and read the columns under the same names.

use vstd::prelude::*;

use crate::event::{
    BarInterval, BarView, EventKind, EventView, InstrumentView, QuoteView, SeqNo, TradeView,
};
use crate::num::{signed, unsigned};
use crate::table::{pair_of, CacheKeyView};
use crate::text::decimal;

use super::cache::{
    create_table_text, insert_columns, insert_view, key_values, payload_columns, scan_view,
    select_columns, stored_adjustment, upsert_view,
};
use super::rows::{columns, event_of_row, row_of};
use super::sql::SqlValueView;
use super::tags::{adjustment_text, asset_class_text, kind_tag_text, table_name};
use super::tap_log::{
    create_shard_text, persist_view, record_view, register_view, registry_text, shard_scan_view,
    tap_columns, tap_event, tap_row, tap_select,
};

verus! {

/// Names with commas between them.
pub open spec fn listing(names: Seq<Seq<char>>) -> Seq<char>
    decreases names.len(),
{
    if names.len() == 0 {
        seq![]
    } else if names.len() == 1 {
        names[0]
    } else {
        listing(names.drop_last()) + ", "@ + names.last()
    }
}

/// What stands under a name.
pub open spec fn cell<T>(names: Seq<Seq<char>>, values: Seq<T>, name: Seq<char>) -> T {
    values[names.index_of(name)]
}

/// The first `n` parameters of a statement.
pub open spec fn parameters(n: nat) -> Seq<Seq<char>> {
    Seq::new(n, |i: int| "?"@ + decimal((i + 1) as nat))
}

/// The names under which a row of the cache says whose it is.
pub open spec fn owner_names() -> Seq<Seq<char>> {
    seq!["provider"@, "symbol"@, "adjustment"@]
}

/// The names of a row's integers, in the order in which they are stored.
pub open spec fn column_names(kind: EventKind) -> Seq<Seq<char>> {
    match kind {
        EventKind::Trade => seq!["source_ts"@, "rx_ts"@, "price_raw"@, "size_raw"@],
        EventKind::Quote => seq![
            "source_ts"@,
            "rx_ts"@,
            "bid_raw"@,
            "bid_size_raw"@,
            "ask_raw"@,
            "ask_size_raw"@,
        ],
        EventKind::Bar(_) => seq![
            "source_ts"@,
            "rx_ts"@,
            "open_raw"@,
            "high_raw"@,
            "low_raw"@,
            "close_raw"@,
            "volume_raw"@,
        ],
    }
}

/// The names of a recorded row's integers.
pub open spec fn tap_names(kind: EventKind) -> Seq<Seq<char>> {
    seq!["ord"@, "seq"@] + column_names(kind)
}

proof fn lemma_listing_push(names: Seq<Seq<char>>, x: Seq<char>)
    requires
        names.len() > 0,
    ensures
        listing(names.push(x)) == listing(names) + ", "@ + x,
{
    assert(names.push(x).drop_last() =~= names);
}

proof fn lemma_cell<T>(names: Seq<Seq<char>>, values: Seq<T>, i: int)
    requires
        0 <= i < names.len(),
        names.no_duplicates(),
    ensures
        cell(names, values, names[i]) == values[i],
{
    let k = names.index_of(names[i]);
    assert(names.contains(names[i]));
    assert(names[k] == names[i]);
}

proof fn lemma_listing_append(a: Seq<Seq<char>>, b: Seq<Seq<char>>)
    requires
        a.len() > 0,
        b.len() > 0,
    ensures
        listing(a + b) == listing(a) + ", "@ + listing(b),
    decreases b.len(),
{
    if b.len() == 1 {
        assert(a + b =~= a.push(b[0]));
        lemma_listing_push(a, b[0]);
    } else {
        let d = b.drop_last();
        lemma_listing_append(a, d);
        assert(a + b =~= (a + d).push(b.last()));
        lemma_listing_push(a + d, b.last());
        assert(listing(a) + ", "@ + listing(d) + ", "@ + b.last() =~= listing(a) + ", "@ + listing(
            b,
        ));
    }
}

proof fn lemma_trade_listing()
    ensures
        listing(seq![
            "source_ts"@,
            "rx_ts"@,
            "price_raw"@,
            "size_raw"@,
        ]) == "source_ts, rx_ts, price_raw, size_raw"@,
{
    reveal_strlit("source_ts");
    reveal_strlit("rx_ts");
    reveal_strlit("price_raw");
    reveal_strlit("size_raw");
    reveal_strlit(", ");
    reveal_strlit("source_ts, rx_ts");
    reveal_strlit("source_ts, rx_ts, price_raw");
    reveal_strlit("source_ts, rx_ts, price_raw, size_raw");
    assert(seq!["source_ts"@] =~= Seq::<Seq<char>>::empty().push("source_ts"@));
    lemma_listing_push(seq!["source_ts"@], "rx_ts"@);
    assert(seq!["source_ts"@].push("rx_ts"@) =~= seq!["source_ts"@, "rx_ts"@]);
    assert("source_ts"@ + ", "@ + "rx_ts"@ =~= "source_ts, rx_ts"@);
    lemma_listing_push(seq!["source_ts"@, "rx_ts"@], "price_raw"@);
    assert(seq!["source_ts"@, "rx_ts"@].push("price_raw"@)
        =~= seq!["source_ts"@, "rx_ts"@, "price_raw"@]);
    assert("source_ts, rx_ts"@ + ", "@ + "price_raw"@ =~= "source_ts, rx_ts, price_raw"@);
    lemma_listing_push(seq!["source_ts"@, "rx_ts"@, "price_raw"@], "size_raw"@);
    assert(seq!["source_ts"@, "rx_ts"@, "price_raw"@].push("size_raw"@)
        =~= seq!["source_ts"@, "rx_ts"@, "price_raw"@, "size_raw"@]);
    assert("source_ts, rx_ts, price_raw"@ + ", "@ + "size_raw"@
        =~= "source_ts, rx_ts, price_raw, size_raw"@);
}

proof fn lemma_quote_listing()
    ensures
        listing(seq![
            "source_ts"@,
            "rx_ts"@,
            "bid_raw"@,
            "bid_size_raw"@,
            "ask_raw"@,
            "ask_size_raw"@,
        ]) == "source_ts, rx_ts, bid_raw, bid_size_raw, ask_raw, ask_size_raw"@,
{
    reveal_strlit("source_ts");
    reveal_strlit("rx_ts");
    reveal_strlit("bid_raw");
    reveal_strlit("bid_size_raw");
    reveal_strlit("ask_raw");
    reveal_strlit("ask_size_raw");
    reveal_strlit(", ");
    reveal_strlit("source_ts, rx_ts");
    reveal_strlit("source_ts, rx_ts, bid_raw");
    reveal_strlit("source_ts, rx_ts, bid_raw, bid_size_raw");
    reveal_strlit("source_ts, rx_ts, bid_raw, bid_size_raw, ask_raw");
    reveal_strlit("source_ts, rx_ts, bid_raw, bid_size_raw, ask_raw, ask_size_raw");
    assert(seq!["source_ts"@] =~= Seq::<Seq<char>>::empty().push("source_ts"@));
    lemma_listing_push(seq!["source_ts"@], "rx_ts"@);
    assert(seq!["source_ts"@].push("rx_ts"@) =~= seq!["source_ts"@, "rx_ts"@]);
    assert("source_ts"@ + ", "@ + "rx_ts"@ =~= "source_ts, rx_ts"@);
    lemma_listing_push(seq!["source_ts"@, "rx_ts"@], "bid_raw"@);
    assert(seq!["source_ts"@, "rx_ts"@].push("bid_raw"@)
        =~= seq!["source_ts"@, "rx_ts"@, "bid_raw"@]);
    assert("source_ts, rx_ts"@ + ", "@ + "bid_raw"@ =~= "source_ts, rx_ts, bid_raw"@);
    lemma_listing_push(seq!["source_ts"@, "rx_ts"@, "bid_raw"@], "bid_size_raw"@);
    assert(seq!["source_ts"@, "rx_ts"@, "bid_raw"@].push("bid_size_raw"@)
        =~= seq!["source_ts"@, "rx_ts"@, "bid_raw"@, "bid_size_raw"@]);
    assert("source_ts, rx_ts, bid_raw"@ + ", "@ + "bid_size_raw"@
        =~= "source_ts, rx_ts, bid_raw, bid_size_raw"@);
    lemma_listing_push(seq!["source_ts"@, "rx_ts"@, "bid_raw"@, "bid_size_raw"@], "ask_raw"@);
    assert(seq!["source_ts"@, "rx_ts"@, "bid_raw"@, "bid_size_raw"@].push("ask_raw"@)
        =~= seq!["source_ts"@, "rx_ts"@, "bid_raw"@, "bid_size_raw"@, "ask_raw"@]);
    assert("source_ts, rx_ts, bid_raw, bid_size_raw"@ + ", "@ + "ask_raw"@
        =~= "source_ts, rx_ts, bid_raw, bid_size_raw, ask_raw"@);
    lemma_listing_push(
        seq!["source_ts"@, "rx_ts"@, "bid_raw"@, "bid_size_raw"@, "ask_raw"@],
        "ask_size_raw"@,
    );
    assert(seq!["source_ts"@, "rx_ts"@, "bid_raw"@, "bid_size_raw"@, "ask_raw"@].push("ask_size_raw"@)
        =~= seq!["source_ts"@, "rx_ts"@, "bid_raw"@, "bid_size_raw"@, "ask_raw"@, "ask_size_raw"@]);
    assert("source_ts, rx_ts, bid_raw, bid_size_raw, ask_raw"@ + ", "@ + "ask_size_raw"@
        =~= "source_ts, rx_ts, bid_raw, bid_size_raw, ask_raw, ask_size_raw"@);
}

proof fn lemma_bar_listing()
    ensures
        listing(seq![
            "source_ts"@,
            "rx_ts"@,
            "open_raw"@,
            "high_raw"@,
            "low_raw"@,
            "close_raw"@,
            "volume_raw"@,
        ]) == "source_ts, rx_ts, open_raw, high_raw, low_raw, close_raw, volume_raw"@,
{
    reveal_strlit("source_ts");
    reveal_strlit("rx_ts");
    reveal_strlit("open_raw");
    reveal_strlit("high_raw");
    reveal_strlit("low_raw");
    reveal_strlit("close_raw");
    reveal_strlit("volume_raw");
    reveal_strlit(", ");
    reveal_strlit("source_ts, rx_ts");
    reveal_strlit("source_ts, rx_ts, open_raw");
    reveal_strlit("source_ts, rx_ts, open_raw, high_raw");
    reveal_strlit("source_ts, rx_ts, open_raw, high_raw, low_raw");
    reveal_strlit("source_ts, rx_ts, open_raw, high_raw, low_raw, close_raw");
    reveal_strlit("source_ts, rx_ts, open_raw, high_raw, low_raw, close_raw, volume_raw");
    assert(seq!["source_ts"@] =~= Seq::<Seq<char>>::empty().push("source_ts"@));
    lemma_listing_push(seq!["source_ts"@], "rx_ts"@);
    assert(seq!["source_ts"@].push("rx_ts"@) =~= seq!["source_ts"@, "rx_ts"@]);
    assert("source_ts"@ + ", "@ + "rx_ts"@ =~= "source_ts, rx_ts"@);
    lemma_listing_push(seq!["source_ts"@, "rx_ts"@], "open_raw"@);
    assert(seq!["source_ts"@, "rx_ts"@].push("open_raw"@)
        =~= seq!["source_ts"@, "rx_ts"@, "open_raw"@]);
    assert("source_ts, rx_ts"@ + ", "@ + "open_raw"@ =~= "source_ts, rx_ts, open_raw"@);
    lemma_listing_push(seq!["source_ts"@, "rx_ts"@, "open_raw"@], "high_raw"@);
    assert(seq!["source_ts"@, "rx_ts"@, "open_raw"@].push("high_raw"@)
        =~= seq!["source_ts"@, "rx_ts"@, "open_raw"@, "high_raw"@]);
    assert("source_ts, rx_ts, open_raw"@ + ", "@ + "high_raw"@
        =~= "source_ts, rx_ts, open_raw, high_raw"@);
    lemma_listing_push(seq!["source_ts"@, "rx_ts"@, "open_raw"@, "high_raw"@], "low_raw"@);
    assert(seq!["source_ts"@, "rx_ts"@, "open_raw"@, "high_raw"@].push("low_raw"@)
        =~= seq!["source_ts"@, "rx_ts"@, "open_raw"@, "high_raw"@, "low_raw"@]);
    assert("source_ts, rx_ts, open_raw, high_raw"@ + ", "@ + "low_raw"@
        =~= "source_ts, rx_ts, open_raw, high_raw, low_raw"@);
    lemma_listing_push(
        seq!["source_ts"@, "rx_ts"@, "open_raw"@, "high_raw"@, "low_raw"@],
        "close_raw"@,
    );
    assert(seq!["source_ts"@, "rx_ts"@, "open_raw"@, "high_raw"@, "low_raw"@].push("close_raw"@)
        =~= seq!["source_ts"@, "rx_ts"@, "open_raw"@, "high_raw"@, "low_raw"@, "close_raw"@]);
    assert("source_ts, rx_ts, open_raw, high_raw, low_raw"@ + ", "@ + "close_raw"@
        =~= "source_ts, rx_ts, open_raw, high_raw, low_raw, close_raw"@);
    lemma_listing_push(
        seq!["source_ts"@, "rx_ts"@, "open_raw"@, "high_raw"@, "low_raw"@, "close_raw"@],
        "volume_raw"@,
    );
    assert(seq![
        "source_ts"@,
        "rx_ts"@,
        "open_raw"@,
        "high_raw"@,
        "low_raw"@,
        "close_raw"@,
    ].push("volume_raw"@)
        =~= seq![
            "source_ts"@,
            "rx_ts"@,
            "open_raw"@,
            "high_raw"@,
            "low_raw"@,
            "close_raw"@,
            "volume_raw"@,
        ]);
    assert("source_ts, rx_ts, open_raw, high_raw, low_raw, close_raw"@ + ", "@ + "volume_raw"@
        =~= "source_ts, rx_ts, open_raw, high_raw, low_raw, close_raw, volume_raw"@);
}

proof fn lemma_leading_listings()
    ensures
        listing(seq!["provider"@, "symbol"@, "adjustment"@]) == "provider, symbol, adjustment"@,
        listing(seq!["ord"@, "seq"@]) == "ord, seq"@,
{
    reveal_strlit("provider");
    reveal_strlit("symbol");
    reveal_strlit("adjustment");
    reveal_strlit("ord");
    reveal_strlit("seq");
    reveal_strlit(", ");
    reveal_strlit("provider, symbol");
    reveal_strlit("provider, symbol, adjustment");
    reveal_strlit("ord, seq");
    assert(seq!["provider"@] =~= Seq::<Seq<char>>::empty().push("provider"@));
    lemma_listing_push(seq!["provider"@], "symbol"@);
    assert(seq!["provider"@].push("symbol"@) =~= seq!["provider"@, "symbol"@]);
    assert("provider"@ + ", "@ + "symbol"@ =~= "provider, symbol"@);
    lemma_listing_push(seq!["provider"@, "symbol"@], "adjustment"@);
    assert(seq!["provider"@, "symbol"@].push("adjustment"@)
        =~= seq!["provider"@, "symbol"@, "adjustment"@]);
    assert("provider, symbol"@ + ", "@ + "adjustment"@ =~= "provider, symbol, adjustment"@);
    assert(seq!["ord"@] =~= Seq::<Seq<char>>::empty().push("ord"@));
    lemma_listing_push(seq!["ord"@], "seq"@);
    assert(seq!["ord"@].push("seq"@) =~= seq!["ord"@, "seq"@]);
    assert("ord"@ + ", "@ + "seq"@ =~= "ord, seq"@);
}

proof fn lemma_parameters()
    ensures
        listing(parameters(2)) == "?1, ?2"@,
        listing(parameters(4)) == "?1, ?2, ?3, ?4"@,
        listing(parameters(6)) == "?1, ?2, ?3, ?4, ?5, ?6"@,
        listing(parameters(7)) == "?1, ?2, ?3, ?4, ?5, ?6, ?7"@,
        listing(parameters(8)) == "?1, ?2, ?3, ?4, ?5, ?6, ?7, ?8"@,
        listing(parameters(9)) == "?1, ?2, ?3, ?4, ?5, ?6, ?7, ?8, ?9"@,
        listing(parameters(10)) == "?1, ?2, ?3, ?4, ?5, ?6, ?7, ?8, ?9, ?10"@,
{
    reveal_with_fuel(decimal, 3);
    reveal_strlit("?");
    reveal_strlit("?1");
    reveal_strlit("?2");
    reveal_strlit("?3");
    reveal_strlit("?4");
    reveal_strlit("?5");
    reveal_strlit("?6");
    reveal_strlit("?7");
    reveal_strlit("?8");
    reveal_strlit("?9");
    reveal_strlit("?10");
    reveal_strlit(", ");
    reveal_strlit("?1, ?2");
    reveal_strlit("?1, ?2, ?3");
    reveal_strlit("?1, ?2, ?3, ?4");
    reveal_strlit("?1, ?2, ?3, ?4, ?5");
    reveal_strlit("?1, ?2, ?3, ?4, ?5, ?6");
    reveal_strlit("?1, ?2, ?3, ?4, ?5, ?6, ?7");
    reveal_strlit("?1, ?2, ?3, ?4, ?5, ?6, ?7, ?8");
    reveal_strlit("?1, ?2, ?3, ?4, ?5, ?6, ?7, ?8, ?9");
    reveal_strlit("?1, ?2, ?3, ?4, ?5, ?6, ?7, ?8, ?9, ?10");
    assert("?"@ + decimal(1) =~= "?1"@);
    assert("?"@ + decimal(2) =~= "?2"@);
    assert("?"@ + decimal(3) =~= "?3"@);
    assert("?"@ + decimal(4) =~= "?4"@);
    assert("?"@ + decimal(5) =~= "?5"@);
    assert("?"@ + decimal(6) =~= "?6"@);
    assert("?"@ + decimal(7) =~= "?7"@);
    assert("?"@ + decimal(8) =~= "?8"@);
    assert("?"@ + decimal(9) =~= "?9"@);
    assert("?"@ + decimal(10) =~= "?10"@);
    assert(parameters(1) =~= seq!["?1"@]);
    lemma_listing_push(parameters(1), "?2"@);
    assert(parameters(1).push("?2"@) =~= parameters(2));
    assert("?1"@ + ", "@ + "?2"@ =~= "?1, ?2"@);
    lemma_listing_push(parameters(2), "?3"@);
    assert(parameters(2).push("?3"@) =~= parameters(3));
    assert("?1, ?2"@ + ", "@ + "?3"@ =~= "?1, ?2, ?3"@);
    lemma_listing_push(parameters(3), "?4"@);
    assert(parameters(3).push("?4"@) =~= parameters(4));
    assert("?1, ?2, ?3"@ + ", "@ + "?4"@ =~= "?1, ?2, ?3, ?4"@);
    lemma_listing_push(parameters(4), "?5"@);
    assert(parameters(4).push("?5"@) =~= parameters(5));
    assert("?1, ?2, ?3, ?4"@ + ", "@ + "?5"@ =~= "?1, ?2, ?3, ?4, ?5"@);
    lemma_listing_push(parameters(5), "?6"@);
    assert(parameters(5).push("?6"@) =~= parameters(6));
    assert("?1, ?2, ?3, ?4, ?5"@ + ", "@ + "?6"@ =~= "?1, ?2, ?3, ?4, ?5, ?6"@);
    lemma_listing_push(parameters(6), "?7"@);
    assert(parameters(6).push("?7"@) =~= parameters(7));
    assert("?1, ?2, ?3, ?4, ?5, ?6"@ + ", "@ + "?7"@ =~= "?1, ?2, ?3, ?4, ?5, ?6, ?7"@);
    lemma_listing_push(parameters(7), "?8"@);
    assert(parameters(7).push("?8"@) =~= parameters(8));
    assert("?1, ?2, ?3, ?4, ?5, ?6, ?7"@ + ", "@ + "?8"@ =~= "?1, ?2, ?3, ?4, ?5, ?6, ?7, ?8"@);
    lemma_listing_push(parameters(8), "?9"@);
    assert(parameters(8).push("?9"@) =~= parameters(9));
    assert("?1, ?2, ?3, ?4, ?5, ?6, ?7, ?8"@ + ", "@ + "?9"@
        =~= "?1, ?2, ?3, ?4, ?5, ?6, ?7, ?8, ?9"@);
    lemma_listing_push(parameters(9), "?10"@);
    assert(parameters(9).push("?10"@) =~= parameters(10));
    assert("?1, ?2, ?3, ?4, ?5, ?6, ?7, ?8, ?9"@ + ", "@ + "?10"@
        =~= "?1, ?2, ?3, ?4, ?5, ?6, ?7, ?8, ?9, ?10"@);
}

proof fn lemma_trade_names_differ()
    ensures
        (seq!["ord"@, "seq"@] + column_names(EventKind::Trade)).no_duplicates(),
        (owner_names() + column_names(EventKind::Trade)).no_duplicates(),
        column_names(EventKind::Trade).no_duplicates(),
{
    reveal_strlit("provider");
    reveal_strlit("symbol");
    reveal_strlit("adjustment");
    reveal_strlit("ord");
    reveal_strlit("seq");
    reveal_strlit("source_ts");
    reveal_strlit("rx_ts");
    reveal_strlit("price_raw");
    reveal_strlit("size_raw");
    assert("provider"@.len() != "symbol"@.len());
    assert("provider"@.len() != "adjustment"@.len());
    assert("provider"@.len() != "ord"@.len());
    assert("provider"@.len() != "seq"@.len());
    assert("provider"@.len() != "source_ts"@.len());
    assert("provider"@.len() != "rx_ts"@.len());
    assert("provider"@.len() != "price_raw"@.len());
    assert("provider"@[0] != "size_raw"@[0]);
    assert("symbol"@.len() != "adjustment"@.len());
    assert("symbol"@.len() != "ord"@.len());
    assert("symbol"@.len() != "seq"@.len());
    assert("symbol"@.len() != "source_ts"@.len());
    assert("symbol"@.len() != "rx_ts"@.len());
    assert("symbol"@.len() != "price_raw"@.len());
    assert("symbol"@.len() != "size_raw"@.len());
    assert("adjustment"@.len() != "ord"@.len());
    assert("adjustment"@.len() != "seq"@.len());
    assert("adjustment"@.len() != "source_ts"@.len());
    assert("adjustment"@.len() != "rx_ts"@.len());
    assert("adjustment"@.len() != "price_raw"@.len());
    assert("adjustment"@.len() != "size_raw"@.len());
    assert("ord"@[0] != "seq"@[0]);
    assert("ord"@.len() != "source_ts"@.len());
    assert("ord"@.len() != "rx_ts"@.len());
    assert("ord"@.len() != "price_raw"@.len());
    assert("ord"@.len() != "size_raw"@.len());
    assert("seq"@.len() != "source_ts"@.len());
    assert("seq"@.len() != "rx_ts"@.len());
    assert("seq"@.len() != "price_raw"@.len());
    assert("seq"@.len() != "size_raw"@.len());
    assert("source_ts"@.len() != "rx_ts"@.len());
    assert("source_ts"@[0] != "price_raw"@[0]);
    assert("source_ts"@.len() != "size_raw"@.len());
    assert("rx_ts"@.len() != "price_raw"@.len());
    assert("rx_ts"@.len() != "size_raw"@.len());
    assert("price_raw"@.len() != "size_raw"@.len());
    let a = seq!["ord"@, "seq"@] + column_names(EventKind::Trade);
    assert forall|i: int, j: int| 0 <= i < a.len() && 0 <= j < a.len() && i != j implies a[i]
        != a[j] by {
        assert(i == 0 || i == 1 || i == 2 || i == 3 || i == 4 || i == 5);
        assert(j == 0 || j == 1 || j == 2 || j == 3 || j == 4 || j == 5);
    }
    let b = owner_names() + column_names(EventKind::Trade);
    assert forall|i: int, j: int| 0 <= i < b.len() && 0 <= j < b.len() && i != j implies b[i]
        != b[j] by {
        assert(i == 0 || i == 1 || i == 2 || i == 3 || i == 4 || i == 5 || i == 6);
        assert(j == 0 || j == 1 || j == 2 || j == 3 || j == 4 || j == 5 || j == 6);
    }
    let c = column_names(EventKind::Trade);
    assert forall|i: int, j: int| 0 <= i < c.len() && 0 <= j < c.len() && i != j implies c[i] != c[j] by {
        assert(a[i + 2] == c[i] && a[j + 2] == c[j]);
    }
}

proof fn lemma_quote_names_differ()
    ensures
        (seq!["ord"@, "seq"@] + column_names(EventKind::Quote)).no_duplicates(),
        (owner_names() + column_names(EventKind::Quote)).no_duplicates(),
        column_names(EventKind::Quote).no_duplicates(),
{
    reveal_strlit("provider");
    reveal_strlit("symbol");
    reveal_strlit("adjustment");
    reveal_strlit("ord");
    reveal_strlit("seq");
    reveal_strlit("source_ts");
    reveal_strlit("rx_ts");
    reveal_strlit("bid_raw");
    reveal_strlit("bid_size_raw");
    reveal_strlit("ask_raw");
    reveal_strlit("ask_size_raw");
    assert("provider"@.len() != "symbol"@.len());
    assert("provider"@.len() != "adjustment"@.len());
    assert("provider"@.len() != "ord"@.len());
    assert("provider"@.len() != "seq"@.len());
    assert("provider"@.len() != "source_ts"@.len());
    assert("provider"@.len() != "rx_ts"@.len());
    assert("provider"@.len() != "bid_raw"@.len());
    assert("provider"@.len() != "bid_size_raw"@.len());
    assert("provider"@.len() != "ask_raw"@.len());
    assert("provider"@.len() != "ask_size_raw"@.len());
    assert("symbol"@.len() != "adjustment"@.len());
    assert("symbol"@.len() != "ord"@.len());
    assert("symbol"@.len() != "seq"@.len());
    assert("symbol"@.len() != "source_ts"@.len());
    assert("symbol"@.len() != "rx_ts"@.len());
    assert("symbol"@.len() != "bid_raw"@.len());
    assert("symbol"@.len() != "bid_size_raw"@.len());
    assert("symbol"@.len() != "ask_raw"@.len());
    assert("symbol"@.len() != "ask_size_raw"@.len());
    assert("adjustment"@.len() != "ord"@.len());
    assert("adjustment"@.len() != "seq"@.len());
    assert("adjustment"@.len() != "source_ts"@.len());
    assert("adjustment"@.len() != "rx_ts"@.len());
    assert("adjustment"@.len() != "bid_raw"@.len());
    assert("adjustment"@.len() != "bid_size_raw"@.len());
    assert("adjustment"@.len() != "ask_raw"@.len());
    assert("adjustment"@.len() != "ask_size_raw"@.len());
    assert("ord"@[0] != "seq"@[0]);
    assert("ord"@.len() != "source_ts"@.len());
    assert("ord"@.len() != "rx_ts"@.len());
    assert("ord"@.len() != "bid_raw"@.len());
    assert("ord"@.len() != "bid_size_raw"@.len());
    assert("ord"@.len() != "ask_raw"@.len());
    assert("ord"@.len() != "ask_size_raw"@.len());
    assert("seq"@.len() != "source_ts"@.len());
    assert("seq"@.len() != "rx_ts"@.len());
    assert("seq"@.len() != "bid_raw"@.len());
    assert("seq"@.len() != "bid_size_raw"@.len());
    assert("seq"@.len() != "ask_raw"@.len());
    assert("seq"@.len() != "ask_size_raw"@.len());
    assert("source_ts"@.len() != "rx_ts"@.len());
    assert("source_ts"@.len() != "bid_raw"@.len());
    assert("source_ts"@.len() != "bid_size_raw"@.len());
    assert("source_ts"@.len() != "ask_raw"@.len());
    assert("source_ts"@.len() != "ask_size_raw"@.len());
    assert("rx_ts"@.len() != "bid_raw"@.len());
    assert("rx_ts"@.len() != "bid_size_raw"@.len());
    assert("rx_ts"@.len() != "ask_raw"@.len());
    assert("rx_ts"@.len() != "ask_size_raw"@.len());
    assert("bid_raw"@.len() != "bid_size_raw"@.len());
    assert("bid_raw"@[0] != "ask_raw"@[0]);
    assert("bid_raw"@.len() != "ask_size_raw"@.len());
    assert("bid_size_raw"@.len() != "ask_raw"@.len());
    assert("bid_size_raw"@[0] != "ask_size_raw"@[0]);
    assert("ask_raw"@.len() != "ask_size_raw"@.len());
    let a = seq!["ord"@, "seq"@] + column_names(EventKind::Quote);
    assert forall|i: int, j: int| 0 <= i < a.len() && 0 <= j < a.len() && i != j implies a[i]
        != a[j] by {
        assert(i == 0 || i == 1 || i == 2 || i == 3 || i == 4 || i == 5 || i == 6 || i == 7);
        assert(j == 0 || j == 1 || j == 2 || j == 3 || j == 4 || j == 5 || j == 6 || j == 7);
    }
    let b = owner_names() + column_names(EventKind::Quote);
    assert forall|i: int, j: int| 0 <= i < b.len() && 0 <= j < b.len() && i != j implies b[i]
        != b[j] by {
        assert(i == 0 || i == 1 || i == 2 || i == 3 || i == 4 || i == 5 || i == 6 || i == 7 || i == 8);
        assert(j == 0 || j == 1 || j == 2 || j == 3 || j == 4 || j == 5 || j == 6 || j == 7 || j == 8);
    }
    let c = column_names(EventKind::Quote);
    assert forall|i: int, j: int| 0 <= i < c.len() && 0 <= j < c.len() && i != j implies c[i] != c[j] by {
        assert(a[i + 2] == c[i] && a[j + 2] == c[j]);
    }
}

proof fn lemma_bar_names_differ()
    ensures
        (seq!["ord"@, "seq"@] + column_names(EventKind::Bar(BarInterval::OneDay))).no_duplicates(),
        (owner_names() + column_names(EventKind::Bar(BarInterval::OneDay))).no_duplicates(),
        column_names(EventKind::Bar(BarInterval::OneDay)).no_duplicates(),
{
    reveal_strlit("provider");
    reveal_strlit("symbol");
    reveal_strlit("adjustment");
    reveal_strlit("ord");
    reveal_strlit("seq");
    reveal_strlit("source_ts");
    reveal_strlit("rx_ts");
    reveal_strlit("open_raw");
    reveal_strlit("high_raw");
    reveal_strlit("low_raw");
    reveal_strlit("close_raw");
    reveal_strlit("volume_raw");
    assert("provider"@.len() != "symbol"@.len());
    assert("provider"@.len() != "adjustment"@.len());
    assert("provider"@.len() != "ord"@.len());
    assert("provider"@.len() != "seq"@.len());
    assert("provider"@.len() != "source_ts"@.len());
    assert("provider"@.len() != "rx_ts"@.len());
    assert("provider"@[0] != "open_raw"@[0]);
    assert("provider"@[0] != "high_raw"@[0]);
    assert("provider"@.len() != "low_raw"@.len());
    assert("provider"@.len() != "close_raw"@.len());
    assert("provider"@.len() != "volume_raw"@.len());
    assert("symbol"@.len() != "adjustment"@.len());
    assert("symbol"@.len() != "ord"@.len());
    assert("symbol"@.len() != "seq"@.len());
    assert("symbol"@.len() != "source_ts"@.len());
    assert("symbol"@.len() != "rx_ts"@.len());
    assert("symbol"@.len() != "open_raw"@.len());
    assert("symbol"@.len() != "high_raw"@.len());
    assert("symbol"@.len() != "low_raw"@.len());
    assert("symbol"@.len() != "close_raw"@.len());
    assert("symbol"@.len() != "volume_raw"@.len());
    assert("adjustment"@.len() != "ord"@.len());
    assert("adjustment"@.len() != "seq"@.len());
    assert("adjustment"@.len() != "source_ts"@.len());
    assert("adjustment"@.len() != "rx_ts"@.len());
    assert("adjustment"@.len() != "open_raw"@.len());
    assert("adjustment"@.len() != "high_raw"@.len());
    assert("adjustment"@.len() != "low_raw"@.len());
    assert("adjustment"@.len() != "close_raw"@.len());
    assert("adjustment"@[0] != "volume_raw"@[0]);
    assert("ord"@[0] != "seq"@[0]);
    assert("ord"@.len() != "source_ts"@.len());
    assert("ord"@.len() != "rx_ts"@.len());
    assert("ord"@.len() != "open_raw"@.len());
    assert("ord"@.len() != "high_raw"@.len());
    assert("ord"@.len() != "low_raw"@.len());
    assert("ord"@.len() != "close_raw"@.len());
    assert("ord"@.len() != "volume_raw"@.len());
    assert("seq"@.len() != "source_ts"@.len());
    assert("seq"@.len() != "rx_ts"@.len());
    assert("seq"@.len() != "open_raw"@.len());
    assert("seq"@.len() != "high_raw"@.len());
    assert("seq"@.len() != "low_raw"@.len());
    assert("seq"@.len() != "close_raw"@.len());
    assert("seq"@.len() != "volume_raw"@.len());
    assert("source_ts"@.len() != "rx_ts"@.len());
    assert("source_ts"@.len() != "open_raw"@.len());
    assert("source_ts"@.len() != "high_raw"@.len());
    assert("source_ts"@.len() != "low_raw"@.len());
    assert("source_ts"@[0] != "close_raw"@[0]);
    assert("source_ts"@.len() != "volume_raw"@.len());
    assert("rx_ts"@.len() != "open_raw"@.len());
    assert("rx_ts"@.len() != "high_raw"@.len());
    assert("rx_ts"@.len() != "low_raw"@.len());
    assert("rx_ts"@.len() != "close_raw"@.len());
    assert("rx_ts"@.len() != "volume_raw"@.len());
    assert("open_raw"@[0] != "high_raw"@[0]);
    assert("open_raw"@.len() != "low_raw"@.len());
    assert("open_raw"@.len() != "close_raw"@.len());
    assert("open_raw"@.len() != "volume_raw"@.len());
    assert("high_raw"@.len() != "low_raw"@.len());
    assert("high_raw"@.len() != "close_raw"@.len());
    assert("high_raw"@.len() != "volume_raw"@.len());
    assert("low_raw"@.len() != "close_raw"@.len());
    assert("low_raw"@.len() != "volume_raw"@.len());
    assert("close_raw"@.len() != "volume_raw"@.len());
    let a = seq!["ord"@, "seq"@] + column_names(EventKind::Bar(BarInterval::OneDay));
    assert forall|i: int, j: int| 0 <= i < a.len() && 0 <= j < a.len() && i != j implies a[i]
        != a[j] by {
        assert(i == 0 || i == 1 || i == 2 || i == 3 || i == 4 || i == 5 || i == 6 || i == 7 || i == 8);
        assert(j == 0 || j == 1 || j == 2 || j == 3 || j == 4 || j == 5 || j == 6 || j == 7 || j == 8);
    }
    let b = owner_names() + column_names(EventKind::Bar(BarInterval::OneDay));
    assert forall|i: int, j: int| 0 <= i < b.len() && 0 <= j < b.len() && i != j implies b[i]
        != b[j] by {
        assert(i == 0 || i == 1 || i == 2 || i == 3 || i == 4 || i == 5 || i == 6 || i == 7 || i == 8 || i == 9);
        assert(j == 0 || j == 1 || j == 2 || j == 3 || j == 4 || j == 5 || j == 6 || j == 7 || j == 8 || j == 9);
    }
    let c = column_names(EventKind::Bar(BarInterval::OneDay));
    assert forall|i: int, j: int| 0 <= i < c.len() && 0 <= j < c.len() && i != j implies c[i] != c[j] by {
        assert(a[i + 2] == c[i] && a[j + 2] == c[j]);
    }
}

/// Declarations of columns, each a name and what it holds.
pub open spec fn declared(names: Seq<Seq<char>>, holds: Seq<char>) -> Seq<Seq<char>> {
    Seq::new(names.len(), |i: int| names[i] + holds)
}

proof fn lemma_trade_declarations()
    ensures
        listing(declared(seq![
            "source_ts"@,
            "rx_ts"@,
            "price_raw"@,
            "size_raw"@,
        ], " INTEGER NOT NULL"@)) == "source_ts INTEGER NOT NULL, rx_ts INTEGER NOT NULL, price_raw INTEGER NOT NULL, size_raw INTEGER NOT NULL"@,
{
    reveal_strlit("source_ts");
    reveal_strlit("rx_ts");
    reveal_strlit("price_raw");
    reveal_strlit("size_raw");
    reveal_strlit(" INTEGER NOT NULL");
    reveal_strlit(", ");
    reveal_strlit("source_ts INTEGER NOT NULL");
    reveal_strlit("rx_ts INTEGER NOT NULL");
    reveal_strlit("price_raw INTEGER NOT NULL");
    reveal_strlit("size_raw INTEGER NOT NULL");
    reveal_strlit("source_ts INTEGER NOT NULL, rx_ts INTEGER NOT NULL");
    reveal_strlit("source_ts INTEGER NOT NULL, rx_ts INTEGER NOT NULL, price_raw INTEGER NOT NULL");
    reveal_strlit("source_ts INTEGER NOT NULL, rx_ts INTEGER NOT NULL, price_raw INTEGER NOT NULL, size_raw INTEGER NOT NULL");
    assert("source_ts"@ + " INTEGER NOT NULL"@ =~= "source_ts INTEGER NOT NULL"@);
    assert("rx_ts"@ + " INTEGER NOT NULL"@ =~= "rx_ts INTEGER NOT NULL"@);
    assert("price_raw"@ + " INTEGER NOT NULL"@ =~= "price_raw INTEGER NOT NULL"@);
    assert("size_raw"@ + " INTEGER NOT NULL"@ =~= "size_raw INTEGER NOT NULL"@);
    assert(declared(seq!["source_ts"@, "rx_ts"@, "price_raw"@, "size_raw"@], " INTEGER NOT NULL"@)
        =~= seq![
            "source_ts INTEGER NOT NULL"@,
            "rx_ts INTEGER NOT NULL"@,
            "price_raw INTEGER NOT NULL"@,
            "size_raw INTEGER NOT NULL"@,
        ]);
    assert(seq!["source_ts INTEGER NOT NULL"@]
        =~= Seq::<Seq<char>>::empty().push("source_ts INTEGER NOT NULL"@));
    lemma_listing_push(seq!["source_ts INTEGER NOT NULL"@], "rx_ts INTEGER NOT NULL"@);
    assert(seq!["source_ts INTEGER NOT NULL"@].push("rx_ts INTEGER NOT NULL"@)
        =~= seq!["source_ts INTEGER NOT NULL"@, "rx_ts INTEGER NOT NULL"@]);
    assert("source_ts INTEGER NOT NULL"@ + ", "@ + "rx_ts INTEGER NOT NULL"@
        =~= "source_ts INTEGER NOT NULL, rx_ts INTEGER NOT NULL"@);
    lemma_listing_push(
        seq!["source_ts INTEGER NOT NULL"@, "rx_ts INTEGER NOT NULL"@],
        "price_raw INTEGER NOT NULL"@,
    );
    assert(seq!["source_ts INTEGER NOT NULL"@, "rx_ts INTEGER NOT NULL"@].push("price_raw INTEGER NOT NULL"@)
        =~= seq![
            "source_ts INTEGER NOT NULL"@,
            "rx_ts INTEGER NOT NULL"@,
            "price_raw INTEGER NOT NULL"@,
        ]);
    assert("source_ts INTEGER NOT NULL, rx_ts INTEGER NOT NULL"@ + ", "@ + "price_raw INTEGER NOT NULL"@
        =~= "source_ts INTEGER NOT NULL, rx_ts INTEGER NOT NULL, price_raw INTEGER NOT NULL"@);
    lemma_listing_push(
        seq![
            "source_ts INTEGER NOT NULL"@,
            "rx_ts INTEGER NOT NULL"@,
            "price_raw INTEGER NOT NULL"@,
        ],
        "size_raw INTEGER NOT NULL"@,
    );
    assert(seq![
        "source_ts INTEGER NOT NULL"@,
        "rx_ts INTEGER NOT NULL"@,
        "price_raw INTEGER NOT NULL"@,
    ].push("size_raw INTEGER NOT NULL"@)
        =~= seq![
            "source_ts INTEGER NOT NULL"@,
            "rx_ts INTEGER NOT NULL"@,
            "price_raw INTEGER NOT NULL"@,
            "size_raw INTEGER NOT NULL"@,
        ]);
    assert("source_ts INTEGER NOT NULL, rx_ts INTEGER NOT NULL, price_raw INTEGER NOT NULL"@ + ", "@ + "size_raw INTEGER NOT NULL"@
        =~= "source_ts INTEGER NOT NULL, rx_ts INTEGER NOT NULL, price_raw INTEGER NOT NULL, size_raw INTEGER NOT NULL"@);
}

proof fn lemma_quote_declarations()
    ensures
        listing(declared(seq![
            "source_ts"@,
            "rx_ts"@,
            "bid_raw"@,
            "bid_size_raw"@,
            "ask_raw"@,
            "ask_size_raw"@,
        ], " INTEGER NOT NULL"@)) == "source_ts INTEGER NOT NULL, rx_ts INTEGER NOT NULL, bid_raw INTEGER NOT NULL, bid_size_raw INTEGER NOT NULL, ask_raw INTEGER NOT NULL, ask_size_raw INTEGER NOT NULL"@,
{
    reveal_strlit("source_ts");
    reveal_strlit("rx_ts");
    reveal_strlit("bid_raw");
    reveal_strlit("bid_size_raw");
    reveal_strlit("ask_raw");
    reveal_strlit("ask_size_raw");
    reveal_strlit(" INTEGER NOT NULL");
    reveal_strlit(", ");
    reveal_strlit("source_ts INTEGER NOT NULL");
    reveal_strlit("rx_ts INTEGER NOT NULL");
    reveal_strlit("bid_raw INTEGER NOT NULL");
    reveal_strlit("bid_size_raw INTEGER NOT NULL");
    reveal_strlit("ask_raw INTEGER NOT NULL");
    reveal_strlit("ask_size_raw INTEGER NOT NULL");
    reveal_strlit("source_ts INTEGER NOT NULL, rx_ts INTEGER NOT NULL");
    reveal_strlit("source_ts INTEGER NOT NULL, rx_ts INTEGER NOT NULL, bid_raw INTEGER NOT NULL");
    reveal_strlit("source_ts INTEGER NOT NULL, rx_ts INTEGER NOT NULL, bid_raw INTEGER NOT NULL, bid_size_raw INTEGER NOT NULL");
    reveal_strlit("source_ts INTEGER NOT NULL, rx_ts INTEGER NOT NULL, bid_raw INTEGER NOT NULL, bid_size_raw INTEGER NOT NULL, ask_raw INTEGER NOT NULL");
    reveal_strlit("source_ts INTEGER NOT NULL, rx_ts INTEGER NOT NULL, bid_raw INTEGER NOT NULL, bid_size_raw INTEGER NOT NULL, ask_raw INTEGER NOT NULL, ask_size_raw INTEGER NOT NULL");
    assert("source_ts"@ + " INTEGER NOT NULL"@ =~= "source_ts INTEGER NOT NULL"@);
    assert("rx_ts"@ + " INTEGER NOT NULL"@ =~= "rx_ts INTEGER NOT NULL"@);
    assert("bid_raw"@ + " INTEGER NOT NULL"@ =~= "bid_raw INTEGER NOT NULL"@);
    assert("bid_size_raw"@ + " INTEGER NOT NULL"@ =~= "bid_size_raw INTEGER NOT NULL"@);
    assert("ask_raw"@ + " INTEGER NOT NULL"@ =~= "ask_raw INTEGER NOT NULL"@);
    assert("ask_size_raw"@ + " INTEGER NOT NULL"@ =~= "ask_size_raw INTEGER NOT NULL"@);
    assert(declared(seq![
        "source_ts"@,
        "rx_ts"@,
        "bid_raw"@,
        "bid_size_raw"@,
        "ask_raw"@,
        "ask_size_raw"@,
    ], " INTEGER NOT NULL"@)
        =~= seq![
            "source_ts INTEGER NOT NULL"@,
            "rx_ts INTEGER NOT NULL"@,
            "bid_raw INTEGER NOT NULL"@,
            "bid_size_raw INTEGER NOT NULL"@,
            "ask_raw INTEGER NOT NULL"@,
            "ask_size_raw INTEGER NOT NULL"@,
        ]);
    assert(seq!["source_ts INTEGER NOT NULL"@]
        =~= Seq::<Seq<char>>::empty().push("source_ts INTEGER NOT NULL"@));
    lemma_listing_push(seq!["source_ts INTEGER NOT NULL"@], "rx_ts INTEGER NOT NULL"@);
    assert(seq!["source_ts INTEGER NOT NULL"@].push("rx_ts INTEGER NOT NULL"@)
        =~= seq!["source_ts INTEGER NOT NULL"@, "rx_ts INTEGER NOT NULL"@]);
    assert("source_ts INTEGER NOT NULL"@ + ", "@ + "rx_ts INTEGER NOT NULL"@
        =~= "source_ts INTEGER NOT NULL, rx_ts INTEGER NOT NULL"@);
    lemma_listing_push(
        seq!["source_ts INTEGER NOT NULL"@, "rx_ts INTEGER NOT NULL"@],
        "bid_raw INTEGER NOT NULL"@,
    );
    assert(seq!["source_ts INTEGER NOT NULL"@, "rx_ts INTEGER NOT NULL"@].push("bid_raw INTEGER NOT NULL"@)
        =~= seq![
            "source_ts INTEGER NOT NULL"@,
            "rx_ts INTEGER NOT NULL"@,
            "bid_raw INTEGER NOT NULL"@,
        ]);
    assert("source_ts INTEGER NOT NULL, rx_ts INTEGER NOT NULL"@ + ", "@ + "bid_raw INTEGER NOT NULL"@
        =~= "source_ts INTEGER NOT NULL, rx_ts INTEGER NOT NULL, bid_raw INTEGER NOT NULL"@);
    lemma_listing_push(
        seq![
            "source_ts INTEGER NOT NULL"@,
            "rx_ts INTEGER NOT NULL"@,
            "bid_raw INTEGER NOT NULL"@,
        ],
        "bid_size_raw INTEGER NOT NULL"@,
    );
    assert(seq![
        "source_ts INTEGER NOT NULL"@,
        "rx_ts INTEGER NOT NULL"@,
        "bid_raw INTEGER NOT NULL"@,
    ].push("bid_size_raw INTEGER NOT NULL"@)
        =~= seq![
            "source_ts INTEGER NOT NULL"@,
            "rx_ts INTEGER NOT NULL"@,
            "bid_raw INTEGER NOT NULL"@,
            "bid_size_raw INTEGER NOT NULL"@,
        ]);
    assert("source_ts INTEGER NOT NULL, rx_ts INTEGER NOT NULL, bid_raw INTEGER NOT NULL"@ + ", "@ + "bid_size_raw INTEGER NOT NULL"@
        =~= "source_ts INTEGER NOT NULL, rx_ts INTEGER NOT NULL, bid_raw INTEGER NOT NULL, bid_size_raw INTEGER NOT NULL"@);
    lemma_listing_push(
        seq![
            "source_ts INTEGER NOT NULL"@,
            "rx_ts INTEGER NOT NULL"@,
            "bid_raw INTEGER NOT NULL"@,
            "bid_size_raw INTEGER NOT NULL"@,
        ],
        "ask_raw INTEGER NOT NULL"@,
    );
    assert(seq![
        "source_ts INTEGER NOT NULL"@,
        "rx_ts INTEGER NOT NULL"@,
        "bid_raw INTEGER NOT NULL"@,
        "bid_size_raw INTEGER NOT NULL"@,
    ].push("ask_raw INTEGER NOT NULL"@)
        =~= seq![
            "source_ts INTEGER NOT NULL"@,
            "rx_ts INTEGER NOT NULL"@,
            "bid_raw INTEGER NOT NULL"@,
            "bid_size_raw INTEGER NOT NULL"@,
            "ask_raw INTEGER NOT NULL"@,
        ]);
    assert("source_ts INTEGER NOT NULL, rx_ts INTEGER NOT NULL, bid_raw INTEGER NOT NULL, bid_size_raw INTEGER NOT NULL"@ + ", "@ + "ask_raw INTEGER NOT NULL"@
        =~= "source_ts INTEGER NOT NULL, rx_ts INTEGER NOT NULL, bid_raw INTEGER NOT NULL, bid_size_raw INTEGER NOT NULL, ask_raw INTEGER NOT NULL"@);
    lemma_listing_push(
        seq![
            "source_ts INTEGER NOT NULL"@,
            "rx_ts INTEGER NOT NULL"@,
            "bid_raw INTEGER NOT NULL"@,
            "bid_size_raw INTEGER NOT NULL"@,
            "ask_raw INTEGER NOT NULL"@,
        ],
        "ask_size_raw INTEGER NOT NULL"@,
    );
    assert(seq![
        "source_ts INTEGER NOT NULL"@,
        "rx_ts INTEGER NOT NULL"@,
        "bid_raw INTEGER NOT NULL"@,
        "bid_size_raw INTEGER NOT NULL"@,
        "ask_raw INTEGER NOT NULL"@,
    ].push("ask_size_raw INTEGER NOT NULL"@)
        =~= seq![
            "source_ts INTEGER NOT NULL"@,
            "rx_ts INTEGER NOT NULL"@,
            "bid_raw INTEGER NOT NULL"@,
            "bid_size_raw INTEGER NOT NULL"@,
            "ask_raw INTEGER NOT NULL"@,
            "ask_size_raw INTEGER NOT NULL"@,
        ]);
    assert("source_ts INTEGER NOT NULL, rx_ts INTEGER NOT NULL, bid_raw INTEGER NOT NULL, bid_size_raw INTEGER NOT NULL, ask_raw INTEGER NOT NULL"@ + ", "@ + "ask_size_raw INTEGER NOT NULL"@
        =~= "source_ts INTEGER NOT NULL, rx_ts INTEGER NOT NULL, bid_raw INTEGER NOT NULL, bid_size_raw INTEGER NOT NULL, ask_raw INTEGER NOT NULL, ask_size_raw INTEGER NOT NULL"@);
}

proof fn lemma_bar_declarations()
    ensures
        listing(declared(seq![
            "source_ts"@,
            "rx_ts"@,
            "open_raw"@,
            "high_raw"@,
            "low_raw"@,
            "close_raw"@,
            "volume_raw"@,
        ], " INTEGER NOT NULL"@)) == "source_ts INTEGER NOT NULL, rx_ts INTEGER NOT NULL, open_raw INTEGER NOT NULL, high_raw INTEGER NOT NULL, low_raw INTEGER NOT NULL, close_raw INTEGER NOT NULL, volume_raw INTEGER NOT NULL"@,
{
    reveal_strlit("source_ts");
    reveal_strlit("rx_ts");
    reveal_strlit("open_raw");
    reveal_strlit("high_raw");
    reveal_strlit("low_raw");
    reveal_strlit("close_raw");
    reveal_strlit("volume_raw");
    reveal_strlit(" INTEGER NOT NULL");
    reveal_strlit(", ");
    reveal_strlit("source_ts INTEGER NOT NULL");
    reveal_strlit("rx_ts INTEGER NOT NULL");
    reveal_strlit("open_raw INTEGER NOT NULL");
    reveal_strlit("high_raw INTEGER NOT NULL");
    reveal_strlit("low_raw INTEGER NOT NULL");
    reveal_strlit("close_raw INTEGER NOT NULL");
    reveal_strlit("volume_raw INTEGER NOT NULL");
    reveal_strlit("source_ts INTEGER NOT NULL, rx_ts INTEGER NOT NULL");
    reveal_strlit("source_ts INTEGER NOT NULL, rx_ts INTEGER NOT NULL, open_raw INTEGER NOT NULL");
    reveal_strlit("source_ts INTEGER NOT NULL, rx_ts INTEGER NOT NULL, open_raw INTEGER NOT NULL, high_raw INTEGER NOT NULL");
    reveal_strlit("source_ts INTEGER NOT NULL, rx_ts INTEGER NOT NULL, open_raw INTEGER NOT NULL, high_raw INTEGER NOT NULL, low_raw INTEGER NOT NULL");
    reveal_strlit("source_ts INTEGER NOT NULL, rx_ts INTEGER NOT NULL, open_raw INTEGER NOT NULL, high_raw INTEGER NOT NULL, low_raw INTEGER NOT NULL, close_raw INTEGER NOT NULL");
    reveal_strlit("source_ts INTEGER NOT NULL, rx_ts INTEGER NOT NULL, open_raw INTEGER NOT NULL, high_raw INTEGER NOT NULL, low_raw INTEGER NOT NULL, close_raw INTEGER NOT NULL, volume_raw INTEGER NOT NULL");
    assert("source_ts"@ + " INTEGER NOT NULL"@ =~= "source_ts INTEGER NOT NULL"@);
    assert("rx_ts"@ + " INTEGER NOT NULL"@ =~= "rx_ts INTEGER NOT NULL"@);
    assert("open_raw"@ + " INTEGER NOT NULL"@ =~= "open_raw INTEGER NOT NULL"@);
    assert("high_raw"@ + " INTEGER NOT NULL"@ =~= "high_raw INTEGER NOT NULL"@);
    assert("low_raw"@ + " INTEGER NOT NULL"@ =~= "low_raw INTEGER NOT NULL"@);
    assert("close_raw"@ + " INTEGER NOT NULL"@ =~= "close_raw INTEGER NOT NULL"@);
    assert("volume_raw"@ + " INTEGER NOT NULL"@ =~= "volume_raw INTEGER NOT NULL"@);
    assert(declared(seq![
        "source_ts"@,
        "rx_ts"@,
        "open_raw"@,
        "high_raw"@,
        "low_raw"@,
        "close_raw"@,
        "volume_raw"@,
    ], " INTEGER NOT NULL"@)
        =~= seq![
            "source_ts INTEGER NOT NULL"@,
            "rx_ts INTEGER NOT NULL"@,
            "open_raw INTEGER NOT NULL"@,
            "high_raw INTEGER NOT NULL"@,
            "low_raw INTEGER NOT NULL"@,
            "close_raw INTEGER NOT NULL"@,
            "volume_raw INTEGER NOT NULL"@,
        ]);
    assert(seq!["source_ts INTEGER NOT NULL"@]
        =~= Seq::<Seq<char>>::empty().push("source_ts INTEGER NOT NULL"@));
    lemma_listing_push(seq!["source_ts INTEGER NOT NULL"@], "rx_ts INTEGER NOT NULL"@);
    assert(seq!["source_ts INTEGER NOT NULL"@].push("rx_ts INTEGER NOT NULL"@)
        =~= seq!["source_ts INTEGER NOT NULL"@, "rx_ts INTEGER NOT NULL"@]);
    assert("source_ts INTEGER NOT NULL"@ + ", "@ + "rx_ts INTEGER NOT NULL"@
        =~= "source_ts INTEGER NOT NULL, rx_ts INTEGER NOT NULL"@);
    lemma_listing_push(
        seq!["source_ts INTEGER NOT NULL"@, "rx_ts INTEGER NOT NULL"@],
        "open_raw INTEGER NOT NULL"@,
    );
    assert(seq!["source_ts INTEGER NOT NULL"@, "rx_ts INTEGER NOT NULL"@].push("open_raw INTEGER NOT NULL"@)
        =~= seq![
            "source_ts INTEGER NOT NULL"@,
            "rx_ts INTEGER NOT NULL"@,
            "open_raw INTEGER NOT NULL"@,
        ]);
    assert("source_ts INTEGER NOT NULL, rx_ts INTEGER NOT NULL"@ + ", "@ + "open_raw INTEGER NOT NULL"@
        =~= "source_ts INTEGER NOT NULL, rx_ts INTEGER NOT NULL, open_raw INTEGER NOT NULL"@);
    lemma_listing_push(
        seq![
            "source_ts INTEGER NOT NULL"@,
            "rx_ts INTEGER NOT NULL"@,
            "open_raw INTEGER NOT NULL"@,
        ],
        "high_raw INTEGER NOT NULL"@,
    );
    assert(seq![
        "source_ts INTEGER NOT NULL"@,
        "rx_ts INTEGER NOT NULL"@,
        "open_raw INTEGER NOT NULL"@,
    ].push("high_raw INTEGER NOT NULL"@)
        =~= seq![
            "source_ts INTEGER NOT NULL"@,
            "rx_ts INTEGER NOT NULL"@,
            "open_raw INTEGER NOT NULL"@,
            "high_raw INTEGER NOT NULL"@,
        ]);
    assert("source_ts INTEGER NOT NULL, rx_ts INTEGER NOT NULL, open_raw INTEGER NOT NULL"@ + ", "@ + "high_raw INTEGER NOT NULL"@
        =~= "source_ts INTEGER NOT NULL, rx_ts INTEGER NOT NULL, open_raw INTEGER NOT NULL, high_raw INTEGER NOT NULL"@);
    lemma_listing_push(
        seq![
            "source_ts INTEGER NOT NULL"@,
            "rx_ts INTEGER NOT NULL"@,
            "open_raw INTEGER NOT NULL"@,
            "high_raw INTEGER NOT NULL"@,
        ],
        "low_raw INTEGER NOT NULL"@,
    );
    assert(seq![
        "source_ts INTEGER NOT NULL"@,
        "rx_ts INTEGER NOT NULL"@,
        "open_raw INTEGER NOT NULL"@,
        "high_raw INTEGER NOT NULL"@,
    ].push("low_raw INTEGER NOT NULL"@)
        =~= seq![
            "source_ts INTEGER NOT NULL"@,
            "rx_ts INTEGER NOT NULL"@,
            "open_raw INTEGER NOT NULL"@,
            "high_raw INTEGER NOT NULL"@,
            "low_raw INTEGER NOT NULL"@,
        ]);
    assert("source_ts INTEGER NOT NULL, rx_ts INTEGER NOT NULL, open_raw INTEGER NOT NULL, high_raw INTEGER NOT NULL"@ + ", "@ + "low_raw INTEGER NOT NULL"@
        =~= "source_ts INTEGER NOT NULL, rx_ts INTEGER NOT NULL, open_raw INTEGER NOT NULL, high_raw INTEGER NOT NULL, low_raw INTEGER NOT NULL"@);
    lemma_listing_push(
        seq![
            "source_ts INTEGER NOT NULL"@,
            "rx_ts INTEGER NOT NULL"@,
            "open_raw INTEGER NOT NULL"@,
            "high_raw INTEGER NOT NULL"@,
            "low_raw INTEGER NOT NULL"@,
        ],
        "close_raw INTEGER NOT NULL"@,
    );
    assert(seq![
        "source_ts INTEGER NOT NULL"@,
        "rx_ts INTEGER NOT NULL"@,
        "open_raw INTEGER NOT NULL"@,
        "high_raw INTEGER NOT NULL"@,
        "low_raw INTEGER NOT NULL"@,
    ].push("close_raw INTEGER NOT NULL"@)
        =~= seq![
            "source_ts INTEGER NOT NULL"@,
            "rx_ts INTEGER NOT NULL"@,
            "open_raw INTEGER NOT NULL"@,
            "high_raw INTEGER NOT NULL"@,
            "low_raw INTEGER NOT NULL"@,
            "close_raw INTEGER NOT NULL"@,
        ]);
    assert("source_ts INTEGER NOT NULL, rx_ts INTEGER NOT NULL, open_raw INTEGER NOT NULL, high_raw INTEGER NOT NULL, low_raw INTEGER NOT NULL"@ + ", "@ + "close_raw INTEGER NOT NULL"@
        =~= "source_ts INTEGER NOT NULL, rx_ts INTEGER NOT NULL, open_raw INTEGER NOT NULL, high_raw INTEGER NOT NULL, low_raw INTEGER NOT NULL, close_raw INTEGER NOT NULL"@);
    lemma_listing_push(
        seq![
            "source_ts INTEGER NOT NULL"@,
            "rx_ts INTEGER NOT NULL"@,
            "open_raw INTEGER NOT NULL"@,
            "high_raw INTEGER NOT NULL"@,
            "low_raw INTEGER NOT NULL"@,
            "close_raw INTEGER NOT NULL"@,
        ],
        "volume_raw INTEGER NOT NULL"@,
    );
    assert(seq![
        "source_ts INTEGER NOT NULL"@,
        "rx_ts INTEGER NOT NULL"@,
        "open_raw INTEGER NOT NULL"@,
        "high_raw INTEGER NOT NULL"@,
        "low_raw INTEGER NOT NULL"@,
        "close_raw INTEGER NOT NULL"@,
    ].push("volume_raw INTEGER NOT NULL"@)
        =~= seq![
            "source_ts INTEGER NOT NULL"@,
            "rx_ts INTEGER NOT NULL"@,
            "open_raw INTEGER NOT NULL"@,
            "high_raw INTEGER NOT NULL"@,
            "low_raw INTEGER NOT NULL"@,
            "close_raw INTEGER NOT NULL"@,
            "volume_raw INTEGER NOT NULL"@,
        ]);
    assert("source_ts INTEGER NOT NULL, rx_ts INTEGER NOT NULL, open_raw INTEGER NOT NULL, high_raw INTEGER NOT NULL, low_raw INTEGER NOT NULL, close_raw INTEGER NOT NULL"@ + ", "@ + "volume_raw INTEGER NOT NULL"@
        =~= "source_ts INTEGER NOT NULL, rx_ts INTEGER NOT NULL, open_raw INTEGER NOT NULL, high_raw INTEGER NOT NULL, low_raw INTEGER NOT NULL, close_raw INTEGER NOT NULL, volume_raw INTEGER NOT NULL"@);
}

proof fn lemma_owner_declarations()
    ensures
        listing(declared(seq![
            "provider"@,
            "symbol"@,
            "adjustment"@,
        ], " TEXT NOT NULL"@)) == "provider TEXT NOT NULL, symbol TEXT NOT NULL, adjustment TEXT NOT NULL"@,
{
    reveal_strlit("provider");
    reveal_strlit("symbol");
    reveal_strlit("adjustment");
    reveal_strlit(" TEXT NOT NULL");
    reveal_strlit(", ");
    reveal_strlit("provider TEXT NOT NULL");
    reveal_strlit("symbol TEXT NOT NULL");
    reveal_strlit("adjustment TEXT NOT NULL");
    reveal_strlit("provider TEXT NOT NULL, symbol TEXT NOT NULL");
    reveal_strlit("provider TEXT NOT NULL, symbol TEXT NOT NULL, adjustment TEXT NOT NULL");
    assert("provider"@ + " TEXT NOT NULL"@ =~= "provider TEXT NOT NULL"@);
    assert("symbol"@ + " TEXT NOT NULL"@ =~= "symbol TEXT NOT NULL"@);
    assert("adjustment"@ + " TEXT NOT NULL"@ =~= "adjustment TEXT NOT NULL"@);
    assert(declared(seq!["provider"@, "symbol"@, "adjustment"@], " TEXT NOT NULL"@)
        =~= seq!["provider TEXT NOT NULL"@, "symbol TEXT NOT NULL"@, "adjustment TEXT NOT NULL"@]);
    assert(seq!["provider TEXT NOT NULL"@]
        =~= Seq::<Seq<char>>::empty().push("provider TEXT NOT NULL"@));
    lemma_listing_push(seq!["provider TEXT NOT NULL"@], "symbol TEXT NOT NULL"@);
    assert(seq!["provider TEXT NOT NULL"@].push("symbol TEXT NOT NULL"@)
        =~= seq!["provider TEXT NOT NULL"@, "symbol TEXT NOT NULL"@]);
    assert("provider TEXT NOT NULL"@ + ", "@ + "symbol TEXT NOT NULL"@
        =~= "provider TEXT NOT NULL, symbol TEXT NOT NULL"@);
    lemma_listing_push(
        seq!["provider TEXT NOT NULL"@, "symbol TEXT NOT NULL"@],
        "adjustment TEXT NOT NULL"@,
    );
    assert(seq!["provider TEXT NOT NULL"@, "symbol TEXT NOT NULL"@].push("adjustment TEXT NOT NULL"@)
        =~= seq!["provider TEXT NOT NULL"@, "symbol TEXT NOT NULL"@, "adjustment TEXT NOT NULL"@]);
    assert("provider TEXT NOT NULL, symbol TEXT NOT NULL"@ + ", "@ + "adjustment TEXT NOT NULL"@
        =~= "provider TEXT NOT NULL, symbol TEXT NOT NULL, adjustment TEXT NOT NULL"@);
}

/// The statements of the cache and of the tap log write the columns of a kind
/// under the very names under which they read them, in the order of the row,
/// into tables that declare them; there is a parameter for each.
pub proof fn law_statements_name_the_same_columns(kind: EventKind, shard: Seq<char>)
    ensures
        column_names(kind).len() == columns(kind),
        select_columns(kind) == "SELECT "@ + listing(column_names(kind)) + " FROM "@,
        insert_columns(kind) == " ("@ + listing(owner_names() + column_names(kind)) + ") VALUES ("@
            + listing(parameters(3 + columns(kind))) + ")"@,
        create_table_text(kind) == "CREATE TABLE IF NOT EXISTS "@ + table_name(kind) + " ("@
            + listing(
            declared(owner_names(), " TEXT NOT NULL"@) + declared(
                column_names(kind),
                " INTEGER NOT NULL"@,
            ),
        ) + ", PRIMARY KEY ("@ + listing(owner_names().push("source_ts"@)) + "))"@,
        tap_select(kind) == "SELECT "@ + listing(tap_names(kind)) + " FROM "@,
        tap_columns(kind) == " ("@ + listing(tap_names(kind)) + ") VALUES ("@ + listing(
            parameters(2 + columns(kind)),
        ) + ")"@,
        create_shard_text(shard, kind) == "CREATE TABLE IF NOT EXISTS "@ + shard
            + " (ord INTEGER PRIMARY KEY, seq INTEGER NOT NULL, "@ + listing(
            declared(column_names(kind), " INTEGER NOT NULL"@),
        ) + ")"@,
{
    lemma_leading_listings();
    lemma_parameters();
    lemma_owner_declarations();
    let owners = owner_names();
    let names = column_names(kind);
    lemma_listing_append(owners, names);
    lemma_listing_append(seq!["ord"@, "seq"@], names);
    lemma_listing_push(owners, "source_ts"@);
    let texts = declared(owners, " TEXT NOT NULL"@);
    let ints = declared(names, " INTEGER NOT NULL"@);
    lemma_listing_append(texts, ints);
    match kind {
        EventKind::Trade => lemma_trade_texts(),
        EventKind::Quote => lemma_quote_texts(),
        EventKind::Bar(_) => lemma_bar_texts(),
    }
    lemma_table_texts(kind, shard);
}

proof fn lemma_trade_texts()
    ensures
        listing(column_names(EventKind::Trade)) == "source_ts, rx_ts, price_raw, size_raw"@,
        "SELECT source_ts, rx_ts, price_raw, size_raw FROM "@ == "SELECT "@ + "source_ts, rx_ts, price_raw, size_raw"@ + " FROM "@,
        "SELECT ord, seq, source_ts, rx_ts, price_raw, size_raw FROM "@ == "SELECT "@ + ("ord, seq"@ + ", "@ + "source_ts, rx_ts, price_raw, size_raw"@) + " FROM "@,
        " (provider, symbol, adjustment, source_ts, rx_ts, price_raw, size_raw) VALUES (?1, ?2, ?3, ?4, ?5, ?6, ?7)"@ == " ("@ + ("provider, symbol, adjustment"@ + ", "@ + "source_ts, rx_ts, price_raw, size_raw"@) + ") VALUES ("@ + "?1, ?2, ?3, ?4, ?5, ?6, ?7"@
            + ")"@,
        " (ord, seq, source_ts, rx_ts, price_raw, size_raw) VALUES (?1, ?2, ?3, ?4, ?5, ?6)"@ == " ("@ + ("ord, seq"@ + ", "@ + "source_ts, rx_ts, price_raw, size_raw"@) + ") VALUES ("@ + "?1, ?2, ?3, ?4, ?5, ?6"@ + ")"@,
        listing(declared(column_names(EventKind::Trade), " INTEGER NOT NULL"@))
            == "source_ts INTEGER NOT NULL, rx_ts INTEGER NOT NULL, "@ + "price_raw INTEGER NOT NULL, size_raw INTEGER NOT NULL"@,
{
    lemma_trade_listing();
    lemma_trade_declarations();
    reveal_strlit("source_ts, rx_ts, price_raw, size_raw");
    reveal_strlit("SELECT source_ts, rx_ts, price_raw, size_raw FROM ");
    reveal_strlit("SELECT ");
    reveal_strlit(" FROM ");
    reveal_strlit("SELECT ord, seq, source_ts, rx_ts, price_raw, size_raw FROM ");
    reveal_strlit("ord, seq");
    reveal_strlit(", ");
    reveal_strlit(" (provider, symbol, adjustment, source_ts, rx_ts, price_raw, size_raw) VALUES (?1, ?2, ?3, ?4, ?5, ?6, ?7)");
    reveal_strlit(" (");
    reveal_strlit("provider, symbol, adjustment");
    reveal_strlit(") VALUES (");
    reveal_strlit("?1, ?2, ?3, ?4, ?5, ?6, ?7");
    reveal_strlit("?1, ?2, ?3, ?4, ?5, ?6");
    reveal_strlit(")");
    reveal_strlit(" (ord, seq, source_ts, rx_ts, price_raw, size_raw) VALUES (?1, ?2, ?3, ?4, ?5, ?6)");
    reveal_strlit("price_raw INTEGER NOT NULL, size_raw INTEGER NOT NULL");
    reveal_strlit("source_ts INTEGER NOT NULL, rx_ts INTEGER NOT NULL, ");
    reveal_strlit("source_ts INTEGER NOT NULL, rx_ts INTEGER NOT NULL, price_raw INTEGER NOT NULL, size_raw INTEGER NOT NULL");

    assert("SELECT source_ts, rx_ts, price_raw, size_raw FROM "@
        =~= "SELECT "@ + "source_ts, rx_ts, price_raw, size_raw"@ + " FROM "@);
    assert("SELECT ord, seq, source_ts, rx_ts, price_raw, size_raw FROM "@
        =~= "SELECT "@ + ("ord, seq"@ + ", "@ + "source_ts, rx_ts, price_raw, size_raw"@) + " FROM "@);
    assert(" (provider, symbol, adjustment, source_ts, rx_ts, price_raw, size_raw) VALUES (?1, ?2, ?3, ?4, ?5, ?6, ?7)"@ =~= " ("@ + ("provider, symbol, adjustment"@ + ", "@ + "source_ts, rx_ts, price_raw, size_raw"@) + ") VALUES ("@
        + "?1, ?2, ?3, ?4, ?5, ?6, ?7"@ + ")"@);
    assert(" (ord, seq, source_ts, rx_ts, price_raw, size_raw) VALUES (?1, ?2, ?3, ?4, ?5, ?6)"@
        =~= " ("@ + ("ord, seq"@ + ", "@ + "source_ts, rx_ts, price_raw, size_raw"@) + ") VALUES ("@ + "?1, ?2, ?3, ?4, ?5, ?6"@ + ")"@);
    assert("source_ts INTEGER NOT NULL, rx_ts INTEGER NOT NULL, price_raw INTEGER NOT NULL, size_raw INTEGER NOT NULL"@
        =~= "source_ts INTEGER NOT NULL, rx_ts INTEGER NOT NULL, "@ + "price_raw INTEGER NOT NULL, size_raw INTEGER NOT NULL"@);
}

proof fn lemma_quote_texts()
    ensures
        listing(column_names(EventKind::Quote)) == "source_ts, rx_ts, bid_raw, bid_size_raw, ask_raw, ask_size_raw"@,
        "SELECT source_ts, rx_ts, bid_raw, bid_size_raw, ask_raw, ask_size_raw FROM "@ == "SELECT "@ + "source_ts, rx_ts, bid_raw, bid_size_raw, ask_raw, ask_size_raw"@ + " FROM "@,
        "SELECT ord, seq, source_ts, rx_ts, bid_raw, bid_size_raw, ask_raw, ask_size_raw FROM "@ == "SELECT "@ + ("ord, seq"@ + ", "@ + "source_ts, rx_ts, bid_raw, bid_size_raw, ask_raw, ask_size_raw"@) + " FROM "@,
        " (provider, symbol, adjustment, source_ts, rx_ts, bid_raw, bid_size_raw, ask_raw, ask_size_raw) VALUES (?1, ?2, ?3, ?4, ?5, ?6, ?7, ?8, ?9)"@ == " ("@ + ("provider, symbol, adjustment"@ + ", "@ + "source_ts, rx_ts, bid_raw, bid_size_raw, ask_raw, ask_size_raw"@) + ") VALUES ("@ + "?1, ?2, ?3, ?4, ?5, ?6, ?7, ?8, ?9"@
            + ")"@,
        " (ord, seq, source_ts, rx_ts, bid_raw, bid_size_raw, ask_raw, ask_size_raw) VALUES (?1, ?2, ?3, ?4, ?5, ?6, ?7, ?8)"@ == " ("@ + ("ord, seq"@ + ", "@ + "source_ts, rx_ts, bid_raw, bid_size_raw, ask_raw, ask_size_raw"@) + ") VALUES ("@ + "?1, ?2, ?3, ?4, ?5, ?6, ?7, ?8"@ + ")"@,
        listing(declared(column_names(EventKind::Quote), " INTEGER NOT NULL"@))
            == "source_ts INTEGER NOT NULL, rx_ts INTEGER NOT NULL, "@ + "bid_raw INTEGER NOT NULL, bid_size_raw INTEGER NOT NULL, ask_raw INTEGER NOT NULL, ask_size_raw INTEGER NOT NULL"@,
{
    lemma_quote_listing();
    lemma_quote_declarations();
    reveal_strlit("source_ts, rx_ts, bid_raw, bid_size_raw, ask_raw, ask_size_raw");
    reveal_strlit("SELECT source_ts, rx_ts, bid_raw, bid_size_raw, ask_raw, ask_size_raw FROM ");
    reveal_strlit("SELECT ");
    reveal_strlit(" FROM ");
    reveal_strlit("SELECT ord, seq, source_ts, rx_ts, bid_raw, bid_size_raw, ask_raw, ask_size_raw FROM ");
    reveal_strlit("ord, seq");
    reveal_strlit(", ");
    reveal_strlit(" (provider, symbol, adjustment, source_ts, rx_ts, bid_raw, bid_size_raw, ask_raw, ask_size_raw) VALUES (?1, ?2, ?3, ?4, ?5, ?6, ?7, ?8, ?9)");
    reveal_strlit(" (");
    reveal_strlit("provider, symbol, adjustment");
    reveal_strlit(") VALUES (");
    reveal_strlit("?1, ?2, ?3, ?4, ?5, ?6, ?7, ?8, ?9");
    reveal_strlit("?1, ?2, ?3, ?4, ?5, ?6, ?7, ?8");
    reveal_strlit(")");
    reveal_strlit(" (ord, seq, source_ts, rx_ts, bid_raw, bid_size_raw, ask_raw, ask_size_raw) VALUES (?1, ?2, ?3, ?4, ?5, ?6, ?7, ?8)");
    reveal_strlit("bid_raw INTEGER NOT NULL, bid_size_raw INTEGER NOT NULL, ask_raw INTEGER NOT NULL, ask_size_raw INTEGER NOT NULL");
    reveal_strlit("source_ts INTEGER NOT NULL, rx_ts INTEGER NOT NULL, ");
    reveal_strlit("source_ts INTEGER NOT NULL, rx_ts INTEGER NOT NULL, bid_raw INTEGER NOT NULL, bid_size_raw INTEGER NOT NULL, ask_raw INTEGER NOT NULL, ask_size_raw INTEGER NOT NULL");

    assert("SELECT source_ts, rx_ts, bid_raw, bid_size_raw, ask_raw, ask_size_raw FROM "@
        =~= "SELECT "@ + "source_ts, rx_ts, bid_raw, bid_size_raw, ask_raw, ask_size_raw"@ + " FROM "@);
    assert("SELECT ord, seq, source_ts, rx_ts, bid_raw, bid_size_raw, ask_raw, ask_size_raw FROM "@
        =~= "SELECT "@ + ("ord, seq"@ + ", "@ + "source_ts, rx_ts, bid_raw, bid_size_raw, ask_raw, ask_size_raw"@) + " FROM "@);
    assert(" (provider, symbol, adjustment, source_ts, rx_ts, bid_raw, bid_size_raw, ask_raw, ask_size_raw) VALUES (?1, ?2, ?3, ?4, ?5, ?6, ?7, ?8, ?9)"@ =~= " ("@ + ("provider, symbol, adjustment"@ + ", "@ + "source_ts, rx_ts, bid_raw, bid_size_raw, ask_raw, ask_size_raw"@) + ") VALUES ("@
        + "?1, ?2, ?3, ?4, ?5, ?6, ?7, ?8, ?9"@ + ")"@);
    assert(" (ord, seq, source_ts, rx_ts, bid_raw, bid_size_raw, ask_raw, ask_size_raw) VALUES (?1, ?2, ?3, ?4, ?5, ?6, ?7, ?8)"@
        =~= " ("@ + ("ord, seq"@ + ", "@ + "source_ts, rx_ts, bid_raw, bid_size_raw, ask_raw, ask_size_raw"@) + ") VALUES ("@ + "?1, ?2, ?3, ?4, ?5, ?6, ?7, ?8"@ + ")"@);
    assert("source_ts INTEGER NOT NULL, rx_ts INTEGER NOT NULL, bid_raw INTEGER NOT NULL, bid_size_raw INTEGER NOT NULL, ask_raw INTEGER NOT NULL, ask_size_raw INTEGER NOT NULL"@
        =~= "source_ts INTEGER NOT NULL, rx_ts INTEGER NOT NULL, "@ + "bid_raw INTEGER NOT NULL, bid_size_raw INTEGER NOT NULL, ask_raw INTEGER NOT NULL, ask_size_raw INTEGER NOT NULL"@);
}

proof fn lemma_bar_texts()
    ensures
        listing(column_names(EventKind::Bar(BarInterval::OneDay))) == "source_ts, rx_ts, open_raw, high_raw, low_raw, close_raw, volume_raw"@,
        "SELECT source_ts, rx_ts, open_raw, high_raw, low_raw, close_raw, volume_raw FROM "@ == "SELECT "@ + "source_ts, rx_ts, open_raw, high_raw, low_raw, close_raw, volume_raw"@ + " FROM "@,
        "SELECT ord, seq, source_ts, rx_ts, open_raw, high_raw, low_raw, close_raw, volume_raw FROM "@ == "SELECT "@ + ("ord, seq"@ + ", "@ + "source_ts, rx_ts, open_raw, high_raw, low_raw, close_raw, volume_raw"@) + " FROM "@,
        " (provider, symbol, adjustment, source_ts, rx_ts, open_raw, high_raw, low_raw, close_raw, volume_raw) VALUES (?1, ?2, ?3, ?4, ?5, ?6, ?7, ?8, ?9, ?10)"@ == " ("@ + ("provider, symbol, adjustment"@ + ", "@ + "source_ts, rx_ts, open_raw, high_raw, low_raw, close_raw, volume_raw"@) + ") VALUES ("@ + "?1, ?2, ?3, ?4, ?5, ?6, ?7, ?8, ?9, ?10"@
            + ")"@,
        " (ord, seq, source_ts, rx_ts, open_raw, high_raw, low_raw, close_raw, volume_raw) VALUES (?1, ?2, ?3, ?4, ?5, ?6, ?7, ?8, ?9)"@ == " ("@ + ("ord, seq"@ + ", "@ + "source_ts, rx_ts, open_raw, high_raw, low_raw, close_raw, volume_raw"@) + ") VALUES ("@ + "?1, ?2, ?3, ?4, ?5, ?6, ?7, ?8, ?9"@ + ")"@,
        listing(declared(column_names(EventKind::Bar(BarInterval::OneDay)), " INTEGER NOT NULL"@))
            == "source_ts INTEGER NOT NULL, rx_ts INTEGER NOT NULL, "@ + "open_raw INTEGER NOT NULL, high_raw INTEGER NOT NULL, low_raw INTEGER NOT NULL, close_raw INTEGER NOT NULL, volume_raw INTEGER NOT NULL"@,
{
    lemma_bar_listing();
    lemma_bar_declarations();
    reveal_strlit("source_ts, rx_ts, open_raw, high_raw, low_raw, close_raw, volume_raw");
    reveal_strlit("SELECT source_ts, rx_ts, open_raw, high_raw, low_raw, close_raw, volume_raw FROM ");
    reveal_strlit("SELECT ");
    reveal_strlit(" FROM ");
    reveal_strlit("SELECT ord, seq, source_ts, rx_ts, open_raw, high_raw, low_raw, close_raw, volume_raw FROM ");
    reveal_strlit("ord, seq");
    reveal_strlit(", ");
    reveal_strlit(" (provider, symbol, adjustment, source_ts, rx_ts, open_raw, high_raw, low_raw, close_raw, volume_raw) VALUES (?1, ?2, ?3, ?4, ?5, ?6, ?7, ?8, ?9, ?10)");
    reveal_strlit(" (");
    reveal_strlit("provider, symbol, adjustment");
    reveal_strlit(") VALUES (");
    reveal_strlit("?1, ?2, ?3, ?4, ?5, ?6, ?7, ?8, ?9, ?10");
    reveal_strlit("?1, ?2, ?3, ?4, ?5, ?6, ?7, ?8, ?9");
    reveal_strlit(")");
    reveal_strlit(" (ord, seq, source_ts, rx_ts, open_raw, high_raw, low_raw, close_raw, volume_raw) VALUES (?1, ?2, ?3, ?4, ?5, ?6, ?7, ?8, ?9)");
    reveal_strlit("open_raw INTEGER NOT NULL, high_raw INTEGER NOT NULL, low_raw INTEGER NOT NULL, close_raw INTEGER NOT NULL, volume_raw INTEGER NOT NULL");
    reveal_strlit("source_ts INTEGER NOT NULL, rx_ts INTEGER NOT NULL, ");
    reveal_strlit("source_ts INTEGER NOT NULL, rx_ts INTEGER NOT NULL, open_raw INTEGER NOT NULL, high_raw INTEGER NOT NULL, low_raw INTEGER NOT NULL, close_raw INTEGER NOT NULL, volume_raw INTEGER NOT NULL");

    assert("SELECT source_ts, rx_ts, open_raw, high_raw, low_raw, close_raw, volume_raw FROM "@
        =~= "SELECT "@ + "source_ts, rx_ts, open_raw, high_raw, low_raw, close_raw, volume_raw"@ + " FROM "@);
    assert("SELECT ord, seq, source_ts, rx_ts, open_raw, high_raw, low_raw, close_raw, volume_raw FROM "@
        =~= "SELECT "@ + ("ord, seq"@ + ", "@ + "source_ts, rx_ts, open_raw, high_raw, low_raw, close_raw, volume_raw"@) + " FROM "@);
    assert(" (provider, symbol, adjustment, source_ts, rx_ts, open_raw, high_raw, low_raw, close_raw, volume_raw) VALUES (?1, ?2, ?3, ?4, ?5, ?6, ?7, ?8, ?9, ?10)"@ =~= " ("@ + ("provider, symbol, adjustment"@ + ", "@ + "source_ts, rx_ts, open_raw, high_raw, low_raw, close_raw, volume_raw"@) + ") VALUES ("@
        + "?1, ?2, ?3, ?4, ?5, ?6, ?7, ?8, ?9, ?10"@ + ")"@);
    assert(" (ord, seq, source_ts, rx_ts, open_raw, high_raw, low_raw, close_raw, volume_raw) VALUES (?1, ?2, ?3, ?4, ?5, ?6, ?7, ?8, ?9)"@
        =~= " ("@ + ("ord, seq"@ + ", "@ + "source_ts, rx_ts, open_raw, high_raw, low_raw, close_raw, volume_raw"@) + ") VALUES ("@ + "?1, ?2, ?3, ?4, ?5, ?6, ?7, ?8, ?9"@ + ")"@);
    assert("source_ts INTEGER NOT NULL, rx_ts INTEGER NOT NULL, open_raw INTEGER NOT NULL, high_raw INTEGER NOT NULL, low_raw INTEGER NOT NULL, close_raw INTEGER NOT NULL, volume_raw INTEGER NOT NULL"@
        =~= "source_ts INTEGER NOT NULL, rx_ts INTEGER NOT NULL, "@ + "open_raw INTEGER NOT NULL, high_raw INTEGER NOT NULL, low_raw INTEGER NOT NULL, close_raw INTEGER NOT NULL, volume_raw INTEGER NOT NULL"@);
}

/// The tables of a kind declare its columns.
proof fn lemma_table_texts(kind: EventKind, shard: Seq<char>)
    ensures
        create_table_text(kind) == "CREATE TABLE IF NOT EXISTS "@ + table_name(kind) + " ("@
            + listing(
            declared(owner_names(), " TEXT NOT NULL"@) + declared(
                column_names(kind),
                " INTEGER NOT NULL"@,
            ),
        ) + ", PRIMARY KEY ("@ + listing(owner_names().push("source_ts"@)) + "))"@,
        create_shard_text(shard, kind) == "CREATE TABLE IF NOT EXISTS "@ + shard
            + " (ord INTEGER PRIMARY KEY, seq INTEGER NOT NULL, "@ + listing(
            declared(column_names(kind), " INTEGER NOT NULL"@),
        ) + ")"@,
{
    lemma_owner_declarations();
    lemma_leading_listings();
    match kind {
        EventKind::Trade => lemma_trade_texts(),
        EventKind::Quote => lemma_quote_texts(),
        EventKind::Bar(_) => lemma_bar_texts(),
    }
    let owners = owner_names();
    let texts = declared(owners, " TEXT NOT NULL"@);
    let ints = declared(column_names(kind), " INTEGER NOT NULL"@);
    lemma_listing_append(texts, ints);
    lemma_listing_push(owners, "source_ts"@);
    reveal_strlit(", ");
    reveal_strlit(" (");
    reveal_strlit("))");
    reveal_strlit(")");
    reveal_strlit("source_ts");
    reveal_strlit(", PRIMARY KEY (");
    reveal_strlit("provider, symbol, adjustment");
    reveal_strlit("provider TEXT NOT NULL, symbol TEXT NOT NULL, adjustment TEXT NOT NULL");
    reveal_strlit("source_ts INTEGER NOT NULL, rx_ts INTEGER NOT NULL, ");
    reveal_strlit(
        " (provider TEXT NOT NULL, symbol TEXT NOT NULL, adjustment TEXT NOT NULL, source_ts INTEGER NOT NULL, rx_ts INTEGER NOT NULL, ",
    );
    reveal_strlit(", PRIMARY KEY (provider, symbol, adjustment, source_ts))");
    reveal_strlit(
        " (ord INTEGER PRIMARY KEY, seq INTEGER NOT NULL, source_ts INTEGER NOT NULL, rx_ts INTEGER NOT NULL, ",
    );
    reveal_strlit(" (ord INTEGER PRIMARY KEY, seq INTEGER NOT NULL, ");
    let pay = payload_columns(kind);
    let head = "CREATE TABLE IF NOT EXISTS "@ + table_name(kind);
    assert(" (provider TEXT NOT NULL, symbol TEXT NOT NULL, adjustment TEXT NOT NULL, source_ts INTEGER NOT NULL, rx_ts INTEGER NOT NULL, "@
        =~= " ("@ + "provider TEXT NOT NULL, symbol TEXT NOT NULL, adjustment TEXT NOT NULL"@ + ", "@
        + "source_ts INTEGER NOT NULL, rx_ts INTEGER NOT NULL, "@);
    assert(", PRIMARY KEY (provider, symbol, adjustment, source_ts))"@ =~= ", PRIMARY KEY ("@
        + "provider, symbol, adjustment"@ + ", "@ + "source_ts"@ + "))"@);
    assert(" (ord INTEGER PRIMARY KEY, seq INTEGER NOT NULL, source_ts INTEGER NOT NULL, rx_ts INTEGER NOT NULL, "@
        =~= " (ord INTEGER PRIMARY KEY, seq INTEGER NOT NULL, "@
        + "source_ts INTEGER NOT NULL, rx_ts INTEGER NOT NULL, "@);
    lemma_regroup_table(head, pay);
    lemma_regroup_shard("CREATE TABLE IF NOT EXISTS "@ + shard, pay);
}

proof fn lemma_regroup_table(head: Seq<char>, pay: Seq<char>)
    ensures
        ({
            let (o, p) = (" ("@, "provider TEXT NOT NULL, symbol TEXT NOT NULL, adjustment TEXT NOT NULL"@);
            let (c, t) = (", "@, "source_ts INTEGER NOT NULL, rx_ts INTEGER NOT NULL, "@);
            let (k, n) = (", PRIMARY KEY ("@, "provider, symbol, adjustment"@);
            let (s, e) = ("source_ts"@, "))"@);
            head + (o + p + c + t) + pay + (k + n + c + s + e) == head + o + (p + c + (t + pay)) + k
                + (n + c + s) + e
        }),
{
    let (o, p) = (" ("@, "provider TEXT NOT NULL, symbol TEXT NOT NULL, adjustment TEXT NOT NULL"@);
    let (c, t) = (", "@, "source_ts INTEGER NOT NULL, rx_ts INTEGER NOT NULL, "@);
    let (k, n) = (", PRIMARY KEY ("@, "provider, symbol, adjustment"@);
    let (s, e) = ("source_ts"@, "))"@);
    assert(head + (o + p + c + t) + pay + (k + n + c + s + e) =~= head + o + (p + c + (t + pay)) + k
        + (n + c + s) + e);
}

proof fn lemma_regroup_shard(head: Seq<char>, pay: Seq<char>)
    ensures
        ({
            let (a, t) = (
                " (ord INTEGER PRIMARY KEY, seq INTEGER NOT NULL, "@,
                "source_ts INTEGER NOT NULL, rx_ts INTEGER NOT NULL, "@,
            );
            head + (a + t) + pay + ")"@ == head + a + (t + pay) + ")"@
        }),
{
    let (a, t) = (
        " (ord INTEGER PRIMARY KEY, seq INTEGER NOT NULL, "@,
        "source_ts INTEGER NOT NULL, rx_ts INTEGER NOT NULL, "@,
    );
    assert(head + (a + t) + pay + ")"@ =~= head + a + (t + pay) + ")"@);
}

proof fn lemma_names_differ(kind: EventKind)
    ensures
        tap_names(kind).no_duplicates(),
        (owner_names() + column_names(kind)).no_duplicates(),
        column_names(kind).no_duplicates(),
        column_names(kind).len() == columns(kind),
{
    match kind {
        EventKind::Trade => lemma_trade_names_differ(),
        EventKind::Quote => lemma_quote_names_differ(),
        EventKind::Bar(_) => {
            lemma_bar_names_differ();
            assert(column_names(kind) == column_names(EventKind::Bar(BarInterval::OneDay)));
        },
    }
}

/// Each integer of a row stands under the name that says what it is: the two
/// times, the price or the bid and the ask or the four prices of a bar, and the
/// sizes.
pub proof fn law_names_say_what_is_stored(
    t: TradeView,
    q: QuoteView,
    b: BarView,
)
    ensures
        ({
            let names = column_names(EventKind::Trade);
            let row = row_of(EventView::Trade(t));
            &&& cell(names, row, "source_ts"@) == t.source_ts.0
            &&& cell(names, row, "rx_ts"@) == t.rx_ts.0
            &&& cell(names, row, "price_raw"@) == t.price.0
            &&& cell(names, row, "size_raw"@) == signed(t.size.0)
            &&& names.len() == row.len()
        }),
        ({
            let names = column_names(EventKind::Quote);
            let row = row_of(EventView::Quote(q));
            &&& cell(names, row, "source_ts"@) == q.source_ts.0
            &&& cell(names, row, "rx_ts"@) == q.rx_ts.0
            &&& cell(names, row, "bid_raw"@) == q.bid.0
            &&& cell(names, row, "bid_size_raw"@) == signed(q.bid_size.0)
            &&& cell(names, row, "ask_raw"@) == q.ask.0
            &&& cell(names, row, "ask_size_raw"@) == signed(q.ask_size.0)
            &&& names.len() == row.len()
        }),
        ({
            let names = column_names(EventKind::Bar(b.interval));
            let row = row_of(EventView::Bar(b));
            &&& cell(names, row, "source_ts"@) == b.source_ts.0
            &&& cell(names, row, "rx_ts"@) == b.rx_ts.0
            &&& cell(names, row, "open_raw"@) == b.open.0
            &&& cell(names, row, "high_raw"@) == b.high.0
            &&& cell(names, row, "low_raw"@) == b.low.0
            &&& cell(names, row, "close_raw"@) == b.close.0
            &&& cell(names, row, "volume_raw"@) == signed(b.volume.0)
            &&& names.len() == row.len()
        }),
{
    lemma_names_differ(EventKind::Trade);
    lemma_cell(column_names(EventKind::Trade), row_of(EventView::Trade(t)), 0);
    lemma_cell(column_names(EventKind::Trade), row_of(EventView::Trade(t)), 1);
    lemma_cell(column_names(EventKind::Trade), row_of(EventView::Trade(t)), 2);
    lemma_cell(column_names(EventKind::Trade), row_of(EventView::Trade(t)), 3);
    lemma_names_differ(EventKind::Quote);
    lemma_cell(column_names(EventKind::Quote), row_of(EventView::Quote(q)), 0);
    lemma_cell(column_names(EventKind::Quote), row_of(EventView::Quote(q)), 1);
    lemma_cell(column_names(EventKind::Quote), row_of(EventView::Quote(q)), 2);
    lemma_cell(column_names(EventKind::Quote), row_of(EventView::Quote(q)), 3);
    lemma_cell(column_names(EventKind::Quote), row_of(EventView::Quote(q)), 4);
    lemma_cell(column_names(EventKind::Quote), row_of(EventView::Quote(q)), 5);
    lemma_names_differ(EventKind::Bar(b.interval));
    lemma_cell(column_names(EventKind::Bar(b.interval)), row_of(EventView::Bar(b)), 0);
    lemma_cell(column_names(EventKind::Bar(b.interval)), row_of(EventView::Bar(b)), 1);
    lemma_cell(column_names(EventKind::Bar(b.interval)), row_of(EventView::Bar(b)), 2);
    lemma_cell(column_names(EventKind::Bar(b.interval)), row_of(EventView::Bar(b)), 3);
    lemma_cell(column_names(EventKind::Bar(b.interval)), row_of(EventView::Bar(b)), 4);
    lemma_cell(column_names(EventKind::Bar(b.interval)), row_of(EventView::Bar(b)), 5);
    lemma_cell(column_names(EventKind::Bar(b.interval)), row_of(EventView::Bar(b)), 6);
}

/// Reading a row takes each part of the event from under its own name, for the
/// instrument asked for and at the place asked for.
pub proof fn law_names_say_what_is_read(
    instrument: InstrumentView,
    kind: EventKind,
    row: Seq<i64>,
    seq: SeqNo,
)
    requires
        row.len() == columns(kind),
    ensures
        ({
            let names = column_names(kind);
            match event_of_row(instrument, kind, row, seq) {
                EventView::Trade(e) => {
                    &&& kind is Trade
                    &&& e.instrument == instrument
                    &&& e.seq == seq
                    &&& e.source_ts.0 == cell(names, row, "source_ts"@)
                    &&& e.rx_ts.0 == cell(names, row, "rx_ts"@)
                    &&& e.price.0 == cell(names, row, "price_raw"@)
                    &&& e.size.0 == unsigned(cell(names, row, "size_raw"@))
                },
                EventView::Quote(e) => {
                    &&& kind is Quote
                    &&& e.instrument == instrument
                    &&& e.seq == seq
                    &&& e.source_ts.0 == cell(names, row, "source_ts"@)
                    &&& e.rx_ts.0 == cell(names, row, "rx_ts"@)
                    &&& e.bid.0 == cell(names, row, "bid_raw"@)
                    &&& e.bid_size.0 == unsigned(cell(names, row, "bid_size_raw"@))
                    &&& e.ask.0 == cell(names, row, "ask_raw"@)
                    &&& e.ask_size.0 == unsigned(cell(names, row, "ask_size_raw"@))
                },
                EventView::Bar(e) => {
                    &&& kind is Bar
                    &&& e.instrument == instrument
                    &&& e.seq == seq
                    &&& kind == EventKind::Bar(e.interval)
                    &&& e.source_ts.0 == cell(names, row, "source_ts"@)
                    &&& e.rx_ts.0 == cell(names, row, "rx_ts"@)
                    &&& e.open.0 == cell(names, row, "open_raw"@)
                    &&& e.high.0 == cell(names, row, "high_raw"@)
                    &&& e.low.0 == cell(names, row, "low_raw"@)
                    &&& e.close.0 == cell(names, row, "close_raw"@)
                    &&& e.volume.0 == unsigned(cell(names, row, "volume_raw"@))
                },
                EventView::Control(_) => false,
            }
        }),
{
    lemma_names_differ(kind);
    let names = column_names(kind);
    assert forall|i: int| 0 <= i < names.len() implies cell(names, row, #[trigger] names[i])
        == row[i] by {
        lemma_cell(names, row, i);
    }
    match kind {
        EventKind::Trade => {
            assert(names[0] == "source_ts"@);
            assert(names[1] == "rx_ts"@);
            assert(names[2] == "price_raw"@);
            assert(names[3] == "size_raw"@);
        },
        EventKind::Quote => {
            assert(names[0] == "source_ts"@);
            assert(names[1] == "rx_ts"@);
            assert(names[2] == "bid_raw"@);
            assert(names[3] == "bid_size_raw"@);
            assert(names[4] == "ask_raw"@);
            assert(names[5] == "ask_size_raw"@);
        },
        EventKind::Bar(_) => {
            assert(names[0] == "source_ts"@);
            assert(names[1] == "rx_ts"@);
            assert(names[2] == "open_raw"@);
            assert(names[3] == "high_raw"@);
            assert(names[4] == "low_raw"@);
            assert(names[5] == "close_raw"@);
            assert(names[6] == "volume_raw"@);
        },
    }
}

/// A cached event comes back as it was stored: under the names that the store's
/// statement writes its integers, the replay's statement finds each of them
/// again, and what it finds is the event, without its place.
pub proof fn law_cached_columns_are_read_back(
    key: CacheKeyView,
    ev: EventView,
    from: i64,
    to: i64,
    k: int,
)
    requires
        pair_of(ev) == Some((key.instrument, key.kind)),
        0 <= k < column_names(key.kind).len(),
    ensures
        insert_view(key, ev).sql == "INSERT OR REPLACE INTO "@ + table_name(key.kind) + (" ("@
            + listing(owner_names() + column_names(key.kind)) + ") VALUES ("@ + listing(
            parameters(3 + columns(key.kind)),
        ) + ")"@),
        scan_view(key, from, to).sql == ("SELECT "@ + listing(column_names(key.kind)) + " FROM "@)
            + table_name(key.kind) + super::cache::range_filter() + " ORDER BY source_ts ASC"@,
        cell(
            owner_names() + column_names(key.kind),
            insert_view(key, ev).params,
            column_names(key.kind)[k],
        ) == SqlValueView::Int(row_of(ev)[k]),
        cell(
            owner_names() + column_names(key.kind),
            insert_view(key, ev).params,
            "provider"@,
        ) == SqlValueView::Text(key.instrument.provider),
        cell(
            owner_names() + column_names(key.kind),
            insert_view(key, ev).params,
            "symbol"@,
        ) == SqlValueView::Text(key.instrument.symbol),
        cell(
            owner_names() + column_names(key.kind),
            insert_view(key, ev).params,
            "adjustment"@,
        ) == SqlValueView::Text(adjustment_text(stored_adjustment(key.kind, key.adjustment))),
        insert_view(key, ev).params.len() == (owner_names() + column_names(key.kind)).len(),
        event_of_row(key.instrument, key.kind, row_of(ev), SeqNo(0)) == ev.with_seq(SeqNo(0)),
{
    let names = owner_names() + column_names(key.kind);
    let params = insert_view(key, ev).params;
    law_statements_name_the_same_columns(key.kind, seq![]);
    super::cache::law_replay_gives_back_what_was_stored(key, ev);
    super::rows::law_rows_round_trip(ev, SeqNo(0));
    lemma_names_differ(key.kind);
    lemma_cell(names, params, k + 3);
    lemma_cell(names, params, 0);
    lemma_cell(names, params, 1);
    lemma_cell(names, params, 2);
    assert(names[k + 3] == column_names(key.kind)[k]);
    assert(names[0] == "provider"@ && names[1] == "symbol"@ && names[2] == "adjustment"@);
}

/// A recorded event comes back as it was recorded: under the names that the
/// recorder's statement writes its integers, the scan's statement finds each of
/// them again, the ordinal and the place among them, and what it finds is the
/// event.
pub proof fn law_recorded_columns_are_read_back(
    shard: Seq<char>,
    ord: u64,
    ev: EventView,
    from: i64,
    to: i64,
    k: int,
)
    requires
        ev.is_data(),
        0 <= k < tap_names((pair_of(ev)->0).1).len(),
    ensures
        ({
            let (instrument, kind) = pair_of(ev)->0;
            &&& record_view(shard, kind, ord, ev).sql == "INSERT INTO "@ + shard + (" ("@ + listing(
                tap_names(kind),
            ) + ") VALUES ("@ + listing(parameters(2 + columns(kind))) + ")"@)
            &&& shard_scan_view(shard, kind, from, to).sql == ("SELECT "@ + listing(tap_names(kind))
                + " FROM "@) + shard
                + " WHERE source_ts >= ?1 AND source_ts < ?2 ORDER BY ord ASC"@
            &&& shard_scan_view(shard, kind, from, to).params == seq![
                SqlValueView::Int(from),
                SqlValueView::Int(to),
            ]
            &&& cell(tap_names(kind), record_view(shard, kind, ord, ev).params, tap_names(kind)[k])
                == SqlValueView::Int(tap_row(ord, ev)[k])
            &&& cell(tap_names(kind), tap_row(ord, ev), "ord"@) == signed(ord)
            &&& cell(tap_names(kind), tap_row(ord, ev), "seq"@) == signed(ev.seq().0)
            &&& k >= 2 ==> cell(tap_names(kind), tap_row(ord, ev), tap_names(kind)[k]) == cell(
                column_names(kind),
                row_of(ev),
                tap_names(kind)[k],
            )
            &&& record_view(shard, kind, ord, ev).params.len() == tap_names(kind).len()
            &&& tap_event(instrument, kind, tap_row(ord, ev)) == (ord, ev)
        }),
{
    let (instrument, kind) = pair_of(ev)->0;
    let names = tap_names(kind);
    law_statements_name_the_same_columns(kind, shard);
    super::tap_log::law_tap_rows_round_trip(ord, ev);
    super::rows::law_rows_round_trip(ev, SeqNo(0));
    lemma_names_differ(kind);
    lemma_cell(names, record_view(shard, kind, ord, ev).params, k);
    lemma_cell(names, tap_row(ord, ev), k);
    lemma_cell(names, tap_row(ord, ev), 0);
    lemma_cell(names, tap_row(ord, ev), 1);
    assert(names[0] == "ord"@ && names[1] == "seq"@);
    if k >= 2 {
        assert(names[k] == column_names(kind)[k - 2]);
        lemma_cell(column_names(kind), row_of(ev), k - 2);
    }
}

/// A coverage document is written with each of its parts under its own name.
pub proof fn law_coverage_is_written_by_name(key: CacheKeyView, segments: Seq<(i64, i64)>, count: u64)
    ensures
        upsert_view(key, segments, count).sql == "INSERT OR REPLACE INTO coverage ("@ + listing(seq![
            "id"@,
            "segments"@,
            "event_count"@,
            "asset_class"@,
        ]) + ") VALUES ("@ + listing(
            parameters(4),
        ) + ")"@,
        upsert_view(key, segments, count).params.len() == 4,
        cell(seq![
            "id"@,
            "segments"@,
            "event_count"@,
            "asset_class"@,
        ], upsert_view(key, segments, count).params, "id"@) == SqlValueView::Text(super::cache::key_id(key)),
        cell(seq![
            "id"@,
            "segments"@,
            "event_count"@,
            "asset_class"@,
        ], upsert_view(key, segments, count).params, "segments"@) == SqlValueView::Text(super::cache::segments_json(segments)),
        cell(seq![
            "id"@,
            "segments"@,
            "event_count"@,
            "asset_class"@,
        ], upsert_view(key, segments, count).params, "event_count"@) == SqlValueView::Int(signed(count)),
        cell(seq![
            "id"@,
            "segments"@,
            "event_count"@,
            "asset_class"@,
        ], upsert_view(key, segments, count).params, "asset_class"@) == SqlValueView::Text(asset_class_text(key.instrument.asset_class)),
{
    lemma_parameters();
    reveal_strlit("id");
    reveal_strlit("segments");
    reveal_strlit("event_count");
    reveal_strlit("asset_class");
    reveal_strlit(", ");
    reveal_strlit("id, segments");
    reveal_strlit("id, segments, event_count");
    reveal_strlit("id, segments, event_count, asset_class");
    reveal_strlit("INSERT OR REPLACE INTO coverage (");
    reveal_strlit(") VALUES (");
    reveal_strlit("?1, ?2, ?3, ?4");
    reveal_strlit(")");
    reveal_strlit("INSERT OR REPLACE INTO coverage (id, segments, event_count, asset_class) VALUES (?1, ?2, ?3, ?4)");
    assert(seq!["id"@] =~= Seq::<Seq<char>>::empty().push("id"@));
    lemma_listing_push(seq!["id"@], "segments"@);
    assert(seq!["id"@].push("segments"@) =~= seq!["id"@, "segments"@]);
    assert("id"@ + ", "@ + "segments"@ =~= "id, segments"@);
    lemma_listing_push(seq!["id"@, "segments"@], "event_count"@);
    assert(seq!["id"@, "segments"@].push("event_count"@)
        =~= seq!["id"@, "segments"@, "event_count"@]);
    assert("id, segments"@ + ", "@ + "event_count"@ =~= "id, segments, event_count"@);
    lemma_listing_push(seq!["id"@, "segments"@, "event_count"@], "asset_class"@);
    assert(seq!["id"@, "segments"@, "event_count"@].push("asset_class"@)
        =~= seq!["id"@, "segments"@, "event_count"@, "asset_class"@]);
    assert("id, segments, event_count"@ + ", "@ + "asset_class"@
        =~= "id, segments, event_count, asset_class"@);
    assert("id"@.len() != "segments"@.len());
    assert("id"@.len() != "event_count"@.len());
    assert("id"@.len() != "asset_class"@.len());
    assert("segments"@.len() != "event_count"@.len());
    assert("segments"@.len() != "asset_class"@.len());
    assert("event_count"@[0] != "asset_class"@[0]);

    assert("INSERT OR REPLACE INTO coverage (id, segments, event_count, asset_class) VALUES (?1, ?2, ?3, ?4)"@
        =~= "INSERT OR REPLACE INTO coverage ("@ + "id, segments, event_count, asset_class"@ + ") VALUES ("@ + "?1, ?2, ?3, ?4"@ + ")"@);
    let names = seq!["id"@, "segments"@, "event_count"@, "asset_class"@];
    assert forall|i: int, j: int| 0 <= i < names.len() && 0 <= j < names.len() && i != j implies names[i]
        != names[j] by {
        assert(i == 0 || i == 1 || i == 2 || i == 3);
        assert(j == 0 || j == 1 || j == 2 || j == 3);
    }
    lemma_cell(names, upsert_view(key, segments, count).params, 0);
    lemma_cell(names, upsert_view(key, segments, count).params, 1);
    lemma_cell(names, upsert_view(key, segments, count).params, 2);
    lemma_cell(names, upsert_view(key, segments, count).params, 3);
}

/// A stream is registered with each of its parts under its own name.
pub proof fn law_streams_are_registered_by_name(instrument: InstrumentView, kind: EventKind, shard: Seq<char>)
    ensures
        register_view(instrument, kind, shard).sql == "INSERT OR REPLACE INTO streams ("@ + listing(seq![
            "id"@,
            "provider"@,
            "asset_class"@,
            "symbol"@,
            "kind_tag"@,
            "shard_table"@,
        ]) + ") VALUES ("@ + listing(
            parameters(6),
        ) + ")"@,
        register_view(instrument, kind, shard).params.len() == 6,
        cell(seq![
            "id"@,
            "provider"@,
            "asset_class"@,
            "symbol"@,
            "kind_tag"@,
            "shard_table"@,
        ], register_view(instrument, kind, shard).params, "id"@) == SqlValueView::Text(registry_text(instrument, kind)),
        cell(seq![
            "id"@,
            "provider"@,
            "asset_class"@,
            "symbol"@,
            "kind_tag"@,
            "shard_table"@,
        ], register_view(instrument, kind, shard).params, "provider"@) == SqlValueView::Text(instrument.provider),
        cell(seq![
            "id"@,
            "provider"@,
            "asset_class"@,
            "symbol"@,
            "kind_tag"@,
            "shard_table"@,
        ], register_view(instrument, kind, shard).params, "asset_class"@) == SqlValueView::Text(asset_class_text(instrument.asset_class)),
        cell(seq![
            "id"@,
            "provider"@,
            "asset_class"@,
            "symbol"@,
            "kind_tag"@,
            "shard_table"@,
        ], register_view(instrument, kind, shard).params, "symbol"@) == SqlValueView::Text(instrument.symbol),
        cell(seq![
            "id"@,
            "provider"@,
            "asset_class"@,
            "symbol"@,
            "kind_tag"@,
            "shard_table"@,
        ], register_view(instrument, kind, shard).params, "kind_tag"@) == SqlValueView::Text(kind_tag_text(kind)),
        cell(seq![
            "id"@,
            "provider"@,
            "asset_class"@,
            "symbol"@,
            "kind_tag"@,
            "shard_table"@,
        ], register_view(instrument, kind, shard).params, "shard_table"@) == SqlValueView::Text(shard),
{
    lemma_parameters();
    reveal_strlit("id");
    reveal_strlit("provider");
    reveal_strlit("asset_class");
    reveal_strlit("symbol");
    reveal_strlit("kind_tag");
    reveal_strlit("shard_table");
    reveal_strlit(", ");
    reveal_strlit("id, provider");
    reveal_strlit("id, provider, asset_class");
    reveal_strlit("id, provider, asset_class, symbol");
    reveal_strlit("id, provider, asset_class, symbol, kind_tag");
    reveal_strlit("id, provider, asset_class, symbol, kind_tag, shard_table");
    reveal_strlit("INSERT OR REPLACE INTO streams (");
    reveal_strlit(") VALUES (");
    reveal_strlit("?1, ?2, ?3, ?4, ?5, ?6");
    reveal_strlit(")");
    reveal_strlit("INSERT OR REPLACE INTO streams (id, provider, asset_class, symbol, kind_tag, shard_table) VALUES (?1, ?2, ?3, ?4, ?5, ?6)");
    assert(seq!["id"@] =~= Seq::<Seq<char>>::empty().push("id"@));
    lemma_listing_push(seq!["id"@], "provider"@);
    assert(seq!["id"@].push("provider"@) =~= seq!["id"@, "provider"@]);
    assert("id"@ + ", "@ + "provider"@ =~= "id, provider"@);
    lemma_listing_push(seq!["id"@, "provider"@], "asset_class"@);
    assert(seq!["id"@, "provider"@].push("asset_class"@)
        =~= seq!["id"@, "provider"@, "asset_class"@]);
    assert("id, provider"@ + ", "@ + "asset_class"@ =~= "id, provider, asset_class"@);
    lemma_listing_push(seq!["id"@, "provider"@, "asset_class"@], "symbol"@);
    assert(seq!["id"@, "provider"@, "asset_class"@].push("symbol"@)
        =~= seq!["id"@, "provider"@, "asset_class"@, "symbol"@]);
    assert("id, provider, asset_class"@ + ", "@ + "symbol"@
        =~= "id, provider, asset_class, symbol"@);
    lemma_listing_push(seq!["id"@, "provider"@, "asset_class"@, "symbol"@], "kind_tag"@);
    assert(seq!["id"@, "provider"@, "asset_class"@, "symbol"@].push("kind_tag"@)
        =~= seq!["id"@, "provider"@, "asset_class"@, "symbol"@, "kind_tag"@]);
    assert("id, provider, asset_class, symbol"@ + ", "@ + "kind_tag"@
        =~= "id, provider, asset_class, symbol, kind_tag"@);
    lemma_listing_push(
        seq!["id"@, "provider"@, "asset_class"@, "symbol"@, "kind_tag"@],
        "shard_table"@,
    );
    assert(seq!["id"@, "provider"@, "asset_class"@, "symbol"@, "kind_tag"@].push("shard_table"@)
        =~= seq!["id"@, "provider"@, "asset_class"@, "symbol"@, "kind_tag"@, "shard_table"@]);
    assert("id, provider, asset_class, symbol, kind_tag"@ + ", "@ + "shard_table"@
        =~= "id, provider, asset_class, symbol, kind_tag, shard_table"@);
    assert("id"@.len() != "provider"@.len());
    assert("id"@.len() != "asset_class"@.len());
    assert("id"@.len() != "symbol"@.len());
    assert("id"@.len() != "kind_tag"@.len());
    assert("id"@.len() != "shard_table"@.len());
    assert("provider"@.len() != "asset_class"@.len());
    assert("provider"@.len() != "symbol"@.len());
    assert("provider"@[0] != "kind_tag"@[0]);
    assert("provider"@.len() != "shard_table"@.len());
    assert("asset_class"@.len() != "symbol"@.len());
    assert("asset_class"@.len() != "kind_tag"@.len());
    assert("asset_class"@[0] != "shard_table"@[0]);
    assert("symbol"@.len() != "kind_tag"@.len());
    assert("symbol"@.len() != "shard_table"@.len());
    assert("kind_tag"@.len() != "shard_table"@.len());

    assert("INSERT OR REPLACE INTO streams (id, provider, asset_class, symbol, kind_tag, shard_table) VALUES (?1, ?2, ?3, ?4, ?5, ?6)"@
        =~= "INSERT OR REPLACE INTO streams ("@ + "id, provider, asset_class, symbol, kind_tag, shard_table"@ + ") VALUES ("@ + "?1, ?2, ?3, ?4, ?5, ?6"@ + ")"@);
    let names = seq!["id"@, "provider"@, "asset_class"@, "symbol"@, "kind_tag"@, "shard_table"@];
    assert forall|i: int, j: int| 0 <= i < names.len() && 0 <= j < names.len() && i != j implies names[i]
        != names[j] by {
        assert(i == 0 || i == 1 || i == 2 || i == 3 || i == 4 || i == 5);
        assert(j == 0 || j == 1 || j == 2 || j == 3 || j == 4 || j == 5);
    }
    lemma_cell(names, register_view(instrument, kind, shard).params, 0);
    lemma_cell(names, register_view(instrument, kind, shard).params, 1);
    lemma_cell(names, register_view(instrument, kind, shard).params, 2);
    lemma_cell(names, register_view(instrument, kind, shard).params, 3);
    lemma_cell(names, register_view(instrument, kind, shard).params, 4);
    lemma_cell(names, register_view(instrument, kind, shard).params, 5);
}

/// The counters are written each under its own name.
pub proof fn law_counters_are_written_by_name(next_shard: u64, next_ord: u64)
    ensures
        persist_view(next_shard, next_ord).sql == "INSERT OR REPLACE INTO meta (id, "@ + listing(
            seq!["next_shard"@, "next_ord"@],
        ) + ") VALUES (0, "@ + listing(parameters(2)) + ")"@,
        cell(
            seq!["next_shard"@, "next_ord"@],
            persist_view(next_shard, next_ord).params,
            "next_shard"@,
        ) == SqlValueView::Int(signed(next_shard)),
        cell(
            seq!["next_shard"@, "next_ord"@],
            persist_view(next_shard, next_ord).params,
            "next_ord"@,
        ) == SqlValueView::Int(signed(next_ord)),
{
    lemma_parameters();
    reveal_strlit("next_shard");
    reveal_strlit("next_ord");
    reveal_strlit(", ");
    reveal_strlit("next_shard, next_ord");
    reveal_strlit("INSERT OR REPLACE INTO meta (id, ");
    reveal_strlit(") VALUES (0, ");
    reveal_strlit("?1, ?2");
    reveal_strlit(")");
    reveal_strlit("INSERT OR REPLACE INTO meta (id, next_shard, next_ord) VALUES (0, ?1, ?2)");
    assert(seq!["next_shard"@] =~= Seq::<Seq<char>>::empty().push("next_shard"@));
    lemma_listing_push(seq!["next_shard"@], "next_ord"@);
    assert(seq!["next_shard"@].push("next_ord"@) =~= seq!["next_shard"@, "next_ord"@]);
    assert("next_shard"@ + ", "@ + "next_ord"@ =~= "next_shard, next_ord"@);
    assert("INSERT OR REPLACE INTO meta (id, next_shard, next_ord) VALUES (0, ?1, ?2)"@
        =~= "INSERT OR REPLACE INTO meta (id, "@ + "next_shard, next_ord"@ + ") VALUES (0, "@
        + "?1, ?2"@ + ")"@);
    let names = seq!["next_shard"@, "next_ord"@];
    assert("next_shard"@.len() != "next_ord"@.len());
    assert(names.no_duplicates());
    lemma_cell(names, persist_view(next_shard, next_ord).params, 0);
    lemma_cell(names, persist_view(next_shard, next_ord).params, 1);
}

// ---------------------------------------------------------------------------
// Filters
// ---------------------------------------------------------------------------

/// How a column is tested against a value.
pub enum Test {
    Is,
    AtLeast,
    Below,
}

/// One condition of a filter: a column, how it is tested, and the parameter
/// that it is tested against.
pub struct Condition {
    pub column: Seq<char>,
    pub test: Test,
    pub parameter: Seq<char>,
}

/// The text of a condition.
pub open spec fn condition_text(c: Condition) -> Seq<char> {
    c.column + (match c.test {
        Test::Is => " = "@,
        Test::AtLeast => " >= "@,
        Test::Below => " < "@,
    }) + c.parameter
}

/// The text of conditions that all have to hold.
pub open spec fn filter_text(cs: Seq<Condition>) -> Seq<char>
    decreases cs.len(),
{
    if cs.len() == 0 {
        seq![]
    } else if cs.len() == 1 {
        condition_text(cs[0])
    } else {
        filter_text(cs.drop_last()) + " AND "@ + condition_text(cs.last())
    }
}

/// Whether a condition holds of a row whose columns hold `row`, where the
/// parameters stand for `bound`.
pub open spec fn holds(
    c: Condition,
    row: spec_fn(Seq<char>) -> SqlValueView,
    bound: spec_fn(Seq<char>) -> SqlValueView,
) -> bool {
    match c.test {
        Test::Is => row(c.column) == bound(c.parameter),
        Test::AtLeast => row(c.column) matches SqlValueView::Int(v) && bound(
            c.parameter,
        ) matches SqlValueView::Int(w) && v >= w,
        Test::Below => row(c.column) matches SqlValueView::Int(v) && bound(
            c.parameter,
        ) matches SqlValueView::Int(w) && v < w,
    }
}

/// The conditions of a window of source time, over its two parameters.
pub open spec fn window_conditions(from: Seq<char>, to: Seq<char>) -> Seq<Condition> {
    seq![
        Condition { column: "source_ts"@, test: Test::AtLeast, parameter: from },
        Condition { column: "source_ts"@, test: Test::Below, parameter: to },
    ]
}

/// The conditions of one series in a window of source time, over their five
/// parameters.
pub open spec fn range_conditions(p: Seq<Seq<char>>) -> Seq<Condition> {
    seq![
        Condition { column: "provider"@, test: Test::Is, parameter: p[0] },
        Condition { column: "symbol"@, test: Test::Is, parameter: p[1] },
        Condition { column: "adjustment"@, test: Test::Is, parameter: p[2] },
        Condition { column: "source_ts"@, test: Test::AtLeast, parameter: p[3] },
        Condition { column: "source_ts"@, test: Test::Below, parameter: p[4] },
    ]
}

/// The conditions of a range take the rows of the series that the parameters
/// name, from the first instant of the window up to but without its end, and no
/// others.
pub proof fn law_range_conditions_take_the_range(
    p: Seq<Seq<char>>,
    row: spec_fn(Seq<char>) -> SqlValueView,
    bound: spec_fn(Seq<char>) -> SqlValueView,
    provider: Seq<char>,
    symbol: Seq<char>,
    adjustment: Seq<char>,
    ts: i64,
    key: CacheKeyView,
    from: i64,
    to: i64,
)
    requires
        row("provider"@) == SqlValueView::Text(provider),
        row("symbol"@) == SqlValueView::Text(symbol),
        row("adjustment"@) == SqlValueView::Text(adjustment),
        row("source_ts"@) == SqlValueView::Int(ts),
        forall|i: int| 0 <= i < 5 ==> bound(#[trigger] p[i]) == (key_values(key)
            + super::cache::range_values(from, to))[i],
    ensures
        (forall|i: int|
            0 <= i < range_conditions(p).len() ==> holds(
                #[trigger] range_conditions(p)[i],
                row,
                bound,
            )) <==> {
            &&& provider == key.instrument.provider
            &&& symbol == key.instrument.symbol
            &&& adjustment == adjustment_text(stored_adjustment(key.kind, key.adjustment))
            &&& from <= ts < to
        },
{
    let cs = range_conditions(p);
    assert(bound(p[0]) == SqlValueView::Text(key.instrument.provider));
    assert(bound(p[1]) == SqlValueView::Text(key.instrument.symbol));
    assert(bound(p[2]) == SqlValueView::Text(
        adjustment_text(stored_adjustment(key.kind, key.adjustment)),
    ));
    assert(bound(p[3]) == SqlValueView::Int(from));
    assert(bound(p[4]) == SqlValueView::Int(to));
    assert(holds(cs[0], row, bound) <==> provider == key.instrument.provider);
    assert(holds(cs[1], row, bound) <==> symbol == key.instrument.symbol);
    assert(holds(cs[2], row, bound) <==> adjustment == adjustment_text(
        stored_adjustment(key.kind, key.adjustment),
    ));
    assert(holds(cs[3], row, bound) <==> from <= ts);
    assert(holds(cs[4], row, bound) <==> ts < to);
    if holds(cs[0], row, bound) && holds(cs[1], row, bound) && holds(cs[2], row, bound) && holds(
        cs[3],
        row,
        bound,
    ) && holds(cs[4], row, bound) {
        assert forall|i: int| 0 <= i < cs.len() implies holds(#[trigger] cs[i], row, bound) by {
            assert(i == 0 || i == 1 || i == 2 || i == 3 || i == 4);
        }
    }
}

/// The conditions of a window take the rows from its first instant up to but
/// without its end.
pub proof fn law_window_conditions_take_the_window(
    p: Seq<char>,
    q: Seq<char>,
    row: spec_fn(Seq<char>) -> SqlValueView,
    bound: spec_fn(Seq<char>) -> SqlValueView,
    ts: i64,
    from: i64,
    to: i64,
)
    requires
        row("source_ts"@) == SqlValueView::Int(ts),
        bound(p) == SqlValueView::Int(from),
        bound(q) == SqlValueView::Int(to),
    ensures
        (forall|i: int|
            0 <= i < window_conditions(p, q).len() ==> holds(
                #[trigger] window_conditions(p, q)[i],
                row,
                bound,
            )) <==> from <= ts < to,
{
    let cs = window_conditions(p, q);
    assert(holds(cs[0], row, bound) <==> from <= ts);
    assert(holds(cs[1], row, bound) <==> ts < to);
    if holds(cs[0], row, bound) && holds(cs[1], row, bound) {
        assert forall|i: int| 0 <= i < cs.len() implies holds(#[trigger] cs[i], row, bound) by {
            assert(i == 0 || i == 1);
        }
    }
}

proof fn lemma_filter_push(cs: Seq<Condition>, c: Condition)
    requires
        cs.len() > 0,
    ensures
        filter_text(cs.push(c)) == filter_text(cs) + " AND "@ + condition_text(c),
{
    assert(cs.push(c).drop_last() =~= cs);
}

proof fn lemma_file_filter()
    ensures
        filter_text(range_conditions(seq![
            "?1"@,
            "?2"@,
            "?3"@,
            "?4"@,
            "?5"@,
        ])) == "provider = ?1 AND symbol = ?2 AND adjustment = ?3 AND source_ts >= ?4 AND source_ts < ?5"@,
{
    reveal_strlit("provider");
    reveal_strlit("symbol");
    reveal_strlit("adjustment");
    reveal_strlit("source_ts");
    reveal_strlit(" = ");
    reveal_strlit(" >= ");
    reveal_strlit(" < ");
    reveal_strlit("?1");
    reveal_strlit("?2");
    reveal_strlit("?3");
    reveal_strlit("?4");
    reveal_strlit("?5");
    reveal_strlit("provider = ?1");
    reveal_strlit("symbol = ?2");
    reveal_strlit("adjustment = ?3");
    reveal_strlit("source_ts >= ?4");
    reveal_strlit("source_ts < ?5");
    reveal_strlit(" AND ");
    reveal_strlit("provider = ?1 AND symbol = ?2");
    reveal_strlit("provider = ?1 AND symbol = ?2 AND adjustment = ?3");
    reveal_strlit("provider = ?1 AND symbol = ?2 AND adjustment = ?3 AND source_ts >= ?4");
    reveal_strlit("provider = ?1 AND symbol = ?2 AND adjustment = ?3 AND source_ts >= ?4 AND source_ts < ?5");
    let cs = range_conditions(seq!["?1"@, "?2"@, "?3"@, "?4"@, "?5"@]);
    assert("provider"@ + " = "@ + "?1"@ =~= "provider = ?1"@);
    assert(condition_text(cs[0]) == "provider = ?1"@);
    assert("symbol"@ + " = "@ + "?2"@ =~= "symbol = ?2"@);
    assert(condition_text(cs[1]) == "symbol = ?2"@);
    assert("adjustment"@ + " = "@ + "?3"@ =~= "adjustment = ?3"@);
    assert(condition_text(cs[2]) == "adjustment = ?3"@);
    assert("source_ts"@ + " >= "@ + "?4"@ =~= "source_ts >= ?4"@);
    assert(condition_text(cs[3]) == "source_ts >= ?4"@);
    assert("source_ts"@ + " < "@ + "?5"@ =~= "source_ts < ?5"@);
    assert(condition_text(cs[4]) == "source_ts < ?5"@);
    assert(filter_text(cs.take(1)) == "provider = ?1"@);
    lemma_filter_push(cs.take(1), cs[1]);
    assert(cs.take(1).push(cs[1]) =~= cs.take(2));
    assert("provider = ?1"@ + " AND "@ + "symbol = ?2"@ =~= "provider = ?1 AND symbol = ?2"@);
    lemma_filter_push(cs.take(2), cs[2]);
    assert(cs.take(2).push(cs[2]) =~= cs.take(3));
    assert("provider = ?1 AND symbol = ?2"@ + " AND "@ + "adjustment = ?3"@
        =~= "provider = ?1 AND symbol = ?2 AND adjustment = ?3"@);
    lemma_filter_push(cs.take(3), cs[3]);
    assert(cs.take(3).push(cs[3]) =~= cs.take(4));
    assert("provider = ?1 AND symbol = ?2 AND adjustment = ?3"@ + " AND "@ + "source_ts >= ?4"@
        =~= "provider = ?1 AND symbol = ?2 AND adjustment = ?3 AND source_ts >= ?4"@);
    lemma_filter_push(cs.take(4), cs[4]);
    assert(cs.take(4).push(cs[4]) =~= cs.take(5));
    assert("provider = ?1 AND symbol = ?2 AND adjustment = ?3 AND source_ts >= ?4"@ + " AND "@ + "source_ts < ?5"@
        =~= "provider = ?1 AND symbol = ?2 AND adjustment = ?3 AND source_ts >= ?4 AND source_ts < ?5"@);
    assert(cs.take(5) =~= cs);
}

proof fn lemma_document_filter()
    ensures
        filter_text(range_conditions(seq![
            "$prov"@,
            "$sym"@,
            "$adj"@,
            "$from"@,
            "$to"@,
        ])) == "provider = $prov AND symbol = $sym AND adjustment = $adj AND source_ts >= $from AND source_ts < $to"@,
{
    reveal_strlit("provider");
    reveal_strlit("symbol");
    reveal_strlit("adjustment");
    reveal_strlit("source_ts");
    reveal_strlit(" = ");
    reveal_strlit(" >= ");
    reveal_strlit(" < ");
    reveal_strlit("$prov");
    reveal_strlit("$sym");
    reveal_strlit("$adj");
    reveal_strlit("$from");
    reveal_strlit("$to");
    reveal_strlit("provider = $prov");
    reveal_strlit("symbol = $sym");
    reveal_strlit("adjustment = $adj");
    reveal_strlit("source_ts >= $from");
    reveal_strlit("source_ts < $to");
    reveal_strlit(" AND ");
    reveal_strlit("provider = $prov AND symbol = $sym");
    reveal_strlit("provider = $prov AND symbol = $sym AND adjustment = $adj");
    reveal_strlit("provider = $prov AND symbol = $sym AND adjustment = $adj AND source_ts >= $from");
    reveal_strlit("provider = $prov AND symbol = $sym AND adjustment = $adj AND source_ts >= $from AND source_ts < $to");
    let cs = range_conditions(seq!["$prov"@, "$sym"@, "$adj"@, "$from"@, "$to"@]);
    assert("provider"@ + " = "@ + "$prov"@ =~= "provider = $prov"@);
    assert(condition_text(cs[0]) == "provider = $prov"@);
    assert("symbol"@ + " = "@ + "$sym"@ =~= "symbol = $sym"@);
    assert(condition_text(cs[1]) == "symbol = $sym"@);
    assert("adjustment"@ + " = "@ + "$adj"@ =~= "adjustment = $adj"@);
    assert(condition_text(cs[2]) == "adjustment = $adj"@);
    assert("source_ts"@ + " >= "@ + "$from"@ =~= "source_ts >= $from"@);
    assert(condition_text(cs[3]) == "source_ts >= $from"@);
    assert("source_ts"@ + " < "@ + "$to"@ =~= "source_ts < $to"@);
    assert(condition_text(cs[4]) == "source_ts < $to"@);
    assert(filter_text(cs.take(1)) == "provider = $prov"@);
    lemma_filter_push(cs.take(1), cs[1]);
    assert(cs.take(1).push(cs[1]) =~= cs.take(2));
    assert("provider = $prov"@ + " AND "@ + "symbol = $sym"@
        =~= "provider = $prov AND symbol = $sym"@);
    lemma_filter_push(cs.take(2), cs[2]);
    assert(cs.take(2).push(cs[2]) =~= cs.take(3));
    assert("provider = $prov AND symbol = $sym"@ + " AND "@ + "adjustment = $adj"@
        =~= "provider = $prov AND symbol = $sym AND adjustment = $adj"@);
    lemma_filter_push(cs.take(3), cs[3]);
    assert(cs.take(3).push(cs[3]) =~= cs.take(4));
    assert("provider = $prov AND symbol = $sym AND adjustment = $adj"@ + " AND "@ + "source_ts >= $from"@
        =~= "provider = $prov AND symbol = $sym AND adjustment = $adj AND source_ts >= $from"@);
    lemma_filter_push(cs.take(4), cs[4]);
    assert(cs.take(4).push(cs[4]) =~= cs.take(5));
    assert("provider = $prov AND symbol = $sym AND adjustment = $adj AND source_ts >= $from"@ + " AND "@ + "source_ts < $to"@
        =~= "provider = $prov AND symbol = $sym AND adjustment = $adj AND source_ts >= $from AND source_ts < $to"@);
    assert(cs.take(5) =~= cs);
}

proof fn lemma_file_window()
    ensures
        filter_text(window_conditions("?1"@, "?2"@)) == "source_ts >= ?1 AND source_ts < ?2"@,
{
    reveal_strlit("source_ts");
    reveal_strlit(" >= ");
    reveal_strlit(" < ");
    reveal_strlit("?1");
    reveal_strlit("?2");
    reveal_strlit("source_ts >= ?1");
    reveal_strlit("source_ts < ?2");
    reveal_strlit(" AND ");
    reveal_strlit("source_ts >= ?1 AND source_ts < ?2");
    let cs = window_conditions("?1"@, "?2"@);
    assert("source_ts"@ + " >= "@ + "?1"@ =~= "source_ts >= ?1"@);
    assert(condition_text(cs[0]) == "source_ts >= ?1"@);
    assert("source_ts"@ + " < "@ + "?2"@ =~= "source_ts < ?2"@);
    assert(condition_text(cs[1]) == "source_ts < ?2"@);
    assert(filter_text(cs.take(1)) == "source_ts >= ?1"@);
    lemma_filter_push(cs.take(1), cs[1]);
    assert(cs.take(1).push(cs[1]) =~= cs.take(2));
    assert("source_ts >= ?1"@ + " AND "@ + "source_ts < ?2"@
        =~= "source_ts >= ?1 AND source_ts < ?2"@);
    assert(cs.take(2) =~= cs);
}

proof fn lemma_document_window()
    ensures
        filter_text(window_conditions("$from"@, "$to"@)) == "source_ts >= $from AND source_ts < $to"@,
{
    reveal_strlit("source_ts");
    reveal_strlit(" >= ");
    reveal_strlit(" < ");
    reveal_strlit("$from");
    reveal_strlit("$to");
    reveal_strlit("source_ts >= $from");
    reveal_strlit("source_ts < $to");
    reveal_strlit(" AND ");
    reveal_strlit("source_ts >= $from AND source_ts < $to");
    let cs = window_conditions("$from"@, "$to"@);
    assert("source_ts"@ + " >= "@ + "$from"@ =~= "source_ts >= $from"@);
    assert(condition_text(cs[0]) == "source_ts >= $from"@);
    assert("source_ts"@ + " < "@ + "$to"@ =~= "source_ts < $to"@);
    assert(condition_text(cs[1]) == "source_ts < $to"@);
    assert(filter_text(cs.take(1)) == "source_ts >= $from"@);
    lemma_filter_push(cs.take(1), cs[1]);
    assert(cs.take(1).push(cs[1]) =~= cs.take(2));
    assert("source_ts >= $from"@ + " AND "@ + "source_ts < $to"@
        =~= "source_ts >= $from AND source_ts < $to"@);
    assert(cs.take(2) =~= cs);
}

/// Deletion, count and replay filter by the same conditions, in a file and in
/// the document store, each over its own parameters; scans of shards filter by
/// the window. Replays ask for the order of source time, scans of shards for
/// the order of ordinals.
pub proof fn law_statements_filter_by_the_range(
    shard: Seq<char>,
    kind: EventKind,
    key: CacheKeyView,
    from: i64,
    to: i64,
)
    ensures
        super::cache::range_filter() == " WHERE "@ + filter_text(range_conditions(seq![
            "?1"@,
            "?2"@,
            "?3"@,
            "?4"@,
            "?5"@,
        ])),
        super::surreal::delete_text() == "DELETE FROM type::table($tbl) WHERE "@ + filter_text(range_conditions(seq![
            "$prov"@,
            "$sym"@,
            "$adj"@,
            "$from"@,
            "$to"@,
        ])),
        super::surreal::count_text() == "SELECT count() AS n FROM type::table($tbl) WHERE "@ + filter_text(range_conditions(seq![
            "$prov"@,
            "$sym"@,
            "$adj"@,
            "$from"@,
            "$to"@,
        ])) + " GROUP ALL"@,
        super::surreal::scan_text() == "SELECT * FROM type::table($tbl) WHERE "@ + filter_text(range_conditions(seq![
            "$prov"@,
            "$sym"@,
            "$adj"@,
            "$from"@,
            "$to"@,
        ])) + " ORDER BY source_ts ASC"@,
        super::surreal::shard_scan_text() == "SELECT * FROM type::table($tbl) WHERE "@ + filter_text(window_conditions("$from"@, "$to"@)) + " ORDER BY ord ASC"@,
        shard_scan_view(shard, kind, from, to).sql == tap_select(kind) + shard + (" WHERE "@
            + filter_text(window_conditions("?1"@, "?2"@)) + " ORDER BY ord ASC"@),
        super::cache::delete_view(key).sql == "DELETE FROM "@ + table_name(key.kind)
            + super::cache::range_filter(),
        super::cache::count_view(key, from, to).sql == "SELECT count(*) FROM "@ + table_name(
            key.kind,
        ) + super::cache::range_filter(),
        scan_view(key, from, to).sql == select_columns(key.kind) + table_name(key.kind)
            + super::cache::range_filter() + " ORDER BY source_ts ASC"@,
        super::cache::delete_view(key).params == key_values(key) + super::cache::range_values(
            key.from.0,
            key.to.0,
        ),
        super::cache::count_view(key, from, to).params == key_values(key)
            + super::cache::range_values(from, to),
        scan_view(key, from, to).params == key_values(key) + super::cache::range_values(from, to),
{
    lemma_file_filter();
    lemma_document_filter();
    lemma_file_window();
    lemma_document_window();
    reveal_strlit(" WHERE ");
    reveal_strlit("source_ts >= ?1 AND source_ts < ?2");
    reveal_strlit(" ORDER BY ord ASC");
    reveal_strlit(" WHERE source_ts >= ?1 AND source_ts < ?2 ORDER BY ord ASC");
    reveal_strlit("provider = ?1 AND symbol = ?2 AND adjustment = ?3 AND source_ts >= ?4 AND source_ts < ?5");
    reveal_strlit(" WHERE provider = ?1 AND symbol = ?2 AND adjustment = ?3 AND source_ts >= ?4 AND source_ts < ?5");
    reveal_strlit("DELETE FROM type::table($tbl) WHERE ");
    reveal_strlit("provider = $prov AND symbol = $sym AND adjustment = $adj AND source_ts >= $from AND source_ts < $to");
    reveal_strlit("DELETE FROM type::table($tbl) WHERE provider = $prov AND symbol = $sym AND adjustment = $adj AND source_ts >= $from AND source_ts < $to");
    reveal_strlit("SELECT count() AS n FROM type::table($tbl) WHERE ");
    reveal_strlit(" GROUP ALL");
    reveal_strlit("SELECT count() AS n FROM type::table($tbl) WHERE provider = $prov AND symbol = $sym AND adjustment = $adj AND source_ts >= $from AND source_ts < $to GROUP ALL");
    reveal_strlit("SELECT * FROM type::table($tbl) WHERE ");
    reveal_strlit(" ORDER BY source_ts ASC");
    reveal_strlit("SELECT * FROM type::table($tbl) WHERE provider = $prov AND symbol = $sym AND adjustment = $adj AND source_ts >= $from AND source_ts < $to ORDER BY source_ts ASC");
    reveal_strlit("source_ts >= $from AND source_ts < $to");
    reveal_strlit("SELECT * FROM type::table($tbl) WHERE source_ts >= $from AND source_ts < $to ORDER BY ord ASC");
    assert(" WHERE provider = ?1 AND symbol = ?2 AND adjustment = ?3 AND source_ts >= ?4 AND source_ts < ?5"@
        =~= " WHERE "@ + "provider = ?1 AND symbol = ?2 AND adjustment = ?3 AND source_ts >= ?4 AND source_ts < ?5"@);
    assert("DELETE FROM type::table($tbl) WHERE provider = $prov AND symbol = $sym AND adjustment = $adj AND source_ts >= $from AND source_ts < $to"@
        =~= "DELETE FROM type::table($tbl) WHERE "@ + "provider = $prov AND symbol = $sym AND adjustment = $adj AND source_ts >= $from AND source_ts < $to"@);
    assert("SELECT count() AS n FROM type::table($tbl) WHERE provider = $prov AND symbol = $sym AND adjustment = $adj AND source_ts >= $from AND source_ts < $to GROUP ALL"@
        =~= "SELECT count() AS n FROM type::table($tbl) WHERE "@ + "provider = $prov AND symbol = $sym AND adjustment = $adj AND source_ts >= $from AND source_ts < $to"@ + " GROUP ALL"@);
    assert("SELECT * FROM type::table($tbl) WHERE provider = $prov AND symbol = $sym AND adjustment = $adj AND source_ts >= $from AND source_ts < $to ORDER BY source_ts ASC"@
        =~= "SELECT * FROM type::table($tbl) WHERE "@ + "provider = $prov AND symbol = $sym AND adjustment = $adj AND source_ts >= $from AND source_ts < $to"@ + " ORDER BY source_ts ASC"@);
    assert("SELECT * FROM type::table($tbl) WHERE source_ts >= $from AND source_ts < $to ORDER BY ord ASC"@
        =~= "SELECT * FROM type::table($tbl) WHERE "@ + "source_ts >= $from AND source_ts < $to"@ + " ORDER BY ord ASC"@);
    assert(" WHERE source_ts >= ?1 AND source_ts < ?2 ORDER BY ord ASC"@
        =~= " WHERE "@ + "source_ts >= ?1 AND source_ts < ?2"@ + " ORDER BY ord ASC"@);
}

/// A stored coverage document is read by the names that it is written under.
pub proof fn law_coverage_is_read_by_name(id: Seq<char>)
    ensures
        super::cache::load_view(id).sql == "SELECT "@ + listing(
            seq!["segments"@, "event_count"@, "asset_class"@],
        ) + " FROM coverage WHERE id = ?1"@,
        super::cache::load_view(id).params == seq![SqlValueView::Text(id)],
{
    reveal_strlit("segments");
    reveal_strlit("event_count");
    reveal_strlit("asset_class");
    reveal_strlit(", ");
    reveal_strlit("segments, event_count");
    reveal_strlit("segments, event_count, asset_class");
    reveal_strlit("SELECT ");
    reveal_strlit(" FROM coverage WHERE id = ?1");
    reveal_strlit("SELECT segments, event_count, asset_class FROM coverage WHERE id = ?1");
    assert(seq!["segments"@] =~= Seq::<Seq<char>>::empty().push("segments"@));
    lemma_listing_push(seq!["segments"@], "event_count"@);
    assert(seq!["segments"@].push("event_count"@) =~= seq!["segments"@, "event_count"@]);
    assert("segments"@ + ", "@ + "event_count"@ =~= "segments, event_count"@);
    lemma_listing_push(seq!["segments"@, "event_count"@], "asset_class"@);
    assert(seq!["segments"@, "event_count"@].push("asset_class"@)
        =~= seq!["segments"@, "event_count"@, "asset_class"@]);
    assert("segments, event_count"@ + ", "@ + "asset_class"@
        =~= "segments, event_count, asset_class"@);
    assert("SELECT segments, event_count, asset_class FROM coverage WHERE id = ?1"@ =~= "SELECT "@
        + "segments, event_count, asset_class"@ + " FROM coverage WHERE id = ?1"@);
}

// ---------------------------------------------------------------------------
// Tables
// ---------------------------------------------------------------------------

/// The log's own tables declare what is written into them: the registry a text
/// for each part of a stream, under the id, and the counters a number each.
pub proof fn law_the_logs_tables_declare_what_is_written()
    ensures
        super::tap_log::streams_schema_text() == "CREATE TABLE IF NOT EXISTS streams (id TEXT PRIMARY KEY, "@ + listing(
            declared(seq![
                "provider"@,
                "asset_class"@,
                "symbol"@,
                "kind_tag"@,
                "shard_table"@,
            ], " TEXT NOT NULL"@),
        ) + ")"@,
        super::tap_log::meta_schema_text() == "CREATE TABLE IF NOT EXISTS meta (id INTEGER PRIMARY KEY CHECK (id = 0), "@ + listing(
            declared(seq!["next_shard"@, "next_ord"@], " INTEGER NOT NULL"@),
        ) + ")"@,
{
    reveal_strlit("provider");
    reveal_strlit("asset_class");
    reveal_strlit("symbol");
    reveal_strlit("kind_tag");
    reveal_strlit("shard_table");
    reveal_strlit(" TEXT NOT NULL");
    reveal_strlit(", ");
    reveal_strlit("provider TEXT NOT NULL");
    reveal_strlit("asset_class TEXT NOT NULL");
    reveal_strlit("symbol TEXT NOT NULL");
    reveal_strlit("kind_tag TEXT NOT NULL");
    reveal_strlit("shard_table TEXT NOT NULL");
    reveal_strlit("provider TEXT NOT NULL, asset_class TEXT NOT NULL");
    reveal_strlit("provider TEXT NOT NULL, asset_class TEXT NOT NULL, symbol TEXT NOT NULL");
    reveal_strlit("provider TEXT NOT NULL, asset_class TEXT NOT NULL, symbol TEXT NOT NULL, kind_tag TEXT NOT NULL");
    reveal_strlit("provider TEXT NOT NULL, asset_class TEXT NOT NULL, symbol TEXT NOT NULL, kind_tag TEXT NOT NULL, shard_table TEXT NOT NULL");
    reveal_strlit("next_shard");
    reveal_strlit("next_ord");
    reveal_strlit(" INTEGER NOT NULL");
    reveal_strlit("next_shard INTEGER NOT NULL");
    reveal_strlit("next_ord INTEGER NOT NULL");
    reveal_strlit("next_shard INTEGER NOT NULL, next_ord INTEGER NOT NULL");
    reveal_strlit("CREATE TABLE IF NOT EXISTS streams (id TEXT PRIMARY KEY, ");
    reveal_strlit("CREATE TABLE IF NOT EXISTS meta (id INTEGER PRIMARY KEY CHECK (id = 0), ");
    reveal_strlit(")");
    reveal_strlit("CREATE TABLE IF NOT EXISTS streams (id TEXT PRIMARY KEY, provider TEXT NOT NULL, asset_class TEXT NOT NULL, symbol TEXT NOT NULL, kind_tag TEXT NOT NULL, shard_table TEXT NOT NULL)");
    reveal_strlit("CREATE TABLE IF NOT EXISTS meta (id INTEGER PRIMARY KEY CHECK (id = 0), next_shard INTEGER NOT NULL, next_ord INTEGER NOT NULL)");
    assert("provider"@ + " TEXT NOT NULL"@ =~= "provider TEXT NOT NULL"@);
    assert("asset_class"@ + " TEXT NOT NULL"@ =~= "asset_class TEXT NOT NULL"@);
    assert("symbol"@ + " TEXT NOT NULL"@ =~= "symbol TEXT NOT NULL"@);
    assert("kind_tag"@ + " TEXT NOT NULL"@ =~= "kind_tag TEXT NOT NULL"@);
    assert("shard_table"@ + " TEXT NOT NULL"@ =~= "shard_table TEXT NOT NULL"@);
    assert(declared(seq![
        "provider"@,
        "asset_class"@,
        "symbol"@,
        "kind_tag"@,
        "shard_table"@,
    ], " TEXT NOT NULL"@)
        =~= seq![
            "provider TEXT NOT NULL"@,
            "asset_class TEXT NOT NULL"@,
            "symbol TEXT NOT NULL"@,
            "kind_tag TEXT NOT NULL"@,
            "shard_table TEXT NOT NULL"@,
        ]);
    assert(seq!["provider TEXT NOT NULL"@]
        =~= Seq::<Seq<char>>::empty().push("provider TEXT NOT NULL"@));
    lemma_listing_push(seq!["provider TEXT NOT NULL"@], "asset_class TEXT NOT NULL"@);
    assert(seq!["provider TEXT NOT NULL"@].push("asset_class TEXT NOT NULL"@)
        =~= seq!["provider TEXT NOT NULL"@, "asset_class TEXT NOT NULL"@]);
    assert("provider TEXT NOT NULL"@ + ", "@ + "asset_class TEXT NOT NULL"@
        =~= "provider TEXT NOT NULL, asset_class TEXT NOT NULL"@);
    lemma_listing_push(
        seq!["provider TEXT NOT NULL"@, "asset_class TEXT NOT NULL"@],
        "symbol TEXT NOT NULL"@,
    );
    assert(seq!["provider TEXT NOT NULL"@, "asset_class TEXT NOT NULL"@].push("symbol TEXT NOT NULL"@)
        =~= seq!["provider TEXT NOT NULL"@, "asset_class TEXT NOT NULL"@, "symbol TEXT NOT NULL"@]);
    assert("provider TEXT NOT NULL, asset_class TEXT NOT NULL"@ + ", "@ + "symbol TEXT NOT NULL"@
        =~= "provider TEXT NOT NULL, asset_class TEXT NOT NULL, symbol TEXT NOT NULL"@);
    lemma_listing_push(
        seq!["provider TEXT NOT NULL"@, "asset_class TEXT NOT NULL"@, "symbol TEXT NOT NULL"@],
        "kind_tag TEXT NOT NULL"@,
    );
    assert(seq![
        "provider TEXT NOT NULL"@,
        "asset_class TEXT NOT NULL"@,
        "symbol TEXT NOT NULL"@,
    ].push("kind_tag TEXT NOT NULL"@)
        =~= seq![
            "provider TEXT NOT NULL"@,
            "asset_class TEXT NOT NULL"@,
            "symbol TEXT NOT NULL"@,
            "kind_tag TEXT NOT NULL"@,
        ]);
    assert("provider TEXT NOT NULL, asset_class TEXT NOT NULL, symbol TEXT NOT NULL"@ + ", "@ + "kind_tag TEXT NOT NULL"@
        =~= "provider TEXT NOT NULL, asset_class TEXT NOT NULL, symbol TEXT NOT NULL, kind_tag TEXT NOT NULL"@);
    lemma_listing_push(
        seq![
            "provider TEXT NOT NULL"@,
            "asset_class TEXT NOT NULL"@,
            "symbol TEXT NOT NULL"@,
            "kind_tag TEXT NOT NULL"@,
        ],
        "shard_table TEXT NOT NULL"@,
    );
    assert(seq![
        "provider TEXT NOT NULL"@,
        "asset_class TEXT NOT NULL"@,
        "symbol TEXT NOT NULL"@,
        "kind_tag TEXT NOT NULL"@,
    ].push("shard_table TEXT NOT NULL"@)
        =~= seq![
            "provider TEXT NOT NULL"@,
            "asset_class TEXT NOT NULL"@,
            "symbol TEXT NOT NULL"@,
            "kind_tag TEXT NOT NULL"@,
            "shard_table TEXT NOT NULL"@,
        ]);
    assert("provider TEXT NOT NULL, asset_class TEXT NOT NULL, symbol TEXT NOT NULL, kind_tag TEXT NOT NULL"@ + ", "@ + "shard_table TEXT NOT NULL"@
        =~= "provider TEXT NOT NULL, asset_class TEXT NOT NULL, symbol TEXT NOT NULL, kind_tag TEXT NOT NULL, shard_table TEXT NOT NULL"@);
    assert("next_shard"@ + " INTEGER NOT NULL"@ =~= "next_shard INTEGER NOT NULL"@);
    assert("next_ord"@ + " INTEGER NOT NULL"@ =~= "next_ord INTEGER NOT NULL"@);
    assert(declared(seq!["next_shard"@, "next_ord"@], " INTEGER NOT NULL"@)
        =~= seq!["next_shard INTEGER NOT NULL"@, "next_ord INTEGER NOT NULL"@]);
    assert(seq!["next_shard INTEGER NOT NULL"@]
        =~= Seq::<Seq<char>>::empty().push("next_shard INTEGER NOT NULL"@));
    lemma_listing_push(seq!["next_shard INTEGER NOT NULL"@], "next_ord INTEGER NOT NULL"@);
    assert(seq!["next_shard INTEGER NOT NULL"@].push("next_ord INTEGER NOT NULL"@)
        =~= seq!["next_shard INTEGER NOT NULL"@, "next_ord INTEGER NOT NULL"@]);
    assert("next_shard INTEGER NOT NULL"@ + ", "@ + "next_ord INTEGER NOT NULL"@
        =~= "next_shard INTEGER NOT NULL, next_ord INTEGER NOT NULL"@);
    assert("CREATE TABLE IF NOT EXISTS streams (id TEXT PRIMARY KEY, provider TEXT NOT NULL, asset_class TEXT NOT NULL, symbol TEXT NOT NULL, kind_tag TEXT NOT NULL, shard_table TEXT NOT NULL)"@
        =~= "CREATE TABLE IF NOT EXISTS streams (id TEXT PRIMARY KEY, "@ + "provider TEXT NOT NULL, asset_class TEXT NOT NULL, symbol TEXT NOT NULL, kind_tag TEXT NOT NULL, shard_table TEXT NOT NULL"@ + ")"@);
    assert("CREATE TABLE IF NOT EXISTS meta (id INTEGER PRIMARY KEY CHECK (id = 0), next_shard INTEGER NOT NULL, next_ord INTEGER NOT NULL)"@
        =~= "CREATE TABLE IF NOT EXISTS meta (id INTEGER PRIMARY KEY CHECK (id = 0), "@ + "next_shard INTEGER NOT NULL, next_ord INTEGER NOT NULL"@ + ")"@);
}

/// The definition of a table of the document store.
pub open spec fn definition(table: Seq<char>) -> Seq<char> {
    "DEFINE TABLE IF NOT EXISTS "@ + table + " SCHEMALESS;"@
}

/// Definitions with spaces between them.
pub open spec fn definitions(tables: Seq<Seq<char>>) -> Seq<char>
    decreases tables.len(),
{
    if tables.len() == 0 {
        seq![]
    } else if tables.len() == 1 {
        definition(tables[0])
    } else {
        definitions(tables.drop_last()) + " "@ + definition(tables.last())
    }
}

proof fn lemma_definitions_push(tables: Seq<Seq<char>>, x: Seq<char>)
    requires
        tables.len() > 0,
    ensures
        definitions(tables.push(x)) == definitions(tables) + " "@ + definition(x),
{
    assert(tables.push(x).drop_last() =~= tables);
}

/// The document store's cache defines a table for the coverage and one for each
/// kind of event, and its tap log one for the counters and one for the streams.
pub proof fn law_documents_have_their_tables_defined()
    ensures
        super::surreal::cache_definitions_text() == definitions(
            seq!["coverage"@] + Seq::new(
                super::cache::all_kinds().len(),
                |i: int| table_name(super::cache::all_kinds()[i]),
            ),
        ),
        super::surreal::tap_definitions_text() == definitions(seq!["meta"@, "streams"@]),
{
    reveal_strlit("DEFINE TABLE IF NOT EXISTS ");
    reveal_strlit(" SCHEMALESS;");
    reveal_strlit(" ");
    reveal_strlit("coverage");
    reveal_strlit("trades");
    reveal_strlit("quotes");
    reveal_strlit("bars_1s");
    reveal_strlit("bars_1m");
    reveal_strlit("bars_5m");
    reveal_strlit("bars_15m");
    reveal_strlit("bars_1h");
    reveal_strlit("bars_1d");
    reveal_strlit("DEFINE TABLE IF NOT EXISTS coverage SCHEMALESS;");
    reveal_strlit("DEFINE TABLE IF NOT EXISTS trades SCHEMALESS;");
    reveal_strlit("DEFINE TABLE IF NOT EXISTS quotes SCHEMALESS;");
    reveal_strlit("DEFINE TABLE IF NOT EXISTS bars_1s SCHEMALESS;");
    reveal_strlit("DEFINE TABLE IF NOT EXISTS bars_1m SCHEMALESS;");
    reveal_strlit("DEFINE TABLE IF NOT EXISTS bars_5m SCHEMALESS;");
    reveal_strlit("DEFINE TABLE IF NOT EXISTS bars_15m SCHEMALESS;");
    reveal_strlit("DEFINE TABLE IF NOT EXISTS bars_1h SCHEMALESS;");
    reveal_strlit("DEFINE TABLE IF NOT EXISTS bars_1d SCHEMALESS;");
    reveal_strlit("DEFINE TABLE IF NOT EXISTS coverage SCHEMALESS; DEFINE TABLE IF NOT EXISTS trades SCHEMALESS;");
    reveal_strlit("DEFINE TABLE IF NOT EXISTS coverage SCHEMALESS; DEFINE TABLE IF NOT EXISTS trades SCHEMALESS; DEFINE TABLE IF NOT EXISTS quotes SCHEMALESS;");
    reveal_strlit("DEFINE TABLE IF NOT EXISTS coverage SCHEMALESS; DEFINE TABLE IF NOT EXISTS trades SCHEMALESS; DEFINE TABLE IF NOT EXISTS quotes SCHEMALESS; DEFINE TABLE IF NOT EXISTS bars_1s SCHEMALESS;");
    reveal_strlit("DEFINE TABLE IF NOT EXISTS coverage SCHEMALESS; DEFINE TABLE IF NOT EXISTS trades SCHEMALESS; DEFINE TABLE IF NOT EXISTS quotes SCHEMALESS; DEFINE TABLE IF NOT EXISTS bars_1s SCHEMALESS; DEFINE TABLE IF NOT EXISTS bars_1m SCHEMALESS;");
    reveal_strlit("DEFINE TABLE IF NOT EXISTS coverage SCHEMALESS; DEFINE TABLE IF NOT EXISTS trades SCHEMALESS; DEFINE TABLE IF NOT EXISTS quotes SCHEMALESS; DEFINE TABLE IF NOT EXISTS bars_1s SCHEMALESS; DEFINE TABLE IF NOT EXISTS bars_1m SCHEMALESS; DEFINE TABLE IF NOT EXISTS bars_5m SCHEMALESS;");
    reveal_strlit("DEFINE TABLE IF NOT EXISTS coverage SCHEMALESS; DEFINE TABLE IF NOT EXISTS trades SCHEMALESS; DEFINE TABLE IF NOT EXISTS quotes SCHEMALESS; DEFINE TABLE IF NOT EXISTS bars_1s SCHEMALESS; DEFINE TABLE IF NOT EXISTS bars_1m SCHEMALESS; DEFINE TABLE IF NOT EXISTS bars_5m SCHEMALESS; DEFINE TABLE IF NOT EXISTS bars_15m SCHEMALESS;");
    reveal_strlit("DEFINE TABLE IF NOT EXISTS coverage SCHEMALESS; DEFINE TABLE IF NOT EXISTS trades SCHEMALESS; DEFINE TABLE IF NOT EXISTS quotes SCHEMALESS; DEFINE TABLE IF NOT EXISTS bars_1s SCHEMALESS; DEFINE TABLE IF NOT EXISTS bars_1m SCHEMALESS; DEFINE TABLE IF NOT EXISTS bars_5m SCHEMALESS; DEFINE TABLE IF NOT EXISTS bars_15m SCHEMALESS; DEFINE TABLE IF NOT EXISTS bars_1h SCHEMALESS;");
    reveal_strlit("DEFINE TABLE IF NOT EXISTS coverage SCHEMALESS; DEFINE TABLE IF NOT EXISTS trades SCHEMALESS; DEFINE TABLE IF NOT EXISTS quotes SCHEMALESS; DEFINE TABLE IF NOT EXISTS bars_1s SCHEMALESS; DEFINE TABLE IF NOT EXISTS bars_1m SCHEMALESS; DEFINE TABLE IF NOT EXISTS bars_5m SCHEMALESS; DEFINE TABLE IF NOT EXISTS bars_15m SCHEMALESS; DEFINE TABLE IF NOT EXISTS bars_1h SCHEMALESS; DEFINE TABLE IF NOT EXISTS bars_1d SCHEMALESS;");
    reveal_strlit("meta");
    reveal_strlit("streams");
    reveal_strlit("DEFINE TABLE IF NOT EXISTS meta SCHEMALESS;");
    reveal_strlit("DEFINE TABLE IF NOT EXISTS streams SCHEMALESS;");
    reveal_strlit("DEFINE TABLE IF NOT EXISTS meta SCHEMALESS; DEFINE TABLE IF NOT EXISTS streams SCHEMALESS;");
    assert(definition("coverage"@) =~= "DEFINE TABLE IF NOT EXISTS coverage SCHEMALESS;"@);
    assert(definition("trades"@) =~= "DEFINE TABLE IF NOT EXISTS trades SCHEMALESS;"@);
    assert(definition("quotes"@) =~= "DEFINE TABLE IF NOT EXISTS quotes SCHEMALESS;"@);
    assert(definition("bars_1s"@) =~= "DEFINE TABLE IF NOT EXISTS bars_1s SCHEMALESS;"@);
    assert(definition("bars_1m"@) =~= "DEFINE TABLE IF NOT EXISTS bars_1m SCHEMALESS;"@);
    assert(definition("bars_5m"@) =~= "DEFINE TABLE IF NOT EXISTS bars_5m SCHEMALESS;"@);
    assert(definition("bars_15m"@) =~= "DEFINE TABLE IF NOT EXISTS bars_15m SCHEMALESS;"@);
    assert(definition("bars_1h"@) =~= "DEFINE TABLE IF NOT EXISTS bars_1h SCHEMALESS;"@);
    assert(definition("bars_1d"@) =~= "DEFINE TABLE IF NOT EXISTS bars_1d SCHEMALESS;"@);
    assert(definitions(seq!["coverage"@]) == "DEFINE TABLE IF NOT EXISTS coverage SCHEMALESS;"@);
    lemma_definitions_push(seq!["coverage"@], "trades"@);
    assert(seq!["coverage"@].push("trades"@) =~= seq!["coverage"@, "trades"@]);
    assert("DEFINE TABLE IF NOT EXISTS coverage SCHEMALESS;"@ + " "@ + "DEFINE TABLE IF NOT EXISTS trades SCHEMALESS;"@
        =~= "DEFINE TABLE IF NOT EXISTS coverage SCHEMALESS; DEFINE TABLE IF NOT EXISTS trades SCHEMALESS;"@);
    lemma_definitions_push(seq!["coverage"@, "trades"@], "quotes"@);
    assert(seq!["coverage"@, "trades"@].push("quotes"@)
        =~= seq!["coverage"@, "trades"@, "quotes"@]);
    assert("DEFINE TABLE IF NOT EXISTS coverage SCHEMALESS; DEFINE TABLE IF NOT EXISTS trades SCHEMALESS;"@ + " "@ + "DEFINE TABLE IF NOT EXISTS quotes SCHEMALESS;"@
        =~= "DEFINE TABLE IF NOT EXISTS coverage SCHEMALESS; DEFINE TABLE IF NOT EXISTS trades SCHEMALESS; DEFINE TABLE IF NOT EXISTS quotes SCHEMALESS;"@);
    lemma_definitions_push(seq!["coverage"@, "trades"@, "quotes"@], "bars_1s"@);
    assert(seq!["coverage"@, "trades"@, "quotes"@].push("bars_1s"@)
        =~= seq!["coverage"@, "trades"@, "quotes"@, "bars_1s"@]);
    assert("DEFINE TABLE IF NOT EXISTS coverage SCHEMALESS; DEFINE TABLE IF NOT EXISTS trades SCHEMALESS; DEFINE TABLE IF NOT EXISTS quotes SCHEMALESS;"@ + " "@ + "DEFINE TABLE IF NOT EXISTS bars_1s SCHEMALESS;"@
        =~= "DEFINE TABLE IF NOT EXISTS coverage SCHEMALESS; DEFINE TABLE IF NOT EXISTS trades SCHEMALESS; DEFINE TABLE IF NOT EXISTS quotes SCHEMALESS; DEFINE TABLE IF NOT EXISTS bars_1s SCHEMALESS;"@);
    lemma_definitions_push(seq!["coverage"@, "trades"@, "quotes"@, "bars_1s"@], "bars_1m"@);
    assert(seq!["coverage"@, "trades"@, "quotes"@, "bars_1s"@].push("bars_1m"@)
        =~= seq!["coverage"@, "trades"@, "quotes"@, "bars_1s"@, "bars_1m"@]);
    assert("DEFINE TABLE IF NOT EXISTS coverage SCHEMALESS; DEFINE TABLE IF NOT EXISTS trades SCHEMALESS; DEFINE TABLE IF NOT EXISTS quotes SCHEMALESS; DEFINE TABLE IF NOT EXISTS bars_1s SCHEMALESS;"@ + " "@ + "DEFINE TABLE IF NOT EXISTS bars_1m SCHEMALESS;"@
        =~= "DEFINE TABLE IF NOT EXISTS coverage SCHEMALESS; DEFINE TABLE IF NOT EXISTS trades SCHEMALESS; DEFINE TABLE IF NOT EXISTS quotes SCHEMALESS; DEFINE TABLE IF NOT EXISTS bars_1s SCHEMALESS; DEFINE TABLE IF NOT EXISTS bars_1m SCHEMALESS;"@);
    lemma_definitions_push(
        seq!["coverage"@, "trades"@, "quotes"@, "bars_1s"@, "bars_1m"@],
        "bars_5m"@,
    );
    assert(seq!["coverage"@, "trades"@, "quotes"@, "bars_1s"@, "bars_1m"@].push("bars_5m"@)
        =~= seq!["coverage"@, "trades"@, "quotes"@, "bars_1s"@, "bars_1m"@, "bars_5m"@]);
    assert("DEFINE TABLE IF NOT EXISTS coverage SCHEMALESS; DEFINE TABLE IF NOT EXISTS trades SCHEMALESS; DEFINE TABLE IF NOT EXISTS quotes SCHEMALESS; DEFINE TABLE IF NOT EXISTS bars_1s SCHEMALESS; DEFINE TABLE IF NOT EXISTS bars_1m SCHEMALESS;"@ + " "@ + "DEFINE TABLE IF NOT EXISTS bars_5m SCHEMALESS;"@
        =~= "DEFINE TABLE IF NOT EXISTS coverage SCHEMALESS; DEFINE TABLE IF NOT EXISTS trades SCHEMALESS; DEFINE TABLE IF NOT EXISTS quotes SCHEMALESS; DEFINE TABLE IF NOT EXISTS bars_1s SCHEMALESS; DEFINE TABLE IF NOT EXISTS bars_1m SCHEMALESS; DEFINE TABLE IF NOT EXISTS bars_5m SCHEMALESS;"@);
    lemma_definitions_push(
        seq!["coverage"@, "trades"@, "quotes"@, "bars_1s"@, "bars_1m"@, "bars_5m"@],
        "bars_15m"@,
    );
    assert(seq!["coverage"@, "trades"@, "quotes"@, "bars_1s"@, "bars_1m"@, "bars_5m"@].push("bars_15m"@)
        =~= seq!["coverage"@, "trades"@, "quotes"@, "bars_1s"@, "bars_1m"@, "bars_5m"@, "bars_15m"@]);
    assert("DEFINE TABLE IF NOT EXISTS coverage SCHEMALESS; DEFINE TABLE IF NOT EXISTS trades SCHEMALESS; DEFINE TABLE IF NOT EXISTS quotes SCHEMALESS; DEFINE TABLE IF NOT EXISTS bars_1s SCHEMALESS; DEFINE TABLE IF NOT EXISTS bars_1m SCHEMALESS; DEFINE TABLE IF NOT EXISTS bars_5m SCHEMALESS;"@ + " "@ + "DEFINE TABLE IF NOT EXISTS bars_15m SCHEMALESS;"@
        =~= "DEFINE TABLE IF NOT EXISTS coverage SCHEMALESS; DEFINE TABLE IF NOT EXISTS trades SCHEMALESS; DEFINE TABLE IF NOT EXISTS quotes SCHEMALESS; DEFINE TABLE IF NOT EXISTS bars_1s SCHEMALESS; DEFINE TABLE IF NOT EXISTS bars_1m SCHEMALESS; DEFINE TABLE IF NOT EXISTS bars_5m SCHEMALESS; DEFINE TABLE IF NOT EXISTS bars_15m SCHEMALESS;"@);
    lemma_definitions_push(
        seq!["coverage"@, "trades"@, "quotes"@, "bars_1s"@, "bars_1m"@, "bars_5m"@, "bars_15m"@],
        "bars_1h"@,
    );
    assert(seq![
        "coverage"@,
        "trades"@,
        "quotes"@,
        "bars_1s"@,
        "bars_1m"@,
        "bars_5m"@,
        "bars_15m"@,
    ].push("bars_1h"@)
        =~= seq![
            "coverage"@,
            "trades"@,
            "quotes"@,
            "bars_1s"@,
            "bars_1m"@,
            "bars_5m"@,
            "bars_15m"@,
            "bars_1h"@,
        ]);
    assert("DEFINE TABLE IF NOT EXISTS coverage SCHEMALESS; DEFINE TABLE IF NOT EXISTS trades SCHEMALESS; DEFINE TABLE IF NOT EXISTS quotes SCHEMALESS; DEFINE TABLE IF NOT EXISTS bars_1s SCHEMALESS; DEFINE TABLE IF NOT EXISTS bars_1m SCHEMALESS; DEFINE TABLE IF NOT EXISTS bars_5m SCHEMALESS; DEFINE TABLE IF NOT EXISTS bars_15m SCHEMALESS;"@ + " "@ + "DEFINE TABLE IF NOT EXISTS bars_1h SCHEMALESS;"@
        =~= "DEFINE TABLE IF NOT EXISTS coverage SCHEMALESS; DEFINE TABLE IF NOT EXISTS trades SCHEMALESS; DEFINE TABLE IF NOT EXISTS quotes SCHEMALESS; DEFINE TABLE IF NOT EXISTS bars_1s SCHEMALESS; DEFINE TABLE IF NOT EXISTS bars_1m SCHEMALESS; DEFINE TABLE IF NOT EXISTS bars_5m SCHEMALESS; DEFINE TABLE IF NOT EXISTS bars_15m SCHEMALESS; DEFINE TABLE IF NOT EXISTS bars_1h SCHEMALESS;"@);
    lemma_definitions_push(
        seq![
            "coverage"@,
            "trades"@,
            "quotes"@,
            "bars_1s"@,
            "bars_1m"@,
            "bars_5m"@,
            "bars_15m"@,
            "bars_1h"@,
        ],
        "bars_1d"@,
    );
    assert(seq![
        "coverage"@,
        "trades"@,
        "quotes"@,
        "bars_1s"@,
        "bars_1m"@,
        "bars_5m"@,
        "bars_15m"@,
        "bars_1h"@,
    ].push("bars_1d"@)
        =~= seq![
            "coverage"@,
            "trades"@,
            "quotes"@,
            "bars_1s"@,
            "bars_1m"@,
            "bars_5m"@,
            "bars_15m"@,
            "bars_1h"@,
            "bars_1d"@,
        ]);
    assert("DEFINE TABLE IF NOT EXISTS coverage SCHEMALESS; DEFINE TABLE IF NOT EXISTS trades SCHEMALESS; DEFINE TABLE IF NOT EXISTS quotes SCHEMALESS; DEFINE TABLE IF NOT EXISTS bars_1s SCHEMALESS; DEFINE TABLE IF NOT EXISTS bars_1m SCHEMALESS; DEFINE TABLE IF NOT EXISTS bars_5m SCHEMALESS; DEFINE TABLE IF NOT EXISTS bars_15m SCHEMALESS; DEFINE TABLE IF NOT EXISTS bars_1h SCHEMALESS;"@ + " "@ + "DEFINE TABLE IF NOT EXISTS bars_1d SCHEMALESS;"@
        =~= "DEFINE TABLE IF NOT EXISTS coverage SCHEMALESS; DEFINE TABLE IF NOT EXISTS trades SCHEMALESS; DEFINE TABLE IF NOT EXISTS quotes SCHEMALESS; DEFINE TABLE IF NOT EXISTS bars_1s SCHEMALESS; DEFINE TABLE IF NOT EXISTS bars_1m SCHEMALESS; DEFINE TABLE IF NOT EXISTS bars_5m SCHEMALESS; DEFINE TABLE IF NOT EXISTS bars_15m SCHEMALESS; DEFINE TABLE IF NOT EXISTS bars_1h SCHEMALESS; DEFINE TABLE IF NOT EXISTS bars_1d SCHEMALESS;"@);
    assert(definition("meta"@) =~= "DEFINE TABLE IF NOT EXISTS meta SCHEMALESS;"@);
    assert(definition("streams"@) =~= "DEFINE TABLE IF NOT EXISTS streams SCHEMALESS;"@);
    assert(definitions(seq!["meta"@]) == "DEFINE TABLE IF NOT EXISTS meta SCHEMALESS;"@);
    lemma_definitions_push(seq!["meta"@], "streams"@);
    assert(seq!["meta"@].push("streams"@) =~= seq!["meta"@, "streams"@]);
    assert("DEFINE TABLE IF NOT EXISTS meta SCHEMALESS;"@ + " "@ + "DEFINE TABLE IF NOT EXISTS streams SCHEMALESS;"@
        =~= "DEFINE TABLE IF NOT EXISTS meta SCHEMALESS; DEFINE TABLE IF NOT EXISTS streams SCHEMALESS;"@);
    assert(seq!["coverage"@] + Seq::new(
        super::cache::all_kinds().len(),
        |i: int| table_name(super::cache::all_kinds()[i]),
    ) =~= seq![
        "coverage"@,
        "trades"@,
        "quotes"@,
        "bars_1s"@,
        "bars_1m"@,
        "bars_5m"@,
        "bars_15m"@,
        "bars_1h"@,
        "bars_1d"@,
    ]);
}

} // verus!
