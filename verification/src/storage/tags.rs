//! Names of kinds, asset classes and adjustment modes on disk.

use vstd::prelude::*;

use crate::event::{Adjustment, AssetClass, BarInterval, EventKind};
use crate::text::same_text;

verus! {

/// Cache table of a kind.
pub open spec fn table_name(kind: EventKind) -> Seq<char> {
    match kind {
        EventKind::Trade => "trades"@,
        EventKind::Quote => "quotes"@,
        EventKind::Bar(BarInterval::OneSecond) => "bars_1s"@,
        EventKind::Bar(BarInterval::OneMinute) => "bars_1m"@,
        EventKind::Bar(BarInterval::FiveMinute) => "bars_5m"@,
        EventKind::Bar(BarInterval::FifteenMinute) => "bars_15m"@,
        EventKind::Bar(BarInterval::OneHour) => "bars_1h"@,
        EventKind::Bar(BarInterval::OneDay) => "bars_1d"@,
    }
}

pub fn table_for(kind: EventKind) -> (r: &'static str)
    ensures
        r@ == table_name(kind),
{
    match kind {
        EventKind::Trade => "trades",
        EventKind::Quote => "quotes",
        EventKind::Bar(BarInterval::OneSecond) => "bars_1s",
        EventKind::Bar(BarInterval::OneMinute) => "bars_1m",
        EventKind::Bar(BarInterval::FiveMinute) => "bars_5m",
        EventKind::Bar(BarInterval::FifteenMinute) => "bars_15m",
        EventKind::Bar(BarInterval::OneHour) => "bars_1h",
        EventKind::Bar(BarInterval::OneDay) => "bars_1d",
    }
}

/// Tap-log tag of a kind.
pub open spec fn kind_tag_text(kind: EventKind) -> Seq<char> {
    match kind {
        EventKind::Trade => "trade"@,
        EventKind::Quote => "quote"@,
        EventKind::Bar(BarInterval::OneSecond) => "bar_1s"@,
        EventKind::Bar(BarInterval::OneMinute) => "bar_1m"@,
        EventKind::Bar(BarInterval::FiveMinute) => "bar_5m"@,
        EventKind::Bar(BarInterval::FifteenMinute) => "bar_15m"@,
        EventKind::Bar(BarInterval::OneHour) => "bar_1h"@,
        EventKind::Bar(BarInterval::OneDay) => "bar_1d"@,
    }
}

pub fn kind_tag(kind: EventKind) -> (r: &'static str)
    ensures
        r@ == kind_tag_text(kind),
{
    match kind {
        EventKind::Trade => "trade",
        EventKind::Quote => "quote",
        EventKind::Bar(BarInterval::OneSecond) => "bar_1s",
        EventKind::Bar(BarInterval::OneMinute) => "bar_1m",
        EventKind::Bar(BarInterval::FiveMinute) => "bar_5m",
        EventKind::Bar(BarInterval::FifteenMinute) => "bar_15m",
        EventKind::Bar(BarInterval::OneHour) => "bar_1h",
        EventKind::Bar(BarInterval::OneDay) => "bar_1d",
    }
}

/// On-disk name of an asset class.
pub open spec fn asset_class_text(class: AssetClass) -> Seq<char> {
    match class {
        AssetClass::Equity => "equity"@,
        AssetClass::Etf => "etf"@,
        AssetClass::Crypto => "crypto"@,
    }
}

pub fn asset_class_tag(class: AssetClass) -> (r: &'static str)
    ensures
        r@ == asset_class_text(class),
{
    match class {
        AssetClass::Equity => "equity",
        AssetClass::Etf => "etf",
        AssetClass::Crypto => "crypto",
    }
}

/// On-disk name of an adjustment mode.
pub open spec fn adjustment_text(adjustment: Adjustment) -> Seq<char> {
    match adjustment {
        Adjustment::Raw => "raw"@,
        Adjustment::Split => "split"@,
        Adjustment::Dividend => "dividend"@,
        Adjustment::SpinOff => "spin-off"@,
        Adjustment::All => "all"@,
    }
}

impl Adjustment {
    pub fn as_str(self) -> (r: &'static str)
        ensures
            r@ == adjustment_text(self),
    {
        match self {
            Adjustment::Raw => "raw",
            Adjustment::Split => "split",
            Adjustment::Dividend => "dividend",
            Adjustment::SpinOff => "spin-off",
            Adjustment::All => "all",
        }
    }

    /// The mode of that name; `None` for any other text.
    pub fn from_token(token: &str) -> (r: Option<Adjustment>)
        ensures
            r matches Some(a) ==> adjustment_text(a) == token@,
            r is None ==> forall|a: Adjustment| #[trigger] adjustment_text(a) != token@,
    {
        if same_text(token, "raw") {
            Some(Adjustment::Raw)
        } else if same_text(token, "split") {
            Some(Adjustment::Split)
        } else if same_text(token, "dividend") {
            Some(Adjustment::Dividend)
        } else if same_text(token, "spin-off") {
            Some(Adjustment::SpinOff)
        } else if same_text(token, "all") {
            Some(Adjustment::All)
        } else {
            None
        }
    }
}

/// The kind whose cache table has that name; `None` for any other text.
pub fn kind_for(table: &str) -> (r: Option<EventKind>)
    ensures
        r matches Some(k) ==> table_name(k) == table@,
        r is None ==> forall|k: EventKind| #[trigger] table_name(k) != table@,
{
    if same_text(table, "trades") {
        Some(EventKind::Trade)
    } else if same_text(table, "quotes") {
        Some(EventKind::Quote)
    } else if same_text(table, "bars_1s") {
        Some(EventKind::Bar(BarInterval::OneSecond))
    } else if same_text(table, "bars_1m") {
        Some(EventKind::Bar(BarInterval::OneMinute))
    } else if same_text(table, "bars_5m") {
        Some(EventKind::Bar(BarInterval::FiveMinute))
    } else if same_text(table, "bars_15m") {
        Some(EventKind::Bar(BarInterval::FifteenMinute))
    } else if same_text(table, "bars_1h") {
        Some(EventKind::Bar(BarInterval::OneHour))
    } else if same_text(table, "bars_1d") {
        Some(EventKind::Bar(BarInterval::OneDay))
    } else {
        None
    }
}

/// The kind of that tap-log tag; `None` for any other text.
pub fn kind_from_tag(tag: &str) -> (r: Option<EventKind>)
    ensures
        r matches Some(k) ==> kind_tag_text(k) == tag@,
        r is None ==> forall|k: EventKind| #[trigger] kind_tag_text(k) != tag@,
{
    if same_text(tag, "trade") {
        Some(EventKind::Trade)
    } else if same_text(tag, "quote") {
        Some(EventKind::Quote)
    } else if same_text(tag, "bar_1s") {
        Some(EventKind::Bar(BarInterval::OneSecond))
    } else if same_text(tag, "bar_1m") {
        Some(EventKind::Bar(BarInterval::OneMinute))
    } else if same_text(tag, "bar_5m") {
        Some(EventKind::Bar(BarInterval::FiveMinute))
    } else if same_text(tag, "bar_15m") {
        Some(EventKind::Bar(BarInterval::FifteenMinute))
    } else if same_text(tag, "bar_1h") {
        Some(EventKind::Bar(BarInterval::OneHour))
    } else if same_text(tag, "bar_1d") {
        Some(EventKind::Bar(BarInterval::OneDay))
    } else {
        None
    }
}

/// The asset class of that name; `None` for any other text.
pub fn asset_class_from_tag(tag: &str) -> (r: Option<AssetClass>)
    ensures
        r matches Some(c) ==> asset_class_text(c) == tag@,
        r is None ==> forall|c: AssetClass| #[trigger] asset_class_text(c) != tag@,
{
    if same_text(tag, "equity") {
        Some(AssetClass::Equity)
    } else if same_text(tag, "etf") {
        Some(AssetClass::Etf)
    } else if same_text(tag, "crypto") {
        Some(AssetClass::Crypto)
    } else {
        None
    }
}

/// No two kinds share a cache table, so a table's name gives its kind back.
pub proof fn law_table_names_are_distinct(a: EventKind, b: EventKind)
    requires
        table_name(a) == table_name(b),
    ensures
        a == b,
{
    lemma_table_texts();
}

proof fn lemma_table_texts()
    ensures
        "trades"@.len() == 6 && "trades"@[0] == 't',
        "quotes"@.len() == 6 && "quotes"@[0] == 'q',
        "bars_1s"@.len() == 7 && "bars_1s"@[0] == 'b' && "bars_1s"@[5] == '1' && "bars_1s"@[6]
            == 's',
        "bars_1m"@.len() == 7 && "bars_1m"@[0] == 'b' && "bars_1m"@[5] == '1' && "bars_1m"@[6]
            == 'm',
        "bars_5m"@.len() == 7 && "bars_5m"@[0] == 'b' && "bars_5m"@[5] == '5' && "bars_5m"@[6]
            == 'm',
        "bars_15m"@.len() == 8,
        "bars_1h"@.len() == 7 && "bars_1h"@[0] == 'b' && "bars_1h"@[5] == '1' && "bars_1h"@[6]
            == 'h',
        "bars_1d"@.len() == 7 && "bars_1d"@[0] == 'b' && "bars_1d"@[5] == '1' && "bars_1d"@[6]
            == 'd',
{
    reveal_strlit("trades");
    reveal_strlit("quotes");
    reveal_strlit("bars_1s");
    reveal_strlit("bars_1m");
    reveal_strlit("bars_5m");
    reveal_strlit("bars_15m");
    reveal_strlit("bars_1h");
    reveal_strlit("bars_1d");
}

/// No two kinds share a tap-log tag.
pub proof fn law_kind_tags_are_distinct(a: EventKind, b: EventKind)
    requires
        kind_tag_text(a) == kind_tag_text(b),
    ensures
        a == b,
{
    reveal_strlit("trade");
    reveal_strlit("quote");
    reveal_strlit("bar_1s");
    reveal_strlit("bar_1m");
    reveal_strlit("bar_5m");
    reveal_strlit("bar_15m");
    reveal_strlit("bar_1h");
    reveal_strlit("bar_1d");
    assert("trade"@[0] == 't' && "quote"@[0] == 'q');
    assert("bar_1s"@[5] == 's' && "bar_1m"@[5] == 'm' && "bar_1h"@[5] == 'h' && "bar_1d"@[5] == 'd'
        && "bar_5m"@[5] == 'm');
    assert("bar_1m"@[4] == '1' && "bar_5m"@[4] == '5');
}

/// No two asset classes share a name.
pub proof fn law_asset_class_tags_are_distinct(a: AssetClass, b: AssetClass)
    requires
        asset_class_text(a) == asset_class_text(b),
    ensures
        a == b,
{
    reveal_strlit("equity");
    reveal_strlit("etf");
    reveal_strlit("crypto");
    assert("equity"@.len() == 6 && "etf"@.len() == 3 && "crypto"@.len() == 6);
    assert("equity"@[0] == 'e' && "crypto"@[0] == 'c');
}

/// No two adjustment modes share a name.
pub proof fn law_adjustment_names_are_distinct(a: Adjustment, b: Adjustment)
    requires
        adjustment_text(a) == adjustment_text(b),
    ensures
        a == b,
{
    reveal_strlit("raw");
    reveal_strlit("split");
    reveal_strlit("dividend");
    reveal_strlit("spin-off");
    reveal_strlit("all");
    assert("raw"@.len() == 3 && "all"@.len() == 3 && "split"@.len() == 5);
    assert("dividend"@.len() == 8 && "spin-off"@.len() == 8);
    assert("raw"@[0] == 'r' && "all"@[0] == 'a');
    assert("dividend"@[0] == 'd' && "spin-off"@[0] == 's');
}

/// No table name, adjustment name or asset class name has a bar in it.
pub proof fn lemma_names_are_bar_free(kind: EventKind, adjustment: Adjustment)
    ensures
        crate::text::bar_free(table_name(kind)),
        crate::text::bar_free(adjustment_text(adjustment)),
{
    reveal_strlit("trades");
    reveal_strlit("quotes");
    reveal_strlit("bars_1s");
    reveal_strlit("bars_1m");
    reveal_strlit("bars_5m");
    reveal_strlit("bars_15m");
    reveal_strlit("bars_1h");
    reveal_strlit("bars_1d");
    reveal_strlit("raw");
    reveal_strlit("split");
    reveal_strlit("dividend");
    reveal_strlit("spin-off");
    reveal_strlit("all");
}

/// How many seconds a unit of a bar's length lasts.
pub open spec fn unit_seconds(unit: char) -> int {
    if unit == 's' {
        1
    } else if unit == 'm' {
        60
    } else if unit == 'h' {
        3_600
    } else {
        86_400
    }
}

/// The length of a bar as a number of units.
pub open spec fn bar_length(interval: BarInterval) -> (nat, char) {
    match interval {
        BarInterval::OneSecond => (1, 's'),
        BarInterval::OneMinute => (1, 'm'),
        BarInterval::FiveMinute => (5, 'm'),
        BarInterval::FifteenMinute => (15, 'm'),
        BarInterval::OneHour => (1, 'h'),
        BarInterval::OneDay => (1, 'd'),
    }
}

/// The tables and the tags of bars spell how long the bars last.
pub proof fn law_bar_names_spell_their_length(i: BarInterval)
    ensures
        ({
            let (n, unit) = bar_length(i);
            &&& table_name(EventKind::Bar(i)) == "bars_"@ + crate::text::decimal(n) + seq![unit]
            &&& kind_tag_text(EventKind::Bar(i)) == "bar_"@ + crate::text::decimal(n) + seq![unit]
            &&& n * unit_seconds(unit) == crate::providers::alpaca::history::interval_seconds(i)
            &&& unit == 's' || unit == 'm' || unit == 'h' || unit == 'd'
        }),
{
    reveal_strlit("bars_");
    reveal_strlit("bar_");
    reveal_strlit("bars_1s");
    reveal_strlit("bars_1m");
    reveal_strlit("bars_5m");
    reveal_strlit("bars_15m");
    reveal_strlit("bars_1h");
    reveal_strlit("bars_1d");
    reveal_strlit("bar_1s");
    reveal_strlit("bar_1m");
    reveal_strlit("bar_5m");
    reveal_strlit("bar_15m");
    reveal_strlit("bar_1h");
    reveal_strlit("bar_1d");
    reveal_with_fuel(crate::text::decimal, 3);
    let (n, unit) = bar_length(i);
    assert(table_name(EventKind::Bar(i)) =~= "bars_"@ + crate::text::decimal(n) + seq![unit]);
    assert(kind_tag_text(EventKind::Bar(i)) =~= "bar_"@ + crate::text::decimal(n) + seq![unit]);
}

/// Trades and quotes, asset classes and modes are spelled by their own names.
pub proof fn law_tokens_spell_what_they_stand_for(
    kind: EventKind,
    class: AssetClass,
    mode: Adjustment,
)
    ensures
        kind is Trade ==> table_name(kind) == "trades"@ && kind_tag_text(kind) == "trade"@,
        kind is Quote ==> table_name(kind) == "quotes"@ && kind_tag_text(kind) == "quote"@,
        class is Equity ==> asset_class_text(class) == "equity"@,
        class is Etf ==> asset_class_text(class) == "etf"@,
        class is Crypto ==> asset_class_text(class) == "crypto"@,
        mode is Raw ==> adjustment_text(mode) == "raw"@,
        mode is Split ==> adjustment_text(mode) == "split"@,
        mode is Dividend ==> adjustment_text(mode) == "dividend"@,
        mode is SpinOff ==> adjustment_text(mode) == "spin-off"@,
        mode is All ==> adjustment_text(mode) == "all"@,
{
}

} // verus!
