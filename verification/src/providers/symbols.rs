//! Symbol lists of a subscription message.

use vstd::prelude::*;

use crate::text::same_text;

verus! {

/// The texts of a list of strings.
pub open spec fn texts_of(v: Seq<String>) -> Seq<Seq<char>> {
    Seq::new(v.len(), |i: int| v[i]@)
}

/// The value of a field: the symbols that it lists, or that it is absent.
pub open spec fn channel_of(field: Option<Vec<String>>) -> Option<Seq<Seq<char>>> {
    match field {
        Some(v) => Some(texts_of(v@)),
        None => None,
    }
}

/// The symbols of a channel; an absent channel has none.
pub open spec fn symbols_in(channel: Option<Seq<Seq<char>>>) -> Seq<Seq<char>> {
    match channel {
        Some(list) => list,
        None => seq![],
    }
}

/// Whether a channel that is there lists something.
pub open spec fn is_tidy(channel: Option<Seq<Seq<char>>>) -> bool {
    channel matches Some(list) ==> list.len() > 0
}

/// The list with the symbol at its end, unless it is there already.
pub open spec fn with_symbol(list: Seq<Seq<char>>, symbol: Seq<char>) -> Seq<Seq<char>> {
    if list.contains(symbol) {
        list
    } else {
        list.push(symbol)
    }
}

/// The list without the symbol.
pub open spec fn without_symbol(list: Seq<Seq<char>>, symbol: Seq<char>) -> Seq<Seq<char>>
    decreases list.len(),
{
    if list.len() == 0 {
        list
    } else if list.last() == symbol {
        without_symbol(list.drop_last(), symbol)
    } else {
        without_symbol(list.drop_last(), symbol).push(list.last())
    }
}

pub open spec fn mutated(list: Seq<Seq<char>>, symbol: Seq<char>, add: bool) -> Seq<Seq<char>> {
    if add {
        with_symbol(list, symbol)
    } else {
        without_symbol(list, symbol)
    }
}

/// The channel with a symbol added to it, or removed from it. A channel left
/// without symbols is absent.
pub open spec fn changed(
    channel: Option<Seq<Seq<char>>>,
    symbol: Seq<char>,
    add: bool,
) -> Option<Seq<Seq<char>>> {
    let list = mutated(symbols_in(channel), symbol, add);
    if list.len() == 0 {
        None
    } else {
        Some(list)
    }
}

/// Whether the list has the symbol.
fn has_symbol(list: &Vec<String>, symbol: &str) -> (r: bool)
    ensures
        r == texts_of(list@).contains(symbol@),
{
    let mut k: usize = 0;
    while k < list.len()
        invariant
            0 <= k <= list@.len(),
            forall|i: int| 0 <= i < k ==> (#[trigger] list@[i])@ != symbol@,
        decreases list@.len() - k,
    {
        if same_text(list[k].as_str(), symbol) {
            assert(texts_of(list@)[k as int] == symbol@);
            return true;
        }
        k += 1;
    }
    false
}

/// The list without the symbol.
fn retain_others(list: &Vec<String>, symbol: &str) -> (r: Vec<String>)
    ensures
        texts_of(r@) == without_symbol(texts_of(list@), symbol@),
{
    let mut out: Vec<String> = Vec::new();
    let mut k: usize = 0;
    let ghost all = texts_of(list@);
    proof {
        assert(all.take(0) =~= seq![]);
        assert(texts_of(out@) =~= seq![]);
    }
    while k < list.len()
        invariant
            0 <= k <= list@.len(),
            all == texts_of(list@),
            texts_of(out@) == without_symbol(all.take(k as int), symbol@),
        decreases list@.len() - k,
    {
        proof {
            assert(all.take(k as int + 1).drop_last() =~= all.take(k as int));
            assert(all.take(k as int + 1).last() == list@[k as int]@);
        }
        if !same_text(list[k].as_str(), symbol) {
            let ghost before = out@;
            out.push(list[k].clone());
            proof {
                assert(texts_of(out@) =~= texts_of(before).push(list@[k as int]@));
            }
        }
        k += 1;
    }
    proof {
        assert(all.take(k as int) =~= all);
    }
    out
}

/// Add a symbol to a field, or remove it. A field that lists nothing is
/// absent.
pub fn mutate_field(field: &mut Option<Vec<String>>, symbol: &str, add: bool)
    ensures
        channel_of(*final(field)) == changed(channel_of(*old(field)), symbol@, add),
{
    let list = match field.take() {
        Some(v) => v,
        None => Vec::new(),
    };
    proof {
        assert(texts_of(list@) =~= symbols_in(channel_of(*old(field))));
    }
    let mut list = list;
    if add {
        if !has_symbol(&list, symbol) {
            let ghost before = list@;
            list.push(symbol.to_owned());
            proof {
                assert(texts_of(list@) =~= texts_of(before).push(symbol@));
            }
        }
    } else {
        list = retain_others(&list, symbol);
    }
    if list.len() > 0 {
        *field = Some(list);
    } else {
        proof {
            assert(texts_of(list@) =~= seq![]);
        }
    }
}

/// Whether a field lists nothing.
pub fn lists_nothing(field: &Option<Vec<String>>) -> (r: bool)
    ensures
        r == (symbols_in(channel_of(*field)).len() == 0),
{
    match field {
        Some(v) => v.len() == 0,
        None => true,
    }
}

/// A copy of a field.
pub fn clone_field(field: &Option<Vec<String>>) -> (r: Option<Vec<String>>)
    ensures
        channel_of(r) == channel_of(*field),
{
    match field {
        None => None,
        Some(v) => {
            let mut out: Vec<String> = Vec::new();
            let mut k: usize = 0;
            while k < v.len()
                invariant
                    0 <= k <= v@.len(),
                    out@ == v@.take(k as int),
                decreases v@.len() - k,
            {
                out.push(v[k].clone());
                proof {
                    assert(out@ =~= v@.take(k as int + 1));
                }
                k += 1;
            }
            proof {
                assert(out@ =~= v@);
            }
            Some(out)
        },
    }
}

pub proof fn lemma_without_absent(list: Seq<Seq<char>>, symbol: Seq<char>)
    requires
        !list.contains(symbol),
    ensures
        without_symbol(list, symbol) == list,
    decreases list.len(),
{
    if list.len() > 0 {
        assert(list.last() == list[list.len() - 1]);
        assert forall|i: int| 0 <= i < list.drop_last().len() implies list.drop_last()[i]
            != symbol by {
            assert(list[i] != symbol);
        }
        lemma_without_absent(list.drop_last(), symbol);
        assert(list =~= list.drop_last().push(list.last()));
    }
}

/// Removing a symbol that was added to a list without it restores the list.
pub proof fn law_remove_undoes_add(list: Seq<Seq<char>>, symbol: Seq<char>)
    requires
        !list.contains(symbol),
    ensures
        without_symbol(with_symbol(list, symbol), symbol) == list,
{
    lemma_without_absent(list, symbol);
    assert(list.push(symbol).drop_last() =~= list);
}

/// Removing a symbol that was added to a channel without it restores the
/// channel's symbols, and the channel itself unless it was there and listed
/// nothing.
pub proof fn law_channels_are_restored(channel: Option<Seq<Seq<char>>>, symbol: Seq<char>)
    requires
        !symbols_in(channel).contains(symbol),
    ensures
        symbols_in(changed(changed(channel, symbol, true), symbol, false)) == symbols_in(channel),
        is_tidy(channel) ==> changed(changed(channel, symbol, true), symbol, false) == channel,
{
    law_remove_undoes_add(symbols_in(channel), symbol);
    if symbols_in(channel).len() == 0 {
        assert(symbols_in(channel) =~= seq![]);
    }
}

/// Adding a symbol twice is adding it once, and removing it twice is removing
/// it once.
pub proof fn law_mutations_are_idempotent(list: Seq<Seq<char>>, symbol: Seq<char>, add: bool)
    ensures
        mutated(mutated(list, symbol, add), symbol, add) == mutated(list, symbol, add),
        mutated(list, symbol, add).contains(symbol) == add,
{
    if add {
        if !list.contains(symbol) {
            assert(list.push(symbol)[list.len() as int] == symbol);
        }
    } else {
        lemma_without_has_none(list, symbol);
        lemma_without_absent(without_symbol(list, symbol), symbol);
    }
}

proof fn lemma_without_has_none(list: Seq<Seq<char>>, symbol: Seq<char>)
    ensures
        !without_symbol(list, symbol).contains(symbol),
    decreases list.len(),
{
    if list.len() > 0 {
        lemma_without_has_none(list.drop_last(), symbol);
        let w = without_symbol(list.drop_last(), symbol);
        if list.last() != symbol {
            assert forall|i: int| 0 <= i < w.push(list.last()).len() implies w.push(list.last())[i]
                != symbol by {
                if i < w.len() {
                    assert(w[i] == w.push(list.last())[i]);
                    assert(w.contains(w[i]));
                }
            }
        }
    }
}

/// A list in which no symbol occurs twice keeps that property.
pub proof fn law_symbols_stay_distinct(list: Seq<Seq<char>>, symbol: Seq<char>, add: bool)
    requires
        list.no_duplicates(),
    ensures
        mutated(list, symbol, add).no_duplicates(),
{
    if add {
        if !list.contains(symbol) {
            let p = list.push(symbol);
            assert forall|i: int, j: int| 0 <= i < p.len() && 0 <= j < p.len() && i != j implies p[i]
                != p[j] by {
                if i < list.len() && j < list.len() {
                    assert(list[i] != list[j]);
                } else if i < list.len() {
                    assert(list.contains(list[i]));
                } else {
                    assert(list.contains(list[j]));
                }
            }
        }
    } else {
        lemma_without_distinct(list, symbol);
    }
}

proof fn lemma_without_distinct(list: Seq<Seq<char>>, symbol: Seq<char>)
    requires
        list.no_duplicates(),
    ensures
        without_symbol(list, symbol).no_duplicates(),
        forall|s: Seq<char>| #[trigger]
            without_symbol(list, symbol).contains(s) ==> list.contains(s),
    decreases list.len(),
{
    if list.len() > 0 {
        let d = list.drop_last();
        assert forall|i: int, j: int| 0 <= i < d.len() && 0 <= j < d.len() && i != j implies d[i]
            != d[j] by {
            assert(list[i] != list[j]);
        }
        lemma_without_distinct(d, symbol);
        let w = without_symbol(d, symbol);
        assert forall|s: Seq<char>| #[trigger] w.contains(s) implies list.contains(s) by {
            assert(d.contains(s));
            let i = choose|i: int| 0 <= i < d.len() && d[i] == s;
            assert(list[i] == s);
        }
        if list.last() != symbol {
            let p = w.push(list.last());
            assert forall|i: int, j: int| 0 <= i < p.len() && 0 <= j < p.len() && i != j implies p[i]
                != p[j] by {
                if i < w.len() && j < w.len() {
                    assert(w[i] != w[j]);
                } else {
                    let k = if i < w.len() {
                        i
                    } else {
                        j
                    };
                    assert(w.contains(w[k]));
                    assert(d.contains(w[k]));
                    let m = choose|m: int| 0 <= m < d.len() && d[m] == w[k];
                    assert(list[m] != list[list.len() - 1]);
                }
            }
            assert forall|s: Seq<char>| #[trigger] p.contains(s) implies list.contains(s) by {
                let i = choose|i: int| 0 <= i < p.len() && p[i] == s;
                if i < w.len() {
                    assert(w.contains(s));
                } else {
                    assert(list[list.len() - 1] == s);
                }
            }
        }
    }
}

/// Adding a symbol to a channel puts it there, removing it takes it out, and
/// every other symbol is as before.
pub proof fn law_changes_touch_one_symbol(
    channel: Option<Seq<Seq<char>>>,
    symbol: Seq<char>,
    add: bool,
)
    ensures
        symbols_in(changed(channel, symbol, add)).contains(symbol) == add,
        forall|s: Seq<char>|
            s != symbol ==> #[trigger] symbols_in(changed(channel, symbol, add)).contains(s)
                == symbols_in(channel).contains(s),
{
    let list = symbols_in(channel);
    law_mutations_are_idempotent(list, symbol, add);
    assert forall|s: Seq<char>| s != symbol implies #[trigger] mutated(list, symbol, add).contains(
        s,
    ) == list.contains(s) by {
        if add {
            if !list.contains(symbol) {
                lemma_push_contains(list, symbol, s);
            }
        } else {
            lemma_without_keeps(list, symbol, s);
        }
    }
    assert forall|s: Seq<char>| s != symbol implies #[trigger] symbols_in(
        changed(channel, symbol, add),
    ).contains(s) == list.contains(s) by {
        assert(mutated(list, symbol, add).contains(s) == list.contains(s));
    }
}

proof fn lemma_push_contains(list: Seq<Seq<char>>, x: Seq<char>, s: Seq<char>)
    ensures
        list.push(x).contains(s) <==> (list.contains(s) || s == x),
{
    let p = list.push(x);
    if list.contains(s) {
        let i = choose|i: int| 0 <= i < list.len() && list[i] == s;
        assert(p[i] == s);
    }
    if s == x {
        assert(p[list.len() as int] == s);
    }
    if p.contains(s) {
        let i = choose|i: int| 0 <= i < p.len() && p[i] == s;
        if i < list.len() {
            assert(list[i] == s);
        }
    }
}

proof fn lemma_without_keeps(list: Seq<Seq<char>>, symbol: Seq<char>, s: Seq<char>)
    requires
        s != symbol,
    ensures
        without_symbol(list, symbol).contains(s) <==> list.contains(s),
    decreases list.len(),
{
    if list.len() > 0 {
        let d = list.drop_last();
        lemma_without_keeps(d, symbol, s);
        assert(list =~= d.push(list.last()));
        lemma_push_contains(d, list.last(), s);
        lemma_push_contains(without_symbol(d, symbol), list.last(), s);
    }
}

} // verus!
