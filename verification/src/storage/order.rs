//! Stable ordering of events by their append ordinals.

use vstd::prelude::*;

use crate::event::MarketEvent;

verus! {

/// An event with its append ordinal.
pub type Numbered = (u64, MarketEvent);

/// The list with `x` behind everything that does not come after it.
pub open spec fn inserted(s: Seq<Numbered>, x: Numbered) -> Seq<Numbered>
    decreases s.len(),
{
    if s.len() == 0 {
        seq![x]
    } else if s.last().0 <= x.0 {
        s.push(x)
    } else {
        inserted(s.drop_last(), x).push(s.last())
    }
}

/// The list with all of `t` inserted in turn.
pub open spec fn inserted_all(s: Seq<Numbered>, t: Seq<Numbered>) -> Seq<Numbered>
    decreases t.len(),
{
    if t.len() == 0 {
        s
    } else {
        inserted(inserted_all(s, t.drop_last()), t.last())
    }
}

/// The events in the order of their ordinals; equal ordinals keep their
/// order.
pub open spec fn ordered(t: Seq<Numbered>) -> Seq<Numbered> {
    inserted_all(seq![], t)
}

pub open spec fn ascending(s: Seq<Numbered>) -> bool {
    forall|i: int, j: int| 0 <= i <= j < s.len() ==> (#[trigger] s[i]).0 <= (#[trigger] s[j]).0
}

pub open spec fn strictly_ascending(s: Seq<Numbered>) -> bool {
    forall|i: int, j: int| 0 <= i < j < s.len() ==> (#[trigger] s[i]).0 < (#[trigger] s[j]).0
}

proof fn lemma_inserted_ascending(s: Seq<Numbered>, x: Numbered)
    requires
        ascending(s),
    ensures
        ascending(inserted(s, x)),
        inserted(s, x).len() == s.len() + 1,
        forall|i: int|
            0 <= i < inserted(s, x).len() ==> (#[trigger] inserted(s, x)[i]).0 <= x.0 || (s.len()
                > 0 && inserted(s, x)[i].0 <= s.last().0),
    decreases s.len(),
{
    if s.len() > 0 {
        let d = s.drop_last();
        assert(ascending(d)) by {
            assert forall|i: int, j: int| 0 <= i <= j < d.len() implies (#[trigger] d[i]).0 <= (
            #[trigger] d[j]).0 by {
                assert(s[i].0 <= s[j].0);
            }
        }
        assert(s.last() == s[s.len() - 1]);
        if s.last().0 <= x.0 {
            assert forall|i: int| 0 <= i < s.len() implies (#[trigger] s[i]).0 <= x.0 by {
                assert(s[i].0 <= s[s.len() - 1].0);
            }
        } else {
            lemma_inserted_ascending(d, x);
            let r = inserted(d, x);
            assert forall|i: int| 0 <= i < r.len() implies (#[trigger] r[i]).0 <= s.last().0 by {
                if d.len() > 0 {
                    assert(d.last() == s[s.len() - 2]);
                    assert(s[s.len() - 2].0 <= s[s.len() - 1].0);
                }
            }
        }
    }
}

proof fn lemma_inserted_all_ascending(s: Seq<Numbered>, t: Seq<Numbered>)
    requires
        ascending(s),
    ensures
        ascending(inserted_all(s, t)),
        inserted_all(s, t).len() == s.len() + t.len(),
    decreases t.len(),
{
    if t.len() > 0 {
        lemma_inserted_all_ascending(s, t.drop_last());
        lemma_inserted_ascending(inserted_all(s, t.drop_last()), t.last());
    }
}

/// Insertions of different ordinals do not depend on their order.
proof fn lemma_insertions_commute(s: Seq<Numbered>, x: Numbered, y: Numbered)
    requires
        ascending(s),
        x.0 < y.0,
    ensures
        inserted(inserted(s, x), y) == inserted(inserted(s, y), x),
    decreases s.len(),
{
    if s.len() == 0 {
        assert(seq![y].drop_last() =~= seq![]);
        assert(inserted(seq![y].drop_last(), x) =~= seq![x]);
        assert(inserted(inserted(s, x), y) =~= seq![x, y]);
        assert(inserted(inserted(s, y), x) =~= seq![x, y]);
    } else {
        let d = s.drop_last();
        let l = s.last();
        assert(ascending(d)) by {
            assert forall|i: int, j: int| 0 <= i <= j < d.len() implies (#[trigger] d[i]).0 <= (
            #[trigger] d[j]).0 by {
                assert(s[i].0 <= s[j].0);
            }
        }
        if l.0 <= x.0 {
            assert(s.push(y).drop_last() =~= s);
            assert(inserted(s.push(y), x) == inserted(s, x).push(y));
        } else if l.0 <= y.0 {
            let sx = inserted(d, x).push(l);
            assert(sx.last() == l);
            assert(inserted(sx, y) == sx.push(y));
            assert(s.push(y).drop_last() =~= s);
            assert(inserted(s.push(y), x) == inserted(s, x).push(y));
        } else {
            lemma_insertions_commute(d, x, y);
            let sx = inserted(d, x).push(l);
            let sy = inserted(d, y).push(l);
            assert(sx.drop_last() =~= inserted(d, x));
            assert(sy.drop_last() =~= inserted(d, y));
        }
    }
}

/// Inserting an ordered list with one more element is inserting the list and
/// then the element.
proof fn lemma_insert_through(s: Seq<Numbered>, t: Seq<Numbered>, z: Numbered)
    requires
        ascending(s),
    ensures
        inserted_all(s, inserted(t, z)) == inserted(inserted_all(s, t), z),
    decreases t.len(),
{
    if t.len() == 0 {
        assert(seq![z].drop_last() =~= seq![]);
        assert(t =~= seq![]);
        assert(inserted_all(s, seq![z].drop_last()) == s);
        assert(seq![z].last() == z);
    } else if t.last().0 <= z.0 {
        assert(t.push(z).drop_last() =~= t);
    } else {
        let d = t.drop_last();
        let l = t.last();
        lemma_insert_through(s, d, z);
        let u = inserted(d, z).push(l);
        assert(u.drop_last() =~= inserted(d, z));
        assert(u.last() == l);
        lemma_inserted_all_ascending(s, d);
        lemma_insertions_commute(inserted_all(s, d), z, l);
    }
}

/// Inserting a list is inserting it in its own order.
proof fn lemma_insert_ordered(s: Seq<Numbered>, t: Seq<Numbered>)
    requires
        ascending(s),
    ensures
        inserted_all(s, t) == inserted_all(s, ordered(t)),
    decreases t.len(),
{
    if t.len() > 0 {
        lemma_insert_ordered(s, t.drop_last());
        lemma_insert_through(s, ordered(t.drop_last()), t.last());
    }
}

proof fn lemma_inserted_all_concat(s: Seq<Numbered>, a: Seq<Numbered>, b: Seq<Numbered>)
    ensures
        inserted_all(s, a + b) == inserted_all(inserted_all(s, a), b),
    decreases b.len(),
{
    if b.len() == 0 {
        assert(a + b =~= a);
    } else {
        assert((a + b).drop_last() =~= a + b.drop_last());
        assert((a + b).last() == b.last());
        lemma_inserted_all_concat(s, a, b.drop_last());
    }
}

/// An ascending list is its own order.
pub proof fn lemma_ascending_is_ordered(t: Seq<Numbered>)
    requires
        ascending(t),
    ensures
        ordered(t) == t,
    decreases t.len(),
{
    if t.len() > 0 {
        let d = t.drop_last();
        assert(ascending(d)) by {
            assert forall|i: int, j: int| 0 <= i <= j < d.len() implies (#[trigger] d[i]).0 <= (
            #[trigger] d[j]).0 by {
                assert(t[i].0 <= t[j].0);
            }
        }
        lemma_ascending_is_ordered(d);
        if d.len() > 0 {
            assert(d.last() == t[t.len() - 2]);
            assert(t[t.len() - 2].0 <= t[t.len() - 1].0);
        }
        assert(t =~= d.push(t.last()));
        if d.len() == 0 {
            assert(inserted(d, t.last()) =~= t);
        }
    } else {
        assert(t =~= seq![]);
    }
}

proof fn lemma_last_of_second(a: Seq<Numbered>, b: Seq<Numbered>)
    requires
        ascending(a),
        ascending(b),
        b.len() > 0,
        a.len() > 0 ==> a.last().0 <= b.last().0,
    ensures
        inserted_all(a, b) == inserted_all(a, b.drop_last()).push(b.last()),
{
    let d = b.drop_last();
    lemma_inserted_all_bounded(a, d, b.last().0 as int);
    lemma_inserted_all_ascending(a, d);
    let r = inserted_all(a, d);
    if r.len() > 0 {
        assert(r.last() == r[r.len() - 1]);
    } else {
        assert(r =~= seq![]);
        assert(inserted(r, b.last()) =~= r.push(b.last()));
    }
}

proof fn lemma_inserted_all_bounded(a: Seq<Numbered>, b: Seq<Numbered>, m: int)
    requires
        ascending(a),
        a.len() > 0 ==> a.last().0 <= m,
        forall|i: int| 0 <= i < b.len() ==> (#[trigger] b[i]).0 <= m,
    ensures
        forall|i: int|
            0 <= i < inserted_all(a, b).len() ==> (#[trigger] inserted_all(a, b)[i]).0 <= m,
    decreases b.len(),
{
    if b.len() == 0 {
        assert forall|i: int| 0 <= i < a.len() implies (#[trigger] a[i]).0 <= m by {
            assert(a[i].0 <= a[a.len() - 1].0);
        }
    } else {
        let d = b.drop_last();
        assert forall|i: int| 0 <= i < d.len() implies (#[trigger] d[i]).0 <= m by {
            assert(d[i] == b[i]);
        }
        lemma_inserted_all_bounded(a, d, m);
        lemma_inserted_all_ascending(a, d);
        let r = inserted_all(a, d);
        lemma_inserted_ascending(r, b.last());
        assert(b.last() == b[b.len() - 1]);
        if r.len() > 0 {
            assert(r.last() == r[r.len() - 1]);
        }
    }
}

proof fn lemma_last_of_first(a: Seq<Numbered>, b: Seq<Numbered>)
    requires
        a.len() > 0,
        forall|i: int| 0 <= i < b.len() ==> (#[trigger] b[i]).0 < a.last().0,
    ensures
        inserted_all(a, b) == inserted_all(a.drop_last(), b).push(a.last()),
    decreases b.len(),
{
    if b.len() == 0 {
        assert(a =~= a.drop_last().push(a.last()));
    } else {
        let d = b.drop_last();
        assert forall|i: int| 0 <= i < d.len() implies (#[trigger] d[i]).0 < a.last().0 by {
            assert(d[i] == b[i]);
        }
        lemma_last_of_first(a, d);
        let r = inserted_all(a.drop_last(), d);
        assert(b.last() == b[b.len() - 1]);
        assert(r.push(a.last()).drop_last() =~= r);
    }
}

/// Merge two ascending lists; of equal ordinals those of the first come first.
fn merge(a: Vec<Numbered>, b: Vec<Numbered>) -> (r: Vec<Numbered>)
    requires
        ascending(a@),
        ascending(b@),
    ensures
        r@ == inserted_all(a@, b@),
{
    let ghost goal = inserted_all(a@, b@);
    let mut a = a;
    let mut b = b;
    // What comes behind the rest, last first.
    let mut tail: Vec<Numbered> = Vec::new();
    proof {
        assert(tail@.reverse() =~= seq![]);
        assert(goal =~= inserted_all(a@, b@) + tail@.reverse());
    }
    while a.len() > 0 && b.len() > 0
        invariant
            ascending(a@),
            ascending(b@),
            goal == inserted_all(a@, b@) + tail@.reverse(),
        decreases a@.len() + b@.len(),
    {
        let ghost a0 = a@;
        let ghost b0 = b@;
        let ghost t0 = tail@;
        if a[a.len() - 1].0 <= b[b.len() - 1].0 {
            if let Some(x) = b.pop() {
                tail.push(x);
                proof {
                    lemma_last_of_second(a0, b0);
                    assert(b@ =~= b0.drop_last());
                    assert(ascending(b@)) by {
                        assert forall|i: int, j: int| 0 <= i <= j < b@.len() implies (
                        #[trigger] b@[i]).0 <= (#[trigger] b@[j]).0 by {
                            assert(b0[i].0 <= b0[j].0);
                        }
                    }
                    assert(tail@.reverse() =~= seq![x] + t0.reverse());
                    assert(inserted_all(a@, b@) + tail@.reverse() =~= inserted_all(a0, b0)
                        + t0.reverse());
                }
            }
        } else {
            if let Some(x) = a.pop() {
                tail.push(x);
                proof {
                    assert forall|i: int| 0 <= i < b0.len() implies (#[trigger] b0[i]).0
                        < a0.last().0 by {
                        assert(b0[i].0 <= b0[b0.len() - 1].0);
                    }
                    lemma_last_of_first(a0, b0);
                    assert(a@ =~= a0.drop_last());
                    assert(ascending(a@)) by {
                        assert forall|i: int, j: int| 0 <= i <= j < a@.len() implies (
                        #[trigger] a@[i]).0 <= (#[trigger] a@[j]).0 by {
                            assert(a0[i].0 <= a0[j].0);
                        }
                    }
                    assert(tail@.reverse() =~= seq![x] + t0.reverse());
                    assert(inserted_all(a@, b@) + tail@.reverse() =~= inserted_all(a0, b0)
                        + t0.reverse());
                }
            }
        }
    }
    let mut out = if a.len() > 0 {
        proof {
            assert(b@ =~= seq![]);
        }
        a
    } else {
        proof {
            assert(a@ =~= seq![]);
            lemma_ascending_is_ordered(b@);
        }
        b
    };
    proof {
        assert(goal == out@ + tail@.reverse());
    }
    while tail.len() > 0
        invariant
            goal == out@ + tail@.reverse(),
        decreases tail@.len(),
    {
        let ghost t0 = tail@;
        let ghost o0 = out@;
        if let Some(x) = tail.pop() {
            out.push(x);
            proof {
                assert(t0.reverse() =~= seq![x] + tail@.reverse());
                assert(out@ + tail@.reverse() =~= o0 + t0.reverse());
            }
        }
    }
    proof {
        assert(tail@.reverse() =~= seq![]);
        assert(goal =~= out@);
    }
    out
}

/// Split a list in two at `mid`.
fn split(v: Vec<Numbered>, mid: usize) -> (r: (Vec<Numbered>, Vec<Numbered>))
    requires
        mid <= v@.len(),
    ensures
        r.0@ == v@.take(mid as int),
        r.1@ == v@.skip(mid as int),
{
    let ghost all = v@;
    let mut v = v;
    let right = v.split_off(mid);
    proof {
        assert(v@ =~= all.take(mid as int));
        assert(right@ =~= all.skip(mid as int));
    }
    (v, right)
}

/// Put events into the order of their ordinals; equal ordinals keep their
/// order.
pub fn sort_by_ord(v: Vec<Numbered>) -> (r: Vec<Numbered>)
    ensures
        r@ == ordered(v@),
    decreases v@.len(),
{
    if v.len() <= 1 {
        proof {
            lemma_ascending_is_ordered(v@);
        }
        return v;
    }
    let ghost all = v@;
    let mid: usize = v.len() / 2;
    let (left, right) = split(v, mid);
    let ghost l = left@;
    let ghost r = right@;
    let left = sort_by_ord(left);
    let right = sort_by_ord(right);
    proof {
        lemma_inserted_all_ascending(seq![], l);
        lemma_inserted_all_ascending(seq![], r);
        assert(all =~= l + r);
        lemma_inserted_all_concat(seq![], l, r);
        lemma_insert_ordered(ordered(l), r);
    }
    merge(left, right)
}

/// Ordering gives the ordinals in ascending order and loses or adds nothing.
pub proof fn law_ordering_is_a_permutation(t: Seq<Numbered>)
    ensures
        ascending(ordered(t)),
        ordered(t).to_multiset() == t.to_multiset(),
{
    lemma_inserted_all_ascending(seq![], t);
    lemma_inserted_all_multiset(seq![], t);
    assert(seq![] + t =~= t);
}

proof fn lemma_inserted_multiset(s: Seq<Numbered>, x: Numbered)
    ensures
        inserted(s, x).to_multiset() == s.push(x).to_multiset(),
    decreases s.len(),
{
    broadcast use vstd::seq_lib::group_to_multiset_ensures;

    if s.len() == 0 {
        assert(s.push(x) =~= seq![x]);
    } else if s.last().0 > x.0 {
        let d = s.drop_last();
        lemma_inserted_multiset(d, x);
        assert(s =~= d.push(s.last()));
        assert(inserted(s, x).to_multiset() =~= d.to_multiset().insert(x).insert(s.last()));
        assert(s.push(x).to_multiset() =~= d.to_multiset().insert(s.last()).insert(x));
    }
}

proof fn lemma_inserted_all_multiset(s: Seq<Numbered>, t: Seq<Numbered>)
    ensures
        inserted_all(s, t).to_multiset() == (s + t).to_multiset(),
    decreases t.len(),
{
    broadcast use vstd::seq_lib::group_to_multiset_ensures;

    if t.len() == 0 {
        assert(s + t =~= s);
    } else {
        let d = t.drop_last();
        lemma_inserted_all_multiset(s, d);
        lemma_inserted_multiset(inserted_all(s, d), t.last());
        assert(s + t =~= (s + d).push(t.last()));
    }
}

/// Replay reproduces the order of arrival: however recorded events are read
/// back, ordering them by ordinals that were handed out in ascending order
/// gives them as they arrived.
pub proof fn law_replay_reproduces_arrival(arrival: Seq<Numbered>, read: Seq<Numbered>)
    requires
        strictly_ascending(arrival),
        read.to_multiset() == arrival.to_multiset(),
    ensures
        ordered(read) == arrival,
{
    law_ordering_is_a_permutation(read);
    lemma_ascending_unique(arrival, ordered(read));
}

proof fn lemma_ascending_unique(a: Seq<Numbered>, b: Seq<Numbered>)
    requires
        strictly_ascending(a),
        ascending(b),
        a.to_multiset() == b.to_multiset(),
    ensures
        a == b,
    decreases a.len(),
{
    broadcast use vstd::seq_lib::group_to_multiset_ensures;

    a.to_multiset_ensures();
    b.to_multiset_ensures();
    assert(a.len() == a.to_multiset().len());
    assert(b.len() == b.to_multiset().len());
    if a.len() == 0 {
        assert(a =~= b);
    } else {
        let al = a[a.len() - 1];
        let bl = b[b.len() - 1];
        assert(a.contains(al));
        assert(b.contains(bl));
        assert(b.to_multiset().count(al) > 0);
        assert(b.contains(al));
        assert(b.to_multiset().count(bl) > 0);
        assert(a.to_multiset().count(bl) > 0);
        assert(a.contains(bl));
        let i = choose|i: int| 0 <= i < b.len() && b[i] == al;
        let j = choose|j: int| 0 <= j < a.len() && a[j] == bl;
        assert(b[i].0 <= b[b.len() - 1].0);
        if j < a.len() - 1 {
            assert(a[j].0 < a[a.len() - 1].0);
            assert(false);
        }
        assert(al == bl);
        let ad = a.drop_last();
        let bd = b.drop_last();
        assert(a =~= ad.push(al));
        assert(b =~= bd.push(bl));
        assert(a.to_multiset() =~= ad.to_multiset().insert(al));
        assert(b.to_multiset() =~= bd.to_multiset().insert(bl));
        assert(ad.to_multiset() =~= a.to_multiset().remove(al));
        assert(bd.to_multiset() =~= b.to_multiset().remove(bl));
        assert forall|x: int, y: int| 0 <= x < y < ad.len() implies (#[trigger] ad[x]).0 < (
        #[trigger] ad[y]).0 by {
            assert(a[x].0 < a[y].0);
        }
        assert forall|x: int, y: int| 0 <= x <= y < bd.len() implies (#[trigger] bd[x]).0 <= (
        #[trigger] bd[y]).0 by {
            assert(b[x].0 <= b[y].0);
        }
        lemma_ascending_unique(ad, bd);
    }
}

} // verus!
