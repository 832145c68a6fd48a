//! Bounded buffer of a client's undelivered events, with loss accounted per
//! instrument.

use std::collections::VecDeque;

use vstd::prelude::*;

use crate::event::{
    ControlKindView, EventView, GapSpan, Instrument, InstrumentView, MarketEvent, SeqNo,
};
use crate::session::ring::{hull, loss_of, lost_span, widen};

use super::fanout::{event_instrument, loss_instrument};

verus! {

/// One instrument's loss: where its hole starts, the instrument, the lost
/// source time and the provider.
pub type InstrumentGap = (SeqNo, Instrument, GapSpan, String);

/// The value of an instrument's loss.
pub struct LossView {
    pub first_seq: SeqNo,
    pub span: GapSpan,
    pub provider: Seq<char>,
}

pub open spec fn loss_view(g: InstrumentGap) -> LossView {
    LossView { first_seq: g.0, span: g.2, provider: g.3@ }
}

/// The losses of a list of records, by instrument.
pub open spec fn losses(gaps: Seq<InstrumentGap>) -> Map<InstrumentView, LossView>
    decreases gaps.len(),
{
    if gaps.len() == 0 {
        Map::empty()
    } else {
        losses(gaps.drop_last()).insert(gaps.last().1@, loss_view(gaps.last()))
    }
}

/// No instrument occurs twice.
pub open spec fn one_per_instrument(gaps: Seq<InstrumentGap>) -> bool {
    forall|i: int, j: int|
        0 <= i < j < gaps.len() ==> (#[trigger] gaps[i]).1@ != (#[trigger] gaps[j]).1@
}

/// The provider that a lost event is attributed to.
pub open spec fn loss_provider(ev: EventView, provider: Seq<char>) -> Seq<char> {
    match ev {
        EventView::Control(c) => match c.kind {
            ControlKindView::Gap { provider: own, instrument, span } => own,
            _ => provider,
        },
        _ => provider,
    }
}

/// The losses after losing `ev`: its instrument's span grows, or starts.
pub open spec fn note_loss(
    m: Map<InstrumentView, LossView>,
    ev: EventView,
    provider: Seq<char>,
) -> Map<InstrumentView, LossView> {
    match (loss_instrument(ev), loss_of(ev)) {
        (Some(inst), Some(span)) => if m.contains_key(inst) {
            m.insert(inst, LossView { span: hull(m[inst].span, span), ..m[inst] })
        } else {
            m.insert(
                inst,
                LossView { first_seq: ev.seq(), span, provider: loss_provider(ev, provider) },
            )
        },
        _ => m,
    }
}

/// Bounded per-client FIFO. Overflow evicts the oldest event and extends the
/// loss of that event's instrument alone.
#[derive(Debug)]
pub struct ClientRing {
    pub capacity: usize,
    pub buf: VecDeque<(MarketEvent, String)>,
    pub dropped: Vec<InstrumentGap>,
}

/// The value of a [`ClientRing`].
pub struct ClientRingView {
    pub capacity: nat,
    pub buf: Seq<(MarketEvent, String)>,
    pub dropped: Map<InstrumentView, LossView>,
}

impl ClientRingView {
    pub open spec fn empty(capacity: nat) -> ClientRingView {
        ClientRingView {
            capacity: if capacity == 0 {
                1
            } else {
                capacity
            },
            buf: seq![],
            dropped: Map::empty(),
        }
    }

    pub open spec fn full(self) -> bool {
        self.buf.len() == self.capacity
    }

    pub open spec fn pushed(self, ev: MarketEvent, provider: String) -> ClientRingView {
        if self.full() {
            ClientRingView {
                buf: self.buf.drop_first().push((ev, provider)),
                dropped: note_loss(self.dropped, self.buf.first().0@, self.buf.first().1@),
                ..self
            }
        } else {
            ClientRingView { buf: self.buf.push((ev, provider)), ..self }
        }
    }

    pub open spec fn pushed_all(self, evs: Seq<(MarketEvent, String)>) -> ClientRingView
        decreases evs.len(),
    {
        if evs.len() == 0 {
            self
        } else {
            self.pushed_all(evs.drop_last()).pushed(evs.last().0, evs.last().1)
        }
    }
}

impl View for ClientRing {
    type V = ClientRingView;

    open spec fn view(&self) -> ClientRingView {
        ClientRingView {
            capacity: self.capacity as nat,
            buf: self.buf@,
            dropped: losses(self.dropped@),
        }
    }
}

/// Records in ascending order of where their holes start.
pub open spec fn by_first_seq(gaps: Seq<InstrumentGap>) -> bool {
    forall|i: int, j: int|
        0 <= i < j < gaps.len() ==> (#[trigger] gaps[i]).0.0 <= (#[trigger] gaps[j]).0.0
}

impl ClientRing {
    pub open spec fn wf(self) -> bool {
        &&& 0 < self.capacity
        &&& self.buf@.len() <= self.capacity
        &&& one_per_instrument(self.dropped@)
    }

    /// An empty ring for `capacity` events, or one where that is zero.
    pub fn new(capacity: usize) -> (r: ClientRing)
        ensures
            r.wf(),
            r@ == ClientRingView::empty(capacity as nat),
    {
        ClientRing {
            capacity: if capacity == 0 {
                1
            } else {
                capacity
            },
            buf: VecDeque::new(),
            dropped: Vec::new(),
        }
    }

    /// Push one event; `true` where that evicted the oldest.
    pub fn push(&mut self, ev: MarketEvent, provider: String) -> (evicted: bool)
        requires
            old(self).wf(),
        ensures
            final(self).wf(),
            final(self)@ == old(self)@.pushed(ev, provider),
            evicted == old(self)@.full(),
    {
        let mut evicted = false;
        if self.buf.len() == self.capacity {
            if let Some((oldest, oldest_provider)) = self.buf.pop_front() {
                self.note_drop(&oldest, oldest_provider.as_str());
                evicted = true;
            }
        }
        self.buf.push_back((ev, provider));
        proof {
            assert(self@.buf =~= old(self)@.pushed(ev, provider).buf);
        }
        evicted
    }

    /// Number of buffered events.
    pub fn len(&self) -> (r: usize)
        ensures
            r == self@.buf.len(),
    {
        self.buf.len()
    }

    /// Account for the loss of one event.
    pub fn note_drop(&mut self, ev: &MarketEvent, provider: &str)
        requires
            one_per_instrument(old(self).dropped@),
        ensures
            one_per_instrument(final(self).dropped@),
            final(self)@ == (ClientRingView {
                dropped: note_loss(old(self)@.dropped, ev@, provider@),
                ..old(self)@
            }),
            final(self).buf == old(self).buf,
            final(self).capacity == old(self).capacity,
    {
        let (instrument, gap_provider) = match event_instrument(ev) {
            Some((instrument, own)) => (
                instrument,
                match own {
                    Some(own) => own,
                    None => provider.to_owned(),
                },
            ),
            None => {
                return ;
            },
        };
        let span = match lost_span(ev) {
            Some(span) => span,
            None => {
                return ;
            },
        };
        let ghost before = self.dropped@;
        let mut k: usize = 0;
        while k < self.dropped.len()
            invariant
                0 <= k <= self.dropped@.len(),
                self.dropped@ == before,
                self.buf == old(self).buf,
                self.capacity == old(self).capacity,
                before == old(self).dropped@,
                one_per_instrument(before),
                forall|i: int| 0 <= i < k ==> (#[trigger] before[i]).1@ != instrument@,
                loss_instrument(ev@) == Some(instrument@),
                loss_of(ev@) == Some(span),
                gap_provider@ == loss_provider(ev@, provider@),
            decreases self.dropped@.len() - k,
        {
            if self.dropped[k].1.same(&instrument) {
                let wider = widen(self.dropped[k].2, span);
                let first: SeqNo = self.dropped[k].0;
                let same_provider = self.dropped[k].3.clone();
                let same_instrument = self.dropped[k].1.clone();
                self.dropped.set(k, (first, same_instrument, wider, same_provider));
                proof {
                    lemma_losses_lookup(before, k as int);
                    lemma_losses_update(before, k as int, self.dropped@[k as int]);
                    assert(self.dropped@ =~= before.update(k as int, self.dropped@[k as int]));
                }
                return ;
            }
            k += 1;
        }
        proof {
            lemma_losses_absent(before, instrument@);
        }
        self.dropped.push((ev.place(), instrument, span, gap_provider));
        proof {
            assert(self.dropped@.drop_last() =~= before);
        }
    }

    /// The losses in the order in which their holes start, and the survivors
    /// in arrival order, each with its provider.
    pub fn into_parts(self) -> (r: (Vec<InstrumentGap>, VecDeque<(MarketEvent, String)>))
        requires
            self.wf(),
        ensures
            by_first_seq(r.0@),
            one_per_instrument(r.0@),
            losses(r.0@) == self@.dropped,
            r.1@ == self@.buf,
    {
        let ghost given = self.dropped@;
        let mut gaps = self.dropped;
        let n: usize = gaps.len();
        let mut k: usize = 0;
        // Insertion sort: everything before `k` is in order.
        while k < n
            invariant
                0 <= k <= n == gaps@.len(),
                by_first_seq(gaps@.take(k as int)),
                one_per_instrument(gaps@),
                losses(gaps@) == losses(given),
            decreases n - k,
        {
            let mut j: usize = k;
            proof {
                assert forall|a: int, b: int| 0 <= a < b < k implies (#[trigger] gaps@[a]).0.0 <= (
                #[trigger] gaps@[b]).0.0 by {
                    assert(gaps@.take(k as int)[a].0.0 <= gaps@.take(k as int)[b].0.0);
                }
            }
            while j > 0 && gaps[j - 1].0.0 > gaps[j].0.0
                invariant
                    0 <= j <= k < n == gaps@.len(),
                    one_per_instrument(gaps@),
                    losses(gaps@) == losses(given),
                    forall|a: int, b: int|
                        0 <= a < b <= k && b != j ==> (#[trigger] gaps@[a]).0.0 <= (
                        #[trigger] gaps@[b]).0.0,
                decreases j,
            {
                let ghost before = gaps@;
                swap_adjacent(&mut gaps, j);
                proof {
                    lemma_losses_swap(before, j as int);
                }
                j -= 1;
            }
            proof {
                assert forall|a: int, b: int|
                    0 <= a < b < gaps@.take(k as int + 1).len() implies (#[trigger] gaps@.take(
                    k as int + 1,
                )[a]).0.0 <= (#[trigger] gaps@.take(k as int + 1)[b]).0.0 by {
                    assert(gaps@[a].0.0 <= gaps@[b].0.0) by {
                        if b == j {
                            assert(gaps@[j - 1].0.0 <= gaps@[j as int].0.0);
                            if a < j - 1 {
                                assert(gaps@[a].0.0 <= gaps@[j - 1].0.0);
                            }
                        }
                    }
                }
            }
            k += 1;
        }
        proof {
            assert(gaps@.take(n as int) =~= gaps@);
        }
        (gaps, self.buf)
    }
}

/// Exchange the records at `j - 1` and `j`.
fn swap_adjacent(gaps: &mut Vec<InstrumentGap>, j: usize)
    requires
        0 < j < old(gaps)@.len(),
    ensures
        final(gaps)@ == old(gaps)@.update(j - 1, old(gaps)@[j as int]).update(
            j as int,
            old(gaps)@[j - 1],
        ),
{
    let g = gaps.remove(j);
    gaps.insert(j - 1, g);
    proof {
        assert(gaps@ =~= old(gaps)@.update(j - 1, old(gaps)@[j as int]).update(
            j as int,
            old(gaps)@[j - 1],
        ));
    }
}

proof fn lemma_losses_absent(gaps: Seq<InstrumentGap>, inst: InstrumentView)
    requires
        forall|i: int| 0 <= i < gaps.len() ==> (#[trigger] gaps[i]).1@ != inst,
    ensures
        !losses(gaps).contains_key(inst),
    decreases gaps.len(),
{
    if gaps.len() > 0 {
        assert(gaps.last() == gaps[gaps.len() - 1]);
        assert forall|i: int| 0 <= i < gaps.drop_last().len() implies (
        #[trigger] gaps.drop_last()[i]).1@ != inst by {
            assert(gaps.drop_last()[i] == gaps[i]);
        }
        lemma_losses_absent(gaps.drop_last(), inst);
    }
}

proof fn lemma_drop_last_unique(gaps: Seq<InstrumentGap>)
    requires
        gaps.len() > 0,
        one_per_instrument(gaps),
    ensures
        one_per_instrument(gaps.drop_last()),
{
    let d = gaps.drop_last();
    assert forall|i: int, j: int| 0 <= i < j < d.len() implies (#[trigger] d[i]).1@ != (
    #[trigger] d[j]).1@ by {
        assert(d[i] == gaps[i] && d[j] == gaps[j]);
    }
}

pub proof fn lemma_losses_lookup(gaps: Seq<InstrumentGap>, k: int)
    requires
        one_per_instrument(gaps),
        0 <= k < gaps.len(),
    ensures
        losses(gaps).contains_key(gaps[k].1@),
        losses(gaps)[gaps[k].1@] == loss_view(gaps[k]),
    decreases gaps.len(),
{
    if k < gaps.len() - 1 {
        lemma_drop_last_unique(gaps);
        lemma_losses_lookup(gaps.drop_last(), k);
        assert(gaps[k].1@ != gaps[gaps.len() - 1].1@);
    }
}

/// Replacing the record at `k` by one of the same instrument replaces that
/// instrument's loss and no other.
proof fn lemma_losses_update(gaps: Seq<InstrumentGap>, k: int, g: InstrumentGap)
    requires
        one_per_instrument(gaps),
        0 <= k < gaps.len(),
        g.1@ == gaps[k].1@,
    ensures
        one_per_instrument(gaps.update(k, g)),
        losses(gaps.update(k, g)) == losses(gaps).insert(g.1@, loss_view(g)),
    decreases gaps.len(),
{
    let u = gaps.update(k, g);
    assert forall|i: int, j: int| 0 <= i < j < u.len() implies (#[trigger] u[i]).1@ != (
    #[trigger] u[j]).1@ by {
        assert(gaps[i].1@ != gaps[j].1@);
    }
    if k == gaps.len() - 1 {
        assert(u.drop_last() =~= gaps.drop_last());
        assert(losses(u) =~= losses(gaps).insert(g.1@, loss_view(g)));
    } else {
        lemma_drop_last_unique(gaps);
        lemma_losses_update(gaps.drop_last(), k, g);
        assert(u.drop_last() =~= gaps.drop_last().update(k, g));
        assert(u.last() == gaps.last());
        assert(gaps[k].1@ != gaps[gaps.len() - 1].1@);
        assert(losses(u) =~= losses(gaps).insert(g.1@, loss_view(g)));
    }
}

/// Exchanging two neighbours changes no loss.
proof fn lemma_losses_swap(gaps: Seq<InstrumentGap>, j: int)
    requires
        one_per_instrument(gaps),
        0 < j < gaps.len(),
    ensures
        one_per_instrument(gaps.update(j - 1, gaps[j]).update(j, gaps[j - 1])),
        losses(gaps.update(j - 1, gaps[j]).update(j, gaps[j - 1])) == losses(gaps),
    decreases gaps.len(),
{
    let s = gaps.update(j - 1, gaps[j]).update(j, gaps[j - 1]);
    assert forall|a: int, b: int| 0 <= a < b < s.len() implies (#[trigger] s[a]).1@ != (
    #[trigger] s[b]).1@ by {
        let pa = if a == j {
            j - 1
        } else if a == j - 1 {
            j
        } else {
            a
        };
        let pb = if b == j {
            j - 1
        } else if b == j - 1 {
            j
        } else {
            b
        };
        assert(s[a] == gaps[pa] && s[b] == gaps[pb]);
        if pa < pb {
            assert(gaps[pa].1@ != gaps[pb].1@);
        } else {
            assert(gaps[pb].1@ != gaps[pa].1@);
        }
    }
    if j == gaps.len() - 1 {
        reveal_with_fuel(losses, 3);
        let base = gaps.drop_last().drop_last();
        assert(s.drop_last().drop_last() =~= base);
        assert(s.last() == gaps[j - 1] && s.drop_last().last() == gaps[j]);
        assert(gaps.last() == gaps[j] && gaps.drop_last().last() == gaps[j - 1]);
        assert(gaps[j - 1].1@ != gaps[j].1@);
        assert(losses(s) =~= losses(gaps));
    } else {
        lemma_drop_last_unique(gaps);
        lemma_losses_swap(gaps.drop_last(), j);
        let d = gaps.drop_last();
        assert(s.drop_last() =~= d.update(j - 1, d[j]).update(j, d[j - 1]));
        assert(s.last() == gaps.last());
    }
}

/// The losses after losing a whole sequence.
pub open spec fn lose_all(evs: Seq<(MarketEvent, String)>) -> Map<InstrumentView, LossView>
    decreases evs.len(),
{
    if evs.len() == 0 {
        Map::empty()
    } else {
        note_loss(lose_all(evs.drop_last()), evs.last().0@, evs.last().1@)
    }
}

/// A client's ring holds the latest events that fit, in order, and accounts
/// for exactly the events lost before them.
pub proof fn law_client_ring_keeps_the_latest(capacity: nat, evs: Seq<(MarketEvent, String)>)
    requires
        capacity > 0,
    ensures
        ({
            let r = ClientRingView::empty(capacity).pushed_all(evs);
            let k = crate::session::ring::evicted_count(capacity, evs.len());
            &&& r.capacity == capacity
            &&& r.buf == evs.skip(k as int)
            &&& r.dropped == lose_all(evs.take(k as int))
        }),
    decreases evs.len(),
{
    let k = crate::session::ring::evicted_count(capacity, evs.len());
    if evs.len() == 0 {
        assert(evs.skip(0) =~= seq![]);
    } else {
        let rest = evs.drop_last();
        law_client_ring_keeps_the_latest(capacity, rest);
        let kr = crate::session::ring::evicted_count(capacity, rest.len());
        let r = ClientRingView::empty(capacity).pushed_all(rest);
        if rest.len() >= capacity {
            assert(r.buf.first() == evs[kr as int]);
            assert(evs.take(k as int).drop_last() =~= rest.take(kr as int));
            assert(evs.take(k as int).last() == evs[kr as int]);
            assert(r.buf.drop_first().push(evs.last()) =~= evs.skip(k as int));
        } else {
            assert(evs.take(0) =~= rest.take(0));
            assert(r.buf.push(evs.last()) =~= evs.skip(0));
        }
    }
}

/// Whether the event is a loss of the instrument.
pub open spec fn loses(ev: EventView, inst: InstrumentView) -> bool {
    loss_instrument(ev) == Some(inst) && loss_of(ev) is Some
}

/// Losses are never conflated across instruments: an instrument has a record
/// exactly where one of its own events was lost, and each of its lost spans
/// lies in that record.
pub proof fn law_losses_are_per_instrument(evs: Seq<(MarketEvent, String)>, inst: InstrumentView)
    ensures
        lose_all(evs).contains_key(inst) <==> exists|i: int|
            0 <= i < evs.len() && loses(#[trigger] evs[i].0@, inst),
        forall|i: int|
            0 <= i < evs.len() && loses(#[trigger] evs[i].0@, inst)
                ==> crate::session::ring::span_within(
                loss_of(evs[i].0@)->0,
                lose_all(evs)[inst].span,
            ),
    decreases evs.len(),
{
    if evs.len() > 0 {
        let rest = evs.drop_last();
        law_losses_are_per_instrument(rest, inst);
        let last = evs[evs.len() - 1];
        assert(evs.last() == last);
        if lose_all(rest).contains_key(inst) {
            let i = choose|i: int| 0 <= i < rest.len() && loses(#[trigger] rest[i].0@, inst);
            assert(loses(evs[i].0@, inst));
        }
        if loses(last.0@, inst) {
            assert(loses(evs[evs.len() - 1].0@, inst));
        }
        assert forall|i: int| 0 <= i < evs.len() && loses(#[trigger] evs[i].0@, inst) implies
            lose_all(evs).contains_key(inst) && crate::session::ring::span_within(
            loss_of(evs[i].0@)->0,
            lose_all(evs)[inst].span,
        ) by {
            if i < rest.len() {
                assert(rest[i] == evs[i]);
                assert(loses(rest[i].0@, inst));
            }
        }
    }
}

/// An instrument's record starts its hole at the first of its lost events.
pub proof fn law_hole_starts_at_first_loss(
    evs: Seq<(MarketEvent, String)>,
    inst: InstrumentView,
    i: int,
)
    requires
        0 <= i < evs.len(),
        loses(evs[i].0@, inst),
        forall|j: int| 0 <= j < i ==> !loses(#[trigger] evs[j].0@, inst),
    ensures
        lose_all(evs).contains_key(inst),
        lose_all(evs)[inst].first_seq == evs[i].0@.seq(),
    decreases evs.len(),
{
    let rest = evs.drop_last();
    if i < evs.len() - 1 {
        assert(rest[i] == evs[i]);
        assert forall|j: int| 0 <= j < i implies !loses(#[trigger] rest[j].0@, inst) by {
            assert(rest[j] == evs[j]);
        }
        law_hole_starts_at_first_loss(rest, inst, i);
    } else {
        law_losses_are_per_instrument(rest, inst);
        if lose_all(rest).contains_key(inst) {
            let j = choose|j: int| 0 <= j < rest.len() && loses(#[trigger] rest[j].0@, inst);
            assert(loses(evs[j].0@, inst));
        }
    }
}

/// A loss is told by the provider that the event was accounted to, and a lost
/// gap report by the provider that it names itself.
pub proof fn law_losses_are_told_by_their_provider(
    m: Map<InstrumentView, LossView>,
    ev: EventView,
    provider: Seq<char>,
)
    ensures
        ev is Trade || ev is Quote || ev is Bar ==> loss_provider(ev, provider) == provider,
        ev is Control && ev->Control_0.kind is Gap ==> loss_provider(ev, provider)
            == ev->Control_0.kind->Gap_provider,
        loss_instrument(ev) matches Some(inst) ==> (loss_of(ev) is Some && !m.contains_key(inst)
            ==> {
            &&& note_loss(m, ev, provider).contains_key(inst)
            &&& note_loss(m, ev, provider)[inst].first_seq == ev.seq()
            &&& note_loss(m, ev, provider)[inst].span == loss_of(ev)->0
            &&& note_loss(m, ev, provider)[inst].provider == loss_provider(ev, provider)
        }),
        loss_instrument(ev) matches Some(inst) ==> (loss_of(ev) is Some && m.contains_key(inst)
            ==> {
            &&& note_loss(m, ev, provider)[inst].first_seq == m[inst].first_seq
            &&& note_loss(m, ev, provider)[inst].provider == m[inst].provider
            &&& crate::session::ring::span_within(
                loss_of(ev)->0,
                note_loss(m, ev, provider)[inst].span,
            )
            &&& crate::session::ring::span_within(
                m[inst].span,
                note_loss(m, ev, provider)[inst].span,
            )
        }),
        loss_of(ev) is None ==> note_loss(m, ev, provider) == m,
{
}

} // verus!
