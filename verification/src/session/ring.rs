//! Bounded buffer of undelivered events with loss accounting.

use std::collections::VecDeque;

use vstd::prelude::*;

use crate::event::{
    data_source_ts, Control, ControlKind, ControlKindView, EventView, GapSpan, MarketEvent, SeqNo,
    Timestamp,
};

verus! {

/// The instant after `t`, or `t` itself where there is none.
pub open spec fn instant_after(t: Timestamp) -> Timestamp {
    if t.0 == i64::MAX {
        t
    } else {
        Timestamp((t.0 + 1) as i64)
    }
}

pub fn next_instant(t: Timestamp) -> (r: Timestamp)
    ensures
        r == instant_after(t),
{
    if t.0 == i64::MAX {
        t
    } else {
        Timestamp(t.0 + 1)
    }
}

/// The source time that losing an event loses: a data event its own instant,
/// a gap report the span that it reports, any other control nothing.
pub open spec fn loss_of(ev: EventView) -> Option<GapSpan> {
    match ev {
        EventView::Control(c) => match c.kind {
            ControlKindView::Gap { provider, instrument, span } => Some(span),
            _ => None,
        },
        _ => Some(
            GapSpan { from_source_ts: ev.source_ts(), to_source_ts: instant_after(ev.source_ts()) },
        ),
    }
}

/// The smallest span that holds both.
pub open spec fn hull(a: GapSpan, b: GapSpan) -> GapSpan {
    GapSpan {
        from_source_ts: if b.from_source_ts.0 < a.from_source_ts.0 {
            b.from_source_ts
        } else {
            a.from_source_ts
        },
        to_source_ts: if b.to_source_ts.0 > a.to_source_ts.0 {
            b.to_source_ts
        } else {
            a.to_source_ts
        },
    }
}

pub open spec fn hull_opt(a: Option<GapSpan>, b: Option<GapSpan>) -> Option<GapSpan> {
    match (a, b) {
        (Some(x), Some(y)) => Some(hull(x, y)),
        (None, _) => b,
        (_, None) => a,
    }
}

pub fn widen(span: GapSpan, by: GapSpan) -> (r: GapSpan)
    ensures
        r == hull(span, by),
{
    GapSpan {
        from_source_ts: if by.from_source_ts.0 < span.from_source_ts.0 {
            by.from_source_ts
        } else {
            span.from_source_ts
        },
        to_source_ts: if by.to_source_ts.0 > span.to_source_ts.0 {
            by.to_source_ts
        } else {
            span.to_source_ts
        },
    }
}

/// The source time that losing `ev` loses.
pub fn lost_span(ev: &MarketEvent) -> (r: Option<GapSpan>)
    ensures
        r == loss_of(ev@),
{
    match ev {
        MarketEvent::Control(Control { kind: ControlKind::Gap { span, .. }, .. }) => Some(*span),
        _ => match data_source_ts(ev) {
            Some(ts) => Some(GapSpan { from_source_ts: ts, to_source_ts: next_instant(ts) }),
            None => None,
        },
    }
}

/// Bounded FIFO of pending consumer events with honest overflow accounting.
///
/// Pushing beyond the capacity evicts the oldest event and extends the
/// dropped span over what its loss loses, so that eviction never erases loss
/// accounting.
#[derive(Debug)]
pub struct EventRing {
    pub capacity: usize,
    pub buf: VecDeque<MarketEvent>,
    pub dropped: Option<GapSpan>,
    /// Place of the first event evicted: where the hole starts.
    pub dropped_first_seq: Option<SeqNo>,
}

/// The value of an [`EventRing`].
pub struct RingView {
    pub capacity: nat,
    pub buf: Seq<MarketEvent>,
    pub dropped: Option<GapSpan>,
    pub dropped_first_seq: Option<SeqNo>,
}

impl RingView {
    pub open spec fn empty(capacity: nat) -> RingView {
        RingView {
            capacity: if capacity == 0 {
                1
            } else {
                capacity
            },
            buf: seq![],
            dropped: None,
            dropped_first_seq: None,
        }
    }

    /// The accounting after losing `ev`.
    pub open spec fn noted(self, ev: MarketEvent) -> RingView {
        RingView {
            dropped: hull_opt(self.dropped, loss_of(ev@)),
            dropped_first_seq: match self.dropped_first_seq {
                Some(s) => Some(s),
                None => Some(ev@.seq()),
            },
            ..self
        }
    }

    pub open spec fn pushed(self, ev: MarketEvent) -> RingView {
        if self.buf.len() == self.capacity {
            RingView { buf: self.buf.drop_first().push(ev), ..self.noted(self.buf.first()) }
        } else {
            RingView { buf: self.buf.push(ev), ..self }
        }
    }

    /// The ring after pushing a whole sequence.
    pub open spec fn pushed_all(self, evs: Seq<MarketEvent>) -> RingView
        decreases evs.len(),
    {
        if evs.len() == 0 {
            self
        } else {
            self.pushed_all(evs.drop_last()).pushed(evs.last())
        }
    }
}

impl View for EventRing {
    type V = RingView;

    open spec fn view(&self) -> RingView {
        RingView {
            capacity: self.capacity as nat,
            buf: self.buf@,
            dropped: self.dropped,
            dropped_first_seq: self.dropped_first_seq,
        }
    }
}

impl EventRing {
    /// At least one event fits, and no more are held than fit.
    pub open spec fn wf(self) -> bool {
        &&& 0 < self.capacity
        &&& self.buf@.len() <= self.capacity
    }

    /// An empty ring for `capacity` events, or one where that is zero.
    pub fn new(capacity: usize) -> (r: EventRing)
        ensures
            r.wf(),
            r@ == RingView::empty(capacity as nat),
    {
        EventRing {
            capacity: if capacity == 0 {
                1
            } else {
                capacity
            },
            buf: VecDeque::new(),
            dropped: None,
            dropped_first_seq: None,
        }
    }

    pub fn push(&mut self, ev: MarketEvent)
        requires
            old(self).wf(),
        ensures
            final(self).wf(),
            final(self)@ == old(self)@.pushed(ev),
    {
        if self.buf.len() == self.capacity {
            if let Some(evicted) = self.buf.pop_front() {
                self.note_drop(&evicted);
            }
        }
        self.buf.push_back(ev);
        proof {
            assert(self@.buf =~= old(self)@.pushed(ev).buf);
        }
    }

    /// Account for the loss of one event.
    pub fn note_drop(&mut self, ev: &MarketEvent)
        ensures
            final(self)@ == old(self)@.noted(*ev),
            final(self).buf == old(self).buf,
            final(self).capacity == old(self).capacity,
    {
        if self.dropped_first_seq.is_none() {
            self.dropped_first_seq = Some(ev.place());
        }
        if let Some(lost) = lost_span(ev) {
            self.dropped = match self.dropped {
                Some(span) => Some(widen(span, lost)),
                None => Some(lost),
            };
        }
    }

    /// The dropped span, the place where the hole starts, and the survivors.
    pub fn into_parts(self) -> (r: (Option<GapSpan>, Option<SeqNo>, VecDeque<MarketEvent>))
        ensures
            r.0 == self@.dropped,
            r.1 == self@.dropped_first_seq,
            r.2@ == self@.buf,
    {
        (self.dropped, self.dropped_first_seq, self.buf)
    }
}

/// The hull of everything that losing `evs` loses.
pub open spec fn total_loss(evs: Seq<MarketEvent>) -> Option<GapSpan>
    decreases evs.len(),
{
    if evs.len() == 0 {
        None
    } else {
        hull_opt(total_loss(evs.drop_last()), loss_of(evs.last()@))
    }
}

/// How many of `n` events a ring of `capacity` has evicted.
pub open spec fn evicted_count(capacity: nat, n: nat) -> nat {
    if n > capacity {
        (n - capacity) as nat
    } else {
        0
    }
}

/// A ring holds the latest events that fit, in order; the dropped span is the
/// hull of everything lost before them, and the hole starts at the first
/// event that was pushed.
pub proof fn law_ring_keeps_the_latest(capacity: nat, evs: Seq<MarketEvent>)
    requires
        capacity > 0,
    ensures
        ({
            let r = RingView::empty(capacity).pushed_all(evs);
            let k = evicted_count(capacity, evs.len());
            &&& r.capacity == capacity
            &&& r.buf == evs.skip(k as int)
            &&& r.dropped == total_loss(evs.take(k as int))
            &&& r.dropped_first_seq == if k > 0 {
                Some(evs[0]@.seq())
            } else {
                None
            }
        }),
    decreases evs.len(),
{
    let k = evicted_count(capacity, evs.len());
    if evs.len() == 0 {
        assert(evs.skip(0) =~= seq![]);
    } else {
        let rest = evs.drop_last();
        law_ring_keeps_the_latest(capacity, rest);
        let kr = evicted_count(capacity, rest.len());
        let r = RingView::empty(capacity).pushed_all(rest);
        if rest.len() >= capacity {
            assert(k == kr + 1);
            assert(r.buf.len() == capacity);
            assert(r.buf.first() == evs[kr as int]);
            assert(evs.take(k as int).drop_last() =~= rest.take(kr as int));
            assert(evs.take(k as int).last() == evs[kr as int]);
            assert(r.buf.drop_first().push(evs.last()) =~= evs.skip(k as int));
        } else {
            assert(kr == 0 && k == 0);
            assert(evs.take(0) =~= rest.take(0));
            assert(r.buf.push(evs.last()) =~= evs.skip(0));
        }
    }
}

/// Whether `inner` lies in `outer`.
pub open spec fn span_within(inner: GapSpan, outer: GapSpan) -> bool {
    &&& outer.from_source_ts.0 <= inner.from_source_ts.0
    &&& inner.to_source_ts.0 <= outer.to_source_ts.0
}

/// Nothing lost goes unreported: the loss of every event in a lost sequence
/// lies in the total.
pub proof fn law_total_loss_covers_each(evs: Seq<MarketEvent>, i: int)
    requires
        0 <= i < evs.len(),
        loss_of(evs[i]@) is Some,
    ensures
        total_loss(evs) is Some,
        span_within(loss_of(evs[i]@)->0, total_loss(evs)->0),
    decreases evs.len(),
{
    if i < evs.len() - 1 {
        law_total_loss_covers_each(evs.drop_last(), i);
    }
}

/// A lost data event leaves a hole at its own source time and nowhere else; a
/// lost gap report leaves the hole that it reports; other controls leave none.
pub proof fn law_a_loss_is_where_the_event_was(ev: EventView, t: int)
    ensures
        ev is Trade || ev is Quote || ev is Bar ==> loss_of(ev) is Some && (ev.source_ts().0
            < i64::MAX ==> (loss_of(ev)->0.contains(t) <==> t == ev.source_ts().0)),
        ev is Control && ev->Control_0.kind is Gap ==> loss_of(ev) == Some(
            ev->Control_0.kind->Gap_span,
        ),
        ev is Control && !(ev->Control_0.kind is Gap) ==> loss_of(ev) is None,
{
}

/// Two spans together are the smallest span that covers both.
pub proof fn law_hull_is_the_smallest_cover(a: GapSpan, b: GapSpan, c: GapSpan)
    ensures
        span_within(a, hull(a, b)),
        span_within(b, hull(a, b)),
        span_within(a, c) && span_within(b, c) ==> span_within(hull(a, b), c),
        hull(a, b) == hull(b, a),
{
}

} // verus!
