//! Fan-out of one symbol's stamped events to its referrers.

use vstd::prelude::*;

use crate::event::{
    Control, ControlKind, ControlKindView, EventView, GapSpan, Instrument, InstrumentView,
    MarketEvent, SeqNo, Timestamp,
};
use crate::session::ring::{hull, loss_of, lost_span, span_within, widen};

use super::outlet::{Outlet, SendOutcome};

verus! {

/// The instrument whose data is missing when an event is lost.
pub open spec fn loss_instrument(ev: EventView) -> Option<InstrumentView> {
    match ev {
        EventView::Trade(t) => Some(t.instrument),
        EventView::Quote(q) => Some(q.instrument),
        EventView::Bar(b) => Some(b.instrument),
        EventView::Control(c) => match c.kind {
            ControlKindView::Gap { provider, instrument, span } => Some(instrument),
            _ => None,
        },
    }
}

/// The instrument of a data event.
pub fn data_instrument(ev: &MarketEvent) -> (r: Option<Instrument>)
    ensures
        r is Some <==> ev@.is_data(),
        r is Some ==> Some(r->0@) == loss_instrument(ev@),
{
    match ev {
        MarketEvent::Trade(t) => Some(t.instrument.clone()),
        MarketEvent::Quote(q) => Some(q.instrument.clone()),
        MarketEvent::Bar(b) => Some(b.instrument.clone()),
        MarketEvent::Control(_) => None,
    }
}

/// The instrument whose data is missing when `ev` is lost, with the provider
/// that a gap report names itself.
pub fn event_instrument(ev: &MarketEvent) -> (r: Option<(Instrument, Option<String>)>)
    ensures
        r is Some <==> loss_instrument(ev@) is Some,
        r is Some ==> Some((r->0).0@) == loss_instrument(ev@),
        r is Some ==> ((r->0).1 is Some <==> ev@ is Control),
        r is Some && ev@ is Control ==> (r->0).1->0@ == ev@->Control_0.kind->Gap_provider,
{
    match ev {
        MarketEvent::Control(
            Control { kind: ControlKind::Gap { provider, instrument, .. }, .. },
        ) => Some((instrument.clone(), Some(provider.clone()))),
        _ => match data_instrument(ev) {
            Some(instrument) => Some((instrument, None)),
            None => None,
        },
    }
}

/// Loss owed to a backed-up referrer and not yet delivered to it.
#[derive(Debug)]
pub struct PendingGap {
    pub instrument: Instrument,
    pub provider: String,
    /// Place of the first lost event: where the hole starts.
    pub first_seq: SeqNo,
    pub span: GapSpan,
}

/// The value of a [`PendingGap`].
pub struct PendingView {
    pub instrument: InstrumentView,
    pub provider: Seq<char>,
    pub first_seq: SeqNo,
    pub span: GapSpan,
}

impl View for PendingGap {
    type V = PendingView;

    open spec fn view(&self) -> PendingView {
        PendingView {
            instrument: self.instrument@,
            provider: self.provider@,
            first_seq: self.first_seq,
            span: self.span,
        }
    }
}

impl PendingView {
    /// The gap report that delivers the loss.
    pub open spec fn report(self) -> EventView {
        EventView::control(
            self.span.from_source_ts,
            self.first_seq,
            ControlKindView::Gap {
                provider: self.provider,
                instrument: self.instrument,
                span: self.span,
            },
        )
    }
}

/// The loss that a single lost event starts, where it has one.
pub open spec fn loss_started_by(ev: EventView) -> Option<PendingView> {
    match (loss_instrument(ev), loss_of(ev)) {
        (Some(instrument), Some(span)) => Some(
            PendingView {
                instrument,
                provider: match ev {
                    EventView::Control(c) => c.kind->Gap_provider,
                    _ => instrument.provider,
                },
                first_seq: ev.seq(),
                span,
            },
        ),
        _ => None,
    }
}

/// What is owed after losing `ev` as well.
pub open spec fn absorbed(pending: Option<PendingView>, ev: EventView) -> Option<PendingView> {
    match (pending, loss_started_by(ev)) {
        (Some(p), Some(l)) => Some(PendingView { span: hull(p.span, l.span), ..p }),
        (Some(p), None) => Some(p),
        (None, l) => l,
    }
}

pub open spec fn pending_view(pending: Option<PendingGap>) -> Option<PendingView> {
    match pending {
        Some(p) => Some(p@),
        None => None,
    }
}

impl PendingGap {
    /// Extend the owed span over `[from, to)`.
    pub fn absorb(&mut self, from: Timestamp, to: Timestamp)
        ensures
            final(self)@ == (PendingView {
                span: hull(old(self)@.span, GapSpan { from_source_ts: from, to_source_ts: to }),
                ..old(self)@
            }),
    {
        self.span = widen(self.span, GapSpan { from_source_ts: from, to_source_ts: to });
    }

    /// The gap report that delivers the loss.
    pub fn to_event(&self) -> (r: MarketEvent)
        ensures
            r@ == self@.report(),
    {
        MarketEvent::Control(
            Control {
                source_ts: self.span.from_source_ts,
                rx_ts: self.span.from_source_ts,
                seq: self.first_seq,
                kind: ControlKind::Gap {
                    provider: self.provider.clone(),
                    instrument: self.instrument.clone(),
                    span: self.span,
                },
            },
        )
    }
}

/// Instrument, lost range, provider and place of an event whose loss is a
/// loss of one instrument's data. Controls that concern a connection have no
/// instrument and give `None`.
pub fn gap_coords(ev: &MarketEvent) -> (r: Option<
    (Instrument, Timestamp, Timestamp, String, SeqNo),
>)
    ensures
        r is Some <==> loss_started_by(ev@) is Some,
        r matches Some(c) ==> loss_started_by(ev@) == Some(
            PendingView {
                instrument: c.0@,
                provider: c.3@,
                first_seq: c.4,
                span: GapSpan { from_source_ts: c.1, to_source_ts: c.2 },
            },
        ),
{
    match event_instrument(ev) {
        Some((instrument, own)) => {
            let provider = match own {
                Some(own) => own,
                None => instrument.provider.id.clone(),
            };
            match lost_span(ev) {
                Some(span) => Some(
                    (instrument, span.from_source_ts, span.to_source_ts, provider, ev.place()),
                ),
                None => None,
            }
        },
        None => None,
    }
}

/// Fold a lost event into what is owed, starting a loss where none is owed.
/// An event without an instrument is not recorded.
pub fn absorb_drop(pending: &mut Option<PendingGap>, ev: &MarketEvent)
    ensures
        pending_view(*final(pending)) == absorbed(pending_view(*old(pending)), ev@),
{
    match gap_coords(ev) {
        None => {},
        Some((instrument, from, to, provider, seq)) => {
            let next = match pending.take() {
                Some(p) => {
                    let mut p = p;
                    p.absorb(from, to);
                    p
                },
                None => PendingGap {
                    instrument,
                    provider,
                    first_seq: seq,
                    span: GapSpan { from_source_ts: from, to_source_ts: to },
                },
            };
            *pending = Some(next);
        },
    }
}

/// Number of a referrer within one symbol's fan-out.
#[derive(Clone, Copy, Debug, PartialEq, Eq, Hash, Structural)]
pub struct SubscriberId(pub u64);

/// A referrer: its channel, and the loss that is owed to it.
pub struct Referrer {
    pub id: SubscriberId,
    pub outlet: Outlet,
    pub pending: Option<PendingGap>,
    /// Everything fanned out to the referrer since it joined.
    pub offered: Ghost<Seq<MarketEvent>>,
}

/// What follows an attempt to deliver the owed loss.
#[derive(Clone, Copy, Debug, PartialEq, Eq, Structural)]
pub enum AfterOwed {
    /// Nothing is owed any more; the event itself is next.
    OfferEvent,
    /// The referrer is still backed up; the event joins what is owed.
    Hold,
    /// The referrer is gone.
    Gone,
}

/// Whether the loss of `ev` is visible in what was sent or in what is owed.
pub open spec fn accounted(
    ev: MarketEvent,
    sent: Seq<MarketEvent>,
    pending: Option<PendingView>,
) -> bool {
    ||| loss_of(ev@) is None
    ||| exists|j: int| 0 <= j < sent.len() && #[trigger] sent[j] == ev
    ||| exists|j: int| 0 <= j < sent.len() && reports(#[trigger] sent[j]@, loss_of(ev@)->0)
    ||| pending is Some && span_within(loss_of(ev@)->0, pending->0.span)
}

/// Whether all data that was sent was fanned out.
pub open spec fn no_data_made_up(sent: Seq<MarketEvent>, offered: Seq<MarketEvent>) -> bool {
    forall|i: int|
        0 <= i < sent.len() && (#[trigger] sent[i])@.is_data() ==> offered.contains(sent[i])
}

/// Whether an event is a gap report over the span.
pub open spec fn reports(ev: EventView, span: GapSpan) -> bool {
    &&& ev is Control
    &&& ev->Control_0.kind is Gap
    &&& span_within(span, ev->Control_0.kind->Gap_span)
}

/// The events that a channel accepted, in order.
pub open spec fn accepted_of(offers: Seq<(MarketEvent, SendOutcome)>) -> Seq<MarketEvent>
    decreases offers.len(),
{
    if offers.len() == 0 {
        seq![]
    } else if offers.last().1 is Accepted {
        accepted_of(offers.drop_last()).push(offers.last().0)
    } else {
        accepted_of(offers.drop_last())
    }
}

proof fn lemma_accepted_push(offers: Seq<(MarketEvent, SendOutcome)>, o: (MarketEvent, SendOutcome))
    ensures
        accepted_of(offers.push(o)) == if o.1 is Accepted {
            accepted_of(offers).push(o.0)
        } else {
            accepted_of(offers)
        },
{
    assert(offers.push(o).drop_last() =~= offers);
}

impl Referrer {
    pub open spec fn owes(self) -> Option<PendingView> {
        pending_view(self.pending)
    }

    /// Everything that was offered to the referrer's channel, with what became
    /// of it.
    pub open spec fn offers(self) -> Seq<(MarketEvent, SendOutcome)> {
        self.outlet.offers()
    }

    /// What the referrer's channel accepted.
    pub open spec fn sent(self) -> Seq<MarketEvent> {
        accepted_of(self.offers())
    }

    /// Whether the channel's latest answer was that its receiver is gone.
    pub open spec fn found_closed(self) -> bool {
        self.offers().len() > 0 && self.offers().last().1 is Closed
    }

    /// Nothing is lost silently: every event fanned out to the referrer was
    /// sent to it, or its loss was reported or is still owed. And no data is
    /// made up: what was sent was fanned out.
    pub open spec fn wf(self) -> bool {
        &&& forall|i: int|
            0 <= i < self.offered@.len() ==> accounted(
                #[trigger] self.offered@[i],
                self.sent(),
                self.owes(),
            )
        &&& no_data_made_up(self.sent(), self.offered@)
    }

    /// A new referrer, to which nothing has been fanned out.
    pub fn new(id: SubscriberId, outlet: Outlet) -> (r: Referrer)
        ensures
            no_data_made_up(accepted_of(outlet.offers()), seq![]) ==> r.wf(),
            r.id == id,
            r.outlet == outlet,
            r.owes() is None,
            r.offered@ == Seq::<MarketEvent>::empty(),
    {
        Referrer { id, outlet, pending: None, offered: Ghost(Seq::empty()) }
    }

    /// The gap report that must go ahead of the next event, where loss is owed.
    pub fn owed(&self) -> (r: Option<MarketEvent>)
        ensures
            r is Some <==> self.owes() is Some,
            r is Some ==> r->0@ == self.owes()->0.report(),
    {
        match &self.pending {
            Some(p) => Some(p.to_event()),
            None => None,
        }
    }

    /// What follows when the channel did `outcome` with the owed gap report
    /// that went ahead of `ev`.
    pub fn after_owed(&mut self, ev: &MarketEvent, outcome: SendOutcome) -> (r: AfterOwed)
        ensures
            final(self).id == old(self).id,
            final(self).outlet == old(self).outlet,
            final(self).offered == old(self).offered,
            match outcome {
                SendOutcome::Accepted => r is OfferEvent && final(self).owes() is None,
                SendOutcome::Full => r is Hold && final(self).owes() == absorbed(
                    old(self).owes(),
                    ev@,
                ),
                SendOutcome::Closed => r is Gone && final(self).owes() == old(self).owes(),
            },
    {
        match outcome {
            SendOutcome::Accepted => {
                self.pending = None;
                AfterOwed::OfferEvent
            },
            SendOutcome::Full => {
                absorb_drop(&mut self.pending, ev);
                AfterOwed::Hold
            },
            SendOutcome::Closed => AfterOwed::Gone,
        }
    }

    /// What follows when the channel did `outcome` with `ev` itself; `false`
    /// where the referrer is gone.
    pub fn after_event(&mut self, ev: &MarketEvent, outcome: SendOutcome) -> (alive: bool)
        ensures
            final(self).id == old(self).id,
            final(self).outlet == old(self).outlet,
            final(self).offered == old(self).offered,
            alive == !(outcome is Closed),
            final(self).owes() == if outcome is Full {
                absorbed(old(self).owes(), ev@)
            } else {
                old(self).owes()
            },
    {
        match outcome {
            SendOutcome::Accepted => true,
            SendOutcome::Full => {
                absorb_drop(&mut self.pending, ev);
                true
            },
            SendOutcome::Closed => false,
        }
    }

    /// Hand one event to the referrer: the owed gap report first, so that it
    /// stands ahead of resumed delivery, then the event. What a full channel
    /// refuses is owed. `false` where the channel's receiver is gone.
    pub fn serve(&mut self, ev: &MarketEvent) -> (alive: bool)
        requires
            old(self).wf(),
        ensures
            served(*old(self), *ev, *final(self)),
            alive == !final(self).found_closed(),
            alive ==> final(self).wf(),
    {
        let ghost pre = *self;
        proof {
            self.offered@ = self.offered@.push(*ev);
            lemma_more_offered(pre.sent(), pre.offered@, *ev);
        }
        if let Some(gap) = self.owed() {
            let ghost g = gap;
            let outcome = self.outlet.offer(gap);
            proof {
                lemma_accepted_push(pre.offers(), (g, outcome));
                assert(self.offers()[pre.offers().len() as int] == (g, outcome));
            }
            match self.after_owed(ev, outcome) {
                AfterOwed::OfferEvent => {
                    proof {
                        lemma_report_accounts(pre, g);
                        lemma_report_is_no_data(pre.sent(), pre.offered@.push(*ev), g);
                    }
                },
                AfterOwed::Hold => {
                    proof {
                        lemma_absorb_accounts(pre, *ev, self.owes());
                        assert(pre.offered@.push(*ev) == self.offered@);
                    }
                    return true;
                },
                AfterOwed::Gone => {
                    return false;
                },
            }
        }
        let ghost mid = *self;
        let outcome = self.outlet.offer(ev.clone());
        let alive = self.after_event(ev, outcome);
        proof {
            lemma_accepted_push(mid.offers(), (*ev, outcome));
            assert(self.offers()[mid.offers().len() as int] == (*ev, outcome));
            if alive {
                assert forall|i: int| 0 <= i < self.offered@.len() implies accounted(
                    #[trigger] self.offered@[i],
                    self.sent(),
                    self.owes(),
                ) by {
                    let x = self.offered@[i];
                    if i < pre.offered@.len() {
                        assert(x == pre.offered@[i]);
                        assert(accounted(x, mid.sent(), mid.owes()));
                        assert(mid.sent().push(*ev).drop_last() =~= mid.sent());
                        lemma_accounted_grows(x, mid.sent(), self.sent(), mid.owes(), self.owes());
                    } else {
                        assert(x == *ev);
                        if outcome is Accepted {
                            assert(self.sent().last() == *ev);
                        }
                    }
                }
                assert(self.offered@[pre.offered@.len() as int] == *ev);
            }
        }
        alive
    }
}

/// What handing `ev` to a referrer does to it, for whatever its channel does.
/// Owed loss is offered first, as a gap report; behind one that is accepted,
/// and where none is owed, the event is offered. An event that finds the
/// channel full, or waits behind a report that does, joins what is owed.
pub open spec fn served(pre: Referrer, ev: MarketEvent, post: Referrer) -> bool {
    let n = pre.offers().len() as int;
    &&& post.id == pre.id
    &&& post.outlet.channel() == pre.outlet.channel()
    &&& post.offered@ == pre.offered@.push(ev)
    &&& match pre.owes() {
        None => {
            &&& post.offers().len() == n + 1
            &&& post.offers() == pre.offers().push(post.offers()[n])
            &&& post.offers()[n].0 == ev
            &&& post.owes() == owed_behind(ev, post.offers()[n].1)
        },
        Some(p) => {
            &&& post.offers().len() > n
            &&& post.offers()[n].0@ == p.report()
            &&& match post.offers()[n].1 {
                SendOutcome::Full => {
                    &&& post.offers() == pre.offers().push(post.offers()[n])
                    &&& post.owes() == absorbed(Some(p), ev@)
                },
                SendOutcome::Closed => {
                    &&& post.offers() == pre.offers().push(post.offers()[n])
                    &&& post.owes() == Some(p)
                },
                SendOutcome::Accepted => {
                    &&& post.offers().len() == n + 2
                    &&& post.offers() == pre.offers().push(post.offers()[n]).push(
                        post.offers()[n + 1],
                    )
                    &&& post.offers()[n + 1].0 == ev
                    &&& post.owes() == owed_behind(ev, post.offers()[n + 1].1)
                },
            }
        },
    }
}

/// What is owed behind the offer of an event, where nothing was owed before.
pub open spec fn owed_behind(ev: MarketEvent, outcome: SendOutcome) -> Option<PendingView> {
    if outcome is Full {
        absorbed(None, ev@)
    } else {
        None
    }
}

proof fn lemma_more_offered(sent: Seq<MarketEvent>, offered: Seq<MarketEvent>, ev: MarketEvent)
    requires
        no_data_made_up(sent, offered),
    ensures
        no_data_made_up(sent, offered.push(ev)),
{
    assert forall|i: int|
        0 <= i < sent.len() && (#[trigger] sent[i])@.is_data() implies offered.push(ev).contains(
        sent[i],
    ) by {
        assert(offered.contains(sent[i]));
        let k = choose|k: int| 0 <= k < offered.len() && offered[k] == sent[i];
        assert(offered.push(ev)[k] == sent[i]);
    }
}

proof fn lemma_report_is_no_data(sent: Seq<MarketEvent>, offered: Seq<MarketEvent>, g: MarketEvent)
    requires
        no_data_made_up(sent, offered),
        !g@.is_data(),
    ensures
        no_data_made_up(sent.push(g), offered),
{
    assert forall|i: int|
        0 <= i < sent.push(g).len() && (#[trigger] sent.push(g)[i])@.is_data() implies
        offered.contains(sent.push(g)[i]) by {
        if i < sent.len() {
            assert(sent.push(g)[i] == sent[i]);
        }
    }
}

/// Sending more, or owing more, never hides a loss that was accounted for.
proof fn lemma_accounted_grows(
    ev: MarketEvent,
    sent: Seq<MarketEvent>,
    sent2: Seq<MarketEvent>,
    owes: Option<PendingView>,
    owes2: Option<PendingView>,
)
    requires
        accounted(ev, sent, owes),
        sent2 == sent || (sent2.len() == sent.len() + 1 && sent2.drop_last() == sent),
        owes is Some ==> owes2 is Some && span_within(owes->0.span, owes2->0.span),
    ensures
        accounted(ev, sent2, owes2),
{
    if sent2 != sent {
        assert forall|j: int| 0 <= j < sent.len() implies #[trigger] sent2[j] == sent[j] by {
            assert(sent2.drop_last()[j] == sent[j]);
        }
    }
    if loss_of(ev@) is Some {
        if exists|j: int| 0 <= j < sent.len() && #[trigger] sent[j] == ev {
            let j = choose|j: int| 0 <= j < sent.len() && #[trigger] sent[j] == ev;
            assert(sent2[j] == ev);
        } else if exists|j: int|
            0 <= j < sent.len() && reports(#[trigger] sent[j]@, loss_of(ev@)->0) {
            let j = choose|j: int|
                0 <= j < sent.len() && reports(#[trigger] sent[j]@, loss_of(ev@)->0);
            assert(reports(sent2[j]@, loss_of(ev@)->0));
        }
    }
}

/// Delivering the owed report keeps every earlier event accounted for.
proof fn lemma_report_accounts(pre: Referrer, g: MarketEvent)
    requires
        pre.wf(),
        pre.owes() is Some,
        g@ == pre.owes()->0.report(),
    ensures
        forall|i: int|
            0 <= i < pre.offered@.len() ==> accounted(
                #[trigger] pre.offered@[i],
                pre.sent().push(g),
                None,
            ),
{
    let sent2 = pre.sent().push(g);
    assert forall|i: int| 0 <= i < pre.offered@.len() implies accounted(
        #[trigger] pre.offered@[i],
        sent2,
        None,
    ) by {
        let x = pre.offered@[i];
        assert(accounted(x, pre.sent(), pre.owes()));
        if loss_of(x@) is Some {
            if span_within(loss_of(x@)->0, pre.owes()->0.span) {
                assert(sent2[pre.sent().len() as int] == g);
                assert(reports(g@, loss_of(x@)->0));
            } else {
                assert(sent2.drop_last() =~= pre.sent());
                lemma_accounted_grows(x, pre.sent(), sent2, None, None);
            }
        }
    }
}

/// Owing the event as well keeps everything accounted for.
proof fn lemma_absorb_accounts(pre: Referrer, ev: MarketEvent, owes2: Option<PendingView>)
    requires
        pre.wf(),
        owes2 == absorbed(pre.owes(), ev@),
    ensures
        forall|i: int|
            0 <= i < pre.offered@.push(ev).len() ==> accounted(
                #[trigger] pre.offered@.push(ev)[i],
                pre.sent(),
                owes2,
            ),
{
    assert forall|i: int| 0 <= i < pre.offered@.push(ev).len() implies accounted(
        #[trigger] pre.offered@.push(ev)[i],
        pre.sent(),
        owes2,
    ) by {
        if i < pre.offered@.len() {
            let x = pre.offered@[i];
            assert(accounted(x, pre.sent(), pre.owes()));
            lemma_accounted_grows(x, pre.sent(), pre.sent(), pre.owes(), owes2);
        }
    }
}

/// Whether an event announces an active subscription.
pub open spec fn announces_subscription(ev: EventView) -> bool {
    &&& ev is Control
    &&& ev->Control_0.kind is SubscriptionChanged
    &&& ev->Control_0.kind->SubscriptionChanged_active
}

/// The consumer side of one symbol's live session: a bounded channel per
/// referrer. Delivery never waits, so a slow referrer stalls neither its
/// co-referrers nor the provider.
pub struct FanOut {
    pub subscribers: Vec<Referrer>,
    /// The latest announcement of an active subscription, replayed to each
    /// referrer that joins.
    pub last_subscription_changed: Option<MarketEvent>,
    /// Whether there has been a referrer, which tells an empty fan-out that
    /// nobody has joined yet from one that the last referrer has left.
    pub had_subscriber: bool,
    /// The referrers that left because their channel was found closed.
    pub departed: Ghost<Seq<Referrer>>,
    /// Everything fanned out, in order.
    pub delivered: Ghost<Seq<MarketEvent>>,
}

/// No two referrers have the same number.
pub open spec fn distinct_ids(subs: Seq<Referrer>) -> bool {
    forall|i: int, j: int|
        0 <= i < j < subs.len() ==> (#[trigger] subs[i]).id != (#[trigger] subs[j]).id
}

pub open spec fn has_id(subs: Seq<Referrer>, id: SubscriberId) -> bool {
    exists|i: int| 0 <= i < subs.len() && (#[trigger] subs[i]).id == id
}

/// Whether the referrer `pre` was served `ev`, and stayed or left by what its
/// channel said.
pub open spec fn came_through(
    pre: Referrer,
    ev: MarketEvent,
    post: Seq<Referrer>,
    departed: Seq<Referrer>,
) -> bool {
    ||| exists|j: int|
        0 <= j < post.len() && (#[trigger] post[j]).id == pre.id && served(pre, ev, post[j])
            && !post[j].found_closed()
    ||| exists|d: int|
        0 <= d < departed.len() && (#[trigger] departed[d]).id == pre.id && served(
            pre,
            ev,
            departed[d],
        ) && departed[d].found_closed()
}

/// What delivering `ev` to every referrer does.
pub open spec fn fanned_out(pre: FanOut, ev: MarketEvent, post: FanOut) -> bool {
    &&& post.delivered@ == pre.delivered@.push(ev)
    &&& post.had_subscriber == pre.had_subscriber
    &&& post.departed@.len() >= pre.departed@.len()
    &&& post.departed@.take(pre.departed@.len() as int) == pre.departed@
    &&& post.subscribers@.len() + post.departed@.len() == pre.subscribers@.len()
        + pre.departed@.len()
    &&& post.last_subscription_changed == if announces_subscription(ev@) {
        Some(ev)
    } else {
        pre.last_subscription_changed
    }
    &&& forall|i: int|
        0 <= i < pre.subscribers@.len() ==> came_through(
            #[trigger] pre.subscribers@[i],
            ev,
            post.subscribers@,
            post.departed@.skip(pre.departed@.len() as int),
        )
    &&& forall|j: int|
        0 <= j < post.subscribers@.len() ==> has_id(
            pre.subscribers@,
            (#[trigger] post.subscribers@[j]).id,
        )
}

pub open spec fn is_suffix(a: Seq<MarketEvent>, b: Seq<MarketEvent>) -> bool {
    a.len() <= b.len() && a == b.skip(b.len() - a.len())
}

impl FanOut {
    pub open spec fn wf(self) -> bool {
        &&& distinct_ids(self.subscribers@)
        &&& forall|i: int|
            0 <= i < self.subscribers@.len() ==> (#[trigger] self.subscribers@[i]).wf()
        &&& forall|i: int|
            0 <= i < self.subscribers@.len() ==> is_suffix(
                (#[trigger] self.subscribers@[i]).offered@,
                self.delivered@,
            )
        &&& self.subscribers@.len() > 0 ==> self.had_subscriber
        &&& self.last_subscription_changed matches Some(ev) ==> announces_subscription(ev@)
    }

    pub fn new() -> (r: FanOut)
        ensures
            r.wf(),
            r.subscribers@.len() == 0,
            r.last_subscription_changed is None,
            !r.had_subscriber,
            r.departed@ == Seq::<Referrer>::empty(),
            r.delivered@ == Seq::<MarketEvent>::empty(),
    {
        FanOut {
            subscribers: Vec::new(),
            last_subscription_changed: None,
            had_subscriber: false,
            departed: Ghost(Seq::empty()),
            delivered: Ghost(Seq::empty()),
        }
    }

    /// Position of the referrer `id`, or the number of referrers.
    fn position(&self, id: SubscriberId) -> (k: usize)
        ensures
            k <= self.subscribers@.len(),
            k < self.subscribers@.len() ==> self.subscribers@[k as int].id == id,
            k == self.subscribers@.len() <==> !has_id(self.subscribers@, id),
    {
        let mut k: usize = 0;
        while k < self.subscribers.len() && self.subscribers[k].id != id
            invariant
                0 <= k <= self.subscribers@.len(),
                forall|i: int| 0 <= i < k ==> (#[trigger] self.subscribers@[i]).id != id,
            decreases self.subscribers@.len() - k,
        {
            k += 1;
        }
        k
    }

    /// Join a referrer under `id`, in place of one that has the number. The
    /// latest announcement of an active subscription is offered to its channel
    /// first, whatever the channel does with it.
    pub fn add(&mut self, id: SubscriberId, sender: tokio::sync::mpsc::Sender<MarketEvent>)
        requires
            old(self).wf(),
        ensures
            final(self).wf(),
            subscribed(*old(self), id, sender, *final(self)),
    {
        self.had_subscriber = true;
        let mut outlet = Outlet::new(sender);
        proof {
            assert(accepted_of(outlet.offers()) =~= seq![]);
        }
        if let Some(ev) = &self.last_subscription_changed {
            let ghost none = outlet.offers();
            let outcome = outlet.offer(ev.clone());
            proof {
                lemma_accepted_push(none, (*ev, outcome));
            }
        }
        let referrer = Referrer::new(id, outlet);
        proof {
            assert(is_suffix(referrer.offered@, self.delivered@)) by {
                assert(self.delivered@.skip(self.delivered@.len() as int) =~= seq![]);
            }
        }
        let k: usize = self.position(id);
        if k < self.subscribers.len() {
            self.subscribers.set(k, referrer);
        } else {
            self.subscribers.push(referrer);
            proof {
                assert(self.subscribers@.drop_last() =~= old(self).subscribers@);
            }
        }
    }

    /// Drop the referrer `id`, where there is one.
    pub fn remove(&mut self, id: SubscriberId)
        requires
            old(self).wf(),
        ensures
            final(self).wf(),
            unsubscribed(*old(self), id, *final(self)),
    {
        let k: usize = self.position(id);
        if k < self.subscribers.len() {
            let _ = self.subscribers.remove(k);
            proof {
                lemma_distinct_after_remove(old(self).subscribers@, k as int);
            }
        }
    }

    /// Whether the last referrer has left: there has been one, and there is
    /// none any more.
    pub fn should_teardown(&self) -> (r: bool)
        ensures
            r == (self.had_subscriber && self.subscribers@.len() == 0),
    {
        self.had_subscriber && self.subscribers.len() == 0
    }

    /// Number of attached referrers.
    pub fn subscriber_count(&self) -> (r: usize)
        ensures
            r == self.subscribers@.len(),
    {
        self.subscribers.len()
    }

    /// Deliver one stamped event to every referrer, and drop those whose
    /// channel is closed. An announcement of an active subscription is kept
    /// for referrers that join later.
    pub fn fanout(&mut self, ev: &MarketEvent)
        requires
            old(self).wf(),
        ensures
            final(self).wf(),
            fanned_out(*old(self), *ev, *final(self)),
    {
        if let MarketEvent::Control(
            Control { kind: ControlKind::SubscriptionChanged { active: true, .. }, .. },
        ) = ev {
            self.last_subscription_changed = Some(ev.clone());
        }
        let ghost pre = old(self).subscribers@;
        let ghost gone = old(self).departed@;
        let ghost mut p: int = 0;
        let ghost log = self.delivered@;
        proof {
            self.delivered@ = self.delivered@.push(*ev);
            assert(gone.take(gone.len() as int) =~= gone);
        }
        let mut k: usize = 0;
        while k < self.subscribers.len()
            invariant
                pre == old(self).subscribers@,
                gone == old(self).departed@,
                distinct_ids(pre),
                0 <= k <= self.subscribers@.len(),
                0 <= p <= pre.len(),
                k <= p,
                self.subscribers@.len() - k == pre.len() - p,
                distinct_ids(self.subscribers@),
                forall|j: int|
                    k <= j < self.subscribers@.len() ==> #[trigger] self.subscribers@[j] == pre[j
                        - k + p],
                forall|j: int|
                    0 <= j < self.subscribers@.len() ==> (#[trigger] self.subscribers@[j]).wf(),
                forall|j: int|
                    0 <= j < self.subscribers@.len() ==> has_id(
                        pre,
                        (#[trigger] self.subscribers@[j]).id,
                    ),
                self.departed@.len() >= gone.len(),
                self.departed@.take(gone.len() as int) == gone,
                self.subscribers@.len() + self.departed@.len() == pre.len() + gone.len(),
                forall|i: int|
                    0 <= i < p ==> came_through_before(
                        #[trigger] pre[i],
                        *ev,
                        self.subscribers@,
                        k as int,
                        self.departed@.skip(gone.len() as int),
                    ),
                log == old(self).delivered@,
                self.delivered@ == log.push(*ev),
                forall|j: int|
                    0 <= j < k ==> is_suffix(
                        (#[trigger] self.subscribers@[j]).offered@,
                        log.push(*ev),
                    ),
                forall|j: int|
                    k <= j < self.subscribers@.len() ==> is_suffix(
                        (#[trigger] self.subscribers@[j]).offered@,
                        log,
                    ),
                self.had_subscriber == old(self).had_subscriber,
                self.had_subscriber || pre.len() == 0,
                self.last_subscription_changed == if announces_subscription(ev@) {
                    Some(*ev)
                } else {
                    old(self).last_subscription_changed
                },
            decreases pre.len() - p,
        {
            let ghost before = self.subscribers@;
            let ghost left = self.departed@.skip(gone.len() as int);
            let alive = self.subscribers[k].serve(ev);
            let ghost after = self.subscribers@[k as int];
            proof {
                assert(self.subscribers@ =~= before.update(k as int, after));
                lemma_suffix_push(before[k as int].offered@, log, *ev);
                assert(before[k as int] == pre[p]);
                assert forall|i: int, j: int|
                    0 <= i < j < self.subscribers@.len() implies (#[trigger] self.subscribers@[i]).id
                    != (#[trigger] self.subscribers@[j]).id by {
                    assert(before[i].id != before[j].id);
                }
            }
            if alive {
                proof {
                    assert forall|i: int| 0 <= i < p + 1 implies came_through_before(
                        #[trigger] pre[i],
                        *ev,
                        self.subscribers@,
                        k as int + 1,
                        left,
                    ) by {
                        if i < p {
                            lemma_came_through_keeps(
                                pre[i],
                                *ev,
                                before,
                                self.subscribers@,
                                k as int,
                                left,
                                left,
                            );
                        } else {
                            assert(self.subscribers@[k as int].id == pre[p].id);
                        }
                    }
                }
                k += 1;
            } else {
                let ghost now = self.subscribers@;
                let _ = self.subscribers.remove(k);
                proof {
                    self.departed@ = self.departed@.push(after);
                    let left2 = self.departed@.skip(gone.len() as int);
                    assert(left2 =~= left.push(after));
                    assert(self.departed@.take(gone.len() as int) =~= gone);
                    lemma_distinct_after_remove(now, k as int);
                    assert forall|j: int| 0 <= j < self.subscribers@.len() implies (
                    #[trigger] self.subscribers@[j]).wf() && has_id(
                        pre,
                        self.subscribers@[j].id,
                    ) by {
                        if j < k {
                            assert(self.subscribers@[j] == before[j]);
                        } else {
                            assert(self.subscribers@[j] == before[j + 1]);
                        }
                    }
                    assert forall|i: int| 0 <= i < p + 1 implies came_through_before(
                        #[trigger] pre[i],
                        *ev,
                        self.subscribers@,
                        k as int,
                        left2,
                    ) by {
                        if i < p {
                            lemma_came_through_keeps(
                                pre[i],
                                *ev,
                                before,
                                self.subscribers@,
                                k as int,
                                left,
                                left2,
                            );
                        } else {
                            assert(left2[left.len() as int].id == pre[p].id);
                        }
                    }
                }
            }
            proof {
                p = p + 1;
            }
        }
        proof {
            assert forall|i: int| 0 <= i < pre.len() implies came_through(
                #[trigger] pre[i],
                *ev,
                self.subscribers@,
                self.departed@.skip(gone.len() as int),
            ) by {
                assert(came_through_before(
                    pre[i],
                    *ev,
                    self.subscribers@,
                    k as int,
                    self.departed@.skip(gone.len() as int),
                ));
            }
        }
    }
}

/// What joining under `id` makes of a referrer: nothing has been fanned out to
/// it and nothing is owed to it; its channel has been offered the cached
/// announcement, where there is one, and nothing else.
pub open spec fn joined(
    r: Referrer,
    id: SubscriberId,
    sender: tokio::sync::mpsc::Sender<MarketEvent>,
    cached: Option<MarketEvent>,
) -> bool {
    &&& r.id == id
    &&& r.outlet.channel() == sender
    &&& r.owes() is None
    &&& r.offered@.len() == 0
    &&& match cached {
        None => r.offers().len() == 0,
        Some(ev) => r.offers().len() == 1 && r.offers()[0].0 == ev,
    }
}

/// `id` is subscribed: in the place it had, or else behind the others, who are
/// left alone.
pub open spec fn subscribed(
    pre: FanOut,
    id: SubscriberId,
    sender: tokio::sync::mpsc::Sender<MarketEvent>,
    post: FanOut,
) -> bool {
    &&& post.had_subscriber
    &&& post.last_subscription_changed == pre.last_subscription_changed
    &&& post.departed == pre.departed
    &&& post.delivered == pre.delivered
    &&& !has_id(pre.subscribers@, id) ==> {
        &&& post.subscribers@.len() == pre.subscribers@.len() + 1
        &&& post.subscribers@.drop_last() == pre.subscribers@
        &&& joined(post.subscribers@.last(), id, sender, pre.last_subscription_changed)
    }
    &&& has_id(pre.subscribers@, id) ==> {
        &&& post.subscribers@.len() == pre.subscribers@.len()
        &&& forall|i: int|
            0 <= i < pre.subscribers@.len() ==> if (#[trigger] pre.subscribers@[i]).id == id {
                joined(post.subscribers@[i], id, sender, pre.last_subscription_changed)
            } else {
                post.subscribers@[i] == pre.subscribers@[i]
            }
    }
}

/// `id` is gone, and the others are left alone.
pub open spec fn unsubscribed(pre: FanOut, id: SubscriberId, post: FanOut) -> bool {
    &&& post.had_subscriber == pre.had_subscriber
    &&& post.last_subscription_changed == pre.last_subscription_changed
    &&& post.departed == pre.departed
    &&& post.delivered == pre.delivered
    &&& !has_id(post.subscribers@, id)
    &&& !has_id(pre.subscribers@, id) ==> post.subscribers@ == pre.subscribers@
    &&& has_id(pre.subscribers@, id) ==> exists|i: int|
        0 <= i < pre.subscribers@.len() && (#[trigger] pre.subscribers@[i]).id == id
            && post.subscribers@ == pre.subscribers@.remove(i)
}

/// Once subscribed, `id` is among the referrers.
pub proof fn lemma_subscribed_has_id(
    pre: FanOut,
    id: SubscriberId,
    sender: tokio::sync::mpsc::Sender<MarketEvent>,
    post: FanOut,
)
    requires
        subscribed(pre, id, sender, post),
    ensures
        has_id(post.subscribers@, id),
{
    if has_id(pre.subscribers@, id) {
        let i = choose|i: int|
            0 <= i < pre.subscribers@.len() && (#[trigger] pre.subscribers@[i]).id == id;
        assert(post.subscribers@[i].id == id);
    } else {
        assert(post.subscribers@[post.subscribers@.len() - 1].id == id);
    }
}

/// Leaving undoes joining: where `id` was not subscribed, subscribing and
/// unsubscribing it leaves the other referrers, and their order, as they were.
pub proof fn law_leaving_undoes_joining(
    pre: FanOut,
    id: SubscriberId,
    sender: tokio::sync::mpsc::Sender<MarketEvent>,
    mid: FanOut,
    post: FanOut,
)
    requires
        !has_id(pre.subscribers@, id),
        subscribed(pre, id, sender, mid),
        unsubscribed(mid, id, post),
    ensures
        post.subscribers@ == pre.subscribers@,
        post.delivered == pre.delivered,
        post.departed == pre.departed,
        post.last_subscription_changed == pre.last_subscription_changed,
{
    lemma_subscribed_has_id(pre, id, sender, mid);
    let i = choose|i: int|
        0 <= i < mid.subscribers@.len() && (#[trigger] mid.subscribers@[i]).id == id
            && post.subscribers@ == mid.subscribers@.remove(i);
    if i < mid.subscribers@.len() - 1 {
        assert(pre.subscribers@[i] == mid.subscribers@[i]);
        assert(has_id(pre.subscribers@, id));
    }
    assert(mid.subscribers@.remove(i) =~= mid.subscribers@.drop_last());
}

/// [`came_through`], with the place among the first `k` referrers.
spec fn came_through_before(
    pre: Referrer,
    ev: MarketEvent,
    post: Seq<Referrer>,
    k: int,
    departed: Seq<Referrer>,
) -> bool {
    ||| exists|j: int|
        0 <= j < k && j < post.len() && (#[trigger] post[j]).id == pre.id && served(
            pre,
            ev,
            post[j],
        ) && !post[j].found_closed()
    ||| exists|d: int|
        0 <= d < departed.len() && (#[trigger] departed[d]).id == pre.id && served(
            pre,
            ev,
            departed[d],
        ) && departed[d].found_closed()
}

proof fn lemma_came_through_keeps(
    pre: Referrer,
    ev: MarketEvent,
    post: Seq<Referrer>,
    post2: Seq<Referrer>,
    k: int,
    departed: Seq<Referrer>,
    departed2: Seq<Referrer>,
)
    requires
        came_through_before(pre, ev, post, k, departed),
        k <= post2.len(),
        forall|j: int| 0 <= j < k && j < post.len() ==> #[trigger] post2[j] == post[j],
        departed2.len() >= departed.len(),
        forall|d: int| 0 <= d < departed.len() ==> #[trigger] departed2[d] == departed[d],
    ensures
        came_through_before(pre, ev, post2, k, departed2),
        came_through_before(pre, ev, post2, k + 1, departed2),
{
    if exists|j: int|
        0 <= j < k && j < post.len() && (#[trigger] post[j]).id == pre.id && served(
            pre,
            ev,
            post[j],
        ) && !post[j].found_closed() {
        let j = choose|j: int|
            0 <= j < k && j < post.len() && (#[trigger] post[j]).id == pre.id && served(
                pre,
                ev,
                post[j],
            ) && !post[j].found_closed();
        assert(post2[j] == post[j]);
    } else {
        let d = choose|d: int|
            0 <= d < departed.len() && (#[trigger] departed[d]).id == pre.id && served(
                pre,
                ev,
                departed[d],
            ) && departed[d].found_closed();
        assert(departed2[d] == departed[d]);
    }
}

proof fn lemma_suffix_push(a: Seq<MarketEvent>, b: Seq<MarketEvent>, ev: MarketEvent)
    requires
        is_suffix(a, b),
    ensures
        is_suffix(a.push(ev), b.push(ev)),
{
    assert(a.push(ev) =~= b.push(ev).skip(b.push(ev).len() - a.push(ev).len()));
}

/// Two referrers of a symbol are handed the same events with the same places
/// in the same order, from the moment that the later one joined.
pub proof fn law_referrers_are_handed_the_same_events(f: FanOut, i: int, j: int)
    requires
        f.wf(),
        0 <= i < f.subscribers@.len(),
        0 <= j < f.subscribers@.len(),
        f.subscribers@[i].offered@.len() <= f.subscribers@[j].offered@.len(),
    ensures
        is_suffix(f.subscribers@[i].offered@, f.subscribers@[j].offered@),
{
    let a = f.subscribers@[i].offered@;
    let b = f.subscribers@[j].offered@;
    assert(is_suffix(a, f.delivered@) && is_suffix(b, f.delivered@));
    assert(a =~= b.skip(b.len() - a.len()));
}

/// Data that a referrer's channel accepted was fanned out: where in the order
/// of everything delivered it stands.
pub proof fn lemma_sent_data_was_delivered(f: FanOut, i: int, a: int) -> (k: int)
    requires
        f.wf(),
        0 <= i < f.subscribers@.len(),
        0 <= a < f.subscribers@[i].sent().len(),
        f.subscribers@[i].sent()[a]@.is_data(),
    ensures
        0 <= k < f.delivered@.len(),
        f.delivered@[k] == f.subscribers@[i].sent()[a],
{
    let r = f.subscribers@[i];
    assert(r.wf() && is_suffix(r.offered@, f.delivered@));
    assert(r.offered@.contains(r.sent()[a]));
    let m = choose|m: int| 0 <= m < r.offered@.len() && r.offered@[m] == r.sent()[a];
    let k = f.delivered@.len() - r.offered@.len() + m;
    assert(f.delivered@.skip(f.delivered@.len() - r.offered@.len())[m] == f.delivered@[k]);
    k
}

/// A referrer's stream in order: places strictly ascend, all of them before
/// `next`, and a loss that is owed starts behind everything sent.
pub open spec fn in_order(r: Referrer, next: int) -> bool {
    &&& forall|i: int, j: int|
        0 <= i < j < r.sent().len() ==> (#[trigger] r.sent()[i])@.seq().0 < (
        #[trigger] r.sent()[j])@.seq().0
    &&& forall|i: int| 0 <= i < r.sent().len() ==> (#[trigger] r.sent()[i])@.seq().0 < next
    &&& r.owes() matches Some(p) ==> {
        &&& p.first_seq.0 < next
        &&& forall|i: int|
            0 <= i < r.sent().len() ==> (#[trigger] r.sent()[i])@.seq().0 < p.first_seq.0
    }
}

/// Whatever its channel does, a referrer's stream stays in order when an
/// event with a later place is handed to it: reports of loss included.
pub proof fn law_streams_stay_in_order(pre: Referrer, ev: MarketEvent, post: Referrer)
    requires
        in_order(pre, ev@.seq().0 as int),
        served(pre, ev, post),
    ensures
        in_order(post, ev@.seq().0 + 1),
{
    let first = post.offers()[pre.offers().len() as int];
    lemma_accepted_push(pre.offers(), first);
    if post.offers().len() == pre.offers().len() + 2 {
        lemma_accepted_push(pre.offers().push(first), post.offers().last());
    }
    let n = pre.sent().len() as int;
    assert forall|i: int| 0 <= i < n && i < post.sent().len() implies #[trigger] post.sent()[i]
        == pre.sent()[i] by {
    }
}

/// A referrer that joins starts in order, with the replayed announcement
/// before everything that is still to come.
pub proof fn law_joiners_start_in_order(
    r: Referrer,
    id: SubscriberId,
    sender: tokio::sync::mpsc::Sender<MarketEvent>,
    cached: Option<MarketEvent>,
    next: int,
)
    requires
        joined(r, id, sender, cached),
        cached matches Some(ev) ==> ev@.seq().0 < next,
    ensures
        in_order(r, next),
{
    if cached is Some {
        assert(r.offers() =~= Seq::<(MarketEvent, SendOutcome)>::empty().push(r.offers()[0]));
        lemma_accepted_push(seq![], r.offers()[0]);
    }
}

proof fn lemma_distinct_after_remove(subs: Seq<Referrer>, k: int)
    requires
        distinct_ids(subs),
        0 <= k < subs.len(),
    ensures
        distinct_ids(subs.remove(k)),
        !has_id(subs.remove(k), subs[k].id),
{
    let r = subs.remove(k);
    assert forall|i: int, j: int| 0 <= i < j < r.len() implies (#[trigger] r[i]).id != (
    #[trigger] r[j]).id by {
        let a = if i < k {
            i
        } else {
            i + 1
        };
        let b = if j < k {
            j
        } else {
            j + 1
        };
        assert(r[i] == subs[a] && r[j] == subs[b]);
        assert(subs[a].id != subs[b].id);
    }
    if has_id(r, subs[k].id) {
        let i = choose|i: int| 0 <= i < r.len() && (#[trigger] r[i]).id == subs[k].id;
        if i < k {
            assert(r[i] == subs[i]);
            assert(subs[i].id != subs[k].id);
        } else {
            assert(r[i] == subs[i + 1]);
            assert(subs[k].id != subs[i + 1].id);
        }
    }
}

/// The loss of a data event is owed for its own instrument, to be reported by
/// its own provider, at its own place; the loss of a gap report is owed as it
/// was reported; other controls owe nothing.
pub proof fn law_losses_are_owed_for_what_was_lost(ev: EventView, instrument: InstrumentView)
    ensures
        ev matches EventView::Trade(t) ==> loss_instrument(ev) == Some(t.instrument),
        ev matches EventView::Quote(q) ==> loss_instrument(ev) == Some(q.instrument),
        ev matches EventView::Bar(b) ==> loss_instrument(ev) == Some(b.instrument),
        ev.is_data() ==> {
            &&& loss_started_by(ev) is Some
            &&& Some(loss_started_by(ev)->0.instrument) == loss_instrument(ev)
            &&& loss_started_by(ev)->0.provider == loss_started_by(ev)->0.instrument.provider
            &&& loss_started_by(ev)->0.first_seq == ev.seq()
            &&& loss_started_by(ev)->0.span.from_source_ts == ev.source_ts()
        },
        ev is Control && ev->Control_0.kind is Gap ==> {
            &&& loss_started_by(ev) is Some
            &&& loss_started_by(ev)->0.instrument == ev->Control_0.kind->Gap_instrument
            &&& loss_started_by(ev)->0.provider == ev->Control_0.kind->Gap_provider
            &&& loss_started_by(ev)->0.first_seq == ev->Control_0.seq
            &&& loss_started_by(ev)->0.span == ev->Control_0.kind->Gap_span
        },
        ev is Control && !(ev->Control_0.kind is Gap) ==> loss_started_by(ev) is None,
{
}

/// What is owed keeps the place and the names of the first loss and grows to
/// cover each further one; it is reported as a gap that says all of it.
pub proof fn law_owed_loss_covers_every_loss(p: PendingView, ev: EventView)
    ensures
        absorbed(Some(p), ev) is Some,
        absorbed(Some(p), ev)->0.first_seq == p.first_seq,
        absorbed(Some(p), ev)->0.instrument == p.instrument,
        absorbed(Some(p), ev)->0.provider == p.provider,
        span_within(p.span, absorbed(Some(p), ev)->0.span),
        loss_of(ev) matches Some(span) ==> span_within(span, absorbed(Some(p), ev)->0.span),
        absorbed(None, ev) is Some <==> loss_of(ev) is Some,
        loss_of(ev) matches Some(span) ==> absorbed(None, ev)->0.span == span,
        p.report() is Control,
        p.report().seq() == p.first_seq,
        p.report().source_ts() == p.span.from_source_ts,
        p.report()->Control_0.kind is Gap,
        p.report()->Control_0.kind->Gap_span == p.span,
        p.report()->Control_0.kind->Gap_instrument == p.instrument,
        p.report()->Control_0.kind->Gap_provider == p.provider,
{
}

/// An event that finds room is the last that its referrer's channel took; owed
/// loss that finds room goes out ahead of it, and is then no longer owed.
pub proof fn law_room_is_used(pre: Referrer, ev: MarketEvent, post: Referrer)
    requires
        served(pre, ev, post),
        post.offers().last().1 is Accepted,
    ensures
        post.offers().last().0 == ev,
        post.owes() is None,
        pre.owes() is None ==> post.offers() == pre.offers().push((ev, SendOutcome::Accepted)),
        pre.owes() matches Some(p) ==> {
            let n = pre.offers().len() as int;
            &&& post.offers().len() == n + 2
            &&& post.offers()[n].0@ is Control
            &&& post.offers()[n].0@->Control_0.kind is Gap
            &&& post.offers()[n].0@->Control_0.kind->Gap_span == p.span
            &&& post.offers()[n].0@->Control_0.kind->Gap_instrument == p.instrument
            &&& post.offers()[n].0@.seq() == p.first_seq
            &&& post.offers()[n].1 is Accepted
        },
{
}

/// What finds no room is owed from then on, and never lost silently.
pub proof fn law_what_finds_no_room_is_owed(pre: Referrer, ev: MarketEvent, post: Referrer)
    requires
        served(pre, ev, post),
        post.offers().last().1 is Full,
        loss_of(ev@) is Some,
    ensures
        post.owes() is Some,
        span_within(loss_of(ev@)->0, post.owes()->0.span),
        pre.owes() matches Some(p) ==> (post.offers().len() == pre.offers().len() + 1
            ==> span_within(p.span, post.owes()->0.span) && post.owes()->0.first_seq
            == p.first_seq),
{
}

/// Only an announcement that a subscription is active is kept for joiners.
pub proof fn law_active_subscriptions_are_announced(ev: EventView)
    ensures
        announces_subscription(ev) <==> (ev matches EventView::Control(c) && c.kind
            is SubscriptionChanged && c.kind->active),
{
}

/// A referrer that joins is told first of the subscription that is active, if
/// one is, and of nothing else; the others are left alone.
pub proof fn law_joiners_are_told_the_active_subscription(
    pre: FanOut,
    id: SubscriberId,
    sender: tokio::sync::mpsc::Sender<MarketEvent>,
    post: FanOut,
    i: int,
)
    requires
        !has_id(pre.subscribers@, id),
        subscribed(pre, id, sender, post),
        0 <= i < pre.subscribers@.len(),
    ensures
        post.subscribers@[i] == pre.subscribers@[i],
        post.subscribers@.last().id == id,
        post.subscribers@.last().owes() is None,
        pre.last_subscription_changed matches Some(ev) ==> post.subscribers@.last().offers().len()
            == 1 && post.subscribers@.last().offers()[0].0 == ev,
        pre.last_subscription_changed is None ==> post.subscribers@.last().offers().len() == 0,
        post.had_subscriber,
{
    assert(post.subscribers@.drop_last()[i] == pre.subscribers@[i]);
}

/// Every referrer of a fan-out is offered every event, behind what it is owed:
/// a referrer that owes nothing is offered the event itself, and stays unless
/// its channel is closed. An announced subscription is kept for joiners.
pub proof fn law_every_referrer_is_offered_every_event(
    pre: FanOut,
    ev: MarketEvent,
    post: FanOut,
    i: int,
)
    requires
        fanned_out(pre, ev, post),
        0 <= i < pre.subscribers@.len(),
        pre.subscribers@[i].owes() is None,
    ensures
        ({
            let r = pre.subscribers@[i];
            let gone = post.departed@.skip(pre.departed@.len() as int);
            ||| exists|j: int|
                0 <= j < post.subscribers@.len() && (#[trigger] post.subscribers@[j]).id == r.id
                    && post.subscribers@[j].offers().len() == r.offers().len() + 1
                    && post.subscribers@[j].offers().last().0 == ev
            ||| exists|d: int|
                0 <= d < gone.len() && (#[trigger] gone[d]).id == r.id && gone[d].offers().len()
                    == r.offers().len() + 1 && gone[d].offers().last() == (ev, SendOutcome::Closed)
        }),
        post.delivered@ == pre.delivered@.push(ev),
        ev@ is Control && ev@->Control_0.kind is SubscriptionChanged && ev@->Control_0.kind->active
            ==> post.last_subscription_changed == Some(ev),
        !(ev@ is Control) ==> post.last_subscription_changed == pre.last_subscription_changed,
{
    let r = pre.subscribers@[i];
    let gone = post.departed@.skip(pre.departed@.len() as int);
    assert(came_through(r, ev, post.subscribers@, gone));
    if exists|j: int|
        0 <= j < post.subscribers@.len() && (#[trigger] post.subscribers@[j]).id == r.id && served(
            r,
            ev,
            post.subscribers@[j],
        ) && !post.subscribers@[j].found_closed() {
        let j = choose|j: int|
            0 <= j < post.subscribers@.len() && (#[trigger] post.subscribers@[j]).id == r.id
                && served(r, ev, post.subscribers@[j]) && !post.subscribers@[j].found_closed();
        assert(post.subscribers@[j].offers().last().0 == ev);
    } else {
        let d = choose|d: int|
            0 <= d < gone.len() && (#[trigger] gone[d]).id == r.id && served(r, ev, gone[d])
                && gone[d].found_closed();
        assert(gone[d].offers().last() == (ev, SendOutcome::Closed));
    }
}

} // verus!
