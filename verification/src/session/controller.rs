//! The controller of one session: it stamps every event once at the source,
//! decides what is recorded, and delivers.

use vstd::prelude::*;

use crate::accounting::ProviderAccounting;
use crate::client::fanout::{fanned_out, subscribed, unsubscribed, FanOut, SubscriberId};
use crate::client::stats::{LiveStats, LiveStatsView};
use crate::error::Error;
use crate::event::{
    stamp_seq, Adjustment, BarView, ControlKind, ControlKindView, ControlView, EventKind, EventView,
    GapSpan, Instrument, MarketEvent, QuoteView, SeqNo, Timestamp, TradeView,
};
use crate::request::{CacheKey, HistoryRequest, ReplayRequest};

use super::options::{PersistenceOptions, Scope};
use super::ring::{EventRing, RingView};

verus! {

/// Where a session without fan-out delivers: into the outstanding stream, or
/// into a buffer while nobody holds one.
#[derive(Debug)]
pub enum Sink {
    Attached,
    Detached(EventRing),
}

impl Sink {
    pub open spec fn wf(self) -> bool {
        self matches Sink::Detached(ring) ==> ring.wf()
    }

    /// The buffer that an undeliverable event goes into.
    pub open spec fn buffer(self, capacity: usize) -> RingView {
        match self {
            Sink::Attached => RingView::empty(capacity as nat),
            Sink::Detached(ring) => ring@,
        }
    }
}

/// An event ready for delivery, and whether it belongs in the tap log first.
#[derive(Debug)]
pub struct Stamped {
    pub event: MarketEvent,
    pub tee: bool,
}

/// Commands to a session's controller.
pub enum SessionCommand {
    SetPersistence(PersistenceOptions),
    AddSubscriber { id: SubscriberId, sender: tokio::sync::mpsc::Sender<MarketEvent> },
    Close,
    /// Every handle that could send a command is gone.
    HandleDropped,
}

/// What answers a command, and whether the controller goes on.
#[derive(Debug)]
pub enum CommandOutcome {
    /// Answer with the result and go on.
    Persistence(Result<(), Error>),
    /// Acknowledge and go on.
    Added,
    /// Shut down, acknowledge, and exit.
    ShutDown,
    /// Exit without an answer.
    Exit,
}

/// State of one session's controller.
pub struct Controller {
    pub provider_id: String,
    pub instrument: Instrument,
    pub kind: EventKind,
    pub scope: Scope,
    pub adjustment: Adjustment,
    pub persistence: PersistenceOptions,
    pub has_cache: bool,
    pub has_tap_log: bool,
    pub sink: Sink,
    /// Capacity of the buffers made when a consumer leaves.
    pub ring_capacity: usize,
    /// Place of the next event. The controller is the only writer.
    pub next_seq: u64,
    /// The referrers of a live session; `None` for a historical one, which
    /// delivers to its single consumer.
    pub fanout: Option<FanOut>,
    pub stats: LiveStats,
    /// Everything stamped, in order.
    pub emitted: Ghost<Seq<MarketEvent>>,
}

/// Events whose places run from zero without a hole.
pub open spec fn contiguous(evs: Seq<MarketEvent>) -> bool {
    forall|i: int| 0 <= i < evs.len() ==> (#[trigger] evs[i])@.seq().0 == i
}

/// Everything of a controller that delivering an event leaves alone.
pub open spec fn same_session(a: Controller, b: Controller) -> bool {
    &&& a.provider_id == b.provider_id
    &&& a.instrument == b.instrument
    &&& a.kind == b.kind
    &&& a.scope == b.scope
    &&& a.adjustment == b.adjustment
    &&& a.persistence == b.persistence
    &&& a.has_cache == b.has_cache
    &&& a.has_tap_log == b.has_tap_log
    &&& a.ring_capacity == b.ring_capacity
    &&& a.fanout is Some <==> b.fanout is Some
}

/// What delivering `ev` does, apart from stamping: a live session records it
/// and fans it out; a historical one hands it to the open stream, and
/// otherwise buffers it.
pub open spec fn delivered(
    pre: Controller,
    ev: MarketEvent,
    consumer_open: bool,
    post: Controller,
    publish: Option<MarketEvent>,
) -> bool {
    &&& same_session(pre, post)
    &&& post.next_seq == pre.next_seq
    &&& post.emitted == pre.emitted
    &&& pre.fanout is Some ==> {
        &&& publish is None
        &&& post.sink == pre.sink
        &&& post.stats@ == pre.stats@.recorded(ev@)
        &&& fanned_out(pre.fanout->0, ev, post.fanout->0)
    }
    &&& pre.fanout is None ==> {
        &&& post.stats == pre.stats
        &&& pre.sink is Attached && consumer_open ==> publish == Some(ev) && post.sink == pre.sink
        &&& !(pre.sink is Attached && consumer_open) ==> publish is None && buffered(pre, ev, post)
    }
}

/// The event is in the session's buffer, behind what was there.
pub open spec fn buffered(pre: Controller, ev: MarketEvent, post: Controller) -> bool {
    &&& post.sink is Detached
    &&& post.sink->Detached_0@ == pre.sink.buffer(pre.ring_capacity).pushed(ev)
}

impl Controller {
    pub open spec fn wf(self) -> bool {
        &&& self.sink.wf()
        &&& self.stats.wf()
        &&& self.fanout matches Some(f) ==> f.wf()
        &&& self.emitted@.len() == self.next_seq
        &&& contiguous(self.emitted@)
    }

    /// Whether a live data event of this session belongs in the tap log.
    pub open spec fn records(self, ev: EventView) -> bool {
        &&& ev.is_data()
        &&& self.scope is Live
        &&& self.has_tap_log
        &&& self.persistence.write_tap_log
    }

    /// The report that `[from, to)` is missing.
    pub open spec fn gap_report(self, at: Timestamp, from: Timestamp, to: Timestamp) -> EventView {
        EventView::control(
            at,
            SeqNo(0),
            ControlKindView::Gap {
                provider: self.provider_id@,
                instrument: self.instrument@,
                span: GapSpan { from_source_ts: from, to_source_ts: to },
            },
        )
    }

    pub open spec fn error_report(self, at: Timestamp, message: Seq<char>) -> EventView {
        EventView::control(
            at,
            SeqNo(0),
            ControlKindView::ProviderError { provider: self.provider_id@, message },
        )
    }

    /// Assign the next place, which no other event gets.
    pub fn stamp(&mut self, ev: MarketEvent) -> (r: MarketEvent)
        requires
            old(self).wf(),
            old(self).next_seq < u64::MAX,
        ensures
            final(self).wf(),
            same_session(*old(self), *final(self)),
            final(self).sink == old(self).sink,
            final(self).stats == old(self).stats,
            final(self).fanout == old(self).fanout,
            r@ == ev@.with_seq(SeqNo(old(self).next_seq)),
            final(self).next_seq == old(self).next_seq + 1,
            final(self).emitted@ == old(self).emitted@.push(r),
    {
        let seq = SeqNo(self.next_seq);
        self.next_seq += 1;
        let r = stamp_seq(ev, seq);
        proof {
            self.emitted@ = self.emitted@.push(r);
        }
        r
    }

    /// Put an event into the resume buffer, which replaces a stream that
    /// nobody holds any more.
    fn buffer(&mut self, ev: MarketEvent)
        requires
            old(self).wf(),
        ensures
            final(self).wf(),
            same_session(*old(self), *final(self)),
            final(self).next_seq == old(self).next_seq,
            final(self).emitted == old(self).emitted,
            final(self).stats == old(self).stats,
            final(self).fanout == old(self).fanout,
            buffered(*old(self), ev, *final(self)),
    {
        if let Sink::Attached = &self.sink {
            self.sink = Sink::Detached(EventRing::new(self.ring_capacity));
        }
        if let Sink::Detached(ring) = &mut self.sink {
            ring.push(ev);
        }
    }

    /// Deliver a stamped event. The result, where there is one, is to be
    /// published to the stream that is attached and open.
    pub fn deliver(&mut self, ev: MarketEvent, consumer_open: bool) -> (publish: Option<
        MarketEvent,
    >)
        requires
            old(self).wf(),
        ensures
            final(self).wf(),
            delivered(*old(self), ev, consumer_open, *final(self), publish),
    {
        if self.fanout.is_some() {
            self.stats.record_event(&ev);
            if let Some(fanout) = &mut self.fanout {
                fanout.fanout(&ev);
            }
            return None;
        }
        if let Sink::Attached = &self.sink {
            if consumer_open {
                return Some(ev);
            }
        }
        self.buffer(ev);
        None
    }

    /// Take back an event that the attached stream rejected because its
    /// consumer has gone.
    pub fn rejected(&mut self, ev: MarketEvent)
        requires
            old(self).wf(),
            old(self).fanout is None,
        ensures
            final(self).wf(),
            same_session(*old(self), *final(self)),
            final(self).next_seq == old(self).next_seq,
            final(self).emitted == old(self).emitted,
            final(self).stats == old(self).stats,
            buffered(*old(self), ev, *final(self)),
    {
        self.buffer(ev);
    }

    /// Stamp an event and deliver it without recording it: replayed and
    /// fetched data belongs to the cache, not to the tap log.
    pub fn emit(&mut self, ev: MarketEvent, consumer_open: bool) -> (publish: Option<MarketEvent>)
        requires
            old(self).wf(),
            old(self).next_seq < u64::MAX,
        ensures
            final(self).wf(),
            emits(*old(self), ev@, consumer_open, *final(self), publish),
            in_step(*old(self)) ==> in_step(*final(self)),
    {
        let ghost view = ev@;
        let ev = self.stamp(ev);
        proof {
            assert(self.emitted@.drop_last() =~= old(self).emitted@);
        }
        let publish = self.deliver(ev, consumer_open);
        proof {
            if in_step(*old(self)) {
                lemma_emitting_keeps_in_step(*old(self), view, consumer_open, *self, publish);
            }
        }
        publish
    }

    /// First half of forwarding: stamp the event, account for it, and say
    /// whether it goes to the tap log before it is delivered. Because the
    /// stamp comes first, the log holds the places that are delivered.
    pub fn prepare_forward(
        &mut self,
        accounting: &mut ProviderAccounting,
        ev: MarketEvent,
    ) -> (r: Stamped)
        requires
            old(self).wf(),
            old(self).next_seq < u64::MAX,
        ensures
            final(self).wf(),
            same_session(*old(self), *final(self)),
            final(self).sink == old(self).sink,
            final(self).stats == old(self).stats,
            final(self).fanout == old(self).fanout,
            r.event@ == ev@.with_seq(SeqNo(old(self).next_seq)),
            final(self).next_seq == old(self).next_seq + 1,
            final(self).emitted@ == old(self).emitted@.push(r.event),
            final(accounting)@ == old(accounting)@.forwarded(r.event@, old(self).fanout is Some),
            r.tee == old(self).records(r.event@),
    {
        let event = self.stamp(ev);
        accounting.record_forwarded(&event, self.fanout.is_some());
        let tee = self.should_tee(&event);
        Stamped { event, tee }
    }

    /// Forward a control: account for it and deliver it. Controls never go to
    /// the tap log.
    pub fn forward_control(
        &mut self,
        accounting: &mut ProviderAccounting,
        ev: MarketEvent,
        consumer_open: bool,
    ) -> (publish: Option<MarketEvent>)
        requires
            old(self).wf(),
            old(self).next_seq < u64::MAX,
            ev@ is Control,
        ensures
            final(self).wf(),
            emits(*old(self), ev@, consumer_open, *final(self), publish),
            in_step(*old(self)) ==> in_step(*final(self)),
            final(accounting)@ == old(accounting)@.forwarded(
                ev@.with_seq(SeqNo(old(self).next_seq)),
                old(self).fanout is Some,
            ),
    {
        let ghost view = ev@;
        let stamped = self.prepare_forward(accounting, ev);
        proof {
            assert(self.emitted@.drop_last() =~= old(self).emitted@);
        }
        let publish = self.deliver(stamped.event, consumer_open);
        proof {
            if in_step(*old(self)) {
                lemma_emitting_keeps_in_step(*old(self), view, consumer_open, *self, publish);
            }
        }
        publish
    }

    /// Whether the event belongs in the tap log: a data event of a live
    /// session that records.
    pub fn should_tee(&self, ev: &MarketEvent) -> (r: bool)
        ensures
            r == self.records(ev@),
    {
        let live = match self.scope {
            Scope::Live { .. } => true,
            Scope::Historical { .. } => false,
        };
        ev.is_data() && live && self.has_tap_log && self.persistence.write_tap_log
    }

    /// The unstamped report that `[from, to)` is missing, placed at `at`.
    pub fn gap_event(&self, at: Timestamp, from: Timestamp, to: Timestamp) -> (r: MarketEvent)
        ensures
            r@ == self.gap_report(at, from, to),
    {
        MarketEvent::control(
            at,
            SeqNo(0),
            ControlKind::Gap {
                provider: self.provider_id.clone(),
                instrument: self.instrument.clone(),
                span: GapSpan { from_source_ts: from, to_source_ts: to },
            },
        )
    }

    /// The unstamped report of a failed provider fetch, placed at `at`.
    pub fn provider_error_event(&self, at: Timestamp, message: String) -> (r: MarketEvent)
        ensures
            r@ == self.error_report(at, message@),
    {
        MarketEvent::control(
            at,
            SeqNo(0),
            ControlKind::ProviderError { provider: self.provider_id.clone(), message },
        )
    }

    /// The unstamped announcement that the session ends at `now`.
    pub fn closing_event(now: Timestamp) -> (r: MarketEvent)
        ensures
            r@ == EventView::control(now, SeqNo(0), ControlKindView::SessionClosing),
    {
        MarketEvent::control(now, SeqNo(0), ControlKind::SessionClosing)
    }

    /// Replace the persistence options, unless they need a store that is not
    /// configured.
    pub fn apply_persistence(&mut self, options: PersistenceOptions) -> (r: Result<(), Error>)
        ensures
            options.served_by(old(self).has_cache, old(self).has_tap_log) ==> r is Ok
                && *final(self) == (Controller { persistence: options, ..*old(self) }),
            !options.served_by(old(self).has_cache, old(self).has_tap_log) ==> r == Err::<(), Error>(
                Error::PersistenceRequired,
            ) && *final(self) == *old(self),
    {
        if !options.is_served_by(self.has_cache, self.has_tap_log) {
            return Err(Error::PersistenceRequired);
        }
        self.persistence = options;
        Ok(())
    }

    /// Answer one command.
    pub fn handle_command(&mut self, cmd: SessionCommand) -> (r: CommandOutcome)
        requires
            old(self).wf(),
        ensures
            final(self).wf(),
            commanded(*old(self), cmd, *final(self), r),
    {
        match cmd {
            SessionCommand::SetPersistence(options) => {
                let res = self.apply_persistence(options);
                CommandOutcome::Persistence(res)
            },
            SessionCommand::AddSubscriber { id, sender } => {
                if let Some(fanout) = &mut self.fanout {
                    fanout.add(id, sender);
                    self.stats.set_subscribers(fanout.subscriber_count());
                }
                CommandOutcome::Added
            },
            SessionCommand::Close => CommandOutcome::ShutDown,
            SessionCommand::HandleDropped => CommandOutcome::Exit,
        }
    }

    /// Drop a referrer.
    pub fn remove_subscriber(&mut self, id: SubscriberId)
        requires
            old(self).wf(),
        ensures
            final(self).wf(),
            same_session(*old(self), *final(self)),
            final(self).next_seq == old(self).next_seq,
            final(self).emitted == old(self).emitted,
            final(self).sink == old(self).sink,
            old(self).fanout is None ==> *final(self) == *old(self),
            final(self).fanout matches Some(f) ==> {
                &&& unsubscribed(old(self).fanout->0, id, f)
                &&& final(self).stats@ == (LiveStatsView {
                    subscribers: f.subscribers@.len() as u64,
                    ..old(self).stats@
                })
            },
    {
        if let Some(fanout) = &mut self.fanout {
            fanout.remove(id);
            self.stats.set_subscribers(fanout.subscriber_count());
        }
    }

    /// Whether the last referrer of a live session has left.
    pub fn live_should_teardown(&self) -> (r: bool)
        ensures
            r == (self.fanout matches Some(f) && f.had_subscriber && f.subscribers@.len() == 0),
    {
        match &self.fanout {
            Some(f) => f.should_teardown(),
            None => false,
        }
    }

    /// The cache key of `[from, to)` of this session.
    pub fn cache_key(&self, from: Timestamp, to: Timestamp) -> (r: CacheKey)
        ensures
            r == self.key_of(from, to),
    {
        CacheKey {
            instrument: self.instrument.clone(),
            kind: self.kind,
            from,
            to,
            adjustment: self.adjustment,
        }
    }

    pub open spec fn key_of(self, from: Timestamp, to: Timestamp) -> CacheKey {
        CacheKey {
            instrument: self.instrument,
            kind: self.kind,
            from,
            to,
            adjustment: self.adjustment,
        }
    }

    pub open spec fn fetch_of(self, from: Timestamp, to: Timestamp) -> HistoryRequest {
        HistoryRequest {
            instrument: self.instrument,
            kind: self.kind,
            from,
            to,
            adjustment: self.adjustment,
        }
    }

    /// The provider request for `[from, to)` of this session.
    pub fn history_request(&self, from: Timestamp, to: Timestamp) -> (r: HistoryRequest)
        ensures
            r == self.fetch_of(from, to),
    {
        HistoryRequest {
            instrument: self.instrument.clone(),
            kind: self.kind,
            from,
            to,
            adjustment: self.adjustment,
        }
    }

    /// The cache replay of `[from, to)` of this session.
    pub fn replay_request(&self, from: Timestamp, to: Timestamp) -> (r: ReplayRequest)
        ensures
            r.instruments@ == seq![self.instrument],
            r.kinds@ == seq![self.kind],
            r.from == from,
            r.to == to,
    {
        let mut instruments: Vec<Instrument> = Vec::new();
        instruments.push(self.instrument.clone());
        let mut kinds: Vec<EventKind> = Vec::new();
        kinds.push(self.kind);
        proof {
            assert(instruments@ =~= seq![self.instrument]);
            assert(kinds@ =~= seq![self.kind]);
        }
        ReplayRequest { instruments, kinds, from, to }
    }
}

/// What a command does, and what answers it.
pub open spec fn commanded(
    pre: Controller,
    cmd: SessionCommand,
    post: Controller,
    r: CommandOutcome,
) -> bool {
    match cmd {
        SessionCommand::SetPersistence(options) => {
            let ok = options.served_by(pre.has_cache, pre.has_tap_log);
            &&& r is Persistence
            &&& r->Persistence_0 is Ok <==> ok
            &&& !ok ==> r->Persistence_0 == Err::<(), Error>(Error::PersistenceRequired)
            &&& post == (Controller {
                persistence: if ok {
                    options
                } else {
                    pre.persistence
                },
                ..pre
            })
        },
        SessionCommand::AddSubscriber { id, sender } => {
            &&& r is Added
            &&& same_session(pre, post)
            &&& post.next_seq == pre.next_seq
            &&& post.emitted == pre.emitted
            &&& post.sink == pre.sink
            &&& pre.fanout is Some ==> {
                &&& subscribed(pre.fanout->0, id, sender, post.fanout->0)
                &&& post.stats@ == (LiveStatsView {
                    subscribers: post.fanout->0.subscribers@.len() as u64,
                    ..pre.stats@
                })
            }
            &&& pre.fanout is None ==> post == pre
        },
        SessionCommand::Close => r is ShutDown && post == pre,
        SessionCommand::HandleDropped => r is Exit && post == pre,
    }
}

/// What emitting an event does: it gets the next place and is delivered.
pub open spec fn emits(
    pre: Controller,
    ev: EventView,
    consumer_open: bool,
    post: Controller,
    publish: Option<MarketEvent>,
) -> bool {
    &&& same_session(pre, post)
    &&& post.next_seq == pre.next_seq + 1
    &&& post.emitted@.len() == pre.emitted@.len() + 1
    &&& post.emitted@.drop_last() == pre.emitted@
    &&& post.emitted@.last()@ == ev.with_seq(SeqNo(pre.next_seq))
    &&& delivered(
        Controller { next_seq: post.next_seq, emitted: post.emitted, ..pre },
        post.emitted@.last(),
        consumer_open,
        post,
        publish,
    )
}

/// Whether everything that a live session stamped has been fanned out.
pub open spec fn in_step(c: Controller) -> bool {
    c.fanout matches Some(f) ==> f.delivered@ == c.emitted@
}

/// Emitting keeps a session in step.
pub proof fn lemma_emitting_keeps_in_step(
    pre: Controller,
    ev: EventView,
    consumer_open: bool,
    post: Controller,
    publish: Option<MarketEvent>,
)
    requires
        emits(pre, ev, consumer_open, post, publish),
        in_step(pre),
    ensures
        in_step(post),
{
    if post.fanout is Some {
        assert(post.emitted@ =~= pre.emitted@.push(post.emitted@.last()));
    }
}

/// A live session with a tap log whose options ask for recording records every
/// data event, be it a trade, a quote or a bar; controls are never recorded.
/// Historical sessions, sessions without a tap log and sessions that are not
/// asked to record nothing.
pub proof fn law_live_sessions_record_all_data(
    c: Controller,
    t: TradeView,
    q: QuoteView,
    b: BarView,
    control: ControlView,
)
    ensures
        c.scope is Live && c.has_tap_log && c.persistence.write_tap_log ==> {
            &&& c.records(EventView::Trade(t))
            &&& c.records(EventView::Quote(q))
            &&& c.records(EventView::Bar(b))
        },
        !c.records(EventView::Control(control)),
        c.scope is Historical || !c.has_tap_log || !c.persistence.write_tap_log ==> {
            &&& !c.records(EventView::Trade(t))
            &&& !c.records(EventView::Quote(q))
            &&& !c.records(EventView::Bar(b))
        },
{
}

/// What a session asks of the cache and of its provider names the session's
/// instrument, kind and mode and the range asked for, and both name the same.
pub proof fn law_requests_name_the_session(c: Controller, from: Timestamp, to: Timestamp)
    ensures
        c.key_of(from, to).from == from && c.key_of(from, to).to == to,
        c.fetch_of(from, to).from == from && c.fetch_of(from, to).to == to,
        c.key_of(from, to).instrument == c.instrument && c.fetch_of(from, to).instrument
            == c.instrument,
        c.key_of(from, to).kind == c.kind && c.fetch_of(from, to).kind == c.kind,
        c.key_of(from, to).adjustment == c.adjustment && c.fetch_of(from, to).adjustment
            == c.adjustment,
{
}

/// A report of missing data is a gap control that names the provider, the
/// instrument and the missing range; a report of a failed fetch is an error
/// control of the provider with the message. Neither has a place yet.
pub proof fn law_reports_name_what_is_missing(
    c: Controller,
    at: Timestamp,
    from: Timestamp,
    to: Timestamp,
    message: Seq<char>,
    t: int,
)
    ensures
        ({
            let gap = c.gap_report(at, from, to);
            &&& gap is Control
            &&& gap.source_ts() == at
            &&& gap.seq().0 == 0
            &&& gap->Control_0.rx_ts == at
            &&& gap->Control_0.kind is Gap
            &&& gap->Control_0.kind->Gap_provider == c.provider_id@
            &&& gap->Control_0.kind->Gap_instrument == c.instrument@
            &&& gap->Control_0.kind->Gap_span.contains(t) <==> from.0 <= t < to.0
            &&& gap->Control_0.kind->Gap_span.from_source_ts == from
            &&& gap->Control_0.kind->Gap_span.to_source_ts == to
        }),
        ({
            let error = c.error_report(at, message);
            &&& error is Control
            &&& error.source_ts() == at
            &&& error.seq().0 == 0
            &&& error->Control_0.rx_ts == at
            &&& error->Control_0.kind is ProviderError
            &&& error->Control_0.kind->ProviderError_provider == c.provider_id@
            &&& error->Control_0.kind->message == message
        }),
{
}

/// What is emitted is delivered as it came, under the next place: to the
/// referrers of a live session, and otherwise to an open stream or into the
/// buffer, behind what waits there already.
pub proof fn law_emitted_events_arrive_under_the_next_place(
    pre: Controller,
    ev: EventView,
    consumer_open: bool,
    post: Controller,
    publish: Option<MarketEvent>,
)
    requires
        emits(pre, ev, consumer_open, post, publish),
        pre.sink matches Sink::Detached(ring) ==> ring@.buf.len() < ring@.capacity,
    ensures
        ({
            let out = post.emitted@.last()@;
            &&& out.seq().0 == pre.next_seq
            &&& out.with_seq(ev.seq()) == ev
            &&& pre.fanout is Some ==> post.fanout->0.delivered@
                == pre.fanout->0.delivered@.push(post.emitted@.last()) && publish is None
            &&& pre.fanout is None && pre.sink is Attached && consumer_open ==> publish == Some(
                post.emitted@.last(),
            )
            &&& pre.fanout is None && pre.sink is Detached ==> publish is None
                && post.sink->Detached_0@.buf == pre.sink->Detached_0@.buf.push(
                post.emitted@.last(),
            )
        }),
        post.next_seq == pre.next_seq + 1,
{
    crate::event::law_stamping_changes_the_place_only(ev, SeqNo(pre.next_seq), ev.seq());
}

/// New options are adopted exactly where the stores that they need are there,
/// and refused otherwise with everything as it was; closing a session shuts it
/// down, and a session that nobody can reach any more ends.
pub proof fn law_commands_do_what_they_say(
    pre: Controller,
    cmd: SessionCommand,
    post: Controller,
    r: CommandOutcome,
)
    requires
        commanded(pre, cmd, post, r),
    ensures
        cmd matches SessionCommand::SetPersistence(o) ==> {
            let missing = ((o.read_cache || o.write_cache) && !pre.has_cache) || (o.write_tap_log
                && !pre.has_tap_log);
            &&& r is Persistence
            &&& r->Persistence_0 is Err <==> missing
            &&& missing ==> post == pre && r->Persistence_0->Err_0 is PersistenceRequired
            &&& !missing ==> post.persistence == o && post.next_seq == pre.next_seq && post.scope
                == pre.scope && post.emitted == pre.emitted
        },
        cmd is AddSubscriber ==> r is Added,
        cmd is Close ==> r is ShutDown && post == pre,
        cmd is HandleDropped ==> r is Exit && post == pre,
        cmd matches SessionCommand::AddSubscriber { id, sender } ==> (pre.fanout is Some
            ==> crate::client::fanout::has_id(post.fanout->0.subscribers@, id)
            && post.stats@.subscribers == post.fanout->0.subscribers@.len() as u64),
{
    if let SessionCommand::AddSubscriber { id, sender } = cmd {
        if pre.fanout is Some {
            crate::client::fanout::lemma_subscribed_has_id(
                pre.fanout->0,
                id,
                sender,
                post.fanout->0,
            );
        }
    }
}

} // verus!
