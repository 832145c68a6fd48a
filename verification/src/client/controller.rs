//! The multiplex of one client: its subscription set, the interleaving of its
//! symbols into one stream, its resume buffer, and the coalescing of
//! connection controls.

use vstd::prelude::*;

use crate::error::{Error, ErrorView};
use crate::event::{
    ControlKind, ControlKindView, EventKind, EventView, Instrument, InstrumentView, MarketEvent,
    SeqNo, Timestamp, SYNTHETIC_SEQ,
};
use crate::session::options::{PersistenceOptions, Scope};
use crate::table::{Pair, Table};

use super::ring::{
    by_first_seq, losses, one_per_instrument, ClientRing, ClientRingView, InstrumentGap,
};
use super::stats::{ClientSessionId, ClientStats};

verus! {

/// Last known state of a provider connection.
#[derive(Clone, Copy, Debug, PartialEq, Eq, Structural)]
pub enum ConnState {
    Connected,
    Disconnected,
}

/// Where a client's events go: into the attached consumer stream, or into the
/// resume buffer.
#[derive(Debug)]
pub enum ClientSink {
    Attached,
    Detached(ClientRing),
}

impl ClientSink {
    pub open spec fn wf(self) -> bool {
        self matches ClientSink::Detached(ring) ==> ring.wf()
    }

    /// The buffer that an undeliverable event goes into.
    pub open spec fn buffer(self, capacity: usize) -> ClientRingView {
        match self {
            ClientSink::Attached => ClientRingView::empty(capacity as nat),
            ClientSink::Detached(ring) => ring@,
        }
    }
}

/// An event on its way to the client, with the provider that it is accounted
/// to.
#[derive(Debug)]
pub struct Outgoing {
    pub event: MarketEvent,
    pub provider: String,
}

/// What a client asks of its controller.
#[derive(Debug)]
pub enum ClientCommand {
    Subscribe { pair: Pair, scope: Scope, options: PersistenceOptions },
    Unsubscribe { pair: Pair },
    Take,
    Subscriptions,
    Close,
    /// The client's handle is gone.
    HandleDropped,
}

/// What answers a client's command.
#[derive(Debug)]
pub enum ClientAction {
    /// Open or join the symbol's live session; then call `subscribed`.
    OpenSession { pair: Pair, scope: Scope, options: PersistenceOptions },
    /// Refuse the command.
    Refuse(Error),
    /// Deliver the control, then report success.
    Unsubscribed(Outgoing),
    /// Hand out the new stream, then deliver these in order.
    Attach(Vec<Outgoing>),
    /// Report the subscription set.
    Report(Vec<(Instrument, EventKind)>),
    /// Deliver the control, acknowledge, and exit.
    Exit(Outgoing),
}

/// What the client has been told of its providers' connections.
pub struct CoalescerView {
    pub connections: Map<Seq<char>, ConnState>,
    pub errors: Map<Seq<char>, Seq<char>>,
}

impl CoalescerView {
    /// Whether the client is told of an event that comes from a symbol. Each
    /// distinct connection transition is told once, an error only where it
    /// does not repeat the last one, and the end of a symbol's own session
    /// never.
    pub open spec fn passes(self, ev: EventView) -> bool {
        match ev {
            EventView::Control(c) => match c.kind {
                ControlKindView::SessionClosing => false,
                ControlKindView::ProviderConnected { provider } => !(
                self.connections.contains_key(provider) && self.connections[provider]
                    == ConnState::Connected),
                ControlKindView::ProviderDisconnected { provider, .. } => !(
                self.connections.contains_key(provider) && self.connections[provider]
                    == ConnState::Disconnected),
                ControlKindView::ProviderError { provider, message } => !(
                self.errors.contains_key(provider) && self.errors[provider] == message),
                _ => true,
            },
            _ => true,
        }
    }

    /// What the client has been told once the event has been dealt with.
    pub open spec fn told(self, ev: EventView) -> CoalescerView {
        match ev {
            EventView::Control(c) => match c.kind {
                ControlKindView::ProviderConnected { provider } => CoalescerView {
                    connections: self.connections.insert(provider, ConnState::Connected),
                    ..self
                },
                ControlKindView::ProviderDisconnected { provider, .. } => CoalescerView {
                    connections: self.connections.insert(provider, ConnState::Disconnected),
                    ..self
                },
                ControlKindView::ProviderError { provider, message } => CoalescerView {
                    errors: self.errors.insert(provider, message),
                    ..self
                },
                _ => self,
            },
            _ => self,
        }
    }
}

/// The texts of a table of strings.
pub open spec fn texts(m: Map<Seq<char>, String>) -> Map<Seq<char>, Seq<char>> {
    m.map_values(|s: String| s@)
}

/// State of one client's controller.
pub struct ClientController {
    /// Provider of each subscription.
    pub entries: Table<Pair, String>,
    pub sink: ClientSink,
    pub ring_capacity: usize,
    pub seen_provider_state: Table<String, ConnState>,
    pub last_provider_error: Table<String, String>,
    pub stats: ClientStats,
}

/// The control that tells a client of a change to its own subscription set.
pub open spec fn subscription_notice(
    instrument: InstrumentView,
    kind: EventKind,
    provider: Seq<char>,
    active: bool,
    now: Timestamp,
) -> EventView {
    EventView::control(
        now,
        SeqNo(SYNTHETIC_SEQ),
        ControlKindView::SubscriptionChanged { provider, instrument, kind, active },
    )
}

/// A client-local control, outside every symbol's order.
pub fn subscription_changed(
    instrument: &Instrument,
    kind: EventKind,
    provider: &str,
    active: bool,
    now: Timestamp,
) -> (r: MarketEvent)
    ensures
        r@ == subscription_notice(instrument@, kind, provider@, active, now),
{
    MarketEvent::control(
        now,
        SeqNo::synthetic(),
        ControlKind::SubscriptionChanged {
            provider: provider.to_owned(),
            instrument: instrument.clone(),
            kind,
            active,
        },
    )
}

/// The subscriptions of a table, in order.
pub open spec fn pairs_of(rows: Seq<(Pair, String)>) -> Seq<(Instrument, EventKind)> {
    Seq::new(rows.len(), |i: int| (rows[i].0.instrument, rows[i].0.kind))
}

/// The reports and survivors of a drained buffer in delivery order.
pub open spec fn flush_of(gaps: Seq<InstrumentGap>, events: Seq<(MarketEvent, String)>) -> Seq<
    (EventView, Seq<char>),
> {
    Seq::new(
        gaps.len(),
        |i: int|
            (
                EventView::control(
                    gaps[i].2.from_source_ts,
                    gaps[i].0,
                    ControlKindView::Gap {
                        provider: gaps[i].3@,
                        instrument: gaps[i].1@,
                        span: gaps[i].2,
                    },
                ),
                gaps[i].3@,
            ),
    ) + Seq::new(events.len(), |i: int| (events[i].0@, events[i].1@))
}

pub open spec fn outgoing_views(out: Seq<Outgoing>) -> Seq<(EventView, Seq<char>)> {
    Seq::new(out.len(), |i: int| (out[i].event@, out[i].provider@))
}

/// Whether `out` drains the buffer: one report per instrument that lost
/// something, in the order in which the holes start, then the survivors in
/// arrival order.
pub open spec fn drains(ring: ClientRingView, out: Seq<(EventView, Seq<char>)>) -> bool {
    exists|gaps: Seq<InstrumentGap>|
        {
            &&& by_first_seq(gaps)
            &&& one_per_instrument(gaps)
            &&& losses(gaps) == ring.dropped
            &&& out == #[trigger] flush_of(gaps, ring.buf)
        }
}

/// The events that drain a buffer when a consumer attaches.
pub fn flush_ring(ring: ClientRing) -> (out: Vec<Outgoing>)
    requires
        ring.wf(),
    ensures
        drains(ring@, outgoing_views(out@)),
{
    let ghost view = ring@;
    let (gaps, events) = ring.into_parts();
    let ghost all_gaps = gaps@;
    let ghost all_events = events@;
    let ghost want = flush_of(all_gaps, all_events);
    let mut events = events;
    let mut out: Vec<Outgoing> = Vec::new();
    let mut k: usize = 0;
    while k < gaps.len()
        invariant
            0 <= k <= gaps@.len(),
            gaps@ == all_gaps,
            want == flush_of(all_gaps, all_events),
            out@.len() == k,
            forall|i: int|
                0 <= i < k ==> (#[trigger] out@[i]).event@ == want[i].0 && out@[i].provider@
                    == want[i].1,
        decreases gaps@.len() - k,
    {
        let g = &gaps[k];
        out.push(
            Outgoing {
                event: MarketEvent::control(
                    g.2.from_source_ts,
                    g.0,
                    ControlKind::Gap {
                        provider: g.3.clone(),
                        instrument: g.1.clone(),
                        span: g.2,
                    },
                ),
                provider: g.3.clone(),
            },
        );
        k += 1;
    }
    let ghost mut n: int = 0;
    while events.len() > 0
        invariant
            0 <= n <= all_events.len(),
            events@ == all_events.skip(n),
            want == flush_of(all_gaps, all_events),
            out@.len() == all_gaps.len() + n,
            forall|i: int|
                0 <= i < out@.len() ==> (#[trigger] out@[i]).event@ == want[i].0
                    && out@[i].provider@ == want[i].1,
        decreases events@.len(),
    {
        if let Some((event, provider)) = events.pop_front() {
            proof {
                assert((event, provider) == all_events[n]);
                assert(events@ =~= all_events.skip(n + 1));
                n = n + 1;
            }
            out.push(Outgoing { event, provider });
        }
    }
    proof {
        assert(outgoing_views(out@) =~= want);
        assert(drains(view, flush_of(all_gaps, view.buf)));
    }
    out
}

/// What putting an event into the client's buffer does.
pub open spec fn client_buffered(
    pre: ClientController,
    out: Outgoing,
    post: ClientController,
) -> bool {
    let before = pre.sink.buffer(pre.ring_capacity);
    &&& post.sink is Detached
    &&& post.sink->Detached_0@ == before.pushed(out.event, out.provider)
    &&& post.stats.occupancy == before.pushed(out.event, out.provider).buf.len()
    &&& post.stats.dropped_events == if before.full() {
        (pre.stats.dropped_events + 1) % 0x1_0000_0000_0000_0000
    } else {
        pre.stats.dropped_events as int
    }
    &&& post.stats == (ClientStats {
        occupancy: post.stats.occupancy,
        dropped_events: post.stats.dropped_events,
        ..pre.stats
    })
    &&& post == (ClientController { sink: post.sink, stats: post.stats, ..pre })
}

impl ClientController {
    pub open spec fn wf(self) -> bool {
        &&& self.entries.wf()
        &&& self.sink.wf()
        &&& self.seen_provider_state.wf()
        &&& self.last_provider_error.wf()
        &&& self.stats.subscriptions@ == pairs_of(self.entries.rows@)
    }

    pub open spec fn coalescer(self) -> CoalescerView {
        CoalescerView {
            connections: self.seen_provider_state@,
            errors: texts(self.last_provider_error@),
        }
    }

    /// A client without subscriptions, or with the one that it was opened
    /// for. It starts detached.
    pub fn new(
        id: ClientSessionId,
        ring_capacity: usize,
        seed: Option<(Pair, String)>,
    ) -> (r: ClientController)
        ensures
            r.wf(),
            r.ring_capacity == ring_capacity,
            r.sink matches ClientSink::Detached(ring) && ring@ == ClientRingView::empty(
                ring_capacity as nat,
            ),
            r.coalescer().connections == Map::<Seq<char>, ConnState>::empty(),
            r.coalescer().errors == Map::<Seq<char>, Seq<char>>::empty(),
            r.entries@ == match seed {
                Some((pair, provider)) => Map::empty().insert(pair@, provider),
                None => Map::empty(),
            },
            r.stats.id == id,
            r.stats.capacity == ring_capacity,
            r.stats.occupancy == 0,
            r.stats.dropped_events == 0,
    {
        let mut entries: Table<Pair, String> = Table::new();
        if let Some((pair, provider)) = seed {
            entries.insert(pair, provider);
        }
        let mut r = ClientController {
            entries,
            sink: ClientSink::Detached(ClientRing::new(ring_capacity)),
            ring_capacity,
            seen_provider_state: Table::new(),
            last_provider_error: Table::new(),
            stats: ClientStats::new(id, ring_capacity),
        };
        r.sync_subscriptions();
        proof {
            assert(r.coalescer().errors =~= Map::<Seq<char>, Seq<char>>::empty());
        }
        r
    }

    /// The current subscription set.
    pub fn subscriptions(&self) -> (r: Vec<(Instrument, EventKind)>)
        ensures
            r@ == pairs_of(self.entries.rows@),
    {
        let mut out: Vec<(Instrument, EventKind)> = Vec::new();
        let mut k: usize = 0;
        while k < self.entries.rows.len()
            invariant
                0 <= k <= self.entries.rows@.len(),
                out@.len() == k,
                forall|i: int|
                    0 <= i < k ==> #[trigger] out@[i] == (
                        self.entries.rows@[i].0.instrument,
                        self.entries.rows@[i].0.kind,
                    ),
            decreases self.entries.rows@.len() - k,
        {
            let pair = &self.entries.rows[k].0;
            out.push((pair.instrument.clone(), pair.kind));
            k += 1;
        }
        proof {
            assert(out@ =~= pairs_of(self.entries.rows@));
        }
        out
    }

    /// Mirror the subscription set into the statistics.
    fn sync_subscriptions(&mut self)
        ensures
            final(self).stats.subscriptions@ == pairs_of(old(self).entries.rows@),
            *final(self) == (ClientController { stats: final(self).stats, ..*old(self) }),
            final(self).stats == (ClientStats {
                subscriptions: final(self).stats.subscriptions,
                ..old(self).stats
            }),
    {
        let subs = self.subscriptions();
        self.stats.set_subscriptions(subs);
    }

    /// Whether a subscription may be opened. Client subscriptions are pure
    /// live: a symbol's session is shared, so a range of one client's own
    /// would break the order that all its clients see.
    pub fn check_subscribe(&self, pair: &Pair, scope: Scope) -> (r: Result<(), Error>)
        requires
            self.wf(),
        ensures
            r is Ok <==> !self.entries@.contains_key(pair@) && scope == (Scope::Live {
                backfill_from: None,
            }),
            self.entries@.contains_key(pair@) ==> r is Err && r->Err_0@
                == (ErrorView::DuplicateSubscription {
                instrument: pair.instrument@,
                kind: pair.kind,
            }),
            !self.entries@.contains_key(pair@) && r is Err ==> r->Err_0@
                == ErrorView::UnsupportedClientScope,
    {
        if self.entries.contains(pair) {
            return Err(
                Error::DuplicateSubscription {
                    instrument: pair.instrument.clone(),
                    kind: pair.kind,
                },
            );
        }
        match scope {
            Scope::Live { backfill_from: None } => Ok(()),
            _ => Err(Error::UnsupportedClientScope),
        }
    }

    /// The symbol's session has been joined: add it to the set.
    pub fn subscribed(&mut self, pair: Pair, provider: String)
        requires
            old(self).wf(),
        ensures
            final(self).wf(),
            final(self).entries@ == old(self).entries@.insert(pair@, provider),
            *final(self) == (ClientController {
                entries: final(self).entries,
                stats: final(self).stats,
                ..*old(self)
            }),
            final(self).stats == (ClientStats {
                subscriptions: final(self).stats.subscriptions,
                ..old(self).stats
            }),
    {
        self.entries.insert(pair, provider);
        self.sync_subscriptions();
    }

    /// Take a symbol out of the set. The control is this client's own: the
    /// symbol's session goes on for others.
    pub fn unsubscribe(&mut self, pair: &Pair, now: Timestamp) -> (r: Result<Outgoing, Error>)
        requires
            old(self).wf(),
        ensures
            final(self).wf(),
            final(self).entries@ == old(self).entries@.remove(pair@),
            *final(self) == (ClientController {
                entries: final(self).entries,
                stats: final(self).stats,
                ..*old(self)
            }),
            final(self).stats == (ClientStats {
                subscriptions: final(self).stats.subscriptions,
                ..old(self).stats
            }),
            r is Ok <==> old(self).entries@.contains_key(pair@),
            r is Err ==> r->Err_0@ == (ErrorView::NotSubscribed {
                instrument: pair.instrument@,
                kind: pair.kind,
            }),
            r is Ok ==> r->Ok_0.provider == old(self).entries@[pair@] && r->Ok_0.event@
                == subscription_notice(
                pair.instrument@,
                pair.kind,
                old(self).entries@[pair@]@,
                false,
                now,
            ),
    {
        match self.entries.remove(pair) {
            None => {
                self.sync_subscriptions();
                Err(
                    Error::NotSubscribed { instrument: pair.instrument.clone(), kind: pair.kind },
                )
            },
            Some(provider) => {
                self.sync_subscriptions();
                let event = subscription_changed(
                    &pair.instrument,
                    pair.kind,
                    provider.as_str(),
                    false,
                    now,
                );
                Ok(Outgoing { event, provider })
            },
        }
    }

    /// A symbol's stream ended by itself. Where the client still held the
    /// subscription, it is dropped and the client is told.
    pub fn handle_substream_end(&mut self, pair: &Pair, now: Timestamp) -> (r: Option<Outgoing>)
        requires
            old(self).wf(),
        ensures
            final(self).wf(),
            substream_ended(*old(self), *pair, now, *final(self), r),
    {
        match self.unsubscribe(pair, now) {
            Ok(out) => Some(out),
            Err(_) => None,
        }
    }

    /// Note a connection state; `true` where it is a transition.
    pub fn note_conn(&mut self, provider: &str, new: ConnState) -> (fresh: bool)
        requires
            old(self).wf(),
        ensures
            final(self).wf(),
            *final(self) == (ClientController {
                seen_provider_state: final(self).seen_provider_state,
                ..*old(self)
            }),
            fresh == !(old(self).seen_provider_state@.contains_key(provider@) && old(
                self,
            ).seen_provider_state@[provider@] == new),
            final(self).seen_provider_state@ == old(self).seen_provider_state@.insert(
                provider@,
                new,
            ),
    {
        let key = provider.to_owned();
        let fresh = match self.seen_provider_state.get(&key) {
            Some(current) => *current != new,
            None => true,
        };
        if fresh {
            self.seen_provider_state.insert(key, new);
        } else {
            proof {
                assert(self.seen_provider_state@ =~= self.seen_provider_state@.insert(
                    provider@,
                    new,
                ));
            }
        }
        fresh
    }

    /// Note a provider error; `true` where it repeats the last one.
    pub fn duplicate_error(&mut self, provider: &str, message: &str) -> (repeated: bool)
        requires
            old(self).wf(),
        ensures
            final(self).wf(),
            *final(self) == (ClientController {
                last_provider_error: final(self).last_provider_error,
                ..*old(self)
            }),
            repeated == (old(self).coalescer().errors.contains_key(provider@) && old(
                self,
            ).coalescer().errors[provider@] == message@),
            final(self).coalescer().errors == old(self).coalescer().errors.insert(
                provider@,
                message@,
            ),
    {
        let key = provider.to_owned();
        let text = message.to_owned();
        let repeated = match self.last_provider_error.get(&key) {
            Some(last) => *last == text,
            None => false,
        };
        if !repeated {
            self.last_provider_error.insert(key, text);
        }
        proof {
            assert(self.coalescer().errors =~= old(self).coalescer().errors.insert(
                provider@,
                message@,
            ));
        }
        repeated
    }

    /// The provider that events of a pair are accounted to.
    pub open spec fn provider_of(self, pair: Pair) -> Seq<char> {
        if self.entries@.contains_key(pair@) {
            self.entries@[pair@]@
        } else {
            pair.instrument@.provider
        }
    }

    /// Route one event of a symbol into the client's stream, unchanged, or
    /// suppress it.
    pub fn route(&mut self, pair: &Pair, ev: MarketEvent) -> (r: Option<Outgoing>)
        requires
            old(self).wf(),
        ensures
            final(self).wf(),
            routed(*old(self), *pair, ev, *final(self), r),
    {
        let provider = match self.entries.get(pair) {
            Some(p) => p.clone(),
            None => pair.instrument.provider.id.clone(),
        };
        let passes = match &ev {
            MarketEvent::Control(c) => match &c.kind {
                ControlKind::SessionClosing => false,
                ControlKind::ProviderConnected { provider } => self.note_conn(
                    provider.as_str(),
                    ConnState::Connected,
                ),
                ControlKind::ProviderDisconnected { provider, .. } => self.note_conn(
                    provider.as_str(),
                    ConnState::Disconnected,
                ),
                ControlKind::ProviderError { provider, message } => !self.duplicate_error(
                    provider.as_str(),
                    message.as_str(),
                ),
                ControlKind::SubscriptionChanged { .. } => true,
                ControlKind::Gap { .. } => true,
            },
            _ => true,
        };
        proof {
            assert(self.coalescer() == old(self).coalescer().told(ev@));
        }
        if passes {
            Some(Outgoing { event: ev, provider })
        } else {
            None
        }
    }

    fn buffer(&mut self, out: Outgoing)
        requires
            old(self).wf(),
        ensures
            final(self).wf(),
            client_buffered(*old(self), out, *final(self)),
    {
        if let ClientSink::Attached = &self.sink {
            self.sink = ClientSink::Detached(ClientRing::new(self.ring_capacity));
        }
        if let ClientSink::Detached(ring) = &mut self.sink {
            let evicted = ring.push(out.event, out.provider);
            let occupancy: usize = ring.len();
            if evicted {
                self.stats.record_drops(1);
            }
            self.stats.set_occupancy(occupancy);
        }
    }

    /// Deliver one event. The result, where there is one, is to be sent to the
    /// consumer stream that is attached and open.
    pub fn deliver(&mut self, out: Outgoing, consumer_open: bool) -> (send: Option<Outgoing>)
        requires
            old(self).wf(),
        ensures
            final(self).wf(),
            client_delivered(*old(self), out, consumer_open, *final(self), send),
    {
        if let ClientSink::Attached = &self.sink {
            if consumer_open {
                return Some(out);
            }
        }
        self.buffer(out);
        None
    }

    /// Take back an event that the consumer stream rejected.
    pub fn rejected(&mut self, out: Outgoing)
        requires
            old(self).wf(),
        ensures
            final(self).wf(),
            client_buffered(*old(self), out, *final(self)),
    {
        self.buffer(out);
    }

    /// Attach a new consumer, unless one is attached and still there, and give
    /// back the buffer to be drained to it.
    pub fn prepare_attach(&mut self, consumer_open: bool) -> (r: Result<Option<ClientRing>, Error>)
        requires
            old(self).wf(),
        ensures
            final(self).wf(),
            old(self).sink is Attached && consumer_open ==> r == Err::<Option<ClientRing>, Error>(
                Error::EventsAlreadyTaken,
            ) && *final(self) == *old(self),
            !(old(self).sink is Attached && consumer_open) ==> {
                &&& r is Ok
                &&& r->Ok_0 == match old(self).sink {
                    ClientSink::Detached(ring) => Some(ring),
                    ClientSink::Attached => None,
                }
                &&& *final(self) == (ClientController {
                    sink: ClientSink::Attached,
                    stats: ClientStats { occupancy: 0, ..old(self).stats },
                    ..*old(self)
                })
            },
    {
        if let ClientSink::Attached = &self.sink {
            if consumer_open {
                return Err(Error::EventsAlreadyTaken);
            }
        }
        let mut prior = ClientSink::Attached;
        std::mem::swap(&mut prior, &mut self.sink);
        self.stats.set_occupancy(0);
        Ok(
            match prior {
                ClientSink::Detached(ring) => Some(ring),
                ClientSink::Attached => None,
            },
        )
    }

    /// The announcement that the client's own session ends.
    pub fn session_closing(now: Timestamp) -> (r: Outgoing)
        ensures
            r.event@ == EventView::control(
                now,
                SeqNo(SYNTHETIC_SEQ),
                ControlKindView::SessionClosing,
            ),
            r.provider@ == Seq::<char>::empty(),
    {
        Outgoing {
            event: MarketEvent::control(now, SeqNo::synthetic(), ControlKind::SessionClosing),
            provider: String::new(),
        }
    }

    /// Decide one command of the client.
    pub fn handle_command(
        &mut self,
        cmd: ClientCommand,
        consumer_open: bool,
        now: Timestamp,
    ) -> (r: ClientAction)
        requires
            old(self).wf(),
        ensures
            final(self).wf(),
            client_commanded(*old(self), cmd, consumer_open, now, *final(self), r),
    {
        match cmd {
            ClientCommand::Subscribe { pair, scope, options } => {
                match self.check_subscribe(&pair, scope) {
                    Ok(()) => ClientAction::OpenSession { pair, scope, options },
                    Err(e) => ClientAction::Refuse(e),
                }
            },
            ClientCommand::Unsubscribe { pair } => {
                match self.unsubscribe(&pair, now) {
                    Ok(out) => ClientAction::Unsubscribed(out),
                    Err(e) => ClientAction::Refuse(e),
                }
            },
            ClientCommand::Take => {
                match self.prepare_attach(consumer_open) {
                    Ok(Some(ring)) => ClientAction::Attach(flush_ring(ring)),
                    Ok(None) => ClientAction::Attach(Vec::new()),
                    Err(e) => ClientAction::Refuse(e),
                }
            },
            ClientCommand::Subscriptions => ClientAction::Report(self.subscriptions()),
            ClientCommand::Close => ClientAction::Exit(ClientController::session_closing(now)),
            ClientCommand::HandleDropped => ClientAction::Exit(
                ClientController::session_closing(now),
            ),
        }
    }
}

/// What a command of the client does, and what answers it.
pub open spec fn client_commanded(
    pre: ClientController,
    cmd: ClientCommand,
    consumer_open: bool,
    now: Timestamp,
    post: ClientController,
    r: ClientAction,
) -> bool {
    match cmd {
        ClientCommand::Subscribe { pair, scope, options } => {
            &&& post == pre
            &&& if pre.entries@.contains_key(pair@) {
                r is Refuse && r->Refuse_0@ == (ErrorView::DuplicateSubscription {
                    instrument: pair.instrument@,
                    kind: pair.kind,
                })
            } else if scope == (Scope::Live { backfill_from: None }) {
                r == (ClientAction::OpenSession { pair, scope, options })
            } else {
                r is Refuse && r->Refuse_0@ == ErrorView::UnsupportedClientScope
            }
        },
        ClientCommand::Unsubscribe { pair } => {
            &&& post.entries@ == pre.entries@.remove(pair@)
            &&& post == (ClientController { entries: post.entries, stats: post.stats, ..pre })
            &&& post.stats == (ClientStats {
                subscriptions: post.stats.subscriptions,
                ..pre.stats
            })
            &&& if pre.entries@.contains_key(pair@) {
                &&& r is Unsubscribed
                &&& r->Unsubscribed_0.provider == pre.entries@[pair@]
                &&& r->Unsubscribed_0.event@ == subscription_notice(
                    pair.instrument@,
                    pair.kind,
                    pre.entries@[pair@]@,
                    false,
                    now,
                )
            } else {
                r is Refuse && r->Refuse_0@ == (ErrorView::NotSubscribed {
                    instrument: pair.instrument@,
                    kind: pair.kind,
                })
            }
        },
        ClientCommand::Take => if pre.sink is Attached && consumer_open {
            r == ClientAction::Refuse(Error::EventsAlreadyTaken) && post == pre
        } else {
            &&& r is Attach
            &&& post == (ClientController {
                sink: ClientSink::Attached,
                stats: ClientStats { occupancy: 0, ..pre.stats },
                ..pre
            })
            &&& match pre.sink {
                ClientSink::Detached(ring) => drains(ring@, outgoing_views(r->Attach_0@)),
                ClientSink::Attached => r->Attach_0@.len() == 0,
            }
        },
        ClientCommand::Subscriptions => r is Report && r->Report_0@ == pairs_of(pre.entries.rows@)
            && post == pre,
        _ => {
            &&& r is Exit
            &&& r->Exit_0.event@ == EventView::control(
                now,
                SeqNo(SYNTHETIC_SEQ),
                ControlKindView::SessionClosing,
            )
            &&& r->Exit_0.provider@ == Seq::<char>::empty()
            &&& post == pre
        },
    }
}

/// What routing an event of a symbol does.
pub open spec fn routed(
    pre: ClientController,
    pair: Pair,
    ev: MarketEvent,
    post: ClientController,
    r: Option<Outgoing>,
) -> bool {
    &&& post.entries == pre.entries
    &&& post.sink == pre.sink
    &&& post.stats == pre.stats
    &&& post.ring_capacity == pre.ring_capacity
    &&& r is Some <==> pre.coalescer().passes(ev@)
    &&& r is Some ==> r->0.event == ev && r->0.provider@ == pre.provider_of(pair)
    &&& post.coalescer() == pre.coalescer().told(ev@)
}

/// What delivering an event does.
pub open spec fn client_delivered(
    pre: ClientController,
    out: Outgoing,
    consumer_open: bool,
    post: ClientController,
    send: Option<Outgoing>,
) -> bool {
    if pre.sink is Attached && consumer_open {
        send == Some(out) && post == pre
    } else {
        send is None && client_buffered(pre, out, post)
    }
}

/// A client holds a symbol at most once: a second subscription is refused with
/// the pair's name, a first one to the live stream is opened as asked, and one
/// to anything else is refused. The set is as before until the session is open.
pub proof fn law_clients_hold_a_symbol_once(
    pre: ClientController,
    pair: Pair,
    scope: Scope,
    options: PersistenceOptions,
    consumer_open: bool,
    now: Timestamp,
    post: ClientController,
    r: ClientAction,
)
    requires
        client_commanded(
            pre,
            ClientCommand::Subscribe { pair, scope, options },
            consumer_open,
            now,
            post,
            r,
        ),
    ensures
        post.entries == pre.entries,
        r is OpenSession <==> !pre.entries@.contains_key(pair@) && scope is Live
            && scope->backfill_from is None,
        r matches ClientAction::OpenSession { pair: p, scope: s, options: o } ==> p == pair && s
            == scope && o == options,
        !(r is OpenSession) ==> r is Refuse,
        pre.entries@.contains_key(pair@) ==> r->Refuse_0@ is DuplicateSubscription
            && r->Refuse_0@->DuplicateSubscription_instrument == pair.instrument@
            && r->Refuse_0@->DuplicateSubscription_kind == pair.kind,
        r is Refuse && !pre.entries@.contains_key(pair@) ==> r->Refuse_0@
            is UnsupportedClientScope,
{
}

/// A symbol that a client gives up is gone from its set, the others stay, and
/// the client is told that it is no longer active; what it does not hold it
/// cannot give up.
pub proof fn law_clients_give_up_what_they_hold(
    pre: ClientController,
    pair: Pair,
    other: (InstrumentView, EventKind),
    consumer_open: bool,
    now: Timestamp,
    post: ClientController,
    r: ClientAction,
)
    requires
        client_commanded(
            pre,
            ClientCommand::Unsubscribe { pair },
            consumer_open,
            now,
            post,
            r,
        ),
        other != pair@,
    ensures
        !post.entries@.contains_key(pair@),
        post.entries@.contains_key(other) <==> pre.entries@.contains_key(other),
        pre.entries@.contains_key(other) ==> post.entries@[other] == pre.entries@[other],
        r is Unsubscribed <==> pre.entries@.contains_key(pair@),
        r is Refuse <==> !pre.entries@.contains_key(pair@),
        r is Unsubscribed ==> {
            let ev = r->Unsubscribed_0.event@;
            &&& ev is Control && ev->Control_0.kind is SubscriptionChanged
            &&& !ev->Control_0.kind->active
            &&& ev->Control_0.kind->SubscriptionChanged_instrument == pair.instrument@
            &&& ev->Control_0.kind->SubscriptionChanged_kind == pair.kind
        },
        r is Refuse ==> r->Refuse_0@ is NotSubscribed,
        post.sink == pre.sink,
{
}

/// A client's stream can be taken again once its consumer has gone, and not
/// before; a client that comes back is handed everything that was kept, and
/// what it missed ahead of that.
pub proof fn law_streams_can_be_taken_again(
    pre: ClientController,
    consumer_open: bool,
    now: Timestamp,
    post: ClientController,
    r: ClientAction,
)
    requires
        client_commanded(pre, ClientCommand::Take, consumer_open, now, post, r),
    ensures
        r is Refuse <==> pre.sink is Attached && consumer_open,
        r is Refuse ==> r->Refuse_0 is EventsAlreadyTaken && post == pre,
        !(r is Refuse) ==> r is Attach && post.sink is Attached && post.entries == pre.entries
            && post.stats.occupancy == 0,
        !(r is Refuse) && pre.sink is Attached ==> r->Attach_0@.len() == 0,
        pre.sink matches ClientSink::Detached(ring) ==> {
            let out = outgoing_views(r->Attach_0@);
            let n = out.len() - ring@.buf.len();
            &&& n >= 0
            &&& forall|i: int| 0 <= i < n ==> (#[trigger] out[i]).0 is Control
                && out[i].0->Control_0.kind is Gap
            &&& forall|j: int|
                0 <= j < ring@.buf.len() ==> out[n + j] == ((#[trigger] ring@.buf[j]).0@,
                ring@.buf[j].1@)
        },
{
    if let ClientSink::Detached(ring) = pre.sink {
        let out = outgoing_views(r->Attach_0@);
        let gaps = choose|gaps: Seq<InstrumentGap>|
            {
                &&& by_first_seq(gaps)
                &&& one_per_instrument(gaps)
                &&& losses(gaps) == ring@.dropped
                &&& out == #[trigger] flush_of(gaps, ring@.buf)
            };
        assert(out == flush_of(gaps, ring@.buf));
        assert forall|j: int| 0 <= j < ring@.buf.len() implies out[out.len() - ring@.buf.len() + j]
            == ((#[trigger] ring@.buf[j]).0@, ring@.buf[j].1@) by {
            assert(out.len() == gaps.len() + ring@.buf.len());
        }
    }
}

/// The end of a client's session is announced to it, whoever ended it.
pub proof fn law_the_end_is_announced(
    pre: ClientController,
    cmd: ClientCommand,
    consumer_open: bool,
    now: Timestamp,
    post: ClientController,
    r: ClientAction,
)
    requires
        cmd is Close || cmd is HandleDropped,
        client_commanded(pre, cmd, consumer_open, now, post, r),
    ensures
        r is Exit,
        r->Exit_0.event@ is Control,
        r->Exit_0.event@->Control_0.kind is SessionClosing,
        r->Exit_0.event@.source_ts() == now,
{
}

/// Data and gaps of every symbol reach the client as they came, accounted to
/// the provider that serves the symbol; an event that an open consumer is there
/// for is handed to it, and one that nobody is there for is kept.
pub proof fn law_data_reaches_the_client_as_it_came(
    pre: ClientController,
    pair: Pair,
    ev: MarketEvent,
    mid: ClientController,
    r: Option<Outgoing>,
    consumer_open: bool,
    post: ClientController,
    send: Option<Outgoing>,
)
    requires
        ev@ is Trade || ev@ is Quote || ev@ is Bar || (ev@ is Control && ev@->Control_0.kind is Gap),
        routed(pre, pair, ev, mid, r),
        r is Some ==> client_delivered(mid, r->0, consumer_open, post, send),
        mid.sink.wf(),
    ensures
        r is Some && r->0.event == ev,
        pre.entries@.contains_key(pair@) ==> r->0.provider@ == pre.entries@[pair@]@,
        !pre.entries@.contains_key(pair@) ==> r->0.provider@ == pair.instrument@.provider,
        pre.sink is Attached && consumer_open ==> send == r,
        !(pre.sink is Attached && consumer_open) ==> send is None && post.sink is Detached
            && post.sink->Detached_0@.buf.len() > 0 && post.sink->Detached_0@.buf.last().0 == ev,
{
}

/// Unsubscribing undoes subscribing: a symbol that the client did not hold
/// leaves its subscription set as it was.
pub proof fn law_unsubscribe_undoes_subscribe(
    pre: ClientController,
    mid: ClientController,
    post: ClientController,
    pair: Pair,
    provider: String,
)
    requires
        !pre.entries@.contains_key(pair@),
        mid.entries@ == pre.entries@.insert(pair@, provider),
        post.entries@ == mid.entries@.remove(pair@),
    ensures
        post.entries@ == pre.entries@,
{
    assert(post.entries@ =~= pre.entries@);
}

/// A connection transition or an error that the client has been told of is
/// not told again until something different happened to the same provider.
pub proof fn law_repeats_are_suppressed(c: CoalescerView, ev: EventView)
    requires
        ev is Control,
        ev->Control_0.kind is ProviderConnected || ev->Control_0.kind is ProviderDisconnected
            || ev->Control_0.kind is ProviderError,
    ensures
        !c.told(ev).passes(ev),
{
}

/// What a client is told of one provider does not depend on what happens to
/// another.
pub proof fn law_providers_are_coalesced_apart(c: CoalescerView, ev: EventView, other: EventView)
    requires
        ev is Control && other is Control,
        control_provider(ev->Control_0.kind) is Some,
        control_provider(other->Control_0.kind) is Some,
        control_provider(ev->Control_0.kind) != control_provider(other->Control_0.kind),
    ensures
        c.told(other).passes(ev) == c.passes(ev),
{
}

/// The provider whose connection a control is about.
pub open spec fn control_provider(kind: ControlKindView) -> Option<Seq<char>> {
    match kind {
        ControlKindView::ProviderConnected { provider } => Some(provider),
        ControlKindView::ProviderDisconnected { provider, .. } => Some(provider),
        ControlKindView::ProviderError { provider, .. } => Some(provider),
        _ => None,
    }
}

/// Data and per-symbol controls always reach the client.
pub proof fn law_data_is_never_suppressed(c: CoalescerView, ev: EventView)
    requires
        ev is Control ==> ev->Control_0.kind is Gap || ev->Control_0.kind is SubscriptionChanged,
    ensures
        c.passes(ev),
        c.told(ev) == c,
{
}

/// News pass: the first state of a provider, each change of it, and each error
/// that differs from the last. The end of one of its symbols is no end of the
/// client's stream.
pub proof fn law_news_pass(c: CoalescerView, provider: Seq<char>, message: Seq<char>, ev: EventView)
    requires
        ev is Control,
    ensures
        ev->Control_0.kind == (ControlKindView::ProviderConnected { provider }) ==> {
            &&& !c.connections.contains_key(provider) ==> c.passes(ev)
            &&& c.connections.contains_key(provider) && c.connections[provider] is Disconnected
                ==> c.passes(ev)
            &&& c.told(ev).connections.contains_key(provider)
            &&& c.told(ev).connections[provider] is Connected
            &&& c.told(ev).errors == c.errors
        },
        ev->Control_0.kind is ProviderDisconnected
            && ev->Control_0.kind->ProviderDisconnected_provider == provider ==> {
            &&& !c.connections.contains_key(provider) ==> c.passes(ev)
            &&& c.connections.contains_key(provider) && c.connections[provider] is Connected
                ==> c.passes(ev)
            &&& c.told(ev).connections.contains_key(provider)
            &&& c.told(ev).connections[provider] is Disconnected
            &&& c.told(ev).errors == c.errors
        },
        ev->Control_0.kind == (ControlKindView::ProviderError { provider, message }) ==> {
            &&& !c.errors.contains_key(provider) ==> c.passes(ev)
            &&& c.errors.contains_key(provider) && c.errors[provider] != message ==> c.passes(ev)
            &&& c.told(ev).errors.contains_key(provider) && c.told(ev).errors[provider] == message
            &&& c.told(ev).connections == c.connections
        },
        ev->Control_0.kind is SessionClosing ==> !c.passes(ev),
{
}

/// A notice of a subscription names its provider, instrument and kind and
/// whether it is active, and stands outside the places of any stream.
pub proof fn law_notices_name_the_subscription(
    instrument: InstrumentView,
    kind: EventKind,
    provider: Seq<char>,
    active: bool,
    now: Timestamp,
)
    ensures
        subscription_notice(instrument, kind, provider, active, now) matches EventView::Control(c)
            && {
            &&& c.kind is SubscriptionChanged
            &&& c.kind->SubscriptionChanged_instrument == instrument
            &&& c.kind->SubscriptionChanged_kind == kind
            &&& c.kind->SubscriptionChanged_provider == provider
            &&& c.kind->active == active
            &&& c.source_ts == now && c.rx_ts == now
            &&& c.seq.0 == u64::MAX
        },
{
}

/// A resumed client is first told what it missed, one gap for each instrument,
/// each at the place where its hole starts, and then handed what was kept, in
/// order and as it came.
pub proof fn law_losses_are_told_before_what_was_kept(
    gaps: Seq<InstrumentGap>,
    events: Seq<(MarketEvent, String)>,
    i: int,
    j: int,
)
    requires
        0 <= i < gaps.len(),
        0 <= j < events.len(),
    ensures
        flush_of(gaps, events).len() == gaps.len() + events.len(),
        ({
            let (ev, provider) = flush_of(gaps, events)[i];
            &&& ev is Control && ev->Control_0.kind is Gap
            &&& ev.seq() == gaps[i].0
            &&& ev->Control_0.kind->Gap_instrument == gaps[i].1@
            &&& ev->Control_0.kind->Gap_span == gaps[i].2
            &&& ev->Control_0.kind->Gap_provider == gaps[i].3@
            &&& ev.source_ts() == gaps[i].2.from_source_ts
            &&& provider == gaps[i].3@
        }),
        flush_of(gaps, events)[gaps.len() + j] == (events[j].0@, events[j].1@),
{
}

/// A client's subscriptions are reported each with its own instrument and kind.
pub proof fn law_subscriptions_are_reported(rows: Seq<(Pair, String)>, i: int)
    requires
        0 <= i < rows.len(),
    ensures
        pairs_of(rows).len() == rows.len(),
        pairs_of(rows)[i].0 == rows[i].0.instrument,
        pairs_of(rows)[i].1 == rows[i].0.kind,
{
}

/// What goes into a client's buffer goes behind everything that waits there,
/// with the provider that it is accounted to; one more event waits unless the
/// oldest made room, and then one more is counted as dropped.
pub proof fn law_buffered_events_wait_in_order(
    pre: ClientController,
    out: Outgoing,
    post: ClientController,
)
    requires
        pre.sink is Detached,
        pre.wf(),
        client_buffered(pre, out, post),
    ensures
        ({
            let before = pre.sink->Detached_0@.buf;
            let after = post.sink->Detached_0@.buf;
            let full = before.len() == pre.sink->Detached_0@.capacity;
            &&& after.len() > 0 && after.last() == (out.event, out.provider)
            &&& after == if full {
                before.skip(1).push((out.event, out.provider))
            } else {
                before.push((out.event, out.provider))
            }
            &&& post.stats.occupancy == after.len()
            &&& pre.stats.dropped_events < u64::MAX ==> post.stats.dropped_events
                == pre.stats.dropped_events + if full {
                1int
            } else {
                0
            }
            &&& post.entries == pre.entries
        }),
{
    let before = pre.sink->Detached_0@.buf;
    if before.len() == pre.sink->Detached_0@.capacity {
        assert(before.drop_first() =~= before.skip(1));
    }
}

/// What the end of a symbol's stream does.
pub open spec fn substream_ended(
    pre: ClientController,
    pair: Pair,
    now: Timestamp,
    post: ClientController,
    r: Option<Outgoing>,
) -> bool {
    &&& post.entries@ == pre.entries@.remove(pair@)
    &&& post == (ClientController { entries: post.entries, stats: post.stats, ..pre })
    &&& post.stats == (ClientStats { subscriptions: post.stats.subscriptions, ..pre.stats })
    &&& r is Some <==> pre.entries@.contains_key(pair@)
    &&& r is Some ==> r->0.provider == pre.entries@[pair@] && r->0.event@ == subscription_notice(
        pair.instrument@,
        pair.kind,
        pre.entries@[pair@]@,
        false,
        now,
    )
}

/// A symbol whose stream ends is gone from the client's set, and the client is
/// told once that it is no longer active; the others go on.
pub proof fn law_ended_symbols_are_told_once(
    pre: ClientController,
    pair: Pair,
    now: Timestamp,
    mid: ClientController,
    first: Option<Outgoing>,
    post: ClientController,
    second: Option<Outgoing>,
    other: (InstrumentView, EventKind),
)
    requires
        substream_ended(pre, pair, now, mid, first),
        substream_ended(mid, pair, now, post, second),
        other != pair@,
    ensures
        !mid.entries@.contains_key(pair@),
        first is Some <==> pre.entries@.contains_key(pair@),
        second is None,
        first matches Some(out) ==> {
            &&& out.event@ is Control && out.event@->Control_0.kind is SubscriptionChanged
            &&& !out.event@->Control_0.kind->active
            &&& out.event@->Control_0.kind->SubscriptionChanged_instrument == pair.instrument@
            &&& out.event@->Control_0.kind->SubscriptionChanged_kind == pair.kind
            &&& out.provider@ == pre.entries@[pair@]@
        },
        post.entries@.contains_key(other) <==> pre.entries@.contains_key(other),
{
}

} // verus!
