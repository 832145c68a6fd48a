//! The orchestrator: provider registration and routing, opening of sessions,
//! and the registry that shares one live session per symbol.

use vstd::prelude::*;

use crate::client::fanout::{joined, lemma_sent_data_was_delivered, FanOut, SubscriberId};
use crate::client::controller::ClientController;
use crate::client::ring::ClientRingView;
use crate::client::session::ClientSession;
use crate::client::stats::{ClientSessionId, LiveStats, LiveStatsView};
use crate::error::{Error, ErrorView};
use crate::event::{Adjustment, EventKind, Instrument, InstrumentView, MarketEvent, Timestamp};
use crate::table::{Pair, Table};
use crate::text::{is_before, join, lemma_text_order, lemma_text_order_transitive, same_text, text_before};

use super::controller::{in_step, Controller, Sink};
use super::lifecycle::LiveRun;
use super::options::{PersistenceOptions, Scope};
use super::ring::{EventRing, RingView};

verus! {

/// Default bound of resume buffers, in events.
pub const DEFAULT_RESUME_BUFFER_EVENTS: usize = 65_536;

/// Capacity of the channels between a session's parts, in events.
pub fn default_buffer() -> (r: usize)
    ensures
        r == 1024,
{
    1024
}

/// Whether the text occurs at two places.
pub open spec fn occurs_twice(ids: Seq<String>, id: Seq<char>) -> bool {
    exists|i: int, j: int|
        0 <= i < j < ids.len() && (#[trigger] ids[i])@ == id && (#[trigger] ids[j])@ == id
}

/// The first text among those that occur twice.
pub open spec fn is_first_duplicate(ids: Seq<String>, id: Seq<char>) -> bool {
    &&& occurs_twice(ids, id)
    &&& forall|other: Seq<char>|
        #[trigger] occurs_twice(ids, other) ==> other == id || text_before(id, other)
}

/// The texts of a list of strings.
pub open spec fn has_text(ids: Seq<String>, id: Seq<char>) -> bool {
    exists|i: int| 0 <= i < ids.len() && (#[trigger] ids[i])@ == id
}

/// The first among the texts that occur twice, if any does.
fn first_duplicate(ids: &Vec<String>) -> (r: Option<usize>)
    ensures
        r is None <==> forall|id: Seq<char>| !#[trigger] occurs_twice(ids@, id),
        r matches Some(k) ==> k < ids@.len() && is_first_duplicate(ids@, ids@[k as int]@),
{
    let mut best: Option<usize> = None;
    let mut i: usize = 0;
    while i < ids.len()
        invariant
            0 <= i <= ids@.len(),
            best is None ==> forall|a: int, b: int|
                0 <= a < i && a < b < ids@.len() ==> (#[trigger] ids@[a])@ != (
                #[trigger] ids@[b])@,
            best matches Some(k) ==> {
                &&& k < ids@.len()
                &&& occurs_twice(ids@, ids@[k as int]@)
                &&& forall|a: int, b: int|
                    0 <= a < i && a < b < ids@.len() && (#[trigger] ids@[a])@ == (
                    #[trigger] ids@[b])@ ==> ids@[a]@ == ids@[k as int]@ || text_before(
                        ids@[k as int]@,
                        ids@[a]@,
                    )
            },
        decreases ids@.len() - i,
    {
        let mut twice = false;
        let mut j: usize = i + 1;
        while j < ids.len()
            invariant
                0 <= i < j <= ids@.len(),
                twice ==> occurs_twice(ids@, ids@[i as int]@),
                !twice ==> forall|b: int|
                    i < b < j ==> (#[trigger] ids@[b])@ != ids@[i as int]@,
            decreases ids@.len() - j,
        {
            if ids[i] == ids[j] {
                twice = true;
            }
            j += 1;
        }
        if twice {
            let ghost before = best;
            let better = match best {
                None => true,
                Some(k) => is_before(ids[i].as_str(), ids[k].as_str()),
            };
            if better {
                best = Some(i);
            }
            proof {
                let k = best->0 as int;
                assert forall|a: int, b: int|
                    0 <= a < i + 1 && a < b < ids@.len() && (#[trigger] ids@[a])@ == (
                    #[trigger] ids@[b])@ implies ids@[a]@ == ids@[k]@ || text_before(
                    ids@[k]@,
                    ids@[a]@,
                ) by {
                    if before is Some {
                        let p = before->0 as int;
                        lemma_text_order(ids@[i as int]@, ids@[p]@);
                        if better && a < i && text_before(ids@[p]@, ids@[a]@) {
                            lemma_text_order_transitive(ids@[k]@, ids@[p]@, ids@[a]@);
                        }
                    }
                }
            }
        }
        i += 1;
    }
    proof {
        if best is None {
            assert forall|id: Seq<char>| !#[trigger] occurs_twice(ids@, id) by {
                if occurs_twice(ids@, id) {
                    let (a, b) = choose|a: int, b: int|
                        0 <= a < b < ids@.len() && (#[trigger] ids@[a])@ == id && (
                        #[trigger] ids@[b])@ == id;
                }
            }
        } else {
            let k = best->0 as int;
            assert forall|other: Seq<char>| #[trigger] occurs_twice(ids@, other) implies other
                == ids@[k]@ || text_before(ids@[k]@, other) by {
                let (a, b) = choose|a: int, b: int|
                    0 <= a < b < ids@.len() && (#[trigger] ids@[a])@ == other && (
                    #[trigger] ids@[b])@ == other;
            }
        }
    }
    best
}

/// Configuration of an orchestrator. Providers are known here by their ids.
pub struct DatamancerBuilder {
    pub providers: Vec<String>,
    pub has_tap_log: bool,
    pub has_cache: bool,
    pub instrument_provider: Vec<(Instrument, String)>,
    pub resume_buffer_events: Option<usize>,
    pub adjustment: Adjustment,
}

impl Default for DatamancerBuilder {
    fn default() -> (r: DatamancerBuilder)
        ensures
            r.providers@.len() == 0,
            !r.has_tap_log,
            !r.has_cache,
            r.instrument_provider@.len() == 0,
            r.resume_buffer_events is None,
            r.adjustment == Adjustment::All,
    {
        DatamancerBuilder {
            providers: Vec::new(),
            has_tap_log: false,
            has_cache: false,
            instrument_provider: Vec::new(),
            resume_buffer_events: None,
            adjustment: Adjustment::default(),
        }
    }
}

impl DatamancerBuilder {
    /// Register the provider `id` behind those registered before.
    pub fn provider(self, id: String) -> (r: DatamancerBuilder)
        ensures
            r.providers@ == self.providers@.push(id),
            r == (DatamancerBuilder { providers: r.providers, ..self }),
    {
        let mut r = self;
        r.providers.push(id);
        r
    }

    /// Pin an instrument to a provider. The first pin of an instrument counts.
    pub fn pin(self, instrument: Instrument, provider_id: String) -> (r: DatamancerBuilder)
        ensures
            r.instrument_provider@ == self.instrument_provider@.push((instrument, provider_id)),
            r == (DatamancerBuilder { instrument_provider: r.instrument_provider, ..self }),
    {
        let mut r = self;
        r.instrument_provider.push((instrument, provider_id));
        r
    }

    /// Attach a tap log.
    pub fn tap_log(self) -> (r: DatamancerBuilder)
        ensures
            r == (DatamancerBuilder { has_tap_log: true, ..self }),
    {
        DatamancerBuilder { has_tap_log: true, ..self }
    }

    /// Attach a historical cache.
    pub fn historical_cache(self) -> (r: DatamancerBuilder)
        ensures
            r == (DatamancerBuilder { has_cache: true, ..self }),
    {
        DatamancerBuilder { has_cache: true, ..self }
    }

    /// Bound of the resume buffers and of the buffer of live arrivals during
    /// a backfill.
    pub fn resume_buffer_events(self, events: usize) -> (r: DatamancerBuilder)
        ensures
            r == (DatamancerBuilder { resume_buffer_events: Some(events), ..self }),
    {
        DatamancerBuilder { resume_buffer_events: Some(events), ..self }
    }

    /// Adjustment mode of historical bars and of the cache keys.
    pub fn adjustment(self, adjustment: Adjustment) -> (r: DatamancerBuilder)
        ensures
            r == (DatamancerBuilder { adjustment, ..self }),
    {
        DatamancerBuilder { adjustment, ..self }
    }

    /// Finish the configuration, unless two providers share an id; the error
    /// names the first such id in text order.
    pub fn build(self) -> (r: Result<Datamancer, Error>)
        ensures
            r is Ok <==> forall|id: Seq<char>| !#[trigger] occurs_twice(self.providers@, id),
            r matches Err(e) ==> e@ is Config && exists|id: Seq<char>|
                #[trigger] is_first_duplicate(self.providers@, id) && e@->Config_0
                    == "duplicate provider id: "@ + id,
            r matches Ok(dm) ==> {
                &&& dm.wf()
                &&& dm.providers == self.providers
                &&& dm.has_tap_log == self.has_tap_log
                &&& dm.has_cache == self.has_cache
                &&& dm.instrument_provider == self.instrument_provider
                &&& dm.resume_buffer_events == match self.resume_buffer_events {
                    Some(n) => n,
                    None => DEFAULT_RESUME_BUFFER_EVENTS,
                }
                &&& dm.adjustment == self.adjustment
            },
    {
        if let Some(k) = first_duplicate(&self.providers) {
            proof {
                assert(is_first_duplicate(self.providers@, self.providers@[k as int]@));
            }
            return Err(
                Error::Config(join("duplicate provider id: ", self.providers[k].as_str())),
            );
        }
        let resume_buffer_events: usize = match self.resume_buffer_events {
            Some(n) => n,
            None => DEFAULT_RESUME_BUFFER_EVENTS,
        };
        Ok(
            Datamancer {
                providers: self.providers,
                has_tap_log: self.has_tap_log,
                has_cache: self.has_cache,
                instrument_provider: self.instrument_provider,
                resume_buffer_events,
                adjustment: self.adjustment,
            },
        )
    }
}

/// The orchestrator's configuration.
pub struct Datamancer {
    pub providers: Vec<String>,
    pub has_tap_log: bool,
    pub has_cache: bool,
    pub instrument_provider: Vec<(Instrument, String)>,
    pub resume_buffer_events: usize,
    pub adjustment: Adjustment,
}

/// How a session is opened.
pub enum SessionPlan {
    /// Fetch `[from, to)` under a controller of its own.
    Historical { provider: usize, controller: Controller, from: Timestamp, to: Timestamp },
    /// Join the symbol's shared live session, or create it.
    Live { provider: usize },
}

/// The provider id that the first pin of the instrument names.
pub open spec fn pinned_to(pins: Seq<(Instrument, String)>, inst: InstrumentView) -> Option<
    Seq<char>,
>
    decreases pins.len(),
{
    if pins.len() == 0 {
        None
    } else if pins[0].0@ == inst {
        Some(pins[0].1@)
    } else {
        pinned_to(pins.skip(1), inst)
    }
}

impl Datamancer {
    pub open spec fn wf(self) -> bool {
        forall|id: Seq<char>| !#[trigger] occurs_twice(self.providers@, id)
    }

    pub fn builder() -> (r: DatamancerBuilder)
        ensures
            r.providers@.len() == 0,
            !r.has_tap_log,
            !r.has_cache,
            r.instrument_provider@.len() == 0,
            r.resume_buffer_events is None,
            r.adjustment == Adjustment::All,
    {
        DatamancerBuilder::default()
    }

    /// A new client without subscriptions: its handle, and its controller with
    /// the configured resume buffer.
    pub fn client_session(&self, id: ClientSessionId) -> (r: (ClientSession, ClientController))
        ensures
            r.0.id == id,
            r.1.wf(),
            r.1.stats.id == id,
            r.1.ring_capacity == self.resume_buffer_events,
            r.1.entries@ == Map::<(InstrumentView, EventKind), String>::empty(),
            r.1.sink is Detached,
            r.1.sink->Detached_0@ == ClientRingView::empty(self.resume_buffer_events as nat),
    {
        (
            ClientSession::new(id),
            ClientController::new(id, self.resume_buffer_events, None),
        )
    }

    /// Position of the provider `id`.
    pub fn provider(&self, id: &str) -> (r: Result<usize, Error>)
        ensures
            r is Ok <==> has_text(self.providers@, id@),
            r matches Ok(k) ==> k < self.providers@.len() && self.providers@[k as int]@ == id@
                && forall|i: int| 0 <= i < k ==> (#[trigger] self.providers@[i])@ != id@,
            r matches Err(e) ==> e@ == ErrorView::UnknownProvider(id@),
    {
        let mut k: usize = 0;
        while k < self.providers.len()
            invariant
                0 <= k <= self.providers@.len(),
                forall|i: int| 0 <= i < k ==> (#[trigger] self.providers@[i])@ != id@,
            decreases self.providers@.len() - k,
        {
            if same_text(self.providers[k].as_str(), id) {
                return Ok(k);
            }
            k += 1;
        }
        Err(Error::UnknownProvider(id.to_owned()))
    }

    /// The provider id that the instrument is pinned to.
    fn pinned(&self, instrument: &Instrument) -> (r: Option<usize>)
        ensures
            r is Some <==> pinned_to(self.instrument_provider@, instrument@) is Some,
            r matches Some(k) ==> k < self.instrument_provider@.len() && pinned_to(
                self.instrument_provider@,
                instrument@,
            ) == Some(self.instrument_provider@[k as int].1@),
    {
        let mut k: usize = 0;
        proof {
            assert(self.instrument_provider@.skip(0) =~= self.instrument_provider@);
        }
        while k < self.instrument_provider.len()
            invariant
                0 <= k <= self.instrument_provider@.len(),
                pinned_to(self.instrument_provider@, instrument@) == pinned_to(
                    self.instrument_provider@.skip(k as int),
                    instrument@,
                ),
            decreases self.instrument_provider@.len() - k,
        {
            proof {
                assert(self.instrument_provider@.skip(k as int)[0]
                    == self.instrument_provider@[k as int]);
                assert(self.instrument_provider@.skip(k as int).skip(1)
                    =~= self.instrument_provider@.skip(k as int + 1));
            }
            if self.instrument_provider[k].0.same(instrument) {
                return Some(k);
            }
            k += 1;
        }
        None
    }

    /// Whether the instrument is pinned to the provider at `k`.
    pub open spec fn is_pinned(self, instrument: InstrumentView, k: int) -> bool {
        pinned_to(self.instrument_provider@, instrument) == Some(self.providers@[k]@)
    }

    /// Whether the provider that the instrument is pinned to supports the pair.
    pub open spec fn pin_serves(self, instrument: InstrumentView, supports: Seq<bool>) -> bool {
        exists|k: int|
            0 <= k < self.providers@.len() && supports[k] && #[trigger] self.is_pinned(
                instrument,
                k,
            )
    }

    /// The provider at `k` is the one that the pair is routed to: it supports
    /// the pair; it is the pinned one where that supports the pair too; and
    /// otherwise no provider before it supports the pair.
    pub open spec fn serves(self, instrument: InstrumentView, supports: Seq<bool>, k: int) -> bool {
        &&& 0 <= k < self.providers@.len()
        &&& supports[k]
        &&& if self.pin_serves(instrument, supports) {
            &&& self.is_pinned(instrument, k)
            &&& forall|i: int|
                0 <= i < k && supports[i] ==> !#[trigger] self.is_pinned(instrument, i)
        } else {
            forall|i: int| 0 <= i < k ==> !#[trigger] supports[i]
        }
    }

    /// Whether some provider supports the pair.
    pub open spec fn routable(self, supports: Seq<bool>) -> bool {
        exists|k: int| 0 <= k < self.providers@.len() && #[trigger] supports[k]
    }

    /// The provider that serves a pair: among those that support it the one
    /// that the instrument is pinned to, or else the first. `supports` holds
    /// what each provider, in order, says of the pair.
    pub fn route(&self, instrument: &Instrument, kind: EventKind, supports: &Vec<bool>) -> (r:
        Result<usize, Error>)
        requires
            supports@.len() == self.providers@.len(),
        ensures
            r is Ok <==> self.routable(supports@),
            r matches Ok(k) ==> self.serves(instrument@, supports@, k as int),
            r matches Err(e) ==> e@ == (ErrorView::UnsupportedEventKind {
                kind,
                instrument: instrument@,
            }),
    {
        if let Some(p) = self.pinned(instrument) {
            let mut k: usize = 0;
            while k < self.providers.len()
                invariant
                    0 <= k <= self.providers@.len(),
                    supports@.len() == self.providers@.len(),
                    p < self.instrument_provider@.len(),
                    pinned_to(self.instrument_provider@, instrument@) == Some(
                        self.instrument_provider@[p as int].1@,
                    ),
                    forall|i: int|
                        0 <= i < k && supports@[i] ==> !#[trigger] self.is_pinned(instrument@, i),
                decreases self.providers@.len() - k,
            {
                if supports[k] && self.providers[k] == self.instrument_provider[p].1 {
                    assert(self.is_pinned(instrument@, k as int));
                    assert(self.pin_serves(instrument@, supports@));
                    return Ok(k);
                }
                k += 1;
            }
        }
        assert(!self.pin_serves(instrument@, supports@));
        let mut k: usize = 0;
        while k < self.providers.len()
            invariant
                0 <= k <= self.providers@.len(),
                supports@.len() == self.providers@.len(),
                !self.pin_serves(instrument@, supports@),
                forall|i: int| 0 <= i < k ==> !#[trigger] supports@[i],
            decreases self.providers@.len() - k,
        {
            if supports[k] {
                return Ok(k);
            }
            k += 1;
        }
        Err(Error::UnsupportedEventKind { kind, instrument: instrument.clone() })
    }

    /// Open a session. Options that need a store which is not configured are
    /// refused before anything else, then pairs that no provider serves.
    pub fn session(
        &self,
        instrument: Instrument,
        kind: EventKind,
        scope: Scope,
        options: PersistenceOptions,
        supports: &Vec<bool>,
    ) -> (r: Result<SessionPlan, Error>)
        requires
            supports@.len() == self.providers@.len(),
        ensures
            !options.served_by(self.has_cache, self.has_tap_log) ==> r is Err && r->Err_0@
                == ErrorView::PersistenceRequired,
            options.served_by(self.has_cache, self.has_tap_log) && !self.routable(
                supports@,
            ) ==> r is Err && r->Err_0@ == (ErrorView::UnsupportedEventKind {
                kind,
                instrument: instrument@,
            }),
            options.served_by(self.has_cache, self.has_tap_log) && self.routable(supports@)
                ==> r is Ok,
            r matches Ok(plan) ==> match scope {
                Scope::Historical { from, to } => {
                    &&& plan is Historical
                    &&& self.serves(instrument@, supports@, plan->Historical_provider as int)
                    &&& plan->Historical_from == from
                    &&& plan->Historical_to == to
                    &&& self.fresh_controller(
                        plan->Historical_controller,
                        plan->Historical_provider as int,
                        instrument,
                        kind,
                        scope,
                        options,
                    )
                    &&& plan->Historical_controller.sink is Attached
                    &&& plan->Historical_controller.fanout is None
                },
                Scope::Live { .. } => {
                    &&& plan is Live
                    &&& self.serves(instrument@, supports@, plan->Live_provider as int)
                },
            },
    {
        if !options.is_served_by(self.has_cache, self.has_tap_log) {
            return Err(Error::PersistenceRequired);
        }
        let provider: usize = match self.route(&instrument, kind, supports) {
            Ok(k) => k,
            Err(e) => {
                return Err(e);
            },
        };
        match scope {
            Scope::Historical { from, to } => {
                let controller = self.controller(
                    provider,
                    instrument,
                    kind,
                    scope,
                    options,
                    Sink::Attached,
                    None,
                );
                Ok(SessionPlan::Historical { provider, controller, from, to })
            },
            Scope::Live { .. } => Ok(SessionPlan::Live { provider }),
        }
    }

    /// A controller that has emitted nothing, configured for the session.
    pub open spec fn fresh_controller(
        self,
        c: Controller,
        provider: int,
        instrument: Instrument,
        kind: EventKind,
        scope: Scope,
        options: PersistenceOptions,
    ) -> bool {
        &&& c.wf()
        &&& c.provider_id == self.providers@[provider]
        &&& c.instrument == instrument
        &&& c.kind == kind
        &&& c.scope == scope
        &&& c.adjustment == self.adjustment
        &&& c.persistence == options
        &&& c.has_cache == self.has_cache
        &&& c.has_tap_log == self.has_tap_log
        &&& c.ring_capacity == self.resume_buffer_events
        &&& c.next_seq == 0
    }

    fn controller(
        &self,
        provider: usize,
        instrument: Instrument,
        kind: EventKind,
        scope: Scope,
        options: PersistenceOptions,
        sink: Sink,
        fanout: Option<FanOut>,
    ) -> (r: Controller)
        requires
            provider < self.providers@.len(),
            sink.wf(),
            fanout matches Some(f) ==> f.wf(),
        ensures
            self.fresh_controller(r, provider as int, instrument, kind, scope, options),
            r.sink == sink,
            r.fanout == fanout,
            r.stats@ == LiveStatsView::zero(),
    {
        Controller {
            provider_id: self.providers[provider].clone(),
            instrument,
            kind,
            scope,
            adjustment: self.adjustment,
            persistence: options,
            has_cache: self.has_cache,
            has_tap_log: self.has_tap_log,
            sink,
            ring_capacity: self.resume_buffer_events,
            next_seq: 0,
            fanout,
            stats: LiveStats::new(),
            emitted: Ghost(Seq::empty()),
        }
    }

    /// The controller of a new live session. Its opener is a referrer before
    /// anything is delivered, so nothing that a backfill emits at once is lost
    /// to an empty fan-out.
    pub fn create_authoritative(
        &self,
        provider: usize,
        instrument: Instrument,
        kind: EventKind,
        scope: Scope,
        options: PersistenceOptions,
        first_id: SubscriberId,
        first: tokio::sync::mpsc::Sender<MarketEvent>,
    ) -> (r: Controller)
        requires
            provider < self.providers@.len(),
        ensures
            self.fresh_controller(r, provider as int, instrument, kind, scope, options),
            r.sink matches Sink::Detached(ring) && ring@ == RingView::empty(1),
            r.fanout is Some,
            r.fanout->0.delivered@.len() == 0,
            in_step(r),
            r.fanout->0.had_subscriber,
            r.fanout->0.last_subscription_changed is None,
            r.fanout->0.departed@.len() == 0,
            r.fanout->0.subscribers@.len() == 1,
            joined(r.fanout->0.subscribers@[0], first_id, first, None),
            r.stats@ == LiveStatsView::zero(),
    {
        let mut fanout = FanOut::new();
        fanout.add(first_id, first);
        let r = self.controller(
            provider,
            instrument,
            kind,
            scope,
            options,
            Sink::Detached(EventRing::new(1)),
            Some(fanout),
        );
        proof {
            assert(r.fanout->0.delivered@ =~= r.emitted@);
        }
        r
    }
}

/// Where the history ahead of a live tail starts.
pub open spec fn backfill_of(scope: Scope) -> Option<Timestamp> {
    match scope {
        Scope::Live { backfill_from } => backfill_from,
        Scope::Historical { .. } => None,
    }
}

/// Where a live scope's backfill starts; a historical one has none.
pub fn backfill_start(scope: Scope) -> (r: Option<Timestamp>)
    ensures
        r == backfill_of(scope),
{
    match scope {
        Scope::Live { backfill_from } => backfill_from,
        Scope::Historical { .. } => None,
    }
}

// ---------------------------------------------------------------------------
// The registry of live sessions
// ---------------------------------------------------------------------------

/// Number of a live session.
#[derive(Clone, Copy, Debug, PartialEq, Eq, Hash, Structural)]
pub struct LiveSessionId(pub u64);

/// Outcome of claiming a symbol's registry slot.
#[derive(Clone, Copy, Debug, PartialEq, Eq, Structural)]
pub enum Claim {
    /// The slot is the claimant's.
    Won,
    /// A live session holds it: join that one.
    Held(LiveSessionId),
}

/// At most one live session per `(instrument, kind)`.
pub struct LiveRegistry {
    pub slots: Table<Pair, LiveSessionId>,
}

impl LiveRegistry {
    pub open spec fn wf(self) -> bool {
        self.slots.wf()
    }

    pub fn new() -> (r: LiveRegistry)
        ensures
            r.wf(),
            r.slots@ == Map::<(InstrumentView, EventKind), LiveSessionId>::empty(),
    {
        LiveRegistry { slots: Table::new() }
    }

    /// The session registered for the pair, which may be gone by now.
    pub fn holder(&self, pair: &Pair) -> (r: Option<LiveSessionId>)
        requires
            self.wf(),
        ensures
            r is Some <==> self.slots@.contains_key(pair@),
            r is Some ==> r->0 == self.slots@[pair@],
    {
        match self.slots.get(pair) {
            Some(id) => Some(*id),
            None => None,
        }
    }

    /// Claim the pair's slot for `candidate`, unless its holder is alive.
    pub fn claim(&mut self, pair: Pair, candidate: LiveSessionId, holder_alive: bool) -> (r: Claim)
        requires
            old(self).wf(),
        ensures
            final(self).wf(),
            claimed(*old(self), pair, candidate, holder_alive, *final(self), r),
    {
        if holder_alive {
            if let Some(id) = self.slots.get(&pair) {
                return Claim::Held(*id);
            }
        }
        self.slots.insert(pair, candidate);
        Claim::Won
    }

    /// A session of the pair has gone: clear the slot, unless a live successor
    /// has taken it.
    pub fn release(&mut self, pair: &Pair, holder_alive: bool)
        requires
            old(self).wf(),
        ensures
            final(self).wf(),
            final(self).slots@ == released(old(self).slots@, pair@, holder_alive),
    {
        if !holder_alive {
            let _ = self.slots.remove(pair);
        }
    }
}

/// What claiming a pair's slot does: a holder that is alive keeps it, and is
/// the session to join; otherwise it goes to the candidate.
pub open spec fn claimed(
    pre: LiveRegistry,
    pair: Pair,
    candidate: LiveSessionId,
    holder_alive: bool,
    post: LiveRegistry,
    r: Claim,
) -> bool {
    if holder_alive && pre.slots@.contains_key(pair@) {
        &&& r == Claim::Held(pre.slots@[pair@])
        &&& post.slots@ == pre.slots@
    } else {
        &&& r is Won
        &&& post.slots@ == pre.slots@.insert(pair@, candidate)
    }
}

/// The session that a claim leads to.
pub open spec fn session_of(r: Claim, candidate: LiveSessionId) -> LiveSessionId {
    match r {
        Claim::Won => candidate,
        Claim::Held(id) => id,
    }
}

/// The identity shared by all handles onto one live session.
pub struct AuthoritativeSession {
    pub pair: Pair,
    pub provider_id: String,
    pub scope: Scope,
    pub persistence: PersistenceOptions,
    pub next_subscriber_id: u64,
}

impl AuthoritativeSession {
    pub fn new(
        pair: Pair,
        provider_id: String,
        scope: Scope,
        persistence: PersistenceOptions,
    ) -> (r: AuthoritativeSession)
        ensures
            r == (AuthoritativeSession {
                pair,
                provider_id,
                scope,
                persistence,
                next_subscriber_id: 0,
            }),
    {
        AuthoritativeSession { pair, provider_id, scope, persistence, next_subscriber_id: 0 }
    }

    /// A number that no referrer of the session has had, until the numbers
    /// run out and start again.
    pub fn alloc_subscriber_id(&mut self) -> (r: SubscriberId)
        ensures
            r.0 == old(self).next_subscriber_id,
            *final(self) == (AuthoritativeSession {
                next_subscriber_id: crate::accounting::bump(old(self).next_subscriber_id),
                ..*old(self)
            }),
    {
        let id: u64 = self.next_subscriber_id;
        self.next_subscriber_id = id.wrapping_add(1);
        SubscriberId(id)
    }

    /// Adopt the options once the controller has accepted them, or pass its
    /// refusal on.
    pub fn set_persistence(
        &mut self,
        options: PersistenceOptions,
        applied: Result<(), Error>,
    ) -> (r: Result<(), Error>)
        ensures
            r == applied,
            *final(self) == if applied is Ok {
                AuthoritativeSession { persistence: options, ..*old(self) }
            } else {
                *old(self)
            },
    {
        if applied.is_ok() {
            self.persistence = options;
        }
        applied
    }

    pub fn persistence(&self) -> (r: PersistenceOptions)
        ensures
            r == self.persistence,
    {
        self.persistence
    }
}

// ---------------------------------------------------------------------------
// Session handles
// ---------------------------------------------------------------------------

/// A handle onto a session for one `(instrument, kind)` pair.
pub struct Session {
    pub pair: Pair,
    pub scope: Scope,
    pub persistence: PersistenceOptions,
    /// Whether the stream of a historical session has been taken.
    pub stream_taken: bool,
}

/// Where a session's stream comes from.
#[derive(Clone, Copy, Debug, PartialEq, Eq, Structural)]
pub enum StreamSource {
    /// The stream made when the session was opened.
    Own,
    /// The client controller, which attaches a new one.
    Client,
}

impl Session {
    pub fn new(
        instrument: Instrument,
        kind: EventKind,
        scope: Scope,
        persistence: PersistenceOptions,
    ) -> (r: Session)
        ensures
            r == (Session { pair: Pair { instrument, kind }, scope, persistence, stream_taken: false }),
    {
        Session { pair: Pair { instrument, kind }, scope, persistence, stream_taken: false }
    }

    /// Take the event stream: once for a historical session, again and again
    /// for a live one, whose client controller decides.
    pub fn take_events(&mut self) -> (r: Result<StreamSource, Error>)
        ensures
            stream_taken_from(*old(self), *final(self), r),
    {
        match self.scope {
            Scope::Live { .. } => Ok(StreamSource::Client),
            Scope::Historical { .. } => {
                if self.stream_taken {
                    Err(Error::EventsAlreadyTaken)
                } else {
                    self.stream_taken = true;
                    Ok(StreamSource::Own)
                }
            },
        }
    }

    /// Adopt the options once the controller has accepted them, or pass its
    /// refusal on.
    pub fn set_persistence(
        &mut self,
        options: PersistenceOptions,
        applied: Result<(), Error>,
    ) -> (r: Result<(), Error>)
        ensures
            r == applied,
            *final(self) == if applied is Ok {
                Session { persistence: options, ..*old(self) }
            } else {
                *old(self)
            },
    {
        if applied.is_ok() {
            self.persistence = options;
        }
        applied
    }

    pub fn persistence(&self) -> (r: PersistenceOptions)
        ensures
            r == self.persistence,
    {
        self.persistence
    }

    pub fn instrument(&self) -> (r: &Instrument)
        ensures
            *r == self.pair.instrument,
    {
        &self.pair.instrument
    }

    pub fn kind(&self) -> (r: EventKind)
        ensures
            r == self.pair.kind,
    {
        self.pair.kind
    }

    pub fn scope(&self) -> (r: Scope)
        ensures
            r == self.scope,
    {
        self.scope
    }
}

/// A pin only decides among the providers that support a pair: it wins over
/// the others where its own provider supports the pair, and where that does
/// not, the pair is routed as if there were no pin.
pub proof fn law_pins_decide_among_supporters(
    dm: Datamancer,
    instrument: InstrumentView,
    supports: Seq<bool>,
    k: int,
)
    requires
        dm.serves(instrument, supports, k),
    ensures
        supports[k],
        forall|p: int|
            0 <= p < dm.providers@.len() && supports[p] && #[trigger] dm.is_pinned(instrument, p)
                ==> dm.providers@[k]@ == dm.providers@[p]@,
        (forall|p: int|
            0 <= p < dm.providers@.len() && #[trigger] dm.is_pinned(instrument, p)
                ==> !supports[p]) ==> forall|i: int| 0 <= i < k ==> !#[trigger] supports[i],
{
}

/// Per-symbol determinism: two openings of one symbol share one live session,
/// where the first one's is still running, and see the same places. Whatever
/// data the channels of two referrers of a live session accepted, data of the
/// same place is the same event.
pub proof fn law_two_openings_see_the_same_places(
    before: LiveRegistry,
    between: LiveRegistry,
    after: LiveRegistry,
    pair: Pair,
    first: LiveSessionId,
    second: LiveSessionId,
    alive: bool,
    first_claim: Claim,
    second_claim: Claim,
    run: LiveRun,
    i: int,
    j: int,
    a: int,
    b: int,
)
    requires
        claimed(before, pair, first, alive, between, first_claim),
        claimed(between, pair, second, true, after, second_claim),
        run.wf(),
        0 <= i < run.referrers().len(),
        0 <= j < run.referrers().len(),
        0 <= a < run.referrers()[i].sent().len(),
        0 <= b < run.referrers()[j].sent().len(),
        run.referrers()[i].sent()[a]@.is_data(),
        run.referrers()[j].sent()[b]@.is_data(),
        run.referrers()[i].sent()[a]@.seq() == run.referrers()[j].sent()[b]@.seq(),
    ensures
        second_claim == Claim::Held(session_of(first_claim, first)),
        after.slots@ == between.slots@,
        run.referrers()[i].sent()[a] == run.referrers()[j].sent()[b],
{
    let f = run.ctl.fanout->0;
    let log = f.delivered@;
    let x = run.referrers()[i].sent()[a];
    let y = run.referrers()[j].sent()[b];
    let k = lemma_sent_data_was_delivered(f, i, a);
    let l = lemma_sent_data_was_delivered(f, j, b);
    assert(log[k] == run.ctl.emitted@[k]);
    assert(log[l] == run.ctl.emitted@[l]);
}

/// An instrument is pinned to the provider of its first pin, and to none where
/// it has no pin.
pub proof fn law_first_pin_counts(pins: Seq<(Instrument, String)>, inst: InstrumentView, k: int)
    requires
        0 <= k <= pins.len(),
        forall|i: int| 0 <= i < k ==> (#[trigger] pins[i]).0@ != inst,
    ensures
        k == pins.len() ==> pinned_to(pins, inst) is None,
        k < pins.len() && pins[k].0@ == inst ==> pinned_to(pins, inst) == Some(pins[k].1@),
    decreases pins.len(),
{
    if pins.len() > 0 && k > 0 {
        assert(pins[0].0@ != inst);
        let rest = pins.skip(1);
        assert forall|i: int| 0 <= i < k - 1 implies (#[trigger] rest[i]).0@ != inst by {
            assert(rest[i] == pins[i + 1]);
        }
        law_first_pin_counts(rest, inst, k - 1);
    }
}

/// A pair is routed to a provider that supports it; where none does, it is not
/// routed at all.
pub proof fn law_pairs_are_routed_to_supporters(
    dm: Datamancer,
    instrument: InstrumentView,
    supports: Seq<bool>,
    k: int,
)
    requires
        supports.len() == dm.providers@.len(),
    ensures
        dm.serves(instrument, supports, k) ==> 0 <= k < supports.len() && supports[k],
        dm.routable(supports) <==> supports.contains(true),
{
    if supports.contains(true) {
        let i = choose|i: int| 0 <= i < supports.len() && supports[i] == true;
        assert(supports[i]);
    }
    if dm.routable(supports) {
        let i = choose|i: int| 0 <= i < dm.providers@.len() && #[trigger] supports[i];
        assert(supports[i] == true);
    }
}

/// A new session starts at the first place with everything that it was opened
/// with.
pub proof fn law_sessions_start_as_they_were_opened(
    dm: Datamancer,
    c: Controller,
    provider: int,
    instrument: Instrument,
    kind: EventKind,
    scope: Scope,
    options: PersistenceOptions,
)
    requires
        dm.fresh_controller(c, provider, instrument, kind, scope, options),
    ensures
        c.next_seq == 0,
        c.emitted@.len() == 0,
        c.provider_id@ == dm.providers@[provider]@,
        c.instrument@ == instrument@ && c.kind == kind,
        c.scope == scope && c.persistence == options,
        c.adjustment == dm.adjustment,
        c.has_cache == dm.has_cache && c.has_tap_log == dm.has_tap_log,
        c.ring_capacity == dm.resume_buffer_events,
{
}

/// What taking a session's stream does: a live session's is the client's to
/// give, a historical one's is given once.
pub open spec fn stream_taken_from(
    pre: Session,
    post: Session,
    r: Result<StreamSource, Error>,
) -> bool {
    match pre.scope {
        Scope::Live { .. } => r == Ok::<StreamSource, Error>(StreamSource::Client) && post == pre,
        Scope::Historical { .. } => if pre.stream_taken {
            r == Err::<StreamSource, Error>(Error::EventsAlreadyTaken) && post == pre
        } else {
            r == Ok::<StreamSource, Error>(StreamSource::Own) && post == (Session {
                stream_taken: true,
                ..pre
            })
        },
    }
}

/// The stream of a historical session can be taken once and no more; that of a
/// live one as often as its client allows.
pub proof fn law_historical_streams_are_taken_once(
    pre: Session,
    mid: Session,
    post: Session,
    first: Result<StreamSource, Error>,
    second: Result<StreamSource, Error>,
)
    requires
        stream_taken_from(pre, mid, first),
        stream_taken_from(mid, post, second),
    ensures
        pre.scope is Historical ==> second is Err && second->Err_0 is EventsAlreadyTaken,
        pre.scope is Historical && !pre.stream_taken ==> first is Ok && first->Ok_0 is Own,
        pre.scope is Live ==> first is Ok && second is Ok && first->Ok_0 is Client && second->Ok_0
            is Client,
        post.pair == pre.pair && post.scope == pre.scope && post.persistence == pre.persistence,
{
}

/// A claim leads to the session that runs for the pair, where there is one, and
/// otherwise to the one that claims; other pairs are left alone.
pub proof fn law_claims_lead_to_the_running_session(
    pre: LiveRegistry,
    pair: Pair,
    candidate: LiveSessionId,
    alive: bool,
    post: LiveRegistry,
    r: Claim,
    other: (InstrumentView, EventKind),
)
    requires
        claimed(pre, pair, candidate, alive, post, r),
        other != pair@,
    ensures
        post.slots@.contains_key(pair@),
        post.slots@[pair@] == session_of(r, candidate),
        alive && pre.slots@.contains_key(pair@) ==> post.slots@[pair@] == pre.slots@[pair@] && r
            is Held,
        !alive || !pre.slots@.contains_key(pair@) ==> post.slots@[pair@] == candidate && r is Won,
        post.slots@.contains_key(other) <==> pre.slots@.contains_key(other),
        pre.slots@.contains_key(other) ==> post.slots@[other] == pre.slots@[other],
{
}

/// History is put ahead of a live tail exactly where the live scope asks for
/// it, and from where it asks.
pub proof fn law_backfills_start_where_asked(scope: Scope)
    ensures
        scope is Historical ==> backfill_of(scope) is None,
        scope is Live ==> backfill_of(scope) == scope->backfill_from,
{
}

/// The slots once a pair's session has been left.
pub open spec fn released(
    slots: Map<(InstrumentView, EventKind), LiveSessionId>,
    pair: (InstrumentView, EventKind),
    holder_alive: bool,
) -> Map<(InstrumentView, EventKind), LiveSessionId> {
    if holder_alive {
        slots
    } else {
        slots.remove(pair)
    }
}

/// A session that still runs keeps its slot; one that has ended leaves it free,
/// and no other.
pub proof fn law_only_ended_sessions_leave_their_slot(
    slots: Map<(InstrumentView, EventKind), LiveSessionId>,
    pair: (InstrumentView, EventKind),
    other: (InstrumentView, EventKind),
)
    requires
        other != pair,
    ensures
        released(slots, pair, true) == slots,
        !released(slots, pair, false).contains_key(pair),
        released(slots, pair, false).contains_key(other) <==> slots.contains_key(other),
        slots.contains_key(other) ==> released(slots, pair, false)[other] == slots[other],
{
}

} // verus!
