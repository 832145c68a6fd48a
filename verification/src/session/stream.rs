//! Serving a range segment by segment: planning what to replay and what to
//! fetch, what a finished fetch may claim, and what its failure reports.

use vstd::prelude::*;

use crate::accounting::{bump, AccountingView, ProviderAccounting};
use crate::client::stats::LiveStatsView;
use crate::error::{provider_error_message, Error, ErrorView};
use crate::event::{data_source_ts, EventView, GapSpan, MarketEvent, SeqNo, Timestamp};
use crate::request::{CacheKey, HistoryRequest, ReplayRequest};
use crate::text::join;

use super::controller::{emits, in_step, same_session, Controller};
use super::options::PersistenceOptions;
use super::ring::{EventRing, RingView};
use super::segment::{confirmed_end, confirmed_prefix_end, tile, tiles, tiles_of, tiled_to, tiling, Segment};

verus! {

/// How a provider fetch ended.
#[derive(Debug)]
pub enum FetchEnd {
    Completed,
    /// The provider returned an error; `rendered` is its full text.
    Failed { error: Error, rendered: String },
    Cancelled,
    /// The fetch panicked; the text is how the panic is reported.
    Panicked(String),
}

/// The message of a fetch that failed, if it did.
pub open spec fn failure_of(end: FetchEnd) -> Option<Seq<char>> {
    match end {
        FetchEnd::Completed => None,
        FetchEnd::Cancelled => None,
        FetchEnd::Failed { error, rendered } => Some(
            match error@ {
                ErrorView::Provider { provider, message } => message,
                _ => rendered@,
            },
        ),
        FetchEnd::Panicked(report) => Some("fetch task panicked: "@ + report@),
    }
}

/// The message to report for a fetch that failed; a cancelled fetch is none.
pub fn fetch_error(end: FetchEnd) -> (r: Option<String>)
    ensures
        r is Some <==> failure_of(end) is Some,
        r is Some ==> r->0@ == failure_of(end)->0,
{
    match end {
        FetchEnd::Completed => None,
        FetchEnd::Cancelled => None,
        FetchEnd::Failed { error, rendered } => Some(
            provider_error_message(&error, rendered.as_str()),
        ),
        FetchEnd::Panicked(report) => Some(join("fetch task panicked: ", report.as_str())),
    }
}

/// The latest source time among data events.
pub open spec fn latest_data(evs: Seq<MarketEvent>) -> Option<Timestamp>
    decreases evs.len(),
{
    if evs.len() == 0 {
        None
    } else {
        Timestamp::latest(latest_data(evs.drop_last()), evs.last()@.data_source_ts())
    }
}

/// The latest source time is that of some data event and not before any other.
pub proof fn lemma_latest_data_is_greatest(evs: Seq<MarketEvent>)
    ensures
        latest_data(evs) is None <==> forall|i: int|
            0 <= i < evs.len() ==> !(#[trigger] evs[i])@.is_data(),
        latest_data(evs) is Some ==> exists|i: int|
            0 <= i < evs.len() && (#[trigger] evs[i])@.data_source_ts() == latest_data(evs),
        forall|i: int|
            0 <= i < evs.len() && (#[trigger] evs[i])@.is_data() ==> evs[i]@.source_ts().0
                <= (latest_data(evs)->0).0,
    decreases evs.len(),
{
    if evs.len() > 0 {
        let rest = evs.drop_last();
        lemma_latest_data_is_greatest(rest);
        let last = evs[evs.len() - 1];
        assert(evs.last() == last);
        assert forall|i: int| 0 <= i < evs.len() && (#[trigger] evs[i])@.is_data() implies {
            &&& latest_data(evs) is Some
            &&& evs[i]@.source_ts().0 <= (latest_data(evs)->0).0
        } by {
            if i < rest.len() {
                assert(rest[i] == evs[i]);
            }
        }
        if latest_data(evs) is Some && latest_data(evs) == latest_data(rest) {
            let i = choose|i: int|
                0 <= i < rest.len() && (#[trigger] rest[i])@.data_source_ts() == latest_data(rest);
            assert(evs[i] == rest[i]);
        }
        if latest_data(evs) is None {
            assert forall|i: int| 0 <= i < evs.len() implies !(#[trigger] evs[i])@.is_data() by {
                if i < rest.len() {
                    assert(rest[i] == evs[i]);
                }
            }
        }
    }
}

// ---------------------------------------------------------------------------
// A plain historical fetch
// ---------------------------------------------------------------------------

/// How a historical range is served.
#[derive(Debug)]
pub enum HistoricalPlan {
    /// Through the cache.
    Cached,
    /// With a single fetch of the whole range.
    Direct(HistoryRequest),
}

/// How a historical range is served.
pub open spec fn historical_plan(ctl: Controller, from: Timestamp, to: Timestamp) -> HistoricalPlan {
    if ctl.persistence.spec_uses_cache() && ctl.has_cache {
        HistoricalPlan::Cached
    } else {
        HistoricalPlan::Direct(ctl.fetch_of(from, to))
    }
}

/// Serve a historical range through the cache where the options use it and
/// there is one, and with a single fetch otherwise.
pub fn plan_historical(ctl: &Controller, from: Timestamp, to: Timestamp) -> (r: HistoricalPlan)
    ensures
        r == historical_plan(*ctl, from, to),
{
    if ctl.persistence.uses_cache() && ctl.has_cache {
        HistoricalPlan::Cached
    } else {
        HistoricalPlan::Direct(ctl.history_request(from, to))
    }
}

/// Progress of a single fetch of a whole range.
pub struct HistoricalRun {
    pub from: Timestamp,
    pub max_data_ts: Option<Timestamp>,
    /// Everything fetched so far.
    pub seen: Ghost<Seq<MarketEvent>>,
}

impl HistoricalRun {
    pub open spec fn wf(self) -> bool {
        self.max_data_ts == latest_data(self.seen@)
    }

    pub fn new(from: Timestamp) -> (r: HistoricalRun)
        ensures
            r.wf(),
            r.from == from,
            r.seen@ == Seq::<MarketEvent>::empty(),
    {
        HistoricalRun { from, max_data_ts: None, seen: Ghost(Seq::empty()) }
    }

    /// Note one fetched event; it is then forwarded.
    pub fn on_event(&mut self, ev: &MarketEvent)
        requires
            old(self).wf(),
        ensures
            final(self).wf(),
            final(self).from == old(self).from,
            final(self).seen@ == old(self).seen@.push(*ev),
    {
        self.max_data_ts = Timestamp::max_opt(self.max_data_ts, data_source_ts(ev));
        proof {
            self.seen@ = self.seen@.push(*ev);
            assert(self.seen@.drop_last() =~= old(self).seen@);
        }
    }

    /// The report of a failed fetch, placed behind the data that arrived so
    /// that source time does not run backwards.
    pub fn on_end(&self, ctl: &Controller, end: FetchEnd) -> (r: Option<MarketEvent>)
        requires
            self.wf(),
        ensures
            r is Some <==> failure_of(end) is Some,
            r is Some ==> r->0@ == ctl.error_report(
                match latest_data(self.seen@) {
                    Some(t) => t,
                    None => self.from,
                },
                failure_of(end)->0,
            ),
    {
        match fetch_error(end) {
            Some(message) => {
                let at = match self.max_data_ts {
                    Some(t) => t,
                    None => self.from,
                };
                Some(ctl.provider_error_event(at, message))
            },
            None => None,
        }
    }
}

impl Controller {
    /// After the announcement: whether somebody still holds the stream, whose
    /// draining is then waited for before the session shuts down.
    pub fn awaits_drain(&self, consumer_open: bool) -> (r: bool)
        ensures
            r == (self.sink is Attached && consumer_open),
    {
        match &self.sink {
            super::controller::Sink::Attached => consumer_open,
            super::controller::Sink::Detached(_) => false,
        }
    }
}

// ---------------------------------------------------------------------------
// Planning segments against a cache
// ---------------------------------------------------------------------------

pub open spec fn whole(from: Timestamp, to: Timestamp) -> Seq<GapSpan> {
    seq![GapSpan { from_source_ts: from, to_source_ts: to }]
}

/// What counts as missing: what the cache reports, or the whole range where
/// it could not say.
pub open spec fn missing(
    reported: Option<Vec<GapSpan>>,
    from: Timestamp,
    to: Timestamp,
) -> Seq<GapSpan> {
    match reported {
        Some(gaps) => gaps@,
        None => whole(from, to),
    }
}

pub fn reported_or_whole(
    reported: Option<Vec<GapSpan>>,
    from: Timestamp,
    to: Timestamp,
) -> (r: Vec<GapSpan>)
    ensures
        r@ == missing(reported, from, to),
{
    match reported {
        Some(gaps) => gaps,
        None => {
            let mut gaps: Vec<GapSpan> = Vec::new();
            gaps.push(GapSpan { from_source_ts: from, to_source_ts: to });
            proof {
                assert(gaps@ =~= whole(from, to));
            }
            gaps
        },
    }
}

/// Next step of planning a range.
#[derive(Debug)]
pub enum PlanStep {
    /// Ask the cache what is missing of the range.
    QueryCache(CacheKey),
    /// Acquire the fetch slot of the range, then ask the cache again.
    AcquireSlot(CacheKey),
    /// Serve these segments.
    Ready(Vec<Segment>),
}

/// The plan made while holding the fetch slot.
#[derive(Debug)]
pub struct LockedPlan {
    pub segments: Vec<Segment>,
    /// Whether to keep the slot until the segments have been served.
    pub hold_slot: bool,
}

/// Planning of a cached historical range. A range that is fully covered is
/// replayed without touching its fetch slot; otherwise the slot is acquired
/// and the coverage is read afresh, since whoever held the slot before may
/// have filled the range.
#[derive(Clone, Copy, Debug)]
pub struct CachedPlan {
    pub from: Timestamp,
    pub to: Timestamp,
    pub read_cache: bool,
}

impl CachedPlan {
    pub fn begin(&self, ctl: &Controller) -> (r: PlanStep)
        ensures
            plan_begun(*self, *ctl, r),
    {
        if self.read_cache {
            PlanStep::QueryCache(ctl.cache_key(self.from, self.to))
        } else {
            let gaps = reported_or_whole(None, self.from, self.to);
            PlanStep::Ready(tile(self.from, self.to, gaps.as_slice()))
        }
    }

    /// With the cache's first report, or `None` where it failed.
    pub fn on_first_report(&self, ctl: &Controller, reported: Option<Vec<GapSpan>>) -> (r: PlanStep)
        ensures
            first_reported(*self, *ctl, reported, r),
    {
        let gaps = reported_or_whole(reported, self.from, self.to);
        if gaps.len() == 0 {
            proof {
                assert(gaps@ =~= seq![]);
            }
            PlanStep::Ready(tile(self.from, self.to, gaps.as_slice()))
        } else {
            PlanStep::AcquireSlot(ctl.cache_key(self.from, self.to))
        }
    }

    /// With the cache's report under the fetch slot. Where nothing is missing
    /// any more the fetch was coalesced with another one, and the slot is not
    /// held on to.
    pub fn on_locked_report(
        &self,
        accounting: &mut ProviderAccounting,
        reported: Option<Vec<GapSpan>>,
    ) -> (r: LockedPlan)
        ensures
            locked_reported(*self, reported, r, old(accounting)@, final(accounting)@),
    {
        let gaps = reported_or_whole(reported, self.from, self.to);
        let hold_slot = gaps.len() > 0;
        if !hold_slot {
            accounting.record_history_fetch_coalesced();
        }
        LockedPlan { segments: tile(self.from, self.to, gaps.as_slice()), hold_slot }
    }
}

/// A range of which nothing is missing is served without any fetch.
pub proof fn law_covered_range_needs_no_fetch(from: Timestamp, to: Timestamp)
    ensures
        forall|i: int|
            0 <= i < tiling(from, to, seq![]).len() ==> (#[trigger] tiling(
                from,
                to,
                seq![],
            )[i]) is Covered,
        from.0 < to.0 ==> tiling(from, to, seq![]) == seq![Segment::Covered { from, to }],
{
    let t = tiling(from, to, seq![]);
    assert(tiles(from, Seq::<GapSpan>::empty()) =~= seq![]);
    if from.0 < to.0 {
        assert(t =~= seq![Segment::Covered { from, to }]);
    } else {
        assert(t =~= seq![]);
    }
}

/// A range of which everything is missing is one fetch.
pub proof fn law_whole_range_is_one_fetch(from: Timestamp, to: Timestamp)
    requires
        from.0 < to.0,
    ensures
        tiling(from, to, whole(from, to)) == seq![Segment::Gap { from, to }],
{
    let g = whole(from, to);
    assert(g.drop_last() =~= seq![]);
    assert(tiles(from, g.drop_last()) =~= seq![]);
    assert(tiled_to(from, g.drop_last()) == from);
    assert(tiling(from, to, g) =~= seq![Segment::Gap { from, to }]);
}

/// How the backfill of a live session starts.
#[derive(Debug)]
pub enum BackfillPlan {
    /// There is nothing before the live edge.
    Skip,
    /// Ask the cache what is missing of the range.
    QueryCache(CacheKey),
    /// Fetch the whole range.
    FetchAll(Vec<Segment>),
}

/// Plan the history from `from` up to the live edge: against the cache where
/// there is one and the options read it, and as one fetch otherwise. A
/// backfill that has something to do is marked in the session's statistics.
pub fn plan_backfill(ctl: &mut Controller, from: Timestamp, edge: Timestamp) -> (r: BackfillPlan)
    requires
        old(ctl).wf(),
    ensures
        final(ctl).wf(),
        same_session(*old(ctl), *final(ctl)),
        final(ctl).emitted == old(ctl).emitted,
        final(ctl).next_seq == old(ctl).next_seq,
        final(ctl).fanout == old(ctl).fanout,
        final(ctl).sink == old(ctl).sink,
        backfill_planned(*old(ctl), from, edge, *final(ctl), r),
{
    if from.0 >= edge.0 {
        return BackfillPlan::Skip;
    }
    ctl.stats.set_backfilling(true);
    if ctl.has_cache && ctl.persistence.read_cache {
        BackfillPlan::QueryCache(ctl.cache_key(from, edge))
    } else {
        let gaps = reported_or_whole(None, from, edge);
        BackfillPlan::FetchAll(tile(from, edge, gaps.as_slice()))
    }
}

/// The segments of a backfill, with the cache's report or `None` where it
/// failed.
pub fn backfill_segments(
    from: Timestamp,
    edge: Timestamp,
    reported: Option<Vec<GapSpan>>,
) -> (r: Vec<Segment>)
    ensures
        r@ == tiling(from, edge, missing(reported, from, edge)),
{
    let gaps = reported_or_whole(reported, from, edge);
    tile(from, edge, gaps.as_slice())
}

// ---------------------------------------------------------------------------
// Serving segments
// ---------------------------------------------------------------------------

/// A fetch of one missing segment.
pub struct GapFetch {
    pub from: Timestamp,
    pub to: Timestamp,
    /// Whether what arrives is kept for the cache.
    pub store: bool,
    pub batch: Vec<MarketEvent>,
    pub max_data_ts: Option<Timestamp>,
    /// Everything fetched so far.
    pub seen: Ghost<Seq<MarketEvent>>,
}

impl GapFetch {
    pub open spec fn wf(self) -> bool {
        &&& self.from.0 < self.to.0
        &&& self.max_data_ts == latest_data(self.seen@)
        &&& self.batch@ == if self.store {
            self.seen@
        } else {
            seq![]
        }
    }

    /// End of the part of the segment that is confirmed by what arrived.
    pub open spec fn confirmed(self) -> int {
        confirmed_end(latest_data(self.seen@), self.from, self.to)
    }
}

/// What a stream of segments is doing.
pub enum Work {
    Idle,
    Replay { from: Timestamp, to: Timestamp },
    Fetch(GapFetch),
}

/// Next thing to do for a stream of segments.
#[derive(Debug)]
pub enum SegmentStep {
    /// Every segment has been served, or the rest was abandoned.
    Done,
    /// Replay a covered segment from the cache.
    OpenReplay { key: CacheKey, request: ReplayRequest },
    /// Fetch a missing segment from the provider.
    StartFetch(HistoryRequest),
    /// Forward this report that a covered segment cannot be served.
    ReportGap(MarketEvent),
}

/// What the end of a fetch entails: what to store, and what to forward.
#[derive(Debug)]
pub struct Settlement {
    pub store: Option<(CacheKey, Vec<MarketEvent>)>,
    pub gap: Option<MarketEvent>,
    pub error: Option<MarketEvent>,
}

/// Serving of a planned sequence of segments, in order. On the way into a live
/// session, live arrivals are buffered meanwhile and spliced in behind.
pub struct SegmentStream {
    pub segments: Vec<Segment>,
    pub next: usize,
    pub write_cache: bool,
    /// The live edge that the segments lead up to, if any.
    pub edge: Option<Timestamp>,
    pub work: Work,
    /// Live arrivals during a backfill.
    pub pending: Option<EventRing>,
    /// Whether more live arrivals can come.
    pub live_open: bool,
}

/// No segment is empty.
pub open spec fn nonempty(segs: Seq<Segment>) -> bool {
    forall|i: int| 0 <= i < segs.len() ==> (#[trigger] segs[i]).start() < segs[i].end()
}

/// Whatever the cache reports, a tiling has no empty segment.
pub proof fn law_tiling_has_no_empty_segment(from: Timestamp, to: Timestamp, gaps: Seq<GapSpan>)
    ensures
        nonempty(tiling(from, to, gaps)),
{
    lemma_tiles_nonempty(from, gaps);
}

proof fn lemma_tiles_nonempty(from: Timestamp, gaps: Seq<GapSpan>)
    ensures
        nonempty(tiles(from, gaps)),
    decreases gaps.len(),
{
    if gaps.len() > 0 {
        lemma_tiles_nonempty(from, gaps.drop_last());
        let head = tiles(from, gaps.drop_last());
        let tail = tiles_of(tiled_to(from, gaps.drop_last()), gaps.last());
        assert forall|i: int| 0 <= i < (head + tail).len() implies (#[trigger] (head
            + tail)[i]).start() < (head + tail)[i].end() by {
            if i < head.len() {
                assert((head + tail)[i] == head[i]);
            } else {
                assert((head + tail)[i] == tail[i - head.len()]);
            }
        }
    }
}

impl SegmentStream {
    pub open spec fn wf(self) -> bool {
        &&& nonempty(self.segments@)
        &&& self.next <= self.segments@.len()
        &&& self.work matches Work::Fetch(f) ==> f.wf()
        &&& self.pending matches Some(ring) ==> ring.wf()
        &&& self.edge is Some <==> self.pending is Some
    }

    /// What serving segments leaves alone.
    pub open spec fn same_stream(self, other: SegmentStream) -> bool {
        &&& self.segments == other.segments
        &&& self.write_cache == other.write_cache
        &&& self.edge == other.edge
    }

    /// A stream over planned segments. With a live edge it buffers live
    /// arrivals, up to `capacity` of them.
    pub fn new(
        segments: Vec<Segment>,
        options: PersistenceOptions,
        edge: Option<Timestamp>,
        capacity: usize,
    ) -> (r: SegmentStream)
        requires
            nonempty(segments@),
        ensures
            r.wf(),
            starts_serving(r, segments, options, edge, capacity),
    {
        let pending = match edge {
            Some(_) => Some(EventRing::new(capacity)),
            None => None,
        };
        SegmentStream {
            segments,
            next: 0,
            write_cache: options.write_cache,
            edge,
            work: Work::Idle,
            pending,
            live_open: edge.is_some(),
        }
    }

    /// Turn to the next segment.
    pub fn advance(&mut self, ctl: &Controller, accounting: &mut ProviderAccounting) -> (r:
        SegmentStep)
        requires
            old(self).wf(),
            old(self).work is Idle,
        ensures
            final(self).wf(),
            final(self).same_stream(*old(self)),
            final(self).pending == old(self).pending,
            final(self).live_open == old(self).live_open,
            final(accounting)@ == if r is StartFetch {
                AccountingView {
                    history_fetches: bump(old(accounting)@.history_fetches),
                    ..old(accounting)@
                }
            } else {
                old(accounting)@
            },
            old(self).next == old(self).segments@.len() ==> r is Done && *final(self) == *old(self),
            old(self).next < old(self).segments@.len() ==> {
                &&& final(self).next == old(self).next + 1
                &&& match old(self).segments@[old(self).next as int] {
                    Segment::Covered { from, to } => if ctl.has_cache {
                        &&& r matches SegmentStep::OpenReplay { key, request } && key == ctl.key_of(
                            from,
                            to,
                        ) && request.instruments@ == seq![ctl.instrument] && request.kinds@
                            == seq![ctl.kind] && request.from == from && request.to == to
                        &&& final(self).work == (Work::Replay { from, to })
                    } else {
                        &&& r matches SegmentStep::ReportGap(ev) && ev@ == ctl.gap_report(
                            from,
                            from,
                            to,
                        )
                        &&& final(self).work is Idle
                    },
                    Segment::Gap { from, to } => {
                        &&& r == SegmentStep::StartFetch(ctl.fetch_of(from, to))
                        &&& final(self).work matches Work::Fetch(f) && f.from == from && f.to == to
                            && f.seen@.len() == 0 && f.store == (old(self).write_cache
                            && ctl.has_cache)
                    },
                }
            },
    {
        if self.next == self.segments.len() {
            return SegmentStep::Done;
        }
        let seg = self.segments[self.next];
        assert(seg.start() < seg.end());
        self.next += 1;
        match seg {
            Segment::Covered { from, to } => {
                if ctl.has_cache {
                    self.work = Work::Replay { from, to };
                    SegmentStep::OpenReplay {
                        key: ctl.cache_key(from, to),
                        request: ctl.replay_request(from, to),
                    }
                } else {
                    SegmentStep::ReportGap(ctl.gap_event(from, from, to))
                }
            },
            Segment::Gap { from, to } => {
                accounting.record_history_fetch();
                self.work =
                Work::Fetch(
                    GapFetch {
                        from,
                        to,
                        store: self.write_cache && ctl.has_cache,
                        batch: Vec::new(),
                        max_data_ts: None,
                        seen: Ghost(Seq::empty()),
                    },
                );
                SegmentStep::StartFetch(ctl.history_request(from, to))
            },
        }
    }

    /// The replay of the current segment could not be opened: the report that
    /// the segment is missing, placed at its start so that it stays ahead of
    /// later segments.
    pub fn replay_failed(&mut self, ctl: &Controller) -> (r: Option<MarketEvent>)
        requires
            old(self).wf(),
        ensures
            final(self).wf(),
            final(self).same_stream(*old(self)),
            final(self).next == old(self).next,
            final(self).pending == old(self).pending,
            final(self).live_open == old(self).live_open,
            match old(self).work {
                Work::Replay { from, to } => {
                    &&& final(self).work is Idle
                    &&& r is Some
                    &&& r->0@ == ctl.gap_report(from, from, to)
                },
                _ => r is None && *final(self) == *old(self),
            },
    {
        match &self.work {
            Work::Replay { from, to } => {
                let ev = ctl.gap_event(*from, *from, *to);
                self.work = Work::Idle;
                Some(ev)
            },
            _ => None,
        }
    }

    /// The replay of the current segment has given its last event.
    pub fn replay_finished(&mut self)
        requires
            old(self).wf(),
        ensures
            final(self).wf(),
            final(self).same_stream(*old(self)),
            final(self).next == old(self).next,
            final(self).pending == old(self).pending,
            final(self).live_open == old(self).live_open,
            old(self).work is Replay ==> final(self).work is Idle,
            !(old(self).work is Replay) ==> *final(self) == *old(self),
    {
        if let Work::Replay { .. } = &self.work {
            self.work = Work::Idle;
        }
    }

    /// Note one event that the current fetch delivered; it is then emitted.
    pub fn fetched(&mut self, ev: &MarketEvent)
        requires
            old(self).wf(),
        ensures
            final(self).wf(),
            final(self).same_stream(*old(self)),
            final(self).next == old(self).next,
            final(self).pending == old(self).pending,
            final(self).live_open == old(self).live_open,
            match old(self).work {
                Work::Fetch(f) => final(self).work matches Work::Fetch(g) && g.seen@
                    == f.seen@.push(*ev) && g.from == f.from && g.to == f.to && g.store == f.store,
                _ => *final(self) == *old(self),
            },
    {
        if let Work::Fetch(f) = &mut self.work {
            let ghost pre = *f;
            f.max_data_ts = Timestamp::max_opt(f.max_data_ts, data_source_ts(ev));
            if f.store {
                f.batch.push(ev.clone());
            }
            proof {
                f.seen@ = f.seen@.push(*ev);
                assert(f.seen@.drop_last() =~= pre.seen@);
            }
        }
    }

    /// The current fetch has ended.
    ///
    /// A fetch that succeeded claims its segment, except at the live edge,
    /// where history lags the live feed and only the confirmed prefix is
    /// claimed. A fetch that failed claims the confirmed prefix; the rest, up
    /// to the live edge where there is one, is reported missing, the cause is
    /// reported behind it, and the remaining segments are abandoned.
    pub fn fetch_finished(&mut self, ctl: &Controller, end: FetchEnd) -> (r: Settlement)
        requires
            old(self).wf(),
            old(self).work is Fetch,
        ensures
            final(self).wf(),
            final(self).same_stream(*old(self)),
            final(self).pending == old(self).pending,
            final(self).live_open == old(self).live_open,
            final(self).work is Idle,
            ({
                let f = old(self).work->Fetch_0;
                let stores = old(self).write_cache && ctl.has_cache;
                let failed = failure_of(end) is Some;
                &&& r.store is Some <==> stores
                &&& r.store is Some ==> (r.store->0).0 == ctl.key_of(
                    f.from,
                    Timestamp(claimed_end(f, old(self).edge, failed) as i64),
                ) && (r.store->0).1@ == f.batch@
                &&& final(self).next == if failed {
                    old(self).segments@.len()
                } else {
                    old(self).next as nat
                }
                &&& r.gap is Some <==> failed && f.confirmed() < gapped_end(f, old(self).edge)
                &&& r.gap is Some ==> r.gap->0@ == ctl.gap_report(
                    Timestamp(f.confirmed() as i64),
                    Timestamp(f.confirmed() as i64),
                    Timestamp(gapped_end(f, old(self).edge) as i64),
                )
                &&& r.error is Some <==> failed
                &&& r.error is Some ==> r.error->0@ == ctl.error_report(
                    Timestamp(f.confirmed() as i64),
                    failure_of(end)->0,
                )
            }),
    {
        let mut work = Work::Idle;
        std::mem::swap(&mut work, &mut self.work);
        let f = match work {
            Work::Fetch(f) => f,
            _ => {
                proof {
                    assert(false);
                }
                return Settlement { store: None, gap: None, error: None };
            },
        };
        let stores = self.write_cache && ctl.has_cache;
        let confirmed = confirmed_prefix_end(f.max_data_ts, f.from, f.to);
        match fetch_error(end) {
            None => {
                let at_edge = match self.edge {
                    Some(e) => e.0 == f.to.0,
                    None => false,
                };
                let claim = if at_edge {
                    confirmed
                } else {
                    f.to
                };
                let store = if stores {
                    Some((ctl.cache_key(f.from, claim), f.batch))
                } else {
                    None
                };
                Settlement { store, gap: None, error: None }
            },
            Some(message) => {
                let store = if stores {
                    Some((ctl.cache_key(f.from, confirmed), f.batch))
                } else {
                    None
                };
                let gap_to = match self.edge {
                    Some(e) => e,
                    None => f.to,
                };
                let gap = if confirmed.0 < gap_to.0 {
                    Some(ctl.gap_event(confirmed, confirmed, gap_to))
                } else {
                    None
                };
                let error = Some(ctl.provider_error_event(confirmed, message));
                self.next = self.segments.len();
                Settlement { store, gap, error }
            },
        }
    }

    /// A live event arrived during the backfill, or none will come any more.
    /// The caller has recorded it already; here it waits behind the backfill.
    pub fn live_arrival(&mut self, ev: Option<MarketEvent>)
        requires
            old(self).wf(),
        ensures
            final(self).wf(),
            final(self).same_stream(*old(self)),
            final(self).next == old(self).next,
            final(self).work == old(self).work,
            ev matches Some(e) ==> {
                &&& final(self).live_open == old(self).live_open
                &&& old(self).pending matches Some(ring) ==> final(self).pending matches Some(after)
                    && after@ == ring@.pushed(e)
                &&& old(self).pending is None ==> final(self).pending is None
            },
            ev is None ==> !final(self).live_open && final(self).pending == old(self).pending,
    {
        match ev {
            Some(ev) => {
                if let Some(ring) = &mut self.pending {
                    ring.push(ev);
                }
            },
            None => {
                self.live_open = false;
            },
        }
    }

    /// Whether a fetch is under way, which has to be aborted when the session
    /// closes.
    pub fn fetching(&self) -> (r: bool)
        ensures
            r == self.work is Fetch,
    {
        match &self.work {
            Work::Fetch(_) => true,
            _ => false,
        }
    }
}

/// How far a finished fetch claims its segment for the cache.
pub open spec fn claimed_end(f: GapFetch, edge: Option<Timestamp>, failed: bool) -> int {
    if failed || edge == Some(f.to) {
        f.confirmed()
    } else {
        f.to.0 as int
    }
}

/// How far a failed fetch reports data missing.
pub open spec fn gapped_end(f: GapFetch, edge: Option<Timestamp>) -> int {
    match edge {
        Some(e) => e.0 as int,
        None => f.to.0 as int,
    }
}

/// Honest coverage: after a failed fetch every instant of its segment is
/// either claimed or reported missing, never both; and nothing beyond the
/// latest event that arrived is claimed.
pub proof fn law_failed_fetch_is_accounted_for(f: GapFetch, edge: Option<Timestamp>)
    requires
        f.wf(),
        edge matches Some(e) ==> f.to.0 <= e.0,
    ensures
        f.from.0 <= claimed_end(f, edge, true) <= f.to.0,
        f.to.0 <= gapped_end(f, edge),
        forall|t: int|
            f.from.0 <= t < f.to.0 ==> (#[trigger] within_claim(f, edge, true, t) <==> !(
            claimed_end(f, edge, true) <= t < gapped_end(f, edge))),
        latest_data(f.seen@) is None ==> claimed_end(f, edge, true) == f.from.0,
        latest_data(f.seen@) matches Some(m) ==> (f.from.0 <= m.0 ==> claimed_end(f, edge, true)
            <= m.0 + 1),
{
}

pub open spec fn within_claim(
    f: GapFetch,
    edge: Option<Timestamp>,
    failed: bool,
    t: int,
) -> bool {
    f.from.0 <= t < claimed_end(f, edge, failed)
}

/// Receipt times and places are never looked at: what a fetch confirms depends
/// on the source times of its data alone.
pub proof fn law_claims_look_at_source_times_only(a: Seq<MarketEvent>, b: Seq<MarketEvent>)
    requires
        a.len() == b.len(),
        forall|i: int|
            0 <= i < a.len() ==> (#[trigger] a[i])@.data_source_ts() == b[i]@.data_source_ts(),
    ensures
        latest_data(a) == latest_data(b),
    decreases a.len(),
{
    if a.len() > 0 {
        let (c, d) = (a.drop_last(), b.drop_last());
        assert forall|i: int| 0 <= i < c.len() implies (#[trigger] c[i])@.data_source_ts()
            == d[i]@.data_source_ts() by {
            assert(c[i] == a[i] && d[i] == b[i]);
        }
        law_claims_look_at_source_times_only(c, d);
        assert(a[a.len() - 1]@.data_source_ts() == b[a.len() - 1]@.data_source_ts());
    }
}

/// A fetch up to the live edge claims no more than what arrived, even where
/// it succeeded; away from the edge a successful fetch claims its segment.
pub proof fn law_claim_at_the_live_edge(f: GapFetch, edge: Option<Timestamp>)
    requires
        f.wf(),
    ensures
        edge == Some(f.to) ==> claimed_end(f, edge, false) == f.confirmed(),
        edge != Some(f.to) ==> claimed_end(f, edge, false) == f.to.0,
{
}

// ---------------------------------------------------------------------------
// The seam between backfill and live tail
// ---------------------------------------------------------------------------

/// What is emitted at the seam: a report of what the buffer evicted, if
/// anything, then the survivors in arrival order.
pub open spec fn seam_events(ctl: Controller, ring: RingView) -> Seq<EventView> {
    (match ring.dropped {
        Some(span) => seq![
            ctl.gap_report(span.from_source_ts, span.from_source_ts, span.to_source_ts),
        ],
        None => seq![],
    }) + crate::event::event_views(ring.buf)
}

/// The events with consecutive places from `first` on.
pub open spec fn stamped_from(evs: Seq<EventView>, first: int) -> Seq<EventView> {
    Seq::new(evs.len(), |i: int| evs[i].with_seq(SeqNo((first + i) as u64)))
}

/// The states that a controller with referrers goes through when it emits the
/// events one behind the other: each gets the next place and is fanned out.
pub open spec fn emits_all(
    pre: Controller,
    evs: Seq<EventView>,
    states: Seq<Controller>,
) -> bool {
    &&& states.len() == evs.len() + 1
    &&& states[0] == pre
    &&& forall|i: int|
        0 <= i < evs.len() ==> emits(#[trigger] states[i], evs[i], false, states[i + 1], None)
}

/// The end of a backfill: it is marked as over, and nothing else changes.
pub open spec fn settled(pre: Controller, post: Controller) -> bool {
    &&& post.stats@ == (LiveStatsView { backfilling: false, ..pre.stats@ })
    &&& post == (Controller { stats: post.stats, ..pre })
}

impl Controller {
    /// Emit the live arrivals that were buffered during the backfill. They
    /// get their places here, behind everything that the backfill emitted.
    pub fn flush_backfill_pending(&mut self, accounting: &mut ProviderAccounting, ring: EventRing)
        requires
            old(self).wf(),
            old(self).fanout is Some,
            ring.wf(),
            old(self).next_seq + ring.buf@.len() + 1 <= u64::MAX,
        ensures
            final(self).wf(),
            same_session(*old(self), *final(self)),
            in_step(*old(self)) ==> in_step(*final(self)),
            final(self).sink == old(self).sink,
            exists|states: Seq<Controller>| #[trigger]
                emits_all(*old(self), seam_events(*old(self), ring@), states) && settled(
                    states.last(),
                    *final(self),
                ),
            final(self).emitted@.take(old(self).emitted@.len() as int) == old(self).emitted@,
            crate::event::event_views(final(self).emitted@.skip(old(self).emitted@.len() as int))
                == stamped_from(seam_events(*old(self), ring@), old(self).next_seq as int),
            final(self).fanout->0.delivered@ == old(self).fanout->0.delivered@
                + final(self).emitted@.skip(old(self).emitted@.len() as int),
            final(accounting)@ == match ring@.dropped {
                Some(span) => old(accounting)@.forwarded(
                    old(self).gap_report(
                        span.from_source_ts,
                        span.from_source_ts,
                        span.to_source_ts,
                    ).with_seq(SeqNo(old(self).next_seq)),
                    true,
                ),
                None => old(accounting)@,
            },
    {
        let ghost base = self.emitted@;
        let ghost sent = self.fanout->0.delivered@;
        let ghost want = seam_events(*self, ring@);
        let ghost mut states = seq![*self];
        let (dropped, _first, events) = ring.into_parts();
        let mut events = events;
        if let Some(span) = dropped {
            let gap = self.gap_event(span.from_source_ts, span.from_source_ts, span.to_source_ts);
            let stamped = self.prepare_forward(accounting, gap);
            let ghost g = stamped.event;
            let _ = self.deliver(stamped.event, false);
            proof {
                assert(self.emitted@ =~= base.push(g));
                assert(self.emitted@.drop_last() =~= base);
                assert(emits(states[0], want[0], false, *self, None));
                states = states.push(*self);
            }
        }
        let ghost lead: int = self.emitted@.len() - base.len();
        let ghost all = events@;
        let ghost mut k: int = 0;
        proof {
            assert(self.emitted@.take(base.len() as int) =~= base);
            assert(self.fanout->0.delivered@ =~= sent + self.emitted@.skip(base.len() as int));
        }
        while events.len() > 0
            invariant
                self.wf(),
                self.fanout is Some,
                same_session(*old(self), *self),
                self.sink == old(self).sink,
                base == old(self).emitted@,
                0 <= k <= all.len(),
                0 <= lead <= 1,
                events@ == all.skip(k),
                self.emitted@.len() == base.len() + lead + k,
                old(self).next_seq + all.len() + 1 <= u64::MAX,
                base.len() == old(self).next_seq,
                self.emitted@.take(base.len() as int) == base,
                want.len() == lead + all.len(),
                forall|i: int| 0 <= i < all.len() ==> want[lead + i] == (#[trigger] all[i])@,
                forall|i: int|
                    base.len() <= i < self.emitted@.len() ==> (#[trigger] self.emitted@[i])@
                        == want[i - base.len()].with_seq(SeqNo(i as u64)),
                self.fanout->0.delivered@ == sent + self.emitted@.skip(base.len() as int),
                states.len() == lead + k + 1,
                states[0] == *old(self),
                states.last() == *self,
                forall|i: int|
                    0 <= i < lead + k ==> emits(
                        #[trigger] states[i],
                        want[i],
                        false,
                        states[i + 1],
                        None,
                    ),
            decreases events@.len(),
        {
            if let Some(ev) = events.pop_front() {
                let ghost last = *self;
                let ghost passed = states;
                let ghost before = self.emitted@;
                let ghost sent_before = self.fanout->0.delivered@;
                proof {
                    assert(ev == all[k]);
                }
                let _ = self.emit(ev, false);
                proof {
                    assert(emits(last, want[lead + k], false, *self, None));
                    states = states.push(*self);
                    assert forall|i: int| 0 <= i < lead + k + 1 implies emits(
                        #[trigger] states[i],
                        want[i],
                        false,
                        states[i + 1],
                        None,
                    ) by {
                        if i < lead + k {
                            assert(states[i] == passed[i] && states[i + 1] == passed[i + 1]);
                        }
                    }
                    let e = self.emitted@.last();
                    assert(self.emitted@ =~= before.push(e));
                    assert(self.emitted@.take(base.len() as int) =~= before.take(
                        base.len() as int,
                    ));
                    assert(self.emitted@.skip(base.len() as int) =~= before.skip(
                        base.len() as int,
                    ).push(e));
                    assert(self.fanout->0.delivered@ =~= sent + self.emitted@.skip(
                        base.len() as int,
                    ));
                    assert(events@ =~= all.skip(k + 1));
                    k = k + 1;
                }
            }
        }
        proof {
            assert(events@.len() == 0 && k == all.len());
            assert(emits_all(*old(self), want, states));
        }
        self.stats.set_backfilling(false);
        proof {
            assert(settled(states.last(), *self));
            assert(self.emitted@ =~= base + self.emitted@.skip(base.len() as int));
            assert(crate::event::event_views(self.emitted@.skip(base.len() as int))
                =~= stamped_from(want, old(self).next_seq as int));
        }
    }

    /// Mark a backfill as over on a path that does not reach the seam.
    pub fn abandon_backfill(&mut self)
        requires
            old(self).wf(),
        ensures
            final(self).wf(),
            final(self).stats@ == (LiveStatsView { backfilling: false, ..old(self).stats@ }),
            *final(self) == (Controller { stats: final(self).stats, ..*old(self) }),
    {
        self.stats.set_backfilling(false);
    }
}

/// Only failures are reported: a fetch that completed or was cancelled has no
/// message, one that the provider refused has the provider's own message.
pub proof fn law_only_failures_are_reported(
    end: FetchEnd,
    provider: Seq<char>,
    message: Seq<char>,
)
    ensures
        end is Completed || end is Cancelled ==> failure_of(end) is None,
        end is Failed || end is Panicked ==> failure_of(end) is Some,
        end is Failed && end->error@ == (ErrorView::Provider { provider, message })
            ==> failure_of(end) == Some(message),
{
}

/// Where the cache cannot tell what it lacks, it lacks the whole range.
pub proof fn law_unknown_coverage_is_all_missing(from: Timestamp, to: Timestamp, t: int)
    ensures
        super::segment::in_some_gap(missing(None, from, to), t) <==> from.0 <= t < to.0,
{
    let m = missing(None, from, to);
    assert(m.len() == 1);
    if from.0 <= t < to.0 {
        assert(m[0].contains(t));
    }
}

/// A fetch that ended well claims its whole segment, unless live data may still
/// come in behind its last event; one that failed claims no more than it saw.
pub proof fn law_claims_hold_what_was_seen(f: GapFetch, edge: Option<Timestamp>, i: int)
    requires
        f.wf(),
        0 <= i < f.seen@.len(),
        f.seen@[i]@.is_data(),
        f.from.0 <= f.seen@[i]@.source_ts().0 < f.to.0,
    ensures
        within_claim(f, edge, true, f.seen@[i]@.source_ts().0 as int),
        within_claim(f, edge, false, f.seen@[i]@.source_ts().0 as int),
        edge != Some(f.to) ==> within_claim(f, edge, false, f.to.0 - 1),
        forall|x: int|
            (forall|j: int|
                0 <= j < f.seen@.len() && (#[trigger] f.seen@[j])@.is_data()
                    ==> f.seen@[j]@.source_ts().0 < x) ==> !#[trigger] within_claim(
                f,
                edge,
                true,
                x,
            ),
{
    lemma_latest_data_is_greatest(f.seen@);
    assert(f.seen@[i]@.source_ts().0 <= (latest_data(f.seen@)->0).0);
    let k = choose|k: int|
        0 <= k < f.seen@.len() && (#[trigger] f.seen@[k])@.data_source_ts() == latest_data(f.seen@);
    assert(f.seen@[k]@.is_data());
}

/// At the seam between history and the live tail the loss of the buffer, where
/// there is one, is reported over its whole span and ahead of everything that
/// is still there; what is there follows as it came.
pub proof fn law_seam_reports_the_loss_first(ctl: Controller, ring: RingView, i: int)
    requires
        0 <= i < ring.buf.len(),
    ensures
        ring.dropped is None ==> seam_events(ctl, ring).len() == ring.buf.len() && seam_events(
            ctl,
            ring,
        )[i] == ring.buf[i]@,
        ring.dropped matches Some(span) ==> {
            let s = seam_events(ctl, ring);
            &&& s.len() == ring.buf.len() + 1
            &&& s[0] is Control && s[0]->Control_0.kind is Gap
            &&& s[0]->Control_0.kind->Gap_span == span
            &&& s[0]->Control_0.kind->Gap_instrument == ctl.instrument@
            &&& s[i + 1] == ring.buf[i]@
        },
{
}

/// How planning a range through the cache begins.
pub open spec fn plan_begun(plan: CachedPlan, ctl: Controller, r: PlanStep) -> bool {
    if plan.read_cache {
        r == PlanStep::QueryCache(ctl.key_of(plan.from, plan.to))
    } else {
        r is Ready && r->Ready_0@ == tiling(plan.from, plan.to, whole(plan.from, plan.to))
    }
}

/// What follows the cache's first report.
pub open spec fn first_reported(
    plan: CachedPlan,
    ctl: Controller,
    reported: Option<Vec<GapSpan>>,
    r: PlanStep,
) -> bool {
    if missing(reported, plan.from, plan.to).len() == 0 {
        r is Ready && r->Ready_0@ == tiling(plan.from, plan.to, seq![])
    } else {
        r == PlanStep::AcquireSlot(ctl.key_of(plan.from, plan.to))
    }
}

/// What follows the cache's report under the fetch slot.
pub open spec fn locked_reported(
    plan: CachedPlan,
    reported: Option<Vec<GapSpan>>,
    r: LockedPlan,
    pre_acct: AccountingView,
    post_acct: AccountingView,
) -> bool {
    let gaps = missing(reported, plan.from, plan.to);
    &&& r.segments@ == tiling(plan.from, plan.to, gaps)
    &&& r.hold_slot == (gaps.len() > 0)
    &&& post_acct == if r.hold_slot {
        pre_acct
    } else {
        AccountingView {
            history_fetch_coalesced: bump(pre_acct.history_fetch_coalesced),
            ..pre_acct
        }
    }
}

/// How the backfill of a live session starts.
pub open spec fn backfill_planned(
    pre: Controller,
    from: Timestamp,
    edge: Timestamp,
    post: Controller,
    r: BackfillPlan,
) -> bool {
    if from.0 >= edge.0 {
        r is Skip && post.stats@ == pre.stats@
    } else {
        &&& post.stats@ == (LiveStatsView { backfilling: true, ..pre.stats@ })
        &&& if pre.has_cache && pre.persistence.read_cache {
            r == BackfillPlan::QueryCache(pre.key_of(from, edge))
        } else {
            r is FetchAll && r->FetchAll_0@ == tiling(from, edge, whole(from, edge))
        }
    }
}

/// A historical range goes through the cache exactly where there is one and the
/// options read or write it; otherwise it is one fetch of the whole range.
pub proof fn law_ranges_go_through_the_cache_where_asked(
    ctl: Controller,
    from: Timestamp,
    to: Timestamp,
)
    ensures
        historical_plan(ctl, from, to) is Cached <==> ctl.has_cache && (ctl.persistence.read_cache
            || ctl.persistence.write_cache),
        historical_plan(ctl, from, to) matches HistoricalPlan::Direct(request) ==> {
            &&& request.from == from && request.to == to
            &&& request.instrument == ctl.instrument && request.kind == ctl.kind
            &&& request.adjustment == ctl.adjustment
        },
{
}

/// A range is fetched no more than it has to be: where the cache is read and
/// lacks nothing, nothing is fetched and no slot is taken; where it is not
/// read, everything is fetched; and where someone else filled the range in the
/// meantime, nothing is fetched again and that is counted.
pub proof fn law_ranges_are_fetched_no_more_than_needed(
    plan: CachedPlan,
    ctl: Controller,
    reported: Option<Vec<GapSpan>>,
    begun: PlanStep,
    first: PlanStep,
    locked: LockedPlan,
    pre_acct: AccountingView,
    post_acct: AccountingView,
    i: int,
)
    requires
        plan.from.0 < plan.to.0,
        plan_begun(plan, ctl, begun),
        first_reported(plan, ctl, reported, first),
        locked_reported(plan, reported, locked, pre_acct, post_acct),
    ensures
        plan.read_cache ==> begun is QueryCache && begun->QueryCache_0.from == plan.from
            && begun->QueryCache_0.to == plan.to && begun->QueryCache_0.instrument
            == ctl.instrument && begun->QueryCache_0.kind == ctl.kind,
        !plan.read_cache ==> begun is Ready && begun->Ready_0@ == seq![
            Segment::Gap { from: plan.from, to: plan.to },
        ],
        reported matches Some(gaps) ==> (gaps@.len() == 0 ==> {
            &&& first is Ready
            &&& first->Ready_0@ == seq![Segment::Covered { from: plan.from, to: plan.to }]
            &&& !locked.hold_slot
            &&& 0 <= i < locked.segments@.len() ==> locked.segments@[i] is Covered
            &&& pre_acct.history_fetch_coalesced < u64::MAX ==> post_acct.history_fetch_coalesced
                == pre_acct.history_fetch_coalesced + 1
        }),
        reported matches Some(gaps) ==> (gaps@.len() > 0 ==> first is AcquireSlot
            && locked.hold_slot && post_acct == pre_acct),
        reported is None ==> first is AcquireSlot && locked.segments@ == seq![
            Segment::Gap { from: plan.from, to: plan.to },
        ],
{
    law_whole_range_is_one_fetch(plan.from, plan.to);
    law_covered_range_needs_no_fetch(plan.from, plan.to);
    if let Some(gaps) = reported {
        if gaps@.len() == 0 {
            assert(gaps@ =~= seq![]);
        }
    }
}

/// History is fetched ahead of the live tail exactly where it reaches back
/// behind the live edge: through the cache where that is read, and otherwise
/// the whole range up to the edge.
pub proof fn law_backfills_reach_up_to_the_live_edge(
    pre: Controller,
    from: Timestamp,
    edge: Timestamp,
    post: Controller,
    r: BackfillPlan,
)
    requires
        backfill_planned(pre, from, edge, post, r),
    ensures
        r is Skip <==> from.0 >= edge.0,
        r matches BackfillPlan::QueryCache(key) ==> {
            &&& pre.has_cache && pre.persistence.read_cache
            &&& key.from == from && key.to == edge
            &&& key.instrument == pre.instrument && key.kind == pre.kind
            &&& key.adjustment == pre.adjustment
        },
        r matches BackfillPlan::FetchAll(segments) ==> {
            &&& !(pre.has_cache && pre.persistence.read_cache)
            &&& segments@ == seq![Segment::Gap { from, to: edge }]
        },
        !(r is Skip) ==> post.stats@.backfilling,
        r is Skip ==> post.stats@ == pre.stats@,
{
    if from.0 < edge.0 {
        law_whole_range_is_one_fetch(from, edge);
    }
}

/// How the serving of segments starts.
pub open spec fn starts_serving(
    s: SegmentStream,
    segments: Vec<Segment>,
    options: PersistenceOptions,
    edge: Option<Timestamp>,
    capacity: usize,
) -> bool {
    &&& s.segments == segments
    &&& s.next == 0
    &&& s.write_cache == options.write_cache
    &&& s.edge == edge
    &&& s.work is Idle
    &&& s.live_open == (edge is Some)
    &&& edge is Some ==> s.pending->0@ == RingView::empty(capacity as nat)
}

/// Segments are served from the first on; what is fetched is stored exactly
/// where the options write the cache, whether or not they read it; and only a
/// live session has a tail to wait for, of which nothing has come yet.
pub proof fn law_serving_starts_with_the_options(
    s: SegmentStream,
    segments: Vec<Segment>,
    read_cache: bool,
    write_cache: bool,
    write_tap_log: bool,
    edge: Option<Timestamp>,
    capacity: usize,
)
    requires
        starts_serving(
            s,
            segments,
            (PersistenceOptions { read_cache, write_cache, write_tap_log }),
            edge,
            capacity,
        ),
    ensures
        s.write_cache == write_cache,
        s.segments@ == segments@ && s.next == 0,
        s.live_open <==> edge is Some,
        edge is Some ==> s.pending->0@.buf.len() == 0 && s.pending->0@.dropped is None,
        edge is Some && capacity > 0 ==> s.pending->0@.capacity == capacity,
{
}

} // verus!
