//! Statistics of live sessions and client sessions.

use std::collections::VecDeque;

use vstd::prelude::*;

use crate::accounting::bump;
use crate::event::{
    data_source_ts, ControlKind, ControlKindView, EventKind, EventView, GapSpan, Instrument,
    MarketEvent, SeqNo, Timestamp,
};

verus! {

/// How many recent gaps are remembered.
pub const RECENT_GAPS_CAP: usize = 8;

/// Receipt time of a data event.
pub open spec fn rx_ts_of(ev: EventView) -> Option<Timestamp> {
    match ev {
        EventView::Trade(t) => Some(t.rx_ts),
        EventView::Quote(q) => Some(q.rx_ts),
        EventView::Bar(b) => Some(b.rx_ts),
        EventView::Control(_) => None,
    }
}

pub fn data_rx_ts(ev: &MarketEvent) -> (r: Option<Timestamp>)
    ensures
        r == rx_ts_of(ev@),
{
    match ev {
        MarketEvent::Trade(t) => Some(t.rx_ts),
        MarketEvent::Quote(q) => Some(q.rx_ts),
        MarketEvent::Bar(b) => Some(b.rx_ts),
        MarketEvent::Control(_) => None,
    }
}

/// Statistics of one live symbol.
#[derive(Debug)]
pub struct LiveStats {
    pub seq_position: Option<SeqNo>,
    pub last_source_ts: Option<Timestamp>,
    pub last_rx_ts: Option<Timestamp>,
    pub gap_count: u64,
    /// The latest gap spans, oldest first.
    pub recent_gaps: VecDeque<GapSpan>,
    pub last_gap_rx_ts: Option<Timestamp>,
    pub backfilling: bool,
    pub subscribers: u64,
}

/// The value of a [`LiveStats`].
pub struct LiveStatsView {
    pub seq_position: Option<SeqNo>,
    pub last_source_ts: Option<Timestamp>,
    pub last_rx_ts: Option<Timestamp>,
    pub gap_count: u64,
    pub recent_gaps: Seq<GapSpan>,
    pub last_gap_rx_ts: Option<Timestamp>,
    pub backfilling: bool,
    pub subscribers: u64,
}

impl View for LiveStats {
    type V = LiveStatsView;

    open spec fn view(&self) -> LiveStatsView {
        LiveStatsView {
            seq_position: self.seq_position,
            last_source_ts: self.last_source_ts,
            last_rx_ts: self.last_rx_ts,
            gap_count: self.gap_count,
            recent_gaps: self.recent_gaps@,
            last_gap_rx_ts: self.last_gap_rx_ts,
            backfilling: self.backfilling,
            subscribers: self.subscribers,
        }
    }
}

/// The list with `span` added, without its oldest entry where it was full.
pub open spec fn remember(gaps: Seq<GapSpan>, span: GapSpan) -> Seq<GapSpan> {
    if gaps.len() == RECENT_GAPS_CAP {
        gaps.drop_first().push(span)
    } else {
        gaps.push(span)
    }
}

impl LiveStatsView {
    pub open spec fn zero() -> LiveStatsView {
        LiveStatsView {
            seq_position: None,
            last_source_ts: None,
            last_rx_ts: None,
            gap_count: 0,
            recent_gaps: seq![],
            last_gap_rx_ts: None,
            backfilling: false,
            subscribers: 0,
        }
    }

    /// The statistics after one event.
    pub open spec fn recorded(self, ev: EventView) -> LiveStatsView {
        let base = LiveStatsView { seq_position: Some(ev.seq()), ..self };
        match ev {
            EventView::Control(c) => match c.kind {
                ControlKindView::Gap { provider, instrument, span } => LiveStatsView {
                    gap_count: bump(self.gap_count),
                    recent_gaps: remember(self.recent_gaps, span),
                    last_gap_rx_ts: Some(c.rx_ts),
                    ..base
                },
                _ => base,
            },
            _ => LiveStatsView {
                last_source_ts: ev.data_source_ts(),
                last_rx_ts: rx_ts_of(ev),
                ..base
            },
        }
    }
}

impl LiveStats {
    /// No more gaps are remembered than the cap allows.
    pub open spec fn wf(self) -> bool {
        self.recent_gaps@.len() <= RECENT_GAPS_CAP
    }

    pub fn new() -> (r: LiveStats)
        ensures
            r.wf(),
            r@ == LiveStatsView::zero(),
    {
        LiveStats {
            seq_position: None,
            last_source_ts: None,
            last_rx_ts: None,
            gap_count: 0,
            recent_gaps: VecDeque::new(),
            last_gap_rx_ts: None,
            backfilling: false,
            subscribers: 0,
        }
    }

    /// Record the number of attached referrers.
    pub fn set_subscribers(&mut self, n: usize)
        ensures
            final(self)@ == (LiveStatsView { subscribers: n as u64, ..old(self)@ }),
            old(self).wf() ==> final(self).wf(),
    {
        self.subscribers = n as u64;
    }

    pub fn subscriber_count(&self) -> (r: u64)
        ensures
            r == self@.subscribers,
    {
        self.subscribers
    }

    /// Fold one delivered event into the statistics.
    pub fn record_event(&mut self, ev: &MarketEvent)
        requires
            old(self).wf(),
        ensures
            final(self).wf(),
            final(self)@ == old(self)@.recorded(ev@),
    {
        self.seq_position = Some(ev.place());
        match ev {
            MarketEvent::Control(c) => {
                if let ControlKind::Gap { span, .. } = &c.kind {
                    self.gap_count = self.gap_count.wrapping_add(1);
                    self.last_gap_rx_ts = Some(c.rx_ts);
                    if self.recent_gaps.len() == RECENT_GAPS_CAP {
                        let _ = self.recent_gaps.pop_front();
                    }
                    self.recent_gaps.push_back(*span);
                    proof {
                        assert(self.recent_gaps@ =~= remember(old(self).recent_gaps@, *span));
                    }
                }
            },
            _ => {
                self.last_source_ts = data_source_ts(ev);
                self.last_rx_ts = data_rx_ts(ev);
            },
        }
    }

    /// Place of the latest event, or `None` before any.
    pub fn seq_position(&self) -> (r: Option<SeqNo>)
        ensures
            r == self@.seq_position,
    {
        self.seq_position
    }

    /// Source time of the latest data event, or `None` before any.
    pub fn last_source_ts(&self) -> (r: Option<Timestamp>)
        ensures
            r == self@.last_source_ts,
    {
        self.last_source_ts
    }

    /// Receipt time of the latest data event, or `None` before any.
    pub fn last_rx_ts(&self) -> (r: Option<Timestamp>)
        ensures
            r == self@.last_rx_ts,
    {
        self.last_rx_ts
    }

    pub fn gap_count(&self) -> (r: u64)
        ensures
            r == self@.gap_count,
    {
        self.gap_count
    }

    /// The remembered gap spans, oldest first.
    pub fn recent_gaps(&self) -> (r: Vec<GapSpan>)
        ensures
            r@ == self@.recent_gaps,
    {
        let mut out: Vec<GapSpan> = Vec::new();
        let mut k: usize = 0;
        while k < self.recent_gaps.len()
            invariant
                0 <= k <= self.recent_gaps@.len(),
                out@ == self.recent_gaps@.take(k as int),
            decreases self.recent_gaps@.len() - k,
        {
            out.push(self.recent_gaps[k]);
            proof {
                assert(self.recent_gaps@.take(k as int + 1) =~= self.recent_gaps@.take(
                    k as int,
                ).push(self.recent_gaps@[k as int]));
            }
            k += 1;
        }
        proof {
            assert(self.recent_gaps@.take(k as int) =~= self.recent_gaps@);
        }
        out
    }

    /// Receipt time of the latest gap, or `None` before any.
    pub fn last_gap_rx_ts(&self) -> (r: Option<Timestamp>)
        ensures
            r == self@.last_gap_rx_ts,
    {
        self.last_gap_rx_ts
    }

    /// Whether a backfill is in progress.
    pub fn backfilling(&self) -> (r: bool)
        ensures
            r == self@.backfilling,
    {
        self.backfilling
    }

    pub fn set_backfilling(&mut self, active: bool)
        ensures
            final(self)@ == (LiveStatsView { backfilling: active, ..old(self)@ }),
            old(self).wf() ==> final(self).wf(),
    {
        self.backfilling = active;
    }
}

/// Process-wide number of a client session.
#[derive(Clone, Copy, Debug, PartialEq, Eq, Hash, Structural)]
pub struct ClientSessionId(pub u64);

/// Occupancy of a client's resume buffer at one moment.
#[derive(Clone, Copy, Debug, PartialEq, Eq, Structural)]
pub struct ResumeBufferSnapshot {
    pub capacity: usize,
    pub occupancy: usize,
    pub dropped_events: u64,
}

/// One subscription of a client.
#[derive(Debug, PartialEq, Eq)]
pub struct SubscriptionRef {
    pub instrument: Instrument,
    pub kind: EventKind,
}

/// Statistics of one client session.
#[derive(Debug)]
pub struct ClientStats {
    pub id: ClientSessionId,
    pub capacity: usize,
    pub occupancy: usize,
    pub dropped_events: u64,
    pub subscriptions: Vec<(Instrument, EventKind)>,
}

impl ClientStats {
    pub fn new(id: ClientSessionId, capacity: usize) -> (r: ClientStats)
        ensures
            r.id == id,
            r.capacity == capacity,
            r.occupancy == 0,
            r.dropped_events == 0,
            r.subscriptions@.len() == 0,
    {
        ClientStats { id, capacity, occupancy: 0, dropped_events: 0, subscriptions: Vec::new() }
    }

    /// Count `n` evicted events.
    pub fn record_drops(&mut self, n: u64)
        ensures
            *final(self) == (ClientStats {
                dropped_events: final(self).dropped_events,
                ..*old(self)
            }),
            final(self).dropped_events == (old(self).dropped_events + n) % 0x1_0000_0000_0000_0000,
    {
        self.dropped_events = self.dropped_events.wrapping_add(n);
    }

    pub fn set_occupancy(&mut self, n: usize)
        ensures
            *final(self) == (ClientStats { occupancy: n, ..*old(self) }),
    {
        self.occupancy = n;
    }

    /// Replace the mirrored subscription set.
    pub fn set_subscriptions(&mut self, subs: Vec<(Instrument, EventKind)>)
        ensures
            *final(self) == (ClientStats { subscriptions: subs, ..*old(self) }),
    {
        self.subscriptions = subs;
    }

    pub fn id(&self) -> (r: ClientSessionId)
        ensures
            r == self.id,
    {
        self.id
    }

    pub fn resume_buffer_snapshot(&self) -> (r: ResumeBufferSnapshot)
        ensures
            r == (ResumeBufferSnapshot {
                capacity: self.capacity,
                occupancy: self.occupancy,
                dropped_events: self.dropped_events,
            }),
    {
        ResumeBufferSnapshot {
            capacity: self.capacity,
            occupancy: self.occupancy,
            dropped_events: self.dropped_events,
        }
    }

    /// The mirrored subscriptions, in order.
    pub fn subscription_refs(&self) -> (r: Vec<SubscriptionRef>)
        ensures
            r@.len() == self.subscriptions@.len(),
            forall|i: int|
                0 <= i < r@.len() ==> (#[trigger] r@[i]).instrument == self.subscriptions@[i].0
                    && r@[i].kind == self.subscriptions@[i].1,
    {
        let mut out: Vec<SubscriptionRef> = Vec::new();
        let mut k: usize = 0;
        while k < self.subscriptions.len()
            invariant
                0 <= k <= self.subscriptions@.len(),
                out@.len() == k,
                forall|i: int|
                    0 <= i < k ==> (#[trigger] out@[i]).instrument == self.subscriptions@[i].0
                        && out@[i].kind == self.subscriptions@[i].1,
            decreases self.subscriptions@.len() - k,
        {
            out.push(
                SubscriptionRef {
                    instrument: self.subscriptions[k].0.clone(),
                    kind: self.subscriptions[k].1,
                },
            );
            k += 1;
        }
        out
    }
}

/// The statistics of a stream follow it: its position is the place of the last
/// event; the times are those of the last data event, each under its own name;
/// a gap is counted, remembered as the latest and timed by its receipt. Nothing
/// else moves.
pub proof fn law_stats_follow_the_stream(s: LiveStatsView, ev: EventView)
    ensures
        s.recorded(ev).seq_position == Some(ev.seq()),
        ev matches EventView::Trade(t) ==> s.recorded(ev).last_source_ts == Some(t.source_ts)
            && s.recorded(ev).last_rx_ts == Some(t.rx_ts),
        ev matches EventView::Quote(q) ==> s.recorded(ev).last_source_ts == Some(q.source_ts)
            && s.recorded(ev).last_rx_ts == Some(q.rx_ts),
        ev matches EventView::Bar(b) ==> s.recorded(ev).last_source_ts == Some(b.source_ts)
            && s.recorded(ev).last_rx_ts == Some(b.rx_ts),
        ev is Control ==> s.recorded(ev).last_source_ts == s.last_source_ts && s.recorded(
            ev,
        ).last_rx_ts == s.last_rx_ts,
        ev is Control && ev->Control_0.kind is Gap ==> {
            &&& s.gap_count < u64::MAX ==> s.recorded(ev).gap_count == s.gap_count + 1
            &&& s.recorded(ev).recent_gaps.len() > 0
            &&& s.recorded(ev).recent_gaps.last() == ev->Control_0.kind->Gap_span
            &&& s.recorded(ev).last_gap_rx_ts == Some(ev->Control_0.rx_ts)
        },
        !(ev is Control && ev->Control_0.kind is Gap) ==> {
            &&& s.recorded(ev).gap_count == s.gap_count
            &&& s.recorded(ev).recent_gaps == s.recent_gaps
            &&& s.recorded(ev).last_gap_rx_ts == s.last_gap_rx_ts
        },
        s.recorded(ev).backfilling == s.backfilling,
        s.recorded(ev).subscribers == s.subscribers,
{
}

/// The gaps that are remembered are the latest ones, in order.
pub proof fn law_the_latest_gaps_are_remembered(gaps: Seq<GapSpan>, span: GapSpan)
    requires
        gaps.len() <= RECENT_GAPS_CAP,
    ensures
        remember(gaps, span).len() <= RECENT_GAPS_CAP,
        exists|k: int|
            0 <= k <= 1 && k <= gaps.len() && remember(gaps, span) == #[trigger] gaps.push(
                span,
            ).skip(k) && (k == 1 ==> gaps.len() == RECENT_GAPS_CAP),
{
    if gaps.len() == RECENT_GAPS_CAP {
        assert(remember(gaps, span) =~= gaps.push(span).skip(1));
    } else {
        assert(remember(gaps, span) =~= gaps.push(span).skip(0));
    }
}

} // verus!
