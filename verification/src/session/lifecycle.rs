//! The life of a session around its data: the loop of a live session, the
//! plain historical fetch, and how a session ends.

use vstd::prelude::*;

use crate::accounting::{AccountingView, ProviderAccounting};
use crate::client::fanout::{unsubscribed, FanOut, Referrer, SubscriberId};
use crate::client::stats::LiveStatsView;
use crate::event::{ControlKindView, EventView, MarketEvent, SeqNo, Timestamp};

use super::controller::{
    commanded, delivered, emits, in_step, same_session, CommandOutcome, Controller, SessionCommand,
};
use super::stream::{failure_of, latest_data, FetchEnd, HistoricalRun};

verus! {

// ---------------------------------------------------------------------------
// Ending
// ---------------------------------------------------------------------------

/// The announcement that a session ends at `now`.
pub open spec fn closing_report(now: Timestamp) -> EventView {
    EventView::control(now, SeqNo(0), ControlKindView::SessionClosing)
}

impl Controller {
    /// Announce the end of the session. The tap log is flushed behind it.
    pub fn shutdown(&mut self, now: Timestamp, consumer_open: bool) -> (publish: Option<
        MarketEvent,
    >)
        requires
            old(self).wf(),
            old(self).next_seq < u64::MAX,
        ensures
            final(self).wf(),
            emits(*old(self), closing_report(now), consumer_open, *final(self), publish),
    {
        let ev = Controller::closing_event(now);
        self.emit(ev, consumer_open)
    }
}

// ---------------------------------------------------------------------------
// The live tail
// ---------------------------------------------------------------------------

/// What happened to a live session.
pub enum LiveEvent {
    Command(SessionCommand),
    /// A referrer left; `None` where no referrer can ever leave again.
    Removed(Option<SubscriberId>),
    /// The provider delivered an event; `None` where its task has exited.
    Arrived(Option<MarketEvent>),
    /// The stamped event is in the tap log, where it belongs there.
    Recorded,
}

/// What is to be done for a live session.
#[derive(Debug)]
pub enum LiveAction {
    /// Append to the tap log.
    Record(MarketEvent),
    /// Feed `Recorded`, behind the recording.
    Deliver,
    Answer(CommandOutcome),
    /// Announce the end of the session and flush its stores.
    ShutDown,
    /// Release the upstream subscription and stop.
    TearDown,
}

/// A live session behind its backfill: its controller, and the event that is
/// stamped and being recorded.
pub struct LiveRun {
    pub ctl: Controller,
    pub in_flight: Option<MarketEvent>,
}

/// Whether the last referrer has left.
pub open spec fn abandoned(f: Option<FanOut>) -> bool {
    f matches Some(f) && f.had_subscriber && f.subscribers@.len() == 0
}

/// A session stops behind `acts` once its last referrer has left.
pub open spec fn live_checked(post: Controller, acts: Seq<LiveAction>) -> Seq<LiveAction> {
    if abandoned(post.fanout) {
        acts.push(LiveAction::TearDown)
    } else {
        acts
    }
}

/// The steps of a live session behind its backfill.
pub open spec fn live_stepped(
    pre: LiveRun,
    ev: LiveEvent,
    pre_acct: AccountingView,
    post: LiveRun,
    post_acct: AccountingView,
    acts: Seq<LiveAction>,
) -> bool {
    match ev {
        LiveEvent::Command(cmd) => {
            &&& post_acct == pre_acct
            &&& post.in_flight == pre.in_flight
            &&& exists|outcome: CommandOutcome|
                {
                    &&& #[trigger] commanded(pre.ctl, cmd, post.ctl, outcome)
                    &&& acts == match outcome {
                        CommandOutcome::ShutDown => seq![
                            LiveAction::ShutDown,
                            LiveAction::Answer(CommandOutcome::ShutDown),
                            LiveAction::TearDown,
                        ],
                        CommandOutcome::Exit => seq![LiveAction::TearDown],
                        _ => live_checked(post.ctl, seq![LiveAction::Answer(outcome)]),
                    }
                }
        },
        LiveEvent::Removed(None) => {
            &&& post == pre
            &&& post_acct == pre_acct
            &&& acts == seq![LiveAction::TearDown]
        },
        LiveEvent::Removed(Some(id)) => {
            &&& post_acct == pre_acct
            &&& post.in_flight == pre.in_flight
            &&& same_session(pre.ctl, post.ctl)
            &&& post.ctl.next_seq == pre.ctl.next_seq
            &&& post.ctl.emitted == pre.ctl.emitted
            &&& post.ctl.sink == pre.ctl.sink
            &&& unsubscribed(pre.ctl.fanout->0, id, post.ctl.fanout->0)
            &&& post.ctl.stats@ == (LiveStatsView {
                subscribers: post.ctl.fanout->0.subscribers@.len() as u64,
                ..pre.ctl.stats@
            })
            &&& acts == live_checked(post.ctl, seq![])
        },
        LiveEvent::Arrived(None) => {
            &&& post == pre
            &&& post_acct == pre_acct
            &&& acts == seq![LiveAction::TearDown]
        },
        LiveEvent::Arrived(Some(event)) => {
            let stamped = post.ctl.emitted@.last();
            &&& post.in_flight == Some(stamped)
            &&& post.ctl == (Controller {
                next_seq: (pre.ctl.next_seq + 1) as u64,
                emitted: post.ctl.emitted,
                ..pre.ctl
            })
            &&& post.ctl.emitted@ == pre.ctl.emitted@.push(stamped)
            &&& stamped@ == event@.with_seq(SeqNo(pre.ctl.next_seq))
            &&& post_acct == pre_acct.forwarded(stamped@, true)
            &&& acts == if pre.ctl.records(stamped@) {
                seq![LiveAction::Record(stamped), LiveAction::Deliver]
            } else {
                seq![LiveAction::Deliver]
            }
        },
        LiveEvent::Recorded => {
            &&& post_acct == pre_acct
            &&& post.in_flight is None
            &&& match pre.in_flight {
                Some(stamped) => delivered(pre.ctl, stamped, false, post.ctl, None),
                None => post.ctl == pre.ctl,
            }
            &&& acts == live_checked(post.ctl, seq![])
        },
    }
}

impl LiveRun {
    /// Everything that was stamped has been fanned out, but for what is in
    /// flight.
    pub open spec fn wf(self) -> bool {
        &&& self.ctl.wf()
        &&& self.ctl.fanout is Some
        &&& match self.in_flight {
            None => in_step(self.ctl),
            Some(ev) => self.ctl.emitted@ == self.ctl.fanout->0.delivered@.push(ev),
        }
    }

    /// The session's referrers.
    pub open spec fn referrers(self) -> Seq<Referrer> {
        self.ctl.fanout->0.subscribers@
    }

    pub fn new(ctl: Controller) -> (r: LiveRun)
        requires
            ctl.wf(),
            ctl.fanout is Some,
            in_step(ctl),
        ensures
            r.wf(),
            r.ctl == ctl,
            r.in_flight is None,
    {
        LiveRun { ctl, in_flight: None }
    }

    fn check_teardown(&self, acts: &mut Vec<LiveAction>)
        ensures
            final(acts)@ == live_checked(self.ctl, old(acts)@),
    {
        if self.ctl.live_should_teardown() {
            acts.push(LiveAction::TearDown);
        }
    }

    /// Whether a live session stops before it starts to read.
    pub fn begin(&self) -> (acts: Vec<LiveAction>)
        ensures
            acts@ == live_checked(self.ctl, seq![]),
    {
        let mut acts: Vec<LiveAction> = Vec::new();
        self.check_teardown(&mut acts);
        proof {
            assert(Seq::<LiveAction>::empty() =~= seq![]);
        }
        acts
    }

    /// Take one step. An event arrives only behind the delivery of the one
    /// before it.
    pub fn step(&mut self, accounting: &mut ProviderAccounting, ev: LiveEvent) -> (acts: Vec<
        LiveAction,
    >)
        requires
            old(self).wf(),
            old(self).ctl.next_seq < u64::MAX,
            ev is Arrived ==> old(self).in_flight is None,
        ensures
            final(self).wf(),
            live_stepped(
                *old(self),
                ev,
                old(accounting)@,
                *final(self),
                final(accounting)@,
                acts@,
            ),
    {
        let ghost pre = *self;
        let mut acts: Vec<LiveAction> = Vec::new();
        match ev {
            LiveEvent::Command(cmd) => {
                let outcome = self.ctl.handle_command(cmd);
                let ghost o = outcome;
                match outcome {
                    CommandOutcome::ShutDown => {
                        acts.push(LiveAction::ShutDown);
                        acts.push(LiveAction::Answer(CommandOutcome::ShutDown));
                        acts.push(LiveAction::TearDown);
                        proof {
                            assert(acts@ =~= seq![
                                LiveAction::ShutDown,
                                LiveAction::Answer(CommandOutcome::ShutDown),
                                LiveAction::TearDown,
                            ]);
                        }
                    },
                    CommandOutcome::Exit => {
                        acts.push(LiveAction::TearDown);
                        proof {
                            assert(acts@ =~= seq![LiveAction::TearDown]);
                        }
                    },
                    other => {
                        acts.push(LiveAction::Answer(other));
                        proof {
                            assert(acts@ =~= seq![LiveAction::Answer(o)]);
                        }
                        self.check_teardown(&mut acts);
                    },
                }
                proof {
                    assert(commanded(pre.ctl, cmd, self.ctl, o));
                }
            },
            LiveEvent::Removed(id) => {
                match id {
                    Some(id) => {
                        self.ctl.remove_subscriber(id);
                        proof {
                            assert(acts@ =~= seq![]);
                        }
                        self.check_teardown(&mut acts);
                    },
                    None => {
                        acts.push(LiveAction::TearDown);
                        proof {
                            assert(acts@ =~= seq![LiveAction::TearDown]);
                        }
                    },
                }
            },
            LiveEvent::Arrived(arrival) => {
                match arrival {
                    Some(event) => {
                        let stamped = self.ctl.prepare_forward(accounting, event);
                        let ghost s = stamped.event;
                        if stamped.tee {
                            acts.push(LiveAction::Record(stamped.event.clone()));
                        }
                        acts.push(LiveAction::Deliver);
                        self.in_flight = Some(stamped.event);
                        proof {
                            assert(self.ctl.emitted@.last() == s);
                            if pre.ctl.records(s@) {
                                assert(acts@ =~= seq![LiveAction::Record(s), LiveAction::Deliver]);
                            } else {
                                assert(acts@ =~= seq![LiveAction::Deliver]);
                            }
                        }
                    },
                    None => {
                        acts.push(LiveAction::TearDown);
                        proof {
                            assert(acts@ =~= seq![LiveAction::TearDown]);
                        }
                    },
                }
            },
            LiveEvent::Recorded => {
                let mut stamped: Option<MarketEvent> = None;
                std::mem::swap(&mut stamped, &mut self.in_flight);
                if let Some(stamped) = stamped {
                    let _ = self.ctl.deliver(stamped, false);
                }
                proof {
                    assert(acts@ =~= seq![]);
                }
                self.check_teardown(&mut acts);
            },
        }
        acts
    }
}

impl Controller {
    /// The upstream subscription of a live session is released.
    pub fn torn_down(accounting: &mut ProviderAccounting)
        ensures
            final(accounting)@ == (AccountingView {
                unsubscribes: crate::accounting::bump(old(accounting)@.unsubscribes),
                ..old(accounting)@
            }),
    {
        accounting.record_unsubscribe();
    }
}

/// What reaches the tap log reaches it before it is delivered, with the place
/// that it is delivered with.
pub proof fn law_recorded_before_delivered(
    pre: LiveRun,
    event: MarketEvent,
    pre_acct: AccountingView,
    mid: LiveRun,
    mid_acct: AccountingView,
    acts: Seq<LiveAction>,
    post: LiveRun,
    post_acct: AccountingView,
    later: Seq<LiveAction>,
)
    requires
        pre.wf(),
        live_stepped(
            pre,
            LiveEvent::Arrived(Some(event)),
            pre_acct,
            mid,
            mid_acct,
            acts,
        ),
        live_stepped(mid, LiveEvent::Recorded, mid_acct, post, post_acct, later),
    ensures
        mid.ctl.fanout == pre.ctl.fanout,
        acts.last() is Deliver,
        pre.ctl.records(event@) ==> acts.len() == 2 && acts[0] is Record,
        !pre.ctl.records(event@) ==> acts.len() == 1,
        pre.ctl.records(event@) ==> post.ctl.fanout->0.delivered@
            == pre.ctl.fanout->0.delivered@.push(acts[0]->Record_0),
        post.ctl.fanout->0.delivered@.last()@ == event@.with_seq(SeqNo(pre.ctl.next_seq)),
{
}

/// A live session stops exactly when its last referrer leaves.
pub proof fn law_last_referrer_ends_the_session(
    pre: LiveRun,
    id: SubscriberId,
    pre_acct: AccountingView,
    post: LiveRun,
    post_acct: AccountingView,
    acts: Seq<LiveAction>,
)
    requires
        pre.wf(),
        pre.ctl.fanout->0.had_subscriber,
        live_stepped(pre, LiveEvent::Removed(Some(id)), pre_acct, post, post_acct, acts),
    ensures
        acts.contains(LiveAction::TearDown) <==> forall|i: int|
            0 <= i < pre.ctl.fanout->0.subscribers@.len() ==> (
            #[trigger] pre.ctl.fanout->0.subscribers@[i]).id == id,
{
    let subs = pre.ctl.fanout->0.subscribers@;
    let left = post.ctl.fanout->0.subscribers@;
    if abandoned(post.ctl.fanout) {
        assert(acts[0] == LiveAction::TearDown);
        if crate::client::fanout::has_id(subs, id) {
            let k = choose|k: int|
                0 <= k < subs.len() && (#[trigger] subs[k]).id == id && left == subs.remove(k);
            assert(subs.len() == 1);
        }
    } else {
        if forall|i: int| 0 <= i < subs.len() ==> (#[trigger] subs[i]).id == id {
            if subs.len() > 0 {
                assert(subs[0].id == id);
                assert(crate::client::fanout::has_id(subs, id));
                let k = choose|k: int|
                    0 <= k < subs.len() && (#[trigger] subs[k]).id == id && left == subs.remove(k);
                if subs.len() > 1 {
                    assert(subs[1].id == id);
                    assert(crate::client::fanout::distinct_ids(subs));
                }
                assert(false);
            }
        }
    }
}

// ---------------------------------------------------------------------------
// A historical session
// ---------------------------------------------------------------------------

/// Where a historical session stands.
pub enum Phase {
    /// A single fetch of the whole range is under way.
    Fetching(HistoricalRun),
    /// The range has been served.
    Served,
    /// The end has been announced to the stream.
    Announced,
    /// Whoever holds the stream drains it.
    Draining,
    Over,
}

/// What happened to a historical session.
pub enum HistoryEvent {
    Fetched(MarketEvent),
    FetchEnded(FetchEnd),
    /// The range has been served; `stream_taken` tells whether somebody ever
    /// took the stream.
    Finish { stream_taken: bool, now: Timestamp },
    /// The announcement has been published.
    Settled,
    /// Nobody holds the stream any more.
    Drained,
    Command(SessionCommand),
}

/// What is to be done for a historical session.
#[derive(Debug)]
pub enum HistoryAction {
    /// Publish to the attached stream; if that rejects the event, hand it to
    /// `Controller::rejected`.
    Publish(MarketEvent),
    AbortFetch,
    Answer(CommandOutcome),
    /// Announce the end of the session and flush its stores.
    ShutDown,
    /// Feed `Finish` next.
    AskFinish,
    /// Feed `Settled` next.
    AskSettled,
    /// Feed `Drained` once nobody holds the stream.
    AwaitDrain,
    Stop,
}

/// A historical session behind its planning.
pub struct HistoricalSession {
    pub ctl: Controller,
    pub phase: Phase,
}

pub open spec fn published(publish: Option<MarketEvent>) -> Seq<HistoryAction> {
    match publish {
        Some(ev) => seq![HistoryAction::Publish(ev)],
        None => seq![],
    }
}

fn push_published(acts: &mut Vec<HistoryAction>, publish: Option<MarketEvent>)
    ensures
        final(acts)@ == old(acts)@ + published(publish),
{
    let ghost before = acts@;
    if let Some(ev) = publish {
        acts.push(HistoryAction::Publish(ev));
    }
    proof {
        assert(acts@ =~= before + published(publish));
    }
}

/// The steps of a historical session. Events that do not belong to the phase
/// change nothing.
pub open spec fn history_stepped(
    pre: HistoricalSession,
    ev: HistoryEvent,
    consumer_open: bool,
    pre_acct: AccountingView,
    post: HistoricalSession,
    post_acct: AccountingView,
    acts: Seq<HistoryAction>,
) -> bool {
    match (ev, pre.phase) {
        (HistoryEvent::Fetched(event), Phase::Fetching(run)) => {
            &&& post.phase is Fetching
            &&& post.phase->Fetching_0.from == run.from
            &&& post.phase->Fetching_0.seen@ == run.seen@.push(event)
            &&& post_acct == pre_acct.forwarded(
                event@.with_seq(SeqNo(pre.ctl.next_seq)),
                pre.ctl.fanout is Some,
            )
            &&& exists|publish: Option<MarketEvent>|
                #[trigger] emits(pre.ctl, event@, consumer_open, post.ctl, publish) && acts
                    == published(publish)
        },
        (HistoryEvent::FetchEnded(end), Phase::Fetching(run)) => {
            &&& post.phase is Served
            &&& failure_of(end) is None ==> post.ctl == pre.ctl && post_acct == pre_acct && acts
                == seq![HistoryAction::AskFinish]
            &&& failure_of(end) matches Some(message) ==> {
                let report = pre.ctl.error_report(
                    match latest_data(run.seen@) {
                        Some(t) => t,
                        None => run.from,
                    },
                    message,
                );
                &&& post_acct == pre_acct.forwarded(
                    report.with_seq(SeqNo(pre.ctl.next_seq)),
                    pre.ctl.fanout is Some,
                )
                &&& exists|publish: Option<MarketEvent>|
                    #![trigger published(publish)]
                    emits(pre.ctl, report, consumer_open, post.ctl, publish) && acts == published(
                        publish,
                    ).push(HistoryAction::AskFinish)
            }
        },
        (HistoryEvent::Finish { stream_taken, now }, Phase::Served) => {
            &&& post_acct == pre_acct
            &&& !stream_taken ==> {
                &&& post.ctl == pre.ctl
                &&& post.phase is Over
                &&& acts == seq![HistoryAction::ShutDown, HistoryAction::Stop]
            }
            &&& stream_taken ==> {
                &&& post.phase is Announced
                &&& exists|publish: Option<MarketEvent>|
                    #![trigger published(publish)]
                    emits(pre.ctl, closing_report(now), consumer_open, post.ctl, publish) && acts
                        == published(publish).push(HistoryAction::AskSettled)
            }
        },
        (HistoryEvent::Settled, Phase::Announced) => {
            &&& post.ctl == pre.ctl
            &&& post_acct == pre_acct
            &&& pre.ctl.sink is Attached && consumer_open ==> post.phase is Draining && acts
                == seq![HistoryAction::AwaitDrain]
            &&& !(pre.ctl.sink is Attached && consumer_open) ==> post.phase is Over && acts
                == seq![HistoryAction::ShutDown, HistoryAction::Stop]
        },
        (HistoryEvent::Drained, Phase::Draining) => {
            &&& post.ctl == pre.ctl
            &&& post_acct == pre_acct
            &&& post.phase is Over
            &&& acts == seq![HistoryAction::ShutDown, HistoryAction::Stop]
        },
        (HistoryEvent::Command(cmd), phase) => {
            let aborts = if phase is Fetching {
                seq![HistoryAction::AbortFetch]
            } else {
                seq![]
            };
            &&& post_acct == pre_acct
            &&& exists|outcome: CommandOutcome|
                {
                    &&& #[trigger] commanded(pre.ctl, cmd, post.ctl, outcome)
                    &&& match outcome {
                        CommandOutcome::ShutDown => post.phase is Over && acts == seq![
                            HistoryAction::ShutDown,
                            HistoryAction::Answer(CommandOutcome::ShutDown),
                        ] + aborts + seq![HistoryAction::Stop],
                        CommandOutcome::Exit => post.phase is Over && acts == aborts
                            + seq![HistoryAction::Stop],
                        _ => post.phase == phase && acts == seq![HistoryAction::Answer(outcome)],
                    }
                }
        },
        _ => {
            &&& post == pre
            &&& post_acct == pre_acct
            &&& acts.len() == 0
        },
    }
}

impl HistoricalSession {
    pub open spec fn wf(self) -> bool {
        &&& self.ctl.wf()
        &&& self.ctl.scope is Historical
        &&& self.phase matches Phase::Fetching(run) ==> run.wf()
    }

    /// A session that fetches its whole range, which ends `from` later.
    pub fn fetching(
        ctl: Controller,
        accounting: &mut ProviderAccounting,
        from: Timestamp,
    ) -> (r: HistoricalSession)
        requires
            ctl.wf(),
            ctl.scope is Historical,
        ensures
            r.wf(),
            r.ctl == ctl,
            r.phase is Fetching,
            r.phase->Fetching_0.from == from,
            r.phase->Fetching_0.seen@.len() == 0,
            final(accounting)@ == (AccountingView {
                history_fetches: crate::accounting::bump(old(accounting)@.history_fetches),
                ..old(accounting)@
            }),
    {
        accounting.record_history_fetch();
        HistoricalSession { ctl, phase: Phase::Fetching(HistoricalRun::new(from)) }
    }

    /// A session whose range has been served segment by segment.
    pub fn served(ctl: Controller) -> (r: HistoricalSession)
        requires
            ctl.wf(),
            ctl.scope is Historical,
        ensures
            r.wf(),
            r.ctl == ctl,
            r.phase is Served,
    {
        HistoricalSession { ctl, phase: Phase::Served }
    }

    fn stop(&mut self) -> (acts: Vec<HistoryAction>)
        ensures
            final(self).ctl == old(self).ctl,
            final(self).phase is Over,
            acts@ == seq![HistoryAction::ShutDown, HistoryAction::Stop],
    {
        self.phase = Phase::Over;
        let mut acts: Vec<HistoryAction> = Vec::new();
        acts.push(HistoryAction::ShutDown);
        acts.push(HistoryAction::Stop);
        proof {
            assert(acts@ =~= seq![HistoryAction::ShutDown, HistoryAction::Stop]);
        }
        acts
    }

    fn on_command(&mut self, cmd: SessionCommand) -> (acts: Vec<HistoryAction>)
        requires
            old(self).wf(),
        ensures
            final(self).wf(),
            exists|outcome: CommandOutcome|
                {
                    &&& #[trigger] commanded(old(self).ctl, cmd, final(self).ctl, outcome)
                    &&& match outcome {
                        CommandOutcome::ShutDown => final(self).phase is Over && acts@ == seq![
                            HistoryAction::ShutDown,
                            HistoryAction::Answer(CommandOutcome::ShutDown),
                        ] + (if old(self).phase is Fetching {
                            seq![HistoryAction::AbortFetch]
                        } else {
                            seq![]
                        }) + seq![HistoryAction::Stop],
                        CommandOutcome::Exit => final(self).phase is Over && acts@ == (if old(
                            self,
                        ).phase is Fetching {
                            seq![HistoryAction::AbortFetch]
                        } else {
                            seq![]
                        }) + seq![HistoryAction::Stop],
                        _ => final(self).phase == old(self).phase && acts@
                            == seq![HistoryAction::Answer(outcome)],
                    }
                },
    {
        let ghost pre = *self;
        let mut acts: Vec<HistoryAction> = Vec::new();
        let outcome = self.ctl.handle_command(cmd);
        let ghost o = outcome;
        let fetching = match &self.phase {
            Phase::Fetching(_) => true,
            _ => false,
        };
        match outcome {
            CommandOutcome::ShutDown => {
                acts.push(HistoryAction::ShutDown);
                acts.push(HistoryAction::Answer(CommandOutcome::ShutDown));
            },
            CommandOutcome::Exit => {},
            other => {
                acts.push(HistoryAction::Answer(other));
                proof {
                    assert(acts@ =~= seq![HistoryAction::Answer(o)]);
                    assert(commanded(pre.ctl, cmd, self.ctl, o));
                }
                return acts;
            },
        }
        if fetching {
            acts.push(HistoryAction::AbortFetch);
        }
        acts.push(HistoryAction::Stop);
        self.phase = Phase::Over;
        proof {
            let aborts = if pre.phase is Fetching {
                seq![HistoryAction::AbortFetch]
            } else {
                seq![]
            };
            if o is ShutDown {
                assert(acts@ =~= seq![
                    HistoryAction::ShutDown,
                    HistoryAction::Answer(CommandOutcome::ShutDown),
                ] + aborts + seq![HistoryAction::Stop]);
            } else {
                assert(acts@ =~= aborts + seq![HistoryAction::Stop]);
            }
            assert(commanded(pre.ctl, cmd, self.ctl, o));
        }
        acts
    }

    /// Take one step.
    pub fn step(
        &mut self,
        accounting: &mut ProviderAccounting,
        ev: HistoryEvent,
        consumer_open: bool,
    ) -> (acts: Vec<HistoryAction>)
        requires
            old(self).wf(),
            old(self).ctl.next_seq < u64::MAX,
        ensures
            final(self).wf(),
            history_stepped(
                *old(self),
                ev,
                consumer_open,
                old(accounting)@,
                *final(self),
                final(accounting)@,
                acts@,
            ),
    {
        let ghost pre = *self;
        let mut acts: Vec<HistoryAction> = Vec::new();
        match ev {
            HistoryEvent::Fetched(event) => {
                if let Phase::Fetching(run) = &mut self.phase {
                    run.on_event(&event);
                    let ghost e = event@;
                    let stamped = self.ctl.prepare_forward(accounting, event);
                    proof {
                        assert(self.ctl.emitted@.drop_last() =~= pre.ctl.emitted@);
                    }
                    let publish = self.ctl.deliver(stamped.event, consumer_open);
                    let ghost p = publish;
                    push_published(&mut acts, publish);
                    proof {
                        assert(acts@ =~= published(p));
                        assert(emits(pre.ctl, e, consumer_open, self.ctl, p));
                    }
                }
            },
            HistoryEvent::FetchEnded(end) => {
                let report = match &self.phase {
                    Phase::Fetching(run) => Some(run.on_end(&self.ctl, end)),
                    _ => None,
                };
                if let Some(report) = report {
                    self.phase = Phase::Served;
                    if let Some(error) = report {
                        let publish = self.ctl.forward_control(accounting, error, consumer_open);
                        let ghost p = publish;
                        push_published(&mut acts, publish);
                        acts.push(HistoryAction::AskFinish);
                        proof {
                            assert(acts@ =~= published(p).push(HistoryAction::AskFinish));
                        }
                    } else {
                        acts.push(HistoryAction::AskFinish);
                        proof {
                            assert(acts@ =~= seq![HistoryAction::AskFinish]);
                        }
                    }
                }
            },
            HistoryEvent::Finish { stream_taken, now } => {
                if let Phase::Served = &self.phase {
                    if !stream_taken {
                        return self.stop();
                    }
                    let publish = self.ctl.shutdown(now, consumer_open);
                    let ghost p = publish;
                    push_published(&mut acts, publish);
                    acts.push(HistoryAction::AskSettled);
                    self.phase = Phase::Announced;
                    proof {
                        assert(acts@ =~= published(p).push(HistoryAction::AskSettled));
                    }
                }
            },
            HistoryEvent::Settled => {
                if let Phase::Announced = &self.phase {
                    if !self.ctl.awaits_drain(consumer_open) {
                        return self.stop();
                    }
                    acts.push(HistoryAction::AwaitDrain);
                    self.phase = Phase::Draining;
                    proof {
                        assert(acts@ =~= seq![HistoryAction::AwaitDrain]);
                    }
                }
            },
            HistoryEvent::Drained => {
                if let Phase::Draining = &self.phase {
                    return self.stop();
                }
            },
            HistoryEvent::Command(cmd) => {
                return self.on_command(cmd);
            },
        }
        acts
    }
}

/// The consumer is told that the session ends: whoever took the stream of a
/// historical session finds the announcement behind the data.
pub proof fn law_taken_stream_is_told_the_end(
    pre: HistoricalSession,
    now: Timestamp,
    consumer_open: bool,
    pre_acct: AccountingView,
    post: HistoricalSession,
    post_acct: AccountingView,
    acts: Seq<HistoryAction>,
)
    requires
        pre.phase is Served,
        history_stepped(
            pre,
            HistoryEvent::Finish { stream_taken: true, now },
            consumer_open,
            pre_acct,
            post,
            post_acct,
            acts,
        ),
    ensures
        post.ctl.emitted@.drop_last() == pre.ctl.emitted@,
        post.ctl.emitted@.last()@ == closing_report(now).with_seq(SeqNo(pre.ctl.next_seq)),
        post.phase is Announced,
{
}

/// Every data event of a live session that records, be it a trade, a quote or
/// a bar, is recorded first, as it came and under its place, and delivered
/// behind that; a control is delivered and not recorded.
pub proof fn law_arriving_data_is_recorded_first(
    pre: LiveRun,
    event: MarketEvent,
    pre_acct: AccountingView,
    post: LiveRun,
    post_acct: AccountingView,
    acts: Seq<LiveAction>,
)
    requires
        live_stepped(pre, LiveEvent::Arrived(Some(event)), pre_acct, post, post_acct, acts),
        pre.ctl.scope is Live,
        pre.ctl.has_tap_log,
        pre.ctl.persistence.write_tap_log,
    ensures
        event@ is Trade || event@ is Quote || event@ is Bar ==> {
            &&& acts.len() == 2
            &&& acts[0] is Record
            &&& acts[0]->Record_0@.with_seq(event@.seq()) == event@
            &&& acts[0]->Record_0@.seq().0 == pre.ctl.next_seq
            &&& acts[1] is Deliver
            &&& post.in_flight == Some(acts[0]->Record_0)
        },
        event@ is Control ==> acts.len() == 1 && acts[0] is Deliver,
        event@ is Trade || event@ is Quote || event@ is Bar ==> post_acct == (AccountingView {
            messages: crate::accounting::bump(pre_acct.messages),
            ..pre_acct
        }),
{
    crate::event::law_stamping_changes_the_place_only(
        event@,
        SeqNo(pre.ctl.next_seq),
        event@.seq(),
    );
}

/// The end of a session is announced by a closing control at its time.
pub proof fn law_closing_is_announced(now: Timestamp)
    ensures
        closing_report(now) is Control,
        closing_report(now)->Control_0.kind is SessionClosing,
        closing_report(now).source_ts() == now,
        closing_report(now)->Control_0.rx_ts == now,
{
}

/// What a plain historical fetch brings is delivered as it came, under the next
/// place; where the fetch fails, the provider's message is reported behind it.
pub proof fn law_fetched_history_is_delivered_as_it_came(
    pre: HistoricalSession,
    event: MarketEvent,
    end: FetchEnd,
    consumer_open: bool,
    pre_acct: AccountingView,
    fetched: HistoricalSession,
    fetched_acct: AccountingView,
    publishes: Seq<HistoryAction>,
    ended: HistoricalSession,
    ended_acct: AccountingView,
    acts: Seq<HistoryAction>,
)
    requires
        pre.phase is Fetching,
        history_stepped(
            pre,
            HistoryEvent::Fetched(event),
            consumer_open,
            pre_acct,
            fetched,
            fetched_acct,
            publishes,
        ),
        history_stepped(
            pre,
            HistoryEvent::FetchEnded(end),
            consumer_open,
            pre_acct,
            ended,
            ended_acct,
            acts,
        ),
    ensures
        fetched.phase is Fetching,
        fetched.ctl.emitted@.drop_last() == pre.ctl.emitted@,
        fetched.ctl.emitted@.last()@.with_seq(event@.seq()) == event@,
        fetched.ctl.emitted@.last()@.seq().0 == pre.ctl.next_seq,
        forall|i: int| 0 <= i < publishes.len() ==> publishes[i] == HistoryAction::Publish(
            fetched.ctl.emitted@.last(),
        ),
        ended.phase is Served,
        acts.last() is AskFinish,
        end is Completed || end is Cancelled ==> ended.ctl == pre.ctl && acts.len() == 1,
        end is Failed || end is Panicked ==> {
            let last = ended.ctl.emitted@.last()@;
            &&& last is Control && last->Control_0.kind is ProviderError
            &&& last->Control_0.kind->message == failure_of(end)->0
            &&& last->Control_0.kind->ProviderError_provider == pre.ctl.provider_id@
            &&& ended.ctl.emitted@.drop_last() == pre.ctl.emitted@
        },
{
    crate::event::law_stamping_changes_the_place_only(
        event@,
        SeqNo(pre.ctl.next_seq),
        event@.seq(),
    );
}

/// A live session ends where it is closed, where nobody can reach it any more
/// and where its provider's feed ends; a referrer that leaves while others stay
/// does not end it.
pub proof fn law_live_sessions_end_where_they_are_left(
    pre: LiveRun,
    ev: LiveEvent,
    pre_acct: AccountingView,
    post: LiveRun,
    post_acct: AccountingView,
    acts: Seq<LiveAction>,
)
    requires
        live_stepped(pre, ev, pre_acct, post, post_acct, acts),
    ensures
        ev == LiveEvent::Arrived(None) ==> acts.len() == 1 && acts[0] is TearDown,
        ev == LiveEvent::Removed(None) ==> acts.len() == 1 && acts[0] is TearDown,
        ev matches LiveEvent::Command(cmd) ==> {
            &&& cmd is Close ==> acts.len() == 3 && acts[0] is ShutDown && acts[1] is Answer
                && acts[2] is TearDown
            &&& cmd is HandleDropped ==> acts.len() == 1 && acts[0] is TearDown
            &&& cmd is SetPersistence ==> acts.len() >= 1 && acts[0] is Answer
        },
        (ev is Recorded || (ev matches LiveEvent::Removed(Some(id)))) && post.ctl.fanout is Some
            && post.ctl.fanout->0.subscribers@.len() > 0 ==> acts.len() == 0,
{
}

} // verus!
