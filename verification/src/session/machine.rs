//! Serving of planned segments as a machine: from what happened, to what is to
//! be done, in order.

use vstd::prelude::*;

use crate::accounting::{AccountingView, ProviderAccounting};
use crate::event::{EventView, MarketEvent, SeqNo, Timestamp};
use crate::request::{CacheKey, HistoryRequest, ReplayRequest};

use super::controller::{
    commanded, emits, in_step, same_session, CommandOutcome, Controller, SessionCommand,
};
use super::stream::{
    claimed_end, failure_of, gapped_end, FetchEnd, SegmentStep, SegmentStream, Work,
};
use super::segment::Segment;

verus! {

/// How serving the segments ended.
#[derive(Clone, Copy, Debug, PartialEq, Eq, Structural)]
pub enum SegmentOutcome {
    /// Every segment was served, or a failed fetch was reported and the rest
    /// abandoned.
    Done,
    /// The session was closed on the way.
    Closed,
}

/// What happened.
pub enum SegmentEvent {
    /// Go on with the next segment.
    Proceed,
    /// The cache could not open the replay.
    ReplayFailed,
    Replayed(MarketEvent),
    ReplayEnded,
    Fetched(MarketEvent),
    FetchEnded(FetchEnd),
    /// A live event arrived, or none will come any more.
    Live(Option<MarketEvent>),
    Command(SessionCommand),
    /// The session's handle is gone.
    SessionDropped,
}

/// What is to be done.
pub enum SegmentAction {
    OpenReplay { key: CacheKey, request: ReplayRequest },
    StartFetch(HistoryRequest),
    AbortFetch,
    /// Store the events and claim the key's range.
    Store { key: CacheKey, batch: Vec<MarketEvent> },
    /// Append to the tap log.
    Record(MarketEvent),
    /// Publish to the attached stream; if that rejects the event, hand it to
    /// `Controller::rejected`.
    Publish(MarketEvent),
    Answer(CommandOutcome),
    /// Announce the end of the session and flush its stores.
    ShutDown,
    /// Feed `Proceed` next.
    Again,
    Finish(SegmentOutcome),
}

/// What publishing takes: nothing where the event is delivered already.
pub open spec fn publishing(publish: Option<MarketEvent>) -> Seq<SegmentAction> {
    match publish {
        Some(ev) => seq![SegmentAction::Publish(ev)],
        None => seq![],
    }
}

fn push_publish(acts: &mut Vec<SegmentAction>, publish: Option<MarketEvent>)
    ensures
        final(acts)@ == old(acts)@ + publishing(publish),
{
    let ghost before = acts@;
    if let Some(ev) = publish {
        acts.push(SegmentAction::Publish(ev));
    }
    proof {
        assert(acts@ =~= before + publishing(publish));
    }
}

/// The state of a run: the segments and the session's controller.
pub struct SegmentRun {
    pub stream: SegmentStream,
    pub ctl: Controller,
}

/// A report is forwarded and the run goes on.
pub open spec fn reports_and_proceeds(
    pre: SegmentRun,
    post: SegmentRun,
    pre_acct: AccountingView,
    post_acct: AccountingView,
    event: EventView,
    consumer_open: bool,
    acts: Seq<SegmentAction>,
) -> bool {
    exists|publish: Option<MarketEvent>|
        {
            &&& #[trigger] emits(pre.ctl, event, consumer_open, post.ctl, publish)
            &&& acts == publishing(publish).push(SegmentAction::Again)
            &&& post_acct == pre_acct.forwarded(
                event.with_seq(SeqNo(pre.ctl.next_seq)),
                pre.ctl.fanout is Some,
            )
        }
}

/// An event is emitted, and nothing else happens to the session.
pub open spec fn emits_only(
    pre: SegmentRun,
    post: SegmentRun,
    event: EventView,
    consumer_open: bool,
    acts: Seq<SegmentAction>,
) -> bool {
    exists|publish: Option<MarketEvent>|
        #[trigger] emits(pre.ctl, event, consumer_open, post.ctl, publish) && acts == publishing(
            publish,
        )
}

/// What the end of a fetch leads to: what arrived is stored, a failure is
/// reported behind the gap that it leaves, and the run goes on.
pub open spec fn settles(
    pre: SegmentRun,
    post: SegmentRun,
    pre_acct: AccountingView,
    post_acct: AccountingView,
    end: FetchEnd,
    consumer_open: bool,
    acts: Seq<SegmentAction>,
) -> bool {
    let f = pre.stream.work->Fetch_0;
    let edge = pre.stream.edge;
    let failed = failure_of(end) is Some;
    let at = Timestamp(f.confirmed() as i64);
    let gap = pre.ctl.gap_report(at, at, Timestamp(gapped_end(f, edge) as i64));
    let error = pre.ctl.error_report(at, failure_of(end)->0);
    let head = if pre.stream.write_cache && pre.ctl.has_cache {
        1int
    } else {
        0
    };
    &&& acts.len() >= head
    &&& head == 1 ==> acts[0] is Store && acts[0]->Store_key == pre.ctl.key_of(
        f.from,
        Timestamp(claimed_end(f, edge, failed) as i64),
    ) && acts[0]->batch@ == f.batch@
    &&& !failed ==> acts.skip(head) == seq![SegmentAction::Again] && post.ctl == pre.ctl
        && post_acct == pre_acct
    &&& failed && f.confirmed() >= gapped_end(f, edge) ==> exists|publish: Option<MarketEvent>|
        #![trigger publishing(publish)]
        {
            &&&  emits(pre.ctl, error, consumer_open, post.ctl, publish)
            &&& acts.skip(head) == publishing(publish).push(SegmentAction::Again)
            &&& post_acct == pre_acct.forwarded(
                error.with_seq(SeqNo(pre.ctl.next_seq)),
                pre.ctl.fanout is Some,
            )
        }
    &&& failed && f.confirmed() < gapped_end(f, edge) ==> exists|
        mid: Controller,
        first: Option<MarketEvent>,
        second: Option<MarketEvent>,
    |
        #![trigger same_session(pre.ctl, mid), publishing(first), publishing(second)]
        {
            &&& same_session(pre.ctl, mid)
            &&& emits(pre.ctl, gap, consumer_open, mid, first)
            &&& emits(mid, error, consumer_open, post.ctl, second)
            &&& acts.skip(head) == (publishing(first) + publishing(second)).push(
                SegmentAction::Again,
            )
            &&& post_acct == pre_acct.forwarded(
                gap.with_seq(SeqNo(pre.ctl.next_seq)),
                pre.ctl.fanout is Some,
            ).forwarded(error.with_seq(SeqNo(mid.next_seq)), pre.ctl.fanout is Some)
        }
    &&& post.stream.work is Idle
    &&& post.stream.next == if failed {
        pre.stream.segments@.len()
    } else {
        pre.stream.next as nat
    }
}

/// What turning to the next segment leads to.
pub open spec fn proceeds(
    pre: SegmentRun,
    post: SegmentRun,
    pre_acct: AccountingView,
    post_acct: AccountingView,
    consumer_open: bool,
    acts: Seq<SegmentAction>,
) -> bool {
    if pre.stream.next == pre.stream.segments@.len() {
        &&& post == pre
        &&& post_acct == pre_acct
        &&& acts == seq![SegmentAction::Finish(SegmentOutcome::Done)]
    } else {
        &&& post.stream.next == pre.stream.next + 1
        &&& match pre.stream.segments@[pre.stream.next as int] {
            Segment::Covered { from, to } => if pre.ctl.has_cache {
                &&& post.ctl == pre.ctl
                &&& post_acct == pre_acct
                &&& post.stream.work == (Work::Replay { from, to })
                &&& acts.len() == 1
                &&& acts[0] is OpenReplay
                &&& acts[0]->OpenReplay_key == pre.ctl.key_of(from, to)
                &&& acts[0]->request.instruments@ == seq![pre.ctl.instrument]
                &&& acts[0]->request.kinds@ == seq![pre.ctl.kind]
                &&& acts[0]->request.from == from
                &&& acts[0]->request.to == to
            } else {
                &&& post.stream.work is Idle
                &&& reports_and_proceeds(
                    pre,
                    post,
                    pre_acct,
                    post_acct,
                    pre.ctl.gap_report(from, from, to),
                    consumer_open,
                    acts,
                )
            },
            Segment::Gap { from, to } => {
                &&& post.ctl == pre.ctl
                &&& post_acct == (AccountingView {
                    history_fetches: crate::accounting::bump(pre_acct.history_fetches),
                    ..pre_acct
                })
                &&& post.stream.work is Fetch
                &&& post.stream.work->Fetch_0.from == from
                &&& post.stream.work->Fetch_0.to == to
                &&& post.stream.work->Fetch_0.store == (pre.stream.write_cache && pre.ctl.has_cache)
                &&& post.stream.work->Fetch_0.seen@.len() == 0
                &&& acts == seq![SegmentAction::StartFetch(pre.ctl.fetch_of(from, to))]
            },
        }
    }
}

/// What a command leads to. Closing shuts the session down, answers, aborts
/// the fetch under way and ends the run.
pub open spec fn run_commanded(
    pre: SegmentRun,
    post: SegmentRun,
    cmd: SessionCommand,
    acts: Seq<SegmentAction>,
) -> bool {
    let aborts = if pre.stream.work is Fetch {
        seq![SegmentAction::AbortFetch]
    } else {
        seq![]
    };
    &&& post.stream == pre.stream
    &&& exists|outcome: CommandOutcome|
        {
            &&& #[trigger] commanded(pre.ctl, cmd, post.ctl, outcome)
            &&& acts == match outcome {
                CommandOutcome::ShutDown => seq![
                    SegmentAction::ShutDown,
                    SegmentAction::Answer(CommandOutcome::ShutDown),
                ] + aborts + seq![SegmentAction::Finish(SegmentOutcome::Closed)],
                CommandOutcome::Exit => aborts + seq![
                    SegmentAction::Finish(SegmentOutcome::Closed),
                ],
                _ => seq![SegmentAction::Answer(outcome)],
            }
        }
}

/// The run's steps: what each event leads to. Data that is replayed or fetched
/// is emitted and never recorded; live data that arrives meanwhile is recorded
/// at once and emitted later.
pub open spec fn run_stepped(
    pre: SegmentRun,
    ev: SegmentEvent,
    consumer_open: bool,
    pre_acct: AccountingView,
    post: SegmentRun,
    post_acct: AccountingView,
    acts: Seq<SegmentAction>,
) -> bool {
    &&& post.stream.same_stream(pre.stream)
    &&& !(ev is Live) ==> post.stream.pending == pre.stream.pending && post.stream.live_open
        == pre.stream.live_open
    &&& match ev {
        SegmentEvent::Proceed => if pre.stream.work is Idle {
            proceeds(pre, post, pre_acct, post_acct, consumer_open, acts)
        } else {
            post == pre && post_acct == pre_acct && acts.len() == 0
        },
        SegmentEvent::ReplayFailed => match pre.stream.work {
            Work::Replay { from, to } => {
                &&& post.stream.work is Idle
                &&& post.stream.next == pre.stream.next
                &&& reports_and_proceeds(
                    pre,
                    post,
                    pre_acct,
                    post_acct,
                    pre.ctl.gap_report(from, from, to),
                    consumer_open,
                    acts,
                )
            },
            _ => post == pre && post_acct == pre_acct && acts.len() == 0,
        },
        SegmentEvent::Replayed(event) => {
            &&& post.stream == pre.stream
            &&& post_acct == pre_acct
            &&& emits_only(pre, post, event@, consumer_open, acts)
        },
        SegmentEvent::ReplayEnded => {
            &&& post.ctl == pre.ctl
            &&& post_acct == pre_acct
            &&& pre.stream.work is Replay ==> post.stream.work is Idle && post.stream.next
                == pre.stream.next && acts == seq![SegmentAction::Again]
            &&& !(pre.stream.work is Replay) ==> post.stream == pre.stream && acts.len() == 0
        },
        SegmentEvent::Fetched(event) => {
            &&& post_acct == pre_acct
            &&& emits_only(pre, post, event@, consumer_open, acts)
            &&& match pre.stream.work {
                Work::Fetch(f) => {
                    &&& post.stream.next == pre.stream.next
                    &&& post.stream.work is Fetch
                    &&& post.stream.work->Fetch_0.seen@ == f.seen@.push(event)
                    &&& post.stream.work->Fetch_0.from == f.from
                    &&& post.stream.work->Fetch_0.to == f.to
                    &&& post.stream.work->Fetch_0.store == f.store
                },
                _ => post.stream == pre.stream,
            }
        },
        SegmentEvent::FetchEnded(end) => if pre.stream.work is Fetch {
            settles(pre, post, pre_acct, post_acct, end, consumer_open, acts)
        } else {
            post == pre && post_acct == pre_acct && acts.len() == 0
        },
        SegmentEvent::Live(arrival) => {
            &&& post.ctl == pre.ctl
            &&& post_acct == pre_acct
            &&& post.stream.work == pre.stream.work
            &&& post.stream.next == pre.stream.next
            &&& arrival matches Some(event) ==> {
                &&& acts == if pre.ctl.records(event@) {
                    seq![SegmentAction::Record(event)]
                } else {
                    seq![]
                }
                &&& post.stream.live_open == pre.stream.live_open
                &&& match pre.stream.pending {
                    Some(ring) => post.stream.pending is Some && post.stream.pending->0@
                        == ring@.pushed(event),
                    None => post.stream.pending is None,
                }
            }
            &&& arrival is None ==> !post.stream.live_open && post.stream.pending
                == pre.stream.pending && acts.len() == 0
        },
        SegmentEvent::Command(cmd) => {
            &&& post_acct == pre_acct
            &&& run_commanded(pre, post, cmd, acts)
        },
        SegmentEvent::SessionDropped => {
            &&& post == pre
            &&& post_acct == pre_acct
            &&& acts == (if pre.stream.work is Fetch {
                seq![SegmentAction::AbortFetch]
            } else {
                seq![]
            }) + seq![
                SegmentAction::ShutDown,
                SegmentAction::Finish(SegmentOutcome::Closed),
            ]
        },
    }
}

impl SegmentRun {
    /// A fetch keeps what arrives exactly where it is to be stored.
    pub open spec fn wf(self) -> bool {
        &&& self.stream.wf()
        &&& self.ctl.wf()
        &&& in_step(self.ctl)
        &&& self.stream.work matches Work::Fetch(f) ==> f.store == self.stores()
    }

    /// Whether what is fetched is to be stored.
    pub open spec fn stores(self) -> bool {
        self.stream.write_cache && self.ctl.has_cache
    }

    fn report(
        &mut self,
        accounting: &mut ProviderAccounting,
        event: MarketEvent,
        consumer_open: bool,
    ) -> (acts: Vec<SegmentAction>)
        requires
            old(self).wf(),
            old(self).ctl.next_seq < u64::MAX,
            event@ is Control,
        ensures
            final(self).wf(),
            final(self).stream == old(self).stream,
            reports_and_proceeds(
                *old(self),
                *final(self),
                old(accounting)@,
                final(accounting)@,
                event@,
                consumer_open,
                acts@,
            ),
    {
        let publish = self.ctl.forward_control(accounting, event, consumer_open);
        let mut acts: Vec<SegmentAction> = Vec::new();
        let ghost p = publish;
        push_publish(&mut acts, publish);
        acts.push(SegmentAction::Again);
        proof {
            assert(acts@ =~= publishing(p).push(SegmentAction::Again));
        }
        acts
    }

    fn proceed(&mut self, accounting: &mut ProviderAccounting, consumer_open: bool) -> (acts: Vec<
        SegmentAction,
    >)
        requires
            old(self).wf(),
            old(self).stream.work is Idle,
            old(self).ctl.next_seq < u64::MAX,
        ensures
            final(self).wf(),
            final(self).stream.same_stream(old(self).stream),
            final(self).stream.pending == old(self).stream.pending,
            final(self).stream.live_open == old(self).stream.live_open,
            proceeds(
                *old(self),
                *final(self),
                old(accounting)@,
                final(accounting)@,
                consumer_open,
                acts@,
            ),
    {
        let ghost pre = *self;
        let ghost acct = accounting@;
        let step = self.stream.advance(&self.ctl, accounting);
        match step {
            SegmentStep::ReportGap(event) => {
                let ghost mid = *self;
                let acts = self.report(accounting, event, consumer_open);
                proof {
                    let publish = choose|publish: Option<MarketEvent>|
                        {
                            &&& #[trigger] emits(
                                mid.ctl,
                                event@,
                                consumer_open,
                                self.ctl,
                                publish,
                            )
                            &&& acts@ == publishing(publish).push(SegmentAction::Again)
                        };
                    assert(emits(pre.ctl, event@, consumer_open, self.ctl, publish));
                }
                acts
            },
            SegmentStep::Done => {
                let acts = vec![SegmentAction::Finish(SegmentOutcome::Done)];
                proof {
                    assert(acts@ =~= seq![SegmentAction::Finish(SegmentOutcome::Done)]);
                }
                acts
            },
            SegmentStep::OpenReplay { key, request } => {
                let mut acts: Vec<SegmentAction> = Vec::new();
                acts.push(SegmentAction::OpenReplay { key, request });
                acts
            },
            SegmentStep::StartFetch(request) => {
                let ghost r = request;
                let mut acts: Vec<SegmentAction> = Vec::new();
                acts.push(SegmentAction::StartFetch(request));
                proof {
                    assert(acts@ =~= seq![SegmentAction::StartFetch(r)]);
                }
                acts
            },
        }
    }

    fn settle(
        &mut self,
        accounting: &mut ProviderAccounting,
        end: FetchEnd,
        consumer_open: bool,
    ) -> (acts: Vec<SegmentAction>)
        requires
            old(self).wf(),
            old(self).stream.work is Fetch,
            old(self).ctl.next_seq + 2 <= u64::MAX,
        ensures
            final(self).wf(),
            final(self).stream.same_stream(old(self).stream),
            final(self).stream.pending == old(self).stream.pending,
            final(self).stream.live_open == old(self).stream.live_open,
            settles(
                *old(self),
                *final(self),
                old(accounting)@,
                final(accounting)@,
                end,
                consumer_open,
                acts@,
            ),
    {
        let ghost pre = *self;
        let settlement = self.stream.fetch_finished(&self.ctl, end);
        let mut acts: Vec<SegmentAction> = Vec::new();
        if let Some((key, batch)) = settlement.store {
            acts.push(SegmentAction::Store { key, batch });
        }
        let ghost head = acts@;
        let ghost n = acts@.len() as int;
        let ghost mut first: Option<MarketEvent> = None;
        let ghost has_gap = settlement.gap is Some;
        if let Some(gap) = settlement.gap {
            let publish = self.ctl.forward_control(accounting, gap, consumer_open);
            proof {
                first = publish;
            }
            push_publish(&mut acts, publish);
        }
        let ghost mid = self.ctl;
        let ghost upto = acts@;
        proof {
            assert(upto =~= head + publishing(first));
        }
        if let Some(error) = settlement.error {
            let ghost e = error@;
            let publish = self.ctl.forward_control(accounting, error, consumer_open);
            let ghost second = publish;
            push_publish(&mut acts, publish);
            acts.push(SegmentAction::Again);
            proof {
                assert(acts@.skip(n) =~= (publishing(first) + publishing(second)).push(
                    SegmentAction::Again,
                ));
                assert(emits(mid, e, consumer_open, self.ctl, second));
                if !has_gap {
                    assert(publishing(first) + publishing(second) =~= publishing(second));
                    assert(mid == pre.ctl);
                }
            }
        } else {
            acts.push(SegmentAction::Again);
            proof {
                assert(publishing(first) =~= seq![]);
                assert(acts@.skip(n) =~= seq![SegmentAction::Again]);
            }
        }
        acts
    }

    fn abort(&self) -> (acts: Vec<SegmentAction>)
        ensures
            acts@ == if self.stream.work is Fetch {
                seq![SegmentAction::AbortFetch]
            } else {
                seq![]
            },
    {
        let mut acts: Vec<SegmentAction> = Vec::new();
        if self.stream.fetching() {
            acts.push(SegmentAction::AbortFetch);
        }
        proof {
            if self.stream.work is Fetch {
                assert(acts@ =~= seq![SegmentAction::AbortFetch]);
            } else {
                assert(acts@ =~= seq![]);
            }
        }
        acts
    }

    fn on_command(&mut self, cmd: SessionCommand) -> (acts: Vec<SegmentAction>)
        requires
            old(self).wf(),
        ensures
            final(self).wf(),
            final(self).stream == old(self).stream,
            run_commanded(*old(self), *final(self), cmd, acts@),
    {
        let mut aborts = self.abort();
        let ghost tail = aborts@;
        let ghost pre = *self;
        let outcome = self.ctl.handle_command(cmd);
        let ghost result = outcome;
        let mut acts: Vec<SegmentAction> = Vec::new();
        match outcome {
            CommandOutcome::ShutDown => {
                acts.push(SegmentAction::ShutDown);
                acts.push(SegmentAction::Answer(CommandOutcome::ShutDown));
                acts.append(&mut aborts);
                acts.push(SegmentAction::Finish(SegmentOutcome::Closed));
                proof {
                    assert(acts@ =~= seq![
                        SegmentAction::ShutDown,
                        SegmentAction::Answer(CommandOutcome::ShutDown),
                    ] + tail + seq![SegmentAction::Finish(SegmentOutcome::Closed)]);
                }
            },
            CommandOutcome::Exit => {
                acts.append(&mut aborts);
                acts.push(SegmentAction::Finish(SegmentOutcome::Closed));
                proof {
                    assert(acts@ =~= tail + seq![SegmentAction::Finish(SegmentOutcome::Closed)]);
                }
            },
            other => {
                acts.push(SegmentAction::Answer(other));
                proof {
                    assert(acts@ =~= seq![SegmentAction::Answer(result)]);
                }
            },
        }
        proof {
            assert(commanded(pre.ctl, cmd, self.ctl, result));
        }
        acts
    }

    /// Take one step.
    pub fn step(
        &mut self,
        accounting: &mut ProviderAccounting,
        ev: SegmentEvent,
        consumer_open: bool,
    ) -> (acts: Vec<SegmentAction>)
        requires
            old(self).wf(),
            old(self).ctl.next_seq + 2 <= u64::MAX,
        ensures
            final(self).wf(),
            run_stepped(
                *old(self),
                ev,
                consumer_open,
                old(accounting)@,
                *final(self),
                final(accounting)@,
                acts@,
            ),
    {
        let ghost pre = *self;
        let mut acts: Vec<SegmentAction> = Vec::new();
        match ev {
            SegmentEvent::Proceed => {
                if let Work::Idle = &self.stream.work {
                    return self.proceed(accounting, consumer_open);
                }
            },
            SegmentEvent::ReplayFailed => {
                if let Some(event) = self.stream.replay_failed(&self.ctl) {
                    let acts = self.report(accounting, event, consumer_open);
                    proof {
                        let publish = choose|publish: Option<MarketEvent>|
                            {
                                &&& #[trigger] emits(
                                    pre.ctl,
                                    event@,
                                    consumer_open,
                                    self.ctl,
                                    publish,
                                )
                                &&& acts@ == publishing(publish).push(SegmentAction::Again)
                            };
                        assert(emits(pre.ctl, event@, consumer_open, self.ctl, publish));
                    }
                    return acts;
                }
            },
            SegmentEvent::Replayed(event) => {
                let publish = self.ctl.emit(event, consumer_open);
                let ghost p = publish;
                push_publish(&mut acts, publish);
                proof {
                    assert(acts@ =~= publishing(p));
                }
            },
            SegmentEvent::ReplayEnded => {
                if let Work::Replay { .. } = &self.stream.work {
                    self.stream.replay_finished();
                    acts.push(SegmentAction::Again);
                    proof {
                        assert(acts@ =~= seq![SegmentAction::Again]);
                    }
                }
            },
            SegmentEvent::Fetched(event) => {
                self.stream.fetched(&event);
                let publish = self.ctl.emit(event, consumer_open);
                let ghost p = publish;
                push_publish(&mut acts, publish);
                proof {
                    assert(acts@ =~= publishing(p));
                }
            },
            SegmentEvent::FetchEnded(end) => {
                if self.stream.fetching() {
                    return self.settle(accounting, end, consumer_open);
                }
            },
            SegmentEvent::Live(arrival) => {
                if let Some(event) = &arrival {
                    if self.ctl.should_tee(event) {
                        acts.push(SegmentAction::Record(event.clone()));
                    }
                    proof {
                        if pre.ctl.records(event@) {
                            assert(acts@ =~= seq![SegmentAction::Record(*event)]);
                        } else {
                            assert(acts@ =~= seq![]);
                        }
                    }
                }
                self.stream.live_arrival(arrival);
            },
            SegmentEvent::Command(cmd) => {
                return self.on_command(cmd);
            },
            SegmentEvent::SessionDropped => {
                acts = self.abort();
                let ghost head = acts@;
                acts.push(SegmentAction::ShutDown);
                acts.push(SegmentAction::Finish(SegmentOutcome::Closed));
                proof {
                    assert(acts@ =~= head + seq![
                        SegmentAction::ShutDown,
                        SegmentAction::Finish(SegmentOutcome::Closed),
                    ]);
                }
            },
        }
        acts
    }
}

/// Replayed and fetched data never reaches the tap log: only live arrivals
/// are recorded.
pub proof fn law_only_live_data_is_recorded(
    pre: SegmentRun,
    ev: SegmentEvent,
    consumer_open: bool,
    pre_acct: AccountingView,
    post: SegmentRun,
    post_acct: AccountingView,
    acts: Seq<SegmentAction>,
    i: int,
)
    requires
        run_stepped(pre, ev, consumer_open, pre_acct, post, post_acct, acts),
        0 <= i < acts.len(),
        acts[i] is Record,
    ensures
        ev is Live,
{
    match ev {
        SegmentEvent::FetchEnded(end) => {
            if pre.stream.work is Fetch {
                let head = if pre.stream.write_cache && pre.ctl.has_cache {
                    1int
                } else {
                    0
                };
                let rest = acts.skip(head);
                assert(settles(pre, post, pre_acct, post_acct, end, consumer_open, acts));
                if i < head {
                    assert(acts[0] is Store);
                } else {
                    assert(rest[i - head] == acts[i]);
                    assert forall|j: int| 0 <= j < rest.len() implies !(rest[j] is Record) by {}
                }
            }
        },
        SegmentEvent::Command(cmd) => {
            assert(run_commanded(pre, post, cmd, acts));
        },
        SegmentEvent::Proceed => {
            assert(pre.stream.work is Idle ==> proceeds(
                pre,
                post,
                pre_acct,
                post_acct,
                consumer_open,
                acts,
            ));
        },
        _ => {},
    }
}

/// Whether the run took a fetched event.
pub open spec fn took(pre: SegmentRun, event: MarketEvent, post: SegmentRun) -> bool {
    exists|
        consumer_open: bool,
        pre_acct: AccountingView,
        post_acct: AccountingView,
        acts: Seq<SegmentAction>,
    | #[trigger]
        run_stepped(
            pre,
            SegmentEvent::Fetched(event),
            consumer_open,
            pre_acct,
            post,
            post_acct,
            acts,
        )
}

/// The states of a run that took the events one behind the other.
pub open spec fn took_all(states: Seq<SegmentRun>, events: Seq<MarketEvent>) -> bool {
    &&& states.len() == events.len() + 1
    &&& forall|i: int|
        0 <= i < events.len() ==> took(#[trigger] states[i], events[i], states[i + 1])
}

proof fn lemma_taken_events_are_kept(states: Seq<SegmentRun>, events: Seq<MarketEvent>, k: int)
    requires
        took_all(states, events),
        states[0].stream.work is Fetch,
        states[0].stream.work->Fetch_0.seen@.len() == 0,
        0 <= k <= events.len(),
    ensures
        states[k].stream.work is Fetch,
        states[k].stream.work->Fetch_0.seen@ == events.take(k),
        states[k].stream.work->Fetch_0.from == states[0].stream.work->Fetch_0.from,
        states[k].stream.work->Fetch_0.to == states[0].stream.work->Fetch_0.to,
        states[k].stream.edge == states[0].stream.edge,
        states[k].stores() == states[0].stores(),
        same_session(states[0].ctl, states[k].ctl),
    decreases k,
{
    if k == 0 {
        assert(states[0].stream.work->Fetch_0.seen@ =~= events.take(0));
    } else {
        lemma_taken_events_are_kept(states, events, k - 1);
        assert(took(states[k - 1], events[k - 1], states[k]));
        assert(events.take(k) =~= events.take(k - 1).push(events[k - 1]));
    }
}

/// What a fetch delivered is what is stored, over the range that is claimed:
/// once a fetch that took the events has ended, it is the events, all of them
/// and in order, that go to the cache.
pub proof fn law_what_was_fetched_is_stored(
    states: Seq<SegmentRun>,
    events: Seq<MarketEvent>,
    end: FetchEnd,
    consumer_open: bool,
    pre_acct: AccountingView,
    post: SegmentRun,
    post_acct: AccountingView,
    acts: Seq<SegmentAction>,
)
    requires
        took_all(states, events),
        states[0].stream.work is Fetch,
        states[0].stream.work->Fetch_0.seen@.len() == 0,
        states[0].stores(),
        states.last().wf(),
        run_stepped(
            states.last(),
            SegmentEvent::FetchEnded(end),
            consumer_open,
            pre_acct,
            post,
            post_acct,
            acts,
        ),
    ensures
        ({
            let f = states[0].stream.work->Fetch_0;
            let last = states.last().stream.work->Fetch_0;
            &&& acts.len() > 0
            &&& acts[0] is Store
            &&& acts[0]->batch@ == events
            &&& last.seen@ == events
            &&& acts[0]->Store_key == states[0].ctl.key_of(
                f.from,
                Timestamp(
                    claimed_end(last, states[0].stream.edge, failure_of(end) is Some) as i64,
                ),
            )
        }),
{
    lemma_taken_events_are_kept(states, events, events.len() as int);
    assert(events.take(events.len() as int) =~= events);
    assert(states.last() == states[events.len() as int]);
}

/// Live data that arrives while history is still served is recorded as it came,
/// be it a trade, a quote or a bar, and waits behind what arrived before it.
pub proof fn law_live_data_is_recorded_while_history_is_served(
    pre: SegmentRun,
    event: MarketEvent,
    consumer_open: bool,
    pre_acct: AccountingView,
    post: SegmentRun,
    post_acct: AccountingView,
    acts: Seq<SegmentAction>,
)
    requires
        run_stepped(
            pre,
            SegmentEvent::Live(Some(event)),
            consumer_open,
            pre_acct,
            post,
            post_acct,
            acts,
        ),
    ensures
        pre.ctl.scope is Live && pre.ctl.has_tap_log && pre.ctl.persistence.write_tap_log && (
        event@ is Trade || event@ is Quote || event@ is Bar) ==> acts.len() == 1 && acts[0]
            == SegmentAction::Record(event),
        event@ is Control ==> acts.len() == 0,
        post.ctl == pre.ctl,
        pre.stream.pending matches Some(ring) ==> (ring@.buf.len() < ring@.capacity
            ==> post.stream.pending->0@.buf == ring@.buf.push(event)),
{
}

/// The next segment of a range is served as it is: what the cache covers is
/// replayed over exactly its range, and what is missing is fetched over exactly
/// its range, for the session's own instrument, kind and mode.
pub proof fn law_segments_are_served_over_their_range(
    pre: SegmentRun,
    consumer_open: bool,
    pre_acct: AccountingView,
    post: SegmentRun,
    post_acct: AccountingView,
    acts: Seq<SegmentAction>,
    from: Timestamp,
    to: Timestamp,
)
    requires
        pre.stream.work is Idle,
        pre.stream.next < pre.stream.segments@.len(),
        run_stepped(
            pre,
            SegmentEvent::Proceed,
            consumer_open,
            pre_acct,
            post,
            post_acct,
            acts,
        ),
    ensures
        pre.stream.segments@[pre.stream.next as int] == (Segment::Covered { from, to })
            && pre.ctl.has_cache ==> {
            &&& acts.len() == 1 && acts[0] is OpenReplay
            &&& acts[0]->OpenReplay_key.instrument == pre.ctl.instrument
            &&& acts[0]->OpenReplay_key.kind == pre.ctl.kind
            &&& acts[0]->OpenReplay_key.adjustment == pre.ctl.adjustment
            &&& acts[0]->OpenReplay_key.from == from && acts[0]->OpenReplay_key.to == to
            &&& acts[0]->request.from == from && acts[0]->request.to == to
            &&& post_acct == pre_acct
        },
        pre.stream.segments@[pre.stream.next as int] == (Segment::Gap { from, to }) ==> {
            &&& acts.len() == 1 && acts[0] is StartFetch
            &&& acts[0]->StartFetch_0.instrument == pre.ctl.instrument
            &&& acts[0]->StartFetch_0.kind == pre.ctl.kind
            &&& acts[0]->StartFetch_0.adjustment == pre.ctl.adjustment
            &&& acts[0]->StartFetch_0.from == from && acts[0]->StartFetch_0.to == to
        },
{
}

/// What is replayed and what is fetched is delivered as it came, under the next
/// place, and never recorded.
pub proof fn law_history_is_delivered_as_it_came(
    pre: SegmentRun,
    event: MarketEvent,
    fetched: bool,
    consumer_open: bool,
    pre_acct: AccountingView,
    post: SegmentRun,
    post_acct: AccountingView,
    acts: Seq<SegmentAction>,
)
    requires
        run_stepped(
            pre,
            if fetched {
                SegmentEvent::Fetched(event)
            } else {
                SegmentEvent::Replayed(event)
            },
            consumer_open,
            pre_acct,
            post,
            post_acct,
            acts,
        ),
    ensures
        post.ctl.emitted@.drop_last() == pre.ctl.emitted@,
        post.ctl.emitted@.last()@.with_seq(event@.seq()) == event@,
        post.ctl.emitted@.last()@.seq().0 == pre.ctl.next_seq,
        pre.ctl.fanout is Some ==> acts.len() == 0 && post.ctl.fanout->0.delivered@
            == pre.ctl.fanout->0.delivered@.push(post.ctl.emitted@.last()),
        forall|i: int| 0 <= i < acts.len() ==> acts[i] == SegmentAction::Publish(
            post.ctl.emitted@.last(),
        ),
{
    crate::event::law_stamping_changes_the_place_only(
        event@,
        SeqNo(pre.ctl.next_seq),
        event@.seq(),
    );
}

/// A fetch that fails is never silent: what it leaves out is reported as a gap
/// from the end of what is confirmed on, up to the live edge where there is
/// one, and the provider's message behind it; the rest is not served.
pub proof fn law_failed_fetches_are_reported(
    pre: SegmentRun,
    end: FetchEnd,
    consumer_open: bool,
    pre_acct: AccountingView,
    post: SegmentRun,
    post_acct: AccountingView,
    acts: Seq<SegmentAction>,
)
    requires
        pre.stream.wf(),
        pre.stream.work is Fetch,
        end is Failed,
        pre.stream.edge matches Some(e) ==> pre.stream.work->Fetch_0.to.0 <= e.0,
        run_stepped(
            pre,
            SegmentEvent::FetchEnded(end),
            consumer_open,
            pre_acct,
            post,
            post_acct,
            acts,
        ),
    ensures
        ({
            let f = pre.stream.work->Fetch_0;
            let n = pre.ctl.emitted@.len();
            let last = post.ctl.emitted@.last()@;
            let stop = match pre.stream.edge {
                Some(e) => e.0,
                None => f.to.0,
            };
            &&& last is Control && last->Control_0.kind is ProviderError
            &&& last->Control_0.kind->ProviderError_provider == pre.ctl.provider_id@
            &&& last->Control_0.kind->message == failure_of(end)->0
            &&& f.confirmed() < stop ==> {
                let gap = post.ctl.emitted@[n as int]@;
                &&& post.ctl.emitted@.len() == n + 2
                &&& gap is Control && gap->Control_0.kind is Gap
                &&& gap->Control_0.kind->Gap_instrument == pre.ctl.instrument@
                &&& gap->Control_0.kind->Gap_span.from_source_ts.0 == f.confirmed()
                &&& gap->Control_0.kind->Gap_span.to_source_ts.0 == stop
            }
            &&& post.stream.next == pre.stream.segments@.len()
        }),
{
    let f = pre.stream.work->Fetch_0;
    super::stream::law_failed_fetch_is_accounted_for(f, pre.stream.edge);
    super::stream::law_only_failures_are_reported(end, seq![], seq![]);
    assert(failure_of(end) is Some);
    if f.confirmed() < gapped_end(f, pre.stream.edge) {
        let at = Timestamp(f.confirmed() as i64);
        let gap = pre.ctl.gap_report(
            at,
            at,
            Timestamp(gapped_end(f, pre.stream.edge) as i64),
        );
        let error = pre.ctl.error_report(at, failure_of(end)->0);
        let (mid, first, second) = choose|
            mid: Controller,
            first: Option<MarketEvent>,
            second: Option<MarketEvent>,
        |
            #![trigger same_session(pre.ctl, mid), publishing(first), publishing(second)]
            {
                &&& same_session(pre.ctl, mid)
                &&& emits(pre.ctl, gap, consumer_open, mid, first)
                &&& emits(mid, error, consumer_open, post.ctl, second)
                &&& acts.skip(
                    if pre.stream.write_cache && pre.ctl.has_cache {
                        1int
                    } else {
                        0
                    },
                ) == (publishing(first) + publishing(second)).push(SegmentAction::Again)
                &&& post_acct == pre_acct.forwarded(
                    gap.with_seq(SeqNo(pre.ctl.next_seq)),
                    pre.ctl.fanout is Some,
                ).forwarded(error.with_seq(SeqNo(mid.next_seq)), pre.ctl.fanout is Some)
            };
        assert(mid.emitted@ == post.ctl.emitted@.drop_last());
        assert(post.ctl.emitted@[pre.ctl.emitted@.len() as int] == mid.emitted@.last());
    }
}

} // verus!
