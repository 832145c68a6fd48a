//! The crypto hub as a machine: one connection shared by all sessions, its
//! events routed to the sessions that subscribed them.

use vstd::prelude::*;

use crate::error::Error;
use crate::event::{
    BarInterval, ControlKindView, EventKind, EventView, MarketEvent, SeqNo, Timestamp,
};
use crate::session::options::ReconnectPolicy;
use crate::table::{pair_of, Pair};

use super::alpaca_crypto::{
    all_sinks, disconnected, subscription_report, translate_crypto_message, CryptoListView,
    CryptoStreamMessage, CryptoSubscriptionList, HubTask, SinkId, PROVIDER_ID,
};
use super::symbols::symbols_in;
use super::link::{
    chained, error_chain, next_backoff, provider_failure, while_retrying, Backoff, LiveCommand,
    WhileDown,
};

verus! {

/// Where the hub stands.
pub enum HubPhase {
    Connecting,
    /// The subscriptions are being applied to a new connection.
    Resubscribing,
    Running,
    /// The server has been asked for a pair.
    Adding(Pair),
    /// The server has been asked to remove a pair.
    Removing(Pair),
    /// Waiting before the next attempt.
    Retrying,
    Exited,
}

/// What a session asks of the hub.
pub enum HubCommand {
    Subscribe { pair: Pair, sink: SinkId },
    Unsubscribe { pair: Pair },
    /// No session can ask for anything any more.
    HandlesDropped,
}

/// What happened. Failures come as the texts of an error and of its causes.
pub enum HubEvent {
    Connected,
    ConnectFailed { causes: Vec<String> },
    /// The server answered a request, refusing it where there are causes.
    Answered { refusal: Option<Vec<String>> },
    Command(HubCommand),
    Message(CryptoStreamMessage),
    StreamFailed { causes: Vec<String> },
    DelayOver,
}

/// What is to be done.
pub enum HubAction {
    Connect,
    /// Send the event to each of the sinks.
    Send { to: Vec<SinkId>, event: MarketEvent },
    /// Ask the server for everything on the list.
    Add(CryptoSubscriptionList),
    /// Ask the server to remove what is on the list.
    Remove(CryptoSubscriptionList),
    /// Answer the subscription change.
    Reply(Result<(), Error>),
    CloseSocket,
    DropSocket,
    Sleep { ms: u64 },
    Exit,
}

/// The hub.
pub struct HubMachine {
    pub task: HubTask,
    pub phase: HubPhase,
}

/// The event goes to every sink.
pub open spec fn broadcast(act: HubAction, hub: HubMachine, event: EventView) -> bool {
    act is Send && act->to@ == all_sinks(hub.task.routes.rows@) && act->event@ == event
}

/// The event goes to one sink.
pub open spec fn sent_to(act: HubAction, sink: SinkId, event: EventView) -> bool {
    act is Send && act->to@ == seq![sink] && act->event@ == event
}

pub open spec fn hub_moved(pre: HubMachine, post: HubMachine, phase: HubPhase) -> bool {
    post == (HubMachine { phase, ..pre })
}

pub open spec fn hub_refused(act: HubAction, message: Seq<char>) -> bool {
    act is Reply && act->Reply_0 is Err && act->Reply_0->Err_0@ == provider_failure(
        PROVIDER_ID@,
        message,
    )
}

/// What follows a lost connection: every sink is told, and the hub waits one
/// step of its ladder.
pub open spec fn hub_lost(
    pre: HubMachine,
    post: HubMachine,
    acts: Seq<HubAction>,
    now: Timestamp,
    reason: Seq<char>,
    drops_socket: bool,
) -> bool {
    let k: int = if drops_socket {
        2
    } else {
        1
    };
    &&& post.phase is Retrying
    &&& post.task.routes == pre.task.routes
    &&& post.task.subs == pre.task.subs
    &&& post.task.backoff.policy == pre.task.backoff.policy
    &&& post.task.backoff.current_ms == next_backoff(
        pre.task.backoff.current_ms as int,
        pre.task.backoff.policy.max_backoff_ms as int,
    )
    &&& acts.len() == k + 1
    &&& broadcast(acts[0], pre, disconnected(now, reason))
    &&& drops_socket ==> acts[1] is DropSocket
    &&& acts[k] == (HubAction::Sleep { ms: pre.task.backoff.current_ms })
}

/// What a session's command leads to.
pub open spec fn hub_commanded(
    pre: HubMachine,
    post: HubMachine,
    acts: Seq<HubAction>,
    cmd: HubCommand,
) -> bool {
    match pre.phase {
        HubPhase::Running => match cmd {
            HubCommand::Subscribe { pair, sink } => {
                &&& post.phase == HubPhase::Adding(pair)
                &&& post.task.backoff == pre.task.backoff
                &&& post.task.routes@ == pre.task.routes@.insert(pair@, sink)
                &&& post.task.subs@ == pre.task.subs@.applied(
                    pair.instrument@.symbol,
                    pair.kind,
                    true,
                )
                &&& acts.len() == 1 && acts[0] is Add && acts[0]->Add_0@ == post.task.subs@
            },
            HubCommand::Unsubscribe { pair } => {
                &&& post.phase == HubPhase::Removing(pair)
                &&& post.task.backoff == pre.task.backoff
                &&& post.task.routes == pre.task.routes
                &&& post.task.subs@ == pre.task.subs@.applied(
                    pair.instrument@.symbol,
                    pair.kind,
                    false,
                )
                &&& acts.len() == 1 && acts[0] is Remove && acts[0]->Remove_0@
                    == CryptoListView::empty().applied(pair.instrument@.symbol, pair.kind, true)
            },
            HubCommand::HandlesDropped => {
                &&& hub_moved(pre, post, HubPhase::Exited)
                &&& acts.len() == 2 && acts[0] is CloseSocket && acts[1] is Exit
            },
        },
        HubPhase::Retrying => match cmd {
            HubCommand::HandlesDropped => {
                &&& hub_moved(pre, post, HubPhase::Exited)
                &&& acts.len() == 1 && acts[0] is Exit
            },
            _ => {
                &&& hub_moved(pre, post, HubPhase::Connecting)
                &&& acts.len() == 2 && hub_refused(acts[0], "provider is reconnecting"@)
                    && acts[1] is Connect
            },
        },
        _ => post == pre && acts.len() == 0,
    }
}

/// What the server's answer leads to.
pub open spec fn hub_answered(
    pre: HubMachine,
    post: HubMachine,
    acts: Seq<HubAction>,
    refusal: Option<Vec<String>>,
    now: Timestamp,
) -> bool {
    match pre.phase {
        HubPhase::Resubscribing => {
            &&& hub_moved(pre, post, HubPhase::Running)
            &&& refusal is None ==> acts.len() == 0
            &&& refusal matches Some(causes) ==> acts.len() == 1 && broadcast(
                acts[0],
                pre,
                EventView::control(
                    now,
                    SeqNo(0),
                    ControlKindView::ProviderError {
                        provider: PROVIDER_ID@,
                        message: "re-subscribe failed: "@ + chained(causes@),
                    },
                ),
            )
        },
        HubPhase::Adding(pair) => {
            &&& post.phase is Running
            &&& post.task.backoff == pre.task.backoff
            &&& refusal is None ==> {
                &&& post.task == pre.task
                &&& pre.task.routes@.contains_key(pair@) ==> acts.len() == 2 && sent_to(
                    acts[0],
                    pre.task.routes@[pair@],
                    subscription_report(now, pair, true),
                )
                &&& !pre.task.routes@.contains_key(pair@) ==> acts.len() == 1
                &&& acts.last() is Reply && acts.last()->Reply_0 is Ok
            }
            &&& refusal matches Some(causes) ==> {
                &&& post.task.routes@ == pre.task.routes@.remove(pair@)
                &&& post.task.subs@ == pre.task.subs@.applied(
                    pair.instrument@.symbol,
                    pair.kind,
                    false,
                )
                &&& acts.len() == 1
                &&& hub_refused(acts[0], "add_subscriptions"@ + ": "@ + chained(causes@))
            }
        },
        HubPhase::Removing(pair) => {
            &&& post.phase is Running
            &&& post.task.backoff == pre.task.backoff
            &&& refusal is None ==> {
                &&& post.task.routes@ == pre.task.routes@.remove(pair@)
                &&& post.task.subs == pre.task.subs
                &&& pre.task.routes@.contains_key(pair@) ==> acts.len() == 2 && sent_to(
                    acts[0],
                    pre.task.routes@[pair@],
                    subscription_report(now, pair, false),
                )
                &&& !pre.task.routes@.contains_key(pair@) ==> acts.len() == 1
                &&& acts.last() is Reply && acts.last()->Reply_0 is Ok
            }
            &&& refusal matches Some(causes) ==> {
                &&& post.task.routes == pre.task.routes
                &&& post.task.subs@ == pre.task.subs@.applied(
                    pair.instrument@.symbol,
                    pair.kind,
                    true,
                )
                &&& acts.len() == 1
                &&& hub_refused(acts[0], "remove_subscriptions"@ + ": "@ + chained(causes@))
            }
        },
        _ => post == pre && acts.len() == 0,
    }
}

/// Whom an event reaches: a data event the sink of its pair, if there is one,
/// and a control every sink.
pub open spec fn audience_of(hub: HubMachine, ev: EventView) -> Seq<SinkId> {
    match pair_of(ev) {
        Some(pair) => if hub.task.routes@.contains_key(pair) {
            seq![hub.task.routes@[pair]]
        } else {
            seq![]
        },
        None => all_sinks(hub.task.routes.rows@),
    }
}

/// The hub's steps: what each event leads to in each phase.
pub open spec fn hub_stepped(
    pre: HubMachine,
    ev: HubEvent,
    now: Timestamp,
    post: HubMachine,
    acts: Seq<HubAction>,
) -> bool {
    match ev {
        HubEvent::Connected => if pre.phase is Connecting {
            &&& post.task.routes == pre.task.routes
            &&& post.task.subs == pre.task.subs
            &&& post.task.backoff == (Backoff {
                current_ms: pre.task.backoff.policy.initial_backoff_ms,
                ..pre.task.backoff
            })
            &&& acts.len() >= 1
            &&& broadcast(
                acts[0],
                pre,
                EventView::control(
                    now,
                    SeqNo(0),
                    ControlKindView::ProviderConnected { provider: PROVIDER_ID@ },
                ),
            )
            &&& if pre.task.subs@.is_empty() {
                post.phase is Running && acts.len() == 1
            } else {
                post.phase is Resubscribing && acts.len() == 2 && acts[1] is Add && acts[1]->Add_0@
                    == pre.task.subs@
            }
        } else {
            post == pre && acts.len() == 0
        },
        HubEvent::ConnectFailed { causes } => if pre.phase is Connecting {
            hub_lost(pre, post, acts, now, "connect failed: "@ + chained(causes@), false)
        } else {
            post == pre && acts.len() == 0
        },
        HubEvent::Answered { refusal } => hub_answered(pre, post, acts, refusal, now),
        HubEvent::Command(cmd) => hub_commanded(pre, post, acts, cmd),
        HubEvent::Message(msg) => {
            &&& post == pre
            &&& pre.phase is Running && msg.as_event(now) is Some ==> {
                let out = msg.as_event(now)->0;
                acts.len() == 1 && acts[0] is Send && acts[0]->event@ == out && acts[0]->to@
                    == audience_of(pre, out)
            }
            &&& !(pre.phase is Running && msg.as_event(now) is Some) ==> acts.len() == 0
        },
        HubEvent::StreamFailed { causes } => if pre.phase is Running {
            hub_lost(pre, post, acts, now, "websocket: "@ + chained(causes@), true)
        } else {
            post == pre && acts.len() == 0
        },
        HubEvent::DelayOver => if pre.phase is Retrying {
            hub_moved(pre, post, HubPhase::Connecting) && acts.len() == 1 && acts[0] is Connect
        } else {
            post == pre && acts.len() == 0
        },
    }
}

impl HubMachine {
    pub open spec fn wf(self) -> bool {
        self.task.wf()
    }

    /// A hub that starts by connecting.
    pub fn new(policy: ReconnectPolicy) -> (r: HubMachine)
        ensures
            r.wf(),
            r.phase is Connecting,
            r.task.subs@ == CryptoListView::empty(),
            r.task.routes@ == Map::<
                (crate::event::InstrumentView, crate::event::EventKind),
                SinkId,
            >::empty(),
            r.task.backoff == (Backoff { current_ms: policy.initial_backoff_ms, policy }),
    {
        HubMachine { task: HubTask::new(policy), phase: HubPhase::Connecting }
    }

    fn to_all(&self, event: MarketEvent) -> (r: HubAction)
        ensures
            broadcast(r, *self, event@),
    {
        HubAction::Send { to: self.task.audience(), event }
    }

    fn on_command(&mut self, cmd: HubCommand) -> (acts: Vec<HubAction>)
        requires
            old(self).wf(),
        ensures
            final(self).wf(),
            hub_commanded(*old(self), *final(self), acts@, cmd),
    {
        let mut acts: Vec<HubAction> = Vec::new();
        match &self.phase {
            HubPhase::Running => {
                match cmd {
                    HubCommand::Subscribe { pair, sink } => {
                        acts.push(HubAction::Add(self.task.subscribe(&pair, sink)));
                        self.phase = HubPhase::Adding(pair);
                    },
                    HubCommand::Unsubscribe { pair } => {
                        acts.push(HubAction::Remove(self.task.unsubscribe(&pair)));
                        self.phase = HubPhase::Removing(pair);
                    },
                    HubCommand::HandlesDropped => {
                        acts.push(HubAction::CloseSocket);
                        acts.push(HubAction::Exit);
                        self.phase = HubPhase::Exited;
                    },
                }
            },
            HubPhase::Retrying => {
                let live = match cmd {
                    HubCommand::Subscribe { pair, sink: _ } => LiveCommand::Subscribe(pair),
                    HubCommand::Unsubscribe { pair } => LiveCommand::Unsubscribe(pair),
                    HubCommand::HandlesDropped => LiveCommand::HandleDropped,
                };
                match while_retrying(PROVIDER_ID, &live) {
                    WhileDown::Refuse(e) => {
                        acts.push(HubAction::Reply(Err(e)));
                        acts.push(HubAction::Connect);
                        self.phase = HubPhase::Connecting;
                    },
                    _ => {
                        acts.push(HubAction::Exit);
                        self.phase = HubPhase::Exited;
                    },
                }
            },
            _ => {},
        }
        acts
    }

    fn on_answered(&mut self, refusal: Option<Vec<String>>, now: Timestamp) -> (acts: Vec<
        HubAction,
    >)
        requires
            old(self).wf(),
        ensures
            final(self).wf(),
            hub_answered(*old(self), *final(self), acts@, refusal, now),
    {
        let mut acts: Vec<HubAction> = Vec::new();
        let text = match &refusal {
            Some(causes) => Some(error_chain(causes)),
            None => None,
        };
        let said = match &text {
            Some(s) => Some(s.as_str()),
            None => None,
        };
        match &self.phase {
            HubPhase::Resubscribing => {
                if let Some(said) = said {
                    acts.push(self.to_all(HubTask::resubscribe_failed(said, now)));
                }
                self.phase = HubPhase::Running;
            },
            HubPhase::Adding(pair) => {
                let answer = self.task.subscribe_answered(pair, said, now);
                if let Some((sink, event)) = answer.notify {
                    let to = vec![sink];
                    proof {
                        assert(to@ =~= seq![sink]);
                    }
                    acts.push(HubAction::Send { to, event });
                }
                acts.push(HubAction::Reply(answer.reply));
                self.phase = HubPhase::Running;
            },
            HubPhase::Removing(pair) => {
                let answer = self.task.unsubscribe_answered(pair, said, now);
                if let Some((sink, event)) = answer.notify {
                    let to = vec![sink];
                    proof {
                        assert(to@ =~= seq![sink]);
                    }
                    acts.push(HubAction::Send { to, event });
                }
                acts.push(HubAction::Reply(answer.reply));
                self.phase = HubPhase::Running;
            },
            _ => {},
        }
        acts
    }

    /// Take one step.
    pub fn step(&mut self, ev: HubEvent, now: Timestamp) -> (acts: Vec<HubAction>)
        requires
            old(self).wf(),
            ev is ConnectFailed || ev is StreamFailed ==> old(self).task.backoff.can_double(),
            ev matches HubEvent::Message(msg) ==> msg.valid(),
        ensures
            final(self).wf(),
            hub_stepped(*old(self), ev, now, *final(self), acts@),
    {
        let mut acts: Vec<HubAction> = Vec::new();
        match ev {
            HubEvent::Connected => {
                if let HubPhase::Connecting = &self.phase {
                    let up = self.task.connected(now);
                    acts.push(self.to_all(up.event));
                    match up.resubscribe {
                        Some(list) => {
                            acts.push(HubAction::Add(list));
                            self.phase = HubPhase::Resubscribing;
                        },
                        None => {
                            self.phase = HubPhase::Running;
                        },
                    }
                }
            },
            HubEvent::ConnectFailed { causes } => {
                if let HubPhase::Connecting = &self.phase {
                    let loss = self.task.connect_failed(error_chain(&causes).as_str(), now);
                    acts.push(self.to_all(loss.event));
                    acts.push(HubAction::Sleep { ms: loss.delay_ms });
                    self.phase = HubPhase::Retrying;
                }
            },
            HubEvent::Answered { refusal } => {
                return self.on_answered(refusal, now);
            },
            HubEvent::Command(cmd) => {
                return self.on_command(cmd);
            },
            HubEvent::Message(msg) => {
                if let HubPhase::Running = &self.phase {
                    let mut events = translate_crypto_message(msg, now);
                    if let Some(event) = events.pop() {
                        let to = self.task.dispatch(&event);
                        acts.push(HubAction::Send { to, event });
                    }
                }
            },
            HubEvent::StreamFailed { causes } => {
                if let HubPhase::Running = &self.phase {
                    let loss = self.task.websocket_failed(error_chain(&causes).as_str(), now);
                    acts.push(self.to_all(loss.event));
                    acts.push(HubAction::DropSocket);
                    acts.push(HubAction::Sleep { ms: loss.delay_ms });
                    self.phase = HubPhase::Retrying;
                }
            },
            HubEvent::DelayOver => {
                if let HubPhase::Retrying = &self.phase {
                    acts.push(HubAction::Connect);
                    self.phase = HubPhase::Connecting;
                }
            },
        }
        acts
    }
}

/// A data event reaches one sink at most, that of its own pair, and a session
/// that did not subscribe the pair never sees it.
pub proof fn law_data_reaches_its_subscriber_only(
    pre: HubMachine,
    msg: CryptoStreamMessage,
    now: Timestamp,
    post: HubMachine,
    acts: Seq<HubAction>,
    sink: SinkId,
)
    requires
        hub_stepped(pre, HubEvent::Message(msg), now, post, acts),
        acts.len() == 1,
        msg.as_event(now) is Some,
        msg.as_event(now)->0.is_data(),
        acts[0]->to@.contains(sink),
    ensures
        pre.task.routes@.contains_key(pair_of(msg.as_event(now)->0)->0),
        pre.task.routes@[pair_of(msg.as_event(now)->0)->0] == sink,
{
}

/// Routes and subscriptions survive a loss of the shared connection.
pub proof fn law_routes_survive_reconnects(
    pre: HubMachine,
    ev: HubEvent,
    now: Timestamp,
    post: HubMachine,
    acts: Seq<HubAction>,
)
    requires
        hub_stepped(pre, ev, now, post, acts),
        !(ev is Command) && !(ev is Answered),
    ensures
        post.task.routes == pre.task.routes,
        post.task.subs == pre.task.subs,
{
}

/// While the hub runs, every trade, quote and bar of a subscribed pair is sent
/// to the session that subscribed it and to no other, and an error is sent to
/// all.
pub proof fn law_running_hubs_send_what_they_bring(
    pre: HubMachine,
    msg: CryptoStreamMessage,
    now: Timestamp,
    post: HubMachine,
    acts: Seq<HubAction>,
)
    requires
        pre.phase is Running,
        hub_stepped(pre, HubEvent::Message(msg), now, post, acts),
    ensures
        post == pre,
        msg is Other ==> acts.len() == 0,
        !(msg is Other) ==> acts.len() == 1 && acts[0] is Send && Some(acts[0]->event@)
            == msg.as_event(now),
        !(msg is Other) && !(msg is Error) ==> {
            let pair = pair_of(acts[0]->event@)->0;
            &&& acts[0]->event@.is_data()
            &&& pre.task.routes@.contains_key(pair) ==> acts[0]->to@.len() == 1 && acts[0]->to@[0]
                == pre.task.routes@[pair]
            &&& !pre.task.routes@.contains_key(pair) ==> acts[0]->to@.len() == 0
        },
        msg is Error ==> acts[0]->to@.len() == pre.task.routes.rows@.len(),
{
}

/// A subscription is routed to the session that asks for it and asked of the
/// server in the channel of its kind, along with everything that is subscribed
/// already; where it is removed, the server is asked to remove it and nothing
/// else.
pub proof fn law_hub_subscriptions_are_asked_for(
    pre: HubMachine,
    pair: Pair,
    sink: SinkId,
    now: Timestamp,
    added: HubMachine,
    adds: Seq<HubAction>,
    removed: HubMachine,
    removes: Seq<HubAction>,
)
    requires
        pre.phase is Running,
        hub_stepped(
            pre,
            HubEvent::Command(HubCommand::Subscribe { pair, sink }),
            now,
            added,
            adds,
        ),
        hub_stepped(
            pre,
            HubEvent::Command(HubCommand::Unsubscribe { pair }),
            now,
            removed,
            removes,
        ),
    ensures
        ({
            let s = pair.instrument@.symbol;
            &&& added.task.routes@.contains_key(pair@) && added.task.routes@[pair@] == sink
            &&& adds.len() == 1 && adds[0] is Add
            &&& removes.len() == 1 && removes[0] is Remove
            &&& adds[0]->Add_0@ == added.task.subs@
            &&& pair.kind is Trade ==> {
                &&& symbols_in(adds[0]->Add_0@.trades).contains(s)
                &&& adds[0]->Add_0@.quotes == pre.task.subs@.quotes
                &&& adds[0]->Add_0@.bars == pre.task.subs@.bars
                &&& symbols_in(removes[0]->Remove_0@.trades).contains(s)
                &&& removes[0]->Remove_0@.quotes is None && removes[0]->Remove_0@.bars is None
                &&& !symbols_in(removed.task.subs@.trades).contains(s)
            }
            &&& pair.kind is Quote ==> {
                &&& symbols_in(adds[0]->Add_0@.quotes).contains(s)
                &&& adds[0]->Add_0@.trades == pre.task.subs@.trades
                &&& adds[0]->Add_0@.bars == pre.task.subs@.bars
                &&& symbols_in(removes[0]->Remove_0@.quotes).contains(s)
                &&& removes[0]->Remove_0@.trades is None && removes[0]->Remove_0@.bars is None
                &&& !symbols_in(removed.task.subs@.quotes).contains(s)
            }
            &&& pair.kind == EventKind::Bar(BarInterval::OneMinute) ==> symbols_in(
                adds[0]->Add_0@.bars,
            ).contains(s) && symbols_in(removes[0]->Remove_0@.bars).contains(s)
            &&& pair.kind == EventKind::Bar(BarInterval::OneDay) ==> symbols_in(
                adds[0]->Add_0@.daily_bars,
            ).contains(s) && symbols_in(removes[0]->Remove_0@.daily_bars).contains(s)
        }),
{
    let s = pair.instrument@.symbol;
    super::alpaca_crypto::law_subscribing_reaches_the_kinds_channel(
        pre.task.subs@,
        s,
        pair.kind,
        true,
    );
    super::alpaca_crypto::law_subscribing_reaches_the_kinds_channel(
        pre.task.subs@,
        s,
        pair.kind,
        false,
    );
    super::alpaca_crypto::law_subscribing_reaches_the_kinds_channel(
        CryptoListView::empty(),
        s,
        pair.kind,
        true,
    );
}

/// A change that the server accepts is confirmed and announced to the session
/// that asked, active where it was added; one that it refuses is answered with
/// an error and announced to nobody. A refused addition leaves no route, an
/// accepted removal neither.
pub proof fn law_hub_answers_decide_changes(
    pre: HubMachine,
    pair: Pair,
    refusal: Option<Vec<String>>,
    now: Timestamp,
    post: HubMachine,
    acts: Seq<HubAction>,
)
    requires
        pre.phase == HubPhase::Adding(pair) || pre.phase == HubPhase::Removing(pair),
        pre.task.routes@.contains_key(pair@),
        hub_stepped(pre, HubEvent::Answered { refusal }, now, post, acts),
    ensures
        post.phase is Running,
        acts.last() is Reply,
        acts.last()->Reply_0 is Ok <==> refusal is None,
        refusal is Some ==> acts.len() == 1,
        refusal is None ==> {
            &&& acts.len() == 2 && acts[0] is Send
            &&& acts[0]->to@ == seq![pre.task.routes@[pair@]]
            &&& acts[0]->event@ is Control
            &&& acts[0]->event@->Control_0.kind is SubscriptionChanged
            &&& acts[0]->event@->Control_0.kind->SubscriptionChanged_instrument == pair.instrument@
            &&& acts[0]->event@->Control_0.kind->SubscriptionChanged_kind == pair.kind
            &&& acts[0]->event@->Control_0.kind->active <==> pre.phase is Adding
        },
        post.task.routes@.contains_key(pair@) <==> (pre.phase is Adding && refusal is None) || (
        pre.phase is Removing && refusal is Some),
{
}

/// A new connection is announced to all sessions, and everything that was
/// subscribed is asked for again.
pub proof fn law_hub_reconnecting_subscribes_again(
    pre: HubMachine,
    now: Timestamp,
    post: HubMachine,
    acts: Seq<HubAction>,
    symbol: Seq<char>,
)
    requires
        pre.phase is Connecting,
        hub_stepped(pre, HubEvent::Connected, now, post, acts),
    ensures
        acts[0] is Send,
        acts[0]->event@ is Control,
        acts[0]->event@->Control_0.kind is ProviderConnected,
        acts[0]->to@.len() == pre.task.routes.rows@.len(),
        symbols_in(pre.task.subs@.trades).contains(symbol) || symbols_in(
            pre.task.subs@.quotes,
        ).contains(symbol) || symbols_in(pre.task.subs@.bars).contains(symbol) || symbols_in(
            pre.task.subs@.daily_bars,
        ).contains(symbol) ==> acts.len() == 2 && acts[1] is Add && acts[1]->Add_0@
            == pre.task.subs@ && post.phase is Resubscribing,
        post.task.backoff.current_ms == pre.task.backoff.policy.initial_backoff_ms,
{
}

/// A lost connection is announced to all sessions with its reason, and tried
/// again after the ladder's step.
pub proof fn law_hub_losses_are_announced_and_retried(
    pre: HubMachine,
    causes: Vec<String>,
    now: Timestamp,
    post: HubMachine,
    acts: Seq<HubAction>,
)
    requires
        pre.phase is Running,
        hub_stepped(pre, HubEvent::StreamFailed { causes }, now, post, acts),
    ensures
        acts.len() == 3,
        acts[0] is Send && acts[1] is DropSocket,
        acts[0]->to@.len() == pre.task.routes.rows@.len(),
        acts[0]->event@ is Control,
        acts[0]->event@->Control_0.kind is ProviderDisconnected,
        acts[0]->event@->Control_0.kind->reason == "websocket: "@ + chained(causes@),
        acts[2] == (HubAction::Sleep { ms: pre.task.backoff.current_ms }),
        post.phase is Retrying,
{
}

/// While the shared connection is down, changes of subscriptions are refused,
/// and a wait that is over makes the hub connect again.
pub proof fn law_hubs_that_are_down_refuse(
    pre: HubMachine,
    ev: HubEvent,
    now: Timestamp,
    post: HubMachine,
    acts: Seq<HubAction>,
)
    requires
        pre.phase is Retrying,
        hub_stepped(pre, ev, now, post, acts),
    ensures
        ev matches HubEvent::Command(cmd) ==> {
            &&& cmd is Subscribe || cmd is Unsubscribe ==> acts.len() == 2 && acts[0] is Reply
                && acts[0]->Reply_0 is Err && acts[1] is Connect
            &&& cmd is HandlesDropped ==> acts.len() == 1 && acts[0] is Exit && post.phase
                is Exited
        },
        ev is DelayOver ==> acts.len() == 1 && acts[0] is Connect && post.phase is Connecting,
        post.task == pre.task,
{
}

} // verus!
