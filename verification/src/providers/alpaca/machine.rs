//! The streaming task as a machine: from its state and what happened, to its
//! next state and what is to be done, in order.

use vstd::prelude::*;

use crate::error::Error;
use crate::event::{
    BarInterval, ControlKindView, DisconnectCause, EventKind, MarketEvent, Timestamp,
};
use crate::providers::credentials::{AlpacaCredentials, Resolved};
use crate::providers::link::{
    next_backoff, provider_failure, while_down, while_retrying, Backoff, LiveCommand, WhileDown,
};
use crate::providers::symbols::symbols_in;
use crate::session::options::ReconnectPolicy;
use crate::table::Pair;

use super::config::{AccountType, AlpacaSettings, PROVIDER_ID};
use super::list::{ListView, StockSubscriptionList};
use super::messages::{message_event, translate_stock_message, StockStreamMessage};
use super::streaming::{
    cause_of, disconnected, report, subscription_report, AfterLoss, CommandStep, ConnectStep, Loss,
    ParkOn, StreamingTask,
};

verus! {

/// Why a task is parked.
#[derive(Clone, Copy, Debug, PartialEq, Eq, Structural)]
pub enum ParkReason {
    Disabled,
    NoCredentials,
    Rejected,
}

impl ParkReason {
    /// The message of commands that fail meanwhile.
    pub open spec fn text(self) -> Seq<char> {
        match self {
            ParkReason::Disabled => "provider disabled"@,
            ParkReason::NoCredentials => "waiting for credentials"@,
            ParkReason::Rejected => "waiting for new credentials after auth rejection"@,
        }
    }

    pub fn message(self) -> (r: &'static str)
        ensures
            r@ == self.text(),
    {
        match self {
            ParkReason::Disabled => "provider disabled",
            ParkReason::NoCredentials => "waiting for credentials",
            ParkReason::Rejected => "waiting for new credentials after auth rejection",
        }
    }
}

/// Where the task stands.
pub enum Phase {
    /// Settings and credentials are being resolved.
    Resolving,
    /// Waiting for a source to deliver; `alive` while it still can.
    Parked { on: ParkOn, why: ParkReason, alive: bool },
    Connecting,
    /// The subscriptions are being applied to a new connection.
    Resubscribing,
    Running,
    /// The server has been asked for a pair.
    Adding(Pair),
    /// The server has been asked to remove a pair.
    Removing(Pair),
    /// Waiting before the next attempt.
    Retrying,
    Exited,
}

/// What happened.
pub enum StreamEvent {
    Resolved {
        settings: Option<AlpacaSettings>,
        settings_watched: bool,
        credentials: Resolved,
        credentials_watched: bool,
    },
    /// The source that is waited for delivered a value.
    SourceChanged,
    /// The source that is waited for can never deliver again.
    SourceGone,
    Command(LiveCommand),
    Connected,
    ConnectFailed { said: String, unauthenticated: bool },
    /// The server answered a request; `refusal` is what it said where it
    /// refused.
    Answered { refusal: Option<String> },
    Message(StockStreamMessage),
    StreamFailed { said: String, unauthenticated: bool },
    /// Nobody receives events any more.
    SinkClosed,
    CredentialsChanged,
    CredentialsGone,
    SettingsChanged { disabled: bool },
    SettingsGone,
    DelayOver,
}

/// What is to be done.
pub enum StreamAction {
    /// Resolve settings and credentials, with fresh receivers.
    Resolve,
    /// Connect, with the credentials of the environment where none are given.
    Connect { account_type: AccountType, credentials: Option<AlpacaCredentials> },
    Emit(MarketEvent),
    /// Ask the server for everything on the list.
    Add(StockSubscriptionList),
    /// Ask the server to remove what is on the list.
    Remove(StockSubscriptionList),
    /// Answer the subscription change.
    Reply(Result<(), Error>),
    /// Acknowledge the close.
    Ack,
    /// Close the connection in good order.
    CloseSocket,
    /// Drop the broken connection.
    DropSocket,
    Sleep { ms: u64 },
    Exit,
}

/// The streaming task.
pub struct StreamingMachine {
    pub task: StreamingTask,
    pub phase: Phase,
    /// Whether credentials can still be rotated on this connection.
    pub credentials_watched: bool,
    /// Whether settings can still change on this connection.
    pub settings_watched: bool,
}

/// Whether the event can make the task lose its connection.
pub open spec fn is_loss(ev: StreamEvent) -> bool {
    ev is ConnectFailed || ev is StreamFailed
}

/// What follows a lost connection: the report, then a wait for credentials
/// where these were rejected and can be rotated, and otherwise a retry, one
/// step up the ladder.
pub open spec fn lost(
    pre: StreamingMachine,
    post: StreamingMachine,
    acts: Seq<StreamAction>,
    now: Timestamp,
    reason: Seq<char>,
    unauthenticated: bool,
    drops_socket: bool,
) -> bool {
    let k: int = if drops_socket {
        2
    } else {
        1
    };
    &&& post.task.active == pre.task.active
    &&& post.credentials_watched == pre.credentials_watched
    &&& post.settings_watched == pre.settings_watched
    &&& acts.len() >= k
    &&& acts[0] is Emit
    &&& acts[0]->Emit_0@ == disconnected(now, reason, cause_of(unauthenticated))
    &&& drops_socket ==> acts[1] is DropSocket
    &&& if unauthenticated && pre.credentials_watched {
        &&& acts.len() == k
        &&& post.task.backoff == pre.task.backoff
        &&& post.phase == (Phase::Parked {
            on: ParkOn::Credentials,
            why: ParkReason::Rejected,
            alive: true,
        })
    } else {
        &&& acts.len() == k + 1
        &&& acts[k] is Sleep
        &&& acts[k]->ms <= pre.task.backoff.current_ms
        &&& !pre.task.backoff.policy.jitter ==> acts[k]->ms == pre.task.backoff.current_ms
        &&& post.task.backoff.policy == pre.task.backoff.policy
        &&& post.task.backoff.current_ms == next_backoff(
            pre.task.backoff.current_ms as int,
            pre.task.backoff.policy.max_backoff_ms as int,
        )
        &&& post.phase is Retrying
    }
}

/// The task after a deliberate reconnect: the ladder starts over and the
/// subscriptions stay.
pub open spec fn reconnects(
    pre: StreamingMachine,
    post: StreamingMachine,
    acts: Seq<StreamAction>,
    now: Timestamp,
    reason: Seq<char>,
) -> bool {
    &&& post.task.active == pre.task.active
    &&& post.task.backoff == (Backoff {
        current_ms: pre.task.backoff.policy.initial_backoff_ms,
        ..pre.task.backoff
    })
    &&& post.credentials_watched == pre.credentials_watched
    &&& post.settings_watched == pre.settings_watched
    &&& post.phase is Resolving
    &&& acts.len() == 3
    &&& acts[0] is Emit
    &&& acts[0]->Emit_0@ == disconnected(now, reason, DisconnectCause::Error)
    &&& acts[1] is CloseSocket
    &&& acts[2] is Resolve
}

/// Only the phase has changed.
pub open spec fn moved(pre: StreamingMachine, post: StreamingMachine, phase: Phase) -> bool {
    post == (StreamingMachine { phase, ..pre })
}

/// A subscription change is refused.
pub open spec fn refused(act: StreamAction, message: Seq<char>) -> bool {
    act is Reply && act->Reply_0 is Err && act->Reply_0->Err_0@ == provider_failure(
        PROVIDER_ID@,
        message,
    )
}

/// What a resolution of settings and credentials leads to.
pub open spec fn resolved(
    pre: StreamingMachine,
    post: StreamingMachine,
    acts: Seq<StreamAction>,
    settings: Option<AlpacaSettings>,
    settings_watched: bool,
    credentials: Resolved,
    credentials_watched: bool,
) -> bool {
    &&& post.task == pre.task
    &&& post.credentials_watched == credentials_watched
    &&& post.settings_watched == settings_watched
    &&& if settings is None {
        if settings_watched {
            &&& acts.len() == 0
            &&& post.phase == (Phase::Parked {
                on: ParkOn::Settings,
                why: ParkReason::Disabled,
                alive: true,
            })
        } else {
            &&& acts.len() == 1
            &&& acts[0] is Exit
            &&& post.phase is Exited
        }
    } else if credentials is Missing {
        if credentials_watched {
            &&& acts.len() == 0
            &&& post.phase == (Phase::Parked {
                on: ParkOn::Credentials,
                why: ParkReason::NoCredentials,
                alive: true,
            })
        } else {
            &&& acts.len() == 1
            &&& acts[0] is Exit
            &&& post.phase is Exited
        }
    } else {
        &&& acts.len() == 1
        &&& acts[0] == (StreamAction::Connect {
            account_type: settings->0.account_type,
            credentials: match credentials {
                Resolved::Creds(c) => Some(c),
                _ => None,
            },
        })
        &&& post.phase is Connecting
    }
}

/// What a command leads to in each phase. A command that arrives between
/// phases in which commands are taken has no effect.
pub open spec fn commanded(
    pre: StreamingMachine,
    post: StreamingMachine,
    acts: Seq<StreamAction>,
    cmd: LiveCommand,
) -> bool {
    match pre.phase {
        Phase::Parked { on, why, alive } => match cmd {
            LiveCommand::Close => {
                &&& moved(pre, post, Phase::Exited)
                &&& acts.len() == 2 && acts[0] is Ack && acts[1] is Exit
            },
            LiveCommand::HandleDropped => {
                &&& moved(pre, post, Phase::Exited)
                &&& acts.len() == 1 && acts[0] is Exit
            },
            _ => {
                &&& post == pre
                &&& acts.len() == 1 && refused(acts[0], why.text())
            },
        },
        Phase::Retrying => match cmd {
            LiveCommand::Close => {
                &&& moved(pre, post, Phase::Exited)
                &&& acts.len() == 2 && acts[0] is Ack && acts[1] is Exit
            },
            LiveCommand::HandleDropped => {
                &&& moved(pre, post, Phase::Exited)
                &&& acts.len() == 1 && acts[0] is Exit
            },
            _ => {
                &&& moved(pre, post, Phase::Resolving)
                &&& acts.len() == 2 && refused(acts[0], "provider is reconnecting"@)
                    && acts[1] is Resolve
            },
        },
        Phase::Running => match cmd {
            LiveCommand::Subscribe(pair) => {
                &&& post.phase == Phase::Adding(pair)
                &&& post.task.active@ == pre.task.active@.applied(
                    pair.instrument@.symbol,
                    pair.kind,
                    true,
                )
                &&& post.task.backoff == pre.task.backoff
                &&& post.credentials_watched == pre.credentials_watched
                &&& post.settings_watched == pre.settings_watched
                &&& acts.len() == 1 && acts[0] is Add && acts[0]->Add_0@ == post.task.active@
            },
            LiveCommand::Unsubscribe(pair) => {
                &&& post.phase == Phase::Removing(pair)
                &&& post.task.active@ == pre.task.active@.applied(
                    pair.instrument@.symbol,
                    pair.kind,
                    false,
                )
                &&& post.task.backoff == pre.task.backoff
                &&& post.credentials_watched == pre.credentials_watched
                &&& post.settings_watched == pre.settings_watched
                &&& acts.len() == 1 && acts[0] is Remove && acts[0]->Remove_0@
                    == ListView::empty().applied(pair.instrument@.symbol, pair.kind, true)
            },
            LiveCommand::Close => {
                &&& moved(pre, post, Phase::Exited)
                &&& acts.len() == 3 && acts[0] is CloseSocket && acts[1] is Ack && acts[2] is Exit
            },
            LiveCommand::HandleDropped => {
                &&& moved(pre, post, Phase::Exited)
                &&& acts.len() == 2 && acts[0] is CloseSocket && acts[1] is Exit
            },
        },
        _ => post == pre && acts.len() == 0,
    }
}

/// What the server's answer leads to.
pub open spec fn answered(
    pre: StreamingMachine,
    post: StreamingMachine,
    acts: Seq<StreamAction>,
    refusal: Option<String>,
    now: Timestamp,
) -> bool {
    match pre.phase {
        Phase::Resubscribing => {
            &&& moved(pre, post, Phase::Running)
            &&& refusal is None ==> acts.len() == 0
            &&& refusal matches Some(said) ==> acts.len() == 1 && acts[0] is Emit
                && acts[0]->Emit_0@ == report(
                now,
                ControlKindView::ProviderError {
                    provider: PROVIDER_ID@,
                    message: "re-subscribe failed: "@ + said@,
                },
            )
        },
        Phase::Adding(pair) => {
            &&& post.phase is Running
            &&& post.task.backoff == pre.task.backoff
            &&& post.credentials_watched == pre.credentials_watched
            &&& post.settings_watched == pre.settings_watched
            &&& refusal is None ==> {
                &&& post.task.active == pre.task.active
                &&& acts.len() == 2
                &&& acts[0] is Emit && acts[0]->Emit_0@ == subscription_report(now, pair, true)
                &&& acts[1] is Reply && acts[1]->Reply_0 is Ok
            }
            &&& refusal matches Some(said) ==> {
                &&& post.task.active@ == pre.task.active@.applied(
                    pair.instrument@.symbol,
                    pair.kind,
                    false,
                )
                &&& acts.len() == 1
                &&& refused(acts[0], "add_subscriptions"@ + ": "@ + said@)
            }
        },
        Phase::Removing(pair) => {
            &&& post.phase is Running
            &&& post.task.backoff == pre.task.backoff
            &&& post.credentials_watched == pre.credentials_watched
            &&& post.settings_watched == pre.settings_watched
            &&& refusal is None ==> {
                &&& post.task.active == pre.task.active
                &&& acts.len() == 2
                &&& acts[0] is Emit && acts[0]->Emit_0@ == subscription_report(now, pair, false)
                &&& acts[1] is Reply && acts[1]->Reply_0 is Ok
            }
            &&& refusal matches Some(said) ==> {
                &&& post.task.active@ == pre.task.active@.applied(
                    pair.instrument@.symbol,
                    pair.kind,
                    true,
                )
                &&& acts.len() == 1
                &&& refused(acts[0], "remove_subscriptions"@ + ": "@ + said@)
            }
        },
        _ => post == pre && acts.len() == 0,
    }
}

/// The machine's steps: what each event leads to in each phase.
pub open spec fn stepped(
    pre: StreamingMachine,
    ev: StreamEvent,
    now: Timestamp,
    post: StreamingMachine,
    acts: Seq<StreamAction>,
) -> bool {
    match ev {
        StreamEvent::Resolved { settings, settings_watched, credentials, credentials_watched } => {
            if pre.phase is Resolving {
                resolved(
                    pre,
                    post,
                    acts,
                    settings,
                    settings_watched,
                    credentials,
                    credentials_watched,
                )
            } else {
                post == pre && acts.len() == 0
            }
        },
        StreamEvent::SourceChanged => match pre.phase {
            Phase::Parked { on, why, alive: true } => {
                moved(pre, post, Phase::Resolving) && acts.len() == 1 && acts[0] is Resolve
            },
            _ => post == pre && acts.len() == 0,
        },
        StreamEvent::SourceGone => match pre.phase {
            Phase::Parked { on, why, alive } => {
                moved(pre, post, Phase::Parked { on, why, alive: false }) && acts.len() == 0
            },
            _ => post == pre && acts.len() == 0,
        },
        StreamEvent::Command(cmd) => commanded(pre, post, acts, cmd),
        StreamEvent::Connected => if pre.phase is Connecting {
            &&& post.task.active == pre.task.active
            &&& post.task.backoff == (Backoff {
                current_ms: pre.task.backoff.policy.initial_backoff_ms,
                ..pre.task.backoff
            })
            &&& post.credentials_watched == pre.credentials_watched
            &&& post.settings_watched == pre.settings_watched
            &&& acts.len() >= 1
            &&& acts[0] is Emit && acts[0]->Emit_0@ == report(
                now,
                ControlKindView::ProviderConnected { provider: PROVIDER_ID@ },
            )
            &&& if pre.task.active@.is_empty() {
                post.phase is Running && acts.len() == 1
            } else {
                post.phase is Resubscribing && acts.len() == 2 && acts[1] is Add && acts[1]->Add_0@
                    == pre.task.active@
            }
        } else {
            post == pre && acts.len() == 0
        },
        StreamEvent::ConnectFailed { said, unauthenticated } => if pre.phase is Connecting {
            lost(pre, post, acts, now, "connect failed: "@ + said@, unauthenticated, false)
        } else {
            post == pre && acts.len() == 0
        },
        StreamEvent::Answered { refusal } => answered(pre, post, acts, refusal, now),
        StreamEvent::Message(msg) => {
            &&& post == pre
            &&& pre.phase is Running ==> {
                &&& message_event(msg, now) is None ==> acts.len() == 0
                &&& message_event(msg, now) matches Some(out) ==> acts.len() == 1 && acts[0] is Emit
                    && acts[0]->Emit_0@ == out
            }
            &&& !(pre.phase is Running) ==> acts.len() == 0
        },
        StreamEvent::StreamFailed { said, unauthenticated } => if pre.phase is Running {
            lost(pre, post, acts, now, "websocket: "@ + said@, unauthenticated, true)
        } else {
            post == pre && acts.len() == 0
        },
        StreamEvent::SinkClosed => if pre.phase is Running {
            moved(pre, post, Phase::Exited) && acts.len() == 2 && acts[0] is CloseSocket
                && acts[1] is Exit
        } else {
            post == pre && acts.len() == 0
        },
        StreamEvent::CredentialsChanged => if pre.phase is Running && pre.credentials_watched {
            reconnects(pre, post, acts, now, "credentials rotated"@)
        } else {
            post == pre && acts.len() == 0
        },
        StreamEvent::CredentialsGone => {
            &&& acts.len() == 0
            &&& post == if pre.phase is Running {
                StreamingMachine { credentials_watched: false, ..pre }
            } else {
                pre
            }
        },
        StreamEvent::SettingsChanged { disabled } => if pre.phase is Running
            && pre.settings_watched {
            reconnects(
                pre,
                post,
                acts,
                now,
                if disabled {
                    "provider disabled"@
                } else {
                    "settings changed"@
                },
            )
        } else {
            post == pre && acts.len() == 0
        },
        StreamEvent::SettingsGone => {
            &&& acts.len() == 0
            &&& post == if pre.phase is Running {
                StreamingMachine { settings_watched: false, ..pre }
            } else {
                pre
            }
        },
        StreamEvent::DelayOver => if pre.phase is Retrying {
            moved(pre, post, Phase::Resolving) && acts.len() == 1 && acts[0] is Resolve
        } else {
            post == pre && acts.len() == 0
        },
    }
}

impl StreamingMachine {
    /// A task that starts by resolving its settings and credentials.
    pub fn new(policy: ReconnectPolicy) -> (r: StreamingMachine)
        ensures
            r.phase is Resolving,
            r.task.active@ == ListView::empty(),
            r.task.backoff == (Backoff { current_ms: policy.initial_backoff_ms, policy }),
            !r.credentials_watched,
            !r.settings_watched,
    {
        StreamingMachine {
            task: StreamingTask::new(policy),
            phase: Phase::Resolving,
            credentials_watched: false,
            settings_watched: false,
        }
    }

    fn on_resolved(
        &mut self,
        settings: Option<AlpacaSettings>,
        settings_watched: bool,
        credentials: Resolved,
        credentials_watched: bool,
    ) -> (acts: Vec<StreamAction>)
        ensures
            resolved(
                *old(self),
                *final(self),
                acts@,
                settings,
                settings_watched,
                credentials,
                credentials_watched,
            ),
    {
        self.settings_watched = settings_watched;
        self.credentials_watched = credentials_watched;
        let mut acts: Vec<StreamAction> = Vec::new();
        let disabled = settings.is_none();
        match StreamingTask::connect_step(
            settings,
            settings_watched,
            credentials,
            credentials_watched,
        ) {
            ConnectStep::Park { on, reason: _ } => {
                let why = if disabled {
                    ParkReason::Disabled
                } else {
                    ParkReason::NoCredentials
                };
                self.phase = Phase::Parked { on, why, alive: true };
            },
            ConnectStep::Connect { account_type, credentials } => {
                acts.push(StreamAction::Connect { account_type, credentials });
                self.phase = Phase::Connecting;
            },
            ConnectStep::Exit => {
                acts.push(StreamAction::Exit);
                self.phase = Phase::Exited;
            },
        }
        acts
    }

    /// The task and the watched flags are those of `self`; carry out a loss.
    fn after_loss(&mut self, loss: Loss, drops_socket: bool) -> (acts: Vec<StreamAction>)
        ensures
            final(self).task == old(self).task,
            final(self).credentials_watched == old(self).credentials_watched,
            final(self).settings_watched == old(self).settings_watched,
            ({
                let k: int = if drops_socket {
                    2
                } else {
                    1
                };
                &&& acts@.len() >= k
                &&& acts@[0] == StreamAction::Emit(loss.event)
                &&& drops_socket ==> acts@[1] is DropSocket
                &&& match loss.next {
                    AfterLoss::Park { reason } => {
                        &&& acts@.len() == k
                        &&& final(self).phase == (Phase::Parked {
                            on: ParkOn::Credentials,
                            why: ParkReason::Rejected,
                            alive: true,
                        })
                    },
                    AfterLoss::RetryAfter { delay_ms } => {
                        &&& acts@.len() == k + 1
                        &&& acts@[k] == (StreamAction::Sleep { ms: delay_ms })
                        &&& final(self).phase is Retrying
                    },
                }
            }),
    {
        let mut acts: Vec<StreamAction> = Vec::new();
        acts.push(StreamAction::Emit(loss.event));
        if drops_socket {
            acts.push(StreamAction::DropSocket);
        }
        match loss.next {
            AfterLoss::Park { reason: _ } => {
                self.phase =
                Phase::Parked { on: ParkOn::Credentials, why: ParkReason::Rejected, alive: true };
            },
            AfterLoss::RetryAfter { delay_ms } => {
                acts.push(StreamAction::Sleep { ms: delay_ms });
                self.phase = Phase::Retrying;
            },
        }
        acts
    }

    fn on_command(&mut self, cmd: LiveCommand) -> (acts: Vec<StreamAction>)
        ensures
            commanded(*old(self), *final(self), acts@, cmd),
    {
        let mut acts: Vec<StreamAction> = Vec::new();
        match &self.phase {
            Phase::Parked { on: _, why, alive: _ } => {
                match while_down(PROVIDER_ID, why.message(), &cmd) {
                    WhileDown::Refuse(e) => acts.push(StreamAction::Reply(Err(e))),
                    WhileDown::AckAndExit => {
                        acts.push(StreamAction::Ack);
                        acts.push(StreamAction::Exit);
                        self.phase = Phase::Exited;
                    },
                    WhileDown::Exit => {
                        acts.push(StreamAction::Exit);
                        self.phase = Phase::Exited;
                    },
                }
            },
            Phase::Retrying => {
                match while_retrying(PROVIDER_ID, &cmd) {
                    WhileDown::Refuse(e) => {
                        acts.push(StreamAction::Reply(Err(e)));
                        acts.push(StreamAction::Resolve);
                        self.phase = Phase::Resolving;
                    },
                    WhileDown::AckAndExit => {
                        acts.push(StreamAction::Ack);
                        acts.push(StreamAction::Exit);
                        self.phase = Phase::Exited;
                    },
                    WhileDown::Exit => {
                        acts.push(StreamAction::Exit);
                        self.phase = Phase::Exited;
                    },
                }
            },
            Phase::Running => {
                let step = self.task.command(&cmd);
                match step {
                    CommandStep::Add(list) => acts.push(StreamAction::Add(list)),
                    CommandStep::Remove(list) => acts.push(StreamAction::Remove(list)),
                    CommandStep::CloseAndAck => {
                        acts.push(StreamAction::CloseSocket);
                        acts.push(StreamAction::Ack);
                        acts.push(StreamAction::Exit);
                    },
                    CommandStep::Close => {
                        acts.push(StreamAction::CloseSocket);
                        acts.push(StreamAction::Exit);
                    },
                }
                self.phase =
                match cmd {
                    LiveCommand::Subscribe(pair) => Phase::Adding(pair),
                    LiveCommand::Unsubscribe(pair) => Phase::Removing(pair),
                    LiveCommand::Close => Phase::Exited,
                    LiveCommand::HandleDropped => Phase::Exited,
                };
            },
            _ => {},
        }
        acts
    }

    fn on_answered(&mut self, refusal: Option<String>, now: Timestamp) -> (acts: Vec<StreamAction>)
        ensures
            answered(*old(self), *final(self), acts@, refusal, now),
    {
        let mut acts: Vec<StreamAction> = Vec::new();
        let said = match &refusal {
            Some(s) => Some(s.as_str()),
            None => None,
        };
        match &self.phase {
            Phase::Resubscribing => {
                if let Some(said) = said {
                    acts.push(StreamAction::Emit(StreamingTask::resubscribe_failed(said, now)));
                }
                self.phase = Phase::Running;
            },
            Phase::Adding(pair) => {
                let answer = self.task.subscribe_answered(pair, said, now);
                if let Some(event) = answer.event {
                    acts.push(StreamAction::Emit(event));
                }
                acts.push(StreamAction::Reply(answer.reply));
                self.phase = Phase::Running;
            },
            Phase::Removing(pair) => {
                let answer = self.task.unsubscribe_answered(pair, said, now);
                if let Some(event) = answer.event {
                    acts.push(StreamAction::Emit(event));
                }
                acts.push(StreamAction::Reply(answer.reply));
                self.phase = Phase::Running;
            },
            _ => {},
        }
        acts
    }

    fn reconnect(&mut self, event: MarketEvent) -> (acts: Vec<StreamAction>)
        ensures
            *final(self) == (StreamingMachine { phase: Phase::Resolving, ..*old(self) }),
            acts@.len() == 3,
            acts@[0] == StreamAction::Emit(event),
            acts@[1] is CloseSocket,
            acts@[2] is Resolve,
    {
        let mut acts: Vec<StreamAction> = Vec::new();
        acts.push(StreamAction::Emit(event));
        acts.push(StreamAction::CloseSocket);
        acts.push(StreamAction::Resolve);
        self.phase = Phase::Resolving;
        acts
    }

    /// Take one step.
    pub fn step(&mut self, ev: StreamEvent, now: Timestamp) -> (acts: Vec<StreamAction>)
        requires
            is_loss(ev) ==> old(self).task.backoff.can_double(),
            ev matches StreamEvent::Message(msg) ==> msg.valid(),
        ensures
            stepped(*old(self), ev, now, *final(self), acts@),
    {
        let mut acts: Vec<StreamAction> = Vec::new();
        match ev {
            StreamEvent::Resolved {
                settings,
                settings_watched,
                credentials,
                credentials_watched,
            } => {
                if let Phase::Resolving = &self.phase {
                    return self.on_resolved(
                        settings,
                        settings_watched,
                        credentials,
                        credentials_watched,
                    );
                }
            },
            StreamEvent::SourceChanged => {
                if let Phase::Parked { on: _, why: _, alive: true } = &self.phase {
                    acts.push(StreamAction::Resolve);
                    self.phase = Phase::Resolving;
                }
            },
            StreamEvent::SourceGone => {
                if let Phase::Parked { on, why, alive: _ } = &self.phase {
                    let on = *on;
                    let why = *why;
                    self.phase = Phase::Parked { on, why, alive: false };
                }
            },
            StreamEvent::Command(cmd) => {
                return self.on_command(cmd);
            },
            StreamEvent::Connected => {
                if let Phase::Connecting = &self.phase {
                    let up = self.task.connected(now);
                    acts.push(StreamAction::Emit(up.event));
                    match up.resubscribe {
                        Some(list) => {
                            acts.push(StreamAction::Add(list));
                            self.phase = Phase::Resubscribing;
                        },
                        None => {
                            self.phase = Phase::Running;
                        },
                    }
                }
            },
            StreamEvent::ConnectFailed { said, unauthenticated } => {
                if let Phase::Connecting = &self.phase {
                    let loss = self.task.connect_failed(
                        said.as_str(),
                        unauthenticated,
                        self.credentials_watched,
                        now,
                    );
                    return self.after_loss(loss, false);
                }
            },
            StreamEvent::Answered { refusal } => {
                return self.on_answered(refusal, now);
            },
            StreamEvent::Message(msg) => {
                if let Phase::Running = &self.phase {
                    let mut events = translate_stock_message(msg, now);
                    if let Some(out) = events.pop() {
                        acts.push(StreamAction::Emit(out));
                    }
                }
            },
            StreamEvent::StreamFailed { said, unauthenticated } => {
                if let Phase::Running = &self.phase {
                    let loss = self.task.websocket_failed(
                        said.as_str(),
                        unauthenticated,
                        self.credentials_watched,
                        now,
                    );
                    return self.after_loss(loss, true);
                }
            },
            StreamEvent::SinkClosed => {
                if let Phase::Running = &self.phase {
                    acts.push(StreamAction::CloseSocket);
                    acts.push(StreamAction::Exit);
                    self.phase = Phase::Exited;
                }
            },
            StreamEvent::CredentialsChanged => {
                if let Phase::Running = &self.phase {
                    if self.credentials_watched {
                        let event = self.task.credentials_rotated(now);
                        return self.reconnect(event);
                    }
                }
            },
            StreamEvent::CredentialsGone => {
                if let Phase::Running = &self.phase {
                    self.credentials_watched = false;
                }
            },
            StreamEvent::SettingsChanged { disabled } => {
                if let Phase::Running = &self.phase {
                    if self.settings_watched {
                        let event = self.task.settings_changed(disabled, now);
                        return self.reconnect(event);
                    }
                }
            },
            StreamEvent::SettingsGone => {
                if let Phase::Running = &self.phase {
                    self.settings_watched = false;
                }
            },
            StreamEvent::DelayOver => {
                if let Phase::Retrying = &self.phase {
                    acts.push(StreamAction::Resolve);
                    self.phase = Phase::Resolving;
                }
            },
        }
        acts
    }
}

/// How many of the actions answer a subscription change.
pub open spec fn replies(acts: Seq<StreamAction>) -> nat
    decreases acts.len(),
{
    if acts.len() == 0 {
        0
    } else {
        replies(acts.drop_last()) + if acts.last() is Reply {
            1nat
        } else {
            0nat
        }
    }
}

/// A subscription change that the task takes is answered exactly once: at
/// once where there is no connection, and with the server's answer otherwise.
/// No other step answers one.
pub proof fn law_changes_are_answered_once(
    pre: StreamingMachine,
    ev: StreamEvent,
    now: Timestamp,
    post: StreamingMachine,
    acts: Seq<StreamAction>,
)
    requires
        stepped(pre, ev, now, post, acts),
    ensures
        ({
            let change = ev matches StreamEvent::Command(cmd) && (cmd is Subscribe
                || cmd is Unsubscribe);
            let waiting = |m: StreamingMachine| m.phase is Adding || m.phase is Removing;
            let takes = pre.phase is Parked || pre.phase is Retrying || pre.phase is Running;
            &&& change && takes ==> (replies(acts) == 1 && !waiting(post)) || (replies(acts) == 0
                && waiting(post))
            &&& ev is Answered && waiting(pre) ==> replies(acts) == 1 && !waiting(post)
            &&& !change && !(ev is Answered) ==> replies(acts) == 0
            &&& waiting(post) && !waiting(pre) ==> change && takes
        }),
{
    lemma_replies(acts);
}

proof fn lemma_replies(acts: Seq<StreamAction>)
    ensures
        acts.len() == 0 ==> replies(acts) == 0,
        acts.len() == 1 ==> replies(acts) == if acts[0] is Reply {
            1nat
        } else {
            0
        },
        acts.len() == 2 ==> replies(acts) == (if acts[0] is Reply {
            1nat
        } else {
            0
        }) + if acts[1] is Reply {
            1nat
        } else {
            0
        },
        acts.len() == 3 ==> replies(acts) == (if acts[0] is Reply {
            1nat
        } else {
            0
        }) + (if acts[1] is Reply {
            1nat
        } else {
            0
        }) + if acts[2] is Reply {
            1nat
        } else {
            0
        },
{
    reveal_with_fuel(replies, 4);
}

/// What the server was asked for survives every loss of the connection: no
/// step but a subscription change or its answer alters the list.
pub proof fn law_subscriptions_survive_reconnects(
    pre: StreamingMachine,
    ev: StreamEvent,
    now: Timestamp,
    post: StreamingMachine,
    acts: Seq<StreamAction>,
)
    requires
        stepped(pre, ev, now, post, acts),
        !(ev is Command) && !(ev is Answered),
    ensures
        post.task.active == pre.task.active,
{
}

/// A disabled provider never connects, and neither does one without
/// credentials.
pub proof fn law_never_connects_unprovisioned(
    pre: StreamingMachine,
    ev: StreamEvent,
    now: Timestamp,
    post: StreamingMachine,
    acts: Seq<StreamAction>,
    i: int,
)
    requires
        stepped(pre, ev, now, post, acts),
        0 <= i < acts.len(),
        acts[i] is Connect,
    ensures
        ev is Resolved,
        ev->settings is Some,
        !(ev->credentials is Missing),
{
}

/// While the stream runs, every trade, quote, bar and error that it brings is
/// emitted, once and at once, and changes nothing else.
pub proof fn law_running_streams_emit_what_they_bring(
    pre: StreamingMachine,
    msg: StockStreamMessage,
    now: Timestamp,
    post: StreamingMachine,
    acts: Seq<StreamAction>,
)
    requires
        pre.phase is Running,
        stepped(pre, StreamEvent::Message(msg), now, post, acts),
    ensures
        post == pre,
        msg is Other ==> acts.len() == 0,
        !(msg is Other) ==> acts.len() == 1 && acts[0] is Emit && Some(acts[0]->Emit_0@)
            == message_event(msg, now),
        msg is Trade ==> acts[0]->Emit_0@ is Trade,
        msg is Quote ==> acts[0]->Emit_0@ is Quote,
        msg is Bar || msg is DailyBar || msg is UpdatedBar ==> acts[0]->Emit_0@ is Bar,
{
}

/// A subscription is asked of the server in the channel of its kind, along with
/// everything that is subscribed already; where it is removed, the server is
/// asked to remove it and nothing else.
pub proof fn law_subscriptions_are_asked_for(
    pre: StreamingMachine,
    pair: Pair,
    now: Timestamp,
    added: StreamingMachine,
    adds: Seq<StreamAction>,
    removed: StreamingMachine,
    removes: Seq<StreamAction>,
)
    requires
        pre.phase is Running,
        stepped(pre, StreamEvent::Command(LiveCommand::Subscribe(pair)), now, added, adds),
        stepped(pre, StreamEvent::Command(LiveCommand::Unsubscribe(pair)), now, removed, removes),
    ensures
        ({
            let s = pair.instrument@.symbol;
            &&& adds.len() == 1 && adds[0] is Add
            &&& removes.len() == 1 && removes[0] is Remove
            &&& adds[0]->Add_0@ == added.task.active@
            &&& pair.kind is Trade ==> {
                &&& symbols_in(adds[0]->Add_0@.trades).contains(s)
                &&& adds[0]->Add_0@.quotes == pre.task.active@.quotes
                &&& adds[0]->Add_0@.bars == pre.task.active@.bars
                &&& adds[0]->Add_0@.daily_bars == pre.task.active@.daily_bars
                &&& symbols_in(removes[0]->Remove_0@.trades).contains(s)
                &&& removes[0]->Remove_0@.quotes is None && removes[0]->Remove_0@.bars is None
                &&& removes[0]->Remove_0@.daily_bars is None
                &&& !symbols_in(removed.task.active@.trades).contains(s)
            }
            &&& pair.kind is Quote ==> {
                &&& symbols_in(adds[0]->Add_0@.quotes).contains(s)
                &&& adds[0]->Add_0@.trades == pre.task.active@.trades
                &&& adds[0]->Add_0@.bars == pre.task.active@.bars
                &&& adds[0]->Add_0@.daily_bars == pre.task.active@.daily_bars
                &&& symbols_in(removes[0]->Remove_0@.quotes).contains(s)
                &&& removes[0]->Remove_0@.trades is None && removes[0]->Remove_0@.bars is None
                &&& removes[0]->Remove_0@.daily_bars is None
                &&& !symbols_in(removed.task.active@.quotes).contains(s)
            }
            &&& pair.kind == EventKind::Bar(BarInterval::OneMinute) ==> {
                &&& symbols_in(adds[0]->Add_0@.bars).contains(s)
                &&& symbols_in(removes[0]->Remove_0@.bars).contains(s)
                &&& !symbols_in(removed.task.active@.bars).contains(s)
                &&& adds[0]->Add_0@.trades == pre.task.active@.trades
                &&& adds[0]->Add_0@.quotes == pre.task.active@.quotes
            }
            &&& pair.kind == EventKind::Bar(BarInterval::OneDay) ==> {
                &&& symbols_in(adds[0]->Add_0@.daily_bars).contains(s)
                &&& symbols_in(removes[0]->Remove_0@.daily_bars).contains(s)
                &&& !symbols_in(removed.task.active@.daily_bars).contains(s)
                &&& adds[0]->Add_0@.trades == pre.task.active@.trades
                &&& adds[0]->Add_0@.quotes == pre.task.active@.quotes
            }
        }),
{
    let s = pair.instrument@.symbol;
    super::list::law_subscribing_reaches_the_kinds_channel(
        pre.task.active@,
        s,
        pair.kind,
        true,
    );
    super::list::law_subscribing_reaches_the_kinds_channel(
        pre.task.active@,
        s,
        pair.kind,
        false,
    );
    super::list::law_subscribing_reaches_the_kinds_channel(ListView::empty(), s, pair.kind, true);
}

/// A change that the server accepts is confirmed and announced as what it is,
/// active where it was added; one that the server refuses is answered with an
/// error, announced to nobody, and undone.
pub proof fn law_answers_decide_changes(
    pre: StreamingMachine,
    pair: Pair,
    refusal: Option<String>,
    now: Timestamp,
    post: StreamingMachine,
    acts: Seq<StreamAction>,
)
    requires
        pre.phase == Phase::Adding(pair) || pre.phase == Phase::Removing(pair),
        stepped(pre, StreamEvent::Answered { refusal }, now, post, acts),
    ensures
        post.phase is Running,
        acts.last() is Reply,
        acts.last()->Reply_0 is Ok <==> refusal is None,
        refusal is None ==> {
            &&& post.task.active == pre.task.active
            &&& acts.len() == 2 && acts[0] is Emit
            &&& acts[0]->Emit_0@ is Control
            &&& acts[0]->Emit_0@->Control_0.kind is SubscriptionChanged
            &&& acts[0]->Emit_0@->Control_0.kind->SubscriptionChanged_instrument
                == pair.instrument@
            &&& acts[0]->Emit_0@->Control_0.kind->SubscriptionChanged_kind == pair.kind
            &&& acts[0]->Emit_0@->Control_0.kind->active <==> pre.phase is Adding
        },
        refusal is Some ==> {
            &&& acts.len() == 1
            &&& pair.kind is Trade ==> symbols_in(post.task.active@.trades).contains(
                pair.instrument@.symbol,
            ) == pre.phase is Removing
            &&& pair.kind is Quote ==> symbols_in(post.task.active@.quotes).contains(
                pair.instrument@.symbol,
            ) == pre.phase is Removing
        },
{
    super::list::law_subscribing_reaches_the_kinds_channel(
        pre.task.active@,
        pair.instrument@.symbol,
        pair.kind,
        true,
    );
    super::list::law_subscribing_reaches_the_kinds_channel(
        pre.task.active@,
        pair.instrument@.symbol,
        pair.kind,
        false,
    );
}

/// A new connection is announced, and everything that was subscribed is asked
/// for again.
pub proof fn law_reconnecting_subscribes_again(
    pre: StreamingMachine,
    now: Timestamp,
    post: StreamingMachine,
    acts: Seq<StreamAction>,
    symbol: Seq<char>,
)
    requires
        pre.phase is Connecting,
        stepped(pre, StreamEvent::Connected, now, post, acts),
    ensures
        acts[0] is Emit,
        acts[0]->Emit_0@ is Control,
        acts[0]->Emit_0@->Control_0.kind is ProviderConnected,
        pre.task.active@.mentions(symbol) ==> acts.len() == 2 && acts[1] is Add
            && acts[1]->Add_0@ == pre.task.active@ && post.phase is Resubscribing,
        post.task.active == pre.task.active,
        post.task.backoff.current_ms == pre.task.backoff.policy.initial_backoff_ms,
{
}

/// A lost connection is announced with its reason, its subscriptions are kept,
/// and it is tried again after a wait that is no longer than the ladder's step;
/// only refused credentials that may still change are waited for instead.
pub proof fn law_losses_are_announced_and_retried(
    pre: StreamingMachine,
    said: String,
    unauthenticated: bool,
    now: Timestamp,
    post: StreamingMachine,
    acts: Seq<StreamAction>,
)
    requires
        pre.phase is Running,
        stepped(pre, StreamEvent::StreamFailed { said, unauthenticated }, now, post, acts),
    ensures
        acts[0] is Emit,
        acts[0]->Emit_0@ is Control,
        acts[0]->Emit_0@->Control_0.kind is ProviderDisconnected,
        acts[0]->Emit_0@->Control_0.kind->reason == "websocket: "@ + said@,
        acts[0]->Emit_0@->Control_0.kind->cause is Unauthenticated <==> unauthenticated,
        acts[1] is DropSocket,
        post.task.active == pre.task.active,
        unauthenticated && pre.credentials_watched <==> post.phase is Parked,
        !(unauthenticated && pre.credentials_watched) ==> post.phase is Retrying && acts.len() == 3
            && acts[2] is Sleep && acts[2]->ms <= pre.task.backoff.current_ms,
{
}

/// The stream connects with the account and the credentials that were found.
pub proof fn law_connects_with_what_was_found(
    pre: StreamingMachine,
    settings: AlpacaSettings,
    settings_watched: bool,
    credentials: Resolved,
    credentials_watched: bool,
    now: Timestamp,
    post: StreamingMachine,
    acts: Seq<StreamAction>,
)
    requires
        pre.phase is Resolving,
        !(credentials is Missing),
        stepped(
            pre,
            StreamEvent::Resolved {
                settings: Some(settings),
                settings_watched,
                credentials,
                credentials_watched,
            },
            now,
            post,
            acts,
        ),
    ensures
        acts.len() == 1 && acts[0] is Connect,
        acts[0]->account_type == settings.account_type,
        acts[0]->Connect_credentials is Some <==> credentials is Creds,
        credentials matches Resolved::Creds(c) ==> acts[0]->Connect_credentials == Some(c),
        post.phase is Connecting,
        post.credentials_watched == credentials_watched,
        post.settings_watched == settings_watched,
{
}

/// Credentials that rotate and settings that change while the stream runs make
/// it connect anew, from the first step of the ladder.
pub proof fn law_changed_sources_reconnect(
    pre: StreamingMachine,
    disabled: bool,
    now: Timestamp,
    post: StreamingMachine,
    acts: Seq<StreamAction>,
)
    requires
        pre.phase is Running,
        (pre.credentials_watched && stepped(pre, StreamEvent::CredentialsChanged, now, post, acts))
            || (pre.settings_watched && stepped(
            pre,
            StreamEvent::SettingsChanged { disabled },
            now,
            post,
            acts,
        )),
    ensures
        post.phase is Resolving,
        acts.len() == 3,
        acts[0] is Emit && acts[1] is CloseSocket && acts[2] is Resolve,
        acts[0]->Emit_0@ is Control,
        acts[0]->Emit_0@->Control_0.kind is ProviderDisconnected,
        post.task.active == pre.task.active,
        post.task.backoff.current_ms == pre.task.backoff.policy.initial_backoff_ms,
{
}

/// While the stream is not up, changes of subscriptions are refused, a close is
/// acknowledged, and either end ends the stream; a wait that is over, and news
/// from a source that is waited for, make it look for settings and credentials
/// again.
pub proof fn law_streams_that_are_down_refuse(
    pre: StreamingMachine,
    ev: StreamEvent,
    now: Timestamp,
    post: StreamingMachine,
    acts: Seq<StreamAction>,
)
    requires
        pre.phase is Parked || pre.phase is Retrying,
        stepped(pre, ev, now, post, acts),
    ensures
        ev matches StreamEvent::Command(cmd) ==> {
            &&& cmd is Subscribe || cmd is Unsubscribe ==> acts.len() >= 1 && acts[0] is Reply
                && acts[0]->Reply_0 is Err && acts[0]->Reply_0->Err_0@ is Provider
            &&& cmd is Close ==> acts.len() == 2 && acts[0] is Ack && acts[1] is Exit && post.phase
                is Exited
            &&& cmd is HandleDropped ==> acts.len() == 1 && acts[0] is Exit && post.phase is Exited
        },
        ev is DelayOver && pre.phase is Retrying ==> acts.len() == 1 && acts[0] is Resolve
            && post.phase is Resolving,
        pre.phase matches Phase::Parked { on, why, alive } ==> (ev is SourceChanged && alive
            ==> acts.len() == 1 && acts[0] is Resolve && post.phase is Resolving),
        post.task.active == pre.task.active,
{
}

/// A stream without settings or credentials waits for them where they may still
/// come, and ends where they cannot.
pub proof fn law_unprovisioned_streams_wait_or_end(
    pre: StreamingMachine,
    settings: Option<AlpacaSettings>,
    settings_watched: bool,
    credentials: Resolved,
    credentials_watched: bool,
    now: Timestamp,
    post: StreamingMachine,
    acts: Seq<StreamAction>,
)
    requires
        pre.phase is Resolving,
        stepped(
            pre,
            StreamEvent::Resolved { settings, settings_watched, credentials, credentials_watched },
            now,
            post,
            acts,
        ),
    ensures
        settings is None && settings_watched ==> post.phase is Parked && acts.len() == 0
            && post.phase->on is Settings && post.phase->why is Disabled,
        settings is None && !settings_watched ==> post.phase is Exited && acts.len() == 1
            && acts[0] is Exit,
        settings is Some && credentials is Missing && credentials_watched ==> post.phase is Parked
            && acts.len() == 0 && post.phase->on is Credentials && post.phase->why
            is NoCredentials,
        settings is Some && credentials is Missing && !credentials_watched ==> post.phase is Exited
            && acts.len() == 1 && acts[0] is Exit,
{
}

} // verus!
