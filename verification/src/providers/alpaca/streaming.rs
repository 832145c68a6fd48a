//! The live stream of the stock provider: when to connect, what to subscribe,
//! what to report, and what follows a loss of the connection.

use vstd::prelude::*;

use crate::error::Error;
use crate::event::{
    ControlKind, ControlKindView, DisconnectCause, EventView, MarketEvent, SeqNo, Timestamp,
};
use crate::providers::credentials::{AlpacaCredentials, Resolved};
use crate::providers::link::{call_failed, next_backoff, provider_failure, Backoff, LiveCommand};
use crate::session::options::ReconnectPolicy;
use crate::table::Pair;
use crate::text::join;

use super::config::{AccountType, AlpacaSettings, PROVIDER_ID};
use super::list::{apply_pair_to_list, is_empty, ListView, StockSubscriptionList};

verus! {

/// What a parked task waits for.
#[derive(Clone, Copy, Debug, PartialEq, Eq, Structural)]
pub enum ParkOn {
    Settings,
    Credentials,
}

/// How an attempt to connect starts.
pub enum ConnectStep {
    /// Wait for the source to deliver; commands fail with the reason.
    Park { on: ParkOn, reason: String },
    /// Connect, with the credentials of the environment where none are given.
    Connect { account_type: AccountType, credentials: Option<AlpacaCredentials> },
    Exit,
}

/// What follows a loss of the connection.
#[derive(Debug)]
pub enum AfterLoss {
    /// Retrying cannot help: wait for new credentials.
    Park { reason: String },
    /// Wait this long, then connect again.
    RetryAfter { delay_ms: u64 },
}

/// A lost connection: what to report, and what follows.
#[derive(Debug)]
pub struct Loss {
    pub event: MarketEvent,
    pub next: AfterLoss,
}

/// A new connection: what to report, and what to subscribe on it.
#[derive(Debug)]
pub struct Connected {
    pub event: MarketEvent,
    pub resubscribe: Option<StockSubscriptionList>,
}

/// A request for the server.
#[derive(Debug)]
pub enum CommandStep {
    /// Send the whole list; then call `subscribe_answered`.
    Add(StockSubscriptionList),
    /// Send the removals; then call `unsubscribe_answered`.
    Remove(StockSubscriptionList),
    /// Close the socket, acknowledge, and exit.
    CloseAndAck,
    /// Close the socket and exit.
    Close,
}

/// The answer to a subscription change: what the caller gets, and what to
/// report.
#[derive(Debug)]
pub struct Answer {
    pub reply: Result<(), Error>,
    pub event: Option<MarketEvent>,
}

/// An unplaced control of this provider at `now`.
pub open spec fn report(now: Timestamp, kind: ControlKindView) -> EventView {
    EventView::control(now, SeqNo(0), kind)
}

pub open spec fn cause_of(unauthenticated: bool) -> DisconnectCause {
    if unauthenticated {
        DisconnectCause::Unauthenticated
    } else {
        DisconnectCause::Error
    }
}

pub open spec fn disconnected(
    now: Timestamp,
    reason: Seq<char>,
    cause: DisconnectCause,
) -> EventView {
    report(
        now,
        ControlKindView::ProviderDisconnected { provider: PROVIDER_ID@, reason, cause },
    )
}

pub open spec fn subscription_report(now: Timestamp, pair: Pair, active: bool) -> EventView {
    report(
        now,
        ControlKindView::SubscriptionChanged {
            provider: PROVIDER_ID@,
            instrument: pair.instrument@,
            kind: pair.kind,
            active,
        },
    )
}

fn disconnected_event(now: Timestamp, reason: String, cause: DisconnectCause) -> (r: MarketEvent)
    ensures
        r@ == disconnected(now, reason@, cause),
{
    MarketEvent::control(
        now,
        SeqNo(0),
        ControlKind::ProviderDisconnected { provider: PROVIDER_ID.to_owned(), reason, cause },
    )
}

fn subscription_event(now: Timestamp, pair: &Pair, active: bool) -> (r: MarketEvent)
    ensures
        r@ == subscription_report(now, *pair, active),
{
    MarketEvent::control(
        now,
        SeqNo(0),
        ControlKind::SubscriptionChanged {
            provider: PROVIDER_ID.to_owned(),
            instrument: pair.instrument.clone(),
            kind: pair.kind,
            active,
        },
    )
}

/// State of the streaming task that outlives a connection.
pub struct StreamingTask {
    /// What is subscribed, applied to every new connection.
    pub active: StockSubscriptionList,
    pub backoff: Backoff,
}

impl StreamingTask {
    pub fn new(policy: ReconnectPolicy) -> (r: StreamingTask)
        ensures
            r.active@ == ListView::empty(),
            r.backoff == (Backoff { current_ms: policy.initial_backoff_ms, policy }),
    {
        StreamingTask { active: StockSubscriptionList::new(), backoff: Backoff::new(policy) }
    }

    /// How to start: a disabled provider and one without credentials wait for
    /// their sources, and exit where these can never deliver.
    pub fn connect_step(
        settings: Option<AlpacaSettings>,
        settings_watched: bool,
        credentials: Resolved,
        credentials_watched: bool,
    ) -> (r: ConnectStep)
        ensures
            settings is None && !settings_watched ==> r is Exit,
            settings is None && settings_watched ==> r is Park && r->on == ParkOn::Settings
                && r->reason@ == "provider disabled"@,
            settings is Some && credentials is Missing && !credentials_watched ==> r is Exit,
            settings is Some && credentials is Missing && credentials_watched ==> r is Park && r->on
                == ParkOn::Credentials && r->reason@ == "waiting for credentials"@,
            settings is Some && !(credentials is Missing) ==> r == (ConnectStep::Connect {
                account_type: settings->0.account_type,
                credentials: match credentials {
                    Resolved::Creds(c) => Some(c),
                    _ => None,
                },
            }),
    {
        let settings = match settings {
            Some(s) => s,
            None => {
                if settings_watched {
                    return ConnectStep::Park {
                        on: ParkOn::Settings,
                        reason: "provider disabled".to_owned(),
                    };
                }
                return ConnectStep::Exit;
            },
        };
        match credentials {
            Resolved::Env => ConnectStep::Connect {
                account_type: settings.account_type,
                credentials: None,
            },
            Resolved::Creds(c) => ConnectStep::Connect {
                account_type: settings.account_type,
                credentials: Some(c),
            },
            Resolved::Missing => {
                if credentials_watched {
                    ConnectStep::Park {
                        on: ParkOn::Credentials,
                        reason: "waiting for credentials".to_owned(),
                    }
                } else {
                    ConnectStep::Exit
                }
            },
        }
    }

    /// A connection is up: the ladder starts over, and whatever is subscribed
    /// is applied to it.
    pub fn connected(&mut self, now: Timestamp) -> (r: Connected)
        ensures
            final(self).active == old(self).active,
            final(self).backoff == (Backoff {
                current_ms: old(self).backoff.policy.initial_backoff_ms,
                ..old(self).backoff
            }),
            r.event@ == report(now, ControlKindView::ProviderConnected { provider: PROVIDER_ID@ }),
            r.resubscribe is Some <==> !old(self).active@.is_empty(),
            r.resubscribe is Some ==> r.resubscribe->0@ == old(self).active@,
    {
        self.backoff.reset();
        let resubscribe = if is_empty(&self.active) {
            None
        } else {
            Some(self.active.clone())
        };
        Connected {
            event: MarketEvent::control(
                now,
                SeqNo(0),
                ControlKind::ProviderConnected { provider: PROVIDER_ID.to_owned() },
            ),
            resubscribe,
        }
    }

    /// The report that subscriptions could not be applied to a new
    /// connection.
    pub fn resubscribe_failed(said: &str, now: Timestamp) -> (r: MarketEvent)
        ensures
            r@ == report(
                now,
                ControlKindView::ProviderError {
                    provider: PROVIDER_ID@,
                    message: "re-subscribe failed: "@ + said@,
                },
            ),
    {
        MarketEvent::control(
            now,
            SeqNo(0),
            ControlKind::ProviderError {
                provider: PROVIDER_ID.to_owned(),
                message: join("re-subscribe failed: ", said),
            },
        )
    }

    fn lost(
        &mut self,
        what: &str,
        said: &str,
        unauthenticated: bool,
        credentials_watched: bool,
        now: Timestamp,
    ) -> (r: Loss)
        requires
            old(self).backoff.can_double(),
        ensures
            final(self).active == old(self).active,
            r.event@ == disconnected(now, what@ + said@, cause_of(unauthenticated)),
            follows_loss(
                old(self).backoff,
                final(self).backoff,
                unauthenticated && credentials_watched,
                r.next,
            ),
    {
        let cause = if unauthenticated {
            DisconnectCause::Unauthenticated
        } else {
            DisconnectCause::Error
        };
        let event = disconnected_event(now, join(what, said), cause);
        if unauthenticated && credentials_watched {
            Loss {
                event,
                next: AfterLoss::Park {
                    reason: "waiting for new credentials after auth rejection".to_owned(),
                },
            }
        } else {
            let delay_ms: u64 = self.backoff.delay();
            Loss { event, next: AfterLoss::RetryAfter { delay_ms } }
        }
    }

    /// Connecting failed.
    pub fn connect_failed(
        &mut self,
        said: &str,
        unauthenticated: bool,
        credentials_watched: bool,
        now: Timestamp,
    ) -> (r: Loss)
        requires
            old(self).backoff.can_double(),
        ensures
            final(self).active == old(self).active,
            r.event@ == disconnected(now, "connect failed: "@ + said@, cause_of(unauthenticated)),
            follows_loss(
                old(self).backoff,
                final(self).backoff,
                unauthenticated && credentials_watched,
                r.next,
            ),
    {
        self.lost("connect failed: ", said, unauthenticated, credentials_watched, now)
    }

    /// The connection broke.
    pub fn websocket_failed(
        &mut self,
        said: &str,
        unauthenticated: bool,
        credentials_watched: bool,
        now: Timestamp,
    ) -> (r: Loss)
        requires
            old(self).backoff.can_double(),
        ensures
            final(self).active == old(self).active,
            r.event@ == disconnected(now, "websocket: "@ + said@, cause_of(unauthenticated)),
            follows_loss(
                old(self).backoff,
                final(self).backoff,
                unauthenticated && credentials_watched,
                r.next,
            ),
    {
        self.lost("websocket: ", said, unauthenticated, credentials_watched, now)
    }

    /// The credentials were rotated: drop the connection and connect afresh,
    /// at once, since this is no failure.
    pub fn credentials_rotated(&mut self, now: Timestamp) -> (r: MarketEvent)
        ensures
            final(self).active == old(self).active,
            final(self).backoff == (Backoff {
                current_ms: old(self).backoff.policy.initial_backoff_ms,
                ..old(self).backoff
            }),
            r@ == disconnected(now, "credentials rotated"@, DisconnectCause::Error),
    {
        self.backoff.reset();
        disconnected_event(now, "credentials rotated".to_owned(), DisconnectCause::Error)
    }

    /// The settings changed, or went away: drop the connection and resolve
    /// them afresh.
    pub fn settings_changed(&mut self, disabled: bool, now: Timestamp) -> (r: MarketEvent)
        ensures
            final(self).active == old(self).active,
            final(self).backoff == (Backoff {
                current_ms: old(self).backoff.policy.initial_backoff_ms,
                ..old(self).backoff
            }),
            r@ == disconnected(
                now,
                if disabled {
                    "provider disabled"@
                } else {
                    "settings changed"@
                },
                DisconnectCause::Error,
            ),
    {
        self.backoff.reset();
        let reason = if disabled {
            "provider disabled"
        } else {
            "settings changed"
        };
        disconnected_event(now, reason.to_owned(), DisconnectCause::Error)
    }

    /// Decide a command while connected. A subscription is entered into the
    /// list before the server is asked, and the whole list is sent; a removal
    /// names the one pair.
    pub fn command(&mut self, cmd: &LiveCommand) -> (r: CommandStep)
        ensures
            final(self).backoff == old(self).backoff,
            match cmd {
                LiveCommand::Subscribe(pair) => {
                    &&& final(self).active@ == old(self).active@.applied(
                        pair.instrument@.symbol,
                        pair.kind,
                        true,
                    )
                    &&& r is Add
                    &&& r->Add_0@ == final(self).active@
                },
                LiveCommand::Unsubscribe(pair) => {
                    &&& final(self).active@ == old(self).active@.applied(
                        pair.instrument@.symbol,
                        pair.kind,
                        false,
                    )
                    &&& r is Remove
                    &&& r->Remove_0@ == ListView::empty().applied(
                        pair.instrument@.symbol,
                        pair.kind,
                        true,
                    )
                },
                LiveCommand::Close => r is CloseAndAck && *final(self) == *old(self),
                LiveCommand::HandleDropped => r is Close && *final(self) == *old(self),
            },
    {
        match cmd {
            LiveCommand::Subscribe(pair) => {
                apply_pair_to_list(&mut self.active, &pair.instrument, pair.kind, true);
                CommandStep::Add(self.active.clone())
            },
            LiveCommand::Unsubscribe(pair) => {
                apply_pair_to_list(&mut self.active, &pair.instrument, pair.kind, false);
                let mut removal = StockSubscriptionList::new();
                apply_pair_to_list(&mut removal, &pair.instrument, pair.kind, true);
                CommandStep::Remove(removal)
            },
            LiveCommand::Close => CommandStep::CloseAndAck,
            LiveCommand::HandleDropped => CommandStep::Close,
        }
    }

    /// The server answered a subscription, `refusal` being what it said where
    /// it refused. A refused pair leaves the list, so that reconnecting does
    /// not ask for it again.
    pub fn subscribe_answered(&mut self, pair: &Pair, refusal: Option<&str>, now: Timestamp) -> (r:
        Answer)
        ensures
            final(self).backoff == old(self).backoff,
            refusal is None ==> {
                &&& final(self).active == old(self).active
                &&& r.reply is Ok
                &&& r.event is Some
                &&& r.event->0@ == subscription_report(now, *pair, true)
            },
            refusal matches Some(said) ==> {
                &&& final(self).active@ == old(self).active@.applied(
                    pair.instrument@.symbol,
                    pair.kind,
                    false,
                )
                &&& r.reply is Err
                &&& r.reply->Err_0@ == provider_failure(
                    PROVIDER_ID@,
                    "add_subscriptions"@ + ": "@ + said@,
                )
                &&& r.event is None
            },
    {
        match refusal {
            None => Answer { reply: Ok(()), event: Some(subscription_event(now, pair, true)) },
            Some(said) => {
                apply_pair_to_list(&mut self.active, &pair.instrument, pair.kind, false);
                Answer {
                    reply: Err(call_failed(PROVIDER_ID, "add_subscriptions", said)),
                    event: None,
                }
            },
        }
    }

    /// The server answered a removal. A pair that could not be removed goes
    /// back into the list: it is still streaming, and reconnecting must ask
    /// for it again.
    pub fn unsubscribe_answered(
        &mut self,
        pair: &Pair,
        refusal: Option<&str>,
        now: Timestamp,
    ) -> (r: Answer)
        ensures
            final(self).backoff == old(self).backoff,
            refusal is None ==> {
                &&& final(self).active == old(self).active
                &&& r.reply is Ok
                &&& r.event is Some
                &&& r.event->0@ == subscription_report(now, *pair, false)
            },
            refusal matches Some(said) ==> {
                &&& final(self).active@ == old(self).active@.applied(
                    pair.instrument@.symbol,
                    pair.kind,
                    true,
                )
                &&& r.reply is Err
                &&& r.reply->Err_0@ == provider_failure(
                    PROVIDER_ID@,
                    "remove_subscriptions"@ + ": "@ + said@,
                )
                &&& r.event is None
            },
    {
        match refusal {
            None => Answer { reply: Ok(()), event: Some(subscription_event(now, pair, false)) },
            Some(said) => {
                apply_pair_to_list(&mut self.active, &pair.instrument, pair.kind, true);
                Answer {
                    reply: Err(call_failed(PROVIDER_ID, "remove_subscriptions", said)),
                    event: None,
                }
            },
        }
    }
}

/// What follows a loss. Rejected credentials that can be rotated are waited
/// for and leave the ladder alone; everything else is retried, one step up
/// the ladder.
pub open spec fn follows_loss(
    pre: Backoff,
    post: Backoff,
    rejected: bool,
    next: AfterLoss,
) -> bool {
    if rejected {
        &&& post == pre
        &&& next is Park
        &&& next->reason@ == "waiting for new credentials after auth rejection"@
    } else {
        &&& post.policy == pre.policy
        &&& post.current_ms == next_backoff(
            pre.current_ms as int,
            pre.policy.max_backoff_ms as int,
        )
        &&& next is RetryAfter
        &&& next->delay_ms <= pre.current_ms
        &&& !pre.policy.jitter ==> next->delay_ms == pre.current_ms
    }
}

/// A subscription that the server refuses leaves no trace where the symbol
/// was not subscribed before.
pub proof fn law_refused_subscription_leaves_no_trace(list: ListView, pair: Pair)
    requires
        list.tidy(),
        !list.mentions(pair.instrument@.symbol),
    ensures
        list.applied(pair.instrument@.symbol, pair.kind, true).applied(
            pair.instrument@.symbol,
            pair.kind,
            false,
        ) == list,
{
    super::list::law_rollback_restores_the_list(list, pair.instrument@.symbol, pair.kind);
}

/// The reports of the stream name the provider and what happened: a lost
/// connection with its reason and whether the credentials were refused, a
/// subscription that changed with its pair and whether it is active.
pub proof fn law_stream_reports_say_what_happened(
    now: Timestamp,
    reason: Seq<char>,
    unauthenticated: bool,
    pair: Pair,
    active: bool,
)
    ensures
        disconnected(now, reason, cause_of(unauthenticated)) matches EventView::Control(c) && {
            &&& c.kind is ProviderDisconnected
            &&& c.kind->ProviderDisconnected_provider == PROVIDER_ID@
            &&& c.kind->reason == reason
            &&& c.kind->cause is Unauthenticated <==> unauthenticated
            &&& c.kind->cause is Error <==> !unauthenticated
            &&& c.source_ts == now && c.rx_ts == now
        },
        subscription_report(now, pair, active) matches EventView::Control(c) && {
            &&& c.kind is SubscriptionChanged
            &&& c.kind->SubscriptionChanged_provider == PROVIDER_ID@
            &&& c.kind->SubscriptionChanged_instrument == pair.instrument@
            &&& c.kind->SubscriptionChanged_kind == pair.kind
            &&& c.kind->active == active
            &&& c.source_ts == now && c.rx_ts == now
        },
{
}

} // verus!
