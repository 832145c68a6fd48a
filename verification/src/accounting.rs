//! Per-provider call and throughput accounting.
//!
//! Counters are bumped where provider calls are made, where a coalesced fetch
//! is found, and for every event a controller forwards.

use vstd::prelude::*;

use crate::event::{ControlKind, ControlKindView, EventView, MarketEvent};

verus! {

#[derive(Clone, Copy, Debug, PartialEq, Eq, Structural)]
pub enum ConnectionState {
    Unknown,
    Connected,
    Disconnected,
}

/// Call and throughput counters of one provider. Counters wrap at the width
/// of a `u64`.
#[derive(Debug)]
pub struct ProviderAccounting {
    pub history_fetches: u64,
    pub history_fetch_coalesced: u64,
    pub live_starts: u64,
    pub subscribes: u64,
    pub unsubscribes: u64,
    pub reconnects: u64,
    pub messages: u64,
    pub gaps_emitted: u64,
    pub connection_state: ConnectionState,
    /// Whether a connection has been seen, so that the next one is a
    /// reconnect.
    pub seen_connect: bool,
    pub last_error: Option<String>,
}

/// The value of a [`ProviderAccounting`].
pub struct AccountingView {
    pub history_fetches: u64,
    pub history_fetch_coalesced: u64,
    pub live_starts: u64,
    pub subscribes: u64,
    pub unsubscribes: u64,
    pub reconnects: u64,
    pub messages: u64,
    pub gaps_emitted: u64,
    pub connection_state: ConnectionState,
    pub seen_connect: bool,
    pub last_error: Option<Seq<char>>,
}

/// A counter one further, from the largest back to zero.
pub open spec fn bump(n: u64) -> u64 {
    if n == u64::MAX {
        0
    } else {
        (n + 1) as u64
    }
}

impl AccountingView {
    pub open spec fn zero() -> AccountingView {
        AccountingView {
            history_fetches: 0,
            history_fetch_coalesced: 0,
            live_starts: 0,
            subscribes: 0,
            unsubscribes: 0,
            reconnects: 0,
            messages: 0,
            gaps_emitted: 0,
            connection_state: ConnectionState::Unknown,
            seen_connect: false,
            last_error: None,
        }
    }

    /// The counters after one forwarded event.
    pub open spec fn forwarded(self, ev: EventView, live: bool) -> AccountingView {
        match ev {
            EventView::Control(c) => match c.kind {
                ControlKindView::ProviderConnected { .. } => AccountingView {
                    connection_state: ConnectionState::Connected,
                    seen_connect: true,
                    reconnects: if self.seen_connect {
                        bump(self.reconnects)
                    } else {
                        self.reconnects
                    },
                    ..self
                },
                ControlKindView::ProviderDisconnected { .. } => AccountingView {
                    connection_state: ConnectionState::Disconnected,
                    ..self
                },
                ControlKindView::ProviderError { message, .. } => AccountingView {
                    last_error: Some(message),
                    ..self
                },
                ControlKindView::Gap { .. } => AccountingView {
                    gaps_emitted: bump(self.gaps_emitted),
                    ..self
                },
                _ => self,
            },
            _ => if live {
                AccountingView { messages: bump(self.messages), ..self }
            } else {
                self
            },
        }
    }
}

impl View for ProviderAccounting {
    type V = AccountingView;

    open spec fn view(&self) -> AccountingView {
        AccountingView {
            history_fetches: self.history_fetches,
            history_fetch_coalesced: self.history_fetch_coalesced,
            live_starts: self.live_starts,
            subscribes: self.subscribes,
            unsubscribes: self.unsubscribes,
            reconnects: self.reconnects,
            messages: self.messages,
            gaps_emitted: self.gaps_emitted,
            connection_state: self.connection_state,
            seen_connect: self.seen_connect,
            last_error: match self.last_error {
                Some(m) => Some(m@),
                None => None,
            },
        }
    }
}

impl Default for ProviderAccounting {
    fn default() -> (r: ProviderAccounting)
        ensures
            r@ == AccountingView::zero(),
    {
        ProviderAccounting {
            history_fetches: 0,
            history_fetch_coalesced: 0,
            live_starts: 0,
            subscribes: 0,
            unsubscribes: 0,
            reconnects: 0,
            messages: 0,
            gaps_emitted: 0,
            connection_state: ConnectionState::Unknown,
            seen_connect: false,
            last_error: None,
        }
    }
}

impl ProviderAccounting {
    /// One upstream history fetch, counted per fetched segment.
    pub fn record_history_fetch(&mut self)
        ensures
            final(self)@ == (AccountingView {
                history_fetches: bump(old(self)@.history_fetches),
                ..old(self)@
            }),
    {
        self.history_fetches = self.history_fetches.wrapping_add(1);
    }

    /// One history fetch that another fetch of the same range made needless.
    pub fn record_history_fetch_coalesced(&mut self)
        ensures
            final(self)@ == (AccountingView {
                history_fetch_coalesced: bump(old(self)@.history_fetch_coalesced),
                ..old(self)@
            }),
    {
        self.history_fetch_coalesced = self.history_fetch_coalesced.wrapping_add(1);
    }

    /// One start of a live connection.
    pub fn record_live_start(&mut self)
        ensures
            final(self)@ == (AccountingView {
                live_starts: bump(old(self)@.live_starts),
                ..old(self)@
            }),
    {
        self.live_starts = self.live_starts.wrapping_add(1);
    }

    /// One upstream subscribe call.
    pub fn record_subscribe(&mut self)
        ensures
            final(self)@ == (AccountingView {
                subscribes: bump(old(self)@.subscribes),
                ..old(self)@
            }),
    {
        self.subscribes = self.subscribes.wrapping_add(1);
    }

    /// One upstream unsubscribe call.
    pub fn record_unsubscribe(&mut self)
        ensures
            final(self)@ == (AccountingView {
                unsubscribes: bump(old(self)@.unsubscribes),
                ..old(self)@
            }),
    {
        self.unsubscribes = self.unsubscribes.wrapping_add(1);
    }

    /// Fold one forwarded event into the counters. A data event counts as a
    /// message only on a live session; what controls report is recorded
    /// either way.
    pub fn record_forwarded(&mut self, ev: &MarketEvent, live: bool)
        ensures
            final(self)@ == old(self)@.forwarded(ev@, live),
    {
        match ev {
            MarketEvent::Control(c) => match &c.kind {
                ControlKind::ProviderConnected { .. } => {
                    self.connection_state = ConnectionState::Connected;
                    if self.seen_connect {
                        self.reconnects = self.reconnects.wrapping_add(1);
                    }
                    self.seen_connect = true;
                },
                ControlKind::ProviderDisconnected { .. } => {
                    self.connection_state = ConnectionState::Disconnected;
                },
                ControlKind::ProviderError { provider: _, message } => {
                    self.last_error = Some(message.clone());
                },
                ControlKind::Gap { .. } => {
                    self.gaps_emitted = self.gaps_emitted.wrapping_add(1);
                },
                ControlKind::SubscriptionChanged { .. } => {},
                ControlKind::SessionClosing => {},
            },
            _ => {
                if live {
                    self.messages = self.messages.wrapping_add(1);
                }
            },
        }
    }

    pub fn history_fetches(&self) -> (r: u64)
        ensures
            r == self@.history_fetches,
    {
        self.history_fetches
    }

    pub fn history_fetch_coalesced(&self) -> (r: u64)
        ensures
            r == self@.history_fetch_coalesced,
    {
        self.history_fetch_coalesced
    }

    pub fn live_starts(&self) -> (r: u64)
        ensures
            r == self@.live_starts,
    {
        self.live_starts
    }

    pub fn subscribes(&self) -> (r: u64)
        ensures
            r == self@.subscribes,
    {
        self.subscribes
    }

    pub fn unsubscribes(&self) -> (r: u64)
        ensures
            r == self@.unsubscribes,
    {
        self.unsubscribes
    }

    pub fn reconnects(&self) -> (r: u64)
        ensures
            r == self@.reconnects,
    {
        self.reconnects
    }

    pub fn messages(&self) -> (r: u64)
        ensures
            r == self@.messages,
    {
        self.messages
    }

    pub fn gaps_emitted(&self) -> (r: u64)
        ensures
            r == self@.gaps_emitted,
    {
        self.gaps_emitted
    }

    pub fn connection_state(&self) -> (r: ConnectionState)
        ensures
            r == self@.connection_state,
    {
        self.connection_state
    }

    /// Message of the last provider error.
    pub fn last_error(&self) -> (r: Option<String>)
        ensures
            r is Some <==> self@.last_error is Some,
            r is Some ==> r->0@ == self@.last_error->0,
    {
        match &self.last_error {
            Some(m) => Some(m.clone()),
            None => None,
        }
    }
}

pub open spec fn is_connect(ev: EventView) -> bool {
    ev is Control && ev->Control_0.kind is ProviderConnected
}

pub open spec fn is_gap(ev: EventView) -> bool {
    ev is Control && ev->Control_0.kind is Gap
}

/// How many of the forwarded events, each with whether it came over a live
/// session, are connections.
pub open spec fn connects(evs: Seq<(EventView, bool)>) -> nat
    decreases evs.len(),
{
    if evs.len() == 0 {
        0
    } else {
        connects(evs.drop_last()) + if is_connect(evs.last().0) {
            1nat
        } else {
            0nat
        }
    }
}

/// How many of them are reports of missing data.
pub open spec fn gaps(evs: Seq<(EventView, bool)>) -> nat
    decreases evs.len(),
{
    if evs.len() == 0 {
        0
    } else {
        gaps(evs.drop_last()) + if is_gap(evs.last().0) {
            1nat
        } else {
            0nat
        }
    }
}

/// How many of them are data of live sessions.
pub open spec fn live_data(evs: Seq<(EventView, bool)>) -> nat
    decreases evs.len(),
{
    if evs.len() == 0 {
        0
    } else {
        live_data(evs.drop_last()) + if evs.last().0.is_data() && evs.last().1 {
            1nat
        } else {
            0nat
        }
    }
}

/// The state that the last of them which speaks of the connection leaves.
pub open spec fn connection_after(evs: Seq<(EventView, bool)>) -> ConnectionState
    decreases evs.len(),
{
    if evs.len() == 0 {
        ConnectionState::Unknown
    } else {
        match evs.last().0 {
            EventView::Control(c) => match c.kind {
                ControlKindView::ProviderConnected { .. } => ConnectionState::Connected,
                ControlKindView::ProviderDisconnected { .. } => ConnectionState::Disconnected,
                _ => connection_after(evs.drop_last()),
            },
            _ => connection_after(evs.drop_last()),
        }
    }
}

/// The message of the last of them that is an error.
pub open spec fn last_error_of(evs: Seq<(EventView, bool)>) -> Option<Seq<char>>
    decreases evs.len(),
{
    if evs.len() == 0 {
        None
    } else {
        match evs.last().0 {
            EventView::Control(c) => match c.kind {
                ControlKindView::ProviderError { message, .. } => Some(message),
                _ => last_error_of(evs.drop_last()),
            },
            _ => last_error_of(evs.drop_last()),
        }
    }
}

/// The counters after a sequence of forwarded events.
pub open spec fn forwarded_all(start: AccountingView, evs: Seq<(EventView, bool)>) -> AccountingView
    decreases evs.len(),
{
    if evs.len() == 0 {
        start
    } else {
        forwarded_all(start, evs.drop_last()).forwarded(evs.last().0, evs.last().1)
    }
}

/// Every connection but the first is a reconnect. Of any mix of events, of
/// live sessions and others, the counters tell the connections, the gaps and
/// the live data, and the states tell the last news of the connection and the
/// last error.
pub proof fn law_first_connect_is_no_reconnect(evs: Seq<(EventView, bool)>)
    requires
        evs.len() <= u64::MAX,
    ensures
        ({
            let a = forwarded_all(AccountingView::zero(), evs);
            &&& a.seen_connect <==> connects(evs) > 0
            &&& a.reconnects == if connects(evs) > 0 {
                (connects(evs) - 1) as nat
            } else {
                0
            }
            &&& a.gaps_emitted == gaps(evs)
            &&& a.messages == live_data(evs)
            &&& a.connection_state == connection_after(evs)
            &&& a.last_error == last_error_of(evs)
            &&& a == (AccountingView {
                seen_connect: a.seen_connect,
                reconnects: a.reconnects,
                gaps_emitted: a.gaps_emitted,
                messages: a.messages,
                connection_state: a.connection_state,
                last_error: a.last_error,
                ..AccountingView::zero()
            })
        }),
        connects(evs) <= evs.len(),
        gaps(evs) <= evs.len(),
        live_data(evs) <= evs.len(),
    decreases evs.len(),
{
    if evs.len() > 0 {
        law_first_connect_is_no_reconnect(evs.drop_last());
    }
}

} // verus!
