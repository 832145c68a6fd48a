//! A referrer's channel, with a record of every offer made to it.

use vstd::prelude::*;

use crate::event::MarketEvent;

verus! {

/// A bounded channel of tokio as seen by its sender.
#[verifier::external_type_specification]
#[verifier::external_body]
#[verifier::reject_recursive_types(T)]
pub struct ExMpscSender<T>(tokio::sync::mpsc::Sender<T>);

/// What a channel did with an event that was offered to it.
#[derive(Clone, Copy, Debug, PartialEq, Eq, Structural)]
pub enum SendOutcome {
    Accepted,
    Full,
    Closed,
}

/// A channel together with the record of what was offered to it. Only
/// offering writes the record.
pub struct Outlet {
    tx: tokio::sync::mpsc::Sender<MarketEvent>,
    offers: Ghost<Seq<(MarketEvent, SendOutcome)>>,
}

impl Outlet {
    /// The channel.
    pub closed spec fn channel(self) -> tokio::sync::mpsc::Sender<MarketEvent> {
        self.tx
    }

    /// Every event that was offered to the channel and what the channel did
    /// with it, in order.
    pub closed spec fn offers(self) -> Seq<(MarketEvent, SendOutcome)> {
        self.offers@
    }

    pub fn new(tx: tokio::sync::mpsc::Sender<MarketEvent>) -> (r: Outlet)
        ensures
            r.channel() == tx,
            r.offers() == Seq::<(MarketEvent, SendOutcome)>::empty(),
    {
        Outlet { tx, offers: Ghost(Seq::empty()) }
    }

    /// Offer one event through `tokio::sync::mpsc::Sender::try_send`, which
    /// never blocks: it queues the event behind those accepted before, or
    /// hands it back because the channel is full or its receiver is gone.
    /// Which of these happens is up to the receiver. The offer and its outcome
    /// go into the record, which is of this handle's offers alone.
    #[verifier::external_body]
    pub(crate) fn offer(&mut self, ev: MarketEvent) -> (r: SendOutcome)
        ensures
            final(self).channel() == old(self).channel(),
            final(self).offers() == old(self).offers().push((ev, r)),
    {
        match self.tx.try_send(ev) {
            Ok(()) => SendOutcome::Accepted,
            Err(tokio::sync::mpsc::error::TrySendError::Full(_)) => SendOutcome::Full,
            Err(tokio::sync::mpsc::error::TrySendError::Closed(_)) => SendOutcome::Closed,
        }
    }
}

} // verus!
