//! A client's handle: what it asks of its controller, and how it reads the
//! answers.

use vstd::prelude::*;

use crate::error::Error;
use crate::event::{EventKind, Instrument};
use crate::session::options::{PersistenceOptions, Scope};
use crate::table::Pair;

use super::controller::ClientCommand;
use super::stats::ClientSessionId;

verus! {

/// The handle of one client: a mutable set of subscriptions behind one
/// multiplexed stream. Each symbol's events come in the order of their places;
/// across symbols they come as they arrive.
#[derive(Debug)]
pub struct ClientSession {
    pub id: ClientSessionId,
}

impl ClientSession {
    pub fn new(id: ClientSessionId) -> (r: ClientSession)
        ensures
            r.id == id,
    {
        ClientSession { id }
    }

    /// The request to add a subscription.
    pub fn subscribe(
        &self,
        instrument: Instrument,
        kind: EventKind,
        scope: Scope,
        options: PersistenceOptions,
    ) -> (r: ClientCommand)
        ensures
            r == (ClientCommand::Subscribe { pair: Pair { instrument, kind }, scope, options }),
    {
        ClientCommand::Subscribe { pair: Pair { instrument, kind }, scope, options }
    }

    /// The request to remove a subscription.
    pub fn unsubscribe(&self, instrument: Instrument, kind: EventKind) -> (r: ClientCommand)
        ensures
            r == (ClientCommand::Unsubscribe { pair: Pair { instrument, kind } }),
    {
        ClientCommand::Unsubscribe { pair: Pair { instrument, kind } }
    }

    /// The request for the multiplexed stream.
    pub fn take_events(&self) -> (r: ClientCommand)
        ensures
            r is Take,
    {
        ClientCommand::Take
    }

    /// The request for the subscription set.
    pub fn subscriptions(&self) -> (r: ClientCommand)
        ensures
            r is Subscriptions,
    {
        ClientCommand::Subscriptions
    }

    /// The number of this client.
    pub fn id(&self) -> (r: ClientSessionId)
        ensures
            r == self.id,
    {
        self.id
    }

    /// The request to end the client.
    pub fn close(self) -> (r: ClientCommand)
        ensures
            r is Close,
    {
        ClientCommand::Close
    }
}

/// The answer to a request, `None` where the controller is gone.
pub fn answered<T>(reply: Option<Result<T, Error>>) -> (r: Result<T, Error>)
    ensures
        r == match reply {
            Some(answer) => answer,
            None => Err(Error::SessionClosed),
        },
{
    match reply {
        Some(answer) => answer,
        None => Err(Error::SessionClosed),
    }
}

/// The subscription set that the controller reports; a controller that is gone
/// has none.
pub fn reported(reply: Option<Vec<(Instrument, EventKind)>>) -> (r: Vec<(Instrument, EventKind)>)
    ensures
        r@ == match reply {
            Some(subs) => subs@,
            None => seq![],
        },
{
    match reply {
        Some(subs) => subs,
        None => {
            let subs: Vec<(Instrument, EventKind)> = Vec::new();
            proof {
                assert(subs@ =~= seq![]);
            }
            subs
        },
    }
}

} // verus!
