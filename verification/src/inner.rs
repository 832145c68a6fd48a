//! The service's request loop.

use vstd::prelude::*;

use crate::subscriptions::alpaca::Subscription;

verus! {

/// Failure of a request.
#[derive(Debug, PartialEq, Eq)]
pub enum Error {
    /// The data client ended without an answer.
    UnexpectedTermination,
    /// The data client's failure, as it is rendered.
    Alpaca(String),
}

/// A request to the service.
#[derive(Debug)]
pub enum SubscriptionRequest {
    Subscribe { subscription: Subscription },
    Unsubscribe { subscription: Subscription },
    ShutDown,
}

impl SubscriptionRequest {
    pub fn subscribe(subscription: Subscription) -> (r: SubscriptionRequest)
        ensures
            r == (SubscriptionRequest::Subscribe { subscription }),
    {
        SubscriptionRequest::Subscribe { subscription }
    }

    pub fn unsubscribe(subscription: Subscription) -> (r: SubscriptionRequest)
        ensures
            r == (SubscriptionRequest::Unsubscribe { subscription }),
    {
        SubscriptionRequest::Unsubscribe { subscription }
    }

    pub fn shut_down() -> (r: SubscriptionRequest)
        ensures
            r is ShutDown,
    {
        SubscriptionRequest::ShutDown
    }
}

/// What the loop knows to be subscribed.
pub struct Inner {
    pub subscriptions: Vec<Subscription>,
}

fn clone_all(subs: &Vec<Subscription>) -> (r: Vec<Subscription>)
    ensures
        r@ == subs@,
{
    let mut out: Vec<Subscription> = Vec::new();
    let mut k: usize = 0;
    while k < subs.len()
        invariant
            0 <= k <= subs@.len(),
            out@ == subs@.take(k as int),
        decreases subs@.len() - k,
    {
        out.push(subs[k].clone());
        proof {
            assert(out@ =~= subs@.take(k as int + 1));
        }
        k += 1;
    }
    proof {
        assert(out@ =~= subs@);
    }
    out
}

impl Inner {
    pub fn new() -> (r: Inner)
        ensures
            r.subscriptions@.len() == 0,
    {
        Inner { subscriptions: Vec::new() }
    }

    /// Adopt the data client's answer to a subscription change: what is now
    /// subscribed, its failure, or `None` where it ended.
    pub fn answered(&mut self, answer: Option<Result<Vec<Subscription>, Error>>) -> (r: Result<
        Vec<Subscription>,
        Error,
    >)
        ensures
            match answer {
                Some(Ok(subs)) => r is Ok && r->Ok_0@ == subs@ && final(self).subscriptions == subs,
                Some(Err(e)) => r == Err::<Vec<Subscription>, Error>(e) && *final(self) == *old(
                    self,
                ),
                None => r == Err::<Vec<Subscription>, Error>(Error::UnexpectedTermination)
                    && *final(self) == *old(self),
            },
    {
        match answer {
            Some(Ok(subs)) => {
                let copy = clone_all(&subs);
                self.subscriptions = subs;
                Ok(copy)
            },
            Some(Err(e)) => Err(e),
            None => Err(Error::UnexpectedTermination),
        }
    }
}

} // verus!
