//! A receiver of a watched value, with a record of what was done with it.

use vstd::prelude::*;

verus! {

/// A watched value of tokio as seen by its receiver.
#[verifier::external_type_specification]
#[verifier::external_body]
#[verifier::reject_recursive_types(T)]
pub struct ExWatchReceiver<T>(tokio::sync::watch::Receiver<T>);

/// What a receiver can say of the value that it watches.
#[derive(Clone, Copy, Debug, PartialEq, Eq, Structural)]
pub enum Freshness {
    /// A value has been sent that the receiver has not seen.
    Changed,
    Unchanged,
    /// The sender is gone; a last value may be unseen.
    Closed,
}

/// What was done with a receiver.
#[derive(Clone, Copy, Debug, PartialEq, Eq, Structural)]
pub enum ReceiverCall {
    /// It was asked for news, and gave this answer.
    Asked(Freshness),
    /// The current value was read, and counts as seen.
    Read,
    /// The current value was declared seen.
    MarkedUnchanged,
}

/// A receiver together with the record of what was done with it. Only what is
/// done writes the record.
#[verifier::reject_recursive_types(T)]
pub struct Watched<T> {
    rx: tokio::sync::watch::Receiver<T>,
    start: Ghost<tokio::sync::watch::Receiver<T>>,
    record: Ghost<Seq<ReceiverCall>>,
}

/// The record of a receiver that has been dropped.
#[verifier::reject_recursive_types(T)]
pub struct Retired<T> {
    start: Ghost<tokio::sync::watch::Receiver<T>>,
    record: Ghost<Seq<ReceiverCall>>,
}

impl<T> Retired<T> {
    /// The receiver as it was when its record began.
    pub closed spec fn start(self) -> tokio::sync::watch::Receiver<T> {
        self.start@
    }

    /// What was done with the receiver before it was dropped, in order.
    pub closed spec fn record(self) -> Seq<ReceiverCall> {
        self.record@
    }
}

impl<T> Watched<T> {
    /// The receiver as it is.
    pub closed spec fn receiver(self) -> tokio::sync::watch::Receiver<T> {
        self.rx
    }

    /// The receiver as it was when the record began.
    pub closed spec fn start(self) -> tokio::sync::watch::Receiver<T> {
        self.start@
    }

    /// What has been done with the receiver since, in order.
    pub closed spec fn record(self) -> Seq<ReceiverCall> {
        self.record@
    }

    pub fn new(rx: tokio::sync::watch::Receiver<T>) -> (r: Watched<T>)
        ensures
            r.receiver() == rx,
            r.start() == rx,
            r.record() == Seq::<ReceiverCall>::empty(),
    {
        let ghost start = rx;
        Watched { rx, start: Ghost(start), record: Ghost(Seq::empty()) }
    }

    /// The receiver itself.
    pub fn into_receiver(self) -> (r: tokio::sync::watch::Receiver<T>)
        ensures
            r == self.receiver(),
    {
        self.rx
    }

    /// Drop the receiver and keep its record.
    pub fn retire(self) -> (r: Retired<T>)
        ensures
            r.start() == self.start(),
            r.record() == self.record(),
    {
        Retired { start: self.start, record: self.record }
    }

    /// Calls `tokio::sync::watch::Receiver::has_changed`, whose error means
    /// that the sender is gone. The answer is up to the sender; it goes into
    /// the record.
    #[verifier::external_body]
    pub(crate) fn ask(&mut self) -> (r: Freshness)
        ensures
            final(self).start() == old(self).start(),
            final(self).record() == old(self).record().push(ReceiverCall::Asked(r)),
    {
        match self.rx.has_changed() {
            Ok(true) => Freshness::Changed,
            Ok(false) => Freshness::Unchanged,
            Err(_) => Freshness::Closed,
        }
    }

    /// Calls `tokio::sync::watch::Receiver::borrow_and_update`, which marks
    /// the current value as seen, and drops the borrow. The call goes into the
    /// record.
    #[verifier::external_body]
    pub(crate) fn read(&mut self)
        ensures
            final(self).start() == old(self).start(),
            final(self).record() == old(self).record().push(ReceiverCall::Read),
    {
        let _ = self.rx.borrow_and_update();
    }

    /// Calls `tokio::sync::watch::Receiver::mark_unchanged`, after which the
    /// current value counts as seen. The call goes into the record.
    #[verifier::external_body]
    pub(crate) fn mark_unchanged(&mut self)
        ensures
            final(self).start() == old(self).start(),
            final(self).record() == old(self).record().push(ReceiverCall::MarkedUnchanged),
    {
        self.rx.mark_unchanged();
    }
}

} // verus!
