//! Sources of a provider's runtime settings: fixed, or watched, where the
//! absence of settings means that the provider is disabled.

use vstd::prelude::*;

use super::watched::{Freshness, ReceiverCall, Retired, Watched};

verus! {

/// Calls `tokio::sync::watch::Receiver::borrow` and clones the value that was
/// sent last. Which one that is depends on the sender.
#[verifier::external_body]
pub(crate) fn latest<T: Clone>(rx: &tokio::sync::watch::Receiver<Option<T>>) -> (r: Option<T>) {
    rx.borrow().clone()
}

/// Calls `Clone::clone` of `tokio::sync::watch::Receiver`, and claims that the
/// result is what that gives: a receiver of the same value, which has seen what
/// the receiver that it is cloned from has seen.
#[verifier::external_body]
pub(crate) fn clone_receiver<T>(rx: &tokio::sync::watch::Receiver<T>) -> (r: tokio::sync::watch::Receiver<
    T,
>)
    ensures
        cloned(*rx, r),
{
    rx.clone()
}

/// Whether a receiver was made of `rx` so that it reports only what was sent
/// afterwards: it is a clone whose value at the time was declared seen.
pub open spec fn fresh_from<T>(rx: tokio::sync::watch::Receiver<T>, r: Watched<T>) -> bool {
    &&& cloned(rx, r.start())
    &&& r.record() == seq![ReceiverCall::MarkedUnchanged]
}

/// A receiver of the same value that reports only what is sent from now on.
/// A bare clone would inherit what its source has not seen, and report a
/// change at once.
pub(crate) fn fresh_receiver<T>(rx: &tokio::sync::watch::Receiver<T>) -> (r: Watched<T>)
    ensures
        fresh_from(*rx, r),
{
    let mut fresh = Watched::new(clone_receiver(rx));
    fresh.mark_unchanged();
    proof {
        assert(fresh.record() =~= seq![ReceiverCall::MarkedUnchanged]);
    }
    fresh
}

/// Where a provider gets its runtime settings.
#[derive(Debug)]
#[verifier::reject_recursive_types(T)]
pub enum SettingsSource<T> {
    /// Fixed settings; the provider is always enabled.
    Static(T),
    /// Settings that may change; `None` means disabled.
    Watch(tokio::sync::watch::Receiver<Option<T>>),
}

impl<T: Clone> Clone for SettingsSource<T> {
    /// A source of the same kind: the same settings, or another receiver of
    /// the same watched value.
    fn clone(&self) -> (r: SettingsSource<T>)
        ensures
            self is Watch <==> r is Watch,
            self matches SettingsSource::Static(s) ==> r matches SettingsSource::Static(t)
                && cloned(*s, t),
            self matches SettingsSource::Watch(rx) ==> r matches SettingsSource::Watch(s)
                && cloned(*rx, s),
    {
        match self {
            SettingsSource::Static(s) => SettingsSource::Static(s.clone()),
            SettingsSource::Watch(rx) => SettingsSource::Watch(clone_receiver(rx)),
        }
    }
}

impl<T: Clone> SettingsSource<T> {
    /// The current settings, or `None` while a watched source is disabled.
    pub fn current(&self) -> (r: Option<T>)
        ensures
            self matches SettingsSource::Static(s) ==> r is Some && cloned(*s, r->0),
    {
        match self {
            SettingsSource::Static(s) => Some(s.clone()),
            SettingsSource::Watch(rx) => latest(rx),
        }
    }

    /// A receiver of changes from now on, where the source can change.
    pub fn watch(&self) -> (r: Option<Watched<Option<T>>>)
        ensures
            r is Some <==> self is Watch,
            self matches SettingsSource::Watch(rx) ==> fresh_from(*rx, r->0),
    {
        match self {
            SettingsSource::Watch(rx) => Some(fresh_receiver(rx)),
            SettingsSource::Static(_) => None,
        }
    }
}

/// Where a receiver is cached between checks.
#[verifier::reject_recursive_types(T)]
pub enum WatchSlot<T> {
    /// There is nothing to watch.
    Empty,
    Held(Watched<T>),
    /// The sender is gone, and the receiver was dropped.
    Gone(Retired<T>),
}

impl<T> WatchSlot<T> {
    /// A slot for the receiver of a source that may have none.
    pub fn new(watched: Option<Watched<T>>) -> (r: WatchSlot<T>)
        ensures
            r == match watched {
                Some(w) => WatchSlot::Held(w),
                None => WatchSlot::Empty,
            },
    {
        match watched {
            Some(w) => WatchSlot::Held(w),
            None => WatchSlot::Empty,
        }
    }
}

/// What a receiver's answer means: whether there is a change, and whether the
/// receiver is of any further use. Where the sender is gone a last value may
/// be pending, so that counts as a change, but only once.
pub open spec fn change_of(freshness: Freshness) -> (bool, bool) {
    match freshness {
        Freshness::Changed => (true, true),
        Freshness::Unchanged => (false, true),
        Freshness::Closed => (true, false),
    }
}

/// Decide what a receiver's answer means.
pub fn classify(freshness: Freshness) -> (r: (bool, bool))
    ensures
        r == change_of(freshness),
{
    match freshness {
        Freshness::Changed => (true, true),
        Freshness::Unchanged => (false, true),
        Freshness::Closed => (true, false),
    }
}

/// What a check does to a cached receiver, and when it reports a change. A
/// receiver that is held is asked once, and its answer decides: where there is
/// news, the value is read, so that it is not news again; where the sender is
/// gone, that is one last change and the receiver is dropped.
pub open spec fn checked<T>(pre: WatchSlot<T>, post: WatchSlot<T>, changed: bool) -> bool {
    match pre {
        WatchSlot::Empty => post is Empty && !changed,
        WatchSlot::Gone(r) => post == pre && !changed,
        WatchSlot::Held(w) => match post {
            WatchSlot::Empty => false,
            WatchSlot::Held(v) => {
                &&& v.start() == w.start()
                &&& v.record() == if changed {
                    w.record().push(ReceiverCall::Asked(Freshness::Changed)).push(
                        ReceiverCall::Read,
                    )
                } else {
                    w.record().push(ReceiverCall::Asked(Freshness::Unchanged))
                }
            },
            WatchSlot::Gone(r) => {
                &&& changed
                &&& r.start() == w.start()
                &&& r.record() == w.record().push(ReceiverCall::Asked(Freshness::Closed))
            },
        },
    }
}

/// Whether a cached receiver has an unseen change, which then counts as seen.
/// A receiver whose sender is gone reports one last change and is dropped.
pub fn watch_changed<T>(rx_slot: &mut WatchSlot<T>) -> (changed: bool)
    ensures
        checked(*old(rx_slot), *final(rx_slot), changed),
{
    let mut slot = WatchSlot::Empty;
    std::mem::swap(&mut slot, rx_slot);
    match slot {
        WatchSlot::Empty => false,
        WatchSlot::Gone(retired) => {
            *rx_slot = WatchSlot::Gone(retired);
            false
        },
        WatchSlot::Held(watched) => {
            let mut watched = watched;
            let answer = watched.ask();
            let (changed, keep) = classify(answer);
            if !keep {
                *rx_slot = WatchSlot::Gone(watched.retire());
            } else {
                if changed {
                    watched.read();
                }
                *rx_slot = WatchSlot::Held(watched);
            }
            changed
        },
    }
}

/// A receiver is given up only together with a report of a change, on the
/// answer that its sender is gone; and from then on every check reports none.
pub proof fn law_closed_source_reports_one_last_change<T>(
    pre: WatchSlot<T>,
    mid: WatchSlot<T>,
    post: WatchSlot<T>,
    first: bool,
    later: bool,
)
    requires
        pre is Held,
        mid is Gone,
        checked(pre, mid, first),
        checked(mid, post, later),
    ensures
        first,
        mid->Gone_0.record().last() == ReceiverCall::Asked(Freshness::Closed),
        !later,
        post == mid,
{
}

/// A change that is reported while its sender lives is read, and so counts as
/// seen; and no change goes unreported unless the receiver knew of none.
pub proof fn law_reported_changes_are_read<T>(
    pre: WatchSlot<T>,
    post: WatchSlot<T>,
    changed: bool,
)
    requires
        pre is Held,
        checked(pre, post, changed),
    ensures
        changed && post is Held ==> post->Held_0.record().last() == ReceiverCall::Read,
        !changed ==> post->Held_0.record().last() == ReceiverCall::Asked(Freshness::Unchanged),
{
}

/// A receiver's answer is a change unless it knows of none, and the receiver is
/// of use as long as its sender is there.
pub proof fn law_answers_mean_what_they_say(freshness: Freshness)
    ensures
        change_of(freshness).0 <==> !(freshness is Unchanged),
        change_of(freshness).1 <==> !(freshness is Closed),
{
}

} // verus!
