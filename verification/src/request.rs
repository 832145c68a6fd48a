//! Requests that sessions make of providers and caches.

use vstd::prelude::*;

use crate::event::{Adjustment, EventKind, Instrument, Timestamp};

verus! {

/// A cached range of one `(instrument, kind, adjustment)`.
#[derive(Debug, PartialEq, Eq)]
pub struct CacheKey {
    pub instrument: Instrument,
    pub kind: EventKind,
    pub from: Timestamp,
    pub to: Timestamp,
    pub adjustment: Adjustment,
}

impl Clone for CacheKey {
    fn clone(&self) -> (r: CacheKey)
        ensures
            r == *self,
    {
        CacheKey {
            instrument: self.instrument.clone(),
            kind: self.kind,
            from: self.from,
            to: self.to,
            adjustment: self.adjustment,
        }
    }
}

/// A bounded history fetch.
#[derive(Debug, PartialEq, Eq)]
pub struct HistoryRequest {
    pub instrument: Instrument,
    pub kind: EventKind,
    pub from: Timestamp,
    pub to: Timestamp,
    pub adjustment: Adjustment,
}

/// A replay of stored events.
#[derive(Debug, PartialEq, Eq)]
pub struct ReplayRequest {
    pub instruments: Vec<Instrument>,
    pub kinds: Vec<EventKind>,
    pub from: Timestamp,
    pub to: Timestamp,
}

} // verus!
