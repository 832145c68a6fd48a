//! What a session covers and how it uses the persistence layer.

use vstd::prelude::*;

use crate::event::Timestamp;

verus! {

/// What data a session covers.
#[derive(Clone, Copy, Debug, PartialEq, Eq, Structural)]
pub enum Scope {
    /// A bounded source-time range; the stream completes when `to` is reached.
    Historical { from: Timestamp, to: Timestamp },
    /// An unbounded live subscription, preceded by history from
    /// `backfill_from` up to the live edge where that is given.
    Live { backfill_from: Option<Timestamp> },
}

/// How a session uses the configured persistence layer. The two cache axes
/// concern historical data, the tap-log axis live capture:
///
/// | `read_cache` | `write_cache` | mode      | behavior                                   |
/// |--------------|---------------|-----------|--------------------------------------------|
/// | `false`      | `false`       | ephemeral | always hit the provider, store nothing     |
/// | `true`       | `true`        | cached    | serve covered ranges, fetch and store gaps |
/// | `true`       | `false`       | read-only | serve cache and fetch gaps, don't persist  |
/// | `false`      | `true`        | refresh   | ignore coverage, re-fetch and overwrite    |
#[derive(Clone, Copy, Debug, PartialEq, Eq, Structural)]
pub struct PersistenceOptions {
    /// Serve covered subranges from the cache and fetch only the gaps.
    pub read_cache: bool,
    /// Write fetched data back to the cache.
    pub write_cache: bool,
    /// Tee every live data event to the tap log.
    pub write_tap_log: bool,
}

impl Default for PersistenceOptions {
    fn default() -> (r: PersistenceOptions)
        ensures
            !r.read_cache && !r.write_cache && !r.write_tap_log,
    {
        PersistenceOptions::none()
    }
}

impl PersistenceOptions {
    /// Always hit the provider, store nothing.
    pub fn none() -> (r: PersistenceOptions)
        ensures
            !r.read_cache && !r.write_cache && !r.write_tap_log,
    {
        PersistenceOptions { read_cache: false, write_cache: false, write_tap_log: false }
    }

    /// Serve covered ranges, fetch and store only gaps.
    pub fn cached() -> (r: PersistenceOptions)
        ensures
            r.read_cache && r.write_cache && !r.write_tap_log,
    {
        PersistenceOptions { read_cache: true, write_cache: true, write_tap_log: false }
    }

    /// Serve from the cache and fetch gaps, but do not persist them.
    pub fn read_only() -> (r: PersistenceOptions)
        ensures
            r.read_cache && !r.write_cache && !r.write_tap_log,
    {
        PersistenceOptions { read_cache: true, write_cache: false, write_tap_log: false }
    }

    /// Ignore cached coverage, re-fetch the whole range, overwrite the cache.
    pub fn refresh() -> (r: PersistenceOptions)
        ensures
            !r.read_cache && r.write_cache && !r.write_tap_log,
    {
        PersistenceOptions { read_cache: false, write_cache: true, write_tap_log: false }
    }

    /// A copy with the tap-log axis set to `on`.
    pub fn with_tap_log(self, on: bool) -> (r: PersistenceOptions)
        ensures
            r == (PersistenceOptions { write_tap_log: on, ..self }),
    {
        PersistenceOptions { write_tap_log: on, ..self }
    }

    pub open spec fn spec_uses_cache(self) -> bool {
        self.read_cache || self.write_cache
    }

    /// Whether either axis touches the historical cache.
    pub fn uses_cache(self) -> (r: bool)
        ensures
            r == self.spec_uses_cache(),
    {
        self.read_cache || self.write_cache
    }

    /// Whether a configuration with these stores can serve the options.
    pub open spec fn served_by(self, has_cache: bool, has_tap_log: bool) -> bool {
        &&& self.spec_uses_cache() ==> has_cache
        &&& self.write_tap_log ==> has_tap_log
    }

    pub fn is_served_by(self, has_cache: bool, has_tap_log: bool) -> (r: bool)
        ensures
            r == self.served_by(has_cache, has_tap_log),
    {
        !(self.uses_cache() && !has_cache) && !(self.write_tap_log && !has_tap_log)
    }
}

/// Reconnect and retry policy of a live connection.
#[derive(Clone, Copy, Debug, PartialEq, Eq, Structural)]
pub struct ReconnectPolicy {
    pub initial_backoff_ms: u64,
    pub max_backoff_ms: u64,
    pub jitter: bool,
}

impl Default for ReconnectPolicy {
    fn default() -> (r: ReconnectPolicy)
        ensures
            r == (ReconnectPolicy {
                initial_backoff_ms: 500,
                max_backoff_ms: 30_000,
                jitter: true,
            }),
    {
        ReconnectPolicy { initial_backoff_ms: 500, max_backoff_ms: 30_000, jitter: true }
    }
}

/// Options need exactly the stores that their flags name: both stores serve
/// them all, the cache can be missing only where neither reading nor writing it
/// is asked for, and the tap log only where recording is not.
pub proof fn law_options_need_the_stores_they_name(
    o: PersistenceOptions,
    has_cache: bool,
    has_tap_log: bool,
)
    ensures
        o.served_by(true, true),
        o.served_by(false, has_tap_log) <==> !o.read_cache && !o.write_cache && o.served_by(
            true,
            has_tap_log,
        ),
        o.served_by(has_cache, false) <==> !o.write_tap_log && o.served_by(has_cache, true),
{
}

} // verus!
