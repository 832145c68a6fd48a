//! What the Turso-backed stores share: bounded retries of writes, and the
//! guard of the schema version.

use vstd::prelude::*;

use crate::error::{Error, ErrorView};
use crate::text::{
    contains_text, decimal, decimal_text, join, signed_decimal, signed_decimal_text, stands_at,
};

verus! {

/// How often a write is retried while the database is locked. Writes are
/// serialized, so a lock is unexpected; it is retried briefly and then
/// reported.
pub const BUSY_RETRIES: u32 = 200;

/// Milliseconds between two tries.
pub const BUSY_BACKOFF_MS: u64 = 5;

/// The error of a database call that said `said`.
pub fn map_err(said: &str) -> (r: Error)
    ensures
        r@ == ErrorView::Storage("turso: "@ + said@),
{
    Error::Storage(join("turso: ", said))
}

/// Whether a failure is a conflict over the write lock, which the database
/// reports by its text.
pub open spec fn says_locked(said: Seq<char>) -> bool {
    exists|i: int| #[trigger] stands_at(said, "locked"@, i)
}

pub fn is_busy(said: &str) -> (r: bool)
    ensures
        r == says_locked(said@),
{
    contains_text(said, "locked")
}

/// What follows a failed write.
#[derive(Debug)]
pub enum RetryStep {
    /// Try again after the given milliseconds.
    Again { after_ms: u64 },
    Fail(Error),
}

/// Tries of one write so far.
#[derive(Clone, Copy, Debug)]
pub struct Retries {
    pub attempts: u32,
}

/// The report of a write that is given up.
pub open spec fn gave_up(said: Seq<char>, attempts: nat) -> Seq<char> {
    "turso: "@ + said + " (after "@ + decimal(attempts) + " busy retries)"@
}

impl Retries {
    pub open spec fn wf(self) -> bool {
        self.attempts <= BUSY_RETRIES
    }

    pub fn new() -> (r: Retries)
        ensures
            r.wf(),
            r.attempts == 0,
    {
        Retries { attempts: 0 }
    }

    /// A try failed. Only a locked database is tried again, and only so often;
    /// anything else is reported as it is.
    pub fn failed(&mut self, said: &str) -> (r: RetryStep)
        requires
            old(self).wf(),
        ensures
            final(self).wf(),
            retried(*old(self), said@, *final(self), r),
    {
        if is_busy(said) && self.attempts < BUSY_RETRIES {
            self.attempts += 1;
            return RetryStep::Again { after_ms: BUSY_BACKOFF_MS };
        }
        let mut text = join("turso: ", said);
        text = join(text.as_str(), " (after ");
        text = join(text.as_str(), decimal_text(self.attempts as u64).as_str());
        text = join(text.as_str(), " busy retries)");
        RetryStep::Fail(Error::Storage(text))
    }
}

/// What the schema version of an opened file entails.
#[derive(Debug)]
pub enum VersionStep {
    /// The file is of this build's version.
    Accept,
    /// The file is new: run this statement to mark it.
    Stamp(String),
    Refuse(Error),
}

pub open spec fn stamp_text(expected: int) -> Seq<char> {
    "PRAGMA user_version = "@ + signed_decimal(expected)
}

pub open spec fn mismatch_text(store: Seq<char>, version: int, expected: int) -> Seq<char> {
    store + " schema version "@ + signed_decimal(version) + " does not match this build's "@
        + signed_decimal(expected)
        + "; read it with a matching build or delete the file (data is recoverable from providers)"@
}

/// Decide on the version that a file carries. A new file carries zero.
pub fn check_user_version(version: i64, expected: i64, store: &str) -> (r: VersionStep)
    ensures
        version_decided(version, expected, store@, r),
{
    if version == expected {
        return VersionStep::Accept;
    }
    if version == 0 {
        return VersionStep::Stamp(
            join("PRAGMA user_version = ", signed_decimal_text(expected).as_str()),
        );
    }
    let mut text = join(store, " schema version ");
    text = join(text.as_str(), signed_decimal_text(version).as_str());
    text = join(text.as_str(), " does not match this build's ");
    text = join(text.as_str(), signed_decimal_text(expected).as_str());
    text =
    join(
        text.as_str(),
        "; read it with a matching build or delete the file (data is recoverable from providers)",
    );
    VersionStep::Refuse(Error::Storage(text))
}

/// What follows a try that failed.
pub open spec fn retried(pre: Retries, said: Seq<char>, post: Retries, r: RetryStep) -> bool {
    if says_locked(said) && pre.attempts < BUSY_RETRIES {
        &&& r == (RetryStep::Again { after_ms: BUSY_BACKOFF_MS })
        &&& post.attempts == pre.attempts + 1
    } else {
        &&& r is Fail
        &&& r->Fail_0@ == ErrorView::Storage(gave_up(said, pre.attempts as nat))
        &&& post.attempts == pre.attempts
    }
}

/// What the version that a file carries entails.
pub open spec fn version_decided(
    version: i64,
    expected: i64,
    store: Seq<char>,
    r: VersionStep,
) -> bool {
    if version == expected {
        r is Accept
    } else if version == 0 {
        r is Stamp && r->Stamp_0@ == stamp_text(expected as int)
    } else {
        r is Refuse && r->Refuse_0@ == ErrorView::Storage(
            mismatch_text(store, version as int, expected as int),
        )
    }
}

/// Only a locked file is tried again, and not forever: each try counts, and
/// what is not tried again is reported.
pub proof fn law_only_locked_files_are_tried_again(
    pre: Retries,
    said: Seq<char>,
    post: Retries,
    r: RetryStep,
)
    requires
        pre.wf(),
        retried(pre, said, post, r),
    ensures
        !(exists|i: int| #[trigger] stands_at(said, "locked"@, i)) ==> r is Fail,
        r is Again ==> post.attempts == pre.attempts + 1 && post.attempts <= 200,
        r is Fail ==> r->Fail_0@ is Storage && post.attempts == pre.attempts,
        pre.attempts == 0 && (exists|i: int| #[trigger] stands_at(said, "locked"@, i)) ==> r
            is Again,
        pre.attempts == 200 ==> r is Fail,
{
}

/// A file of this build's version is opened, a new one is marked with it, and
/// any other is refused.
pub proof fn law_other_versions_are_refused(
    version: i64,
    expected: i64,
    store: Seq<char>,
    r: VersionStep,
)
    requires
        version_decided(version, expected, store, r),
    ensures
        r is Accept <==> version == expected,
        r is Stamp <==> version == 0 && expected != 0,
        r is Refuse <==> version != expected && version != 0,
        r is Stamp ==> r->Stamp_0@ == "PRAGMA user_version = "@ + signed_decimal(expected as int),
{
}

} // verus!
