//! Sources of a provider's credentials.

use vstd::prelude::*;

use super::runtime::{
    checked, clone_receiver, fresh_from, fresh_receiver, latest, watch_changed, WatchSlot,
};
use super::watched::Watched;
use crate::text::join;

verus! {

/// A key id and its secret. The secret stays out of every rendering.
#[derive(PartialEq, Eq)]
pub struct AlpacaCredentials {
    pub key_id: String,
    pub secret: String,
}

impl Clone for AlpacaCredentials {
    fn clone(&self) -> (r: AlpacaCredentials)
        ensures
            r == *self,
    {
        AlpacaCredentials { key_id: self.key_id.clone(), secret: self.secret.clone() }
    }
}

/// The quoted and escaped form that std's `Debug` gives a text.
pub uninterp spec fn debug_quoted(s: Seq<char>) -> Seq<char>;

/// Formats through the `Debug` impl of `str`: a quoted form in which special
/// characters are escaped. The form depends on the text alone.
#[verifier::external_body]
fn quoted(s: &str) -> (r: String)
    ensures
        r@ == debug_quoted(s@),
{
    format!("{:?}", s)
}

/// A rendering for logs that names the key and hides the secret.
pub open spec fn redacted(key_id: Seq<char>) -> Seq<char> {
    "AlpacaCredentials { key_id: "@ + debug_quoted(key_id) + ", secret: \"********\" }"@
}

impl AlpacaCredentials {
    /// A rendering for logs that names the key and hides the secret.
    pub fn debug_string(&self) -> (r: String)
        ensures
            r@ == redacted(self.key_id@),
    {
        let head = join("AlpacaCredentials { key_id: ", quoted(self.key_id.as_str()).as_str());
        join(head.as_str(), ", secret: \"********\" }")
    }
}

/// Where a provider gets its credentials.
pub enum CredentialsSource {
    /// From the environment variables of the account.
    Env,
    /// Fixed credentials.
    Static(AlpacaCredentials),
    /// Credentials that may change; `None` means that there are none yet.
    Watch(tokio::sync::watch::Receiver<Option<AlpacaCredentials>>),
}

impl Default for CredentialsSource {
    fn default() -> (r: CredentialsSource)
        ensures
            r is Env,
    {
        CredentialsSource::Env
    }
}

impl Clone for CredentialsSource {
    /// A source of the same kind: the same credentials, or another receiver
    /// of the same watched value.
    fn clone(&self) -> (r: CredentialsSource)
        ensures
            self is Env ==> r is Env,
            self is Watch <==> r is Watch,
            self matches CredentialsSource::Static(c) ==> r == CredentialsSource::Static(*c),
            self matches CredentialsSource::Watch(rx) ==> r matches CredentialsSource::Watch(s)
                && cloned(*rx, s),
    {
        match self {
            CredentialsSource::Env => CredentialsSource::Env,
            CredentialsSource::Static(c) => CredentialsSource::Static(c.clone()),
            CredentialsSource::Watch(rx) => CredentialsSource::Watch(clone_receiver(rx)),
        }
    }
}

/// One resolution of a [`CredentialsSource`].
pub enum Resolved {
    Env,
    Creds(AlpacaCredentials),
    /// A watched source without a value.
    Missing,
}

/// What a watched value stands for.
pub open spec fn watched_gives(value: Option<AlpacaCredentials>) -> Resolved {
    match value {
        Some(c) => Resolved::Creds(c),
        None => Resolved::Missing,
    }
}

/// What a watched source's latest value resolves to.
pub fn resolve_watched(value: Option<AlpacaCredentials>) -> (r: Resolved)
    ensures
        r == watched_gives(value),
{
    match value {
        Some(c) => Resolved::Creds(c),
        None => Resolved::Missing,
    }
}

impl CredentialsSource {
    /// What the source resolves to now.
    pub fn current(&self) -> (r: Resolved)
        ensures
            self is Env ==> r is Env,
            self matches CredentialsSource::Static(c) ==> r == Resolved::Creds(*c),
            self is Watch ==> !(r is Env),
    {
        match self {
            CredentialsSource::Env => Resolved::Env,
            CredentialsSource::Static(c) => Resolved::Creds(c.clone()),
            CredentialsSource::Watch(rx) => resolve_watched(latest(rx)),
        }
    }

    /// A receiver of changes from now on, where the source can change.
    pub fn watch(&self) -> (r: Option<Watched<Option<AlpacaCredentials>>>)
        ensures
            r is Some <==> self is Watch,
            self matches CredentialsSource::Watch(rx) ==> fresh_from(*rx, r->0),
    {
        match self {
            CredentialsSource::Watch(rx) => Some(fresh_receiver(rx)),
            _ => None,
        }
    }
}

/// Whether the cached receiver has an unseen rotation, which then counts as
/// seen. A receiver whose sender is gone reports one last rotation and is
/// dropped.
pub fn rest_credentials_changed(cred_rx: &mut WatchSlot<Option<AlpacaCredentials>>) -> (changed:
    bool)
    ensures
        checked(*old(cred_rx), *final(cred_rx), changed),
{
    watch_changed(cred_rx)
}

/// Renderings of credentials that differ in the secret alone are the same.
pub proof fn law_rendering_hides_the_secret(a: AlpacaCredentials, b: AlpacaCredentials)
    requires
        a.key_id@ == b.key_id@,
    ensures
        redacted(a.key_id@) == redacted(b.key_id@),
{
}

/// A watched source gives the credentials that it holds, and none where it
/// holds none; it never falls back to the environment.
pub proof fn law_watched_sources_give_what_they_hold(value: Option<AlpacaCredentials>)
    ensures
        watched_gives(value) is Missing <==> value is None,
        watched_gives(value) matches Resolved::Creds(c) ==> value == Some(c),
        !(watched_gives(value) is Env),
{
}

} // verus!
