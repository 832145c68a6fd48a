//! Configuration of the stock provider and its REST access.

use vstd::prelude::*;

use crate::event::{AssetClass, BarInterval, EventKind, Instrument, InstrumentView, ProviderId};
use crate::providers::credentials::{AlpacaCredentials, CredentialsSource, Resolved};
use crate::providers::runtime::{checked, fresh_from, watch_changed, SettingsSource, WatchSlot};
use crate::session::options::ReconnectPolicy;

verus! {

/// Id of the stock provider.
pub const PROVIDER_ID: &'static str = "alpaca";

/// Paper or live trading account.
#[derive(Clone, Copy, Debug, PartialEq, Eq, Structural)]
pub enum AccountType {
    Paper,
    Live,
}

/// Streaming endpoint of live data.
#[derive(Clone, Copy, Debug, PartialEq, Eq, Structural)]
pub enum AlpacaStreamFeed {
    /// IEX feed.
    Iex,
    /// Full SIP feed.
    Sip,
    /// SIP feed delayed by 15 minutes.
    DelayedSip,
    /// Synthetic messages, available outside market hours.
    Test,
}

/// REST feed of snapshots.
#[derive(Clone, Copy, Debug, PartialEq, Eq, Structural)]
pub enum RestFeed {
    IEX,
    SIP,
    DelayedSip,
}

/// The snapshot feed of a stream feed.
pub open spec fn snapshot_source(stream_feed: AlpacaStreamFeed) -> Option<RestFeed> {
    match stream_feed {
        AlpacaStreamFeed::Iex => Some(RestFeed::IEX),
        AlpacaStreamFeed::Sip => Some(RestFeed::SIP),
        AlpacaStreamFeed::DelayedSip => Some(RestFeed::DelayedSip),
        AlpacaStreamFeed::Test => None,
    }
}

/// The snapshot feed that matches a stream feed, so that a seed comes from
/// the feed that it seeds. The test feed has no snapshots.
pub fn snapshot_feed(stream_feed: AlpacaStreamFeed) -> (r: Option<RestFeed>)
    ensures
        r == snapshot_source(stream_feed),
{
    match stream_feed {
        AlpacaStreamFeed::Iex => Some(RestFeed::IEX),
        AlpacaStreamFeed::Sip => Some(RestFeed::SIP),
        AlpacaStreamFeed::DelayedSip => Some(RestFeed::DelayedSip),
        AlpacaStreamFeed::Test => None,
    }
}

/// The settings that can change while the provider runs.
#[derive(Clone, Copy, Debug, PartialEq, Eq, Structural)]
pub struct AlpacaSettings {
    pub account_type: AccountType,
}

/// Configuration of the stock provider.
pub struct AlpacaProviderConfig {
    pub settings: SettingsSource<AlpacaSettings>,
    pub stream_feed: AlpacaStreamFeed,
    pub reconnect: ReconnectPolicy,
    pub credentials: CredentialsSource,
}

impl Default for AlpacaProviderConfig {
    fn default() -> (r: AlpacaProviderConfig)
        ensures
            r.settings == SettingsSource::Static(
                AlpacaSettings { account_type: AccountType::Paper },
            ),
            r.stream_feed == AlpacaStreamFeed::Iex,
            r.reconnect == (ReconnectPolicy {
                initial_backoff_ms: 500,
                max_backoff_ms: 30_000,
                jitter: true,
            }),
            r.credentials is Env,
    {
        AlpacaProviderConfig {
            settings: SettingsSource::Static(AlpacaSettings { account_type: AccountType::Paper }),
            stream_feed: AlpacaStreamFeed::Iex,
            reconnect: ReconnectPolicy::default(),
            credentials: CredentialsSource::default(),
        }
    }
}

/// The value of an instrument of this provider.
pub open spec fn stock(symbol: Seq<char>) -> InstrumentView {
    InstrumentView { provider: PROVIDER_ID@, asset_class: AssetClass::Equity, symbol }
}

/// An instrument of this provider. The wire formats name symbols only, so
/// every one of them counts as an equity.
pub fn provider_instrument(symbol: &str) -> (r: Instrument)
    ensures
        r@ == stock(symbol@),
{
    Instrument::new(ProviderId::from_static(PROVIDER_ID), AssetClass::Equity, symbol)
}

/// How REST clients are to be built.
pub enum RestAccess {
    /// Not at all: the provider is disabled or has no credentials.
    Unavailable,
    /// With the credentials of the environment.
    FromEnv(AccountType),
    WithCredentials(AccountType, AlpacaCredentials),
}

/// The access that settings and credentials give.
pub open spec fn access_of(settings: Option<AlpacaSettings>, credentials: Resolved) -> RestAccess {
    match settings {
        None => RestAccess::Unavailable,
        Some(s) => match credentials {
            Resolved::Env => RestAccess::FromEnv(s.account_type),
            Resolved::Creds(c) => RestAccess::WithCredentials(s.account_type, c),
            Resolved::Missing => RestAccess::Unavailable,
        },
    }
}

/// How REST clients are to be built under the given settings and credentials.
pub fn rest_access(settings: Option<AlpacaSettings>, credentials: Resolved) -> (r: RestAccess)
    ensures
        r == access_of(settings, credentials),
{
    match settings {
        None => RestAccess::Unavailable,
        Some(s) => match credentials {
            Resolved::Env => RestAccess::FromEnv(s.account_type),
            Resolved::Creds(c) => RestAccess::WithCredentials(s.account_type, c),
            Resolved::Missing => RestAccess::Unavailable,
        },
    }
}

/// The stock provider: its configuration, and the receivers that tell when
/// its REST clients are stale.
pub struct AlpacaProvider {
    pub cfg: AlpacaProviderConfig,
    pub cred_rx: WatchSlot<Option<AlpacaCredentials>>,
    pub settings_rx: WatchSlot<Option<AlpacaSettings>>,
}

/// Whether the provider serves the pair: trades, quotes, and minute and daily
/// bars of equities and funds.
pub open spec fn stock_supports(asset_class: AssetClass, kind: EventKind) -> bool {
    &&& asset_class is Equity || asset_class is Etf
    &&& match kind {
        EventKind::Trade => true,
        EventKind::Quote => true,
        EventKind::Bar(i) => i is OneMinute || i is OneDay,
    }
}

impl AlpacaProvider {
    /// The receivers are made before any client is built, so that a rotation
    /// in between is seen as a change and not missed.
    pub fn new(cfg: AlpacaProviderConfig) -> (r: AlpacaProvider)
        ensures
            r.cfg == cfg,
            match cfg.credentials {
                CredentialsSource::Watch(rx) => r.cred_rx is Held && fresh_from(
                    rx,
                    r.cred_rx->Held_0,
                ),
                _ => r.cred_rx is Empty,
            },
            match cfg.settings {
                SettingsSource::Watch(rx) => r.settings_rx is Held && fresh_from(
                    rx,
                    r.settings_rx->Held_0,
                ),
                _ => r.settings_rx is Empty,
            },
    {
        let cred_rx = WatchSlot::new(cfg.credentials.watch());
        let settings_rx = WatchSlot::new(cfg.settings.watch());
        AlpacaProvider { cfg, cred_rx, settings_rx }
    }

    pub fn id(&self) -> (r: &str)
        ensures
            r@ == PROVIDER_ID@,
    {
        PROVIDER_ID
    }

    /// Whether a provider with these current settings is enabled.
    pub fn enabled_with(settings: &Option<AlpacaSettings>) -> (r: bool)
        ensures
            r == (*settings is Some),
    {
        settings.is_some()
    }

    /// Whether the provider has settings now; with fixed ones it always has.
    pub fn enabled(&self) -> (r: bool)
        ensures
            self.cfg.settings is Static ==> r,
    {
        AlpacaProvider::enabled_with(&self.cfg.settings.current())
    }

    pub fn supports(&self, instrument: &Instrument, kind: EventKind) -> (r: bool)
        ensures
            r == stock_supports(instrument@.asset_class, kind),
    {
        let class_ok = match instrument.asset_class() {
            AssetClass::Equity => true,
            AssetClass::Etf => true,
            AssetClass::Crypto => false,
        };
        class_ok && match kind {
            EventKind::Trade => true,
            EventKind::Quote => true,
            EventKind::Bar(BarInterval::OneMinute) => true,
            EventKind::Bar(BarInterval::OneDay) => true,
            EventKind::Bar(_) => false,
        }
    }

    /// Whether the REST clients have to be built anew. Both receivers are
    /// checked, so that one change does not leave the other unseen.
    pub fn rest_stale(&mut self) -> (stale: bool)
        ensures
            final(self).cfg == old(self).cfg,
            exists|credentials: bool, settings: bool|
                {
                    &&& #[trigger] checked(old(self).cred_rx, final(self).cred_rx, credentials)
                    &&& #[trigger] checked(old(self).settings_rx, final(self).settings_rx, settings)
                    &&& stale == (credentials || settings)
                },
    {
        let credentials = watch_changed(&mut self.cred_rx);
        let settings = watch_changed(&mut self.settings_rx);
        credentials || settings
    }
}

/// Whether a stream feed covers all exchanges, and whether it is delayed.
pub open spec fn feed_reach(feed: AlpacaStreamFeed) -> (bool, bool) {
    (feed is Sip || feed is DelayedSip, feed is DelayedSip)
}

/// Whether a snapshot feed covers all exchanges, and whether it is delayed.
pub open spec fn snapshot_reach(feed: RestFeed) -> (bool, bool) {
    (feed is SIP || feed is DelayedSip, feed is DelayedSip)
}

/// A stream is seeded from snapshots of its own reach: of all exchanges where
/// it covers them, delayed where it is. Only the synthetic feed has none.
pub proof fn law_seeds_come_from_the_feed_they_seed(feed: AlpacaStreamFeed)
    ensures
        snapshot_source(feed) is None <==> feed is Test,
        snapshot_source(feed) matches Some(r) ==> snapshot_reach(r) == feed_reach(feed),
{
}

/// A symbol of the wire becomes the provider's equity of that symbol, and
/// distinct symbols distinct instruments.
pub proof fn law_symbols_become_equities(a: Seq<char>, b: Seq<char>)
    ensures
        stock(a).symbol == a,
        stock(a).asset_class is Equity,
        stock(a).provider == PROVIDER_ID@,
        stock(a) == stock(b) <==> a == b,
{
}

/// The kinds that the provider supports for an equity are exactly those that
/// its stream has a channel for, funds are treated alike, and coins are not
/// served at all.
pub proof fn law_supported_kinds_have_a_channel(kind: EventKind, symbol: Seq<char>)
    ensures
        stock_supports(AssetClass::Equity, kind) <==> super::list::ListView::empty().applied(
            symbol,
            kind,
            true,
        ).mentions(symbol),
        stock_supports(AssetClass::Etf, kind) == stock_supports(AssetClass::Equity, kind),
        !stock_supports(AssetClass::Crypto, kind),
{
    super::list::law_subscribing_reaches_the_kinds_channel(
        super::list::ListView::empty(),
        symbol,
        kind,
        true,
    );
}

/// There is access exactly where there are settings and credentials, to the
/// account that the settings name and with the credentials that were found.
pub proof fn law_access_takes_settings_and_credentials(
    settings: Option<AlpacaSettings>,
    credentials: Resolved,
)
    ensures
        access_of(settings, credentials) is Unavailable <==> settings is None || credentials
            is Missing,
        access_of(settings, credentials) is FromEnv <==> settings is Some && credentials is Env,
        access_of(settings, credentials) matches RestAccess::FromEnv(account) ==> account
            == settings->0.account_type,
        access_of(settings, credentials) matches RestAccess::WithCredentials(account, c)
            ==> account == settings->0.account_type && credentials == Resolved::Creds(c),
{
}

} // verus!
