//! Where stores keep their data.

use vstd::prelude::*;

use crate::error::Error;
use crate::error::ErrorView;

verus! {

/// A path of the file system.
#[verifier::external_type_specification]
#[verifier::external_body]
pub struct ExPathBuf(std::path::PathBuf);

/// Where a cache in a Turso file is stored.
#[derive(Debug)]
pub enum TursoCacheConfig {
    /// In the process, until it ends.
    Memory,
    /// In a file; missing directories on the way to it are created.
    Embedded { path: std::path::PathBuf },
}

impl TursoCacheConfig {
    pub fn embedded(path: std::path::PathBuf) -> (r: TursoCacheConfig)
        ensures
            r == (TursoCacheConfig::Embedded { path }),
    {
        TursoCacheConfig::Embedded { path }
    }

    pub fn location(self) -> (r: DbLocation)
        ensures
            r == match self {
                TursoCacheConfig::Memory => DbLocation::Memory,
                TursoCacheConfig::Embedded { path } => DbLocation::File(path),
            },
    {
        match self {
            TursoCacheConfig::Memory => DbLocation::Memory,
            TursoCacheConfig::Embedded { path } => DbLocation::File(path),
        }
    }
}

/// Where a tap log in a Turso file is stored.
#[derive(Debug)]
pub enum TursoTapLogConfig {
    /// In the process, until it ends.
    Memory,
    /// In a file; missing directories on the way to it are created.
    Embedded { path: std::path::PathBuf },
}

impl TursoTapLogConfig {
    pub fn embedded(path: std::path::PathBuf) -> (r: TursoTapLogConfig)
        ensures
            r == (TursoTapLogConfig::Embedded { path }),
    {
        TursoTapLogConfig::Embedded { path }
    }

    pub fn location(self) -> (r: DbLocation)
        ensures
            r == match self {
                TursoTapLogConfig::Memory => DbLocation::Memory,
                TursoTapLogConfig::Embedded { path } => DbLocation::File(path),
            },
    {
        match self {
            TursoTapLogConfig::Memory => DbLocation::Memory,
            TursoTapLogConfig::Embedded { path } => DbLocation::File(path),
        }
    }
}

/// Where a database lives.
#[derive(Debug)]
pub enum DbLocation {
    Memory,
    File(std::path::PathBuf),
}

/// Where a cache in SurrealDB is stored.
#[derive(Debug)]
pub enum SurrealCacheConfig {
    Memory,
    Embedded { path: std::path::PathBuf },
    /// A remote server, which is not available.
    Remote { url: String },
}

/// The answer to a configuration that names a remote server.
pub open spec fn remote_refusal(opener: Seq<char>) -> Seq<char> {
    "remote SurrealDB connections require additional surrealdb feature flags; enable them in Cargo.toml and revise "@
        + opener
}

fn refuse_remote(opener: &str) -> (r: Error)
    ensures
        r@ == ErrorView::Storage(remote_refusal(opener@)),
{
    Error::Storage(
        crate::text::join(
            "remote SurrealDB connections require additional surrealdb feature flags; enable them in Cargo.toml and revise ",
            opener,
        ),
    )
}

impl SurrealCacheConfig {
    pub fn embedded(path: std::path::PathBuf) -> (r: SurrealCacheConfig)
        ensures
            r == (SurrealCacheConfig::Embedded { path }),
    {
        SurrealCacheConfig::Embedded { path }
    }

    /// The local database, unless a remote one is asked for.
    pub fn location(self) -> (r: Result<DbLocation, Error>)
        ensures
            match self {
                SurrealCacheConfig::Memory => r == Ok::<DbLocation, Error>(DbLocation::Memory),
                SurrealCacheConfig::Embedded { path } => r == Ok::<DbLocation, Error>(
                    DbLocation::File(path),
                ),
                SurrealCacheConfig::Remote { url } => r is Err && r->Err_0@ == ErrorView::Storage(
                    remote_refusal("SurrealCache::open"@),
                ),
            },
    {
        match self {
            SurrealCacheConfig::Memory => Ok(DbLocation::Memory),
            SurrealCacheConfig::Embedded { path } => Ok(DbLocation::File(path)),
            SurrealCacheConfig::Remote { .. } => Err(refuse_remote("SurrealCache::open")),
        }
    }
}

/// Where a tap log in SurrealDB is stored.
#[derive(Debug)]
pub enum SurrealTapLogConfig {
    Memory,
    Embedded { path: std::path::PathBuf },
    /// A remote server, which is not available.
    Remote { url: String },
}

impl SurrealTapLogConfig {
    pub fn embedded(path: std::path::PathBuf) -> (r: SurrealTapLogConfig)
        ensures
            r == (SurrealTapLogConfig::Embedded { path }),
    {
        SurrealTapLogConfig::Embedded { path }
    }

    /// The local database, unless a remote one is asked for.
    pub fn location(self) -> (r: Result<DbLocation, Error>)
        ensures
            match self {
                SurrealTapLogConfig::Memory => r == Ok::<DbLocation, Error>(DbLocation::Memory),
                SurrealTapLogConfig::Embedded { path } => r == Ok::<DbLocation, Error>(
                    DbLocation::File(path),
                ),
                SurrealTapLogConfig::Remote { url } => r is Err && r->Err_0@ == ErrorView::Storage(
                    remote_refusal("SurrealTapLog::open"@),
                ),
            },
    {
        match self {
            SurrealTapLogConfig::Memory => Ok(DbLocation::Memory),
            SurrealTapLogConfig::Embedded { path } => Ok(DbLocation::File(path)),
            SurrealTapLogConfig::Remote { .. } => Err(refuse_remote("SurrealTapLog::open")),
        }
    }
}

} // verus!
