//! Storage: coverage bookkeeping, caches and tap logs.

pub mod cache;
pub mod config;
pub mod contents;
pub mod coverage;
pub mod document_contents;
pub mod documents;
pub mod naming;
pub mod order;
pub mod recording;
pub mod rows;
pub mod sql;
pub mod surreal;
pub mod tags;
pub mod tap_documents;
pub mod tap_log;
pub mod turso;
pub mod turso_common;
