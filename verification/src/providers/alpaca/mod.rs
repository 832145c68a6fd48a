//! The Alpaca stock provider: catalog, live stream and history.

pub mod catalog;
pub mod config;
pub mod history;
pub mod list;
pub mod machine;
pub mod messages;
pub mod streaming;
