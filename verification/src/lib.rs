//! A unified subscription and replay layer for financial market data.

pub mod accounting;
pub mod alpaca;
pub mod client;
pub mod commands;
pub mod error;
pub mod event;
pub mod inner;
pub mod num;
pub mod providers;
pub mod request;
pub mod session;
pub mod storage;
pub mod subscription;
pub mod subscriptions;
pub mod table;
pub mod text;
