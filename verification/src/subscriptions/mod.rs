//! Subscriptions per instrument and the data client that serves them.

pub mod alpaca;
