//! Providers: where their settings and credentials come from, how their wire
//! messages become events, and how their connections are kept alive.

pub mod alpaca;
pub mod alpaca_crypto;
pub mod clock;
pub mod credentials;
pub mod crypto_hub;
pub mod link;
pub mod runtime;
pub mod symbols;
pub mod watched;
