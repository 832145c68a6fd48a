//! The crypto stream of the message-bus service.

pub mod alpaca_streaming_client;
