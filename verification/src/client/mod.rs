//! Client sessions: fan-out of a symbol's events to its referrers, the
//! multiplex of several symbols into one stream, and their statistics.

pub mod controller;
pub mod fanout;
pub mod outlet;
pub mod ring;
pub mod session;
pub mod stats;
