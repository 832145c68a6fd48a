//! Sessions: scopes and persistence options, range tiling, resume buffers and
//! the controllers that stamp, record and deliver events.

pub mod controller;
pub mod datamancer;
pub mod fetch_locks;
pub mod lifecycle;
pub mod machine;
pub mod options;
pub mod ring;
pub mod segment;
pub mod stream;
