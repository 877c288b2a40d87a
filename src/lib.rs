//! A bridge layer that lets components written in Rust be driven through the
//! lifecycle of a host framework: a component is assembled from ordered,
//! per-stage actions, each of which works against a facade of the host.

pub mod algorithm;
pub mod builder;
pub mod event;
pub mod host;
pub mod lifecycle;
pub mod payload;
pub mod stats;
