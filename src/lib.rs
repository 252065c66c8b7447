//! Synchronisation core of a terminal dashboard for a deployment platform:
//! decoding remote records, the network actor's decisions, log-stream
//! deduplication, and the reconciliation of fetched data into view state.

pub mod api;
pub mod app;
pub mod clock;
pub mod config;
pub mod debounce;
pub mod gate;
pub mod highlight;
pub mod input;
pub mod model;
pub mod network;
pub mod text;
pub mod wrap;
