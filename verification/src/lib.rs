//! Verified core of a media-library background task layer: a download
//! orchestrator, a feed-sync orchestrator and a metadata worker, together
//! with the in-memory model of the persistence gateway they reconcile
//! their outcomes into.

pub mod adapter;
pub mod clock;
pub mod download;
pub mod events;
pub mod metadata;
pub mod model;
pub mod numbers;
pub mod progress;
pub mod sanitize;
pub mod store;
pub mod sync;
pub mod text;
