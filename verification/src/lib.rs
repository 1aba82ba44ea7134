//! Verified core of a single-slot "vibe" tracker: a pure keyword classifier
//! for free-form text, a concurrent one-record store, the decision logic of a
//! stream ingester, and a calendar-day expiry view in a fixed reference zone.

pub mod api;
pub mod classifier;
pub mod ingest;
pub mod store;
pub mod vibe;
pub mod view;
