//! Ingests competitive-match data for tracked accounts, commits it in
//! column-oriented batches, and serves a short-lived live-game view from a
//! dual-indexed, self-expiring cache.

pub mod batch;
pub mod format;
pub mod ids;
pub mod ingest;
pub mod live_game_cache;
pub mod match_events;
pub mod perk;
pub mod summoner;
pub mod text;
pub mod urls;
