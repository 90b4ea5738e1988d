//! Synchronisation engine for a workspace's custom emoji: paginated remote
//! enumeration, reconciliation against an append-only local archive,
//! rate-limit retries and deferred alias creation.
pub mod actions;
pub mod archive;
pub mod cli;
pub mod emoji;
pub mod error;
pub mod slack;
