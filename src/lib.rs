//! Detects finished listening sessions from successive "now playing" snapshots.

pub mod snapshot;
pub mod detector;
pub mod poller;
