//! Cross-process signalling over one shared file: the message envelope and its
//! JSON form, staleness, change deduplication, the watcher's decisions, and
//! the authorisation of focus requests.

pub mod args;
pub mod clock;
pub mod dedup;
pub mod info;
pub mod json;
pub mod message;
pub mod state;
pub mod store;
pub mod watcher;
