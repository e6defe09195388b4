//! Feed synchronisation, cover caching and episode download bookkeeping for a
//! podcast client. Every decision the engine takes is a function from plain
//! values to plain values; the surrounding program performs the I/O.

pub mod application;
pub mod cover_cache;
pub mod cover_load;
pub mod covers;
pub mod downloads;
pub mod errors;
pub mod feed;
pub mod headerbar;
pub mod idempotence;
pub mod fetch;
pub mod models;
pub mod parser;
pub mod pipeline;
pub mod reconcile;
pub mod shows;
pub mod sources;
pub mod stacks;
pub mod text;
pub mod widgets;
