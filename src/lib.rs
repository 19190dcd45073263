//! Deferred replies for a single-threaded host: handles on blocked clients
//! that cross to worker threads and are finalized exactly once, values
//! guarded by the host lock, and the host-facing helpers around them
//! (clients, configuration, command filters, server events, streams).
pub mod error;
pub mod valkey_string;
pub mod context;
pub mod blocked;
pub mod thread_safe;
pub mod configuration;
pub mod client;
pub mod filter;
pub mod server_events;
pub mod allocator;
pub mod digest;
pub mod defrag;
pub mod logging;
pub mod command;
pub mod stream;
pub mod redisvalue;
pub mod auth;
