//! Connection and coordination layer for a sharded store.
//!
//! The crate models the pieces of a multi-shard database layer that carry
//! its correctness arguments: validated shard names, connection-string
//! parsing, the DDL text that wires shards together through foreign-data
//! wrappers, the advisory-lock protocol that elects one migration leader
//! per shard, the concurrency limiter that bounds in-flight blocking work,
//! and the bookkeeping around connection-wait statistics and replica
//! weights. Everything that talks to a real database lives outside the
//! verified core and consumes these functions.

pub mod builder;
pub mod conn_url;
pub mod coordinator;
pub mod error;
pub mod foreign_server;
pub mod limiter;
pub mod metrics;
pub mod pool;
pub mod setup;
pub mod shard;
pub mod wait_stats;
