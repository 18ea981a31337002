//! Aggregation of ledger transactions into an append-only, columnar,
//! in-memory store: normalization of raw transactions, the columnar batch
//! layout, the retry policy of the fetch client, the paced historical load,
//! the live slot pipeline with its one-time gap repair, and the store itself.
pub mod batch;
pub mod cli;
pub mod date;
pub mod loader;
pub mod query;
pub mod record;
pub mod retry;
pub mod store;
pub mod watch;
