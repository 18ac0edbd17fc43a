//! Subscription filters for a stream of ledger updates: canonical messages,
//! the compiled per-subscriber filter, the projection of matched messages
//! onto wire updates, and the per-connection session that drives them.

pub mod codec;
pub mod confirmed_block;
pub mod filter;
pub mod geyser;
pub mod hub;
pub mod keys;
pub mod laws;
pub mod limits;
pub mod message;
pub mod name;
pub mod scylladb;
pub mod seqs;
pub mod session;
pub mod shared;
pub mod token;
