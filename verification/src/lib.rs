//! The transaction pool rules of an OP stack node.
//!
//! A pool transaction wraps a signed transaction and caches what the pool asks of it often. The
//! validator accepts what the node's Ethereum validator accepts, less what the sender's balance
//! cannot carry once the fee for posting the transaction's data on L1 is added.
pub mod block;
pub mod calls;
pub mod laws;
pub mod outside;
pub mod pool;
pub mod pooled;
pub mod primitives;
pub mod readings;
pub mod transaction;
pub mod u256;
pub mod validate;
