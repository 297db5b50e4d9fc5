//! State-transition and synchronization core of a rollup node that anchors its
//! transaction history to a data-availability layer.
//!
//! The crate keeps an authenticated directory of per-account state, checks the
//! Merkle witnesses that bind a state transition to a committed root, frames
//! transactions and batches as blobs, and decides what the node does next while
//! it replays and follows the data-availability layer.

pub mod codec;
pub mod config;
pub mod digest;
pub mod error;
pub mod keys;
pub mod node;
pub mod proofs;
pub mod state;
pub mod sync;
pub mod tree;
pub mod tx;
pub mod wire;
