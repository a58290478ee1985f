//! An NFT-backed staking hub.
//!
//! A user deposits native tokens; the hub spreads them over a
//! pseudo-randomly chosen subset of validators and mints a non-fungible
//! token whose metadata is the ledger of record: one trait per pending
//! delegation, encoding validator, amount, denomination, lifecycle status
//! and the timestamp at which that status takes effect.  Holding the token
//! authorizes undelegation, redelegation, reward claims and, once the
//! unbonding period has elapsed, redemption of the principal.
//!
//! Everything the hub decides is computed here on plain values: the host
//! plumbing (storage, queries, message dispatch) lives outside and hands
//! this crate the configuration, the loaded token metadata and the block
//! context, and carries the produced instructions back to the chain.

pub mod codec;
pub mod constants;
pub mod error;
pub mod execute;
pub mod instantiate;
pub mod lifecycle;
pub mod msg;
pub mod queries;
pub mod reply;
pub mod response;
pub mod selector;
pub mod state;
pub mod wire;
