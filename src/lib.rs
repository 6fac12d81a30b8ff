//! Local development chain node core: a fork-backed overlay of storage, a
//! cache for data fetched from a remote chain, and the block-production and
//! clock state machine that mutates the node's state.
use vstd::prelude::*;

pub mod assoc;
pub mod cache;
pub mod evm;
pub mod fork;
pub mod hardhat;
pub mod http_fork_source;
pub mod node;
pub mod primitives;
pub mod storage;

verus! {

} // verus!
