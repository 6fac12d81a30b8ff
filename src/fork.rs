//! Data fetched from a remote chain, the calls that fetch it, and the errors
//! of fetching.
use vstd::prelude::*;
use crate::primitives::{Address, H256};

verus! {

/// A block as the remote chain returned it: its hash and number, and the
/// block object as received.
#[derive(Clone, Debug, PartialEq, Eq)]
pub struct Block {
    pub hash: H256,
    pub number: u64,
    pub payload: String,
}

impl Block {
    /// A copy of the block.
    pub fn duplicate(&self) -> (r: Block)
        ensures
            r == *self,
    {
        Block { hash: self.hash, number: self.number, payload: self.payload.clone() }
    }
}

/// A transaction as the remote chain returned it: its hash, and the
/// transaction object as received.
#[derive(Clone, Debug, PartialEq, Eq)]
pub struct Transaction {
    pub hash: H256,
    pub payload: String,
}

impl Transaction {
    /// A copy of the transaction.
    pub fn duplicate(&self) -> (r: Transaction)
        ensures
            r == *self,
    {
        Transaction { hash: self.hash, payload: self.payload.clone() }
    }
}

/// One raw transaction of a block, as received.
#[derive(Clone, Debug, PartialEq, Eq)]
pub struct RawTransaction {
    pub payload: String,
}

/// A copy of a list of raw transactions.
pub fn duplicate_raw_transactions(v: &Vec<RawTransaction>) -> (r: Vec<RawTransaction>)
    ensures
        r@ == v@,
{
    let mut out: Vec<RawTransaction> = Vec::new();
    let mut i: usize = 0;
    while i < v.len()
        invariant
            0 <= i <= v@.len(),
            out@ == v@.take(i as int),
        decreases v.len() - i,
    {
        out.push(RawTransaction { payload: v[i].payload.clone() });
        assert(v@.take(i as int + 1) =~= v@.take(i as int).push(v@[i as int]));
        i = i + 1;
    }
    assert(v@.take(v@.len() as int) =~= v@);
    out
}

/// Addresses of the default bridge contracts.
#[derive(Clone, Copy, Debug, PartialEq, Eq, Structural)]
pub struct BridgeAddresses {
    pub l1_erc20_default_bridge: Address,
    pub l2_erc20_default_bridge: Address,
    pub l1_weth_bridge: Option<Address>,
    pub l2_weth_bridge: Option<Address>,
}

/// Selects a block by number or by tag.
#[derive(Clone, Copy, Debug, PartialEq, Eq, Structural)]
pub enum BlockNumber {
    Committed,
    Finalized,
    Latest,
    Earliest,
    Pending,
    Number(u64),
}

/// Selects a block by number, tag or hash.
#[derive(Clone, Copy, Debug, PartialEq, Eq, Structural)]
pub enum BlockId {
    Number(BlockNumber),
    Hash(H256),
}

/// A call to make on the remote chain.
#[derive(Clone, Copy, Debug, PartialEq, Eq, Structural)]
pub enum RemoteCall {
    GetStorageAt { address: Address, idx: H256, block: Option<BlockId> },
    GetBytecodeByHash { hash: H256 },
    GetTransactionByHash { hash: H256 },
    GetTransactionDetails { hash: H256 },
    GetRawBlockTransactions { block_number: u32 },
    GetBlockByHash { hash: H256, full_transactions: bool },
    GetBlockByNumber { block_number: BlockNumber, full_transactions: bool },
    GetBlockTransactionCountByHash { block_hash: H256 },
    GetBlockTransactionCountByNumber { block_number: BlockNumber },
    GetTransactionByBlockHashAndIndex { block_hash: H256, index: u64 },
    GetTransactionByBlockNumberAndIndex { block_number: BlockNumber, index: u64 },
    GetBridgeContracts,
}

/// The outcome of consulting the cache: the answer, or the remote call to
/// make for it.
#[derive(Clone, Debug, PartialEq, Eq)]
pub enum Lookup<T> {
    Cached(T),
    Fetch(RemoteCall),
}

/// A failure of the remote call itself: the network, a timeout, or a
/// response that could not be decoded.
#[derive(Clone, Debug, PartialEq, Eq)]
pub struct FetchError {
    pub message: String,
}

/// Errors of the fork source.
#[derive(Clone, Debug, PartialEq, Eq)]
pub enum ForkError {
    /// The remote call failed; the fork's HTTP client reported `FetchError`.
    RemoteFetch(FetchError),
}

/// A fetched result as the fork source reports it: the value unchanged, a
/// failure wrapped as a fork error.
pub open spec fn fork_result<T>(fetched: Result<T, FetchError>) -> Result<T, ForkError> {
    match fetched {
        Ok(v) => Ok(v),
        Err(e) => Err(ForkError::RemoteFetch(e)),
    }
}

/// Reports a fetched result, wrapping a failure as a fork error.
pub fn forward_fetched<T>(fetched: Result<T, FetchError>) -> (r: Result<T, ForkError>)
    ensures
        r == fork_result(fetched),
{
    match fetched {
        Ok(v) => Ok(v),
        Err(e) => Err(ForkError::RemoteFetch(e)),
    }
}

} // verus!
