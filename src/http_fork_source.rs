//! The fork source that reads a remote chain over HTTP JSON-RPC.
//!
//! Each read is split in two steps around the remote call. The `get_*` step
//! consults the cache and either answers or names the call to make; the
//! `complete_*` step takes what the call returned, stores it in the cache
//! when it may be cached, and reports it. The caller makes the call in
//! between, outside any lock on the node's state.
use vstd::prelude::*;
use crate::cache::{Cache, CacheConfig, CacheView};
use crate::fork::{
    fork_result, forward_fetched, Block, BlockId, BlockNumber, BridgeAddresses, FetchError,
    ForkError, Lookup, RawTransaction, RemoteCall, Transaction,
};
use crate::primitives::{Address, H256};

verus! {

/// What a transaction read yields before any remote call.
pub open spec fn transaction_lookup(c: CacheView, hash: H256) -> Lookup<Option<Transaction>> {
    if c.transactions.contains_key(hash) {
        Lookup::Cached(Some(c.transactions[hash]))
    } else {
        Lookup::Fetch(RemoteCall::GetTransactionByHash { hash })
    }
}

/// The cache after a transaction fetch: a transaction found is stored.
pub open spec fn after_transaction_fetch(
    c: CacheView,
    hash: H256,
    fetched: Result<Option<Transaction>, FetchError>,
) -> CacheView {
    match fetched {
        Ok(Some(t)) => CacheView { transactions: c.transactions.insert(hash, t), ..c },
        _ => c,
    }
}

/// What a read of a block's raw transactions yields before any remote call.
pub open spec fn raw_transactions_lookup(c: CacheView, block_number: u32) -> Lookup<Seq<RawTransaction>> {
    if c.block_raw_transactions.contains_key(block_number as u64) {
        Lookup::Cached(c.block_raw_transactions[block_number as u64])
    } else {
        Lookup::Fetch(RemoteCall::GetRawBlockTransactions { block_number })
    }
}

/// The cache after a fetch of a block's raw transactions: a non-empty list
/// is stored.
pub open spec fn after_raw_transactions_fetch(
    c: CacheView,
    block_number: u32,
    fetched: Result<Seq<RawTransaction>, FetchError>,
) -> CacheView {
    match fetched {
        Ok(v) => if v.len() > 0 {
            CacheView {
                block_raw_transactions: c.block_raw_transactions.insert(block_number as u64, v),
                ..c
            }
        } else {
            c
        },
        Err(_) => c,
    }
}

/// What a read of a block by hash yields before any remote call.
pub open spec fn block_by_hash_lookup(c: CacheView, hash: H256, full_transactions: bool) -> Lookup<Option<Block>> {
    if c.blocks(full_transactions).contains_key(hash) {
        Lookup::Cached(Some(c.blocks(full_transactions)[hash]))
    } else {
        Lookup::Fetch(RemoteCall::GetBlockByHash { hash, full_transactions })
    }
}

/// The cache after a fetch of a block by hash: a block found is stored under
/// the hash asked for.
pub open spec fn after_block_by_hash_fetch(
    c: CacheView,
    hash: H256,
    full_transactions: bool,
    fetched: Result<Option<Block>, FetchError>,
) -> CacheView {
    match fetched {
        Ok(Some(b)) => c.with_block(hash, full_transactions, b),
        _ => c,
    }
}

/// What a read of a block by number yields before any remote call: only an
/// explicit number is looked up, first through the number-to-hash index and
/// then among the blocks of the asked level of detail.
pub open spec fn block_by_number_lookup(
    c: CacheView,
    block_number: BlockNumber,
    full_transactions: bool,
) -> Lookup<Option<Block>> {
    match block_number {
        BlockNumber::Number(n) => if c.block_hashes.contains_key(n) && c.blocks(
            full_transactions,
        ).contains_key(c.block_hashes[n]) {
            Lookup::Cached(Some(c.blocks(full_transactions)[c.block_hashes[n]]))
        } else {
            Lookup::Fetch(RemoteCall::GetBlockByNumber { block_number, full_transactions })
        },
        _ => Lookup::Fetch(RemoteCall::GetBlockByNumber { block_number, full_transactions }),
    }
}

/// The cache after a fetch of a block by number: a block found is stored
/// under its own hash.
pub open spec fn after_block_by_number_fetch(
    c: CacheView,
    full_transactions: bool,
    fetched: Result<Option<Block>, FetchError>,
) -> CacheView {
    match fetched {
        Ok(Some(b)) => c.with_block(b.hash, full_transactions, b),
        _ => c,
    }
}

/// What a read of the bridge contracts yields before any remote call.
pub open spec fn bridge_contracts_lookup(c: CacheView) -> Lookup<BridgeAddresses> {
    match c.bridge_addresses {
        Some(b) => Lookup::Cached(b),
        None => Lookup::Fetch(RemoteCall::GetBridgeContracts),
    }
}

/// The cache after a fetch of the bridge contracts: addresses received are
/// stored.
pub open spec fn after_bridge_contracts_fetch(
    c: CacheView,
    fetched: Result<BridgeAddresses, FetchError>,
) -> CacheView {
    match fetched {
        Ok(b) => CacheView { bridge_addresses: Some(b), ..c },
        Err(_) => c,
    }
}

/// A view of a fetched list of raw transactions.
pub open spec fn raw_fetched_view(fetched: Result<Vec<RawTransaction>, FetchError>) -> Result<Seq<RawTransaction>, FetchError> {
    match fetched {
        Ok(v) => Ok(v@),
        Err(e) => Err(e),
    }
}

/// A view of a list of raw transactions as the fork source reports it.
pub open spec fn raw_result_view(r: Result<Vec<RawTransaction>, ForkError>) -> Result<Seq<RawTransaction>, ForkError> {
    match r {
        Ok(v) => Ok(v@),
        Err(e) => Err(e),
    }
}

/// A view of a cache answer for raw transactions.
pub open spec fn raw_lookup_view(r: Lookup<Vec<RawTransaction>>) -> Lookup<Seq<RawTransaction>> {
    match r {
        Lookup::Cached(v) => Lookup::Cached(v@),
        Lookup::Fetch(c) => Lookup::Fetch(c),
    }
}

/// A block fetched by hash is answered from the cache on the next read with
/// the same hash and level of detail: the remote is called once and both
/// reads report the same block.
pub proof fn lemma_block_by_hash_fetched_once(
    c: CacheView,
    hash: H256,
    full_transactions: bool,
    block: Block,
)
    ensures
        fork_result(Ok::<Option<Block>, FetchError>(Some(block))) == Ok::<Option<Block>, ForkError>(
            Some(block),
        ),
        block_by_hash_lookup(
            after_block_by_hash_fetch(c, hash, full_transactions, Ok(Some(block))),
            hash,
            full_transactions,
        ) == Lookup::Cached(Some(block)),
{
}

/// A block fetched by its number is answered from the cache on the next read
/// with that number and level of detail.
pub proof fn lemma_block_by_number_fetched_once(
    c: CacheView,
    number: u64,
    full_transactions: bool,
    block: Block,
)
    requires
        block.number == number,
    ensures
        fork_result(Ok::<Option<Block>, FetchError>(Some(block))) == Ok::<Option<Block>, ForkError>(
            Some(block),
        ),
        block_by_number_lookup(
            after_block_by_number_fetch(c, full_transactions, Ok(Some(block))),
            BlockNumber::Number(number),
            full_transactions,
        ) == Lookup::Cached(Some(block)),
{
}

/// A block with full transactions and the same block with transaction hashes
/// only are distinct cache entries: fetching one leaves reads of the other as
/// they were.
pub proof fn lemma_detail_levels_distinct(
    c: CacheView,
    hash: H256,
    full_transactions: bool,
    fetched: Result<Option<Block>, FetchError>,
)
    ensures
        block_by_hash_lookup(
            after_block_by_hash_fetch(c, hash, full_transactions, fetched),
            hash,
            !full_transactions,
        ) == block_by_hash_lookup(c, hash, !full_transactions),
{
}

/// Fork source that gets the data via HTTP requests.
pub struct HttpForkSource {
    /// URL for the network to fork.
    pub fork_url: String,
    /// Cache for network data.
    cache: Cache,
}

impl View for HttpForkSource {
    type V = CacheView;

    closed spec fn view(&self) -> CacheView {
        self.cache@
    }
}

impl HttpForkSource {
    /// The URL of the forked network.
    pub closed spec fn url(&self) -> String {
        self.fork_url
    }

    /// A source for the chain at `fork_url`, with an empty cache of the
    /// given configuration.
    pub fn new(fork_url: String, cache_config: CacheConfig) -> (r: Self)
        ensures
            r.url() == fork_url,
            r@ == (CacheView {
                config: cache_config,
                transactions: Map::empty(),
                full_blocks: Map::empty(),
                minimal_blocks: Map::empty(),
                block_hashes: Map::empty(),
                block_raw_transactions: Map::empty(),
                bridge_addresses: None,
            }),
    {
        Self { fork_url, cache: Cache::new(cache_config) }
    }

    /// Reading a storage value is never cached: the remote call to make.
    pub fn get_storage_at(&self, address: Address, idx: H256, block: Option<BlockId>) -> (r: RemoteCall)
        ensures
            r == (RemoteCall::GetStorageAt { address, idx, block }),
    {
        RemoteCall::GetStorageAt { address, idx, block }
    }

    /// Reading code by hash is never cached: the remote call to make.
    pub fn get_bytecode_by_hash(&self, hash: H256) -> (r: RemoteCall)
        ensures
            r == (RemoteCall::GetBytecodeByHash { hash }),
    {
        RemoteCall::GetBytecodeByHash { hash }
    }

    /// Transaction details change over the transaction's life and are never
    /// cached: the remote call to make.
    pub fn get_transaction_details(&self, hash: H256) -> (r: RemoteCall)
        ensures
            r == (RemoteCall::GetTransactionDetails { hash }),
    {
        RemoteCall::GetTransactionDetails { hash }
    }

    /// The transaction count of a block by hash is never cached: the remote
    /// call to make.
    pub fn get_block_transaction_count_by_hash(&self, block_hash: H256) -> (r: RemoteCall)
        ensures
            r == (RemoteCall::GetBlockTransactionCountByHash { block_hash }),
    {
        RemoteCall::GetBlockTransactionCountByHash { block_hash }
    }

    /// The transaction count of a block by number is never cached: the
    /// remote call to make.
    pub fn get_block_transaction_count_by_number(&self, block_number: BlockNumber) -> (r: RemoteCall)
        ensures
            r == (RemoteCall::GetBlockTransactionCountByNumber { block_number }),
    {
        RemoteCall::GetBlockTransactionCountByNumber { block_number }
    }

    /// A transaction by block hash and index is never cached: the remote call
    /// to make.
    pub fn get_transaction_by_block_hash_and_index(&self, block_hash: H256, index: u64) -> (r: RemoteCall)
        ensures
            r == (RemoteCall::GetTransactionByBlockHashAndIndex { block_hash, index }),
    {
        RemoteCall::GetTransactionByBlockHashAndIndex { block_hash, index }
    }

    /// A transaction by block number and index is never cached: the remote
    /// call to make.
    pub fn get_transaction_by_block_number_and_index(
        &self,
        block_number: BlockNumber,
        index: u64,
    ) -> (r: RemoteCall)
        ensures
            r == (RemoteCall::GetTransactionByBlockNumberAndIndex { block_number, index }),
    {
        RemoteCall::GetTransactionByBlockNumberAndIndex { block_number, index }
    }

    /// Reports the result of an uncached remote call, wrapping a failure.
    pub fn complete_uncached<T>(&self, fetched: Result<T, FetchError>) -> (r: Result<T, ForkError>)
        ensures
            r == fork_result(fetched),
    {
        forward_fetched(fetched)
    }

    /// The cached transaction with the given hash, or the call to fetch it.
    pub fn get_transaction_by_hash(&self, hash: H256) -> (r: Lookup<Option<Transaction>>)
        ensures
            r == transaction_lookup(self@, hash),
    {
        match self.cache.get_transaction(&hash) {
            Some(transaction) => Lookup::Cached(Some(transaction)),
            None => Lookup::Fetch(RemoteCall::GetTransactionByHash { hash }),
        }
    }

    /// Reports a fetched transaction, storing it in the cache when found.
    pub fn complete_transaction_by_hash(
        &mut self,
        hash: H256,
        fetched: Result<Option<Transaction>, FetchError>,
    ) -> (r: Result<Option<Transaction>, ForkError>)
        ensures
            r == fork_result(fetched),
            final(self)@ == after_transaction_fetch(old(self)@, hash, fetched),
            final(self).url() == old(self).url(),
    {
        if let Ok(Some(transaction)) = &fetched {
            self.cache.insert_transaction(hash, transaction.duplicate());
        }
        forward_fetched(fetched)
    }

    /// The cached raw transactions of a block, or the call to fetch them.
    pub fn get_raw_block_transactions(&self, block_number: u32) -> (r: Lookup<Vec<RawTransaction>>)
        ensures
            raw_lookup_view(r) == raw_transactions_lookup(self@, block_number),
    {
        let number = block_number as u64;
        match self.cache.get_block_raw_transactions(number) {
            Some(transactions) => Lookup::Cached(transactions),
            None => Lookup::Fetch(RemoteCall::GetRawBlockTransactions { block_number }),
        }
    }

    /// Reports a block's fetched raw transactions, storing a non-empty list in
    /// the cache.
    pub fn complete_raw_block_transactions(
        &mut self,
        block_number: u32,
        fetched: Result<Vec<RawTransaction>, FetchError>,
    ) -> (r: Result<Vec<RawTransaction>, ForkError>)
        ensures
            raw_result_view(r) == fork_result(raw_fetched_view(fetched)),
            final(self)@ == after_raw_transactions_fetch(
                old(self)@,
                block_number,
                raw_fetched_view(fetched),
            ),
            final(self).url() == old(self).url(),
    {
        match fetched {
            Ok(transactions) => {
                if transactions.len() > 0 {
                    let copy = crate::fork::duplicate_raw_transactions(&transactions);
                    self.cache.insert_block_raw_transactions(block_number as u64, copy);
                }
                Ok(transactions)
            },
            Err(e) => Err(ForkError::RemoteFetch(e)),
        }
    }

    /// The cached block with the given hash and level of detail, or the call
    /// to fetch it.
    pub fn get_block_by_hash(&self, hash: H256, full_transactions: bool) -> (r: Lookup<Option<Block>>)
        ensures
            r == block_by_hash_lookup(self@, hash, full_transactions),
    {
        match self.cache.get_block(&hash, full_transactions) {
            Some(block) => Lookup::Cached(Some(block)),
            None => Lookup::Fetch(RemoteCall::GetBlockByHash { hash, full_transactions }),
        }
    }

    /// Reports a block fetched by hash, storing it in the cache when found.
    pub fn complete_block_by_hash(
        &mut self,
        hash: H256,
        full_transactions: bool,
        fetched: Result<Option<Block>, FetchError>,
    ) -> (r: Result<Option<Block>, ForkError>)
        ensures
            r == fork_result(fetched),
            final(self)@ == after_block_by_hash_fetch(old(self)@, hash, full_transactions, fetched),
            final(self).url() == old(self).url(),
    {
        if let Ok(Some(block)) = &fetched {
            self.cache.insert_block(hash, full_transactions, block.duplicate());
        }
        forward_fetched(fetched)
    }

    /// The cached block with the given number and level of detail, or the
    /// call to fetch it. Only an explicit number can be answered from the
    /// cache.
    pub fn get_block_by_number(&self, block_number: BlockNumber, full_transactions: bool) -> (r: Lookup<Option<Block>>)
        ensures
            r == block_by_number_lookup(self@, block_number, full_transactions),
    {
        if let BlockNumber::Number(number) = block_number {
            if let Some(hash) = self.cache.get_block_hash(number) {
                if let Some(block) = self.cache.get_block(&hash, full_transactions) {
                    return Lookup::Cached(Some(block));
                }
            }
        }
        Lookup::Fetch(RemoteCall::GetBlockByNumber { block_number, full_transactions })
    }

    /// Reports a block fetched by number, storing it in the cache under its
    /// own hash when found.
    pub fn complete_block_by_number(
        &mut self,
        full_transactions: bool,
        fetched: Result<Option<Block>, FetchError>,
    ) -> (r: Result<Option<Block>, ForkError>)
        ensures
            r == fork_result(fetched),
            final(self)@ == after_block_by_number_fetch(old(self)@, full_transactions, fetched),
            final(self).url() == old(self).url(),
    {
        if let Ok(Some(block)) = &fetched {
            self.cache.insert_block(block.hash, full_transactions, block.duplicate());
        }
        forward_fetched(fetched)
    }

    /// The cached bridge contract addresses, or the call to fetch them.
    pub fn get_bridge_contracts(&self) -> (r: Lookup<BridgeAddresses>)
        ensures
            r == bridge_contracts_lookup(self@),
    {
        match self.cache.get_bridge_addresses() {
            Some(bridge_addresses) => Lookup::Cached(bridge_addresses),
            None => Lookup::Fetch(RemoteCall::GetBridgeContracts),
        }
    }

    /// Reports fetched bridge contract addresses, storing them in the cache.
    pub fn complete_bridge_contracts(&mut self, fetched: Result<BridgeAddresses, FetchError>) -> (r: Result<BridgeAddresses, ForkError>)
        ensures
            r == fork_result(fetched),
            final(self)@ == after_bridge_contracts_fetch(old(self)@, fetched),
            final(self).url() == old(self).url(),
    {
        if let Ok(bridge_addresses) = &fetched {
            self.cache.set_bridge_addresses(*bridge_addresses);
        }
        forward_fetched(fetched)
    }
}

} // verus!
