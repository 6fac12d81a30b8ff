//! The cache of data fetched from the remote chain. Entries, once stored,
//! are never invalidated: remote data of a historical block or transaction
//! does not change.
use vstd::prelude::*;
use crate::assoc::{latest, lemma_latest_absent, lemma_latest_at, lemma_latest_push};
use crate::fork::{duplicate_raw_transactions, Block, BridgeAddresses, RawTransaction, Transaction};
use crate::primitives::H256;

verus! {

/// Where the cache keeps its entries.
#[derive(Clone, Debug, PartialEq, Eq)]
pub enum CacheConfig {
    /// In memory, for the life of the process.
    Memory,
    /// Also on disk, under `cache_dir`, across restarts.
    Disk { cache_dir: String },
}

/// What the cache holds.
pub struct CacheView {
    pub config: CacheConfig,
    /// Transactions by hash.
    pub transactions: Map<H256, Transaction>,
    /// Blocks with full transactions, by hash.
    pub full_blocks: Map<H256, Block>,
    /// Blocks with transaction hashes only, by hash.
    pub minimal_blocks: Map<H256, Block>,
    /// Block hashes by block number.
    pub block_hashes: Map<u64, H256>,
    /// Raw transactions of a block, by block number.
    pub block_raw_transactions: Map<u64, Seq<RawTransaction>>,
    /// The bridge contract addresses, once known.
    pub bridge_addresses: Option<BridgeAddresses>,
}

impl CacheView {
    /// The blocks stored with the given level of detail.
    pub open spec fn blocks(self, full_transactions: bool) -> Map<H256, Block> {
        if full_transactions {
            self.full_blocks
        } else {
            self.minimal_blocks
        }
    }

    /// The cache after storing `block` under `hash` with the given level of
    /// detail, and `hash` as the hash of the block's number.
    pub open spec fn with_block(self, hash: H256, full_transactions: bool, block: Block) -> CacheView {
        CacheView {
            full_blocks: if full_transactions {
                self.full_blocks.insert(hash, block)
            } else {
                self.full_blocks
            },
            minimal_blocks: if full_transactions {
                self.minimal_blocks
            } else {
                self.minimal_blocks.insert(hash, block)
            },
            block_hashes: self.block_hashes.insert(block.number, hash),
            ..self
        }
    }
}

/// The log of raw transaction lists with each vector replaced by its view.
pub open spec fn raw_log(s: Seq<(u64, Vec<RawTransaction>)>) -> Seq<(u64, Seq<RawTransaction>)> {
    s.map_values(|e: (u64, Vec<RawTransaction>)| (e.0, e.1@))
}

/// Position of the last entry of `entries` whose key is `k`.
fn find_hash<V>(entries: &Vec<(H256, V)>, k: &H256) -> (r: Option<usize>)
    ensures
        match r {
            Some(i) => i < entries@.len() && entries@[i as int].0 == *k && forall|j: int|
                i < j < entries@.len() ==> entries@[j].0 != *k,
            None => forall|j: int| 0 <= j < entries@.len() ==> entries@[j].0 != *k,
        },
{
    let mut i: usize = entries.len();
    while i > 0
        invariant
            i <= entries@.len(),
            forall|j: int| i <= j < entries@.len() ==> entries@[j].0 != *k,
        decreases i,
    {
        if entries[i - 1].0 == *k {
            return Some(i - 1);
        }
        i = i - 1;
    }
    None
}

/// Position of the last entry of `entries` whose key is `k`.
fn find_number<V>(entries: &Vec<(u64, V)>, k: u64) -> (r: Option<usize>)
    ensures
        match r {
            Some(i) => i < entries@.len() && entries@[i as int].0 == k && forall|j: int|
                i < j < entries@.len() ==> entries@[j].0 != k,
            None => forall|j: int| 0 <= j < entries@.len() ==> entries@[j].0 != k,
        },
{
    let mut i: usize = entries.len();
    while i > 0
        invariant
            i <= entries@.len(),
            forall|j: int| i <= j < entries@.len() ==> entries@[j].0 != k,
        decreases i,
    {
        if entries[i - 1].0 == k {
            return Some(i - 1);
        }
        i = i - 1;
    }
    None
}

/// The last block stored under `hash` in a block log.
fn lookup_block(entries: &Vec<(H256, Block)>, hash: &H256) -> (r: Option<Block>)
    ensures
        r == latest(entries@).get(*hash),
{
    match find_hash(entries, hash) {
        Some(i) => {
            proof {
                lemma_latest_at(entries@, i as int);
            }
            Some(entries[i].1.duplicate())
        },
        None => {
            proof {
                lemma_latest_absent(entries@, *hash);
            }
            None
        },
    }
}

/// Previously fetched remote data.
pub struct Cache {
    config: CacheConfig,
    transactions: Vec<(H256, Transaction)>,
    full_blocks: Vec<(H256, Block)>,
    minimal_blocks: Vec<(H256, Block)>,
    block_hashes: Vec<(u64, H256)>,
    block_raw_transactions: Vec<(u64, Vec<RawTransaction>)>,
    bridge_addresses: Option<BridgeAddresses>,
}

impl View for Cache {
    type V = CacheView;

    closed spec fn view(&self) -> CacheView {
        CacheView {
            config: self.config,
            transactions: latest(self.transactions@),
            full_blocks: latest(self.full_blocks@),
            minimal_blocks: latest(self.minimal_blocks@),
            block_hashes: latest(self.block_hashes@),
            block_raw_transactions: latest(raw_log(self.block_raw_transactions@)),
            bridge_addresses: self.bridge_addresses,
        }
    }
}

impl Cache {
    /// An empty cache with the given configuration.
    pub fn new(config: CacheConfig) -> (r: Cache)
        ensures
            r@ == (CacheView {
                config,
                transactions: Map::empty(),
                full_blocks: Map::empty(),
                minimal_blocks: Map::empty(),
                block_hashes: Map::empty(),
                block_raw_transactions: Map::empty(),
                bridge_addresses: None,
            }),
    {
        let r = Cache {
            config,
            transactions: Vec::new(),
            full_blocks: Vec::new(),
            minimal_blocks: Vec::new(),
            block_hashes: Vec::new(),
            block_raw_transactions: Vec::new(),
            bridge_addresses: None,
        };
        assert(raw_log(r.block_raw_transactions@) =~= Seq::empty());
        r
    }

    /// The configuration the cache was made with.
    pub fn config(&self) -> (r: &CacheConfig)
        ensures
            *r == self@.config,
    {
        &self.config
    }

    /// The cached transaction with the given hash.
    pub fn get_transaction(&self, hash: &H256) -> (r: Option<Transaction>)
        ensures
            r == self@.transactions.get(*hash),
    {
        match find_hash(&self.transactions, hash) {
            Some(i) => {
                proof {
                    lemma_latest_at(self.transactions@, i as int);
                }
                Some(self.transactions[i].1.duplicate())
            },
            None => {
                proof {
                    lemma_latest_absent(self.transactions@, *hash);
                }
                None
            },
        }
    }

    /// Stores a transaction under its hash.
    pub fn insert_transaction(&mut self, hash: H256, transaction: Transaction)
        ensures
            final(self)@ == (CacheView {
                transactions: old(self)@.transactions.insert(hash, transaction),
                ..old(self)@
            }),
    {
        proof {
            lemma_latest_push(self.transactions@, (hash, transaction));
        }
        self.transactions.push((hash, transaction));
    }

    /// The cached block with the given hash and level of detail.
    pub fn get_block(&self, hash: &H256, full_transactions: bool) -> (r: Option<Block>)
        ensures
            r == self@.blocks(full_transactions).get(*hash),
    {
        if full_transactions {
            lookup_block(&self.full_blocks, hash)
        } else {
            lookup_block(&self.minimal_blocks, hash)
        }
    }

    /// Stores a block under `hash` with the given level of detail, and
    /// records `hash` as the hash of the block's number.
    pub fn insert_block(&mut self, hash: H256, full_transactions: bool, block: Block)
        ensures
            final(self)@ == old(self)@.with_block(hash, full_transactions, block),
    {
        proof {
            lemma_latest_push(self.block_hashes@, (block.number, hash));
            lemma_latest_push(self.full_blocks@, (hash, block));
            lemma_latest_push(self.minimal_blocks@, (hash, block));
        }
        self.block_hashes.push((block.number, hash));
        if full_transactions {
            self.full_blocks.push((hash, block));
        } else {
            self.minimal_blocks.push((hash, block));
        }
    }

    /// The cached hash of the block with the given number.
    pub fn get_block_hash(&self, number: u64) -> (r: Option<H256>)
        ensures
            r == self@.block_hashes.get(number),
    {
        match find_number(&self.block_hashes, number) {
            Some(i) => {
                proof {
                    lemma_latest_at(self.block_hashes@, i as int);
                }
                Some(self.block_hashes[i].1)
            },
            None => {
                proof {
                    lemma_latest_absent(self.block_hashes@, number);
                }
                None
            },
        }
    }

    /// The cached raw transactions of the block with the given number.
    pub fn get_block_raw_transactions(&self, number: u64) -> (r: Option<Vec<RawTransaction>>)
        ensures
            match r {
                Some(v) => self@.block_raw_transactions.contains_key(number) && v@
                    == self@.block_raw_transactions[number],
                None => !self@.block_raw_transactions.contains_key(number),
            },
    {
        let ghost log = raw_log(self.block_raw_transactions@);
        match find_number(&self.block_raw_transactions, number) {
            Some(i) => {
                proof {
                    lemma_latest_at(log, i as int);
                }
                Some(duplicate_raw_transactions(&self.block_raw_transactions[i].1))
            },
            None => {
                proof {
                    lemma_latest_absent(log, number);
                }
                None
            },
        }
    }

    /// Stores the raw transactions of the block with the given number.
    pub fn insert_block_raw_transactions(&mut self, number: u64, transactions: Vec<RawTransaction>)
        ensures
            final(self)@ == (CacheView {
                block_raw_transactions: old(self)@.block_raw_transactions.insert(
                    number,
                    transactions@,
                ),
                ..old(self)@
            }),
    {
        let ghost t = transactions@;
        self.block_raw_transactions.push((number, transactions));
        proof {
            assert(raw_log(self.block_raw_transactions@) =~= raw_log(
                old(self).block_raw_transactions@,
            ).push((number, t)));
            lemma_latest_push(raw_log(old(self).block_raw_transactions@), (number, t));
        }
    }

    /// The cached bridge contract addresses.
    pub fn get_bridge_addresses(&self) -> (r: Option<BridgeAddresses>)
        ensures
            r == self@.bridge_addresses,
    {
        self.bridge_addresses
    }

    /// Stores the bridge contract addresses.
    pub fn set_bridge_addresses(&mut self, bridge_addresses: BridgeAddresses)
        ensures
            final(self)@ == (CacheView { bridge_addresses: Some(bridge_addresses), ..old(self)@ }),
    {
        self.bridge_addresses = Some(bridge_addresses);
    }
}

} // verus!
