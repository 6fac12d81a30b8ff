//! The node state machine: the committed overlay, the block index and the
//! logical clock, with block production and clock control.
use vstd::prelude::*;
use crate::assoc::latest;
use crate::primitives::{StorageKey, H256};
use crate::storage::{code_log, ForkStorage, StorageView};

verus! {

/// Timestamp, in milliseconds, of the first block of a node that forks no
/// remote chain.
pub const NON_FORK_FIRST_BLOCK_TIMESTAMP: u64 = 1000;

/// The success marker returned by block production.
pub open spec fn mined_marker() -> Seq<char> {
    seq!['0', 'x', '0']
}

/// One produced block.
#[derive(Clone, Copy, Debug, PartialEq, Eq, Structural)]
pub struct BlockInfo {
    pub batch_number: u32,
    pub block_timestamp: u64,
    pub tx_hash: Option<H256>,
}

/// What an execution needs to know of the block it runs in.
#[derive(Clone, Copy, Debug, PartialEq, Eq, Structural)]
pub struct BlockContext {
    pub block_number: u32,
    pub block_timestamp: u64,
}

/// The clock after adding `delta_seconds`, clamped at the largest
/// representable value.
pub open spec fn advanced_clock(clock: u64, delta_seconds: u64) -> u64 {
    if clock + delta_seconds * 1000 > u64::MAX {
        u64::MAX
    } else {
        (clock + delta_seconds * 1000) as u64
    }
}

/// `after` is `before` with one block produced from the writes of `view` and
/// the code objects `bytecodes`, tagged with `tx_hash`; `r` is the marker
/// returned.
pub open spec fn block_produced(
    before: InMemoryNodeInner,
    after: InMemoryNodeInner,
    view: StorageView,
    bytecodes: Seq<(H256, Vec<H256>)>,
    tx_hash: H256,
    r: Seq<char>,
) -> bool {
    &&& r == mined_marker()
    &&& after.fork_storage.values_map() == before.fork_storage.values_map().union_prefer_right(
        view.modified_map(),
    )
    &&& after.fork_storage.deps_map() == before.fork_storage.deps_map().union_prefer_right(
        latest(code_log(bytecodes)),
    )
    &&& after.blocks@ == before.blocks@.push(
        BlockInfo {
            batch_number: before.current_batch,
            block_timestamp: before.current_timestamp,
            tx_hash: Some(tx_hash),
        },
    )
    &&& after.current_timestamp == before.current_timestamp + 1
    &&& after.current_batch == before.current_batch + 1
    &&& after.current_miniblock == before.current_miniblock + 1
}

/// `after` is `before` with its clock set to `time`; `r` is how far the
/// clock moved.
pub open spec fn time_set(before: InMemoryNodeInner, after: InMemoryNodeInner, time: u64, r: i128) -> bool {
    &&& r == time - before.current_timestamp
    &&& after.current_timestamp == time
    &&& after.current_batch == before.current_batch
    &&& after.current_miniblock == before.current_miniblock
    &&& after.blocks@ == before.blocks@
    &&& after.fork_storage == before.fork_storage
}

/// Producing a block raises the latest block's sequence number by exactly
/// one and always yields the success marker.
pub proof fn lemma_produce_block_advances_latest(
    before: InMemoryNodeInner,
    after: InMemoryNodeInner,
    view: StorageView,
    bytecodes: Seq<(H256, Vec<H256>)>,
    tx_hash: H256,
    r: Seq<char>,
)
    requires
        before.wf(),
        block_produced(before, after, view, bytecodes, tx_hash, r),
    ensures
        after.wf(),
        after.blocks@.last().batch_number == before.blocks@.last().batch_number + 1,
        r == mined_marker(),
{
}

/// Setting the clock twice to the same time: the second call reports no
/// movement and leaves the clock where the first put it.
pub proof fn lemma_set_time_idempotent(
    n0: InMemoryNodeInner,
    n1: InMemoryNodeInner,
    n2: InMemoryNodeInner,
    time: u64,
    r1: i128,
    r2: i128,
)
    requires
        time_set(n0, n1, time, r1),
        time_set(n1, n2, time, r2),
    ensures
        r1 == time - n0.current_timestamp,
        r2 == 0,
        n2.current_timestamp == n1.current_timestamp,
        n1.current_timestamp == time,
{
}

/// Advancing by a non-zero number of seconds adds that many thousand
/// milliseconds, unless the sum leaves the range, where the clock rests at
/// the largest value; advancing by zero moves nothing.
pub proof fn lemma_advanced_clock(clock: u64, delta_seconds: u64)
    ensures
        clock + delta_seconds * 1000 <= u64::MAX ==> advanced_clock(clock, delta_seconds) == clock
            + delta_seconds * 1000,
        clock + delta_seconds * 1000 > u64::MAX ==> advanced_clock(clock, delta_seconds)
            == u64::MAX,
        advanced_clock(clock, 0) == clock,
{
}

/// The authoritative local state of the node.
pub struct InMemoryNodeInner {
    /// The logical clock, in milliseconds.
    pub current_timestamp: u64,
    /// Number of the next batch to be produced.
    pub current_batch: u32,
    /// Number of the next sub-block to be produced.
    pub current_miniblock: u64,
    /// Produced blocks, in order of production.
    pub blocks: Vec<BlockInfo>,
    /// The committed storage overlay.
    pub fork_storage: ForkStorage,
}

impl InMemoryNodeInner {
    /// The block index is never empty and its last block is the one just
    /// before `current_batch`.
    pub open spec fn wf(&self) -> bool {
        &&& self.blocks@.len() > 0
        &&& self.blocks@.last().batch_number + 1 == self.current_batch
    }

    /// Block sequence numbers rise by exactly one from each block to the
    /// next.
    pub open spec fn blocks_consecutive(&self) -> bool {
        forall|i: int|
            0 <= i < self.blocks@.len() - 1 ==> #[trigger] self.blocks@[i + 1].batch_number
                == self.blocks@[i].batch_number + 1
    }

    /// Whether one more block can be produced without a counter or the clock
    /// leaving its range.
    pub open spec fn can_produce_block(&self) -> bool {
        &&& self.current_batch < u32::MAX
        &&& self.current_miniblock < u64::MAX
        &&& self.current_timestamp < u64::MAX
    }

    /// A node whose clock reads `timestamp`, holding only the genesis block.
    pub fn new(timestamp: u64) -> (r: InMemoryNodeInner)
        ensures
            r.wf(),
            r.blocks_consecutive(),
            r.current_timestamp == timestamp,
            r.current_batch == 1,
            r.current_miniblock == 1,
            r.blocks@ == seq![BlockInfo { batch_number: 0, block_timestamp: timestamp, tx_hash: None }],
            r.fork_storage.values_map() == Map::<StorageKey, H256>::empty(),
            r.fork_storage.deps_map() == Map::<H256, Seq<u8>>::empty(),
    {
        let mut blocks: Vec<BlockInfo> = Vec::new();
        blocks.push(BlockInfo { batch_number: 0, block_timestamp: timestamp, tx_hash: None });
        InMemoryNodeInner {
            current_timestamp: timestamp,
            current_batch: 1,
            current_miniblock: 1,
            blocks,
            fork_storage: ForkStorage::new(),
        }
    }

    /// Whether the node is well formed and can produce one more block.
    pub fn is_ready_to_produce(&self) -> (r: bool)
        ensures
            r == (self.wf() && self.can_produce_block()),
    {
        self.blocks.len() > 0 && self.blocks[self.blocks.len() - 1].batch_number as u64 + 1
            == self.current_batch as u64 && self.current_batch < u32::MAX
            && self.current_miniblock < u64::MAX && self.current_timestamp < u64::MAX
    }

    /// Sequence number of the latest block.
    pub fn latest_block_number(&self) -> (r: u32)
        requires
            self.wf(),
        ensures
            r == self.blocks@.last().batch_number,
    {
        self.blocks[self.blocks.len() - 1].batch_number
    }

    /// The execution context of the next block.
    pub fn create_block_context(&self) -> (r: BlockContext)
        ensures
            r == (BlockContext {
                block_number: self.current_batch,
                block_timestamp: self.current_timestamp,
            }),
    {
        BlockContext { block_number: self.current_batch, block_timestamp: self.current_timestamp }
    }

    /// Commits one executed block: applies the execution's writes, persists
    /// the code objects it referenced, records a block tagged with
    /// `tx_hash`, and advances the clock and both block counters by one.
    pub fn produce_block(
        &mut self,
        view: &StorageView,
        bytecodes: &Vec<(H256, Vec<H256>)>,
        tx_hash: H256,
    ) -> (r: String)
        requires
            old(self).wf(),
            old(self).can_produce_block(),
        ensures
            final(self).wf(),
            old(self).blocks_consecutive() ==> final(self).blocks_consecutive(),
            block_produced(*old(self), *final(self), *view, bytecodes@, tx_hash, r@),
    {
        let context = self.create_block_context();
        let block = BlockInfo {
            batch_number: context.block_number,
            block_timestamp: context.block_timestamp,
            tx_hash: Some(tx_hash),
        };
        self.fork_storage.apply_writes(view);
        self.fork_storage.store_code_objects(bytecodes);
        self.blocks.push(block);
        self.current_timestamp = self.current_timestamp + 1;
        self.current_batch = self.current_batch + 1;
        self.current_miniblock = self.current_miniblock + 1;
        let marker = "0x0";
        proof {
            reveal_strlit("0x0");
        }
        let r = marker.to_string();
        assert(r@ =~= mined_marker());
        r
    }

    /// Moves the clock forward by `delta_seconds` seconds, saturating at the
    /// largest representable value; returns `delta_seconds`. A zero delta
    /// leaves the node untouched.
    pub fn increase_time(&mut self, delta_seconds: u64) -> (r: u64)
        ensures
            r == delta_seconds,
            final(self).current_timestamp == advanced_clock(
                old(self).current_timestamp,
                delta_seconds,
            ),
            final(self).current_batch == old(self).current_batch,
            final(self).current_miniblock == old(self).current_miniblock,
            final(self).blocks@ == old(self).blocks@,
            final(self).fork_storage == old(self).fork_storage,
            delta_seconds == 0 ==> *final(self) == *old(self),
    {
        if delta_seconds == 0 {
            return delta_seconds;
        }
        let delta_millis: u64 = if delta_seconds > u64::MAX / 1000 {
            u64::MAX
        } else {
            delta_seconds * 1000
        };
        self.current_timestamp = self.current_timestamp.saturating_add(delta_millis);
        delta_seconds
    }

    /// Sets the clock to `time` and returns how far it moved, negative when
    /// it moved back.
    pub fn set_time(&mut self, time: u64) -> (r: i128)
        ensures
            time_set(*old(self), *final(self), time, r),
    {
        let diff: i128 = (time as i128) - (self.current_timestamp as i128);
        self.current_timestamp = time;
        diff
    }

    /// The locally committed value of `key`; `None` when it must be read
    /// from the fork source.
    pub fn read_storage(&self, key: &StorageKey) -> (r: Option<H256>)
        ensures
            r == self.fork_storage.values_map().get(*key),
    {
        self.fork_storage.read_value(key)
    }

    /// Overrides the value of `key` in the committed overlay, bypassing
    /// execution.
    pub fn set_storage(&mut self, key: StorageKey, value: H256)
        ensures
            final(self).fork_storage.values_map() == old(self).fork_storage.values_map().insert(
                key,
                value,
            ),
            final(self).fork_storage.deps_map() == old(self).fork_storage.deps_map(),
            final(self).current_timestamp == old(self).current_timestamp,
            final(self).current_batch == old(self).current_batch,
            final(self).current_miniblock == old(self).current_miniblock,
            final(self).blocks@ == old(self).blocks@,
    {
        self.fork_storage.set_value(key, value);
    }
}

impl Default for InMemoryNodeInner {
    /// A node that forks nothing, its clock at the first non-fork timestamp.
    fn default() -> (r: InMemoryNodeInner)
        ensures
            r.wf(),
            r.current_timestamp == NON_FORK_FIRST_BLOCK_TIMESTAMP,
            r.current_batch == 1,
            r.current_miniblock == 1,
            r.blocks@.len() == 1,
            r.fork_storage.values_map() == Map::<StorageKey, H256>::empty(),
    {
        InMemoryNodeInner::new(NON_FORK_FIRST_BLOCK_TIMESTAMP)
    }
}

} // verus!
