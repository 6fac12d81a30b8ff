//! The `evm_*` operations: block mining and clock control.
use vstd::prelude::*;
use crate::node::{advanced_clock, block_produced, time_set, InMemoryNodeInner};
use crate::primitives::H256;
use crate::storage::StorageView;

verus! {

/// The `evm_*` operations over a node's state.
pub struct EvmNamespaceImpl {
    node: InMemoryNodeInner,
}

impl View for EvmNamespaceImpl {
    type V = InMemoryNodeInner;

    closed spec fn view(&self) -> InMemoryNodeInner {
        self.node
    }
}

impl EvmNamespaceImpl {
    /// Creates a new `Evm` instance with the given `node`.
    pub fn new(node: InMemoryNodeInner) -> (r: Self)
        ensures
            r@ == node,
    {
        Self { node }
    }

    /// The node's state.
    pub fn node(&self) -> (r: &InMemoryNodeInner)
        ensures
            *r == self@,
    {
        &self.node
    }

    /// Gives the node's state back.
    pub fn into_node(self) -> (r: InMemoryNodeInner)
        ensures
            r == self@,
    {
        self.node
    }

    /// Mines one block from an execution's writes and referenced code
    /// objects, tagged with the identifier `tx_hash`; returns "0x0".
    pub fn evm_mine(
        &mut self,
        view: &StorageView,
        bytecodes: &Vec<(H256, Vec<H256>)>,
        tx_hash: H256,
    ) -> (r: String)
        requires
            old(self)@.wf(),
            old(self)@.can_produce_block(),
        ensures
            final(self)@.wf(),
            old(self)@.blocks_consecutive() ==> final(self)@.blocks_consecutive(),
            block_produced(old(self)@, final(self)@, *view, bytecodes@, tx_hash, r@),
    {
        self.node.produce_block(view, bytecodes, tx_hash)
    }

    /// Increases the clock by `time_delta_seconds` seconds, saturating;
    /// returns the requested delta.
    pub fn increase_time(&mut self, time_delta_seconds: u64) -> (r: u64)
        ensures
            r == time_delta_seconds,
            final(self)@.current_timestamp == advanced_clock(
                old(self)@.current_timestamp,
                time_delta_seconds,
            ),
            final(self)@.current_batch == old(self)@.current_batch,
            final(self)@.current_miniblock == old(self)@.current_miniblock,
            final(self)@.blocks@ == old(self)@.blocks@,
            final(self)@.fork_storage == old(self)@.fork_storage,
            time_delta_seconds == 0 ==> final(self)@ == old(self)@,
    {
        self.node.increase_time(time_delta_seconds)
    }

    /// Sets the clock to `time`; returns the signed difference from the
    /// previous clock.
    pub fn set_time(&mut self, time: u64) -> (r: i128)
        ensures
            time_set(old(self)@, final(self)@, time, r),
    {
        self.node.set_time(time)
    }
}

} // verus!
