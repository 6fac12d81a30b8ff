//! The `hardhat_*` operations: direct overrides of account state.
use vstd::prelude::*;
use crate::node::InMemoryNodeInner;
use crate::primitives::{address_to_h256_spec, address_to_h256, Address, StorageKey, H256};
use crate::storage::read_through;

verus! {

/// The system account under which account nonces are kept.
pub open spec fn nonce_holder_address() -> Address {
    Address { hi: 0, mid: 0, lo: 0x8003 }
}

/// The storage key that holds the nonce of `address`.
pub open spec fn nonce_key_spec(address: Address) -> StorageKey {
    StorageKey { account: nonce_holder_address(), key: address_to_h256_spec(address) }
}

/// The storage key that holds the nonce of `address`: the account's address,
/// widened to a word, as a slot of the nonce holder.
pub fn get_nonce_key(address: Address) -> (r: StorageKey)
    ensures
        r == nonce_key_spec(address),
{
    StorageKey { account: Address { hi: 0, mid: 0, lo: 0x8003 }, key: address_to_h256(address) }
}

/// The `hardhat_*` operations over a node's state.
pub struct HardhatNamespaceImpl {
    node: InMemoryNodeInner,
}

impl View for HardhatNamespaceImpl {
    type V = InMemoryNodeInner;

    closed spec fn view(&self) -> InMemoryNodeInner {
        self.node
    }
}

/// `after` is `before` with `value` written to `key` of the committed
/// overlay and nothing else changed.
pub open spec fn storage_overridden(
    before: InMemoryNodeInner,
    after: InMemoryNodeInner,
    key: StorageKey,
    value: H256,
) -> bool {
    &&& after.fork_storage.values_map() == before.fork_storage.values_map().insert(key, value)
    &&& after.fork_storage.deps_map() == before.fork_storage.deps_map()
    &&& after.current_timestamp == before.current_timestamp
    &&& after.current_batch == before.current_batch
    &&& after.current_miniblock == before.current_miniblock
    &&& after.blocks@ == before.blocks@
}

impl HardhatNamespaceImpl {
    /// Creates a new `Hardhat` instance with the given `node`.
    pub fn new(node: InMemoryNodeInner) -> (r: Self)
        ensures
            r@ == node,
    {
        Self { node }
    }

    /// The node's state.
    pub fn node(&self) -> (r: &InMemoryNodeInner)
        ensures
            *r == self@,
    {
        &self.node
    }

    /// Gives the node's state back.
    pub fn into_node(self) -> (r: InMemoryNodeInner)
        ensures
            r == self@,
    {
        self.node
    }

    /// Sets the balance held under `balance_key`, the account's
    /// native-balance storage key, to `balance`; always succeeds.
    pub fn set_balance(&mut self, balance_key: StorageKey, balance: H256) -> (r: bool)
        ensures
            r,
            storage_overridden(old(self)@, final(self)@, balance_key, balance),
    {
        self.node.set_storage(balance_key, balance);
        true
    }

    /// Overwrites the nonce of `address`; always succeeds.
    pub fn set_nonce(&mut self, address: Address, nonce: H256) -> (r: bool)
        ensures
            r,
            storage_overridden(old(self)@, final(self)@, nonce_key_spec(address), nonce),
    {
        let key = get_nonce_key(address);
        self.node.set_storage(key, nonce);
        true
    }
}

/// A value written by a direct override is what every later read of that key
/// sees, whatever an execution fetched from the fork source for it, as long
/// as the execution has not itself written the key.
pub proof fn lemma_override_then_read(
    before: InMemoryNodeInner,
    after: InMemoryNodeInner,
    key: StorageKey,
    value: H256,
    fetched: Map<StorageKey, H256>,
)
    requires
        storage_overridden(before, after, key, value),
    ensures
        after.fork_storage.values_map().get(key) == Some(value),
        read_through(Map::empty(), after.fork_storage.values_map(), fetched, key) == Some(value),
{
}

} // verus!
