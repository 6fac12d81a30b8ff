//! The node's committed storage overlay, and the per-execution view that
//! accumulates writes on top of it.
use vstd::prelude::*;
use crate::assoc::{latest, lemma_latest_absent, lemma_latest_append, lemma_latest_at, lemma_latest_push};
use crate::primitives::{words_bytes, words_to_bytes, StorageKey, H256};

verus! {

/// The log of code objects with each word sequence replaced by its bytes.
pub open spec fn code_log(b: Seq<(H256, Vec<H256>)>) -> Seq<(H256, Seq<u8>)> {
    b.map_values(|e: (H256, Vec<H256>)| (e.0, words_bytes(e.1@)))
}

/// The log of stored code objects with each byte vector replaced by its view.
pub open spec fn bytes_log(b: Seq<(H256, Vec<u8>)>) -> Seq<(H256, Seq<u8>)> {
    b.map_values(|e: (H256, Vec<u8>)| (e.0, e.1@))
}

/// Position of the last entry of `entries` whose key is `k`.
fn find_storage_key(entries: &Vec<(StorageKey, H256)>, k: &StorageKey) -> (r: Option<usize>)
    ensures
        match r {
            Some(i) => i < entries@.len() && entries@[i as int].0 == *k && forall|j: int|
                i < j < entries@.len() ==> entries@[j].0 != *k,
            None => forall|j: int| 0 <= j < entries@.len() ==> entries@[j].0 != *k,
        },
{
    let mut i: usize = entries.len();
    while i > 0
        invariant
            i <= entries@.len(),
            forall|j: int| i <= j < entries@.len() ==> entries@[j].0 != *k,
        decreases i,
    {
        if entries[i - 1].0 == *k {
            return Some(i - 1);
        }
        i = i - 1;
    }
    None
}

/// Looks a key up in a storage log: the value of its last entry, if any.
fn lookup_storage(entries: &Vec<(StorageKey, H256)>, k: &StorageKey) -> (r: Option<H256>)
    ensures
        r == latest(entries@).get(*k),
{
    match find_storage_key(entries, k) {
        Some(i) => {
            proof {
                lemma_latest_at(entries@, i as int);
            }
            Some(entries[i].1)
        },
        None => {
            proof {
                lemma_latest_absent(entries@, *k);
            }
            None
        },
    }
}

/// The committed local state: storage values written locally and the code
/// objects persisted by hash. A key absent here has not been overridden
/// locally; it does not read as zero.
pub struct ForkStorage {
    values: Vec<(StorageKey, H256)>,
    factory_deps: Vec<(H256, Vec<u8>)>,
}

impl ForkStorage {
    /// The locally committed storage values.
    pub closed spec fn values_map(&self) -> Map<StorageKey, H256> {
        latest(self.values@)
    }

    /// The persisted code objects, by hash.
    pub closed spec fn deps_map(&self) -> Map<H256, Seq<u8>> {
        latest(bytes_log(self.factory_deps@))
    }

    /// An overlay with nothing overridden and no code objects.
    pub fn new() -> (r: ForkStorage)
        ensures
            r.values_map() == Map::<StorageKey, H256>::empty(),
            r.deps_map() == Map::<H256, Seq<u8>>::empty(),
    {
        let r = ForkStorage { values: Vec::new(), factory_deps: Vec::new() };
        assert(bytes_log(r.factory_deps@) =~= Seq::empty());
        r
    }

    /// The locally committed value of `key`, or `None` when the key has not
    /// been overridden locally.
    pub fn read_value(&self, key: &StorageKey) -> (r: Option<H256>)
        ensures
            r == self.values_map().get(*key),
    {
        lookup_storage(&self.values, key)
    }

    /// Overrides the value of `key`.
    pub fn set_value(&mut self, key: StorageKey, value: H256)
        ensures
            final(self).values_map() == old(self).values_map().insert(key, value),
            final(self).deps_map() == old(self).deps_map(),
    {
        proof {
            lemma_latest_push(self.values@, (key, value));
        }
        self.values.push((key, value));
    }

    /// Persists a code object under its hash. Code is content-addressed, so a
    /// repeated hash brings the same bytes.
    pub fn store_factory_dep(&mut self, hash: H256, bytecode: Vec<u8>)
        ensures
            final(self).deps_map() == old(self).deps_map().insert(hash, bytecode@),
            final(self).values_map() == old(self).values_map(),
    {
        let ghost b = bytecode@;
        self.factory_deps.push((hash, bytecode));
        proof {
            assert(bytes_log(self.factory_deps@) =~= bytes_log(old(self).factory_deps@).push(
                (hash, b),
            ));
            lemma_latest_push(bytes_log(old(self).factory_deps@), (hash, b));
        }
    }

    /// The bytes of the code object stored under `hash`, if any.
    pub fn load_factory_dep(&self, hash: &H256) -> (r: Option<Vec<u8>>)
        ensures
            match r {
                Some(b) => self.deps_map().contains_key(*hash) && b@ == self.deps_map()[*hash],
                None => !self.deps_map().contains_key(*hash),
            },
    {
        let ghost log = bytes_log(self.factory_deps@);
        let mut i: usize = self.factory_deps.len();
        while i > 0
            invariant
                i <= self.factory_deps@.len(),
                log == bytes_log(self.factory_deps@),
                forall|j: int| i <= j < log.len() ==> log[j].0 != *hash,
            decreases i,
        {
            if self.factory_deps[i - 1].0 == *hash {
                proof {
                    lemma_latest_at(log, i - 1);
                }
                let b = self.factory_deps[i - 1].1.clone();
                assert(b@ =~= log[i - 1].1);
                return Some(b);
            }
            i = i - 1;
        }
        proof {
            lemma_latest_absent(log, *hash);
        }
        None
    }

    /// Applies every write of an execution, in order, so that the last write
    /// of each key wins.
    pub fn apply_writes(&mut self, view: &StorageView)
        ensures
            final(self).values_map() == old(self).values_map().union_prefer_right(
                view.modified_map(),
            ),
            final(self).deps_map() == old(self).deps_map(),
    {
        let mut i: usize = 0;
        while i < view.modified.len()
            invariant
                0 <= i <= view.modified@.len(),
                self.values@ == old(self).values@ + view.modified@.take(i as int),
                self.factory_deps@ == old(self).factory_deps@,
            decreases view.modified.len() - i,
        {
            self.values.push(view.modified[i]);
            assert(view.modified@.take(i as int + 1) =~= view.modified@.take(i as int).push(
                view.modified@[i as int],
            ));
            i = i + 1;
        }
        proof {
            assert(view.modified@.take(view.modified@.len() as int) =~= view.modified@);
            lemma_latest_append(old(self).values@, view.modified@);
        }
    }

    /// Persists every code object of an execution, each serialized as
    /// consecutive 32-byte big-endian words.
    pub fn store_code_objects(&mut self, bytecodes: &Vec<(H256, Vec<H256>)>)
        ensures
            final(self).deps_map() == old(self).deps_map().union_prefer_right(
                latest(code_log(bytecodes@)),
            ),
            final(self).values_map() == old(self).values_map(),
    {
        let mut i: usize = 0;
        while i < bytecodes.len()
            invariant
                0 <= i <= bytecodes@.len(),
                bytes_log(self.factory_deps@) == bytes_log(old(self).factory_deps@) + code_log(
                    bytecodes@.take(i as int),
                ),
                self.values@ == old(self).values@,
            decreases bytecodes.len() - i,
        {
            let bytes = words_to_bytes(&bytecodes[i].1);
            let ghost before = self.factory_deps@;
            self.factory_deps.push((bytecodes[i].0, bytes));
            proof {
                assert(bytes_log(self.factory_deps@) =~= bytes_log(before).push(
                    (bytecodes@[i as int].0, words_bytes(bytecodes@[i as int].1@)),
                ));
                assert(code_log(bytecodes@.take(i as int + 1)) =~= code_log(
                    bytecodes@.take(i as int),
                ).push((bytecodes@[i as int].0, words_bytes(bytecodes@[i as int].1@))));
                assert(bytes_log(self.factory_deps@) =~= bytes_log(old(self).factory_deps@)
                    + code_log(bytecodes@.take(i as int + 1)));
            }
            i = i + 1;
        }
        proof {
            assert(bytecodes@.take(bytecodes@.len() as int) =~= bytecodes@);
            lemma_latest_append(bytes_log(old(self).factory_deps@), code_log(bytecodes@));
        }
    }
}

/// What a read through an execution's view yields: a value written earlier
/// in the execution, else the committed value, else a base value already
/// fetched from the fork source; `None` when the source must be asked.
pub open spec fn read_through(
    modified: Map<StorageKey, H256>,
    committed: Map<StorageKey, H256>,
    fetched: Map<StorageKey, H256>,
    key: StorageKey,
) -> Option<H256> {
    if modified.contains_key(key) {
        Some(modified[key])
    } else if committed.contains_key(key) {
        Some(committed[key])
    } else {
        fetched.get(key)
    }
}

/// The read/write surface of one execution. Writes accumulate here and the
/// committed overlay is left untouched until the node applies them.
pub struct StorageView {
    modified: Vec<(StorageKey, H256)>,
    fetched: Vec<(StorageKey, H256)>,
}

impl StorageView {
    /// The keys written during the execution, with their latest values.
    pub closed spec fn modified_map(&self) -> Map<StorageKey, H256> {
        latest(self.modified@)
    }

    /// Base values fetched from the fork source during the execution.
    pub closed spec fn fetched_map(&self) -> Map<StorageKey, H256> {
        latest(self.fetched@)
    }

    /// A view with no writes and no fetched values.
    pub fn new() -> (r: StorageView)
        ensures
            r.modified_map() == Map::<StorageKey, H256>::empty(),
            r.fetched_map() == Map::<StorageKey, H256>::empty(),
    {
        StorageView { modified: Vec::new(), fetched: Vec::new() }
    }

    /// Reads `key` through the view over `committed`. `None` means that the
    /// value must be fetched from the fork source and handed to
    /// `record_fetched`.
    pub fn read_value(&self, committed: &ForkStorage, key: &StorageKey) -> (r: Option<H256>)
        ensures
            r == read_through(
                self.modified_map(),
                committed.values_map(),
                self.fetched_map(),
                *key,
            ),
    {
        match lookup_storage(&self.modified, key) {
            Some(v) => Some(v),
            None => match committed.read_value(key) {
                Some(v) => Some(v),
                None => lookup_storage(&self.fetched, key),
            },
        }
    }

    /// Records a base value fetched from the fork source; it is not a write.
    pub fn record_fetched(&mut self, key: StorageKey, value: H256)
        ensures
            final(self).fetched_map() == old(self).fetched_map().insert(key, value),
            final(self).modified_map() == old(self).modified_map(),
    {
        proof {
            lemma_latest_push(self.fetched@, (key, value));
        }
        self.fetched.push((key, value));
    }

    /// Writes `value` to `key` within the execution.
    pub fn set_value(&mut self, key: StorageKey, value: H256)
        ensures
            final(self).modified_map() == old(self).modified_map().insert(key, value),
            final(self).fetched_map() == old(self).fetched_map(),
    {
        proof {
            lemma_latest_push(self.modified@, (key, value));
        }
        self.modified.push((key, value));
    }

    /// The value written to `key` during the execution, if any.
    pub fn modified_value(&self, key: &StorageKey) -> (r: Option<H256>)
        ensures
            r == self.modified_map().get(*key),
    {
        lookup_storage(&self.modified, key)
    }
}

} // verus!
