//! Append-only association logs and the maps they denote: a later entry for a
//! key overrides every earlier one.
use vstd::prelude::*;

verus! {

/// The map denoted by a log of `(key, value)` entries, last writer winning.
pub open spec fn latest<K, V>(s: Seq<(K, V)>) -> Map<K, V>
    decreases s.len(),
{
    if s.len() == 0 {
        Map::empty()
    } else {
        latest(s.drop_last()).insert(s.last().0, s.last().1)
    }
}

/// Appending one entry to a log inserts it into the map the log denotes.
pub proof fn lemma_latest_push<K, V>(s: Seq<(K, V)>, e: (K, V))
    ensures
        latest(s.push(e)) == latest(s).insert(e.0, e.1),
{
    assert(s.push(e).drop_last() =~= s);
}

/// The entry at `i` decides the key's value when no later entry names it.
pub proof fn lemma_latest_at<K, V>(s: Seq<(K, V)>, i: int)
    requires
        0 <= i < s.len(),
        forall|j: int| i < j < s.len() ==> s[j].0 != s[i].0,
    ensures
        latest(s).contains_key(s[i].0),
        latest(s)[s[i].0] == s[i].1,
    decreases s.len(),
{
    if i < s.len() - 1 {
        lemma_latest_at(s.drop_last(), i);
    }
}

/// A key that no entry names is absent from the map.
pub proof fn lemma_latest_absent<K, V>(s: Seq<(K, V)>, k: K)
    requires
        forall|j: int| 0 <= j < s.len() ==> s[j].0 != k,
    ensures
        !latest(s).contains_key(k),
    decreases s.len(),
{
    if s.len() > 0 {
        lemma_latest_absent(s.drop_last(), k);
    }
}

/// Appending a whole log overrides the earlier map with the later one.
pub proof fn lemma_latest_append<K, V>(a: Seq<(K, V)>, b: Seq<(K, V)>)
    ensures
        latest(a + b) == latest(a).union_prefer_right(latest(b)),
    decreases b.len(),
{
    if b.len() == 0 {
        assert(a + b =~= a);
        assert(latest(a).union_prefer_right(latest(b)) =~= latest(a));
    } else {
        lemma_latest_append(a, b.drop_last());
        assert((a + b).drop_last() =~= a + b.drop_last());
        assert(latest(a + b) =~= latest(a).union_prefer_right(latest(b)));
    }
}

} // verus!
