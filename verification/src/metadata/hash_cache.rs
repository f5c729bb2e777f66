//! A store of computed hashes, by pallet and item name.

use crate::metadata::metadata_type::MetadataError;
use crate::metadata::metadata_utils::str_eq;
use vstd::prelude::*;

verus! {

/// The outcome of one hash computation.
pub type Outcome = Result<[u8; 32], MetadataError>;

/// One computed outcome with the names it was computed for.
#[derive(Debug)]
struct CacheEntry {
    pallet: String,
    item: String,
    outcome: Outcome,
}

/// A cache of the outcomes of hash computations, keyed by pallet name and item name
/// alone. What is stored for a key is the outcome of the first computation for it,
/// a success or an error, and is never replaced or removed.
///
/// The cache is a plain value; to share one between threads, hold it in a lock.
#[derive(Debug)]
pub struct HashCache {
    entries: Vec<CacheEntry>,
}

/// The outcome of the first entry from position `from` on that has the given names.
spec fn lookup(entries: Seq<CacheEntry>, pallet: Seq<char>, item: Seq<char>, from: nat) -> Option<
    Outcome,
>
    decreases entries.len() - from,
{
    if from >= entries.len() {
        None
    } else if entries[from as int].pallet@ == pallet && entries[from as int].item@ == item {
        Some(entries[from as int].outcome)
    } else {
        lookup(entries, pallet, item, from + 1)
    }
}

/// A new last entry answers for its names where no earlier entry does, and changes
/// no other answer.
proof fn lemma_lookup_push(
    entries: Seq<CacheEntry>,
    entry: CacheEntry,
    pallet: Seq<char>,
    item: Seq<char>,
    from: nat,
)
    requires
        from <= entries.len(),
    ensures
        lookup(entries.push(entry), pallet, item, from) == match lookup(
            entries,
            pallet,
            item,
            from,
        ) {
            Some(outcome) => Some(outcome),
            None => if entry.pallet@ == pallet && entry.item@ == item {
                Some(entry.outcome)
            } else {
                None
            },
        },
    decreases entries.len() - from,
{
    let pushed = entries.push(entry);
    if from < entries.len() {
        assert(pushed[from as int] == entries[from as int]);
        lemma_lookup_push(entries, entry, pallet, item, from + 1);
    } else {
        assert(pushed[from as int] == entry);
        assert(lookup(pushed, pallet, item, from + 1) is None);
    }
}

/// How one `get_or_insert` for `key` takes a cache from `before` to `after` and
/// what it returns: a stored outcome is returned and the cache stays as it is;
/// otherwise the returned outcome is stored under the key.
pub open spec fn cache_step(
    before: Map<(Seq<char>, Seq<char>), Outcome>,
    key: (Seq<char>, Seq<char>),
    after: Map<(Seq<char>, Seq<char>), Outcome>,
    returned: Outcome,
) -> bool {
    if before.contains_key(key) {
        returned == before[key] && after == before
    } else {
        after == before.insert(key, returned)
    }
}

/// Two lookups of the same key in a row return the same outcome, and the second
/// leaves the cache as the first left it, whatever the second computation would
/// have produced.
pub proof fn lemma_get_or_insert_idempotent(
    initial: Map<(Seq<char>, Seq<char>), Outcome>,
    key: (Seq<char>, Seq<char>),
    middle: Map<(Seq<char>, Seq<char>), Outcome>,
    first: Outcome,
    last: Map<(Seq<char>, Seq<char>), Outcome>,
    second: Outcome,
)
    requires
        cache_step(initial, key, middle, first),
        cache_step(middle, key, last, second),
    ensures
        second == first,
        last == middle,
{
}

impl View for HashCache {
    type V = Map<(Seq<char>, Seq<char>), Outcome>;

    closed spec fn view(&self) -> Map<(Seq<char>, Seq<char>), Outcome> {
        Map::new(
            |key: (Seq<char>, Seq<char>)| lookup(self.entries@, key.0, key.1, 0) is Some,
            |key: (Seq<char>, Seq<char>)| lookup(self.entries@, key.0, key.1, 0)->0,
        )
    }
}

impl HashCache {
    /// An empty cache.
    pub fn new() -> (cache: HashCache)
        ensures
            cache@ == Map::<(Seq<char>, Seq<char>), Outcome>::empty(),
    {
        let cache = HashCache { entries: Vec::new() };
        assert(cache@ =~= Map::<(Seq<char>, Seq<char>), Outcome>::empty());
        cache
    }

    /// The outcome stored for the names, if there is one.
    pub fn get(&self, pallet: &str, item: &str) -> (stored: Option<Outcome>)
        ensures
            stored == if self@.contains_key((pallet@, item@)) {
                Some(self@[(pallet@, item@)])
            } else {
                None
            },
    {
        let mut i: usize = 0;
        while i < self.entries.len()
            invariant
                i <= self.entries.len(),
                lookup(self.entries@, pallet@, item@, i as nat) == lookup(
                    self.entries@,
                    pallet@,
                    item@,
                    0,
                ),
            decreases self.entries.len() - i,
        {
            let entry = &self.entries[i];
            if str_eq(entry.pallet.as_str(), pallet) && str_eq(entry.item.as_str(), item) {
                return Some(entry.outcome);
            }
            i += 1;
        }
        None
    }

    /// Get the outcome stored for a pallet and item name. If there is none, run the
    /// function provided to compute one, store it and return it.
    ///
    /// On a hit `f` is not called: whatever it requires is asked of the caller only
    /// for a key that is not stored yet.
    pub fn get_or_insert<F>(&mut self, pallet: &str, item: &str, f: F) -> (returned: Outcome) where
        F: FnOnce() -> Outcome,

        requires
            !old(self)@.contains_key((pallet@, item@)) ==> f.requires(()),
        ensures
            cache_step(old(self)@, (pallet@, item@), final(self)@, returned),
            !old(self)@.contains_key((pallet@, item@)) ==> f.ensures((), returned),
    {
        match self.get(pallet, item) {
            Some(stored) => stored,
            None => {
                let outcome = f();
                let entry = CacheEntry {
                    pallet: pallet.to_owned(),
                    item: item.to_owned(),
                    outcome,
                };
                proof {
                    assert forall|key: (Seq<char>, Seq<char>)|
                        lookup(self.entries@.push(entry), key.0, key.1, 0) == if key == (
                            pallet@,
                            item@,
                        ) {
                            Some(outcome)
                        } else {
                            lookup(self.entries@, key.0, key.1, 0)
                        } by {
                        lemma_lookup_push(self.entries@, entry, key.0, key.1, 0);
                    }
                }
                self.entries.push(entry);
                assert(self@ =~= old(self)@.insert((pallet@, item@), outcome));
                outcome
            },
        }
    }
}

impl Clone for HashCache {
    /// A cache that holds the same outcomes.
    fn clone(&self) -> (copy: HashCache)
        ensures
            copy@ == self@,
    {
        let mut entries: Vec<CacheEntry> = Vec::new();
        let mut i: usize = 0;
        while i < self.entries.len()
            invariant
                i <= self.entries.len(),
                entries@ == self.entries@.take(i as int),
            decreases self.entries.len() - i,
        {
            let entry = &self.entries[i];
            entries.push(
                CacheEntry {
                    pallet: entry.pallet.clone(),
                    item: entry.item.clone(),
                    outcome: entry.outcome,
                },
            );
            i += 1;
            assert(entries@ =~= self.entries@.take(i as int));
        }
        assert(self.entries@.take(self.entries@.len() as int) =~= self.entries@);
        HashCache { entries }
    }
}

impl Default for HashCache {
    fn default() -> (cache: HashCache)
        ensures
            cache@ == Map::<(Seq<char>, Seq<char>), Outcome>::empty(),
    {
        HashCache::new()
    }
}

} // verus!
