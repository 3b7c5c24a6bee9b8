//! The resolution cache: a time-to-live bounded, last-result memoization
//! layer keyed by content identity.
//!
//! An entry stores the whole search outcome - success or failure - together
//! with its insertion time. An entry is expired once its insertion time plus
//! the time-to-live lies before the current time; expiry is detected lazily,
//! on the next access to the same key, and the fresh outcome overwrites the
//! entry. At most one entry exists per key.

use std::collections::HashMap;

use vstd::prelude::*;

use crate::errors::Error;
use crate::trakt::{outcome_view, MediaType, SearchResult, SearchResultItem};

verus! {

broadcast use vstd::std_specs::hash::group_hash_axioms;

/// The content identity a lookup is keyed by.
#[derive(Clone, Copy, PartialEq, Eq, Structural, Debug)]
pub struct CacheKey {
    pub tmdb_id: u64,
    pub kind: MediaType,
}

/// The integer a key is stored under: the id doubled, with the kind in the
/// low bit.
pub open spec fn key_code_model(k: CacheKey) -> u128 {
    ((k.tmdb_id as u128) * 2 + if k.kind is Show {
        1u128
    } else {
        0u128
    }) as u128
}

/// Distinct keys are stored under distinct integers.
pub proof fn lemma_key_code_injective(a: CacheKey, b: CacheKey)
    ensures
        key_code_model(a) == key_code_model(b) ==> a == b,
{
}

fn key_code(k: &CacheKey) -> (c: u128)
    ensures
        c == key_code_model(*k),
{
    let low: u128 = match k.kind {
        MediaType::Show => 1,
        MediaType::Movie => 0,
    };
    (k.tmdb_id as u128) * 2 + low
}

/// One memoized outcome and when it was stored.
pub struct CacheEntry {
    pub value: Result<SearchResult, Error>,
    pub inserted_at: u64,
}

/// The cache itself: one table, owned exclusively by the component that
/// resolves identifiers, and the fixed time-to-live.
pub struct ResolutionCache {
    table: HashMap<u128, CacheEntry>,
    ttl_secs: u64,
}

impl ResolutionCache {
    /// The stored entries, by key code.
    pub closed spec fn entries(&self) -> Map<u128, CacheEntry> {
        self.table@
    }

    /// The fixed time-to-live, in seconds.
    pub closed spec fn ttl(&self) -> u64 {
        self.ttl_secs
    }

    /// Whether an entry inserted at `inserted_at` is still live at `now`:
    /// it expires once `inserted_at + ttl < now`.
    pub open spec fn entry_live(inserted_at: u64, ttl: u64, now: u64) -> bool {
        inserted_at + ttl >= now
    }

    /// Whether the cache holds any entry for `key`.
    pub open spec fn spec_contains(&self, key: CacheKey) -> bool {
        self.entries().contains_key(key_code_model(key))
    }

    /// The entry stored for `key`.
    pub open spec fn entry_of(&self, key: CacheKey) -> CacheEntry {
        self.entries()[key_code_model(key)]
    }

    /// Whether `key` has a live (non-expired) entry at `now`.
    pub open spec fn live(&self, key: CacheKey, now: u64) -> bool {
        &&& self.spec_contains(key)
        &&& Self::entry_live(self.entry_of(key).inserted_at, self.ttl(), now)
    }

    /// How a cache that just memoized outcome `w` for `key` at `now` relates
    /// to its previous state: the one entry overwritten, everything else -
    /// the time-to-live included - unchanged.
    pub open spec fn stored_fresh(
        &self,
        before: ResolutionCache,
        key: CacheKey,
        now: u64,
        w: Result<Seq<SearchResultItem>, Error>,
    ) -> bool {
        &&& self.ttl() == before.ttl()
        &&& self.spec_contains(key)
        &&& self.entry_of(key).inserted_at == now
        &&& outcome_view(self.entry_of(key).value) == w
        &&& self.entries().remove(key_code_model(key)) == before.entries().remove(
            key_code_model(key),
        )
    }

    /// An empty cache under the given time-to-live.
    pub fn new(ttl_secs: u64) -> (c: ResolutionCache)
        ensures
            c.entries() == Map::<u128, CacheEntry>::empty(),
            c.ttl() == ttl_secs,
    {
        ResolutionCache { table: HashMap::new(), ttl_secs }
    }

    /// The memoizing lookup. On a live entry for `key` the stored outcome
    /// is returned and `fetch` is never invoked - the cache is untouched.
    /// On a miss or an expired entry, `fetch` is invoked exactly once and
    /// its outcome, success or failure alike, overwrites the entry for
    /// `key` and is returned.
    pub fn lookup_or_fetch<F: FnOnce() -> Result<SearchResult, Error>>(
        &mut self,
        key: CacheKey,
        now: u64,
        fetch: F,
    ) -> (r: Result<SearchResult, Error>)
        requires
            call_requires(fetch, ()),
        ensures
            old(self).live(key, now) ==> {
                &&& *final(self) == *old(self)
                &&& outcome_view(r) == outcome_view(old(self).entry_of(key).value)
            },
            !old(self).live(key, now) ==> {
                &&& call_ensures(fetch, (), r)
                &&& final(self).stored_fresh(*old(self), key, now, outcome_view(r))
            },
    {
        let code = key_code(&key);
        let cached: Option<Result<SearchResult, Error>> = match self.table.get(&code) {
            Some(entry) => {
                let is_live = match entry.inserted_at.checked_add(self.ttl_secs) {
                    Some(sum) => sum >= now,
                    None => true,
                };
                if is_live {
                    Some(crate::trakt::clone_outcome(&entry.value))
                } else {
                    None
                }
            },
            None => None,
        };
        match cached {
            Some(v) => v,
            None => {
                let v = fetch();
                let stored = crate::trakt::clone_outcome(&v);
                self.table.insert(code, CacheEntry { value: stored, inserted_at: now });
                proof {
                    assert(self.table@.remove(code) =~= old(self).table@.remove(code));
                }
                v
            },
        }
    }
}

} // verus!
