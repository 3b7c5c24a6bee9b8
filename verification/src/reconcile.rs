//! One reconciliation tick: resolve every pending request of the fetched
//! batch to its canonical identifier, through the cache, and report each
//! outcome. Fetching the batch and the per-key search are transport; the
//! tick takes the batch outcome and the search function and does the rest.

use vstd::prelude::*;

use crate::cache::{key_code_model, lemma_key_code_injective, CacheKey, ResolutionCache};
use crate::errors::Error;
use crate::trakt::{
    media_type_model, outcome_view, resolved_of, MediaType, SearchResult, SearchResultItem,
    TraktClient,
};
use crate::seerrs::Requests;

verus! {

/// What one pending request came to: its canonical identifier, or the
/// per-item error that was reported for it.
pub struct ItemOutcome {
    pub request_id: u64,
    pub resolution: Result<String, Error>,
}

/// Where an outcome's search value may come from: the live cache entry
/// that `before` held for `key`, or some result of the search function on
/// this key - the only two sources a tick draws on.
pub open spec fn justified<F: Fn(u64, MediaType) -> Result<SearchResult, Error>>(
    before: ResolutionCache,
    fetch: F,
    now: u64,
    key: CacheKey,
    w: Result<Seq<SearchResultItem>, Error>,
) -> bool {
    ||| (before.live(key, now) && outcome_view(before.entry_of(key).value) == w)
    ||| (exists|v: Result<SearchResult, Error>|
        call_ensures(fetch, (key.tmdb_id, key.kind), v) && outcome_view(v) == w)
}

/// Every live entry of `cur` is justified against `before`: it was already
/// live there, or a search result put it there.
pub open spec fn cache_evolved<F: Fn(u64, MediaType) -> Result<SearchResult, Error>>(
    before: ResolutionCache,
    cur: ResolutionCache,
    fetch: F,
    now: u64,
) -> bool {
    forall|k: CacheKey| #[trigger]
        cur.live(k, now) ==> justified(before, fetch, now, k, outcome_view(cur.entry_of(k).value))
}

/// The search key one pending request derives.
pub open spec fn request_key(req: crate::seerrs::MediaRequest) -> CacheKey {
    CacheKey { tmdb_id: req.media.tmdb_id, kind: media_type_model(req.kind@) }
}

/// Runs one tick on a fetched batch.
///
/// A batch-fetch failure fails the whole tick and touches nothing: the
/// cache state is left exactly as it was. On a fetched batch every request
/// is processed - one unresolvable or failing request never aborts the
/// tick - and each reported outcome carries the request's id and the
/// resolution of a search value that is justified by the cache state at
/// the start of the tick or by the search function.
pub fn run_tick<F: Fn(u64, MediaType) -> Result<SearchResult, Error>>(
    trakt: &mut TraktClient,
    batch: Result<Requests, Error>,
    now: u64,
    fetch: F,
) -> (r: Result<Vec<ItemOutcome>, Error>)
    requires
        forall|id: u64, kind: MediaType| #[trigger] call_requires(fetch, (id, kind)),
    ensures
        final(trakt).client == old(trakt).client,
        final(trakt).cache.ttl() == old(trakt).cache.ttl(),
        batch matches Err(e) ==> r == Err::<Vec<ItemOutcome>, _>(e) && *final(trakt) == *old(
            trakt,
        ),
        batch matches Ok(reqs) ==> {
            &&& r matches Ok(outs)
            &&& ({
                let outs = r->Ok_0;
                &&& outs.len() == reqs.results.len()
                &&& forall|i: int| 0 <= i < outs@.len() ==> {
                    &&& (#[trigger] outs@[i]).request_id == reqs.results@[i].id
                    &&& exists|w: Result<Seq<SearchResultItem>, Error>|
                        justified(old(trakt).cache, fetch, now, request_key(reqs.results@[i]), w)
                            && outs@[i].resolution == resolved_of(w)
                }
            })
            &&& cache_evolved(old(trakt).cache, final(trakt).cache, fetch, now)
        },
{
    let reqs = match batch {
        Ok(reqs) => reqs,
        Err(e) => {
            return Err(e);
        },
    };
    let mut outs: Vec<ItemOutcome> = Vec::new();
    let mut i: usize = 0;
    while i < reqs.results.len()
        invariant
            i <= reqs.results.len(),
            outs@.len() == i,
            trakt.client == old(trakt).client,
            trakt.cache.ttl() == old(trakt).cache.ttl(),
            forall|id: u64, kind: MediaType| #[trigger] call_requires(fetch, (id, kind)),
            cache_evolved(old(trakt).cache, trakt.cache, fetch, now),
            forall|j: int| 0 <= j < i ==> {
                &&& (#[trigger] outs@[j]).request_id == reqs.results@[j].id
                &&& exists|w: Result<Seq<SearchResultItem>, Error>|
                    justified(old(trakt).cache, fetch, now, request_key(reqs.results@[j]), w)
                        && outs@[j].resolution == resolved_of(w)
            },
        decreases reqs.results.len() - i,
    {
        let req = &reqs.results[i];
        let id = req.media.tmdb_id;
        let kind = crate::trakt::media_type_of(&req.kind);
        let ghost key = request_key(reqs.results@[i as int]);
        let ghost pre = *trakt;
        let search_fn = || -> (v: Result<SearchResult, Error>)
            ensures
                call_ensures(fetch, (id, kind), v),
            { fetch(id, kind) };
        let found = trakt.search(id, &req.kind, now, search_fn);
        proof {
            if pre.cache.live(key, now) {
                assert(justified(
                    old(trakt).cache,
                    fetch,
                    now,
                    key,
                    outcome_view(pre.cache.entry_of(key).value),
                ));
            } else {
                assert(call_ensures(fetch, (id, kind), found));
                assert(justified(old(trakt).cache, fetch, now, key, outcome_view(found)));
                assert forall|k: CacheKey| #[trigger] trakt.cache.live(k, now) implies justified(
                    old(trakt).cache,
                    fetch,
                    now,
                    k,
                    outcome_view(trakt.cache.entry_of(k).value),
                ) by {
                    let kc = key_code_model(k);
                    let code = key_code_model(key);
                    if kc == code {
                        lemma_key_code_injective(k, key);
                        assert(k == key);
                        assert(outcome_view(trakt.cache.entry_of(key).value) == outcome_view(
                            found,
                        ));
                    } else {
                        assert(trakt.cache.entries().remove(code) == pre.cache.entries().remove(
                            code,
                        ));
                        assert(trakt.cache.entries().dom().contains(kc));
                        assert(trakt.cache.entries().remove(code).dom().contains(kc));
                        assert(pre.cache.entries().remove(code).dom().contains(kc));
                        assert(pre.cache.entries().dom().contains(kc));
                        assert(trakt.cache.entries()[kc] == trakt.cache.entries().remove(
                            code,
                        )[kc]);
                        assert(pre.cache.entries()[kc] == pre.cache.entries().remove(code)[kc]);
                        assert(trakt.cache.entry_of(k) == pre.cache.entry_of(k));
                        assert(pre.cache.live(k, now));
                    }
                }
            }
        }
        let resolution = crate::trakt::resolve_outcome(&found);
        outs.push(ItemOutcome { request_id: req.id, resolution });
        i = i + 1;
    }
    Ok(outs)
}

} // verus!
