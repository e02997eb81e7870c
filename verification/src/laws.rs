//! What holds of the store across commits.

use vstd::prelude::*;
use crate::error::ErrorKind;
use crate::pool::PoolView;
use crate::store::{in_pool, lemma_commit_keeps_valid, StoreView};

verus! {

/// The store after one batch after another was committed for the pool, each
/// by a writer that had just read the pool; `None` once a commit fails.
pub open spec fn replay(store: StoreView, pool_id: i32, batches: Seq<Seq<Seq<char>>>) -> Option<
    StoreView,
>
    decreases batches.len(),
{
    if batches.len() == 0 {
        Some(store)
    } else {
        match replay(store, pool_id, batches.drop_last()) {
            Some(earlier) => match earlier.commit(earlier.pools[pool_id - 1], batches.last()) {
                Ok(next) => Some(next),
                Err(_) => None,
            },
            None => None,
        }
    }
}

/// A filter keeps a sequence whose every element passes.
proof fn lemma_filter_keeps_all<A>(items: Seq<A>, pred: spec_fn(A) -> bool)
    requires
        forall|i: int| 0 <= i < items.len() ==> pred(#[trigger] items[i]),
    ensures
        items.filter(pred) == items,
    decreases items.len(),
{
    reveal(Seq::filter);
    if items.len() > 0 {
        lemma_filter_keeps_all(items.drop_last(), pred);
    }
}

/// A filter drops a sequence of which no element passes.
proof fn lemma_filter_drops_all<A>(items: Seq<A>, pred: spec_fn(A) -> bool)
    requires
        forall|i: int| 0 <= i < items.len() ==> !pred(#[trigger] items[i]),
    ensures
        items.filter(pred) == Seq::<A>::empty(),
    decreases items.len(),
{
    reveal(Seq::filter);
    if items.len() > 0 {
        lemma_filter_drops_all(items.drop_last(), pred);
    }
}

/// A commit that succeeds appends its batch to the pool's values, raises the
/// pool's version by one and leaves every other pool as it was.
pub proof fn law_commit_appends_batch(store: StoreView, pool: PoolView, values: Seq<Seq<char>>)
    requires
        store.valid(),
        store.commit(pool, values) is Ok,
    ensures
        store.commit(pool, values)->Ok_0.valid(),
        store.commit(pool, values)->Ok_0.pools.len() == store.pools.len(),
        store.commit(pool, values)->Ok_0.pools[pool.id - 1].version == pool.version + 1,
        store.commit(pool, values)->Ok_0.values_in(pool.id) == store.values_in(pool.id) + values,
        forall|other: i32|
            other != pool.id ==> {
                &&& #[trigger] store.commit(pool, values)->Ok_0.values_in(other)
                    == store.values_in(other)
                &&& store.has_pool(other) ==> store.commit(pool, values)->Ok_0.pools[other - 1]
                    == store.pools[other - 1]
            },
{
    let next = store.commit(pool, values)->Ok_0;
    let rows = store.new_rows(pool.id, values);
    lemma_commit_keeps_valid(store, pool, values);
    Seq::filter_distributes_over_add(store.resources, rows, in_pool(pool.id));
    lemma_filter_keeps_all(rows, in_pool(pool.id));
    assert forall|other: i32| other != pool.id implies {
        &&& #[trigger] next.values_in(other) == store.values_in(other)
        &&& store.has_pool(other) ==> next.pools[other - 1] == store.pools[other - 1]
    } by {
        Seq::filter_distributes_over_add(store.resources, rows, in_pool(other));
        lemma_filter_drops_all(rows, in_pool(other));
    }
}

/// Of two writers that read a pool at the same version, at most one
/// commits: once the first has, the second fails whatever it brings, and
/// with a version conflict where its batch is not refused for itself (empty,
/// too large, or holding a value that the pool now has).
pub proof fn law_second_writer_loses(
    store: StoreView,
    pool: PoolView,
    first: Seq<Seq<char>>,
    second: Seq<Seq<char>>,
)
    requires
        store.valid(),
        store.commit(pool, first) is Ok,
    ensures
        store.commit(pool, first)->Ok_0.commit(pool, second) is Err,
        ({
            let after = store.commit(pool, first)->Ok_0;
            &&& second.len() > 0
            &&& after.resources.len() + second.len() <= i32::MAX
            &&& !after.collides(pool.id, second)
        }) ==> store.commit(pool, first)->Ok_0.commit(pool, second) == Err::<
            StoreView,
            ErrorKind,
        >(ErrorKind::VersionConflict),
{
}

/// The store after writers that all read the pool as `pool` tried to commit
/// their batches one after another, and how many of them committed.
pub open spec fn race(store: StoreView, pool: PoolView, batches: Seq<Seq<Seq<char>>>) -> (
    StoreView,
    nat,
)
    decreases batches.len(),
{
    if batches.len() == 0 {
        (store, 0)
    } else {
        let (earlier, committed) = race(store, pool, batches.drop_last());
        match earlier.commit(pool, batches.last()) {
            Ok(next) => (next, committed + 1),
            Err(_) => (earlier, committed),
        }
    }
}

/// Of any number of writers that read a pool at the same version, at most
/// one commits. Where none does the store is as it was; where one does the
/// store holds that writer's batch and nothing of the others.
pub proof fn law_one_commit_per_version(
    store: StoreView,
    pool: PoolView,
    batches: Seq<Seq<Seq<char>>>,
)
    requires
        store.valid(),
    ensures
        race(store, pool, batches).0.valid(),
        race(store, pool, batches).1 <= 1,
        race(store, pool, batches).1 == 0 ==> race(store, pool, batches).0 == store,
        race(store, pool, batches).1 == 1 ==> exists|k: int|
            0 <= k < batches.len() && #[trigger] store.commit(pool, batches[k]) == Ok::<
                StoreView,
                ErrorKind,
            >(race(store, pool, batches).0),
    decreases batches.len(),
{
    if batches.len() > 0 {
        let shorter = batches.drop_last();
        let (earlier, committed) = race(store, pool, shorter);
        law_one_commit_per_version(store, pool, shorter);
        if committed == 1 {
            let k = choose|k: int|
                0 <= k < shorter.len() && #[trigger] store.commit(pool, shorter[k]) == Ok::<
                    StoreView,
                    ErrorKind,
                >(earlier);
            law_second_writer_loses(store, pool, batches[k], batches.last());
        } else {
            if earlier.commit(pool, batches.last()) is Ok {
                lemma_commit_keeps_valid(store, pool, batches.last());
            }
        }
    }
}

/// After `n` commits for a pool, each by a writer that had just read it, the
/// pool's version has grown by `n` and the pool holds the `n` batches behind
/// what it held, in the order of the commits: a pool that started at version
/// 0 stands at version `n`.
pub proof fn law_version_counts_commits(
    store: StoreView,
    pool_id: i32,
    batches: Seq<Seq<Seq<char>>>,
)
    requires
        store.valid(),
        store.has_pool(pool_id),
        replay(store, pool_id, batches) is Some,
    ensures
        replay(store, pool_id, batches)->0.valid(),
        replay(store, pool_id, batches)->0.has_pool(pool_id),
        replay(store, pool_id, batches)->0.pools[pool_id - 1].version == store.pools[pool_id
            - 1].version + batches.len(),
        replay(store, pool_id, batches)->0.values_in(pool_id) == store.values_in(pool_id)
            + batches.flatten(),
    decreases batches.len(),
{
    batches.lemma_flatten_and_flatten_alt_are_equivalent();
    if batches.len() > 0 {
        let earlier = replay(store, pool_id, batches.drop_last())->0;
        law_version_counts_commits(store, pool_id, batches.drop_last());
        batches.drop_last().lemma_flatten_and_flatten_alt_are_equivalent();
        law_commit_appends_batch(earlier, earlier.pools[pool_id - 1], batches.last());
    }
}

} // verus!
