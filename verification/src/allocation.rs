//! The allocation use case: the store's state goes into the sandbox, and
//! what the strategy proposed is committed under the version that was read.

use vstd::prelude::*;
use crate::document::{documents_text, Document};
use crate::error::ErrorKind;
use crate::pool::{
    pool_json, pool_properties_json, resource_json, values_of, views_of, PoolView, Resource,
    ResourcePool, ResourceView,
};
use crate::sandbox::{
    outcome_candidates, script_text, ContextView, SandboxContext, SandboxOutcome, WasmerEnv,
};
use crate::store::{StoreView, DB};

verus! {

/// The entry expression that every strategy is run with.
pub const ENTRY_EXPRESSION: &'static str = "invoke()";

/// The resources as a strategy is shown them.
pub open spec fn shown(rows: Seq<ResourceView>) -> Seq<Seq<char>> {
    rows.map_values(|r: ResourceView| resource_json(r.value))
}

/// The context of an allocation: the caller's input, the pool's properties
/// and metadata, and the pool's resources as they were read.
pub open spec fn context_of(current: Seq<ResourceView>, user_input: Seq<char>) -> ContextView {
    ContextView {
        user_input,
        resource_pool_properties: pool_properties_json(),
        resource_pool: pool_json(),
        current_resources: shown(current),
    }
}

/// The context of an allocation for `pool` from a store: with the resources
/// that the store holds for the pool.
pub open spec fn allocation_context(
    store: StoreView,
    pool: PoolView,
    user_input: Seq<char>,
) -> ContextView {
    context_of(store.resources_of(pool.id), user_input)
}

/// The resources that a strategy's candidates are to become in the pool:
/// not stored yet, one for each candidate and in their order.
pub open spec fn pending(pool_id: i32, candidates: Seq<Seq<char>>) -> Seq<ResourceView> {
    Seq::new(
        candidates.len(),
        |k: int| ResourceView { id: None, resource_pool_id: pool_id, value: candidates[k] },
    )
}

/// What an allocation does to the store, given how the sandbox ended: the
/// sandbox's error, or what the commit of its candidates does.
pub open spec fn allocation(store: StoreView, pool: PoolView, outcome: SandboxOutcome) -> Result<
    StoreView,
    ErrorKind,
> {
    match outcome_candidates(outcome) {
        Ok(candidates) => store.commit(pool, candidates),
        Err(e) => Err(e),
    }
}

/// The context that the sandbox is given to allocate for `pool`, which
/// holds the resources `current`.
pub fn context_for(pool: &ResourcePool, current: &Vec<Resource>, user_input: Document) -> (r:
    SandboxContext)
    ensures
        r@ == context_of(views_of(current@), user_input@),
{
    let mut wrapped: Vec<Document> = Vec::new();
    let mut i: usize = 0;
    while i < current.len()
        invariant
            i <= current.len(),
            documents_text(wrapped@) == shown(views_of(current@)).take(i as int),
        decreases current.len() - i,
    {
        let ghost earlier = documents_text(wrapped@);
        wrapped.push(current[i].as_json());
        proof {
            let all = shown(views_of(current@));
            assert(documents_text(wrapped@) =~= earlier.push(all[i as int]));
        }
        i += 1;
    }
    proof {
        let all = shown(views_of(current@));
        assert(all.take(i as int) =~= all);
    }
    SandboxContext {
        user_input,
        resource_pool_properties: pool.get_pool_properties(),
        resource_pool: pool.as_json(),
        current_resources: wrapped,
    }
}

/// The resources that a strategy's candidates are to become in the pool.
pub fn candidate_resources(pool_id: i32, candidates: Vec<Document>) -> (r: Vec<Resource>)
    ensures
        views_of(r@) == pending(pool_id, documents_text(candidates@)),
{
    let ghost all = pending(pool_id, documents_text(candidates@));
    let mut items: Vec<Resource> = Vec::new();
    let mut i: usize = 0;
    while i < candidates.len()
        invariant
            i <= candidates.len(),
            all == pending(pool_id, documents_text(candidates@)),
            views_of(items@) == all.take(i as int),
        decreases candidates.len() - i,
    {
        let ghost earlier = views_of(items@);
        items.push(Resource::new_from_value(pool_id, candidates[i].clone()));
        proof {
            assert(views_of(items@) =~= earlier.push(all[i as int]));
        }
        i += 1;
    }
    items
}

impl DB {
    /// The context that the sandbox is given to allocate for `pool`.
    pub fn allocation_context(&self, pool: &ResourcePool, user_input: Document) -> (r:
        SandboxContext)
        requires
            self.wf(),
        ensures
            r@ == allocation_context(self@, pool@, user_input@),
    {
        let current = self.get_resources(pool.id);
        context_for(pool, &current, user_input)
    }

    /// The text that the sandbox has to run to allocate for `pool`: the
    /// script of the pool's strategy around the context of the allocation.
    pub fn allocation_script(&self, pool: &ResourcePool, user_input: Document) -> (r: Result<
        String,
        ErrorKind,
    >)
        requires
            self.wf(),
        ensures
            match r {
                Ok(text) => self@.has_script(pool.allocation_strategy_id) && text@ == script_text(
                    self@.scripts[pool.allocation_strategy_id - 1],
                    allocation_context(self@, pool@, user_input@),
                    ENTRY_EXPRESSION@,
                ),
                Err(e) => !self@.has_script(pool.allocation_strategy_id) && e
                    == ErrorKind::NotFound,
            },
    {
        match self.get_allocation_script(pool.allocation_strategy_id) {
            Ok(script) => {
                let context = self.allocation_context(pool, user_input);
                Ok(WasmerEnv::compose_script(script.as_str(), &context, ENTRY_EXPRESSION))
            },
            Err(e) => Err(e),
        }
    }

    /// Commits the values that a strategy proposed as new resources of the
    /// pool. Whatever fails, the store stays as it was.
    pub fn commit_allocation(&mut self, pool: ResourcePool, candidates: Vec<Document>) -> (r:
        Result<(ResourcePool, Vec<Resource>), ErrorKind>)
        requires
            old(self).wf(),
        ensures
            final(self).wf(),
            r is Err ==> final(self)@ == old(self)@,
            candidates.len() == 0 ==> r is Err && r->Err_0 == ErrorKind::EmptyAllocation,
            match old(self)@.commit(pool@, documents_text(candidates@)) {
                Ok(next) => final(self)@ == next && r is Ok && r->Ok_0.0@ == pool@.bumped()
                    && views_of(r->Ok_0.1@) == old(self)@.new_rows(
                    pool.id,
                    documents_text(candidates@),
                ),
                Err(e) => r is Err && r->Err_0 == e,
            },
    {
        let items = candidate_resources(pool.id, candidates);
        proof {
            let all = pending(pool.id, documents_text(candidates@));
            assert(views_of(items@).len() == all.len());
            assert forall|i: int| 0 <= i < items.len() implies (
            #[trigger] items[i]).resource_pool_id == pool.id && items[i].value@
                == documents_text(candidates@)[i] by {
                assert(all[i].value == documents_text(candidates@)[i]);
            }
            assert(values_of(items@) =~= documents_text(candidates@));
        }
        self.insert_resources(pool, items)
    }

    /// Completes an allocation for `pool` with what the sandbox wrote: the
    /// candidates are taken from its output and committed under the version
    /// that `pool` was read at. A sandbox error is handed on and nothing is
    /// written; a lost version race is reported, never repeated here.
    pub fn allocate_resources(&mut self, pool: ResourcePool, outcome: &SandboxOutcome) -> (r:
        Result<(ResourcePool, Vec<Resource>), ErrorKind>)
        requires
            old(self).wf(),
        ensures
            final(self).wf(),
            r is Err ==> final(self)@ == old(self)@,
            match allocation(old(self)@, pool@, *outcome) {
                Ok(next) => final(self)@ == next && r is Ok && r->Ok_0.0@ == pool@.bumped()
                    && views_of(r->Ok_0.1@) == old(self)@.new_rows(
                    pool.id,
                    outcome_candidates(*outcome)->Ok_0,
                ),
                Err(e) => r is Err && r->Err_0 == e,
            },
    {
        match WasmerEnv::interpret(outcome) {
            Ok(candidates) => self.commit_allocation(pool, candidates),
            Err(e) => Err(e),
        }
    }
}

} // verus!
