//! The resource store: pools, their resources and the strategies' scripts,
//! with writes that are atomic and detect a lost version race.

use vstd::prelude::*;
use crate::commit::{CommitAction, CommitEvent, CommitState};
use crate::document::Document;
use crate::error::ErrorKind;
use crate::pool::{values_of, views_of, PoolView, Resource, ResourcePool, ResourceView};

verus! {

/// What a store holds, as a contract sees it. The pool with identifier `n`
/// is `pools[n - 1]`, the resource with identifier `n` is `resources[n - 1]`
/// and the strategy with identifier `n` has the script `scripts[n - 1]`.
pub struct StoreView {
    pub scripts: Seq<Seq<char>>,
    pub pools: Seq<PoolView>,
    pub resources: Seq<ResourceView>,
}

impl StoreView {
    /// The store's invariant: identifiers follow the order of creation and
    /// fit `i32`, pool names are unique, every resource belongs to a pool of
    /// the store, and no pool holds one value twice.
    pub open spec fn valid(self) -> bool {
        &&& self.scripts.len() <= i32::MAX
        &&& self.pools.len() <= i32::MAX
        &&& self.resources.len() <= i32::MAX
        &&& forall|i: int| 0 <= i < self.pools.len() ==> (#[trigger] self.pools[i]).id == i + 1
        &&& forall|i: int, j: int|
            0 <= i < j < self.pools.len() ==> (#[trigger] self.pools[i]).name != (
            #[trigger] self.pools[j]).name
        &&& forall|i: int|
            0 <= i < self.resources.len() ==> {
                &&& (#[trigger] self.resources[i]).id == Some((i + 1) as i32)
                &&& self.has_pool(self.resources[i].resource_pool_id)
            }
        &&& forall|i: int, j: int|
            0 <= i < j < self.resources.len() ==> !({
                &&& (#[trigger] self.resources[i]).resource_pool_id == (
                #[trigger] self.resources[j]).resource_pool_id
                &&& self.resources[i].value == self.resources[j].value
            })
    }

    /// Whether a strategy has this identifier.
    pub open spec fn has_script(self, id: i32) -> bool {
        1 <= id <= self.scripts.len()
    }

    /// Whether a pool has this identifier.
    pub open spec fn has_pool(self, id: i32) -> bool {
        1 <= id <= self.pools.len()
    }

    /// Whether a pool has this name.
    pub open spec fn name_taken(self, name: Seq<char>) -> bool {
        exists|i: int| 0 <= i < self.pools.len() && (#[trigger] self.pools[i]).name == name
    }

    /// The store after a strategy with this script was added.
    pub open spec fn with_script(self, script: Seq<char>) -> StoreView {
        StoreView { scripts: self.scripts.push(script), ..self }
    }

    /// The pool that a creation under this name adds.
    pub open spec fn fresh_pool(self, name: Seq<char>, allocation_strategy_id: i32) -> PoolView {
        PoolView { id: (self.pools.len() + 1) as i32, name, version: 0, allocation_strategy_id }
    }

    /// What creating a pool does: the error, or the store with the new pool
    /// in last place.
    pub open spec fn create_pool(self, name: Seq<char>, allocation_strategy_id: i32) -> Result<
        StoreView,
        ErrorKind,
    > {
        if self.name_taken(name) {
            Err(ErrorKind::DuplicateName)
        } else if self.pools.len() >= i32::MAX {
            Err(ErrorKind::CapacityExceeded)
        } else {
            Ok(
                StoreView {
                    pools: self.pools.push(self.fresh_pool(name, allocation_strategy_id)),
                    ..self
                },
            )
        }
    }

    /// The resources of one pool, in the order in which they were stored.
    pub open spec fn resources_of(self, pool_id: i32) -> Seq<ResourceView> {
        rows_of(self.resources, pool_id)
    }

    /// The values that a pool holds, in the order in which they were stored.
    pub open spec fn values_in(self, pool_id: i32) -> Seq<Seq<char>> {
        self.resources_of(pool_id).map_values(|r: ResourceView| r.value)
    }

    /// Whether the pool holds this value already.
    pub open spec fn taken(self, pool_id: i32, value: Seq<char>) -> bool {
        exists|k: int|
            0 <= k < self.resources.len() && (#[trigger] self.resources[k]).resource_pool_id
                == pool_id && self.resources[k].value == value
    }

    /// Whether the value at `i` of a batch for the pool breaks uniqueness:
    /// the pool holds it already, or the batch has it at an earlier place.
    pub open spec fn clash(self, pool_id: i32, values: Seq<Seq<char>>, i: int) -> bool {
        self.taken(pool_id, values[i]) || repeated(values, i)
    }

    /// Whether some value of a batch for the pool breaks uniqueness.
    pub open spec fn collides(self, pool_id: i32, values: Seq<Seq<char>>) -> bool {
        exists|i: int| 0 <= i < values.len() && #[trigger] self.clash(pool_id, values, i)
    }

    /// Whether the pool exists and stands at this version.
    pub open spec fn at_version(self, pool_id: i32, version: i32) -> bool {
        self.has_pool(pool_id) && self.pools[pool_id - 1].version == version
    }

    /// The rows that a batch for the pool becomes: the next identifiers, in
    /// the batch's order.
    pub open spec fn new_rows(self, pool_id: i32, values: Seq<Seq<char>>) -> Seq<ResourceView> {
        Seq::new(
            values.len(),
            |k: int|
                ResourceView {
                    id: Some((self.resources.len() + k + 1) as i32),
                    resource_pool_id: pool_id,
                    value: values[k],
                },
        )
    }

    /// The store after the insert statement wrote a batch for the pool.
    pub open spec fn with_rows(self, pool_id: i32, values: Seq<Seq<char>>) -> StoreView {
        StoreView { resources: self.resources + self.new_rows(pool_id, values), ..self }
    }

    /// The store after the update statement set the pool's version.
    pub open spec fn with_version(self, pool_id: i32, version: i32) -> StoreView {
        StoreView {
            pools: self.pools.update(pool_id - 1, PoolView { version, ..self.pools[pool_id - 1] }),
            ..self
        }
    }

    /// The store after a batch for the pool was written and the pool's
    /// version raised by one.
    pub open spec fn committed(self, pool_id: i32, values: Seq<Seq<char>>) -> StoreView {
        self.with_rows(pool_id, values).with_version(
            pool_id,
            self.pools[pool_id - 1].bumped().version,
        )
    }

    /// What committing a batch does, for a writer that read `pool`: the
    /// error, in the order in which the steps of the transaction meet it, or
    /// the store after the commit. The rows are written first, so a
    /// duplicate is met before a stale version is.
    pub open spec fn commit(self, pool: PoolView, values: Seq<Seq<char>>) -> Result<
        StoreView,
        ErrorKind,
    > {
        if values.len() == 0 {
            Err(ErrorKind::EmptyAllocation)
        } else if self.resources.len() + values.len() > i32::MAX {
            Err(ErrorKind::CapacityExceeded)
        } else if self.collides(pool.id, values) {
            Err(ErrorKind::DuplicateResource)
        } else if pool.version == i32::MAX {
            Err(ErrorKind::CapacityExceeded)
        } else if !self.at_version(pool.id, pool.version) {
            Err(ErrorKind::VersionConflict)
        } else {
            Ok(self.committed(pool.id, values))
        }
    }
}

/// The test that picks a pool's rows.
pub open spec fn in_pool(pool_id: i32) -> spec_fn(ResourceView) -> bool {
    |r: ResourceView| r.resource_pool_id == pool_id
}

/// The rows of one pool among `rows`, in their order.
pub open spec fn rows_of(rows: Seq<ResourceView>, pool_id: i32) -> Seq<ResourceView> {
    rows.filter(in_pool(pool_id))
}

/// Whether the value at `i` stands at an earlier place too.
pub open spec fn repeated(values: Seq<Seq<char>>, i: int) -> bool {
    exists|j: int| 0 <= j < i && #[trigger] values[j] == values[i]
}

/// The store, held in memory. It alone owns the pools, resources and
/// scripts; callers hold copies. A batch is committed by the steps of
/// `CommitState`, as it is with a store that lives in a database.
pub struct DB {
    scripts: Vec<String>,
    pools: Vec<ResourcePool>,
    resources: Vec<Resource>,
}

impl View for DB {
    type V = StoreView;

    closed spec fn view(&self) -> StoreView {
        StoreView {
            scripts: self.scripts@.map_values(|s: String| s@),
            pools: self.pools@.map_values(|p: ResourcePool| p@),
            resources: self.resources@.map_values(|r: Resource| r@),
        }
    }
}

impl DB {
    /// Whether the store's invariant holds.
    pub open spec fn wf(&self) -> bool {
        self@.valid()
    }

    /// A store without pools, resources or strategies.
    pub fn new() -> (r: DB)
        ensures
            r.wf(),
            r@.scripts.len() == 0,
            r@.pools.len() == 0,
            r@.resources.len() == 0,
    {
        DB { scripts: Vec::new(), pools: Vec::new(), resources: Vec::new() }
    }

    /// Adds an allocation strategy and returns its identifier.
    pub fn insert_allocation_strategy(&mut self, script: &str) -> (r: Result<i32, ErrorKind>)
        requires
            old(self).wf(),
        ensures
            final(self).wf(),
            match r {
                Ok(id) => old(self)@.scripts.len() < i32::MAX && id == old(self)@.scripts.len() + 1
                    && final(self)@ == old(self)@.with_script(script@),
                Err(e) => old(self)@.scripts.len() == i32::MAX && e == ErrorKind::CapacityExceeded
                    && final(self)@ == old(self)@,
            },
    {
        if self.scripts.len() >= i32::MAX as usize {
            return Err(ErrorKind::CapacityExceeded);
        }
        self.scripts.push(script.to_owned());
        assert(self@.scripts =~= old(self)@.scripts.push(script@));
        Ok(self.scripts.len() as i32)
    }

    /// The script of an allocation strategy.
    pub fn get_allocation_script(&self, id: i32) -> (r: Result<String, ErrorKind>)
        requires
            self.wf(),
        ensures
            match r {
                Ok(script) => self@.has_script(id) && script@ == self@.scripts[id - 1],
                Err(e) => !self@.has_script(id) && e == ErrorKind::NotFound,
            },
    {
        if id < 1 || id as usize > self.scripts.len() {
            return Err(ErrorKind::NotFound);
        }
        Ok(self.scripts[(id - 1) as usize].clone())
    }

    /// Creates a pool at version 0 under a name that no pool has yet.
    pub fn insert_resource_pool(&mut self, name: &str, allocation_strategy_id: i32) -> (r: Result<
        ResourcePool,
        ErrorKind,
    >)
        requires
            old(self).wf(),
        ensures
            final(self).wf(),
            match old(self)@.create_pool(name@, allocation_strategy_id) {
                Ok(next) => final(self)@ == next && r is Ok && r->Ok_0@ == old(self)@.fresh_pool(
                    name@,
                    allocation_strategy_id,
                ),
                Err(e) => final(self)@ == old(self)@ && r is Err && r->Err_0 == e,
            },
    {
        if self.find_name(name).is_some() {
            return Err(ErrorKind::DuplicateName);
        }
        if self.pools.len() >= i32::MAX as usize {
            return Err(ErrorKind::CapacityExceeded);
        }
        let id = (self.pools.len() + 1) as i32;
        let version: i32 = 0;
        self.pools.push(
            ResourcePool { id, name: name.to_owned(), version, allocation_strategy_id },
        );
        proof {
            let fresh = old(self)@.fresh_pool(name@, allocation_strategy_id);
            assert(self@.pools =~= old(self)@.pools.push(fresh));
        }
        Ok(ResourcePool { id, name: name.to_owned(), version, allocation_strategy_id })
    }

    /// The place of the pool of this name, if there is one.
    fn find_name(&self, name: &str) -> (r: Option<usize>)
        ensures
            match r {
                Some(i) => i < self@.pools.len() && self@.pools[i as int].name == name@,
                None => !self@.name_taken(name@),
            },
    {
        let wanted = name.to_owned();
        let mut i: usize = 0;
        while i < self.pools.len()
            invariant
                i <= self.pools.len(),
                wanted@ == name@,
                forall|k: int| 0 <= k < i ==> (#[trigger] self@.pools[k]).name != name@,
            decreases self.pools.len() - i,
        {
            if self.pools[i].name == wanted {
                return Some(i);
            }
            i += 1;
        }
        None
    }

    /// The pool with this identifier.
    pub fn get_resource_pool_by_id(&self, id: i32) -> (r: Result<ResourcePool, ErrorKind>)
        requires
            self.wf(),
        ensures
            match r {
                Ok(pool) => self@.has_pool(id) && pool@ == self@.pools[id - 1],
                Err(e) => !self@.has_pool(id) && e == ErrorKind::NotFound,
            },
    {
        if id < 1 || id as usize > self.pools.len() {
            return Err(ErrorKind::NotFound);
        }
        Ok(self.pools[(id - 1) as usize].clone())
    }

    /// The pool with this name.
    pub fn get_resource_pool_by_name(&self, name: &str) -> (r: Result<ResourcePool, ErrorKind>)
        requires
            self.wf(),
        ensures
            match r {
                Ok(pool) => self@.has_pool(pool.id) && pool@ == self@.pools[pool.id - 1]
                    && pool@.name == name@,
                Err(e) => !self@.name_taken(name@) && e == ErrorKind::NotFound,
            },
    {
        match self.find_name(name) {
            Some(i) => Ok(self.pools[i].clone()),
            None => Err(ErrorKind::NotFound),
        }
    }

    /// The resources of a pool, in the order in which they were stored.
    pub fn get_resources(&self, resource_pool_id: i32) -> (r: Vec<Resource>)
        requires
            self.wf(),
        ensures
            views_of(r@) == self@.resources_of(resource_pool_id),
    {
        let mut found: Vec<Resource> = Vec::new();
        let mut i: usize = 0;
        proof {
            reveal(Seq::filter);
        }
        while i < self.resources.len()
            invariant
                i <= self.resources.len(),
                views_of(found@) == rows_of(self@.resources.take(i as int), resource_pool_id),
            decreases self.resources.len() - i,
        {
            proof {
                reveal(Seq::filter);
                assert(self@.resources.take(i + 1).drop_last() =~= self@.resources.take(i as int));
            }
            if self.resources[i].resource_pool_id == resource_pool_id {
                found.push(self.resources[i].clone());
            }
            i += 1;
        }
        proof {
            assert(self@.resources.take(i as int) =~= self@.resources);
        }
        found
    }

    /// Whether the pool holds this value already.
    fn is_taken(&self, pool_id: i32, value: &Document) -> (r: bool)
        ensures
            r == self@.taken(pool_id, value@),
    {
        let mut k: usize = 0;
        while k < self.resources.len()
            invariant
                k <= self.resources.len(),
                forall|a: int|
                    0 <= a < k ==> !((#[trigger] self@.resources[a]).resource_pool_id == pool_id
                        && self@.resources[a].value == value@),
            decreases self.resources.len() - k,
        {
            if self.resources[k].resource_pool_id == pool_id && self.resources[k].value.same_as(
                value,
            ) {
                assert(self@.resources[k as int].value == value@);
                return true;
            }
            k += 1;
        }
        false
    }

    /// Whether the value at `i` of the batch stands at an earlier place too.
    fn is_repeated(items: &Vec<Resource>, i: usize) -> (r: bool)
        requires
            i < items.len(),
        ensures
            r == repeated(values_of(items@), i as int),
    {
        let mut j: usize = 0;
        while j < i
            invariant
                j <= i < items.len(),
                forall|a: int| 0 <= a < j ==> (#[trigger] values_of(items@)[a]) != values_of(
                    items@,
                )[i as int],
            decreases i - j,
        {
            if items[j].value.same_as(&items[i].value) {
                assert(values_of(items@)[j as int] == values_of(items@)[i as int]);
                return true;
            }
            j += 1;
        }
        false
    }

    /// Whether some value of the batch for the pool breaks uniqueness.
    fn has_collision(&self, pool_id: i32, items: &Vec<Resource>) -> (r: bool)
        ensures
            r == self@.collides(pool_id, values_of(items@)),
    {
        let mut i: usize = 0;
        while i < items.len()
            invariant
                i <= items.len(),
                forall|a: int| 0 <= a < i ==> !#[trigger] self@.clash(pool_id, values_of(items@), a),
            decreases items.len() - i,
        {
            if self.is_taken(pool_id, &items[i].value) || Self::is_repeated(items, i) {
                assert(self@.clash(pool_id, values_of(items@), i as int));
                return true;
            }
            i += 1;
        }
        false
    }

    /// The insert statement: writes the batch for the pool, all rows or
    /// none, and hands the rows back as they are stored.
    fn write_rows(&mut self, pool_id: i32, items: &Vec<Resource>) -> (r: (
        CommitEvent,
        Vec<Resource>,
    ))
        requires
            old(self).wf(),
        ensures
            match r.0 {
                CommitEvent::IdentifiersExhausted => old(self)@.resources.len() + items.len()
                    > i32::MAX && final(self)@ == old(self)@,
                CommitEvent::UniqueViolation => old(self)@.resources.len() + items.len()
                    <= i32::MAX && old(self)@.collides(pool_id, values_of(items@)) && final(self)@
                    == old(self)@,
                CommitEvent::Inserted { rows } => old(self)@.resources.len() + items.len()
                    <= i32::MAX && !old(self)@.collides(pool_id, values_of(items@)) && rows
                    == items.len() && final(self)@ == old(self)@.with_rows(
                    pool_id,
                    values_of(items@),
                ) && views_of(r.1@) == old(self)@.new_rows(pool_id, values_of(items@)),
                CommitEvent::Updated { .. } => false,
            },
    {
        let count = items.len();
        let mut stored: Vec<Resource> = Vec::new();
        if count > i32::MAX as usize - self.resources.len() {
            return (CommitEvent::IdentifiersExhausted, stored);
        }
        if self.has_collision(pool_id, items) {
            return (CommitEvent::UniqueViolation, stored);
        }
        let ghost before = self@;
        let ghost values = values_of(items@);
        let ghost rows = before.new_rows(pool_id, values);
        let mut k: usize = 0;
        while k < count
            invariant
                k <= count == items.len(),
                before.resources.len() + count <= i32::MAX,
                values == values_of(items@),
                rows == before.new_rows(pool_id, values),
                self@.scripts == before.scripts,
                self@.pools == before.pools,
                self.resources.len() == before.resources.len() + k,
                self@.resources == before.resources + rows.take(k as int),
                views_of(stored@) == rows.take(k as int),
            decreases count - k,
        {
            let id = (self.resources.len() + 1) as i32;
            let ghost prior = self@.resources;
            self.resources.push(
                Resource { id: Some(id), resource_pool_id: pool_id, value: items[k].value.clone() },
            );
            stored.push(
                Resource { id: Some(id), resource_pool_id: pool_id, value: items[k].value.clone() },
            );
            proof {
                assert(self@.resources =~= prior.push(rows[k as int]));
            }
            k += 1;
        }
        proof {
            assert(rows.take(count as int) =~= rows);
        }
        (CommitEvent::Inserted { rows: count as u64 }, stored)
    }

    /// The conditional update: sets the version of pool `id` to `next`
    /// where the pool exists and stands at `expected`.
    fn raise_version(&mut self, next: i32, id: i32, expected: i32) -> (r: CommitEvent)
        requires
            old(self)@.pools.len() <= i32::MAX,
        ensures
            if old(self)@.at_version(id, expected) {
                r == (CommitEvent::Updated { rows: 1 }) && final(self)@ == old(self)@.with_version(
                    id,
                    next,
                )
            } else {
                r == (CommitEvent::Updated { rows: 0 }) && final(self)@ == old(self)@
            },
    {
        if id < 1 || id as usize > self.pools.len() {
            return CommitEvent::Updated { rows: 0 };
        }
        let slot = (id - 1) as usize;
        if self.pools[slot].version != expected {
            return CommitEvent::Updated { rows: 0 };
        }
        let mut row = self.pools[slot].clone();
        row.version = next;
        self.pools.set(slot, row);
        proof {
            assert(self@.pools =~= old(self)@.with_version(id, next).pools);
        }
        CommitEvent::Updated { rows: 1 }
    }

    /// The rollback: drops the rows that were written behind the first
    /// `keep`.
    fn discard_rows(&mut self, keep: usize)
        requires
            keep <= old(self)@.resources.len(),
        ensures
            final(self)@ == (StoreView {
                resources: old(self)@.resources.take(keep as int),
                ..old(self)@
            }),
    {
        self.resources.truncate(keep);
        proof {
            assert(self@.resources =~= old(self)@.resources.take(keep as int));
        }
    }

    /// Commits a batch of new resources for a pool, in one transaction: the
    /// rows are written and the pool's version is raised by one, if the
    /// store still holds the pool at the version that `pool` was read at.
    /// Whatever fails, the store stays as it was. The resources come back
    /// with the identifiers that the store gave them.
    pub fn insert_resources(&mut self, pool: ResourcePool, items: Vec<Resource>) -> (r: Result<
        (ResourcePool, Vec<Resource>),
        ErrorKind,
    >)
        requires
            old(self).wf(),
            forall|i: int| 0 <= i < items.len() ==> (#[trigger] items[i]).resource_pool_id == pool.id,
        ensures
            final(self).wf(),
            r is Err ==> final(self)@ == old(self)@,
            items.len() == 0 ==> r is Err && r->Err_0 == ErrorKind::EmptyAllocation,
            match old(self)@.commit(pool@, values_of(items@)) {
                Ok(next) => final(self)@ == next && r is Ok && r->Ok_0.0@ == pool@.bumped()
                    && views_of(r->Ok_0.1@) == old(self)@.new_rows(pool.id, values_of(items@)),
                Err(e) => r is Err && r->Err_0 == e,
            },
    {
        let ghost before = self@;
        let ghost values = values_of(items@);
        let keep = self.resources.len();
        let mut stored: Vec<Resource> = Vec::new();
        let mut state = CommitState::begin(pool.id, pool.version, items.len());
        loop
            invariant
                before.valid(),
                before == old(self)@,
                keep == before.resources.len(),
                values == values_of(items@),
                match state {
                    CommitState::Inserting { id, version, rows } => {
                        &&& id == pool.id
                        &&& version == pool.version
                        &&& rows == items.len()
                        &&& rows > 0
                        &&& self@ == before
                    },
                    CommitState::Updating { id, expected, next } => {
                        &&& id == pool.id
                        &&& expected == pool.version
                        &&& next == pool.version + 1
                        &&& values.len() > 0
                        &&& before.resources.len() + values.len() <= i32::MAX
                        &&& !before.collides(pool.id, values)
                        &&& self@ == before.with_rows(pool.id, values)
                        &&& views_of(stored@) == before.new_rows(pool.id, values)
                    },
                    CommitState::Committing { version } => {
                        &&& version == pool.version + 1
                        &&& before.commit(pool@, values) == Ok::<StoreView, ErrorKind>(self@)
                        &&& views_of(stored@) == before.new_rows(pool.id, values)
                    },
                    CommitState::Aborting { error } => {
                        &&& before.commit(pool@, values) == Err::<StoreView, ErrorKind>(error)
                        &&& self@.scripts == before.scripts
                        &&& self@.pools == before.pools
                        &&& keep <= self@.resources.len()
                        &&& self@.resources.take(keep as int) == before.resources
                    },
                },
            decreases state.steps_left(),
        {
            match state.action() {
                CommitAction::InsertRows { .. } => {
                    let (event, rows) = self.write_rows(pool.id, &items);
                    stored = rows;
                    state = state.advance(event);
                },
                CommitAction::RaiseVersion { next, id, expected } => {
                    let event = self.raise_version(next, id, expected);
                    state = state.advance(event);
                },
                CommitAction::Commit { version } => {
                    proof {
                        lemma_commit_keeps_valid(before, pool@, values);
                    }
                    let updated = ResourcePool {
                        id: pool.id,
                        name: pool.name,
                        version,
                        allocation_strategy_id: pool.allocation_strategy_id,
                    };
                    return Ok((updated, stored));
                },
                CommitAction::Rollback { error } => {
                    self.discard_rows(keep);
                    return Err(error);
                },
            }
        }
    }
}

/// A commit that succeeds leaves the store's invariant in place.
pub proof fn lemma_commit_keeps_valid(store: StoreView, pool: PoolView, values: Seq<Seq<char>>)
    requires
        store.valid(),
        store.commit(pool, values) is Ok,
    ensures
        store.commit(pool, values)->Ok_0.valid(),
{
    let next = store.committed(pool.id, values);
    let old_len = store.resources.len() as int;
    assert forall|i: int, j: int| 0 <= i < j < next.resources.len() implies !({
        &&& (#[trigger] next.resources[i]).resource_pool_id == (
        #[trigger] next.resources[j]).resource_pool_id
        &&& next.resources[i].value == next.resources[j].value
    }) by {
        if j >= old_len {
            // a new row: its value is neither in the pool nor earlier in the batch
            assert(!store.clash(pool.id, values, j - old_len));
        }
    }
}

} // verus!
