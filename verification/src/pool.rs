//! Resource pools and the resources that they own.

use vstd::prelude::*;
use vstd::string::StringSliceAdditionalSpecFns;
use crate::document::Document;
use crate::json::json_canonical;

verus! {

/// A versioned collection of resources that one allocation strategy governs.
#[derive(Debug, PartialEq, Eq)]
pub struct ResourcePool {
    /// Assigned by the store when the pool is created.
    pub id: i32,
    /// Unique among the pools of a store.
    pub name: String,
    /// Grows by one with each committed allocation.
    pub version: i32,
    /// The strategy whose script decides what the pool allocates.
    pub allocation_strategy_id: i32,
}

/// What a pool is to a contract.
pub struct PoolView {
    pub id: i32,
    pub name: Seq<char>,
    pub version: i32,
    pub allocation_strategy_id: i32,
}

impl PoolView {
    /// The pool one version later.
    pub open spec fn bumped(self) -> PoolView {
        PoolView { version: (self.version + 1) as i32, ..self }
    }
}

impl View for ResourcePool {
    type V = PoolView;

    open spec fn view(&self) -> PoolView {
        PoolView {
            id: self.id,
            name: self.name@,
            version: self.version,
            allocation_strategy_id: self.allocation_strategy_id,
        }
    }
}

impl Clone for ResourcePool {
    fn clone(&self) -> (r: Self)
        ensures
            r@ == self@,
    {
        ResourcePool {
            id: self.id,
            name: self.name.clone(),
            version: self.version,
            allocation_strategy_id: self.allocation_strategy_id,
        }
    }
}

/// The text of the pool metadata that a strategy is handed: an empty object.
pub open spec fn pool_json() -> Seq<char> {
    "{}"@
}

/// The text of the properties that a strategy is handed: the base address
/// and prefix length of the network that the pool draws from.
pub open spec fn pool_properties_json() -> Seq<char> {
    "{\"address\":\"10.0.0.0\",\"prefix\":8}"@
}

/// The text of a resource as a strategy sees it among the current
/// resources: an object whose `Properties` field is the resource's value.
pub open spec fn resource_json(value: Seq<char>) -> Seq<char> {
    "{\"Properties\":"@ + value + "}"@
}

impl ResourcePool {
    /// The pool's metadata for the sandbox.
    pub fn as_json(&self) -> (r: Document)
        ensures
            r@ == pool_json(),
    {
        Document::from_text("{}".to_owned())
    }

    /// The strategy-specific parameters for the sandbox. They are derived
    /// from the pool, never stored with it.
    pub fn get_pool_properties(&self) -> (r: Document)
        ensures
            r@ == pool_properties_json(),
    {
        Document::from_text("{\"address\":\"10.0.0.0\",\"prefix\":8}".to_owned())
    }
}

/// One allocated value. It belongs to one pool for as long as it exists.
#[derive(Debug, PartialEq, Eq)]
pub struct Resource {
    /// Assigned by the store on insert; `None` before that.
    pub id: Option<i32>,
    /// The owning pool.
    pub resource_pool_id: i32,
    /// The payload, which only the allocation strategy interprets.
    pub value: Document,
}

/// What a resource is to a contract.
pub struct ResourceView {
    pub id: Option<i32>,
    pub resource_pool_id: i32,
    pub value: Seq<char>,
}

impl View for Resource {
    type V = ResourceView;

    open spec fn view(&self) -> ResourceView {
        ResourceView { id: self.id, resource_pool_id: self.resource_pool_id, value: self.value@ }
    }
}

impl Clone for Resource {
    fn clone(&self) -> (r: Self)
        ensures
            r@ == self@,
    {
        Resource {
            id: self.id,
            resource_pool_id: self.resource_pool_id,
            value: self.value.clone(),
        }
    }
}

impl Resource {
    /// A resource for the pool, not yet stored, whose value is read from
    /// JSON text; `None` where the text is no JSON.
    pub fn new_from_str(resource_pool_id: i32, value_str: &str) -> (r: Option<Resource>)
        ensures
            match r {
                Some(resource) => json_canonical(value_str.spec_bytes()) == Some(resource.value@)
                    && resource.id is None && resource.resource_pool_id == resource_pool_id,
                None => json_canonical(value_str.spec_bytes()) is None,
            },
    {
        match Document::parse(value_str) {
            Some(value) => Some(Resource { id: None, resource_pool_id, value }),
            None => None,
        }
    }

    /// A resource for the pool, not yet stored.
    pub fn new_from_value(resource_pool_id: i32, value: Document) -> (r: Resource)
        ensures
            r.id is None,
            r.resource_pool_id == resource_pool_id,
            r.value == value,
    {
        Resource { id: None, resource_pool_id, value }
    }

    /// The resource as the sandbox is shown it.
    pub fn as_json(&self) -> (r: Document)
        ensures
            r@ == resource_json(self.value@),
    {
        let mut text = "{\"Properties\":".to_owned();
        text.append(self.value.as_str());
        text.append("}");
        Document::from_text(text)
    }
}

/// The values of a batch of resources.
pub open spec fn values_of(items: Seq<Resource>) -> Seq<Seq<char>> {
    items.map_values(|r: Resource| r.value@)
}

/// The views of a run of resources.
pub open spec fn views_of(items: Seq<Resource>) -> Seq<ResourceView> {
    items.map_values(|r: Resource| r@)
}

} // verus!
