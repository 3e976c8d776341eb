//! Event categories, from the `categories` table.
use vstd::prelude::*;
use crate::models::producer::ProducerId;

verus! {

/// Identifier of a category, unique within its table.
#[derive(Clone, Copy, Debug, PartialEq, Eq, Hash, Structural)]
pub struct CategoryId(pub i64);

impl CategoryId {
    pub fn new(id: i64) -> (r: Self)
        ensures
            r.0 == id,
    {
        CategoryId(id)
    }
}

/// A category of events, and the producer it belongs to.
#[derive(Debug)]
pub struct Category {
    pub id: CategoryId,
    pub name: String,
    pub producer_id: ProducerId,
}

impl Category {
    pub fn new(id: CategoryId, name: String, producer_id: ProducerId) -> (r: Self)
        ensures
            r.id == id,
            r.name == name,
            r.producer_id == producer_id,
    {
        Category { id, name, producer_id }
    }

    pub fn id(&self) -> (r: CategoryId)
        ensures
            r == self.id,
    {
        self.id
    }

    pub fn name(&self) -> (r: &str)
        ensures
            r@ == self.name@,
    {
        self.name.as_str()
    }

    pub fn producer_id(&self) -> (r: ProducerId)
        ensures
            r == self.producer_id,
    {
        self.producer_id
    }
}

} // verus!
