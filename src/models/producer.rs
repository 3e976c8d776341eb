//! Event producers (programs or executables), from the `producers` table.
use vstd::prelude::*;

verus! {

/// Identifier of a producer, unique within its table.
#[derive(Clone, Copy, Debug, PartialEq, Eq, Hash, Structural)]
pub struct ProducerId(pub i64);

impl ProducerId {
    pub fn new(id: i64) -> (r: Self)
        ensures
            r.0 == id,
    {
        ProducerId(id)
    }
}

/// Describes an event producer (for example "Windows" or "Edge").
#[derive(Debug)]
pub struct Producer {
    pub id: ProducerId,
    pub name: String,
}

impl Producer {
    pub fn new(id: ProducerId, name: String) -> (r: Self)
        ensures
            r.id == id,
            r.name == name,
    {
        Producer { id, name }
    }

    pub fn id(&self) -> (r: ProducerId)
        ensures
            r == self.id,
    {
        self.id
    }

    pub fn name(&self) -> (r: &str)
        ensures
            r@ == self.name@,
    {
        self.name.as_str()
    }
}

} // verus!
