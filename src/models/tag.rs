//! Event tags with a plain integer identifier.
use vstd::prelude::*;

verus! {

/// Describes an event tag (a category in a sense).
#[derive(Debug, PartialEq, Eq)]
pub struct Tag {
    pub id: i64,
    pub name: String,
    pub description: String,
    pub locale: String,
}

impl Tag {
    pub fn new(id: i64, name: String, description: String, locale: String) -> (r: Self)
        ensures
            r.id == id,
            r.name == name,
            r.description == description,
            r.locale == locale,
    {
        Tag { id, name, description, locale }
    }

    pub fn id(&self) -> (r: i64)
        ensures
            r == self.id,
    {
        self.id
    }

    pub fn name(&self) -> (r: &str)
        ensures
            r@ == self.name@,
    {
        self.name.as_str()
    }

    pub fn description(&self) -> (r: &str)
        ensures
            r@ == self.description@,
    {
        self.description.as_str()
    }

    pub fn locale(&self) -> (r: &str)
        ensures
            r@ == self.locale@,
    {
        self.locale.as_str()
    }
}

} // verus!
