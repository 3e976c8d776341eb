//! Tag descriptions, from the `tag_descriptions` table.
use vstd::prelude::*;

verus! {

/// Identifier of a tag description, unique within its table.
#[derive(Clone, Copy, Debug, PartialEq, Eq, Hash, Structural)]
pub struct TagDescriptionId(pub i64);

impl TagDescriptionId {
    pub fn new(id: i64) -> (r: Self)
        ensures
            r.0 == id,
    {
        TagDescriptionId(id)
    }
}

/// An event tag (a category in a sense), with its description in one locale.
#[derive(Debug, PartialEq, Eq)]
pub struct TagDescription {
    pub id: TagDescriptionId,
    pub name: String,
    pub description: String,
    pub locale: String,
}

impl TagDescription {
    pub fn new(id: TagDescriptionId, name: String, description: String, locale: String) -> (r:
        Self)
        ensures
            r.id == id,
            r.name == name,
            r.description == description,
            r.locale == locale,
    {
        TagDescription { id, name, description, locale }
    }

    pub fn id(&self) -> (r: TagDescriptionId)
        ensures
            r == self.id,
    {
        self.id
    }

    pub fn name(&self) -> (r: &str)
        ensures
            r@ == self.name@,
    {
        self.name.as_str()
    }

    pub fn description(&self) -> (r: &str)
        ensures
            r@ == self.description@,
    {
        self.description.as_str()
    }

    pub fn locale(&self) -> (r: &str)
        ensures
            r@ == self.locale@,
    {
        self.locale.as_str()
    }
}

} // verus!
