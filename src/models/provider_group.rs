//! Provider groups, from the `provider_groups` table.
use vstd::prelude::*;

verus! {

/// A provider group: its `group_id` and `group_guid`.
#[derive(Debug, PartialEq, Eq, Clone)]
pub struct ProviderGroup {
    pub id: i64,
    pub guid: String,
}

impl ProviderGroup {
    pub fn new(id: i64, guid: String) -> (r: Self)
        ensures
            r.id == id,
            r.guid == guid,
    {
        ProviderGroup { id, guid }
    }
}

} // verus!
