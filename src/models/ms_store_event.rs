//! Events of the Microsoft Store.
use vstd::prelude::*;

verus! {

#[derive(Clone, Copy, Debug, PartialEq, Eq, Structural)]
pub enum MSStoreEvent {
    Launching,
    Launched,
    Activating,
    Activated,
    AuthRequest,
    BeginPurchase,
    FinishPurchase,
    Other,
}

impl MSStoreEvent {
    /// The human-readable name of the event.
    pub open spec fn display_text(self) -> Seq<char> {
        match self {
            MSStoreEvent::Launching => "Launching"@,
            MSStoreEvent::Launched => "Launched"@,
            MSStoreEvent::Activating => "Activating"@,
            MSStoreEvent::Activated => "Activated"@,
            MSStoreEvent::AuthRequest => "Authentication Request"@,
            MSStoreEvent::BeginPurchase => "Purchase Begins"@,
            MSStoreEvent::FinishPurchase => "Purchase Finished"@,
            MSStoreEvent::Other => "Unknown Event"@,
        }
    }

    pub fn display_name(&self) -> (r: String)
        ensures
            r@ == self.display_text(),
    {
        match self {
            MSStoreEvent::Launching => "Launching",
            MSStoreEvent::Launched => "Launched",
            MSStoreEvent::Activating => "Activating",
            MSStoreEvent::Activated => "Activated",
            MSStoreEvent::AuthRequest => "Authentication Request",
            MSStoreEvent::BeginPurchase => "Purchase Begins",
            MSStoreEvent::FinishPurchase => "Purchase Finished",
            MSStoreEvent::Other => "Unknown Event",
        }.to_string()
    }
}

} // verus!
