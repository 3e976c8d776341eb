//! The coarse category of an event, by its name.
use vstd::prelude::*;
use crate::models::ms_store_event::MSStoreEvent;
use crate::models::windows_software_client::WindowsSoftwareClient;

verus! {

#[derive(Clone, Copy, Debug, PartialEq, Eq, Structural)]
pub enum EventCategory {
    Device,
    Edge,
    WiFi,
    MSStore(MSStoreEvent),
    WindowsSoftwareClient(WindowsSoftwareClient),
    Other,
}

impl EventCategory {
    /// Whether the category has a display name; the device, Edge and WiFi
    /// categories have none yet.
    pub open spec fn has_display_name(self) -> bool {
        !(self is Device || self is Edge || self is WiFi)
    }

    /// The human-readable name of the category.
    pub open spec fn display_text(self) -> Seq<char> {
        match self {
            EventCategory::MSStore(e) => "Microsoft Store: "@ + e.display_text(),
            EventCategory::WindowsSoftwareClient(e) => "Windows Software Client Telemetry: "@
                + e.display_text(),
            _ => "Unknown Event"@,
        }
    }

    pub fn display_name(&self) -> (r: String)
        requires
            self.has_display_name(),
        ensures
            r@ == self.display_text(),
    {
        match self {
            EventCategory::MSStore(store_event) => {
                let mut text = "Microsoft Store: ".to_string();
                text.append(store_event.display_name().as_str());
                text
            },
            EventCategory::WindowsSoftwareClient(client_event) => {
                let mut text = "Windows Software Client Telemetry: ".to_string();
                text.append(client_event.display_name().as_str());
                text
            },
            _ => "Unknown Event".to_string(),
        }
    }
}

} // verus!
