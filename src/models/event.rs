//! A loosely typed event and its coarse category.
use vstd::prelude::*;
use crate::json::{json_of_text, parse_json, JsonValue};
use crate::models::event_category::EventCategory;
use crate::models::ms_store_event::MSStoreEvent;
use crate::models::windows_software_client::WindowsSoftwareClient;
use crate::text::{starts_with_chars, str_equals, str_starts_with};
use crate::time::Timestamp;

verus! {

pub const STORE_EVENT_PREFIX: &'static str = "Microsoft-Windows-Store";

pub const UPDATE_CLIENT_EVENT_PREFIX: &'static str = "SoftwareUpdateClientTelemetry";

pub const STORE_SERVICE_REQUEST_EVENT_NAME: &'static str =
    "Microsoft-Windows-Store.OutgoingServiceRequest";

/// Why an event could not be built.
#[derive(Clone, Copy, Debug, PartialEq, Eq, Structural)]
pub enum EventError {
    /// The payload text is not JSON.
    InvalidPayload,
}

/// An event with optional fields, its payload parsed where present.
#[derive(Debug)]
pub struct Event {
    pub device_id: Option<String>,
    pub time: Option<Timestamp>,
    pub event_name: Option<String>,
    pub process_name: Option<String>,
    pub json_payload: Option<JsonValue>,
    pub event_category: EventCategory,
    pub raw_payload: Option<String>,
}

/// Whether a store service request asks for authentication, by its
/// `data.baseData.dependencyType`.
pub open spec fn requests_authentication(payload: Option<JsonValue>) -> bool {
    match payload {
        Some(p) => match p.nested_field("data"@, "baseData"@) {
            Some(base) => match base.field("dependencyType"@) {
                Some(kind) => kind.text_value() == Some("AuthenticationRequest"@),
                None => false,
            },
            None => false,
        },
        None => false,
    }
}

/// The store event an event name denotes.
pub open spec fn store_event_of(name: Seq<char>, payload: Option<JsonValue>) -> MSStoreEvent {
    if name == "Microsoft-Windows-Store.StoreLaunching"@ {
        MSStoreEvent::Launching
    } else if name == "Microsoft-Windows-Store.StoreActivating"@ {
        MSStoreEvent::Activating
    } else if name == STORE_SERVICE_REQUEST_EVENT_NAME@ {
        if requests_authentication(payload) {
            MSStoreEvent::AuthRequest
        } else {
            MSStoreEvent::Other
        }
    } else if name == "Microsoft-Windows-Store.StoreActivated"@ {
        MSStoreEvent::Activated
    } else if name == "Microsoft-Windows-Store.StoreLaunched"@ {
        MSStoreEvent::Launched
    } else if name == "Microsoft-Windows-Store.PurchaseBegin"@ {
        MSStoreEvent::BeginPurchase
    } else if name == "Microsoft-Windows-Store.PurchaseOrderFulfillment"@ {
        MSStoreEvent::FinishPurchase
    } else {
        MSStoreEvent::Other
    }
}

/// The update-client event an event name denotes.
pub open spec fn update_client_event_of(name: Seq<char>) -> WindowsSoftwareClient {
    if name == "SoftwareUpdateClientTelemetry.CheckForUpdates"@ {
        WindowsSoftwareClient::CheckForUpdates
    } else if name == "SoftwareUpdateClientTelemetry.UpdateDetected"@ {
        WindowsSoftwareClient::UpdateDetected
    } else if name == "SoftwareUpdateClientTelemetry.Download"@ {
        WindowsSoftwareClient::Downloading
    } else if name == "SoftwareUpdateClientTelemetry.Install"@ {
        WindowsSoftwareClient::Installing
    } else {
        WindowsSoftwareClient::Other
    }
}

/// The category of an event: store events and update-client events by the
/// prefix of their name, everything else (or no name) is other.
pub open spec fn category_of(name: Option<Seq<char>>, payload: Option<JsonValue>) -> EventCategory {
    match name {
        None => EventCategory::Other,
        Some(n) => if starts_with_chars(n, STORE_EVENT_PREFIX@) {
            EventCategory::MSStore(store_event_of(n, payload))
        } else if starts_with_chars(n, UPDATE_CLIENT_EVENT_PREFIX@) {
            EventCategory::WindowsSoftwareClient(update_client_event_of(n))
        } else {
            EventCategory::Other
        },
    }
}

/// Whether a payload's `data.baseData.dependencyType` is an authentication
/// request.
pub fn read_requests_authentication(payload: &Option<JsonValue>) -> (r: bool)
    ensures
        r == requests_authentication(*payload),
{
    let p = match payload {
        Some(p) => p,
        None => {
            return false;
        },
    };
    let data = match p.get("data") {
        Some(d) => d,
        None => {
            return false;
        },
    };
    let base = match data.get("baseData") {
        Some(b) => b,
        None => {
            return false;
        },
    };
    match base.get("dependencyType") {
        Some(kind) => match kind.as_str() {
            Some(text) => {
                proof {
                    reveal_strlit("AuthenticationRequest");
                }
                str_equals(text, "AuthenticationRequest")
            },
            None => false,
        },
        None => false,
    }
}

/// The store event that `name` denotes.
pub fn detect_store_event(name: &str, payload: &Option<JsonValue>) -> (r: MSStoreEvent)
    ensures
        r == store_event_of(name@, *payload),
{
    if str_equals(name, "Microsoft-Windows-Store.StoreLaunching") {
        MSStoreEvent::Launching
    } else if str_equals(name, "Microsoft-Windows-Store.StoreActivating") {
        MSStoreEvent::Activating
    } else if str_equals(name, STORE_SERVICE_REQUEST_EVENT_NAME) {
        if read_requests_authentication(payload) {
            MSStoreEvent::AuthRequest
        } else {
            MSStoreEvent::Other
        }
    } else if str_equals(name, "Microsoft-Windows-Store.StoreActivated") {
        MSStoreEvent::Activated
    } else if str_equals(name, "Microsoft-Windows-Store.StoreLaunched") {
        MSStoreEvent::Launched
    } else if str_equals(name, "Microsoft-Windows-Store.PurchaseBegin") {
        MSStoreEvent::BeginPurchase
    } else if str_equals(name, "Microsoft-Windows-Store.PurchaseOrderFulfillment") {
        MSStoreEvent::FinishPurchase
    } else {
        MSStoreEvent::Other
    }
}

/// The update-client event that `name` denotes.
pub fn detect_update_client_event(name: &str) -> (r: WindowsSoftwareClient)
    ensures
        r == update_client_event_of(name@),
{
    if str_equals(name, "SoftwareUpdateClientTelemetry.CheckForUpdates") {
        WindowsSoftwareClient::CheckForUpdates
    } else if str_equals(name, "SoftwareUpdateClientTelemetry.UpdateDetected") {
        WindowsSoftwareClient::UpdateDetected
    } else if str_equals(name, "SoftwareUpdateClientTelemetry.Download") {
        WindowsSoftwareClient::Downloading
    } else if str_equals(name, "SoftwareUpdateClientTelemetry.Install") {
        WindowsSoftwareClient::Installing
    } else {
        WindowsSoftwareClient::Other
    }
}

/// The characters of an optional name.
pub open spec fn optional_name(name: Option<String>) -> Option<Seq<char>> {
    match name {
        Some(n) => Some(n@),
        None => None,
    }
}

impl Event {
    /// Builds an event, parsing its payload where present; fails where the
    /// payload is not JSON.
    pub fn new(
        device_id: Option<String>,
        time: Option<Timestamp>,
        event_name: Option<String>,
        process_name: Option<String>,
        payload: Option<String>,
    ) -> (r: Result<Self, EventError>)
        ensures
            r is Err <==> (payload matches Some(p) && json_of_text(p@) is None),
            r matches Ok(e) ==> {
                &&& e.device_id == device_id
                &&& e.time == time
                &&& e.event_name == event_name
                &&& e.process_name == process_name
                &&& e.raw_payload == payload
                &&& e.json_payload == match payload {
                    Some(p) => json_of_text(p@),
                    None => None,
                }
                &&& e.event_category == category_of(optional_name(event_name), e.json_payload)
            },
    {
        let json_payload = match &payload {
            Some(text) => match parse_json(text.as_str()) {
                Some(v) => Some(v),
                None => {
                    return Err(EventError::InvalidPayload);
                },
            },
            None => None,
        };
        let event_category = Self::detect_event_category(&event_name, &json_payload);
        Ok(
            Event {
                device_id,
                time,
                event_name,
                process_name,
                json_payload,
                event_category,
                raw_payload: payload,
            },
        )
    }

    /// The category of an event, by its name and payload.
    pub fn detect_event_category(event_name: &Option<String>, json_payload: &Option<JsonValue>) -> (r:
        EventCategory)
        ensures
            r == category_of(optional_name(*event_name), *json_payload),
    {
        let name = match event_name {
            Some(n) => n.as_str(),
            None => {
                return EventCategory::Other;
            },
        };
        if str_starts_with(name, STORE_EVENT_PREFIX) {
            EventCategory::MSStore(detect_store_event(name, json_payload))
        } else if str_starts_with(name, UPDATE_CLIENT_EVENT_PREFIX) {
            EventCategory::WindowsSoftwareClient(detect_update_client_event(name))
        } else {
            EventCategory::Other
        }
    }

    pub fn event_category(&self) -> (r: &EventCategory)
        ensures
            *r == self.event_category,
    {
        &self.event_category
    }

    pub fn time(&self) -> (r: Option<Timestamp>)
        ensures
            r == self.time,
    {
        self.time
    }
}

} // verus!
