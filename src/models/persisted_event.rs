//! The normalized record decoded from one row of the raw event table.
use vstd::prelude::*;
use crate::json::JsonValue;
use crate::models::category::CategoryId;
use crate::models::producer::ProducerId;
use crate::models::provider_group::ProviderGroup;
use crate::models::tag_description::TagDescriptionId;
use crate::text::{contains_chars, str_contains};
use crate::time::Timestamp;

verus! {

/// The payload column of a record: parsed, kept as text where it was not
/// JSON, or absent.
#[derive(Debug)]
pub enum PersistedEventPayload {
    Absent,
    Invalid { raw_payload: String },
    Parsed { payload: JsonValue },
}

/// The binary of the process that logged an event.
#[derive(Debug)]
pub struct LoggingBinary {
    pub name: String,
    pub friendly_name: String,
}

/// An event captured by the store.
#[derive(Debug)]
pub struct PersistedEvent {
    /// Unique SID of the device.
    pub device_id: String,
    pub timestamp: Timestamp,
    pub payload: PersistedEventPayload,
    /// `full_event_name` in the store.
    pub event_name: String,
    pub event_name_hash: i64,
    pub is_core: bool,
    pub provider_group: ProviderGroup,
    /// Binary that logged the event.
    pub logging_binary: LoggingBinary,
    /// Producer of the event (for example Windows or Edge).
    pub producer_id: ProducerId,
    pub categories: Vec<CategoryId>,
    pub tags: Vec<TagDescriptionId>,
}

impl PersistedEvent {
    pub fn new(
        device_id: String,
        timestamp: Timestamp,
        payload: PersistedEventPayload,
        event_name: String,
        event_name_hash: i64,
        is_core: bool,
        provider_group: ProviderGroup,
        logging_binary: LoggingBinary,
        producer_id: ProducerId,
        categories: Vec<CategoryId>,
        tags: Vec<TagDescriptionId>,
    ) -> (r: Self)
        ensures
            r == (PersistedEvent {
                device_id,
                timestamp,
                payload,
                event_name,
                event_name_hash,
                is_core,
                provider_group,
                logging_binary,
                producer_id,
                categories,
                tags,
            }),
    {
        PersistedEvent {
            device_id,
            timestamp,
            payload,
            event_name,
            event_name_hash,
            is_core,
            provider_group,
            logging_binary,
            producer_id,
            categories,
            tags,
        }
    }

    /// Unique SID of the device.
    pub fn device_id(&self) -> (r: &str)
        ensures
            r@ == self.device_id@,
    {
        self.device_id.as_str()
    }

    pub fn timestamp(&self) -> (r: &Timestamp)
        ensures
            *r == self.timestamp,
    {
        &self.timestamp
    }

    pub fn payload(&self) -> (r: &PersistedEventPayload)
        ensures
            *r == self.payload,
    {
        &self.payload
    }

    pub fn event_name(&self) -> (r: &str)
        ensures
            r@ == self.event_name@,
    {
        self.event_name.as_str()
    }

    /// Whether the event name includes `keyword`.
    pub fn event_name_contains(&self, keyword: &str) -> (r: bool)
        ensures
            r == contains_chars(self.event_name@, keyword@),
    {
        str_contains(self.event_name.as_str(), keyword)
    }

    pub fn event_name_hash(&self) -> (r: i64)
        ensures
            r == self.event_name_hash,
    {
        self.event_name_hash
    }

    pub fn is_core(&self) -> (r: bool)
        ensures
            r == self.is_core,
    {
        self.is_core
    }

    pub fn provider_group(&self) -> (r: &ProviderGroup)
        ensures
            *r == self.provider_group,
    {
        &self.provider_group
    }

    /// The binary of the process that logged the event.
    pub fn logging_binary(&self) -> (r: &LoggingBinary)
        ensures
            *r == self.logging_binary,
    {
        &self.logging_binary
    }

    pub fn producer_id(&self) -> (r: ProducerId)
        ensures
            r == self.producer_id,
    {
        self.producer_id
    }

    pub fn category_ids(&self) -> (r: &[CategoryId])
        ensures
            r@ == self.categories@,
    {
        self.categories.as_slice()
    }

    pub fn tag_description_ids(&self) -> (r: &[TagDescriptionId])
        ensures
            r@ == self.tags@,
    {
        self.tags.as_slice()
    }
}

} // verus!
