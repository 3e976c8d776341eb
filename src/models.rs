//! The records of the transcript store and their reference entities.
pub mod category;
pub mod error;
pub mod event;

pub mod event_category;
pub mod ms_store_event;
pub mod persisted_event;
pub mod producer;
pub mod provider_group;
pub mod tag;
pub mod tag_description;
pub mod windows_software_client;
