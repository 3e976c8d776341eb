//! Extraction of typed events from an operating-system telemetry transcript.
//!
//! Rows read from the transcript store are decoded into normalized records,
//! and a set of detectors turns those records into typed domain events.
pub mod text;
pub mod time;
pub mod json;
pub mod models;
pub mod detectors;
pub mod reader;
