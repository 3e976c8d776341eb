//! The battery detector: changes of the remaining charge percentage.
use vstd::prelude::*;
use crate::detectors::{
    envelopes, DetectedEvent, DetectedEventView, EventDetector, EventTranscriptReadOnlyView,
    ProcessedEvent,
};
use crate::json::JsonValue;
use crate::models::persisted_event::{PersistedEvent, PersistedEventPayload};
use crate::text::str_equals;
use crate::time::Timestamp;

verus! {

#[derive(Clone, Copy, Debug, PartialEq, Eq, Structural)]
pub enum BatteryEventType {
    BatteryPercentageChange { battery_percentage: u8 },
}

impl BatteryEventType {
    pub open spec fn view_as_detected(self) -> DetectedEventView {
        match self {
            BatteryEventType::BatteryPercentageChange { battery_percentage } => {
                DetectedEventView::BatteryPercentageChange { battery_percentage }
            },
        }
    }
}

#[derive(Clone, Copy, Debug, PartialEq, Eq, Structural)]
pub struct BatteryEvent {
    pub kind: BatteryEventType,
}

impl BatteryEvent {
    pub fn battery_percentage_change(battery_percentage: u8) -> (r: Self)
        ensures
            r.kind == (BatteryEventType::BatteryPercentageChange { battery_percentage }),
    {
        BatteryEvent { kind: BatteryEventType::BatteryPercentageChange { battery_percentage } }
    }
}

impl From<BatteryEvent> for DetectedEvent {
    fn from(value: BatteryEvent) -> (r: DetectedEvent) {
        DetectedEvent::BatteryEvent(value)
    }
}

impl vstd::std_specs::convert::FromSpecImpl<BatteryEvent> for DetectedEvent {
    open spec fn obeys_from_spec() -> bool {
        true
    }

    open spec fn from_spec(v: BatteryEvent) -> DetectedEvent {
        DetectedEvent::BatteryEvent(v)
    }
}

/// Detects changes of the battery's remaining charge.
pub struct BatteryEventDetector {}

impl BatteryEventDetector {
    pub fn new() -> (r: Self) {
        BatteryEventDetector {  }
    }
}

pub const BATTERY_CHANGE_EVENT_NAME: &'static str =
    "Microsoft.Windows.Kernel.Power.BatteryChargePercentageChange";

/// The percentage that a payload reports in `data.RemainingPercentage`,
/// where it is an integer from 0 to 255.
pub open spec fn remaining_percentage(payload: JsonValue) -> Option<u8> {
    match payload.nested_field("data"@, "RemainingPercentage"@) {
        Some(v) => match v.int_value() {
            Some(n) => if 0 <= n <= 255 {
                Some(n as u8)
            } else {
                None
            },
            None => None,
        },
        None => None,
    }
}

/// The percentage a record reports, where it is a battery change record.
pub open spec fn battery_percentage_of(event: PersistedEvent) -> Option<u8> {
    if event.event_name@ == BATTERY_CHANGE_EVENT_NAME@ {
        match event.payload {
            PersistedEventPayload::Parsed { payload } => remaining_percentage(payload),
            _ => None,
        }
    } else {
        None
    }
}

/// Reads the percentage from a payload.
pub fn read_remaining_percentage(payload: &JsonValue) -> (r: Option<u8>)
    ensures
        r == remaining_percentage(*payload),
{
    let data = match payload.get("data") {
        Some(d) => d,
        None => {
            return None;
        },
    };
    let value = match data.get("RemainingPercentage") {
        Some(v) => v,
        None => {
            return None;
        },
    };
    match value.as_i64() {
        Some(n) => {
            if 0 <= n && n <= 255 {
                Some(n as u8)
            } else {
                None
            }
        },
        None => None,
    }
}

/// What the battery detector emits for a record.
pub open spec fn battery_detection(event: PersistedEvent) -> Option<
    Seq<(Timestamp, DetectedEventView)>,
> {
    match battery_percentage_of(event) {
        Some(p) => Some(
            seq![(event.timestamp, DetectedEventView::BatteryPercentageChange { battery_percentage: p })],
        ),
        None => None,
    }
}

impl EventDetector for BatteryEventDetector {
    open spec fn detection(&self, event: PersistedEvent) -> Option<
        Seq<(Timestamp, DetectedEventView)>,
    > {
        battery_detection(event)
    }

    fn process_event(
        &mut self,
        event: &PersistedEvent,
        _context: &EventTranscriptReadOnlyView,
    ) -> (r: Option<Vec<ProcessedEvent>>) {
        if !str_equals(event.event_name(), BATTERY_CHANGE_EVENT_NAME) {
            return None;
        }
        let payload = match event.payload() {
            PersistedEventPayload::Parsed { payload } => payload,
            _ => {
                return None;
            },
        };
        let battery_percentage = match read_remaining_percentage(payload) {
            Some(p) => p,
            None => {
                return None;
            },
        };
        let mut emitted = Vec::new();
        emitted.push(
            ProcessedEvent::new_with_random_id(
                *event.timestamp(),
                DetectedEvent::BatteryEvent(BatteryEvent::battery_percentage_change(battery_percentage)),
            ),
        );
        assert(envelopes(emitted@) =~= self.detection(*event)->0);
        Some(emitted)
    }
}

} // verus!
