//! The USB detector: devices of a USB class added to the device inventory.
use vstd::prelude::*;
use crate::detectors::application::{text_field, text_member};
use crate::detectors::{
    envelopes, DetectedEvent, DetectedEventView, EventDetector, EventTranscriptReadOnlyView,
    ProcessedEvent,
};
use crate::models::persisted_event::{PersistedEvent, PersistedEventPayload};
use crate::text::{contains_chars, str_contains};
use crate::time::Timestamp;

verus! {

/// A USB device added to the inventory.
#[derive(Debug)]
pub struct USBAddedEvent {
    pub device_id: String,
    pub service: String,
    pub description: String,
}

/// What an added USB device holds, with its text as character sequences.
pub struct USBAddedView {
    pub device_id: Seq<char>,
    pub service: Seq<char>,
    pub description: Seq<char>,
}

impl View for USBAddedEvent {
    type V = USBAddedView;

    open spec fn view(&self) -> USBAddedView {
        USBAddedView {
            device_id: self.device_id@,
            service: self.service@,
            description: self.description@,
        }
    }
}

impl USBAddedEvent {
    pub fn new(device_id: String, service: String, description: String) -> (r: Self)
        ensures
            r.device_id == device_id,
            r.service == service,
            r.description == description,
    {
        USBAddedEvent { device_id, service, description }
    }
}

#[derive(Debug)]
pub enum USBEvent {
    Added(USBAddedEvent),
}

impl View for USBEvent {
    type V = USBAddedView;

    open spec fn view(&self) -> USBAddedView {
        match self {
            USBEvent::Added(e) => e@,
        }
    }
}

impl From<USBEvent> for DetectedEvent {
    fn from(value: USBEvent) -> (r: DetectedEvent) {
        DetectedEvent::UsbEvent(value)
    }
}

impl vstd::std_specs::convert::FromSpecImpl<USBEvent> for DetectedEvent {
    open spec fn obeys_from_spec() -> bool {
        true
    }

    open spec fn from_spec(v: USBEvent) -> DetectedEvent {
        DetectedEvent::UsbEvent(v)
    }
}

/// The substring of the event names of device-inventory additions.
pub const PNP_ADD_EVENT_NAME_PART: &'static str = "Microsoft.Windows.Inventory.Core.InventoryDevicePnpAdd";

/// The substring a device class must hold to count as USB.
pub const USB_CLASS_MARKER: &'static str = "usb";

/// What examining a record for an added USB device finds.
pub enum UsbRecordView {
    NotApplicable,
    /// An inventory addition of a device whose class is not USB.
    SkippedClass(Seq<char>),
    Added(USBAddedView),
}

/// What examining a record for an added USB device finds, in the library's
/// values.
#[derive(Debug)]
pub enum UsbRecord {
    NotApplicable,
    SkippedClass(String),
    Added(USBAddedEvent),
}

impl View for UsbRecord {
    type V = UsbRecordView;

    open spec fn view(&self) -> UsbRecordView {
        match self {
            UsbRecord::NotApplicable => UsbRecordView::NotApplicable,
            UsbRecord::SkippedClass(c) => UsbRecordView::SkippedClass(c@),
            UsbRecord::Added(e) => UsbRecordView::Added(e@),
        }
    }
}

/// What a record holds: a device-inventory addition whose `data.Class`
/// holds "usb" and that has `Description`, `Service` and `MatchingID`
/// strings is an added USB device; one whose class does not hold "usb" is
/// skipped with its class; anything else does not apply.
pub open spec fn usb_outcome(event: PersistedEvent) -> UsbRecordView {
    if !contains_chars(event.event_name@, PNP_ADD_EVENT_NAME_PART@) {
        UsbRecordView::NotApplicable
    } else {
        match event.payload {
            PersistedEventPayload::Parsed { payload } => match payload.field("data"@) {
                None => UsbRecordView::NotApplicable,
                Some(data) => match text_field(data, "Class"@) {
                    None => UsbRecordView::NotApplicable,
                    Some(class) => if !contains_chars(class, USB_CLASS_MARKER@) {
                        UsbRecordView::SkippedClass(class)
                    } else {
                        match (
                            text_field(data, "Description"@),
                            text_field(data, "Service"@),
                            text_field(data, "MatchingID"@),
                        ) {
                            (Some(description), Some(service), Some(device_id)) => {
                                UsbRecordView::Added(
                                    USBAddedView { device_id, service, description },
                                )
                            },
                            _ => UsbRecordView::NotApplicable,
                        }
                    },
                },
            },
            _ => UsbRecordView::NotApplicable,
        }
    }
}

/// Examines a record for an added USB device.
pub fn examine_usb_record(event: &PersistedEvent) -> (r: UsbRecord)
    ensures
        r@ == usb_outcome(*event),
{
    if !event.event_name_contains(PNP_ADD_EVENT_NAME_PART) {
        return UsbRecord::NotApplicable;
    }
    let payload = match event.payload() {
        PersistedEventPayload::Parsed { payload } => payload,
        _ => {
            return UsbRecord::NotApplicable;
        },
    };
    let data = match payload.get("data") {
        Some(d) => d,
        None => {
            return UsbRecord::NotApplicable;
        },
    };
    let class = match text_member(data, "Class") {
        Some(c) => c,
        None => {
            return UsbRecord::NotApplicable;
        },
    };
    if !str_contains(class, USB_CLASS_MARKER) {
        return UsbRecord::SkippedClass(class.to_string());
    }
    match (
        text_member(data, "Description"),
        text_member(data, "Service"),
        text_member(data, "MatchingID"),
    ) {
        (Some(description), Some(service), Some(device_id)) => UsbRecord::Added(
            USBAddedEvent::new(device_id.to_string(), service.to_string(), description.to_string()),
        ),
        _ => UsbRecord::NotApplicable,
    }
}

/// The characters of each class name.
pub open spec fn class_texts(classes: Seq<String>) -> Seq<Seq<char>> {
    classes.map_values(|c: String| c@)
}

/// The informational notice a record gives: the class of a skipped
/// inventory addition.
pub open spec fn skip_notice(event: PersistedEvent) -> Seq<Seq<char>> {
    match usb_outcome(event) {
        UsbRecordView::SkippedClass(class) => seq![class],
        _ => Seq::empty(),
    }
}

/// Detects USB devices added to the device inventory, and keeps the classes
/// of the inventory additions it skipped as informational notices.
pub struct USBEventDetector {
    pub skipped_classes: Vec<String>,
}

impl USBEventDetector {
    pub fn new() -> (r: Self)
        ensures
            r.skipped_classes@.len() == 0,
    {
        USBEventDetector { skipped_classes: Vec::new() }
    }

    /// The classes of the inventory additions skipped so far, in order.
    pub fn skipped_classes(&self) -> (r: &Vec<String>)
        ensures
            r == &self.skipped_classes,
    {
        &self.skipped_classes
    }
}

/// What the USB detector emits for a record.
pub open spec fn usb_detection(event: PersistedEvent) -> Option<Seq<(Timestamp, DetectedEventView)>> {
    match usb_outcome(event) {
        UsbRecordView::Added(v) => Some(seq![(event.timestamp, DetectedEventView::UsbAdded(v))]),
        _ => None,
    }
}

impl EventDetector for USBEventDetector {
    open spec fn detection(&self, event: PersistedEvent) -> Option<
        Seq<(Timestamp, DetectedEventView)>,
    > {
        usb_detection(event)
    }

    fn process_event(
        &mut self,
        event: &PersistedEvent,
        _context: &EventTranscriptReadOnlyView,
    ) -> (r: Option<Vec<ProcessedEvent>>)
        ensures
            class_texts(final(self).skipped_classes@) == class_texts(old(self).skipped_classes@)
                + skip_notice(*event),
    {
        match examine_usb_record(event) {
            UsbRecord::NotApplicable => {
                assert(class_texts(self.skipped_classes@) =~= class_texts(old(self).skipped_classes@)
                    + skip_notice(*event));
                None
            },
            UsbRecord::SkippedClass(class) => {
                self.skipped_classes.push(class);
                assert(class_texts(self.skipped_classes@) =~= class_texts(old(self).skipped_classes@)
                    + skip_notice(*event));
                None
            },
            UsbRecord::Added(added) => {
                let mut emitted = Vec::new();
                emitted.push(
                    ProcessedEvent::new_with_random_id(
                        *event.timestamp(),
                        DetectedEvent::UsbEvent(USBEvent::Added(added)),
                    ),
                );
                assert(envelopes(emitted@) =~= self.detection(*event)->0);
                assert(class_texts(self.skipped_classes@) =~= class_texts(old(self).skipped_classes@)
                    + skip_notice(*event));
                Some(emitted)
            },
        }
    }
}

} // verus!
