use std::collections::HashMap;

use winspy::detectors::application::{
    read_app_identity, ApplicationEventDetector, ApplicationEventType,
};
use winspy::detectors::battery::{BatteryEventDetector, BatteryEventType};
use winspy::detectors::usb::{USBEvent, USBEventDetector};
use winspy::detectors::{
    AllDetectors, DetectedEvent, EventDetector, EventTranscriptProcessor,
    EventTranscriptReadOnlyView,
};
use winspy::json::JsonValue;
use winspy::models::persisted_event::PersistedEventPayload;
use winspy::models::persisted_event::{LoggingBinary, PersistedEvent};
use winspy::models::producer::ProducerId;
use winspy::models::provider_group::ProviderGroup;
use winspy::reader::classify_payload;
use winspy::time::Timestamp;

/// The document that payload text parses to, where it is JSON.
fn json_or_none(text: &str) -> Option<JsonValue> {
    match classify_payload(Some(text.to_string())) {
        PersistedEventPayload::Parsed { payload } => Some(payload),
        _ => None,
    }
}

const BATTERY_NAME: &str = "Microsoft.Windows.Kernel.Power.BatteryChargePercentageChange";
const APP_NAME: &str = "Win32kTraceLogging.AppInteractivitySummary";
const PNP_NAME: &str = "Microsoft.Windows.Inventory.Core.InventoryDevicePnpAdd";

fn record(name: &str, payload: Option<&str>, seconds: i64) -> PersistedEvent {
    PersistedEvent::new(
        "S-1-5-21".to_string(),
        Timestamp { seconds, nanos: 0 },
        classify_payload(payload.map(|p| p.to_string())),
        name.to_string(),
        77,
        true,
        ProviderGroup::new(3, "4F50731A-89CF-4782-B3E0-DCE8C90476BA".to_string()),
        LoggingBinary { name: "svchost.exe".to_string(), friendly_name: "Host".to_string() },
        ProducerId::new(1),
        Vec::new(),
        Vec::new(),
    )
}

fn empty_view() -> EventTranscriptReadOnlyView {
    EventTranscriptReadOnlyView {
        tags: HashMap::new(),
        producers: HashMap::new(),
        categories: HashMap::new(),
    }
}

fn app_payload(app_id: &str) -> String {
    format!(
        "{{\"time\":\"2024-01-01T00:00:10Z\",\"data\":{{\"AppId\":\"{}\",\"AppVersion\":\"x!y!ver.exe\",\
\"SinceFirstInteractivityMS\":5000,\"InFocusDurationMS\":1500,\"UserActiveDurationMS\":1200,\
\"FocusLostCount\":3,\"WindowWidth\":800,\"WindowHeight\":600,\"InputSec\":12,\
\"KeyboardInputSec\":5,\"MouseInputSec\":7,\"AudioInMS\":0,\"AudioOutMS\":2500}}}}",
        app_id
    )
}

fn battery_percentage(events: &[winspy::detectors::ProcessedEvent]) -> u8 {
    match &events[0].detected_event {
        DetectedEvent::BatteryEvent(e) => match e.kind {
            BatteryEventType::BatteryPercentageChange { battery_percentage } => battery_percentage,
        },
        other => panic!("not a battery event: {:?}", other),
    }
}

#[test]
fn battery_event_with_percentage_42() {
    let event = record(BATTERY_NAME, Some("{\"data\":{\"RemainingPercentage\": 42}}"), 100);
    let mut detector = BatteryEventDetector::new();
    let events = detector.process_event(&event, &empty_view()).unwrap();
    assert_eq!(events.len(), 1);
    assert_eq!(battery_percentage(&events), 42);
    assert_eq!(events[0].timestamp, Timestamp { seconds: 100, nanos: 0 });
}

#[test]
fn battery_percentage_out_of_range_gives_nothing() {
    let mut detector = BatteryEventDetector::new();
    let too_high = record(BATTERY_NAME, Some("{\"data\":{\"RemainingPercentage\": 300}}"), 1);
    assert!(detector.process_event(&too_high, &empty_view()).is_none());
    let negative = record(BATTERY_NAME, Some("{\"data\":{\"RemainingPercentage\": -1}}"), 1);
    assert!(detector.process_event(&negative, &empty_view()).is_none());
    let fractional = record(BATTERY_NAME, Some("{\"data\":{\"RemainingPercentage\": 4.5}}"), 1);
    assert!(detector.process_event(&fractional, &empty_view()).is_none());
}

#[test]
fn battery_percentage_bounds_are_kept() {
    let mut detector = BatteryEventDetector::new();
    let full = record(BATTERY_NAME, Some("{\"data\":{\"RemainingPercentage\": 255}}"), 1);
    assert_eq!(battery_percentage(&detector.process_event(&full, &empty_view()).unwrap()), 255);
    let empty = record(BATTERY_NAME, Some("{\"data\":{\"RemainingPercentage\": 0}}"), 1);
    assert_eq!(battery_percentage(&detector.process_event(&empty, &empty_view()).unwrap()), 0);
}

#[test]
fn battery_detector_ignores_other_event_names() {
    let mut detector = BatteryEventDetector::new();
    let event = record("Some.Other.Event", Some("{\"data\":{\"RemainingPercentage\": 42}}"), 1);
    assert!(detector.process_event(&event, &empty_view()).is_none());
}

#[test]
fn battery_detector_needs_a_parsed_object_payload() {
    let mut detector = BatteryEventDetector::new();
    let invalid = record(BATTERY_NAME, Some("not json"), 1);
    assert!(detector.process_event(&invalid, &empty_view()).is_none());
    let absent = record(BATTERY_NAME, None, 1);
    assert!(detector.process_event(&absent, &empty_view()).is_none());
    let no_data = record(BATTERY_NAME, Some("{\"RemainingPercentage\": 42}"), 1);
    assert!(detector.process_event(&no_data, &empty_view()).is_none());
    let data_not_object = record(BATTERY_NAME, Some("{\"data\": [42]}"), 1);
    assert!(detector.process_event(&data_not_object, &empty_view()).is_none());
    let text_value = record(BATTERY_NAME, Some("{\"data\":{\"RemainingPercentage\": \"42\"}}"), 1);
    assert!(detector.process_event(&text_value, &empty_view()).is_none());
}

fn closed_session(
    events: &[winspy::detectors::ProcessedEvent],
) -> &winspy::detectors::application::ApplicationClosedInner {
    match &events[0].detected_event {
        DetectedEvent::ApplicationEvent(e) => match &e.kind {
            ApplicationEventType::ApplicationClosed(inner) => inner,
        },
        other => panic!("not an application event: {:?}", other),
    }
}

#[test]
fn app_id_with_three_segments_gives_name_and_hash() {
    let event = record(APP_NAME, Some(&app_payload("abc!sha1hash!app.exe")), 50);
    let mut detector = ApplicationEventDetector::new();
    let events = detector.process_event(&event, &empty_view()).unwrap();
    assert_eq!(events.len(), 1);
    let inner = closed_session(&events);
    assert_eq!(inner.executable_name, "app.exe");
    assert_eq!(inner.executable_sha1_hash, Some("sha1hash".to_string()));
    assert_eq!(events[0].timestamp, Timestamp { seconds: 50, nanos: 0 });
}

#[test]
fn app_id_with_two_segments_reads_the_app_version() {
    let event = record(APP_NAME, Some(&app_payload("abc!app.exe")), 50);
    let mut detector = ApplicationEventDetector::new();
    let events = detector.process_event(&event, &empty_view()).unwrap();
    let inner = closed_session(&events);
    assert_eq!(inner.executable_name, "ver.exe");
    assert_eq!(inner.executable_sha1_hash, None);
}

#[test]
fn app_id_with_one_segment_gives_nothing() {
    let event = record(APP_NAME, Some(&app_payload("onlyonepart")), 50);
    let mut detector = ApplicationEventDetector::new();
    assert!(detector.process_event(&event, &empty_view()).is_none());
}

#[test]
fn app_identity_uses_the_last_two_of_many_segments() {
    let data = json_or_none("{\"AppId\":\"w!x!y!hash!tool.exe\"}").unwrap();
    let (name, hash) = read_app_identity(&data).unwrap();
    assert_eq!(name, "tool.exe");
    assert_eq!(hash, Some("hash".to_string()));
    let missing_version = json_or_none("{\"AppId\":\"abc!app.exe\"}").unwrap();
    assert!(read_app_identity(&missing_version).is_none());
}

#[test]
fn session_opened_five_seconds_before_it_closed() {
    let event = record(APP_NAME, Some(&app_payload("abc!sha1hash!app.exe")), 50);
    let mut detector = ApplicationEventDetector::new();
    let events = detector.process_event(&event, &empty_view()).unwrap();
    let inner = closed_session(&events);
    let opened = chrono::DateTime::parse_from_rfc3339("2024-01-01T00:00:05Z").unwrap();
    let closed = chrono::DateTime::parse_from_rfc3339("2024-01-01T00:00:10Z").unwrap();
    assert_eq!(inner.opened_at, Timestamp { seconds: opened.timestamp(), nanos: 0 });
    assert_eq!(inner.closed_at, Timestamp { seconds: closed.timestamp(), nanos: 0 });
}

#[test]
fn session_counters_are_copied() {
    let event = record(APP_NAME, Some(&app_payload("abc!sha1hash!app.exe")), 50);
    let mut detector = ApplicationEventDetector::new();
    let events = detector.process_event(&event, &empty_view()).unwrap();
    let inner = closed_session(&events);
    assert_eq!(inner.focus_duration_ms, 1500);
    assert_eq!(inner.user_active_duration_ms, 1200);
    assert_eq!(inner.number_of_focus_lost_events, 3);
    assert_eq!(inner.window_width, 800);
    assert_eq!(inner.window_height, 600);
    assert_eq!(inner.seconds_of_any_user_input, 12);
    assert_eq!(inner.seconds_of_keyboard_input, 5);
    assert_eq!(inner.seconds_of_mouse_input, 7);
    assert_eq!(inner.audio_recorded_ms, 0);
    assert_eq!(inner.audio_played_ms, 2500);
}

#[test]
fn session_with_a_negative_window_size_gives_nothing() {
    let payload = app_payload("abc!sha1hash!app.exe").replace("\"WindowWidth\":800", "\"WindowWidth\":-800");
    let event = record(APP_NAME, Some(&payload), 50);
    let mut detector = ApplicationEventDetector::new();
    assert!(detector.process_event(&event, &empty_view()).is_none());
}

#[test]
fn session_with_a_missing_counter_gives_nothing() {
    let payload = app_payload("abc!sha1hash!app.exe").replace("\"AudioOutMS\":2500", "\"Other\":1");
    let event = record(APP_NAME, Some(&payload), 50);
    let mut detector = ApplicationEventDetector::new();
    assert!(detector.process_event(&event, &empty_view()).is_none());
}

#[test]
fn session_with_a_malformed_time_gives_nothing() {
    let payload = app_payload("abc!sha1hash!app.exe").replace("2024-01-01T00:00:10Z", "yesterday");
    let event = record(APP_NAME, Some(&payload), 50);
    let mut detector = ApplicationEventDetector::new();
    assert!(detector.process_event(&event, &empty_view()).is_none());
}

fn usb_payload(class: &str) -> String {
    format!(
        "{{\"data\":{{\"Class\":\"{}\",\"Description\":\"Mass Storage\",\"Service\":\"USBSTOR\",\"MatchingID\":\"USB\\\\VID_0781\"}}}}",
        class
    )
}

#[test]
fn usb_class_device_is_added() {
    let event = record(PNP_NAME, Some(&usb_payload("usb.pnp")), 9);
    let mut detector = USBEventDetector::new();
    let events = detector.process_event(&event, &empty_view()).unwrap();
    assert_eq!(events.len(), 1);
    match &events[0].detected_event {
        DetectedEvent::UsbEvent(USBEvent::Added(added)) => {
            assert_eq!(added.device_id, "USB\\VID_0781");
            assert_eq!(added.service, "USBSTOR");
            assert_eq!(added.description, "Mass Storage");
        },
        other => panic!("not a usb event: {:?}", other),
    }
    assert!(detector.skipped_classes().is_empty());
}

#[test]
fn bluetooth_device_is_skipped_with_a_notice() {
    let event = record(PNP_NAME, Some(&usb_payload("bluetooth")), 9);
    let mut detector = USBEventDetector::new();
    assert!(detector.process_event(&event, &empty_view()).is_none());
    assert_eq!(detector.skipped_classes(), &vec!["bluetooth".to_string()]);
}

#[test]
fn usb_detector_matches_the_name_by_substring() {
    let name = format!("Prefix.{}.Suffix", PNP_NAME);
    let event = record(&name, Some(&usb_payload("USBDevice.usb")), 9);
    let mut detector = USBEventDetector::new();
    assert!(detector.process_event(&event, &empty_view()).is_some());
    let unrelated = record("Microsoft.Windows.Inventory.Core", Some(&usb_payload("usb")), 9);
    assert!(detector.process_event(&unrelated, &empty_view()).is_none());
}

#[test]
fn usb_class_match_is_case_sensitive() {
    let event = record(PNP_NAME, Some(&usb_payload("USB")), 9);
    let mut detector = USBEventDetector::new();
    assert!(detector.process_event(&event, &empty_view()).is_none());
    assert_eq!(detector.skipped_classes(), &vec!["USB".to_string()]);
}

#[test]
fn usb_device_without_a_service_gives_nothing_and_no_notice() {
    let payload = "{\"data\":{\"Class\":\"usb\",\"Description\":\"d\",\"MatchingID\":\"m\"}}";
    let event = record(PNP_NAME, Some(payload), 9);
    let mut detector = USBEventDetector::new();
    assert!(detector.process_event(&event, &empty_view()).is_none());
    assert!(detector.skipped_classes().is_empty());
}

fn kinds(events: &[winspy::detectors::ProcessedEvent]) -> Vec<&'static str> {
    events
        .iter()
        .map(|e| match e.detected_event {
            DetectedEvent::BatteryEvent(_) => "battery",
            DetectedEvent::ApplicationEvent(_) => "application",
            DetectedEvent::UsbEvent(_) => "usb",
        })
        .collect()
}

#[test]
fn aggregated_events_keep_record_order() {
    let records = vec![
        record(BATTERY_NAME, Some("{\"data\":{\"RemainingPercentage\": 42}}"), 1),
        record("Unrelated.Event", Some("{}"), 2),
        record(APP_NAME, Some(&app_payload("abc!sha1hash!app.exe")), 3),
        record(PNP_NAME, Some(&usb_payload("usb")), 4),
        record(BATTERY_NAME, Some("{\"data\":{\"RemainingPercentage\": 7}}"), 5),
    ];
    let processor = EventTranscriptProcessor::from_loaded(records, Vec::new(), Vec::new(), Vec::new());
    let events = processor.process_events(&mut AllDetectors::new());
    assert_eq!(kinds(&events), vec!["battery", "application", "usb", "battery"]);
    let times: Vec<i64> = events.iter().map(|e| e.timestamp.seconds).collect();
    assert_eq!(times, vec![1, 3, 4, 5]);
    assert_eq!(battery_percentage(&events[3..]), 7);
}

#[test]
fn all_detectors_give_nothing_for_an_unmatched_record() {
    let mut detectors = AllDetectors::new();
    let event = record("Unrelated.Event", Some("{}"), 2);
    assert!(detectors.process_event(&event, &empty_view()).is_none());
}

#[test]
fn processed_events_get_distinct_ids() {
    let records = vec![
        record(BATTERY_NAME, Some("{\"data\":{\"RemainingPercentage\": 1}}"), 1),
        record(BATTERY_NAME, Some("{\"data\":{\"RemainingPercentage\": 2}}"), 2),
    ];
    let processor = EventTranscriptProcessor::from_loaded(records, Vec::new(), Vec::new(), Vec::new());
    let events = processor.process_events(&mut AllDetectors::new());
    assert_eq!(events.len(), 2);
    assert_ne!(events[0].id, events[1].id);
}

#[test]
fn no_records_give_no_events() {
    let processor = EventTranscriptProcessor::from_loaded(Vec::new(), Vec::new(), Vec::new(), Vec::new());
    assert!(processor.process_events(&mut AllDetectors::new()).is_empty());
}

#[test]
fn aggregated_run_keeps_skip_notices_in_record_order() {
    let records = vec![
        record(PNP_NAME, Some(&usb_payload("bluetooth")), 1),
        record(PNP_NAME, Some(&usb_payload("usb")), 2),
        record(PNP_NAME, Some(&usb_payload("hid")), 3),
    ];
    let processor = EventTranscriptProcessor::from_loaded(records, Vec::new(), Vec::new(), Vec::new());
    let mut detectors = AllDetectors::new();
    let events = processor.process_events(&mut detectors);
    assert_eq!(kinds(&events), vec!["usb"]);
    assert_eq!(
        detectors.usb.skipped_classes(),
        &vec!["bluetooth".to_string(), "hid".to_string()]
    );
}
