//! The application-session detector: summaries of an application's
//! interactive session, emitted when the session closes.
use vstd::prelude::*;
use crate::detectors::{
    envelopes, DetectedEvent, DetectedEventView, EventDetector, EventTranscriptReadOnlyView,
    ProcessedEvent,
};
use crate::json::JsonValue;
use crate::models::persisted_event::{PersistedEvent, PersistedEventPayload};
use crate::text::{lemma_split_on_nonempty, split_on, str_equals, str_split};
use crate::time::{checked_sub_millis, minus_millis, rfc3339_timestamp, Timestamp};

verus! {

/// A closed application session. Durations keep the store's units:
/// milliseconds where the name says so, whole seconds for input times.
#[derive(Debug)]
pub struct ApplicationClosedInner {
    pub executable_name: String,
    pub executable_sha1_hash: Option<String>,
    pub opened_at: Timestamp,
    pub closed_at: Timestamp,
    pub focus_duration_ms: i64,
    pub user_active_duration_ms: i64,
    pub number_of_focus_lost_events: u64,
    pub window_height: u64,
    pub window_width: u64,
    pub seconds_of_mouse_input: i64,
    pub seconds_of_keyboard_input: i64,
    pub seconds_of_any_user_input: i64,
    pub audio_recorded_ms: i64,
    pub audio_played_ms: i64,
}

/// What a closed session holds, with its text as character sequences.
pub struct ApplicationClosedView {
    pub executable_name: Seq<char>,
    pub executable_sha1_hash: Option<Seq<char>>,
    pub opened_at: Timestamp,
    pub closed_at: Timestamp,
    pub focus_duration_ms: i64,
    pub user_active_duration_ms: i64,
    pub number_of_focus_lost_events: u64,
    pub window_height: u64,
    pub window_width: u64,
    pub seconds_of_mouse_input: i64,
    pub seconds_of_keyboard_input: i64,
    pub seconds_of_any_user_input: i64,
    pub audio_recorded_ms: i64,
    pub audio_played_ms: i64,
}

/// The characters of an optional text.
pub open spec fn optional_text(t: Option<String>) -> Option<Seq<char>> {
    match t {
        Some(s) => Some(s@),
        None => None,
    }
}

impl View for ApplicationClosedInner {
    type V = ApplicationClosedView;

    open spec fn view(&self) -> ApplicationClosedView {
        ApplicationClosedView {
            executable_name: self.executable_name@,
            executable_sha1_hash: optional_text(self.executable_sha1_hash),
            opened_at: self.opened_at,
            closed_at: self.closed_at,
            focus_duration_ms: self.focus_duration_ms,
            user_active_duration_ms: self.user_active_duration_ms,
            number_of_focus_lost_events: self.number_of_focus_lost_events,
            window_height: self.window_height,
            window_width: self.window_width,
            seconds_of_mouse_input: self.seconds_of_mouse_input,
            seconds_of_keyboard_input: self.seconds_of_keyboard_input,
            seconds_of_any_user_input: self.seconds_of_any_user_input,
            audio_recorded_ms: self.audio_recorded_ms,
            audio_played_ms: self.audio_played_ms,
        }
    }
}

#[derive(Debug)]
pub enum ApplicationEventType {
    ApplicationClosed(ApplicationClosedInner),
}

impl View for ApplicationEventType {
    type V = ApplicationClosedView;

    open spec fn view(&self) -> ApplicationClosedView {
        match self {
            ApplicationEventType::ApplicationClosed(inner) => inner@,
        }
    }
}

#[derive(Debug)]
pub struct ApplicationEvent {
    pub kind: ApplicationEventType,
}

impl ApplicationEvent {
    pub fn application_closed(info: ApplicationClosedInner) -> (r: Self)
        ensures
            r.kind == ApplicationEventType::ApplicationClosed(info),
    {
        ApplicationEvent { kind: ApplicationEventType::ApplicationClosed(info) }
    }
}

impl From<ApplicationEvent> for DetectedEvent {
    fn from(value: ApplicationEvent) -> (r: DetectedEvent) {
        DetectedEvent::ApplicationEvent(value)
    }
}

impl vstd::std_specs::convert::FromSpecImpl<ApplicationEvent> for DetectedEvent {
    open spec fn obeys_from_spec() -> bool {
        true
    }

    open spec fn from_spec(v: ApplicationEvent) -> DetectedEvent {
        DetectedEvent::ApplicationEvent(v)
    }
}

/// Detects closed application sessions.
pub struct ApplicationEventDetector {}

impl ApplicationEventDetector {
    pub fn new() -> (r: Self) {
        ApplicationEventDetector {  }
    }
}

pub const APP_INTERACTIVITY_SUMMARY_EVENT_NAME: &'static str = "Win32kTraceLogging.AppInteractivitySummary";

/// The text of the member `key`, where it is a string.
pub open spec fn text_field(object: JsonValue, key: Seq<char>) -> Option<Seq<char>> {
    match object.field(key) {
        Some(v) => v.text_value(),
        None => None,
    }
}

/// The integer of the member `key`, where it fits in `i64`.
pub open spec fn int_field(object: JsonValue, key: Seq<char>) -> Option<i64> {
    match object.field(key) {
        Some(v) => v.int_value(),
        None => None,
    }
}

/// The integer of the member `key`, where it is not negative.
pub open spec fn count_field(object: JsonValue, key: Seq<char>) -> Option<u64> {
    match int_field(object, key) {
        Some(n) => if n >= 0 {
            Some(n as u64)
        } else {
            None
        },
        None => None,
    }
}

/// The executable name and content hash that a compound `AppId` gives.
/// Split on `!`: with two segments the name is the last segment of
/// `AppVersion` and there is no hash; with more, the last two segments are
/// the hash and the name; with fewer there is no identity.
pub open spec fn app_identity(data: JsonValue) -> Option<(Seq<char>, Option<Seq<char>>)> {
    match text_field(data, "AppId"@) {
        None => None,
        Some(app_id) => {
            let parts = split_on(app_id, '!');
            if parts.len() < 2 {
                None
            } else if parts.len() == 2 {
                match text_field(data, "AppVersion"@) {
                    Some(version) => Some((split_on(version, '!').last(), None)),
                    None => None,
                }
            } else {
                Some((parts[parts.len() - 1], Some(parts[parts.len() - 2])))
            }
        },
    }
}

/// When the session opened and closed: it closed at the payload's `time`,
/// and opened `SinceFirstInteractivityMS` milliseconds before.
pub open spec fn session_times(payload: JsonValue, data: JsonValue) -> Option<
    (Timestamp, Timestamp),
> {
    match text_field(payload, "time"@) {
        None => None,
        Some(text) => match rfc3339_timestamp(text) {
            None => None,
            Some(closed_at) => match int_field(data, "SinceFirstInteractivityMS"@) {
                None => None,
                Some(ms) => match minus_millis(closed_at, ms) {
                    Some(opened_at) => Some((opened_at, closed_at)),
                    None => None,
                },
            },
        },
    }
}

/// The session summary that a payload holds, where every field is present
/// and well-formed.
pub open spec fn session_summary(payload: JsonValue) -> Option<ApplicationClosedView> {
    match payload.field("data"@) {
        None => None,
        Some(data) => {
            let identity = app_identity(data);
            let times = session_times(payload, data);
            let focus = int_field(data, "InFocusDurationMS"@);
            let active = int_field(data, "UserActiveDurationMS"@);
            let focus_lost = count_field(data, "FocusLostCount"@);
            let width = count_field(data, "WindowWidth"@);
            let height = count_field(data, "WindowHeight"@);
            let input = int_field(data, "InputSec"@);
            let keyboard = int_field(data, "KeyboardInputSec"@);
            let mouse = int_field(data, "MouseInputSec"@);
            let audio_in = int_field(data, "AudioInMS"@);
            let audio_out = int_field(data, "AudioOutMS"@);
            if identity is Some && times is Some && focus is Some && active is Some
                && focus_lost is Some && width is Some && height is Some && input is Some
                && keyboard is Some && mouse is Some && audio_in is Some && audio_out is Some {
                Some(
                    ApplicationClosedView {
                        executable_name: (identity->0).0,
                        executable_sha1_hash: (identity->0).1,
                        opened_at: (times->0).0,
                        closed_at: (times->0).1,
                        focus_duration_ms: focus->0,
                        user_active_duration_ms: active->0,
                        number_of_focus_lost_events: focus_lost->0,
                        window_height: height->0,
                        window_width: width->0,
                        seconds_of_mouse_input: mouse->0,
                        seconds_of_keyboard_input: keyboard->0,
                        seconds_of_any_user_input: input->0,
                        audio_recorded_ms: audio_in->0,
                        audio_played_ms: audio_out->0,
                    },
                )
            } else {
                None
            }
        },
    }
}

/// The session summary a record holds, where it is an interactivity summary.
pub open spec fn application_summary_of(event: PersistedEvent) -> Option<ApplicationClosedView> {
    if event.event_name@ == APP_INTERACTIVITY_SUMMARY_EVENT_NAME@ {
        match event.payload {
            PersistedEventPayload::Parsed { payload } => session_summary(payload),
            _ => None,
        }
    } else {
        None
    }
}

/// The text of the member `key`, where it is a string.
pub fn text_member<'a>(object: &'a JsonValue, key: &str) -> (r: Option<&'a str>)
    ensures
        r is None <==> text_field(*object, key@) is None,
        r matches Some(s) ==> text_field(*object, key@) == Some(s@),
{
    match object.get(key) {
        Some(v) => v.as_str(),
        None => None,
    }
}

/// The integer of the member `key`, where it fits in `i64`.
pub fn int_member(object: &JsonValue, key: &str) -> (r: Option<i64>)
    ensures
        r == int_field(*object, key@),
{
    match object.get(key) {
        Some(v) => v.as_i64(),
        None => None,
    }
}

/// The integer of the member `key`, where it is not negative.
pub fn count_member(object: &JsonValue, key: &str) -> (r: Option<u64>)
    ensures
        r == count_field(*object, key@),
{
    match int_member(object, key) {
        Some(n) => {
            if n >= 0 {
                Some(n as u64)
            } else {
                None
            }
        },
        None => None,
    }
}

/// Reads the executable name and content hash from a compound `AppId`.
pub fn read_app_identity(data: &JsonValue) -> (r: Option<(String, Option<String>)>)
    ensures
        r is None <==> app_identity(*data) is None,
        r matches Some(p) ==> app_identity(*data) == Some((p.0@, optional_text(p.1))),
{
    let app_id = match text_member(data, "AppId") {
        Some(t) => t,
        None => {
            return None;
        },
    };
    let parts = str_split(app_id, '!');
    if parts.len() < 2 {
        return None;
    }
    if parts.len() == 2 {
        let version = match text_member(data, "AppVersion") {
            Some(t) => t,
            None => {
                return None;
            },
        };
        let version_parts = str_split(version, '!');
        proof {
            lemma_split_on_nonempty(version@, '!');
        }
        let name = version_parts[version_parts.len() - 1].clone();
        Some((name, None))
    } else {
        let name = parts[parts.len() - 1].clone();
        let hash = parts[parts.len() - 2].clone();
        Some((name, Some(hash)))
    }
}

/// Reads when the session opened and closed.
pub fn read_session_times(payload: &JsonValue, data: &JsonValue) -> (r: Option<
    (Timestamp, Timestamp),
>)
    ensures
        r == session_times(*payload, *data),
{
    let text = match text_member(payload, "time") {
        Some(t) => t,
        None => {
            return None;
        },
    };
    let closed_at = match Timestamp::parse_rfc3339(text) {
        Some(t) => t,
        None => {
            return None;
        },
    };
    let since_first_interactivity_ms = match int_member(data, "SinceFirstInteractivityMS") {
        Some(ms) => ms,
        None => {
            return None;
        },
    };
    match checked_sub_millis(closed_at, since_first_interactivity_ms) {
        Some(opened_at) => Some((opened_at, closed_at)),
        None => None,
    }
}

/// Reads the session summary from an interactivity-summary payload.
pub fn read_session_summary(payload: &JsonValue) -> (r: Option<ApplicationClosedInner>)
    ensures
        r is None <==> session_summary(*payload) is None,
        r matches Some(inner) ==> session_summary(*payload) == Some(inner@),
{
    let data = match payload.get("data") {
        Some(d) => d,
        None => {
            return None;
        },
    };
    let identity = read_app_identity(data);
    let times = read_session_times(payload, data);
    let focus = int_member(data, "InFocusDurationMS");
    let active = int_member(data, "UserActiveDurationMS");
    let focus_lost = count_member(data, "FocusLostCount");
    let width = count_member(data, "WindowWidth");
    let height = count_member(data, "WindowHeight");
    let input = int_member(data, "InputSec");
    let keyboard = int_member(data, "KeyboardInputSec");
    let mouse = int_member(data, "MouseInputSec");
    let audio_in = int_member(data, "AudioInMS");
    let audio_out = int_member(data, "AudioOutMS");
    match (
        identity,
        times,
        focus,
        active,
        focus_lost,
        width,
        height,
        input,
        keyboard,
        mouse,
        audio_in,
        audio_out,
    ) {
        (
            Some((executable_name, executable_sha1_hash)),
            Some((opened_at, closed_at)),
            Some(focus_duration_ms),
            Some(user_active_duration_ms),
            Some(number_of_focus_lost_events),
            Some(window_width),
            Some(window_height),
            Some(seconds_of_any_user_input),
            Some(seconds_of_keyboard_input),
            Some(seconds_of_mouse_input),
            Some(audio_recorded_ms),
            Some(audio_played_ms),
        ) => Some(
            ApplicationClosedInner {
                executable_name,
                executable_sha1_hash,
                opened_at,
                closed_at,
                focus_duration_ms,
                user_active_duration_ms,
                number_of_focus_lost_events,
                window_height,
                window_width,
                seconds_of_mouse_input,
                seconds_of_keyboard_input,
                seconds_of_any_user_input,
                audio_recorded_ms,
                audio_played_ms,
            },
        ),
        _ => None,
    }
}

/// What the application-session detector emits for a record.
pub open spec fn application_detection(event: PersistedEvent) -> Option<
    Seq<(Timestamp, DetectedEventView)>,
> {
    match application_summary_of(event) {
        Some(v) => Some(seq![(event.timestamp, DetectedEventView::ApplicationClosed(v))]),
        None => None,
    }
}

impl EventDetector for ApplicationEventDetector {
    open spec fn detection(&self, event: PersistedEvent) -> Option<
        Seq<(Timestamp, DetectedEventView)>,
    > {
        application_detection(event)
    }

    fn process_event(
        &mut self,
        event: &PersistedEvent,
        _context: &EventTranscriptReadOnlyView,
    ) -> (r: Option<Vec<ProcessedEvent>>) {
        if !str_equals(event.event_name(), APP_INTERACTIVITY_SUMMARY_EVENT_NAME) {
            return None;
        }
        let payload = match event.payload() {
            PersistedEventPayload::Parsed { payload } => payload,
            _ => {
                return None;
            },
        };
        let inner = match read_session_summary(payload) {
            Some(i) => i,
            None => {
                return None;
            },
        };
        let mut emitted = Vec::new();
        emitted.push(
            ProcessedEvent::new_with_random_id(
                *event.timestamp(),
                DetectedEvent::ApplicationEvent(ApplicationEvent::application_closed(inner)),
            ),
        );
        assert(envelopes(emitted@) =~= self.detection(*event)->0);
        Some(emitted)
    }
}

} // verus!
