//! The detector framework: recognizers of telemetry schemas, the read-only
//! view of the reference tables they receive, and the aggregator that drives
//! every record through every detector.
use std::collections::HashMap;
use vstd::prelude::*;
use crate::detectors::application::{
    application_detection, ApplicationClosedView, ApplicationEvent, ApplicationEventDetector,
};
use crate::detectors::battery::{battery_detection, BatteryEvent, BatteryEventDetector};
use crate::detectors::usb::{
    class_texts, skip_notice, usb_detection, USBAddedView, USBEvent, USBEventDetector,
};
use crate::models::category::{Category, CategoryId};
use crate::models::persisted_event::PersistedEvent;
use crate::models::producer::{Producer, ProducerId};
use crate::models::tag_description::{TagDescription, TagDescriptionId};
use crate::time::Timestamp;

pub mod application;
pub mod battery;
pub mod edge;
pub mod usb;

verus! {

/// An event recognized in a record, one variant per understood schema.
#[derive(Debug)]
pub enum DetectedEvent {
    BatteryEvent(BatteryEvent),
    ApplicationEvent(ApplicationEvent),
    UsbEvent(USBEvent),
}

/// What a detected event holds, with its text as character sequences.
pub enum DetectedEventView {
    BatteryPercentageChange { battery_percentage: u8 },
    ApplicationClosed(ApplicationClosedView),
    UsbAdded(USBAddedView),
}

impl View for DetectedEvent {
    type V = DetectedEventView;

    open spec fn view(&self) -> DetectedEventView {
        match self {
            DetectedEvent::BatteryEvent(e) => e.kind.view_as_detected(),
            DetectedEvent::ApplicationEvent(e) => DetectedEventView::ApplicationClosed(e.kind@),
            DetectedEvent::UsbEvent(e) => DetectedEventView::UsbAdded(e@),
        }
    }
}

/// A detected event with a fresh unique identifier and its occurrence time.
#[derive(Debug)]
pub struct ProcessedEvent {
    pub id: uuid::Uuid,
    pub timestamp: Timestamp,
    pub detected_event: DetectedEvent,
}

#[verifier::external_type_specification]
#[verifier::external_body]
pub struct ExUuid(uuid::Uuid);

/// Relies on `uuid::Uuid::new_v4`: a random version-4 identifier, of which
/// nothing is promised.
pub assume_specification[ uuid::Uuid::new_v4 ]() -> uuid::Uuid;

impl ProcessedEvent {
    /// Wraps `event` with a freshly generated identifier.
    pub fn new_with_random_id(timestamp: Timestamp, event: DetectedEvent) -> (r: Self)
        ensures
            r.timestamp == timestamp,
            r.detected_event == event,
    {
        ProcessedEvent { id: uuid::Uuid::new_v4(), timestamp, detected_event: event }
    }

    /// The occurrence time and the event, without the identifier.
    pub open spec fn envelope(self) -> (Timestamp, DetectedEventView) {
        (self.timestamp, self.detected_event@)
    }
}

/// The occurrence times and events of a sequence of processed events.
pub open spec fn envelopes(events: Seq<ProcessedEvent>) -> Seq<(Timestamp, DetectedEventView)> {
    events.map_values(|e: ProcessedEvent| e.envelope())
}

/// Whether `r` is what a detector returns when its detection is `d`: nothing
/// where it does not apply, else events in the detection's order.
pub open spec fn emits(
    r: Option<Vec<ProcessedEvent>>,
    d: Option<Seq<(Timestamp, DetectedEventView)>>,
) -> bool {
    match d {
        None => r is None,
        Some(s) => r matches Some(v) && envelopes(v@) == s,
    }
}

/// A read-only view of the reference tables, keyed by identifier.
pub struct EventTranscriptReadOnlyView {
    pub tags: HashMap<i64, TagDescription>,
    pub producers: HashMap<i64, Producer>,
    pub categories: HashMap<i64, Category>,
}

impl EventTranscriptReadOnlyView {
    pub fn tag_by_id(&self, tag_id: TagDescriptionId) -> (r: Option<&TagDescription>)
        ensures
            r is None <==> !self.tags@.contains_key(tag_id.0),
            r matches Some(t) ==> self.tags@[tag_id.0] == *t,
    {
        broadcast use vstd::std_specs::hash::group_hash_axioms;

        self.tags.get(&tag_id.0)
    }

    pub fn producer_by_id(&self, producer_id: ProducerId) -> (r: Option<&Producer>)
        ensures
            r is None <==> !self.producers@.contains_key(producer_id.0),
            r matches Some(p) ==> self.producers@[producer_id.0] == *p,
    {
        broadcast use vstd::std_specs::hash::group_hash_axioms;

        self.producers.get(&producer_id.0)
    }

    pub fn category_by_id(&self, category_id: CategoryId) -> (r: Option<&Category>)
        ensures
            r is None <==> !self.categories@.contains_key(category_id.0),
            r matches Some(c) ==> self.categories@[category_id.0] == *c,
    {
        broadcast use vstd::std_specs::hash::group_hash_axioms;

        self.categories.get(&category_id.0)
    }
}

/// A recognizer of one telemetry schema.
pub trait EventDetector {
    /// The events the detector emits for `event`, with their occurrence
    /// times; none where it does not apply.
    spec fn detection(&self, event: PersistedEvent) -> Option<Seq<(Timestamp, DetectedEventView)>>;

    /// Recognizes `event` and decodes the events it carries.
    fn process_event(
        &mut self,
        event: &PersistedEvent,
        context: &EventTranscriptReadOnlyView,
    ) -> (r: Option<Vec<ProcessedEvent>>)
        ensures
            emits(r, old(self).detection(*event)),
    ;
}

/// The events of a detection, none where it did not apply.
pub open spec fn emitted_or_empty(d: Option<Seq<(Timestamp, DetectedEventView)>>) -> Seq<
    (Timestamp, DetectedEventView),
> {
    match d {
        Some(s) => s,
        None => Seq::empty(),
    }
}

/// The occurrence times of processed events are kept and their events
/// follow one another: the envelopes of a concatenation are the
/// concatenation of the envelopes.
pub proof fn lemma_envelopes_concat(a: Seq<ProcessedEvent>, b: Seq<ProcessedEvent>)
    ensures
        envelopes(a + b) == envelopes(a) + envelopes(b),
{
    assert(envelopes(a + b) =~= envelopes(a) + envelopes(b));
}

/// Every registered detector, tried in order on each record.
pub struct AllDetectors {
    pub battery: BatteryEventDetector,
    pub application: ApplicationEventDetector,
    pub usb: USBEventDetector,
}

impl AllDetectors {
    pub fn new() -> (r: Self)
        ensures
            r.usb.skipped_classes@.len() == 0,
    {
        AllDetectors {
            battery: BatteryEventDetector::new(),
            application: ApplicationEventDetector::new(),
            usb: USBEventDetector::new(),
        }
    }
}

/// What every detector together emits for a record: the battery events,
/// then the application events, then the USB events.
pub open spec fn record_detections(event: PersistedEvent) -> Seq<(Timestamp, DetectedEventView)> {
    emitted_or_empty(battery_detection(event)) + emitted_or_empty(application_detection(event))
        + emitted_or_empty(usb_detection(event))
}

impl EventDetector for AllDetectors {
    open spec fn detection(&self, event: PersistedEvent) -> Option<
        Seq<(Timestamp, DetectedEventView)>,
    > {
        if record_detections(event).len() > 0 {
            Some(record_detections(event))
        } else {
            None
        }
    }

    fn process_event(
        &mut self,
        event: &PersistedEvent,
        context: &EventTranscriptReadOnlyView,
    ) -> (r: Option<Vec<ProcessedEvent>>)
        ensures
            class_texts(final(self).usb.skipped_classes@) == class_texts(
                old(self).usb.skipped_classes@,
            ) + skip_notice(*event),
    {
        let mut aggregated: Vec<ProcessedEvent> = Vec::new();
        if let Some(mut emitted) = self.battery.process_event(event, context) {
            proof {
                lemma_envelopes_concat(aggregated@, emitted@);
            }
            aggregated.append(&mut emitted);
        }
        assert(envelopes(aggregated@) == emitted_or_empty(battery_detection(*event)));
        if let Some(mut emitted) = self.application.process_event(event, context) {
            proof {
                lemma_envelopes_concat(aggregated@, emitted@);
            }
            aggregated.append(&mut emitted);
        }
        assert(envelopes(aggregated@) == emitted_or_empty(battery_detection(*event))
            + emitted_or_empty(application_detection(*event)));
        if let Some(mut emitted) = self.usb.process_event(event, context) {
            proof {
                lemma_envelopes_concat(aggregated@, emitted@);
            }
            aggregated.append(&mut emitted);
        }
        assert(envelopes(aggregated@) == record_detections(*event));
        if aggregated.len() > 0 {
            Some(aggregated)
        } else {
            None
        }
    }
}

/// What every detector emits over a sequence of records, record by record.
pub open spec fn aggregate(events: Seq<PersistedEvent>) -> Seq<(Timestamp, DetectedEventView)>
    decreases events.len(),
{
    if events.len() == 0 {
        Seq::empty()
    } else {
        aggregate(events.drop_last()) + record_detections(events.last())
    }
}

/// The informational notices of a sequence of records, record by record.
pub open spec fn aggregate_notices(events: Seq<PersistedEvent>) -> Seq<Seq<char>>
    decreases events.len(),
{
    if events.len() == 0 {
        Seq::empty()
    } else {
        aggregate_notices(events.drop_last()) + skip_notice(events.last())
    }
}

/// Aggregation keeps order across records: the events of a run over two
/// consecutive batches of records are those of the first batch followed by
/// those of the second.
pub proof fn lemma_aggregate_concat(first: Seq<PersistedEvent>, second: Seq<PersistedEvent>)
    ensures
        aggregate(first + second) == aggregate(first) + aggregate(second),
    decreases second.len(),
{
    if second.len() == 0 {
        assert(first + second =~= first);
        assert(aggregate(first) + aggregate(second) =~= aggregate(first));
    } else {
        lemma_aggregate_concat(first, second.drop_last());
        assert((first + second).drop_last() =~= first + second.drop_last());
        assert((first + second).last() == second.last());
        assert(aggregate(first) + aggregate(second) =~= aggregate(first) + aggregate(
            second.drop_last(),
        ) + record_detections(second.last()));
    }
}

/// For two records, the output is every event detected in the first record,
/// in detector emission order, followed by every event detected in the
/// second; nothing is dropped, repeated or reordered.
pub proof fn lemma_two_records_in_order(first: PersistedEvent, second: PersistedEvent)
    ensures
        aggregate(seq![first, second]) == record_detections(first) + record_detections(second),
{
    assert(seq![first, second].drop_last() =~= seq![first]);
    assert(seq![first].drop_last() =~= Seq::<PersistedEvent>::empty());
    assert(seq![first].last() == first);
    assert(seq![first, second].last() == second);
    assert(aggregate(Seq::<PersistedEvent>::empty()) == Seq::<(Timestamp, DetectedEventView)>::empty());
    assert(aggregate(seq![first]) =~= record_detections(first));
}

/// The maps from identifier to entity, the later entity winning where two
/// share an identifier.
pub open spec fn tags_by_id(tags: Seq<TagDescription>) -> Map<i64, TagDescription>
    decreases tags.len(),
{
    if tags.len() == 0 {
        Map::empty()
    } else {
        tags_by_id(tags.drop_last()).insert(tags.last().id.0, tags.last())
    }
}

pub open spec fn producers_by_id(producers: Seq<Producer>) -> Map<i64, Producer>
    decreases producers.len(),
{
    if producers.len() == 0 {
        Map::empty()
    } else {
        producers_by_id(producers.drop_last()).insert(producers.last().id.0, producers.last())
    }
}

pub open spec fn categories_by_id(categories: Seq<Category>) -> Map<i64, Category>
    decreases categories.len(),
{
    if categories.len() == 0 {
        Map::empty()
    } else {
        categories_by_id(categories.drop_last()).insert(
            categories.last().id.0,
            categories.last(),
        )
    }
}

/// Collapses tag descriptions into a map by identifier.
pub fn tag_map(tags: Vec<TagDescription>) -> (r: HashMap<i64, TagDescription>)
    ensures
        r@ == tags_by_id(tags@),
{
    broadcast use vstd::std_specs::hash::group_hash_axioms;

    let mut map: HashMap<i64, TagDescription> = HashMap::with_capacity(tags.len());
    let ghost all = tags@;
    for tag in it: tags.into_iter()
        invariant
            it.seq() == all,
            map@ == tags_by_id(all.take(it.index() as int)),
    {
        proof {
            assert(all.take(it.index() + 1).drop_last() =~= all.take(it.index() as int));
        }
        map.insert(tag.id.0, tag);
    }
    proof {
        assert(all.take(all.len() as int) =~= all);
    }
    map
}

/// Collapses producers into a map by identifier.
pub fn producer_map(producers: Vec<Producer>) -> (r: HashMap<i64, Producer>)
    ensures
        r@ == producers_by_id(producers@),
{
    broadcast use vstd::std_specs::hash::group_hash_axioms;

    let mut map: HashMap<i64, Producer> = HashMap::with_capacity(producers.len());
    let ghost all = producers@;
    for producer in it: producers.into_iter()
        invariant
            it.seq() == all,
            map@ == producers_by_id(all.take(it.index() as int)),
    {
        proof {
            assert(all.take(it.index() + 1).drop_last() =~= all.take(it.index() as int));
        }
        map.insert(producer.id.0, producer);
    }
    proof {
        assert(all.take(all.len() as int) =~= all);
    }
    map
}

/// Collapses categories into a map by identifier.
pub fn category_map(categories: Vec<Category>) -> (r: HashMap<i64, Category>)
    ensures
        r@ == categories_by_id(categories@),
{
    broadcast use vstd::std_specs::hash::group_hash_axioms;

    let mut map: HashMap<i64, Category> = HashMap::with_capacity(categories.len());
    let ghost all = categories@;
    for category in it: categories.into_iter()
        invariant
            it.seq() == all,
            map@ == categories_by_id(all.take(it.index() as int)),
    {
        proof {
            assert(all.take(it.index() + 1).drop_last() =~= all.take(it.index() as int));
        }
        map.insert(category.id.0, category);
    }
    proof {
        assert(all.take(all.len() as int) =~= all);
    }
    map
}

/// Owns the loaded records and reference maps for one run.
pub struct EventTranscriptProcessor {
    pub events: Vec<PersistedEvent>,
    pub tags: HashMap<i64, TagDescription>,
    pub producers: HashMap<i64, Producer>,
    pub categories: HashMap<i64, Category>,
}

impl EventTranscriptProcessor {
    /// Takes the loaded records and reference entities, and collapses the
    /// entities into maps by identifier.
    pub fn from_loaded(
        events: Vec<PersistedEvent>,
        tags: Vec<TagDescription>,
        producers: Vec<Producer>,
        categories: Vec<Category>,
    ) -> (r: Self)
        ensures
            r.events@ == events@,
            r.tags@ == tags_by_id(tags@),
            r.producers@ == producers_by_id(producers@),
            r.categories@ == categories_by_id(categories@),
    {
        EventTranscriptProcessor {
            events,
            tags: tag_map(tags),
            producers: producer_map(producers),
            categories: category_map(categories),
        }
    }

    /// Drives every record, in load order, through every detector, and
    /// collects the emitted events in encounter order.
    /// The detectors' informational notices are appended to theirs, in
    /// record order.
    pub fn process_events(self, primary_detector: &mut AllDetectors) -> (r: Vec<ProcessedEvent>)
        ensures
            envelopes(r@) == aggregate(self.events@),
            class_texts(final(primary_detector).usb.skipped_classes@) == class_texts(
                old(primary_detector).usb.skipped_classes@,
            ) + aggregate_notices(self.events@),
    {
        let EventTranscriptProcessor { events, tags, producers, categories } = self;
        let read_only_view = EventTranscriptReadOnlyView { tags, producers, categories };
        let ghost start = class_texts(primary_detector.usb.skipped_classes@);
        let mut aggregated: Vec<ProcessedEvent> = Vec::new();
        let mut i: usize = 0;
        assert(start + aggregate_notices(events@.take(0)) =~= start);
        while i < events.len()
            invariant
                0 <= i <= events@.len(),
                envelopes(aggregated@) == aggregate(events@.take(i as int)),
                class_texts(primary_detector.usb.skipped_classes@) == start + aggregate_notices(
                    events@.take(i as int),
                ),
            decreases events@.len() - i,
        {
            let emitted = primary_detector.process_event(&events[i], &read_only_view);
            proof {
                assert(events@.take(i + 1).drop_last() =~= events@.take(i as int));
            }
            assert(class_texts(primary_detector.usb.skipped_classes@) =~= start + aggregate_notices(
                events@.take(i + 1),
            ));
            if let Some(mut found) = emitted {
                proof {
                    lemma_envelopes_concat(aggregated@, found@);
                }
                aggregated.append(&mut found);
            } else {
                assert(aggregate(events@.take(i + 1)) =~= aggregate(events@.take(i as int)));
            }
            i = i + 1;
        }
        assert(events@.take(events@.len() as int) =~= events@);
        aggregated
    }
}

} // verus!
