use winspy::detectors::{category_map, producer_map, tag_map, EventTranscriptReadOnlyView};
use winspy::json::JsonValue;
use winspy::models::category::CategoryId;
use winspy::models::error::{EventReaderError, SavedSqliteColumn, SavedSqliteRow};
use winspy::models::persisted_event::PersistedEventPayload;
use winspy::models::producer::ProducerId;
use winspy::models::tag_description::TagDescriptionId;
use winspy::reader::{
    classify_payload, decode_category_rows, decode_event_rows, decode_producer_rows,
    decode_tag_description_rows, CategoryRow, CorrelationRow, EventRow, ProducerRow,
    TagDescriptionRow,
};

/// The document that payload text parses to, where it is JSON.
fn json_or_none(text: &str) -> Option<JsonValue> {
    match classify_payload(Some(text.to_string())) {
        PersistedEventPayload::Parsed { payload } => Some(payload),
        _ => None,
    }
}

fn dump(marker: &str) -> SavedSqliteRow {
    SavedSqliteRow {
        columns: vec![SavedSqliteColumn {
            name: "marker".to_string(),
            ordinal: 0,
            sql_type: "TEXT".to_string(),
            value: Some(marker.to_string()),
        }],
    }
}

fn complete_row(marker: &str) -> EventRow {
    EventRow {
        sid: Some("S-1-5-21".to_string()),
        timestamp: Some(10_000_000),
        payload: Some("{\"data\":{}}".to_string()),
        full_event_name: Some(format!("Event.{}", marker)),
        full_event_name_hash: Some(99),
        is_core: Some(1),
        provider_group_id: Some(4),
        provider_group_guid: Some("GUID".to_string()),
        logging_binary_name: Some("bin.exe".to_string()),
        friendly_logging_binary_name: Some("Binary".to_string()),
        producer_id: Some(2),
        saved_row: dump(marker),
        category_rows: vec![
            CorrelationRow { id: Some(11), saved_row: dump("c11") },
            CorrelationRow { id: Some(12), saved_row: dump("c12") },
        ],
        tag_rows: vec![CorrelationRow { id: Some(21), saved_row: dump("t21") }],
    }
}

fn table_of(e: &EventReaderError) -> &str {
    match e {
        EventReaderError::RecordParsingError { table_name, .. } => table_name,
    }
}

fn saved_of(e: &EventReaderError) -> &SavedSqliteRow {
    match e {
        EventReaderError::RecordParsingError { saved_row, .. } => saved_row,
    }
}

#[test]
fn rows_with_null_required_columns_are_skipped_with_diagnostics() {
    let mut missing_sid = complete_row("r1");
    missing_sid.sid = None;
    let mut missing_guid = complete_row("r3");
    missing_guid.provider_group_guid = None;
    let rows = vec![
        complete_row("r0"),
        missing_sid,
        complete_row("r2"),
        missing_guid,
        complete_row("r4"),
    ];
    let mut errors = Vec::new();
    let events = decode_event_rows(rows, &mut errors);
    assert_eq!(events.len(), 3);
    assert_eq!(errors.len(), 2);
    let names: Vec<&str> = events.iter().map(|e| e.event_name()).collect();
    assert_eq!(names, vec!["Event.r0", "Event.r2", "Event.r4"]);
    assert!(errors.iter().all(|e| table_of(e) == "events_persisted"));
    assert_eq!(saved_of(&errors[0]), &dump("r1"));
    assert_eq!(saved_of(&errors[1]), &dump("r3"));
}

#[test]
fn every_required_column_is_required() {
    let clearers: Vec<fn(&mut EventRow)> = vec![
        |r| r.sid = None,
        |r| r.timestamp = None,
        |r| r.full_event_name = None,
        |r| r.full_event_name_hash = None,
        |r| r.is_core = None,
        |r| r.provider_group_id = None,
        |r| r.provider_group_guid = None,
        |r| r.logging_binary_name = None,
        |r| r.friendly_logging_binary_name = None,
        |r| r.producer_id = None,
    ];
    for clear in clearers {
        let mut row = complete_row("x");
        clear(&mut row);
        let mut errors = Vec::new();
        assert!(decode_event_rows(vec![row], &mut errors).is_empty());
        assert_eq!(errors.len(), 1);
    }
}

#[test]
fn a_complete_row_becomes_a_record() {
    let mut errors = Vec::new();
    let events = decode_event_rows(vec![complete_row("ok")], &mut errors);
    assert!(errors.is_empty());
    let e = &events[0];
    assert_eq!(e.device_id(), "S-1-5-21");
    assert_eq!(e.timestamp().seconds, -11_644_473_599);
    assert_eq!(e.event_name(), "Event.ok");
    assert_eq!(e.event_name_hash(), 99);
    assert!(e.is_core());
    assert_eq!(e.provider_group().id, 4);
    assert_eq!(e.provider_group().guid, "GUID");
    assert_eq!(e.logging_binary().name, "bin.exe");
    assert_eq!(e.logging_binary().friendly_name, "Binary");
    assert_eq!(e.producer_id(), ProducerId::new(2));
    assert_eq!(e.category_ids(), &[CategoryId::new(11), CategoryId::new(12)]);
    assert_eq!(e.tag_description_ids(), &[TagDescriptionId::new(21)]);
    assert!(matches!(e.payload(), PersistedEventPayload::Parsed { .. }));
    assert!(e.event_name_contains("ok"));
    assert!(!e.event_name_contains("nope"));
}

#[test]
fn zero_core_flag_is_false() {
    let mut row = complete_row("c");
    row.is_core = Some(0);
    let mut errors = Vec::new();
    let events = decode_event_rows(vec![row], &mut errors);
    assert!(!events[0].is_core());
}

#[test]
fn null_correlation_ids_are_skipped_but_keep_the_record() {
    let mut row = complete_row("c");
    row.category_rows.push(CorrelationRow { id: None, saved_row: dump("c-null") });
    row.tag_rows.insert(0, CorrelationRow { id: None, saved_row: dump("t-null") });
    let mut errors = Vec::new();
    let events = decode_event_rows(vec![row], &mut errors);
    assert_eq!(events.len(), 1);
    assert_eq!(events[0].category_ids(), &[CategoryId::new(11), CategoryId::new(12)]);
    assert_eq!(events[0].tag_description_ids(), &[TagDescriptionId::new(21)]);
    assert_eq!(errors.len(), 2);
    assert_eq!(table_of(&errors[0]), "event_categories");
    assert_eq!(saved_of(&errors[0]), &dump("c-null"));
    assert_eq!(table_of(&errors[1]), "event_tags");
}

#[test]
fn errors_accumulate_across_loads() {
    let mut errors = Vec::new();
    let mut bad = complete_row("b");
    bad.is_core = None;
    decode_event_rows(vec![bad], &mut errors);
    decode_producer_rows(
        vec![ProducerRow { producer_id: None, producer_name: None, saved_row: dump("p") }],
        &mut errors,
    );
    assert_eq!(errors.len(), 2);
    assert_eq!(table_of(&errors[1]), "producers");
    assert_eq!(errors[0].message(), "failed to parse record from table events_persisted");
}

#[test]
fn payload_is_parsed_kept_or_absent() {
    match classify_payload(Some("{\"a\": [1, true, null, \"x\"]}".to_string())) {
        PersistedEventPayload::Parsed { payload } => {
            let a = payload.get("a").unwrap();
            match a {
                JsonValue::Array(items) => assert_eq!(items.len(), 4),
                other => panic!("not an array: {:?}", other),
            }
        },
        other => panic!("not parsed: {:?}", other),
    }
    match classify_payload(Some("{not json".to_string())) {
        PersistedEventPayload::Invalid { raw_payload } => assert_eq!(raw_payload, "{not json"),
        other => panic!("not invalid: {:?}", other),
    }
    assert!(matches!(classify_payload(None), PersistedEventPayload::Absent));
}

#[test]
fn json_numbers_keep_i64_values_only() {
    let v = json_or_none("{\"small\": -5, \"big\": 18446744073709551615, \"real\": 1.5}").unwrap();
    assert_eq!(v.get("small").unwrap().as_i64(), Some(-5));
    assert_eq!(v.get("big").unwrap().as_i64(), None);
    assert_eq!(v.get("real").unwrap().as_i64(), None);
    assert!(v.get("absent").is_none());
    assert_eq!(json_or_none("\"text\"").unwrap().as_str(), Some("text"));
    assert!(json_or_none("").is_none());
    assert!(v.is_object_value());
}

#[test]
fn reference_rows_decode_or_are_skipped() {
    let mut errors = Vec::new();
    let producers = decode_producer_rows(
        vec![
            ProducerRow { producer_id: Some(1), producer_name: Some("Windows".to_string()), saved_row: dump("p1") },
            ProducerRow { producer_id: Some(2), producer_name: None, saved_row: dump("p2") },
        ],
        &mut errors,
    );
    assert_eq!(producers.len(), 1);
    assert_eq!(producers[0].id(), ProducerId::new(1));
    assert_eq!(producers[0].name(), "Windows");
    let categories = decode_category_rows(
        vec![
            CategoryRow {
                category_id: Some(5),
                category_name: Some("Browsing".to_string()),
                producer_id: Some(1),
                saved_row: dump("c5"),
            },
            CategoryRow { category_id: None, category_name: Some("x".to_string()), producer_id: Some(1), saved_row: dump("c?") },
        ],
        &mut errors,
    );
    assert_eq!(categories.len(), 1);
    assert_eq!(categories[0].id(), CategoryId::new(5));
    assert_eq!(categories[0].name(), "Browsing");
    assert_eq!(categories[0].producer_id(), ProducerId::new(1));
    let tags = decode_tag_description_rows(
        vec![
            TagDescriptionRow {
                tag_id: Some(1),
                tag_name: Some("Browsing History".to_string()),
                description: Some("Records of the web browsing history".to_string()),
                locale_name: Some("en-US".to_string()),
                saved_row: dump("t1"),
            },
            TagDescriptionRow { tag_id: Some(2), tag_name: None, description: None, locale_name: None, saved_row: dump("t2") },
        ],
        &mut errors,
    );
    assert_eq!(tags.len(), 1);
    assert_eq!(tags[0].id(), TagDescriptionId::new(1));
    assert_eq!(tags[0].name(), "Browsing History");
    assert_eq!(tags[0].description(), "Records of the web browsing history");
    assert_eq!(tags[0].locale(), "en-US");
    let tables: Vec<&str> = errors.iter().map(table_of).collect();
    assert_eq!(tables, vec!["producers", "categories", "tag_descriptions"]);
}

#[test]
fn lookups_find_entities_by_id_and_later_rows_win() {
    let mut errors = Vec::new();
    let producers = decode_producer_rows(
        vec![
            ProducerRow { producer_id: Some(1), producer_name: Some("Old".to_string()), saved_row: dump("a") },
            ProducerRow { producer_id: Some(1), producer_name: Some("New".to_string()), saved_row: dump("b") },
            ProducerRow { producer_id: Some(3), producer_name: Some("Edge".to_string()), saved_row: dump("c") },
        ],
        &mut errors,
    );
    let categories = decode_category_rows(
        vec![CategoryRow { category_id: Some(8), category_name: Some("Cat".to_string()), producer_id: Some(3), saved_row: dump("d") }],
        &mut errors,
    );
    let tags = decode_tag_description_rows(
        vec![TagDescriptionRow {
            tag_id: Some(9),
            tag_name: Some("Tag".to_string()),
            description: Some("Desc".to_string()),
            locale_name: Some("en-US".to_string()),
            saved_row: dump("e"),
        }],
        &mut errors,
    );
    let view = EventTranscriptReadOnlyView {
        tags: tag_map(tags),
        producers: producer_map(producers),
        categories: category_map(categories),
    };
    assert_eq!(view.producer_by_id(ProducerId::new(1)).unwrap().name(), "New");
    assert_eq!(view.producer_by_id(ProducerId::new(3)).unwrap().name(), "Edge");
    assert!(view.producer_by_id(ProducerId::new(2)).is_none());
    assert_eq!(view.category_by_id(CategoryId::new(8)).unwrap().name(), "Cat");
    assert!(view.category_by_id(CategoryId::new(1)).is_none());
    assert_eq!(view.tag_by_id(TagDescriptionId::new(9)).unwrap().description(), "Desc");
    assert!(view.tag_by_id(TagDescriptionId::new(10)).is_none());
}
