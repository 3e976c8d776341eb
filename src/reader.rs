//! Decoding of the rows read from the store: reference entities and raw
//! events become typed values, and a row that lacks a required value is
//! skipped with a diagnostic instead of failing the load.
use vstd::prelude::*;
use crate::json::{json_of_text, parse_json};
use crate::models::category::{Category, CategoryId};
use crate::models::error::{
    diagnostics_view, lemma_diagnostics_push, EventReaderError, SavedSqliteRow,
};
use crate::models::producer::{Producer, ProducerId};
use crate::models::persisted_event::{LoggingBinary, PersistedEvent, PersistedEventPayload};
use crate::models::provider_group::ProviderGroup;
use crate::models::tag_description::{TagDescription, TagDescriptionId};
use crate::time::{decode_legacy_ticks, decoded_ticks};

verus! {

pub const PRODUCERS_TABLE: &'static str = "producers";

pub const CATEGORIES_TABLE: &'static str = "categories";

pub const TAG_DESCRIPTIONS_TABLE: &'static str = "tag_descriptions";

/// A row of the `producers` table.
pub struct ProducerRow {
    pub producer_id: Option<i64>,
    pub producer_name: Option<String>,
    pub saved_row: SavedSqliteRow,
}

/// A row of the `categories` table.
pub struct CategoryRow {
    pub category_id: Option<i64>,
    pub category_name: Option<String>,
    pub producer_id: Option<i64>,
    pub saved_row: SavedSqliteRow,
}

/// A row of the `tag_descriptions` table.
pub struct TagDescriptionRow {
    pub tag_id: Option<i64>,
    pub tag_name: Option<String>,
    pub description: Option<String>,
    pub locale_name: Option<String>,
    pub saved_row: SavedSqliteRow,
}

/// The producer a row holds, where no required value is missing.
pub open spec fn producer_of_row(row: ProducerRow) -> Option<Producer> {
    match (row.producer_id, row.producer_name) {
        (Some(id), Some(name)) => Some(Producer { id: ProducerId(id), name }),
        _ => None,
    }
}

/// The category a row holds, where no required value is missing.
pub open spec fn category_of_row(row: CategoryRow) -> Option<Category> {
    match (row.category_id, row.category_name, row.producer_id) {
        (Some(id), Some(name), Some(producer)) => Some(
            Category { id: CategoryId(id), name, producer_id: ProducerId(producer) },
        ),
        _ => None,
    }
}

/// The tag description a row holds, where no required value is missing.
pub open spec fn tag_description_of_row(row: TagDescriptionRow) -> Option<TagDescription> {
    match (row.tag_id, row.tag_name, row.description, row.locale_name) {
        (Some(id), Some(name), Some(description), Some(locale)) => Some(
            TagDescription { id: TagDescriptionId(id), name, description, locale },
        ),
        _ => None,
    }
}

/// The producers of the rows that decode, in row order.
pub open spec fn loaded_producers(rows: Seq<ProducerRow>) -> Seq<Producer>
    decreases rows.len(),
{
    if rows.len() == 0 {
        Seq::empty()
    } else {
        let before = loaded_producers(rows.drop_last());
        match producer_of_row(rows.last()) {
            Some(p) => before.push(p),
            None => before,
        }
    }
}

/// The diagnostics of the producer rows that do not decode, in row order.
pub open spec fn producer_diagnostics(rows: Seq<ProducerRow>) -> Seq<(Seq<char>, SavedSqliteRow)>
    decreases rows.len(),
{
    if rows.len() == 0 {
        Seq::empty()
    } else {
        let before = producer_diagnostics(rows.drop_last());
        match producer_of_row(rows.last()) {
            Some(_) => before,
            None => before.push((PRODUCERS_TABLE@, rows.last().saved_row)),
        }
    }
}

/// The categories of the rows that decode, in row order.
pub open spec fn loaded_categories(rows: Seq<CategoryRow>) -> Seq<Category>
    decreases rows.len(),
{
    if rows.len() == 0 {
        Seq::empty()
    } else {
        let before = loaded_categories(rows.drop_last());
        match category_of_row(rows.last()) {
            Some(c) => before.push(c),
            None => before,
        }
    }
}

/// The diagnostics of the category rows that do not decode, in row order.
pub open spec fn category_diagnostics(rows: Seq<CategoryRow>) -> Seq<(Seq<char>, SavedSqliteRow)>
    decreases rows.len(),
{
    if rows.len() == 0 {
        Seq::empty()
    } else {
        let before = category_diagnostics(rows.drop_last());
        match category_of_row(rows.last()) {
            Some(_) => before,
            None => before.push((CATEGORIES_TABLE@, rows.last().saved_row)),
        }
    }
}

/// The tag descriptions of the rows that decode, in row order.
pub open spec fn loaded_tag_descriptions(rows: Seq<TagDescriptionRow>) -> Seq<TagDescription>
    decreases rows.len(),
{
    if rows.len() == 0 {
        Seq::empty()
    } else {
        let before = loaded_tag_descriptions(rows.drop_last());
        match tag_description_of_row(rows.last()) {
            Some(t) => before.push(t),
            None => before,
        }
    }
}

/// The diagnostics of the tag-description rows that do not decode, in row
/// order.
pub open spec fn tag_description_diagnostics(rows: Seq<TagDescriptionRow>) -> Seq<
    (Seq<char>, SavedSqliteRow),
>
    decreases rows.len(),
{
    if rows.len() == 0 {
        Seq::empty()
    } else {
        let before = tag_description_diagnostics(rows.drop_last());
        match tag_description_of_row(rows.last()) {
            Some(_) => before,
            None => before.push((TAG_DESCRIPTIONS_TABLE@, rows.last().saved_row)),
        }
    }
}

/// Decodes producer rows; each row that lacks a value is skipped and its
/// diagnostic appended to `errors`.
pub fn decode_producer_rows(rows: Vec<ProducerRow>, errors: &mut Vec<EventReaderError>) -> (r:
    Vec<Producer>)
    ensures
        r@ == loaded_producers(rows@),
        diagnostics_view(final(errors)@) == diagnostics_view(old(errors)@) + producer_diagnostics(
            rows@,
        ),
{
    let mut producers: Vec<Producer> = Vec::new();
    let ghost all = rows@;
    let ghost start = diagnostics_view(errors@);
    proof {
        assert(start + producer_diagnostics(all.take(0)) =~= start);
    }
    for row in it: rows.into_iter()
        invariant
            it.seq() == all,
            producers@ == loaded_producers(all.take(it.index() as int)),
            diagnostics_view(errors@) == start + producer_diagnostics(all.take(it.index() as int)),
    {
        proof {
            assert(all.take(it.index() + 1).drop_last() =~= all.take(it.index() as int));
            assert(all.take(it.index() + 1).last() == row);
        }
        match (row.producer_id, row.producer_name) {
            (Some(id), Some(name)) => {
                producers.push(Producer::new(ProducerId::new(id), name));
            },
            _ => {
                let e = EventReaderError::skipped_row(PRODUCERS_TABLE, row.saved_row);
                proof {
                    lemma_diagnostics_push(errors@, e);
                }
                errors.push(e);
                assert(diagnostics_view(errors@) =~= start + producer_diagnostics(
                    all.take(it.index() + 1),
                ));
            },
        }
    }
    proof {
        assert(all.take(all.len() as int) =~= all);
    }
    producers
}

/// Decodes category rows; each row that lacks a value is skipped and its
/// diagnostic appended to `errors`.
pub fn decode_category_rows(rows: Vec<CategoryRow>, errors: &mut Vec<EventReaderError>) -> (r:
    Vec<Category>)
    ensures
        r@ == loaded_categories(rows@),
        diagnostics_view(final(errors)@) == diagnostics_view(old(errors)@) + category_diagnostics(
            rows@,
        ),
{
    let mut categories: Vec<Category> = Vec::new();
    let ghost all = rows@;
    let ghost start = diagnostics_view(errors@);
    proof {
        assert(start + category_diagnostics(all.take(0)) =~= start);
    }
    for row in it: rows.into_iter()
        invariant
            it.seq() == all,
            categories@ == loaded_categories(all.take(it.index() as int)),
            diagnostics_view(errors@) == start + category_diagnostics(all.take(it.index() as int)),
    {
        proof {
            assert(all.take(it.index() + 1).drop_last() =~= all.take(it.index() as int));
            assert(all.take(it.index() + 1).last() == row);
        }
        match (row.category_id, row.category_name, row.producer_id) {
            (Some(id), Some(name), Some(producer)) => {
                categories.push(Category::new(CategoryId::new(id), name, ProducerId::new(producer)));
            },
            _ => {
                let e = EventReaderError::skipped_row(CATEGORIES_TABLE, row.saved_row);
                proof {
                    lemma_diagnostics_push(errors@, e);
                }
                errors.push(e);
                assert(diagnostics_view(errors@) =~= start + category_diagnostics(
                    all.take(it.index() + 1),
                ));
            },
        }
    }
    proof {
        assert(all.take(all.len() as int) =~= all);
    }
    categories
}

/// Decodes tag-description rows; each row that lacks a value is skipped and
/// its diagnostic appended to `errors`.
pub fn decode_tag_description_rows(
    rows: Vec<TagDescriptionRow>,
    errors: &mut Vec<EventReaderError>,
) -> (r: Vec<TagDescription>)
    ensures
        r@ == loaded_tag_descriptions(rows@),
        diagnostics_view(final(errors)@) == diagnostics_view(old(errors)@)
            + tag_description_diagnostics(rows@),
{
    let mut tags: Vec<TagDescription> = Vec::new();
    let ghost all = rows@;
    let ghost start = diagnostics_view(errors@);
    proof {
        assert(start + tag_description_diagnostics(all.take(0)) =~= start);
    }
    for row in it: rows.into_iter()
        invariant
            it.seq() == all,
            tags@ == loaded_tag_descriptions(all.take(it.index() as int)),
            diagnostics_view(errors@) == start + tag_description_diagnostics(
                all.take(it.index() as int),
            ),
    {
        proof {
            assert(all.take(it.index() + 1).drop_last() =~= all.take(it.index() as int));
            assert(all.take(it.index() + 1).last() == row);
        }
        match (row.tag_id, row.tag_name, row.description, row.locale_name) {
            (Some(id), Some(name), Some(description), Some(locale)) => {
                tags.push(TagDescription::new(TagDescriptionId::new(id), name, description, locale));
            },
            _ => {
                let e = EventReaderError::skipped_row(TAG_DESCRIPTIONS_TABLE, row.saved_row);
                proof {
                    lemma_diagnostics_push(errors@, e);
                }
                errors.push(e);
                assert(diagnostics_view(errors@) =~= start + tag_description_diagnostics(
                    all.take(it.index() + 1),
                ));
            },
        }
    }
    proof {
        assert(all.take(all.len() as int) =~= all);
    }
    tags
}

pub const EVENTS_TABLE: &'static str = "events_persisted";

pub const EVENT_CATEGORIES_TABLE: &'static str = "event_categories";

pub const EVENT_TAGS_TABLE: &'static str = "event_tags";

/// A row of a correlation table (`event_categories` or `event_tags`): the
/// identifier it links to an event name hash.
pub struct CorrelationRow {
    pub id: Option<i64>,
    pub saved_row: SavedSqliteRow,
}

/// A row of `events_persisted` joined with its provider group and producer,
/// with the correlation rows of its event name hash.
pub struct EventRow {
    pub sid: Option<String>,
    /// Legacy tick count: 100-nanosecond intervals since 1601-01-01.
    pub timestamp: Option<i64>,
    pub payload: Option<String>,
    pub full_event_name: Option<String>,
    pub full_event_name_hash: Option<i64>,
    pub is_core: Option<i64>,
    pub provider_group_id: Option<i64>,
    pub provider_group_guid: Option<String>,
    pub logging_binary_name: Option<String>,
    pub friendly_logging_binary_name: Option<String>,
    pub producer_id: Option<i64>,
    pub saved_row: SavedSqliteRow,
    pub category_rows: Vec<CorrelationRow>,
    pub tag_rows: Vec<CorrelationRow>,
}

/// The identifiers of the correlation rows that have one, in row order.
pub open spec fn present_ids(rows: Seq<CorrelationRow>) -> Seq<i64>
    decreases rows.len(),
{
    if rows.len() == 0 {
        Seq::empty()
    } else {
        let before = present_ids(rows.drop_last());
        match rows.last().id {
            Some(id) => before.push(id),
            None => before,
        }
    }
}

/// The diagnostics of the correlation rows without an identifier.
pub open spec fn null_id_diagnostics(rows: Seq<CorrelationRow>, table: Seq<char>) -> Seq<
    (Seq<char>, SavedSqliteRow),
>
    decreases rows.len(),
{
    if rows.len() == 0 {
        Seq::empty()
    } else {
        let before = null_id_diagnostics(rows.drop_last(), table);
        match rows.last().id {
            Some(_) => before,
            None => before.push((table, rows.last().saved_row)),
        }
    }
}

/// Collects the identifiers of correlation rows; a row without one is
/// skipped and its diagnostic, for `table`, appended to `errors`.
pub fn collect_correlation_ids(
    rows: Vec<CorrelationRow>,
    table: &str,
    errors: &mut Vec<EventReaderError>,
) -> (r: Vec<i64>)
    ensures
        r@ == present_ids(rows@),
        diagnostics_view(final(errors)@) == diagnostics_view(old(errors)@) + null_id_diagnostics(
            rows@,
            table@,
        ),
{
    let mut ids: Vec<i64> = Vec::new();
    let ghost all = rows@;
    let ghost start = diagnostics_view(errors@);
    proof {
        assert(start + null_id_diagnostics(all.take(0), table@) =~= start);
    }
    for row in it: rows.into_iter()
        invariant
            it.seq() == all,
            ids@ == present_ids(all.take(it.index() as int)),
            diagnostics_view(errors@) == start + null_id_diagnostics(
                all.take(it.index() as int),
                table@,
            ),
    {
        proof {
            assert(all.take(it.index() + 1).drop_last() =~= all.take(it.index() as int));
            assert(all.take(it.index() + 1).last() == row);
        }
        match row.id {
            Some(id) => {
                ids.push(id);
            },
            None => {
                let e = EventReaderError::skipped_row(table, row.saved_row);
                proof {
                    lemma_diagnostics_push(errors@, e);
                }
                errors.push(e);
                assert(diagnostics_view(errors@) =~= start + null_id_diagnostics(
                    all.take(it.index() + 1),
                    table@,
                ));
            },
        }
    }
    proof {
        assert(all.take(all.len() as int) =~= all);
    }
    ids
}

/// Wraps identifiers as category identifiers.
pub fn category_ids_of(ids: Vec<i64>) -> (r: Vec<CategoryId>)
    ensures
        r@ == ids@.map_values(|i: i64| CategoryId(i)),
{
    let mut wrapped: Vec<CategoryId> = Vec::new();
    for k in 0..ids.len()
        invariant
            wrapped@ == ids@.take(k as int).map_values(|i: i64| CategoryId(i)),
    {
        proof {
            assert(ids@.take(k + 1).map_values(|i: i64| CategoryId(i)) =~= ids@.take(
                k as int,
            ).map_values(|i: i64| CategoryId(i)).push(CategoryId(ids@[k as int])));
        }
        wrapped.push(CategoryId::new(ids[k]));
    }
    assert(ids@.take(ids@.len() as int) =~= ids@);
    wrapped
}

/// Wraps identifiers as tag-description identifiers.
pub fn tag_description_ids_of(ids: Vec<i64>) -> (r: Vec<TagDescriptionId>)
    ensures
        r@ == ids@.map_values(|i: i64| TagDescriptionId(i)),
{
    let mut wrapped: Vec<TagDescriptionId> = Vec::new();
    for k in 0..ids.len()
        invariant
            wrapped@ == ids@.take(k as int).map_values(|i: i64| TagDescriptionId(i)),
    {
        proof {
            assert(ids@.take(k + 1).map_values(|i: i64| TagDescriptionId(i)) =~= ids@.take(
                k as int,
            ).map_values(|i: i64| TagDescriptionId(i)).push(TagDescriptionId(ids@[k as int])));
        }
        wrapped.push(TagDescriptionId::new(ids[k]));
    }
    assert(ids@.take(ids@.len() as int) =~= ids@);
    wrapped
}

/// The payload a column holds: parsed where it is JSON, kept as text where
/// it is not, absent where the column was null.
pub open spec fn payload_of(raw: Option<String>) -> PersistedEventPayload {
    match raw {
        None => PersistedEventPayload::Absent,
        Some(text) => match json_of_text(text@) {
            Some(v) => PersistedEventPayload::Parsed { payload: v },
            None => PersistedEventPayload::Invalid { raw_payload: text },
        },
    }
}

/// Classifies the payload column.
pub fn classify_payload(raw: Option<String>) -> (r: PersistedEventPayload)
    ensures
        r == payload_of(raw),
{
    match raw {
        None => PersistedEventPayload::Absent,
        Some(text) => match parse_json(text.as_str()) {
            Some(v) => PersistedEventPayload::Parsed { payload: v },
            None => PersistedEventPayload::Invalid { raw_payload: text },
        },
    }
}

/// Whether every required column of an event row holds a value.
pub open spec fn event_row_complete(row: EventRow) -> bool {
    &&& row.sid is Some
    &&& row.timestamp is Some
    &&& row.full_event_name is Some
    &&& row.full_event_name_hash is Some
    &&& row.is_core is Some
    &&& row.provider_group_id is Some
    &&& row.provider_group_guid is Some
    &&& row.logging_binary_name is Some
    &&& row.friendly_logging_binary_name is Some
    &&& row.producer_id is Some
}

/// Whether an event row becomes a record: it is complete and its tick
/// count decodes.
pub open spec fn event_row_decodes(row: EventRow) -> bool {
    event_row_complete(row) && decoded_ticks(row.timestamp->0) is Ok
}

/// Whether `e` is the record that a decodable row becomes.
pub open spec fn decodes_to(row: EventRow, e: PersistedEvent) -> bool {
    &&& e.device_id == row.sid->0
    &&& e.timestamp == decoded_ticks(row.timestamp->0)->Ok_0
    &&& e.payload == payload_of(row.payload)
    &&& e.event_name == row.full_event_name->0
    &&& e.event_name_hash == row.full_event_name_hash->0
    &&& e.is_core == (row.is_core->0 != 0)
    &&& e.provider_group == (ProviderGroup {
        id: row.provider_group_id->0,
        guid: row.provider_group_guid->0,
    })
    &&& e.logging_binary == (LoggingBinary {
        name: row.logging_binary_name->0,
        friendly_name: row.friendly_logging_binary_name->0,
    })
    &&& e.producer_id == ProducerId(row.producer_id->0)
    &&& e.categories@ == present_ids(row.category_rows@).map_values(|i: i64| CategoryId(i))
    &&& e.tags@ == present_ids(row.tag_rows@).map_values(|i: i64| TagDescriptionId(i))
}

/// The diagnostics one event row gives: the row itself where it does not
/// decode, else those of its correlation rows without an identifier.
pub open spec fn event_row_diagnostics(row: EventRow) -> Seq<(Seq<char>, SavedSqliteRow)> {
    if event_row_decodes(row) {
        null_id_diagnostics(row.category_rows@, EVENT_CATEGORIES_TABLE@) + null_id_diagnostics(
            row.tag_rows@,
            EVENT_TAGS_TABLE@,
        )
    } else {
        seq![(EVENTS_TABLE@, row.saved_row)]
    }
}

/// Decodes one event row into a record, or skips it with a diagnostic.
pub fn decode_event_row(row: EventRow, errors: &mut Vec<EventReaderError>) -> (r: Option<
    PersistedEvent,
>)
    ensures
        r is Some <==> event_row_decodes(row),
        r matches Some(e) ==> decodes_to(row, e),
        diagnostics_view(final(errors)@) == diagnostics_view(old(errors)@) + event_row_diagnostics(
            row,
        ),
{
    let ghost whole_row = row;
    let EventRow {
        sid,
        timestamp,
        payload,
        full_event_name,
        full_event_name_hash,
        is_core,
        provider_group_id,
        provider_group_guid,
        logging_binary_name,
        friendly_logging_binary_name,
        producer_id,
        saved_row,
        category_rows,
        tag_rows,
    } = row;
    let decoded = match timestamp {
        Some(ticks) => match decode_legacy_ticks(ticks) {
            Ok(t) => Some(t),
            Err(_) => None,
        },
        None => None,
    };
    match (
        sid,
        decoded,
        full_event_name,
        full_event_name_hash,
        is_core,
        provider_group_id,
        provider_group_guid,
        logging_binary_name,
        friendly_logging_binary_name,
        producer_id,
    ) {
        (
            Some(device_id),
            Some(event_timestamp),
            Some(event_name),
            Some(event_name_hash),
            Some(is_core_flag),
            Some(group_id),
            Some(group_guid),
            Some(binary_name),
            Some(binary_friendly_name),
            Some(producer),
        ) => {
            let ghost start = diagnostics_view(errors@);
            let category_ids = collect_correlation_ids(
                category_rows,
                EVENT_CATEGORIES_TABLE,
                errors,
            );
            let tag_ids = collect_correlation_ids(tag_rows, EVENT_TAGS_TABLE, errors);
            assert(diagnostics_view(errors@) =~= start + event_row_diagnostics(whole_row));
            let event = PersistedEvent::new(
                device_id,
                event_timestamp,
                classify_payload(payload),
                event_name,
                event_name_hash,
                is_core_flag != 0,
                ProviderGroup::new(group_id, group_guid),
                LoggingBinary { name: binary_name, friendly_name: binary_friendly_name },
                ProducerId::new(producer),
                category_ids_of(category_ids),
                tag_description_ids_of(tag_ids),
            );
            Some(event)
        },
        _ => {
            let e = EventReaderError::skipped_row(EVENTS_TABLE, saved_row);
            proof {
                lemma_diagnostics_push(errors@, e);
            }
            errors.push(e);
            assert(diagnostics_view(errors@) =~= diagnostics_view(old(errors)@)
                + event_row_diagnostics(whole_row));
            None
        },
    }
}

/// The rows that become records, in row order.
pub open spec fn decodable_rows(rows: Seq<EventRow>) -> Seq<EventRow>
    decreases rows.len(),
{
    if rows.len() == 0 {
        Seq::empty()
    } else {
        let before = decodable_rows(rows.drop_last());
        if event_row_decodes(rows.last()) {
            before.push(rows.last())
        } else {
            before
        }
    }
}

/// The diagnostics of a batch of event rows, row by row.
pub open spec fn event_diagnostics(rows: Seq<EventRow>) -> Seq<(Seq<char>, SavedSqliteRow)>
    decreases rows.len(),
{
    if rows.len() == 0 {
        Seq::empty()
    } else {
        event_diagnostics(rows.drop_last()) + event_row_diagnostics(rows.last())
    }
}

/// Decodes a batch of event rows. Every row that becomes a record does so in
/// row order; a row that does not is skipped with a diagnostic and never
/// fails the batch.
pub fn decode_event_rows(rows: Vec<EventRow>, errors: &mut Vec<EventReaderError>) -> (r: Vec<
    PersistedEvent,
>)
    ensures
        r@.len() == decodable_rows(rows@).len(),
        forall|i: int| 0 <= i < r@.len() ==> decodes_to(decodable_rows(rows@)[i], #[trigger] r@[i]),
        diagnostics_view(final(errors)@) == diagnostics_view(old(errors)@) + event_diagnostics(
            rows@,
        ),
{
    let mut events: Vec<PersistedEvent> = Vec::new();
    let ghost all = rows@;
    let ghost start = diagnostics_view(errors@);
    proof {
        assert(start + event_diagnostics(all.take(0)) =~= start);
    }
    for row in it: rows.into_iter()
        invariant
            it.seq() == all,
            events@.len() == decodable_rows(all.take(it.index() as int)).len(),
            forall|i: int|
                0 <= i < events@.len() ==> decodes_to(
                    decodable_rows(all.take(it.index() as int))[i],
                    #[trigger] events@[i],
                ),
            diagnostics_view(errors@) == start + event_diagnostics(all.take(it.index() as int)),
    {
        proof {
            assert(all.take(it.index() + 1).drop_last() =~= all.take(it.index() as int));
            assert(all.take(it.index() + 1).last() == row);
        }
        let ghost before = diagnostics_view(errors@);
        let ghost this_row = row;
        let decoded = decode_event_row(row, errors);
        assert(diagnostics_view(errors@) =~= start + event_diagnostics(all.take(it.index() + 1)));
        if let Some(event) = decoded {
            events.push(event);
            assert(decodable_rows(all.take(it.index() + 1)) == decodable_rows(
                all.take(it.index() as int),
            ).push(this_row));
        }
    }
    proof {
        assert(all.take(all.len() as int) =~= all);
    }
    events
}

/// The number of rows that lack a required value.
pub open spec fn incomplete_count(rows: Seq<EventRow>) -> nat
    decreases rows.len(),
{
    if rows.len() == 0 {
        0
    } else {
        incomplete_count(rows.drop_last()) + if event_row_complete(rows.last()) {
            0nat
        } else {
            1nat
        }
    }
}

/// Correlation rows that all carry an identifier give no diagnostics.
pub proof fn lemma_no_null_ids(rows: Seq<CorrelationRow>, table: Seq<char>)
    requires
        forall|i: int| 0 <= i < rows.len() ==> (#[trigger] rows[i]).id is Some,
    ensures
        null_id_diagnostics(rows, table) == Seq::<(Seq<char>, SavedSqliteRow)>::empty(),
    decreases rows.len(),
{
    if rows.len() > 0 {
        assert(rows.last() == rows[rows.len() - 1]);
        lemma_no_null_ids(rows.drop_last(), table);
    }
}

/// Reader resilience: of N event rows of which M lack a required value
/// (the tick counts that are present decoding, and every correlation row
/// carrying an identifier), exactly N - M become records and exactly M
/// diagnostics are recorded.
pub proof fn lemma_reader_resilience(rows: Seq<EventRow>)
    requires
        forall|i: int|
            0 <= i < rows.len() ==> ((#[trigger] rows[i]).timestamp matches Some(t)
                ==> decoded_ticks(t) is Ok),
        forall|i: int, j: int|
            0 <= i < rows.len() && 0 <= j < rows[i].category_rows@.len() ==> (
            #[trigger] rows[i].category_rows@[j]).id is Some,
        forall|i: int, j: int|
            0 <= i < rows.len() && 0 <= j < rows[i].tag_rows@.len() ==> (
            #[trigger] rows[i].tag_rows@[j]).id is Some,
    ensures
        decodable_rows(rows).len() + incomplete_count(rows) == rows.len(),
        event_diagnostics(rows).len() == incomplete_count(rows),
    decreases rows.len(),
{
    if rows.len() > 0 {
        let before = rows.drop_last();
        let last = rows.last();
        assert(last == rows[rows.len() - 1]);
        assert forall|i: int| 0 <= i < before.len() implies ((#[trigger] before[i]).timestamp matches Some(t)
            ==> decoded_ticks(t) is Ok) by {
            assert(before[i] == rows[i]);
        }
        assert forall|i: int, j: int|
            0 <= i < before.len() && 0 <= j < before[i].category_rows@.len() implies (
            #[trigger] before[i].category_rows@[j]).id is Some by {
            assert(before[i] == rows[i]);
        }
        assert forall|i: int, j: int|
            0 <= i < before.len() && 0 <= j < before[i].tag_rows@.len() implies (
            #[trigger] before[i].tag_rows@[j]).id is Some by {
            assert(before[i] == rows[i]);
        }
        lemma_reader_resilience(before);
        assert forall|j: int| 0 <= j < last.category_rows@.len() implies (
        #[trigger] last.category_rows@[j]).id is Some by {
            assert(rows[rows.len() - 1].category_rows@[j].id is Some);
        }
        assert forall|j: int| 0 <= j < last.tag_rows@.len() implies (
        #[trigger] last.tag_rows@[j]).id is Some by {
            assert(rows[rows.len() - 1].tag_rows@[j].id is Some);
        }
        lemma_no_null_ids(last.category_rows@, EVENT_CATEGORIES_TABLE@);
        lemma_no_null_ids(last.tag_rows@, EVENT_TAGS_TABLE@);
    }
}

} // verus!
