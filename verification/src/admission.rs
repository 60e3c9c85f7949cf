//! Durable admission of one bounded pgoutput event batch.
//!
//! This module owns validation, replay classification, counter allocation and
//! outcome checks. PostgreSQL executes one data-modifying statement that
//! commits the change rows, source tasks, staging bytes and transaction
//! counters together.

pub mod admitting;
pub mod conduct;
pub mod encoding;
pub mod requests;

use std::collections::{BTreeMap, HashMap, HashSet};

use vstd::prelude::*;

use crate::database::{self, require_count, required};
use crate::postgres::{self, format_lsn, quote_identifier};
use crate::session::{self, CellKind, Row};
use crate::sql::{SqlModel, Statement, StatementModel};
use crate::text::{
    self, fail, join, listed, render, same_text, signed_text, unsigned_text, Holes,
};

verus! {

/// Resolves a persistent source relation.
pub const SOURCE_SQL: &'static str =
    "SELECT namespace.nspname::text,
                        relation.relname::text
                   FROM pg_catalog.pg_class AS relation
                   JOIN pg_catalog.pg_namespace AS namespace
                     ON namespace.oid = relation.relnamespace
                  WHERE relation.oid = $1
                    AND relation.relkind IN ('r', 'p')
                    AND relation.relpersistence = 'p'";

/// Counts the events of a source that fit its row type.
pub const TYPED_SQL: &'static str =
    "SELECT count(
                        pg_catalog.jsonb_populate_record(
                            NULL::{source_type},
                            item.value -> 'payload'
                        )
                    )::bigint
               FROM pg_catalog.jsonb_array_elements($1::jsonb) AS item(value)
              WHERE (item.value ->> 'source_oid')::oid = $2";

/// Resolves the slot generation of a transaction.
pub const TRANSACTION_SQL: &'static str =
    "SELECT txn.slot_generation
               FROM shiba_internal.ingress_transactions AS txn
              WHERE txn.ingress_txn_id = $1";

/// Locks an active slot generation.
pub const GENERATION_SQL: &'static str =
    "SELECT 1
               FROM shiba_internal.ingress_replay_state AS replay
              WHERE replay.slot_generation = $1
                AND replay.state = 'active'
              FOR UPDATE";

/// Locks the header of a transaction.
pub const HEADER_SQL: &'static str =
    "SELECT txn.status,
                    txn.event_count,
                    txn.payload_bytes,
                    txn.batch_count,
                    txn.pending_publications
               FROM shiba_internal.ingress_transactions AS txn
              WHERE txn.ingress_txn_id = $1
              FOR UPDATE";

/// Compares a batch with what its transaction holds.
pub const CLASSIFY_SQL: &'static str =
    r#"
            WITH incoming AS MATERIALIZED (
                SELECT item.ordinality::bigint AS ordinal,
                       (item.value ->> 'change_lsn')::pg_lsn AS change_lsn,
                       (item.value ->> 'change_ordinal')::bigint AS change_ordinal,
                       (item.value ->> 'image_ordinal')::integer AS image_ordinal,
                       (item.value ->> 'source_subxid')::bigint AS source_subxid,
                       (item.value ->> 'source_oid')::oid AS source_oid,
                       (item.value ->> 'weight')::bigint AS weight,
                       item.value -> 'payload' AS payload
                  FROM pg_catalog.jsonb_array_elements($2::jsonb)
                       WITH ORDINALITY AS item(value, ordinality)
            ),
            matched AS MATERIALIZED (
                SELECT incoming.*,
                       existing.input_seq,
                       existing.source_subxid AS existing_source_subxid,
                       existing.source_oid AS existing_source_oid,
                       existing.weight AS existing_weight,
                       existing.payload AS existing_payload
                  FROM incoming
                  LEFT JOIN shiba_internal.change_log AS existing
                    ON existing.ingress_txn_id = $1
                   AND existing.change_lsn = incoming.change_lsn
                   AND existing.change_ordinal = incoming.change_ordinal
                   AND existing.image_ordinal = incoming.image_ordinal
            )
            SELECT count(*) FILTER (WHERE input_seq IS NULL)::bigint,
                   count(*) FILTER (WHERE input_seq IS NOT NULL)::bigint,
                   max(ordinal) FILTER (WHERE input_seq IS NOT NULL),
                   min(ordinal) FILTER (WHERE input_seq IS NULL),
                   min(input_seq),
                   max(input_seq),
                   coalesce(
                       bool_or(
                           input_seq IS NOT NULL
                           AND (
                               existing_source_oid IS DISTINCT FROM source_oid
                               OR existing_source_subxid IS DISTINCT FROM source_subxid
                               OR existing_weight IS DISTINCT FROM weight
                               OR existing_payload IS DISTINCT FROM payload
                           )
                       ),
                       false
                   ),
                   coalesce(
                       sum(pg_catalog.octet_length(
                           pg_catalog.jsonb_send(payload)
                       )) FILTER (WHERE input_seq IS NULL),
                       0
                   )::bigint
              FROM matched
            "#;

/// Writes a batch and moves the counters of its transaction with it.
pub const WRITE_BATCH_SQL: &'static str =
    r#"
WITH incoming AS MATERIALIZED (
    SELECT item.ordinality::bigint AS ordinal,
           (item.value ->> 'change_lsn')::pg_lsn AS change_lsn,
           (item.value ->> 'change_ordinal')::bigint AS change_ordinal,
           (item.value ->> 'image_ordinal')::integer AS image_ordinal,
           (item.value ->> 'source_subxid')::bigint AS source_subxid,
           (item.value ->> 'source_oid')::oid AS source_oid,
           (item.value ->> 'weight')::bigint AS weight,
           item.value -> 'payload' AS payload
      FROM pg_catalog.jsonb_array_elements($2::jsonb)
           WITH ORDINALITY AS item(value, ordinality)
),
new_events AS MATERIALIZED (
    SELECT incoming.*,
           $4 + pg_catalog.row_number() OVER (
               ORDER BY incoming.ordinal
           ) - 1 AS input_seq
      FROM incoming
     WHERE incoming.ordinal > $3
),
inserted AS (
    INSERT INTO shiba_internal.change_log (
        ingress_txn_id,
        change_lsn,
        change_ordinal,
        image_ordinal,
        source_subxid,
        input_seq,
        source_oid,
        weight,
        payload
    )
    SELECT $1,
           new_events.change_lsn,
           new_events.change_ordinal,
           new_events.image_ordinal,
           new_events.source_subxid,
           new_events.input_seq,
           new_events.source_oid,
           new_events.weight,
           new_events.payload
      FROM new_events
     ORDER BY new_events.ordinal
    RETURNING input_seq, source_oid, payload
),
inserted_facts AS MATERIALIZED (
    SELECT count(*)::bigint AS inserted_count,
           min(input_seq) AS first_input_seq,
           max(input_seq) AS last_input_seq,
           coalesce(
               sum(pg_catalog.octet_length(pg_catalog.jsonb_send(payload))),
               0
           )::bigint AS payload_bytes
      FROM inserted
),
publications AS (
    INSERT INTO shiba_internal.source_publications (
        ingress_txn_id,
        batch_ordinal,
        source_oid,
        first_input_seq,
        last_input_seq,
        next_input_seq
    )
    SELECT $1,
           $6,
           inserted.source_oid,
           $4,
           $5,
           min(inserted.input_seq)
      FROM inserted
      CROSS JOIN inserted_facts
     WHERE inserted_facts.inserted_count = $5 - $4 + 1
       AND inserted_facts.first_input_seq = $4
       AND inserted_facts.last_input_seq = $5
       AND inserted_facts.payload_bytes = $8
     GROUP BY inserted.source_oid
    RETURNING 1
),
publication_facts AS MATERIALIZED (
    SELECT count(*)::bigint AS task_count
      FROM publications
),
replay_updated AS (
    UPDATE shiba_internal.ingress_replay_state AS replay
       SET open_payload_bytes = replay.open_payload_bytes + $8,
           updated_at = clock_timestamp()
      FROM inserted_facts,
           publication_facts
     WHERE replay.slot_generation = $7
       AND inserted_facts.inserted_count = $5 - $4 + 1
       AND inserted_facts.first_input_seq = $4
       AND inserted_facts.last_input_seq = $5
       AND inserted_facts.payload_bytes = $8
       AND publication_facts.task_count = $9
       AND replay.open_payload_bytes
             <= pg_catalog.pg_size_bytes(
                    pg_catalog.current_setting('shiba.ingress_staging_limit')
                ) - $8
    RETURNING 1
),
header_updated AS (
    UPDATE shiba_internal.ingress_transactions AS txn
       SET event_count = $10,
           payload_bytes = $11,
           batch_count = $12,
           pending_publications = $13
      FROM replay_updated
     WHERE txn.ingress_txn_id = $1
       AND txn.status = 'open'
       AND txn.event_count = $14
       AND txn.payload_bytes = $15
       AND txn.batch_count = $16
       AND txn.pending_publications = $17
    RETURNING txn.event_count,
              txn.payload_bytes,
              txn.batch_count,
              txn.pending_publications
)
SELECT inserted_facts.inserted_count,
       inserted_facts.first_input_seq,
       inserted_facts.last_input_seq,
       inserted_facts.payload_bytes,
       publication_facts.task_count,
       (SELECT count(*)::bigint FROM replay_updated),
       (SELECT count(*)::bigint FROM header_updated),
       (SELECT header_updated.event_count FROM header_updated),
       (SELECT header_updated.payload_bytes FROM header_updated),
       (SELECT header_updated.batch_count FROM header_updated),
       (SELECT header_updated.pending_publications FROM header_updated)
  FROM inserted_facts
  CROSS JOIN publication_facts
"#;

/// What one admitted batch added and what it repeated.
#[derive(Clone, Copy, Debug, PartialEq, Eq, Structural)]
pub struct AdmissionFacts {
    pub inserted_count: i64,
    pub replayed_count: i64,
    pub first_input_seq: Option<i64>,
    pub last_input_seq: Option<i64>,
}

/// One row image of a source transaction.
#[derive(Clone, Debug, PartialEq, Eq)]
pub struct Event {
    pub change_lsn: u64,
    pub change_ordinal: u64,
    pub image_ordinal: u32,
    pub source_subxid: u32,
    pub source_oid: u32,
    pub weight: i64,
    /// The row as the JSON text that is written for it.
    pub payload: String,
}

/// One event as a mathematical value.
#[verifier::ext_equal]
pub struct EventModel {
    pub change_lsn: u64,
    pub change_ordinal: u64,
    pub image_ordinal: u32,
    pub source_subxid: u32,
    pub source_oid: u32,
    pub weight: i64,
    pub payload: Seq<char>,
}

impl View for Event {
    type V = EventModel;

    open spec fn view(&self) -> EventModel {
        EventModel {
            change_lsn: self.change_lsn,
            change_ordinal: self.change_ordinal,
            image_ordinal: self.image_ordinal,
            source_subxid: self.source_subxid,
            source_oid: self.source_oid,
            weight: self.weight,
            payload: self.payload@,
        }
    }
}

pub open spec fn models(events: Seq<Event>) -> Seq<EventModel> {
    Seq::new(events.len(), |index: int| events[index]@)
}

/// The state of an ingress transaction before a batch.
#[derive(Clone, Debug, PartialEq, Eq)]
pub struct Header {
    pub slot_generation: i64,
    pub status: String,
    pub event_count: i64,
    pub payload_bytes: i64,
    pub batch_count: i64,
    pub pending_publications: i64,
}

/// How a batch relates to what its transaction already holds.
#[derive(Clone, Copy, Debug, PartialEq, Eq, Structural)]
pub struct ReplayFacts {
    pub inserted_count: i64,
    pub replayed_count: i64,
    pub last_replayed_ordinal: Option<i64>,
    pub first_new_ordinal: Option<i64>,
    pub first_input_seq: Option<i64>,
    pub last_input_seq: Option<i64>,
    pub identity_conflict: bool,
    pub batch_payload_bytes: i64,
}

/// The counters that a batch moves its transaction to.
#[derive(Clone, Copy, Debug, PartialEq, Eq, Structural)]
pub struct Allocation {
    pub first_input_seq: i64,
    pub last_input_seq: i64,
    pub batch_ordinal: i64,
    pub task_count: i64,
    pub event_count: i64,
    pub payload_bytes: i64,
    pub batch_count: i64,
    pub pending_publications: i64,
}

/// What a write reported.
#[derive(Clone, Copy, Debug, PartialEq, Eq, Structural)]
pub struct WriteFacts {
    pub inserted_count: i64,
    pub first_input_seq: Option<i64>,
    pub last_input_seq: Option<i64>,
    pub payload_bytes: i64,
    pub task_count: i64,
    pub replay_updates: i64,
    pub header_updates: i64,
    pub event_count: Option<i64>,
    pub total_payload_bytes: Option<i64>,
    pub batch_count: Option<i64>,
    pub pending_publications: Option<i64>,
}

/// An ingress transaction has a positive identifier.
pub fn validate_transaction(ingress_txn_id: i64) -> (outcome: Result<(), String>)
    ensures
        text::agrees(
            outcome,
            text::holds(ingress_txn_id > 0, "ingress transaction ID must be positive"@),
        ),
{
    if ingress_txn_id <= 0 {
        return fail("ingress transaction ID must be positive");
    }
    Ok(())
}

/// Whether `serde_json` reads a text as a JSON object.
pub uninterp spec fn json_object(text: Seq<char>) -> bool;

/// `serde_json::from_str` into a map of `serde::de::IgnoredAny`: it succeeds on
/// the texts that are one JSON object, whatever its members hold and however
/// deep they nest. Which texts those are is left unsaid.
#[verifier::external_body]
fn reads_as_object(text: &str) -> (object: bool)
    ensures
        object == json_object(text@),
{
    serde_json::from_str::<BTreeMap<String, serde::de::IgnoredAny>>(text).is_ok()
}

impl EventModel {
    /// Whether the values of an event fit the database, given whether its
    /// payload is a JSON object.
    pub open spec fn fits(self, object: bool) -> bool {
        self.change_ordinal <= i64::MAX && self.image_ordinal <= i32::MAX && self.source_oid != 0
            && (self.weight == -1 || self.weight == 1) && object
    }

    /// The stable identity of an event.
    pub open spec fn identity(self) -> (u64, u64, u32) {
        (self.change_lsn, self.change_ordinal, self.image_ordinal)
    }
}

/// Whether the values of an event fit the database.
pub fn event_fits(event: &Event, object: bool) -> (fits: bool)
    ensures
        fits == event@.fits(object),
{
    event.change_ordinal <= i64::MAX as u64 && event.image_ordinal <= i32::MAX as u32
        && event.source_oid != 0 && (event.weight == -1 || event.weight == 1) && object
}

/// Whether an event repeats the identity of an earlier one.
pub open spec fn repeats(events: Seq<EventModel>, index: int) -> bool {
    exists|earlier: int|
        0 <= earlier < index && (#[trigger] events[earlier]).identity()
            == events[index].identity()
}

/// The check of one event of a batch.
pub open spec fn event_check(events: Seq<EventModel>, index: int) -> Result<(), Seq<char>> {
    text::both(
        text::holds(
            events[index].fits(json_object(events[index].payload)),
            "ingress event batch contains an invalid value"@,
        ),
        text::holds(
            !repeats(events, index),
            "ingress event batch repeats a stable event identity"@,
        ),
    )
}

/// The checks of a batch, event by event.
pub open spec fn event_checks(events: Seq<EventModel>) -> Seq<Result<(), Seq<char>>> {
    Seq::new(events.len(), |index: int| event_check(events, index))
}

/// Whether a batch can be admitted: every value fits, and no identity occurs
/// twice.
pub open spec fn batch_sound(events: Seq<EventModel>) -> Result<(), Seq<char>> {
    text::both(
        text::all_hold(event_checks(events)),
        text::holds(events.len() <= i64::MAX, "ingress event batch exceeds bigint"@),
    )
}

/// The position of an event in its transaction as one number.
spec fn position_key(event: EventModel) -> u128 {
    (event.change_lsn * 0x1_0000_0000_0000_0000 + event.change_ordinal) as u128
}

proof fn position_key_is_injective(left: EventModel, right: EventModel)
    ensures
        position_key(left) == position_key(right) <==> left.change_lsn == right.change_lsn
            && left.change_ordinal == right.change_ordinal,
{
    assert(0 <= left.change_lsn * 0x1_0000_0000_0000_0000 + left.change_ordinal <= u128::MAX);
    assert(0 <= right.change_lsn * 0x1_0000_0000_0000_0000 + right.change_ordinal <= u128::MAX);
}

/// The image ordinals that each position has so far.
spec fn seen_so_far(
    seen: Map<u128, Vec<u32>>,
    events: Seq<EventModel>,
    count: int,
) -> bool {
    &&& forall|index: int|
        0 <= index < count ==> seen.contains_key(position_key(#[trigger] events[index]))
            && seen[position_key(events[index])]@.contains(events[index].image_ordinal)
    &&& forall|key: u128, image: u32|
        seen.contains_key(key) && (#[trigger] seen[key]@.contains(image)) ==> exists|index: int|
            0 <= index < count && position_key(#[trigger] events[index]) == key
                && events[index].image_ordinal == image
}

fn contains_image(images: &Vec<u32>, image: u32) -> (contains: bool)
    ensures
        contains == images@.contains(image),
{
    let mut index: usize = 0;
    while index < images.len()
        invariant
            index <= images.len(),
            forall|k: int| 0 <= k < index ==> images@[k] != image,
        decreases images.len() - index,
    {
        if images[index] == image {
            return true;
        }
        index = index + 1;
    }
    false
}

/// Checks the events of a batch.
pub fn validate_events(events: &Vec<Event>) -> (outcome: Result<(), String>)
    ensures
        text::agrees(outcome, batch_sound(models(events@))),
{
    broadcast use vstd::std_specs::hash::group_hash_axioms;

    let ghost batch = models(events@);
    let ghost checks = event_checks(batch);
    let mut seen: HashMap<u128, Vec<u32>> = HashMap::new();
    let mut index: usize = 0;
    assert(checks.take(0) =~= Seq::empty());
    while index < events.len()
        invariant
            index <= events.len(),
            batch == models(events@),
            checks == event_checks(batch),
            seen_so_far(seen@, batch, index as int),
            text::all_hold(checks.take(index as int)) is Ok,
        decreases events.len() - index,
    {
        let event = &events[index];
        proof {
            text::next_check_decides(checks, index as int);
        }
        if !event_fits(event, reads_as_object(event.payload.as_str())) {
            return fail("ingress event batch contains an invalid value");
        }
        let key: u128 = event.change_lsn as u128 * 0x1_0000_0000_0000_0000
            + event.change_ordinal as u128;
        assert(key == position_key(batch[index as int]));
        let ghost before = seen@;
        let mut images: Vec<u32> = match seen.remove(&key) {
            Some(images) => images,
            None => Vec::new(),
        };
        if contains_image(&images, event.image_ordinal) {
            proof {
                assert(before[key]@.contains(event.image_ordinal));
                let earlier = choose|earlier: int|
                    0 <= earlier < index && position_key(#[trigger] batch[earlier]) == key
                        && batch[earlier].image_ordinal == event.image_ordinal;
                position_key_is_injective(batch[earlier], batch[index as int]);
                assert(batch[earlier].identity() == batch[index as int].identity());
                assert(repeats(batch, index as int));
            }
            return fail("ingress event batch repeats a stable event identity");
        }
        proof {
            if repeats(batch, index as int) {
                let earlier = choose|earlier: int|
                    0 <= earlier < index && (#[trigger] batch[earlier]).identity()
                        == batch[index as int].identity();
                position_key_is_injective(batch[earlier], batch[index as int]);
                assert(before.contains_key(position_key(batch[earlier])));
                assert(false);
            }
        }
        let ghost known = images@;
        images.push(event.image_ordinal);
        let ghost grown = images@;
        seen.insert(key, images);
        proof {
            let now = seen@;
            assert(grown[known.len() as int] == event.image_ordinal);
            assert(now[key]@ == grown);
            assert forall|k: int| 0 <= k < index + 1 implies now.contains_key(
                position_key(#[trigger] batch[k]),
            ) && now[position_key(batch[k])]@.contains(batch[k].image_ordinal) by {
                if k < index {
                    assert(before[position_key(batch[k])]@.contains(batch[k].image_ordinal));
                    if position_key(batch[k]) == key {
                        let at = choose|at: int|
                            0 <= at < known.len() && known[at] == batch[k].image_ordinal;
                        assert(grown[at] == batch[k].image_ordinal);
                    }
                }
            }
            assert forall|k: u128, image: u32|
                now.contains_key(k) && (#[trigger] now[k]@.contains(image)) implies exists|i: int|
                0 <= i < index + 1 && position_key(#[trigger] batch[i]) == k
                    && batch[i].image_ordinal == image by {
                if k == key {
                    let at = choose|at: int| 0 <= at < grown.len() && grown[at] == image;
                    if at == known.len() {
                        assert(position_key(batch[index as int]) == k);
                    } else {
                        assert(known[at] == image);
                        assert(before.contains_key(key));
                        assert(before[key]@.contains(image));
                    }
                } else {
                    assert(before.contains_key(k) && before[k]@.contains(image));
                }
            }
        }
        index = index + 1;
    }
    assert(checks.take(checks.len() as int) =~= checks);
    if events.len() as u64 > i64::MAX as u64 {
        return fail("ingress event batch exceeds bigint");
    }
    Ok(())
}

/// The JSON text of one event: its members in alphabetical order, its
/// position as text, its payload as it is.
pub open spec fn event_text(event: EventModel) -> Seq<char> {
    "{\"change_lsn\":\""@ + postgres::lsn_text(event.change_lsn) + "\",\"change_ordinal\":"@
        + text::decimal(event.change_ordinal as int) + ",\"image_ordinal\":"@ + text::decimal(
        event.image_ordinal as int,
    ) + ",\"payload\":"@ + event.payload + ",\"source_oid\":"@ + text::decimal(
        event.source_oid as int,
    ) + ",\"source_subxid\":"@ + text::decimal(event.source_subxid as int) + ",\"weight\":"@
        + text::decimal(event.weight as int) + "}"@
}

fn encode_event(event: &Event) -> (text: String)
    ensures
        text@ == event_text(event@),
{
    let mut text = "{\"change_lsn\":\"".to_owned();
    text.append(format_lsn(event.change_lsn).as_str());
    text.append("\",\"change_ordinal\":");
    text.append(unsigned_text(event.change_ordinal).as_str());
    text.append(",\"image_ordinal\":");
    text.append(unsigned_text(event.image_ordinal as u64).as_str());
    text.append(",\"payload\":");
    text.append(event.payload.as_str());
    text.append(",\"source_oid\":");
    text.append(unsigned_text(event.source_oid as u64).as_str());
    text.append(",\"source_subxid\":");
    text.append(unsigned_text(event.source_subxid as u64).as_str());
    text.append(",\"weight\":");
    text.append(signed_text(event.weight).as_str());
    text.append("}");
    text
}

/// The JSON text of a batch: the array of its events in order.
pub open spec fn batch_text(events: Seq<EventModel>) -> Seq<char> {
    "["@ + text::joined(Seq::new(events.len(), |index: int| event_text(events[index])), ","@)
        + "]"@
}

pub fn encode_events(events: &Vec<Event>) -> (text: String)
    ensures
        text@ == batch_text(models(events@)),
{
    let list = listed(
        events.len(),
        |index: usize| -> (item: String)
            requires
                index < events.len(),
            ensures
                item@ == event_text(events@[index as int]@)
            { encode_event(&events[index]) },
    );
    proof {
        let batch = models(events@);
        assert(text::texts(list@) =~= Seq::new(
            batch.len(),
            |index: int| event_text(batch[index]),
        ));
    }
    let mut text = "[".to_owned();
    text.append(join(&list, ",").as_str());
    text.append("]");
    text
}

/// One source of a batch and how many of its events are of it.
#[derive(Clone, Copy, Debug, PartialEq, Eq, Structural)]
pub struct SourceCount {
    pub source_oid: u32,
    pub expected: i64,
}

/// How many events of a batch are of a source.
pub open spec fn events_of(events: Seq<EventModel>, source_oid: u32) -> nat
    decreases events.len(),
{
    if events.len() == 0 {
        0
    } else {
        events_of(events.drop_last(), source_oid) + (if events.last().source_oid == source_oid {
            1nat
        } else {
            0nat
        })
    }
}

/// Whether a list holds exactly the sources of a batch, in ascending order.
pub open spec fn counts_sources(list: Seq<SourceCount>, events: Seq<EventModel>) -> bool {
    &&& forall|left: int, right: int|
        0 <= left < right < list.len() ==> (#[trigger] list[left]).source_oid < (
        #[trigger] list[right]).source_oid
    &&& forall|index: int|
        0 <= index < list.len() ==> (#[trigger] list[index]).expected == events_of(
            events,
            list[index].source_oid,
        ) && list[index].expected > 0
    &&& forall|source_oid: u32|
        #[trigger] events_of(events, source_oid) > 0 ==> exists|index: int|
            0 <= index < list.len() && (#[trigger] list[index]).source_oid == source_oid
}

proof fn events_of_is_bounded(events: Seq<EventModel>, source_oid: u32)
    ensures
        events_of(events, source_oid) <= events.len(),
    decreases events.len(),
{
    if events.len() > 0 {
        events_of_is_bounded(events.drop_last(), source_oid);
    }
}

proof fn events_of_next(events: Seq<EventModel>, event: EventModel)
    ensures
        forall|oid: u32| #[trigger]
            events_of(events.push(event), oid) == events_of(events, oid) + (if oid
                == event.source_oid {
                1nat
            } else {
                0nat
            }),
{
    assert(events.push(event).drop_last() =~= events);
}

/// One more event of a known source raises its count.
proof fn known_source_counted(list: Seq<SourceCount>, events: Seq<EventModel>, event: EventModel, at: int)
    requires
        counts_sources(list, events),
        0 <= at < list.len(),
        list[at].source_oid == event.source_oid,
        list[at].expected < i64::MAX,
    ensures
        counts_sources(
            list.update(
                at,
                SourceCount {
                    source_oid: event.source_oid,
                    expected: (list[at].expected + 1) as i64,
                },
            ),
            events.push(event),
        ),
{
    let grown = list.update(
        at,
        SourceCount { source_oid: event.source_oid, expected: (list[at].expected + 1) as i64 },
    );
    let batch = events.push(event);
    events_of_next(events, event);
    assert forall|index: int| 0 <= index < grown.len() implies (#[trigger] grown[index]).source_oid
        == list[index].source_oid by {}
    assert forall|left: int, right: int| 0 <= left < right < grown.len() implies (
    #[trigger] grown[left]).source_oid < (#[trigger] grown[right]).source_oid by {
        assert(list[left].source_oid < list[right].source_oid);
    }
    assert forall|index: int| 0 <= index < grown.len() implies (#[trigger] grown[index]).expected
        == events_of(batch, grown[index].source_oid) && grown[index].expected > 0 by {
        assert(list[index].expected == events_of(events, list[index].source_oid));
        if index < at {
            assert(list[index].source_oid < list[at].source_oid);
        } else if index > at {
            assert(list[at].source_oid < list[index].source_oid);
        }
    }
    assert forall|oid: u32| #[trigger] events_of(batch, oid) > 0 implies exists|index: int|
        0 <= index < grown.len() && (#[trigger] grown[index]).source_oid == oid by {
        if oid == event.source_oid {
            assert(grown[at].source_oid == oid);
        } else {
            assert(events_of(events, oid) > 0);
            let index = choose|index: int|
                0 <= index < list.len() && (#[trigger] list[index]).source_oid == oid;
            assert(grown[index].source_oid == oid);
        }
    }
}

/// The first event of a source puts it where the order wants it.
proof fn new_source_counted(list: Seq<SourceCount>, events: Seq<EventModel>, event: EventModel, at: int)
    requires
        counts_sources(list, events),
        0 <= at <= list.len(),
        forall|index: int|
            0 <= index < at ==> (#[trigger] list[index]).source_oid < event.source_oid,
        at < list.len() ==> list[at].source_oid > event.source_oid,
    ensures
        counts_sources(
            list.insert(at, SourceCount { source_oid: event.source_oid, expected: 1 }),
            events.push(event),
        ),
{
    let grown = list.insert(at, SourceCount { source_oid: event.source_oid, expected: 1 });
    let batch = events.push(event);
    events_of_next(events, event);
    assert forall|index: int| at <= index < list.len() implies (#[trigger] list[index]).source_oid
        > event.source_oid by {
        if index > at {
            assert(list[at].source_oid < list[index].source_oid);
        }
    }
    assert(events_of(events, event.source_oid) == 0) by {
        if events_of(events, event.source_oid) > 0 {
            let index = choose|index: int|
                0 <= index < list.len() && (#[trigger] list[index]).source_oid == event.source_oid;
            assert(list[index].source_oid != event.source_oid);
        }
    }
    assert forall|left: int, right: int| 0 <= left < right < grown.len() implies (
    #[trigger] grown[left]).source_oid < (#[trigger] grown[right]).source_oid by {
        let from = if left < at {
            left
        } else {
            left - 1
        };
        let to = if right < at {
            right
        } else {
            right - 1
        };
        if left != at && right != at {
            assert(list[from].source_oid < list[to].source_oid);
            assert(grown[left] == list[from] && grown[right] == list[to]);
        } else if left == at {
            assert(grown[right] == list[to]);
        } else {
            assert(grown[left] == list[from]);
        }
    }
    assert forall|index: int| 0 <= index < grown.len() implies (#[trigger] grown[index]).expected
        == events_of(batch, grown[index].source_oid) && grown[index].expected > 0 by {
        if index < at {
            assert(grown[index] == list[index]);
        } else if index > at {
            assert(grown[index] == list[index - 1]);
        }
    }
    assert forall|oid: u32| #[trigger] events_of(batch, oid) > 0 implies exists|index: int|
        0 <= index < grown.len() && (#[trigger] grown[index]).source_oid == oid by {
        if oid == event.source_oid {
            assert(grown[at].source_oid == oid);
        } else {
            assert(events_of(events, oid) > 0);
            let index = choose|index: int|
                0 <= index < list.len() && (#[trigger] list[index]).source_oid == oid;
            if index < at {
                assert(grown[index].source_oid == oid);
            } else {
                assert(grown[index + 1].source_oid == oid);
            }
        }
    }
}

fn source_slot(list: &Vec<SourceCount>, source_oid: u32) -> (at: usize)
    ensures
        at <= list.len(),
        forall|index: int|
            0 <= index < at ==> (#[trigger] list@[index]).source_oid < source_oid,
        at < list.len() ==> list@[at as int].source_oid >= source_oid,
{
    let mut at: usize = 0;
    while at < list.len() && list[at].source_oid < source_oid
        invariant
            at <= list.len(),
            forall|index: int|
                0 <= index < at ==> (#[trigger] list@[index]).source_oid < source_oid,
        decreases list.len() - at,
    {
        at = at + 1;
    }
    at
}

/// The sources of a batch in ascending order, each with its number of events.
pub fn source_counts(events: &Vec<Event>) -> (list: Vec<SourceCount>)
    requires
        events.len() <= i64::MAX,
    ensures
        counts_sources(list@, models(events@)),
{
    let ghost batch = models(events@);
    let mut list: Vec<SourceCount> = Vec::new();
    let mut index: usize = 0;
    while index < events.len()
        invariant
            index <= events.len() <= i64::MAX,
            batch == models(events@),
            counts_sources(list@, batch.take(index as int)),
        decreases events.len() - index,
    {
        let source_oid: u32 = events[index].source_oid;
        let ghost before = batch.take(index as int);
        let ghost known = list@;
        proof {
            assert(batch.take(index + 1) =~= before.push(batch[index as int]));
            events_of_is_bounded(before, source_oid);
        }
        let at: usize = source_slot(&list, source_oid);
        if at < list.len() && list[at].source_oid == source_oid {
            let expected: i64 = list[at].expected + 1;
            list.set(at, SourceCount { source_oid, expected });
            proof {
                known_source_counted(known, before, batch[index as int], at as int);
            }
        } else {
            list.insert(at, SourceCount { source_oid, expected: 1 });
            proof {
                new_source_counted(known, before, batch[index as int], at as int);
            }
        }
        index = index + 1;
    }
    assert(batch.take(batch.len() as int) =~= batch);
    list
}

/// Resolves a source relation.
pub open spec fn source_query(source_oid: u32) -> StatementModel {
    StatementModel {
        sql: SOURCE_SQL@,
        arguments: seq![SqlModel::Oid(source_oid)],
    }
}

/// The statement that resolves a persistent source relation.
pub fn source_statement(source_oid: u32) -> (statement: Statement)
    ensures
        statement@ == source_query(source_oid),
{
    Statement::new(SOURCE_SQL.to_owned()).oid(source_oid)
}

/// The row type of a source from its catalog row.
pub open spec fn source_resolved(
    rows: usize,
    namespace: Option<String>,
    relation: Option<String>,
) -> Result<Seq<char>, Seq<char>> {
    match database::count_required(rows, 1, "persistent ingress source"@) {
        Err(message) => Err(message),
        Ok(()) => match (namespace, relation) {
            (None, _) => Err("database returned NULL ingress source namespace"@),
            (Some(_), None) => Err("database returned NULL ingress source relation"@),
            (Some(namespace), Some(relation)) => Ok(
                postgres::quoted(namespace@) + "."@ + postgres::quoted(relation@),
            ),
        },
    }
}

pub fn source_type(rows: usize, namespace: &Option<String>, relation: &Option<String>) -> (outcome:
    Result<String, String>)
    ensures
        text::agrees_view(outcome, source_resolved(rows, *namespace, *relation)),
{
    require_count(rows, 1, "persistent ingress source")?;
    match namespace {
        None => fail("database returned NULL ingress source namespace"),
        Some(namespace) => match relation {
            None => fail("database returned NULL ingress source relation"),
            Some(relation) => {
                let mut name = quote_identifier(namespace.as_str());
                name.append(".");
                name.append(quote_identifier(relation.as_str()).as_str());
                Ok(name)
            },
        },
    }
}

/// Counts the payloads of a source that read as its rows.
pub open spec fn typed_query(
    source_type: Seq<char>,
    encoded: Seq<char>,
    source_oid: u32,
) -> StatementModel {
    StatementModel {
        sql: text::rendered(TYPED_SQL@, seq![("source_type"@, source_type)]),
        arguments: seq![SqlModel::Text(Some(encoded)), SqlModel::Oid(source_oid)],
    }
}

/// The statement that counts the events of a source that fit its row type.
pub fn typed_statement(source_type: &str, encoded: &str, source_oid: u32) -> (statement: Statement)
    ensures
        statement@ == typed_query(source_type@, encoded@, source_oid),
{
    let holes = Holes::new().bind("source_type", source_type);
    assert(holes@ =~= seq![("source_type"@, source_type@)]);
    Statement::new(render(TYPED_SQL, holes)).text(encoded).oid(source_oid)
}

/// Whether every event of a source fits its row type.
pub open spec fn source_typed(source: SourceCount, rows: usize, actual: Option<i64>) -> Result<
    (),
    Seq<char>,
> {
    match database::count_required(rows, 1, "typed ingress validation"@) {
        Err(message) => Err(message),
        Ok(()) => match database::required_value(actual, "typed ingress row count"@) {
            Err(message) => Err(message),
            Ok(actual) => text::holds(
                actual == source.expected,
                "typed ingress validation for source "@ + text::decimal(source.source_oid as int)
                    + " returned "@ + text::decimal(actual as int) + " rows, expected "@
                    + text::decimal(source.expected as int),
            ),
        },
    }
}

pub fn validate_source(source: SourceCount, rows: usize, actual: Option<i64>) -> (outcome: Result<
    (),
    String,
>)
    ensures
        text::agrees(outcome, source_typed(source, rows, actual)),
{
    require_count(rows, 1, "typed ingress validation")?;
    let actual: i64 = required(actual, "typed ingress row count")?;
    if actual != source.expected {
        let mut message = "typed ingress validation for source ".to_owned();
        message.append(unsigned_text(source.source_oid as u64).as_str());
        message.append(" returned ");
        message.append(signed_text(actual).as_str());
        message.append(" rows, expected ");
        message.append(signed_text(source.expected).as_str());
        return Err(message);
    }
    Ok(())
}

/// Resolves the generation of a transaction.
pub open spec fn transaction_query(ingress_txn_id: i64) -> StatementModel {
    StatementModel {
        sql: TRANSACTION_SQL@,
        arguments: seq![SqlModel::BigInt(Some(ingress_txn_id))],
    }
}

/// The statement that resolves the slot generation of a transaction.
pub fn transaction_statement(ingress_txn_id: i64) -> (statement: Statement)
    ensures
        statement@ == transaction_query(ingress_txn_id),
{
    Statement::new(TRANSACTION_SQL.to_owned()).bigint(ingress_txn_id)
}

/// The generation of a transaction.
pub open spec fn generation(rows: usize, slot_generation: Option<i64>) -> Result<i64, Seq<char>> {
    match database::count_required(rows, 1, "ingress transaction"@) {
        Err(message) => Err(message),
        Ok(()) => database::required_value(slot_generation, "ingress slot generation"@),
    }
}

/// Decodes the slot generation of a transaction.
pub fn decode_generation(rows: usize, slot_generation: Option<i64>) -> (outcome: Result<
    i64,
    String,
>)
    ensures
        text::agrees(outcome, generation(rows, slot_generation)),
{
    require_count(rows, 1, "ingress transaction")?;
    required(slot_generation, "ingress slot generation")
}

/// Locks an active generation.
pub open spec fn generation_query(slot_generation: i64) -> StatementModel {
    StatementModel {
        sql: GENERATION_SQL@,
        arguments: seq![SqlModel::BigInt(Some(slot_generation))],
    }
}

/// The statement that locks an active slot generation.
pub fn generation_statement(slot_generation: i64) -> (statement: Statement)
    ensures
        statement@ == generation_query(slot_generation),
{
    Statement::new(GENERATION_SQL.to_owned()).bigint(slot_generation)
}

/// Checks that the slot generation is active and locked.
pub fn require_generation(rows: usize) -> (outcome: Result<(), String>)
    ensures
        text::agrees(outcome, database::count_required(rows, 1, "active ingress generation"@)),
{
    require_count(rows, 1, "active ingress generation")
}

/// Locks the header of a transaction.
pub open spec fn header_query(ingress_txn_id: i64) -> StatementModel {
    StatementModel {
        sql: HEADER_SQL@,
        arguments: seq![SqlModel::BigInt(Some(ingress_txn_id))],
    }
}

/// The statement that locks the header of a transaction.
pub fn header_statement(ingress_txn_id: i64) -> (statement: Statement)
    ensures
        statement@ == header_query(ingress_txn_id),
{
    Statement::new(HEADER_SQL.to_owned()).bigint(ingress_txn_id)
}

/// The header of a transaction as the database returned it.
#[derive(Clone, Debug, PartialEq, Eq)]
pub struct HeaderRow {
    pub status: Option<String>,
    pub event_count: Option<i64>,
    pub payload_bytes: Option<i64>,
    pub batch_count: Option<i64>,
    pub pending_publications: Option<i64>,
}

impl HeaderRow {
    /// The columns of the first returned row, in order.
    pub open spec fn of(rows: Seq<Row>) -> HeaderRow {
        HeaderRow {
            status: session::text(rows, 1),
            event_count: session::bigint(rows, 2),
            payload_bytes: session::bigint(rows, 3),
            batch_count: session::bigint(rows, 4),
            pending_publications: session::bigint(rows, 5),
        }
    }

    pub fn read(rows: &Vec<Row>) -> (row: HeaderRow)
        ensures
            row == HeaderRow::of(rows@),
    {
        HeaderRow {
            status: session::first_text(rows, 1),
            event_count: session::first_bigint(rows, 2),
            payload_bytes: session::first_bigint(rows, 3),
            batch_count: session::first_bigint(rows, 4),
            pending_publications: session::first_bigint(rows, 5),
        }
    }
}

impl HeaderRow {
    pub open spec fn complete(self) -> Result<(), Seq<char>> {
        text::both(
            text::holds(
                self.status is Some,
                "database returned NULL "@ + "ingress transaction status"@,
            ),
            text::four(
                text::checked(database::required_value(self.event_count, "ingress event count"@)),
                text::checked(
                    database::required_value(self.payload_bytes, "ingress payload bytes"@),
                ),
                text::checked(database::required_value(self.batch_count, "ingress batch count"@)),
                text::checked(
                    database::required_value(
                        self.pending_publications,
                        "pending publication count"@,
                    ),
                ),
            ),
        )
    }

    /// The header that the row describes.
    pub open spec fn header(self, slot_generation: i64) -> Header {
        Header {
            slot_generation,
            status: self.status->0,
            event_count: self.event_count->0,
            payload_bytes: self.payload_bytes->0,
            batch_count: self.batch_count->0,
            pending_publications: self.pending_publications->0,
        }
    }
}

/// The locked header of a transaction.
pub open spec fn headed(
    rows: usize,
    row: HeaderRow,
    slot_generation: i64,
) -> Result<Header, Seq<char>> {
    text::guarded(
        text::both(
            database::count_required(rows, 1, "locked ingress transaction"@),
            row.complete(),
        ),
        row.header(slot_generation),
    )
}

/// Decodes the locked header of a transaction.
pub fn decode_header(rows: usize, row: &HeaderRow, slot_generation: i64) -> (outcome: Result<
    Header,
    String,
>)
    ensures
        text::agrees(outcome, headed(rows, *row, slot_generation)),
{
    require_count(rows, 1, "locked ingress transaction")?;
    let status = match &row.status {
        None => return Err("database returned NULL ".to_owned().concat("ingress transaction status")),
        Some(status) => status.clone(),
    };
    Ok(
        Header {
            slot_generation,
            status,
            event_count: required(row.event_count, "ingress event count")?,
            payload_bytes: required(row.payload_bytes, "ingress payload bytes")?,
            batch_count: required(row.batch_count, "ingress batch count")?,
            pending_publications: required(row.pending_publications, "pending publication count")?,
        },
    )
}

/// Compares a batch with what its transaction holds.
pub open spec fn classify_query(ingress_txn_id: i64, encoded: Seq<char>) -> StatementModel {
    StatementModel {
        sql: CLASSIFY_SQL@,
        arguments: seq![
            SqlModel::BigInt(Some(ingress_txn_id)),
            SqlModel::Text(Some(encoded)),
        ],
    }
}

/// The statement that compares a batch with what its transaction holds.
pub fn classify_statement(ingress_txn_id: i64, encoded: &str) -> (statement: Statement)
    ensures
        statement@ == classify_query(ingress_txn_id, encoded@),
{
    Statement::new(CLASSIFY_SQL.to_owned()).bigint(ingress_txn_id).text(encoded)
}

/// The comparison of a batch as the database returned it.
#[derive(Clone, Copy, Debug, PartialEq, Eq, Structural)]
pub struct ReplayRow {
    pub inserted_count: Option<i64>,
    pub replayed_count: Option<i64>,
    pub last_replayed_ordinal: Option<i64>,
    pub first_new_ordinal: Option<i64>,
    pub first_input_seq: Option<i64>,
    pub last_input_seq: Option<i64>,
    pub identity_conflict: Option<bool>,
    pub batch_payload_bytes: Option<i64>,
}

impl ReplayRow {
    /// The types of the columns, in order.
    pub open spec fn kinds() -> Seq<CellKind> {
        seq![
            CellKind::BigInt,
            CellKind::BigInt,
            CellKind::BigInt,
            CellKind::BigInt,
            CellKind::BigInt,
            CellKind::BigInt,
            CellKind::Boolean,
            CellKind::BigInt,
        ]
    }

    pub fn column_kinds() -> (kinds: Vec<CellKind>)
        ensures
            kinds@ == ReplayRow::kinds(),
    {
        vec![
            CellKind::BigInt,
            CellKind::BigInt,
            CellKind::BigInt,
            CellKind::BigInt,
            CellKind::BigInt,
            CellKind::BigInt,
            CellKind::Boolean,
            CellKind::BigInt,
        ]
    }

    /// The columns of the first returned row, in order.
    pub open spec fn of(rows: Seq<Row>) -> ReplayRow {
        ReplayRow {
            inserted_count: session::bigint(rows, 1),
            replayed_count: session::bigint(rows, 2),
            last_replayed_ordinal: session::bigint(rows, 3),
            first_new_ordinal: session::bigint(rows, 4),
            first_input_seq: session::bigint(rows, 5),
            last_input_seq: session::bigint(rows, 6),
            identity_conflict: session::boolean(rows, 7),
            batch_payload_bytes: session::bigint(rows, 8),
        }
    }

    pub fn read(rows: &Vec<Row>) -> (row: ReplayRow)
        ensures
            row == ReplayRow::of(rows@),
    {
        ReplayRow {
            inserted_count: session::first_bigint(rows, 1),
            replayed_count: session::first_bigint(rows, 2),
            last_replayed_ordinal: session::first_bigint(rows, 3),
            first_new_ordinal: session::first_bigint(rows, 4),
            first_input_seq: session::first_bigint(rows, 5),
            last_input_seq: session::first_bigint(rows, 6),
            identity_conflict: session::first_boolean(rows, 7),
            batch_payload_bytes: session::first_bigint(rows, 8),
        }
    }
}

impl ReplayRow {
    pub open spec fn facts(self) -> Result<ReplayFacts, Seq<char>> {
        text::guarded(
            text::four(
                text::checked(
                    database::required_value(self.inserted_count, "new ingress event count"@),
                ),
                text::checked(
                    database::required_value(self.replayed_count, "replayed ingress event count"@),
                ),
                text::checked(
                    database::required_value(self.identity_conflict, "ingress identity conflict"@),
                ),
                text::checked(
                    database::required_value(
                        self.batch_payload_bytes,
                        "new ingress payload bytes"@,
                    ),
                ),
            ),
            ReplayFacts {
                inserted_count: self.inserted_count->0,
                replayed_count: self.replayed_count->0,
                last_replayed_ordinal: self.last_replayed_ordinal,
                first_new_ordinal: self.first_new_ordinal,
                first_input_seq: self.first_input_seq,
                last_input_seq: self.last_input_seq,
                identity_conflict: self.identity_conflict->0,
                batch_payload_bytes: self.batch_payload_bytes->0,
            },
        )
    }
}

/// How a batch relates to what its transaction holds.
pub open spec fn classified(rows: usize, row: ReplayRow) -> Result<ReplayFacts, Seq<char>> {
    match database::count_required(rows, 1, "ingress replay classification"@) {
        Err(message) => Err(message),
        Ok(()) => row.facts(),
    }
}

/// Decodes the comparison of a batch.
pub fn decode_replay(rows: usize, row: &ReplayRow) -> (outcome: Result<ReplayFacts, String>)
    ensures
        text::agrees(outcome, classified(rows, *row)),
{
    require_count(rows, 1, "ingress replay classification")?;
    let inserted_count: i64 = required(row.inserted_count, "new ingress event count")?;
    let replayed_count: i64 = required(row.replayed_count, "replayed ingress event count")?;
    let identity_conflict = required(row.identity_conflict, "ingress identity conflict")?;
    let batch_payload_bytes: i64 = required(
        row.batch_payload_bytes,
        "new ingress payload bytes",
    )?;
    Ok(
        ReplayFacts {
            inserted_count,
            replayed_count,
            last_replayed_ordinal: row.last_replayed_ordinal,
            first_new_ordinal: row.first_new_ordinal,
            first_input_seq: row.first_input_seq,
            last_input_seq: row.last_input_seq,
            identity_conflict,
            batch_payload_bytes,
        },
    )
}

/// Whether a batch may follow what its transaction holds: what it repeats is
/// the same and comes first, and only an open transaction grows.
pub open spec fn replay_sound(ingress_txn_id: i64, status: Seq<char>, replay: ReplayFacts) -> Result<
    (),
    Seq<char>,
> {
    let id = text::decimal(ingress_txn_id as int);
    text::four(
        text::holds(
            replay.inserted_count >= 0 && replay.replayed_count >= 0 && replay.batch_payload_bytes
                >= 0,
            "ingress replay returned negative facts"@,
        ),
        text::holds(
            !replay.identity_conflict,
            "ingress event identity conflict for transaction "@ + id,
        ),
        text::holds(
            !(replay.first_new_ordinal matches Some(new) && replay.last_replayed_ordinal matches Some(
                old,
            ) && new < old),
            "ingress replay for transaction "@ + id + " is not an existing prefix"@,
        ),
        text::holds(
            status == "open"@ || replay.inserted_count <= 0,
            "replay added events to ingress transaction "@ + id + " in terminal state "@ + status,
        ),
    )
}

fn precedes(new: Option<i64>, old: Option<i64>) -> (precedes: bool)
    ensures
        precedes == (new matches Some(new) && old matches Some(old) && new < old),
{
    match (new, old) {
        (Some(new), Some(old)) => new < old,
        _ => false,
    }
}

pub fn validate_replay(ingress_txn_id: i64, header: &Header, replay: ReplayFacts) -> (outcome:
    Result<(), String>)
    ensures
        text::agrees(outcome, replay_sound(ingress_txn_id, header.status@, replay)),
{
    if replay.inserted_count < 0 || replay.replayed_count < 0 || replay.batch_payload_bytes < 0 {
        return fail("ingress replay returned negative facts");
    }
    let id = signed_text(ingress_txn_id);
    if replay.identity_conflict {
        return Err(
            "ingress event identity conflict for transaction ".to_owned().concat(id.as_str()),
        );
    }
    if precedes(replay.first_new_ordinal, replay.last_replayed_ordinal) {
        let mut message = "ingress replay for transaction ".to_owned();
        message.append(id.as_str());
        message.append(" is not an existing prefix");
        return Err(message);
    }
    if !same_text(header.status.as_str(), "open") && replay.inserted_count > 0 {
        let mut message = "replay added events to ingress transaction ".to_owned();
        message.append(id.as_str());
        message.append(" in terminal state ");
        message.append(header.status.as_str());
        return Err(message);
    }
    Ok(())
}

/// The facts of a batch that adds nothing, or `None` where it has to be
/// written.
pub open spec fn replayed(status: Seq<char>, replay: ReplayFacts) -> Option<AdmissionFacts> {
    if status != "open"@ || replay.inserted_count == 0 {
        Some(
            AdmissionFacts {
                inserted_count: replay.inserted_count,
                replayed_count: replay.replayed_count,
                first_input_seq: replay.first_input_seq,
                last_input_seq: replay.last_input_seq,
            },
        )
    } else {
        None
    }
}

pub fn replayed_facts(header: &Header, replay: ReplayFacts) -> (facts: Option<AdmissionFacts>)
    ensures
        facts == replayed(header.status@, replay),
{
    if !same_text(header.status.as_str(), "open") || replay.inserted_count == 0 {
        return Some(
            AdmissionFacts {
                inserted_count: replay.inserted_count,
                replayed_count: replay.replayed_count,
                first_input_seq: replay.first_input_seq,
                last_input_seq: replay.last_input_seq,
            },
        );
    }
    None
}

/// The sources of the events of a batch behind a position.
pub open spec fn new_sources(events: Seq<EventModel>, from: int) -> Set<u32> {
    events.skip(from).map_values(|event: EventModel| event.source_oid).to_set()
}

/// The number of sources that a batch publishes: one task for each source of
/// its new events.
pub open spec fn publication_tasks(events: Seq<EventModel>, replayed: int) -> Result<
    i64,
    Seq<char>,
> {
    let count = new_sources(events, replayed).len();
    text::guarded(
        text::both(
            text::holds(
                count <= i64::MAX,
                "ingress publication task count exceeds bigint"@,
            ),
            text::holds(count >= 1, "new ingress batch has no source publication task"@),
        ),
        count as i64,
    )
}

/// Counts the publication tasks of a batch.
pub fn count_tasks(events: &Vec<Event>, replayed: usize) -> (outcome: Result<i64, String>)
    requires
        replayed <= events.len(),
    ensures
        text::agrees(outcome, publication_tasks(models(events@), replayed as int)),
{
    broadcast use vstd::std_specs::hash::group_hash_axioms;

    let ghost batch = models(events@);
    let ghost oids = batch.skip(replayed as int).map_values(
        |event: EventModel| event.source_oid,
    );
    let mut sources: HashSet<u32> = HashSet::new();
    let mut index: usize = replayed;
    assert(oids.take(0).to_set() =~= Set::<u32>::empty());
    while index < events.len()
        invariant
            replayed <= index <= events.len(),
            batch == models(events@),
            oids == batch.skip(replayed as int).map_values(|event: EventModel| event.source_oid),
            sources@ == oids.take(index - replayed).to_set(),
        decreases events.len() - index,
    {
        sources.insert(events[index].source_oid);
        proof {
            let before = oids.take(index - replayed);
            let now = oids.take(index - replayed + 1);
            assert(oids[index - replayed] == events@[index as int].source_oid);
            assert(now =~= before.push(oids[index - replayed]));
            assert(now.to_set() =~= before.to_set().insert(oids[index - replayed])) by {
                assert forall|oid: u32| now.to_set().contains(oid) == before.to_set().insert(
                    oids[index - replayed],
                ).contains(oid) by {
                    if now.contains(oid) {
                        let k = choose|k: int| 0 <= k < now.len() && now[k] == oid;
                        if k < before.len() {
                            assert(before[k] == oid);
                        }
                    }
                    if before.contains(oid) {
                        let k = choose|k: int| 0 <= k < before.len() && before[k] == oid;
                        assert(now[k] == oid);
                    }
                    assert(now[before.len() as int] == oids[index - replayed]);
                }
            }
        }
        index = index + 1;
    }
    assert(oids.take(oids.len() as int) =~= oids);
    let count: usize = sources.len();
    if count as u64 > i64::MAX as u64 {
        return fail("ingress publication task count exceeds bigint");
    }
    if count < 1 {
        return fail("new ingress batch has no source publication task");
    }
    Ok(count as i64)
}

/// The counters of a transaction.
#[derive(Clone, Copy, Debug, PartialEq, Eq, Structural)]
pub struct Counters {
    pub event_count: i64,
    pub payload_bytes: i64,
    pub batch_count: i64,
    pub pending_publications: i64,
}

impl Header {
    /// The counters of the transaction before a batch.
    pub open spec fn counters(self) -> Counters {
        Counters {
            event_count: self.event_count,
            payload_bytes: self.payload_bytes,
            batch_count: self.batch_count,
            pending_publications: self.pending_publications,
        }
    }
}

impl Allocation {
    /// The counters of the transaction after a batch.
    pub open spec fn counters(self) -> Counters {
        Counters {
            event_count: self.event_count,
            payload_bytes: self.payload_bytes,
            batch_count: self.batch_count,
            pending_publications: self.pending_publications,
        }
    }
}

/// Whether a counter stays inside `bigint`.
pub open spec fn stays(value: int, message: Seq<char>) -> Result<(), Seq<char>> {
    text::holds(i64::MIN <= value <= i64::MAX, message)
}

/// The counters that a batch moves its transaction to: the new events take the
/// sequence numbers directly behind the ones in use.
pub open spec fn allocated(counters: Counters, replay: ReplayFacts, task_count: i64) -> Result<
    Allocation,
    Seq<char>,
> {
    text::guarded(
        text::both(
            text::four(
                stays(
                    counters.event_count + 1,
                    "ingress event sequence exhausted bigint range"@,
                ),
                stays(
                    counters.event_count + replay.inserted_count,
                    "ingress transaction event count exhausted bigint range"@,
                ),
                stays(
                    counters.payload_bytes + replay.batch_payload_bytes,
                    "ingress transaction payload summary exhausted bigint range"@,
                ),
                stays(
                    counters.batch_count + 1,
                    "ingress apply batch count exhausted bigint range"@,
                ),
            ),
            stays(
                counters.pending_publications + task_count,
                "ingress publication task count exhausted bigint range"@,
            ),
        ),
        Allocation {
            first_input_seq: (counters.event_count + 1) as i64,
            last_input_seq: (counters.event_count + replay.inserted_count) as i64,
            batch_ordinal: (counters.batch_count + 1) as i64,
            task_count,
            event_count: (counters.event_count + replay.inserted_count) as i64,
            payload_bytes: (counters.payload_bytes + replay.batch_payload_bytes) as i64,
            batch_count: (counters.batch_count + 1) as i64,
            pending_publications: (counters.pending_publications + task_count) as i64,
        },
    )
}

fn advance(value: i64, by: i64, message: &str) -> (outcome: Result<i64, String>)
    ensures
        text::agrees(
            outcome,
            text::guarded(stays(value + by, message@), (value + by) as i64),
        ),
{
    match value.checked_add(by) {
        Some(sum) => Ok(sum),
        None => fail(message),
    }
}

pub fn allocate(header: &Header, replay: ReplayFacts, task_count: i64) -> (outcome: Result<
    Allocation,
    String,
>)
    ensures
        text::agrees(outcome, allocated(header.counters(), replay, task_count)),
{
    let first_input_seq: i64 = advance(
        header.event_count,
        1,
        "ingress event sequence exhausted bigint range",
    )?;
    let event_count: i64 = advance(
        header.event_count,
        replay.inserted_count,
        "ingress transaction event count exhausted bigint range",
    )?;
    let payload_bytes: i64 = advance(
        header.payload_bytes,
        replay.batch_payload_bytes,
        "ingress transaction payload summary exhausted bigint range",
    )?;
    let batch_count: i64 = advance(
        header.batch_count,
        1,
        "ingress apply batch count exhausted bigint range",
    )?;
    let pending_publications: i64 = advance(
        header.pending_publications,
        task_count,
        "ingress publication task count exhausted bigint range",
    )?;
    Ok(
        Allocation {
            first_input_seq,
            last_input_seq: event_count,
            batch_ordinal: batch_count,
            task_count,
            event_count,
            payload_bytes,
            batch_count,
            pending_publications,
        },
    )
}

/// The arguments of the statement that writes a batch.
pub open spec fn write_arguments(
    ingress_txn_id: i64,
    encoded: Seq<char>,
    header: Header,
    replay: ReplayFacts,
    allocation: Allocation,
) -> Seq<SqlModel> {
    seq![
        SqlModel::BigInt(Some(ingress_txn_id)),
        SqlModel::Text(Some(encoded)),
        SqlModel::BigInt(Some(replay.replayed_count)),
        SqlModel::BigInt(Some(allocation.first_input_seq)),
        SqlModel::BigInt(Some(allocation.last_input_seq)),
        SqlModel::BigInt(Some(allocation.batch_ordinal)),
        SqlModel::BigInt(Some(header.slot_generation)),
        SqlModel::BigInt(Some(replay.batch_payload_bytes)),
        SqlModel::BigInt(Some(allocation.task_count)),
        SqlModel::BigInt(Some(allocation.event_count)),
        SqlModel::BigInt(Some(allocation.payload_bytes)),
        SqlModel::BigInt(Some(allocation.batch_count)),
        SqlModel::BigInt(Some(allocation.pending_publications)),
        SqlModel::BigInt(Some(header.event_count)),
        SqlModel::BigInt(Some(header.payload_bytes)),
        SqlModel::BigInt(Some(header.batch_count)),
        SqlModel::BigInt(Some(header.pending_publications)),
    ]
}

/// Writes the new events of a batch and its counters.
pub open spec fn write_query(
    ingress_txn_id: i64,
    encoded: Seq<char>,
    header: Header,
    replay: ReplayFacts,
    allocation: Allocation,
) -> StatementModel {
    StatementModel {
        sql: WRITE_BATCH_SQL@,
        arguments: write_arguments(ingress_txn_id, encoded, header, replay, allocation),
    }
}

/// The statement that writes a batch and moves the counters with it.
pub fn write_statement(
    ingress_txn_id: i64,
    encoded: &str,
    header: &Header,
    replay: ReplayFacts,
    allocation: Allocation,
) -> (statement: Statement)
    ensures
        statement@ == write_query(ingress_txn_id, encoded@, *header, replay, allocation),
{
    let statement = Statement::new(WRITE_BATCH_SQL.to_owned()).bigint(ingress_txn_id).text(
        encoded,
    ).bigint(replay.replayed_count).bigint(allocation.first_input_seq).bigint(
        allocation.last_input_seq,
    ).bigint(allocation.batch_ordinal).bigint(header.slot_generation).bigint(
        replay.batch_payload_bytes,
    ).bigint(allocation.task_count).bigint(allocation.event_count).bigint(
        allocation.payload_bytes,
    ).bigint(allocation.batch_count).bigint(allocation.pending_publications).bigint(
        header.event_count,
    ).bigint(header.payload_bytes).bigint(header.batch_count).bigint(
        header.pending_publications,
    );
    assert(statement@.arguments =~= write_arguments(
        ingress_txn_id,
        encoded@,
        *header,
        replay,
        allocation,
    ));
    statement
}

/// The summary of a write as the database returned it.
#[derive(Clone, Copy, Debug, PartialEq, Eq, Structural)]
pub struct WriteRow {
    pub inserted_count: Option<i64>,
    pub first_input_seq: Option<i64>,
    pub last_input_seq: Option<i64>,
    pub payload_bytes: Option<i64>,
    pub task_count: Option<i64>,
    pub replay_updates: Option<i64>,
    pub header_updates: Option<i64>,
    pub event_count: Option<i64>,
    pub total_payload_bytes: Option<i64>,
    pub batch_count: Option<i64>,
    pub pending_publications: Option<i64>,
}

impl WriteRow {
    /// The types of the columns, in order.
    pub open spec fn kinds() -> Seq<CellKind> {
        seq![
            CellKind::BigInt,
            CellKind::BigInt,
            CellKind::BigInt,
            CellKind::BigInt,
            CellKind::BigInt,
            CellKind::BigInt,
            CellKind::BigInt,
            CellKind::BigInt,
            CellKind::BigInt,
            CellKind::BigInt,
            CellKind::BigInt,
        ]
    }

    pub fn column_kinds() -> (kinds: Vec<CellKind>)
        ensures
            kinds@ == WriteRow::kinds(),
    {
        vec![
            CellKind::BigInt,
            CellKind::BigInt,
            CellKind::BigInt,
            CellKind::BigInt,
            CellKind::BigInt,
            CellKind::BigInt,
            CellKind::BigInt,
            CellKind::BigInt,
            CellKind::BigInt,
            CellKind::BigInt,
            CellKind::BigInt,
        ]
    }

    /// The columns of the first returned row, in order.
    pub open spec fn of(rows: Seq<Row>) -> WriteRow {
        WriteRow {
            inserted_count: session::bigint(rows, 1),
            first_input_seq: session::bigint(rows, 2),
            last_input_seq: session::bigint(rows, 3),
            payload_bytes: session::bigint(rows, 4),
            task_count: session::bigint(rows, 5),
            replay_updates: session::bigint(rows, 6),
            header_updates: session::bigint(rows, 7),
            event_count: session::bigint(rows, 8),
            total_payload_bytes: session::bigint(rows, 9),
            batch_count: session::bigint(rows, 10),
            pending_publications: session::bigint(rows, 11),
        }
    }

    pub fn read(rows: &Vec<Row>) -> (row: WriteRow)
        ensures
            row == WriteRow::of(rows@),
    {
        WriteRow {
            inserted_count: session::first_bigint(rows, 1),
            first_input_seq: session::first_bigint(rows, 2),
            last_input_seq: session::first_bigint(rows, 3),
            payload_bytes: session::first_bigint(rows, 4),
            task_count: session::first_bigint(rows, 5),
            replay_updates: session::first_bigint(rows, 6),
            header_updates: session::first_bigint(rows, 7),
            event_count: session::first_bigint(rows, 8),
            total_payload_bytes: session::first_bigint(rows, 9),
            batch_count: session::first_bigint(rows, 10),
            pending_publications: session::first_bigint(rows, 11),
        }
    }
}

impl WriteRow {
    pub open spec fn facts(self) -> Result<WriteFacts, Seq<char>> {
        text::guarded(
            text::both(
                text::checked(
                    database::required_value(self.inserted_count, "written ingress event count"@),
                ),
                text::four(
                    text::checked(
                        database::required_value(
                            self.payload_bytes,
                            "written ingress payload bytes"@,
                        ),
                    ),
                    text::checked(
                        database::required_value(self.task_count, "written source task count"@),
                    ),
                    text::checked(
                        database::required_value(
                            self.replay_updates,
                            "updated ingress replay rows"@,
                        ),
                    ),
                    text::checked(
                        database::required_value(
                            self.header_updates,
                            "updated ingress header rows"@,
                        ),
                    ),
                ),
            ),
            WriteFacts {
                inserted_count: self.inserted_count->0,
                first_input_seq: self.first_input_seq,
                last_input_seq: self.last_input_seq,
                payload_bytes: self.payload_bytes->0,
                task_count: self.task_count->0,
                replay_updates: self.replay_updates->0,
                header_updates: self.header_updates->0,
                event_count: self.event_count,
                total_payload_bytes: self.total_payload_bytes,
                batch_count: self.batch_count,
                pending_publications: self.pending_publications,
            },
        )
    }
}

/// What a write reported.
pub open spec fn written(rows: usize, row: WriteRow) -> Result<WriteFacts, Seq<char>> {
    match database::count_required(rows, 1, "bounded ingress write"@) {
        Err(message) => Err(message),
        Ok(()) => row.facts(),
    }
}

/// Decodes the summary of a write.
pub fn decode_write(rows: usize, row: &WriteRow) -> (outcome: Result<WriteFacts, String>)
    ensures
        text::agrees(outcome, written(rows, *row)),
{
    require_count(rows, 1, "bounded ingress write")?;
    let inserted_count: i64 = required(row.inserted_count, "written ingress event count")?;
    let payload_bytes: i64 = required(row.payload_bytes, "written ingress payload bytes")?;
    let task_count: i64 = required(row.task_count, "written source task count")?;
    let replay_updates: i64 = required(row.replay_updates, "updated ingress replay rows")?;
    let header_updates: i64 = required(row.header_updates, "updated ingress header rows")?;
    Ok(
        WriteFacts {
            inserted_count,
            first_input_seq: row.first_input_seq,
            last_input_seq: row.last_input_seq,
            payload_bytes,
            task_count,
            replay_updates,
            header_updates,
            event_count: row.event_count,
            total_payload_bytes: row.total_payload_bytes,
            batch_count: row.batch_count,
            pending_publications: row.pending_publications,
        },
    )
}

/// What a write has to report.
pub open spec fn expected_write(replay: ReplayFacts, allocation: Allocation) -> WriteFacts {
    WriteFacts {
        inserted_count: replay.inserted_count,
        first_input_seq: Some(allocation.first_input_seq),
        last_input_seq: Some(allocation.last_input_seq),
        payload_bytes: replay.batch_payload_bytes,
        task_count: allocation.task_count,
        replay_updates: 1,
        header_updates: 1,
        event_count: Some(allocation.event_count),
        total_payload_bytes: Some(allocation.payload_bytes),
        batch_count: Some(allocation.batch_count),
        pending_publications: Some(allocation.pending_publications),
    }
}

/// An optional count in words.
pub open spec fn count_text(value: Option<i64>) -> Seq<char> {
    match value {
        None => "None"@,
        Some(value) => "Some("@ + text::decimal(value as int) + ")"@,
    }
}

fn show_count(value: Option<i64>) -> (text: String)
    ensures
        text@ == count_text(value),
{
    match value {
        None => "None".to_owned(),
        Some(value) => {
            let mut text = "Some(".to_owned();
            text.append(signed_text(value).as_str());
            text.append(")");
            text
        },
    }
}

impl WriteFacts {
    /// The facts as one tuple in words.
    pub open spec fn words(self) -> Seq<char> {
        "("@ + text::joined(
            seq![
                text::decimal(self.inserted_count as int),
                count_text(self.first_input_seq),
                count_text(self.last_input_seq),
                text::decimal(self.payload_bytes as int),
                text::decimal(self.task_count as int),
                text::decimal(self.replay_updates as int),
                text::decimal(self.header_updates as int),
                count_text(self.event_count),
                count_text(self.total_payload_bytes),
                count_text(self.batch_count),
                count_text(self.pending_publications),
            ],
            ", "@,
        ) + ")"@
    }

    pub fn show(&self) -> (text: String)
        ensures
            text@ == self.words(),
    {
        let list = vec![
            signed_text(self.inserted_count),
            show_count(self.first_input_seq),
            show_count(self.last_input_seq),
            signed_text(self.payload_bytes),
            signed_text(self.task_count),
            signed_text(self.replay_updates),
            signed_text(self.header_updates),
            show_count(self.event_count),
            show_count(self.total_payload_bytes),
            show_count(self.batch_count),
            show_count(self.pending_publications),
        ];
        assert(text::texts(list@) =~= seq![
            text::decimal(self.inserted_count as int),
            count_text(self.first_input_seq),
            count_text(self.last_input_seq),
            text::decimal(self.payload_bytes as int),
            text::decimal(self.task_count as int),
            text::decimal(self.replay_updates as int),
            text::decimal(self.header_updates as int),
            count_text(self.event_count),
            count_text(self.total_payload_bytes),
            count_text(self.batch_count),
            count_text(self.pending_publications),
        ]);
        let mut text = "(".to_owned();
        text.append(join(&list, ", ").as_str());
        text.append(")");
        text
    }
}

/// Whether a write did what was allocated.
pub open spec fn write_sound(
    ingress_txn_id: i64,
    replay: ReplayFacts,
    allocation: Allocation,
    written: WriteFacts,
) -> Result<(), Seq<char>> {
    text::holds(
        written == expected_write(replay, allocation),
        "ingress transaction "@ + text::decimal(ingress_txn_id as int) + " write facts "@
            + written.words() + " did not match "@ + expected_write(replay, allocation).words(),
    )
}

pub fn validate_write(
    ingress_txn_id: i64,
    replay: ReplayFacts,
    allocation: Allocation,
    written: WriteFacts,
) -> (outcome: Result<(), String>)
    ensures
        text::agrees(outcome, write_sound(ingress_txn_id, replay, allocation, written)),
{
    let expected = WriteFacts {
        inserted_count: replay.inserted_count,
        first_input_seq: Some(allocation.first_input_seq),
        last_input_seq: Some(allocation.last_input_seq),
        payload_bytes: replay.batch_payload_bytes,
        task_count: allocation.task_count,
        replay_updates: 1,
        header_updates: 1,
        event_count: Some(allocation.event_count),
        total_payload_bytes: Some(allocation.payload_bytes),
        batch_count: Some(allocation.batch_count),
        pending_publications: Some(allocation.pending_publications),
    };
    if written != expected {
        let mut message = "ingress transaction ".to_owned();
        message.append(signed_text(ingress_txn_id).as_str());
        message.append(" write facts ");
        message.append(written.show().as_str());
        message.append(" did not match ");
        message.append(expected.show().as_str());
        return Err(message);
    }
    Ok(())
}

/// The smaller of two optional numbers; an absent one does not count.
pub open spec fn least(left: Option<i64>, right: Option<i64>) -> Option<i64> {
    match (left, right) {
        (Some(left), Some(right)) => Some(
            if left <= right {
                left
            } else {
                right
            },
        ),
        (Some(left), None) => Some(left),
        (None, right) => right,
    }
}

pub fn min_option(left: Option<i64>, right: Option<i64>) -> (least: Option<i64>)
    ensures
        least == self::least(left, right),
{
    match (left, right) {
        (Some(left), Some(right)) => Some(
            if left <= right {
                left
            } else {
                right
            },
        ),
        (Some(left), None) => Some(left),
        (None, right) => right,
    }
}

/// The larger of two optional numbers; an absent one does not count.
pub open spec fn greatest(left: Option<i64>, right: Option<i64>) -> Option<i64> {
    match (left, right) {
        (Some(left), Some(right)) => Some(
            if left >= right {
                left
            } else {
                right
            },
        ),
        (Some(left), None) => Some(left),
        (None, right) => right,
    }
}

pub fn max_option(left: Option<i64>, right: Option<i64>) -> (greatest: Option<i64>)
    ensures
        greatest == self::greatest(left, right),
{
    match (left, right) {
        (Some(left), Some(right)) => Some(
            if left >= right {
                left
            } else {
                right
            },
        ),
        (Some(left), None) => Some(left),
        (None, right) => right,
    }
}

/// The facts of a batch that was written.
pub open spec fn admitted(replay: ReplayFacts, allocation: Allocation) -> AdmissionFacts {
    AdmissionFacts {
        inserted_count: replay.inserted_count,
        replayed_count: replay.replayed_count,
        first_input_seq: least(replay.first_input_seq, Some(allocation.first_input_seq)),
        last_input_seq: greatest(replay.last_input_seq, Some(allocation.last_input_seq)),
    }
}

/// The facts of a written batch: its sequence numbers together with those of
/// the events that it repeated.
pub fn admitted_facts(replay: ReplayFacts, allocation: Allocation) -> (facts: AdmissionFacts)
    ensures
        facts == admitted(replay, allocation),
{
    AdmissionFacts {
        inserted_count: replay.inserted_count,
        replayed_count: replay.replayed_count,
        first_input_seq: min_option(replay.first_input_seq, Some(allocation.first_input_seq)),
        last_input_seq: max_option(replay.last_input_seq, Some(allocation.last_input_seq)),
    }
}

/// An admitted batch takes one sequence number per new event, directly behind
/// the numbers in use, and the next batch continues directly behind it.
pub proof fn batches_are_contiguous(
    counters: Counters,
    replay: ReplayFacts,
    task_count: i64,
    next_replay: ReplayFacts,
    next_task_count: i64,
)
    requires
        allocated(counters, replay, task_count) is Ok,
        allocated(
            allocated(counters, replay, task_count)->Ok_0.counters(),
            next_replay,
            next_task_count,
        ) is Ok,
    ensures
        ({
            let first = allocated(counters, replay, task_count)->Ok_0;
            let next = allocated(first.counters(), next_replay, next_task_count)->Ok_0;
            &&& first.first_input_seq == counters.event_count + 1
            &&& first.last_input_seq - first.first_input_seq + 1 == replay.inserted_count
            &&& next.first_input_seq == first.last_input_seq + 1
            &&& next.batch_ordinal == first.batch_ordinal + 1
        }),
{
}

/// A batch whose identities are all valid and distinct is accepted, and no
/// other batch is.
pub proof fn accepted_batch_has_distinct_identities(events: Seq<EventModel>)
    ensures
        batch_sound(events) is Ok <==> events.len() <= i64::MAX && (forall|index: int|
            0 <= index < events.len() ==> (#[trigger] events[index]).fits(
                json_object(events[index].payload),
            )) && (forall|left: int, right: int|
            0 <= left < right < events.len() ==> (#[trigger] events[left]).identity() != (
            #[trigger] events[right]).identity()),
{
    let checks = event_checks(events);
    text::all_hold_each(checks);
    if batch_sound(events) is Ok {
        assert forall|index: int| 0 <= index < events.len() implies (
        #[trigger] events[index]).fits(json_object(events[index].payload)) by {
            assert(checks[index] is Ok);
        }
        assert forall|left: int, right: int| 0 <= left < right < events.len() implies (
        #[trigger] events[left]).identity() != (#[trigger] events[right]).identity() by {
            assert(checks[right] is Ok);
            assert(!repeats(events, right));
        }
    }
    if events.len() <= i64::MAX && (forall|index: int|
        0 <= index < events.len() ==> (#[trigger] events[index]).fits(
            json_object(events[index].payload),
        )) && (forall|left: int, right: int|
        0 <= left < right < events.len() ==> (#[trigger] events[left]).identity() != (
        #[trigger] events[right]).identity()) {
        assert forall|index: int| 0 <= index < checks.len() implies (
        #[trigger] checks[index]) is Ok by {
            assert(events[index].fits(json_object(events[index].payload)));
        }
    }
}

/// A batch that only repeats known events writes nothing: its facts are those
/// of the events that it repeats.
pub proof fn replay_is_idempotent(status: Seq<char>, replay: ReplayFacts)
    requires
        replay.inserted_count == 0,
    ensures
        replayed(status, replay) == Some(
            AdmissionFacts {
                inserted_count: 0,
                replayed_count: replay.replayed_count,
                first_input_seq: replay.first_input_seq,
                last_input_seq: replay.last_input_seq,
            },
        ),
{
}

} // verus!
