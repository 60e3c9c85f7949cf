//! What the statements of an admission are told, and what they are believed.

use vstd::prelude::*;

use crate::admission::{
    self, Allocation, Counters, EventModel, Header, HeaderRow, ReplayFacts, ReplayRow, SourceCount,
    WriteFacts, WriteRow,
};
use crate::postgres;
use crate::sql::{number, SqlModel};

verus! {

/// An event is taken in exactly when its numbers fit the wire, its source is
/// one, its payload is an object, and it adds or removes a single row.
pub proof fn events_add_or_remove_one_row(event: EventModel, object: bool)
    ensures
        event.fits(object) <==> {
            &&& event.change_ordinal <= i64::MAX
            &&& event.image_ordinal <= i32::MAX
            &&& event.source_oid > 0
            &&& event.weight * event.weight == 1
            &&& object
        },
{
    assert(event.weight * event.weight == 1 <==> event.weight == 1 || event.weight == -1)
        by (nonlinear_arith);
}

/// Two events are the same change exactly when they agree in the position of
/// the change, its place there, and the image.
pub proof fn events_are_told_apart_by_their_change(one: EventModel, other: EventModel)
    ensures
        one.identity() == other.identity() <==> one.change_lsn == other.change_lsn
            && one.change_ordinal == other.change_ordinal && one.image_ordinal
            == other.image_ordinal,
{
}

/// The statements of an admission name the transaction, the generation, the
/// source and the encoded batch that they are about.
pub proof fn admission_names_what_it_is_about(
    ingress_txn_id: i64,
    slot_generation: i64,
    source_oid: u32,
    source_type: Seq<char>,
    encoded: Seq<char>,
)
    ensures
        admission::transaction_query(ingress_txn_id).arguments == seq![number(ingress_txn_id as int)],
        admission::header_query(ingress_txn_id).arguments == seq![number(ingress_txn_id as int)],
        admission::generation_query(slot_generation).arguments == seq![
            number(slot_generation as int),
        ],
        admission::source_query(source_oid).arguments == seq![SqlModel::Oid(source_oid)],
        admission::typed_query(source_type, encoded, source_oid).arguments == seq![
            SqlModel::Text(Some(encoded)),
            SqlModel::Oid(source_oid),
        ],
        admission::classify_query(ingress_txn_id, encoded).arguments == seq![
            number(ingress_txn_id as int),
            SqlModel::Text(Some(encoded)),
        ],
{
}

/// A source is found by its one catalog row, and named by its quoted schema and
/// relation.
pub proof fn source_is_named_by_its_catalog_row(
    rows: usize,
    namespace: Option<String>,
    relation: Option<String>,
)
    ensures
        admission::source_resolved(rows, namespace, relation) is Ok <==> rows == 1 && namespace is Some
            && relation is Some,
        rows == 1 && namespace is Some && relation is Some ==> admission::source_resolved(
            rows,
            namespace,
            relation,
        ) == Ok::<Seq<char>, Seq<char>>(
            postgres::quoted(namespace->0@) + "."@ + postgres::quoted(relation->0@),
        ),
{
}

/// A source takes its events in exactly when as many of them read as its rows
/// as there are.
pub proof fn all_events_of_a_source_are_typed(
    source: SourceCount,
    rows: usize,
    actual: Option<i64>,
)
    ensures
        admission::source_typed(source, rows, actual) is Ok <==> rows == 1 && actual == Some(
            source.expected,
        ),
{
}

/// The generation of a transaction is that of its one row.
pub proof fn generation_is_that_of_the_transaction(rows: usize, slot_generation: Option<i64>)
    ensures
        match admission::generation(rows, slot_generation) {
            Ok(generation) => rows == 1 && slot_generation == Some(generation),
            Err(_) => rows != 1 || slot_generation is None,
        },
{
}

/// A header is read off its locked row, column by column.
pub proof fn header_is_read_off_its_row(rows: usize, row: HeaderRow, slot_generation: i64)
    ensures
        admission::headed(rows, row, slot_generation) matches Ok(header) ==> {
            &&& rows == 1
            &&& header.slot_generation == slot_generation
            &&& row.status == Some(header.status)
            &&& row.event_count == Some(header.event_count)
            &&& row.payload_bytes == Some(header.payload_bytes)
            &&& row.batch_count == Some(header.batch_count)
            &&& row.pending_publications == Some(header.pending_publications)
        },
{
}

/// A comparison is read off its row, column by column.
pub proof fn comparison_is_read_off_its_row(rows: usize, row: ReplayRow)
    ensures
        admission::classified(rows, row) matches Ok(replay) ==> {
            &&& rows == 1
            &&& row.inserted_count == Some(replay.inserted_count)
            &&& row.replayed_count == Some(replay.replayed_count)
            &&& row.last_replayed_ordinal == replay.last_replayed_ordinal
            &&& row.first_new_ordinal == replay.first_new_ordinal
            &&& row.first_input_seq == replay.first_input_seq
            &&& row.last_input_seq == replay.last_input_seq
            &&& row.identity_conflict == Some(replay.identity_conflict)
            &&& row.batch_payload_bytes == Some(replay.batch_payload_bytes)
        },
{
}

/// A batch is refused that contradicts what its transaction holds, that repeats
/// events behind new ones, or that adds to a transaction that is closed.
pub proof fn replay_agrees_with_its_transaction(
    ingress_txn_id: i64,
    status: Seq<char>,
    replay: ReplayFacts,
)
    ensures
        admission::replay_sound(ingress_txn_id, status, replay) is Ok <==> {
            &&& replay.inserted_count >= 0
            &&& replay.replayed_count >= 0
            &&& replay.batch_payload_bytes >= 0
            &&& !replay.identity_conflict
            &&& replay.first_new_ordinal matches Some(new) ==> (
            replay.last_replayed_ordinal matches Some(old) ==> old <= new)
            &&& replay.inserted_count > 0 ==> status == "open"@
        },
{
}

/// A batch without new events is done with what was found of it; a batch with
/// new events is written.
pub proof fn new_events_are_written(ingress_txn_id: i64, status: Seq<char>, replay: ReplayFacts)
    requires
        admission::replay_sound(ingress_txn_id, status, replay) is Ok,
    ensures
        admission::replayed(status, replay) is None <==> replay.inserted_count > 0,
        admission::replayed(status, replay) matches Some(facts) ==> {
            &&& facts.inserted_count == 0
            &&& facts.replayed_count == replay.replayed_count
            &&& facts.first_input_seq == replay.first_input_seq
            &&& facts.last_input_seq == replay.last_input_seq
        },
{
}

/// A new batch takes the next places of its transaction: one for each of its
/// events, one for itself, and one publication for each of its sources. Every
/// counter grows by what the batch adds.
pub proof fn batch_takes_the_next_places(
    counters: Counters,
    replay: ReplayFacts,
    task_count: i64,
)
    ensures
        admission::allocated(counters, replay, task_count) matches Ok(allocation) ==> {
            &&& allocation.first_input_seq == counters.event_count + 1
            &&& allocation.last_input_seq - allocation.first_input_seq + 1 == replay.inserted_count
            &&& allocation.event_count == allocation.last_input_seq
            &&& allocation.batch_ordinal == counters.batch_count + 1
            &&& allocation.batch_count == allocation.batch_ordinal
            &&& allocation.task_count == task_count
            &&& allocation.payload_bytes - counters.payload_bytes == replay.batch_payload_bytes
            &&& allocation.pending_publications - counters.pending_publications == task_count
        },
{
}

/// A batch is written with what it adds, with the counters that follow, and
/// against the counters that were read.
pub proof fn write_is_told(
    ingress_txn_id: i64,
    encoded: Seq<char>,
    header: Header,
    replay: ReplayFacts,
    allocation: Allocation,
)
    ensures
        ({
            let statement = admission::write_query(
                ingress_txn_id,
                encoded,
                header,
                replay,
                allocation,
            );
            &&& statement.arguments.len() == 17
            &&& statement.told(1) == number(ingress_txn_id as int)
            &&& statement.told(2) == SqlModel::Text(Some(encoded))
            &&& statement.told(3) == number(replay.replayed_count as int)
            &&& statement.told(4) == number(allocation.first_input_seq as int)
            &&& statement.told(5) == number(allocation.last_input_seq as int)
            &&& statement.told(6) == number(allocation.batch_ordinal as int)
            &&& statement.told(7) == number(header.slot_generation as int)
            &&& statement.told(8) == number(replay.batch_payload_bytes as int)
            &&& statement.told(9) == number(allocation.task_count as int)
            &&& statement.told(10) == number(allocation.event_count as int)
            &&& statement.told(11) == number(allocation.payload_bytes as int)
            &&& statement.told(12) == number(allocation.batch_count as int)
            &&& statement.told(13) == number(allocation.pending_publications as int)
            &&& statement.told(14) == number(header.event_count as int)
            &&& statement.told(15) == number(header.payload_bytes as int)
            &&& statement.told(16) == number(header.batch_count as int)
            &&& statement.told(17) == number(header.pending_publications as int)
        }),
{
}

/// What was written is read off its row, column by column.
pub proof fn write_is_read_off_its_row(rows: usize, row: WriteRow)
    ensures
        admission::written(rows, row) matches Ok(written) ==> {
            &&& rows == 1
            &&& row.inserted_count == Some(written.inserted_count)
            &&& row.first_input_seq == written.first_input_seq
            &&& row.last_input_seq == written.last_input_seq
            &&& row.payload_bytes == Some(written.payload_bytes)
            &&& row.task_count == Some(written.task_count)
            &&& row.replay_updates == Some(written.replay_updates)
            &&& row.header_updates == Some(written.header_updates)
            &&& row.event_count == written.event_count
            &&& row.total_payload_bytes == written.total_payload_bytes
            &&& row.batch_count == written.batch_count
            &&& row.pending_publications == written.pending_publications
        },
{
}

/// A write is believed exactly when it wrote the new events at their places,
/// once, and left the counters that were planned.
pub proof fn write_is_believed_as_planned(
    ingress_txn_id: i64,
    replay: ReplayFacts,
    allocation: Allocation,
    written: WriteFacts,
)
    ensures
        admission::write_sound(ingress_txn_id, replay, allocation, written) is Ok <==> {
            &&& written.inserted_count == replay.inserted_count
            &&& written.first_input_seq == Some(allocation.first_input_seq)
            &&& written.last_input_seq == Some(allocation.last_input_seq)
            &&& written.payload_bytes == replay.batch_payload_bytes
            &&& written.task_count == allocation.task_count
            &&& written.replay_updates == 1
            &&& written.header_updates == 1
            &&& written.event_count == Some(allocation.event_count)
            &&& written.total_payload_bytes == Some(allocation.payload_bytes)
            &&& written.batch_count == Some(allocation.batch_count)
            &&& written.pending_publications == Some(allocation.pending_publications)
        },
{
}

/// An admitted batch reports its new events, those that were there before, and
/// the places from the first to the last of all of them.
pub proof fn admission_reports_all_its_places(replay: ReplayFacts, allocation: Allocation)
    ensures
        ({
            let facts = admission::admitted(replay, allocation);
            &&& facts.inserted_count == replay.inserted_count
            &&& facts.replayed_count == replay.replayed_count
            &&& facts.first_input_seq matches Some(first) && first <= allocation.first_input_seq && (
            replay.first_input_seq matches Some(old) ==> first <= old) && (first
                == allocation.first_input_seq || replay.first_input_seq == Some(first))
            &&& facts.last_input_seq matches Some(last) && last >= allocation.last_input_seq && (
            replay.last_input_seq matches Some(old) ==> last >= old) && (last
                == allocation.last_input_seq || replay.last_input_seq == Some(last))
        }),
{
}

/// A batch asks for one publication of each source of its new events, and has
/// at least one.
pub proof fn each_new_source_is_published_once(events: Seq<EventModel>, replayed: int)
    requires
        0 <= replayed <= events.len(),
    ensures
        admission::publication_tasks(events, replayed) matches Ok(count) ==> count
            == admission::new_sources(events, replayed).len() && count >= 1,
        forall|source_oid: u32| #[trigger]
            admission::new_sources(events, replayed).contains(source_oid) <==> exists|index: int|
                replayed <= index < events.len() && #[trigger] events[index].source_oid
                    == source_oid,
{
    let rest = events.skip(replayed).map_values(|event: EventModel| event.source_oid);
    assert forall|source_oid: u32| #[trigger]
        admission::new_sources(events, replayed).contains(source_oid) <==> exists|index: int|
            replayed <= index < events.len() && #[trigger] events[index].source_oid
                == source_oid by {
        if admission::new_sources(events, replayed).contains(source_oid) {
            assert(rest.contains(source_oid));
            let at = choose|at: int| 0 <= at < rest.len() && rest[at] == source_oid;
            assert(events[at + replayed].source_oid == source_oid);
        }
        if exists|index: int|
            replayed <= index < events.len() && #[trigger] events[index].source_oid == source_oid {
            let index = choose|index: int|
                replayed <= index < events.len() && #[trigger] events[index].source_oid
                    == source_oid;
            assert(rest[index - replayed] == source_oid);
            assert(rest.contains(source_oid));
        }
    }
}

} // verus!
