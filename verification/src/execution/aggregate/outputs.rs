//! What a group publishes: which row leaves with which weight, and what the
//! group remembers of it.

use vstd::prelude::*;

use crate::execution::aggregate::emit::{
    self, EmissionRow, EmissionSql, EmitSource, ExpressionModel, OutputDecision,
};
use crate::execution::stream::{OutputAppendTarget, OutputState};
use crate::postgres;
use crate::sql::SqlModel;

verus! {

/// The decision that follows from what is published and what is desired.
pub open spec fn decision_on<T>(published: Option<T>, desired: Option<T>) -> OutputDecision {
    match (published, desired) {
        (None, None) => OutputDecision::Unchanged,
        (None, Some(_)) => OutputDecision::Insert,
        (Some(_), None) => OutputDecision::Delete,
        (Some(old), Some(new)) => if old == new {
            OutputDecision::Unchanged
        } else {
            OutputDecision::Replace
        },
    }
}

/// What a group holds: the row that is published, and the one that waits.
#[verifier::ext_equal]
pub struct Held<T> {
    pub published: Option<T>,
    pub pending: Option<T>,
}

/// The row that an emission writes, read off the column that it takes it from.
pub open spec fn written_row<T>(source: EmitSource, held: Held<T>, desired: Option<T>) -> Option<T> {
    if source.row() == "desired.row_value"@ {
        desired
    } else if source.row() == "groups.published_output"@ {
        held.published
    } else if source.row() == "groups.pending_output"@ {
        held.pending
    } else {
        None
    }
}

/// What a group holds behind an emission, read off the assignment.
pub open spec fn held_behind<T>(source: EmitSource, held: Held<T>, desired: Option<T>) -> Held<T> {
    if source.assignment() == emit::PUBLISH_DESIRED_SQL@ {
        Held { published: desired, pending: None }
    } else if source.assignment() == emit::RETRACT_PUBLISHED_SQL@ {
        Held { published: None, pending: None }
    } else if source.assignment() == emit::RETRACT_AND_KEEP_SQL@ {
        Held { published: None, pending: desired }
    } else if source.assignment() == emit::PUBLISH_PENDING_SQL@ {
        Held { published: held.pending, pending: None }
    } else {
        held
    }
}

/// How often a row is published by a group.
pub open spec fn times<T>(held: Held<T>, row: T) -> int {
    if held.published == Some(row) {
        1
    } else {
        0
    }
}

proof fn columns_are_apart()
    ensures
        "desired.row_value"@ != "groups.published_output"@,
        "desired.row_value"@ != "groups.pending_output"@,
        "groups.published_output"@ != "groups.pending_output"@,
{
    reveal_strlit("desired.row_value");
    reveal_strlit("groups.published_output");
    reveal_strlit("groups.pending_output");
    assert("desired.row_value"@[0] == 'd');
    assert("groups.published_output"@[0] == 'g');
    assert("groups.pending_output"@[0] == 'g');
    assert("groups.published_output"@[8] == 'u');
    assert("groups.pending_output"@[8] == 'e');
}

proof fn assignments_are_apart()
    ensures
        emit::PUBLISH_DESIRED_SQL@ != emit::RETRACT_PUBLISHED_SQL@,
        emit::PUBLISH_DESIRED_SQL@ != emit::RETRACT_AND_KEEP_SQL@,
        emit::PUBLISH_DESIRED_SQL@ != emit::PUBLISH_PENDING_SQL@,
        emit::RETRACT_PUBLISHED_SQL@ != emit::RETRACT_AND_KEEP_SQL@,
        emit::RETRACT_PUBLISHED_SQL@ != emit::PUBLISH_PENDING_SQL@,
        emit::RETRACT_AND_KEEP_SQL@ != emit::PUBLISH_PENDING_SQL@,
{
    reveal_strlit(
        "published_present=true,published_key=desired.row_key,
             published_output=emitted.row_value,
             pending_present=false,pending_key=NULL,pending_output=NULL",
    );
    reveal_strlit(
        "published_present=false,published_key=NULL,published_output=NULL,
             pending_present=false,pending_key=NULL,pending_output=NULL",
    );
    reveal_strlit(
        "published_present=false,published_key=NULL,published_output=NULL,
             pending_present=true,pending_key=desired.row_key,
             pending_output=desired.row_value",
    );
    reveal_strlit(
        "published_present=true,published_key=groups.pending_key,
         published_output=emitted.row_value,
         pending_present=false,pending_key=NULL,pending_output=NULL",
    );
    assert(emit::PUBLISH_DESIRED_SQL@[18] == 't');
    assert(emit::RETRACT_PUBLISHED_SQL@[18] == 'f');
    assert(emit::RETRACT_AND_KEEP_SQL@[18] == 'f');
    assert(emit::PUBLISH_PENDING_SQL@[18] == 't');
    assert(emit::RETRACT_PUBLISHED_SQL@.len() == 137);
    assert(emit::RETRACT_AND_KEEP_SQL@.len() == 174);
    assert(emit::PUBLISH_DESIRED_SQL@[37] == 'd');
    assert(emit::PUBLISH_PENDING_SQL@[37] == 'g');
}

/// Whether an emission accounts for what it changes: the row that it writes is
/// there, and its weight is the number of times by which the row is published
/// more often than before, while every other row stays as it was.
pub open spec fn accounts<T>(source: EmitSource, held: Held<T>, desired: Option<T>) -> bool {
    let after = held_behind(source, held, desired);
    &&& written_row(source, held, desired) is Some
    &&& forall|row: T|
        #[trigger] times(after, row) - times(held, row) == if written_row(source, held, desired)
            == Some(row) {
            source.weight() as int
        } else {
            0
        }
}

/// The emissions of a decision take a group from what is published to what is
/// desired: at once, or by a retraction that keeps the desired row pending
/// until it is published in its turn. Each of them accounts for what it changes.
pub proof fn emissions_lead_to_the_desired_row<T>(published: Option<T>, desired: Option<T>)
    ensures
        ({
            let held = Held { published, pending: None };
            match EmitSource::of(decision_on(published, desired)) {
                None => published == desired,
                Some(source) => {
                    let after = held_behind(source, held, desired);
                    &&& accounts(source, held, desired)
                    &&& after.pending is None ==> after.published == desired
                    &&& after.pending is Some ==> {
                        let last = held_behind(EmitSource::Pending, after, None);
                        &&& after.published is None
                        &&& accounts(EmitSource::Pending, after, None)
                        &&& last == (Held { published: desired, pending: None })
                    }
                },
            }
        }),
{
    columns_are_apart();
    assignments_are_apart();
    let held = Held { published, pending: None };
    if let Some(source) = EmitSource::of(decision_on(published, desired)) {
        let after = held_behind(source, held, desired);
        assert forall|row: T|
            #[trigger] times(after, row) - times(held, row) == if written_row(source, held, desired)
                == Some(row) {
                source.weight() as int
            } else {
                0
            } by {}
    }
}

/// An emission writes only a row that is there: it is guarded by what it takes
/// the row from, and it computes the desired row exactly where it uses it.
pub proof fn emission_writes_an_existing_row(source: EmitSource, expression: ExpressionModel)
    ensures
        source.row() == "groups.published_output"@ ==> source.guard(expression)
            == "groups.published_present"@,
        source.row() == "groups.pending_output"@ ==> source.guard(expression)
            == "groups.pending_present"@,
        source.row() == "desired.row_value"@ ==> source.guard(expression) == "("@
            + expression.present + ")"@,
        source.needs_desired() <==> source.row() == "desired.row_value"@ || source.assignment()
            == emit::PUBLISH_DESIRED_SQL@ || source.assignment() == emit::RETRACT_AND_KEEP_SQL@,
{
    columns_are_apart();
    assignments_are_apart();
}

/// An emission names its group, and writes its row with its weight to the next
/// chunk of the output stream.
pub proof fn emission_is_told(sql: EmissionSql, group_queue_id: i64, output: OutputState)
    ensures
        ({
            let statement = emit::emission_query(sql, group_queue_id, output);
            &&& statement.arguments.len() == 4
            &&& statement.arguments[0] == SqlModel::BigInt(Some(group_queue_id))
            &&& statement.arguments[1] == SqlModel::BigInt(Some(output.stream_id))
            &&& statement.arguments[2] == SqlModel::BigInt(Some(output.next_chunk_seq))
            &&& statement.arguments[3] == SqlModel::BigInt(Some(sql.source.weight()))
        }),
{
}

/// The text by which a decision is named.
pub open spec fn decision_name(decision: OutputDecision) -> Seq<char> {
    match decision {
        OutputDecision::Unchanged => "unchanged"@,
        OutputDecision::Insert => "insert"@,
        OutputDecision::Delete => "delete"@,
        OutputDecision::Replace => "replace"@,
    }
}

/// A decision is read off its name, and off nothing else.
pub proof fn decision_is_read_back(name: Seq<char>, decision: OutputDecision)
    ensures
        emit::decision_named(name) == Some(decision) <==> name == decision_name(decision),
{
    reveal_strlit("unchanged");
    reveal_strlit("insert");
    reveal_strlit("delete");
    reveal_strlit("replace");
    assert("unchanged"@[0] == 'u');
    assert("insert"@[0] == 'i');
    assert("delete"@[0] == 'd');
    assert("replace"@[0] == 'r');
}

/// An emission appends one row of its size at its causal position, in a new
/// chunk of its stream; a summary that reports anything else is refused.
pub proof fn emission_appends_one_row(rows: int, row: EmissionRow, output: OutputState)
    ensures
        match emit::emitted(rows, row, output) {
            Ok(append) => {
                &&& rows == 1
                &&& row.inserted == Some(1i64)
                &&& row.updated == Some(1i64)
                &&& append.rows == 1
                &&& row.bytes matches Some(bytes) && append.bytes == bytes && bytes > 0
                &&& append.target == (OutputAppendTarget::New { sequence: output.next_chunk_seq })
                &&& row.causal_lsn matches Some(lsn) && postgres::lsn_value(lsn@) is Some
                    && append.lsn == postgres::lsn_value(lsn@)->0 as u64
            },
            Err(_) => {
                ||| rows != 1
                ||| row.inserted != Some(1i64)
                ||| row.updated != Some(1i64)
                ||| !(row.bytes matches Some(bytes) && bytes > 0)
                ||| !(row.causal_lsn matches Some(lsn) && postgres::lsn_value(lsn@) is Some)
            },
        },
{
}

/// A group that left the queue is the one that was asked for.
pub proof fn finished_group_is_the_one_asked_for(
    rows: int,
    queue_id: Option<i64>,
    group_state_id: Option<i64>,
    group_queue_id: i64,
)
    ensures
        match emit::finished_state(rows, queue_id, group_state_id, group_queue_id) {
            Ok(state) => rows == 1 && queue_id == Some(group_queue_id) && group_state_id == Some(
                state,
            ),
            Err(_) => rows != 1 || queue_id != Some(group_queue_id) || group_state_id is None,
        },
{
}

/// A finished group changes its queue entry and at most its own state.
pub proof fn finished_group_counts_its_rows(tombstones: int)
    requires
        0 <= tombstones,
    ensures
        tombstones == 0 ==> emit::rows_finished(tombstones) == Ok::<u64, Seq<char>>(1),
        tombstones == 1 ==> emit::rows_finished(tombstones) == Ok::<u64, Seq<char>>(2),
        tombstones > 1 ==> emit::rows_finished(tombstones) is Err,
{
}

/// The queue of dirty groups advances past a finished group, to the next one
/// that was found or to its end.
pub proof fn queue_advances_past_a_finished_group(rows: int, next: Option<i64>, group_queue_id: i64)
    ensures
        match emit::next_dirty(rows, next, group_queue_id) {
            Ok(found) => rows == 1 && found == next && (next matches Some(after) ==> after
                > group_queue_id),
            Err(_) => rows != 1 || (next matches Some(after) && after <= group_queue_id),
        },
{
}

} // verus!
