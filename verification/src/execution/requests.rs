//! What the statements that the stages share are told, and how their answers
//! are taken.

use vstd::prelude::*;

use crate::execution::aggregate;
use crate::execution::btree::{self, CapabilityRow, OrderModel};
use crate::execution::continuation::{self, Attribute, Column, ReplaceState, Replacement};
use crate::execution::contract::InputPosition;
use crate::execution::distinct;
use crate::execution::stream::{ChunkMeta, InputAdvance, OutputAppendTarget};
use crate::planner::{SortGroupExpr, WorkBudget};
use crate::postgres;
use crate::predicate::{self, Condition, Scene};
use crate::session::{ProgressModel, Reply, RequestModel, Row};
use crate::sql::{number, SqlModel, StatementModel};
use crate::text;

verus! {

/// Whether a statement names a position of the log.
pub open spec fn names_position(argument: SqlModel, lsn: u64) -> bool {
    argument matches SqlModel::Text(Some(position)) && postgres::lsn_value(position) == Some(
        lsn as nat,
    )
}

/// Whether a statement names the rows of a chunk from a first one on, as many
/// as a budget takes in.
pub open spec fn names_prefix(
    statement: StatementModel,
    chunk: ChunkMeta,
    first_row: i64,
    budget: WorkBudget,
) -> bool {
    &&& statement.told(1) == number(chunk.stream_id as int)
    &&& statement.told(2) == number(chunk.sequence as int)
    &&& statement.told(3) == number(first_row as int)
    &&& statement.told(4) == number(budget.max_input_rows as int)
    &&& statement.told(5) == number(budget.max_input_bytes as int)
}

/// The place of an argument in a statement, with its type where it has one.
pub open spec fn place_of(columns: Seq<Column>, index: int) -> Seq<char> {
    match columns[index].parameter_cast {
        Some(cast) => "$"@ + text::decimal(index) + "::"@ + cast@,
        None => "$"@ + text::decimal(index),
    }
}

/// A stored continuation is deleted exactly when it is the one that was read:
/// each of its columns holds what the argument at its place says.
pub proof fn stored_row_is_deleted_as_it_was_read(
    relation: Seq<char>,
    columns: Seq<Column>,
    scene: Scene,
)
    requires
        columns.len() > 1,
    ensures
        exists|condition: Condition|
            #![trigger condition.written()]
            {
                &&& continuation::delete_sql(relation, columns) == "DELETE FROM "@ + relation
                    + " WHERE singleton AND "@ + condition.written() + " RETURNING singleton"@
                &&& condition.legible()
                &&& condition.passes(scene) <==> forall|index: int|
                    1 <= index < columns.len() ==> (scene.values)((#[trigger] columns[index]).name@)
                        == (scene.values)(place_of(columns, index))
            },
{
    let parts = Seq::new(
        (columns.len() - 1) as nat,
        |index: int|
            Condition::Alike {
                left: columns[index + 1].name@,
                right: place_of(columns, index + 1),
            },
    );
    let list = continuation::comparisons(columns);
    predicate::all_are_linked(parts, list, scene);
    let condition = Condition::Linked { parts, link: " AND "@ };
    assert(condition.written() == text::joined(list, " AND "@));
    if condition.passes(scene) {
        assert forall|index: int| 1 <= index < columns.len() implies (scene.values)(
            (#[trigger] columns[index]).name@,
        ) == (scene.values)(place_of(columns, index)) by {
            assert(parts[index - 1].passes(scene));
        }
    }
}

/// A successor is stored column by column: the first column says that it is the
/// only row, and each other one takes the argument at its place.
pub proof fn stored_columns_take_their_arguments(relation: Seq<char>, columns: Seq<Column>)
    requires
        columns.len() > 1,
    ensures
        exists|names: Seq<Seq<char>>, values: Seq<Seq<char>>|
            #![trigger text::joined(names, ","@), text::joined(values, ","@)]
            {
                &&& continuation::insert_sql(relation, columns) == "INSERT INTO "@ + relation
                    + "("@ + text::joined(names, ","@) + ") VALUES(true,"@ + text::joined(
                    values,
                    ","@,
                ) + ") RETURNING singleton"@
                &&& names.len() == columns.len()
                &&& values.len() == columns.len() - 1
                &&& forall|index: int|
                    0 <= index < columns.len() ==> #[trigger] names[index] == columns[index].name@
                &&& forall|index: int|
                    1 <= index < columns.len() ==> values[index - 1] == #[trigger] place_of(
                        columns,
                        index,
                    )
            },
{
    let names = continuation::column_names(columns);
    let values = continuation::parameters(columns);
    assert(continuation::insert_sql(relation, columns) == "INSERT INTO "@ + relation + "("@
        + text::joined(names, ","@) + ") VALUES(true,"@ + text::joined(values, ","@)
        + ") RETURNING singleton"@);
}

/// There is one stored continuation or none.
pub proof fn authority_is_one_row_or_none(count: usize, owner: Seq<char>)
    ensures
        continuation::authority(count, owner) == Ok::<bool, Seq<char>>(false) <==> count == 0,
        continuation::authority(count, owner) == Ok::<bool, Seq<char>>(true) <==> count == 1,
        continuation::authority(count, owner) is Err <==> count > 1,
{
}

/// A replacement deletes the old row before it stores the new one, and goes on
/// only where exactly one row was changed.
pub proof fn replacement_changes_one_row_at_a_time(
    replacement: Replacement,
    state: ReplaceState,
    rows: Vec<Row>,
    owner: Seq<char>,
)
    requires
        rows.len() <= usize::MAX,
    ensures
        replacement.delete matches Some(delete) ==> (continuation::replacing(replacement) matches
            ProgressModel::Ask {
                state: ReplaceState::Deleting { insert },
                request: RequestModel::Write(statement),
            } && insert == replacement.insert && statement == delete@),
        replacement.delete is None && replacement.insert is None ==> continuation::replacing(
            replacement,
        ) == ProgressModel::<ReplaceState, bool>::Done(false),
        replacement.delete is None ==> (replacement.insert matches Some(insert) ==> (
        continuation::replacing(replacement) matches ProgressModel::Ask {
            state: ReplaceState::Inserting,
            request: RequestModel::Write(statement),
        } && statement == insert@)),
        rows.len() != 1 ==> continuation::resumes_replace(state, Reply::Rows(rows), owner) is Err,
        rows.len() == 1 ==> match (
            state,
            continuation::resumes_replace(state, Reply::Rows(rows), owner),
        ) {
            (
                ReplaceState::Deleting { insert: Some(insert) },
                Ok(
                    ProgressModel::Ask {
                        state: ReplaceState::Inserting,
                        request: RequestModel::Write(statement),
                    },
                ),
            ) => statement == insert@,
            (
                ReplaceState::Deleting { insert: None },
                Ok(ProgressModel::Done(stored)),
            ) => !stored,
            (ReplaceState::Inserting, Ok(ProgressModel::Done(stored))) => stored,
            _ => false,
        },
{
}

/// A B-tree order sorts upwards under the first strategy and downwards under
/// the fifth, and is taken over as the catalog describes it, with the side of
/// NULL that the query asks for.
pub proof fn order_is_resolved_as_described(
    row: CapabilityRow,
    coercible: bool,
    order: SortGroupExpr,
    operator: Seq<char>,
)
    ensures
        btree::order_resolved(row, coercible, order, operator) matches Ok(resolved) ==> {
            &&& coercible
            &&& row.sort_strategy == Some(1i16) && resolved.direction == "ASC"@ || row.sort_strategy
                == Some(5i16) && resolved.direction == "DESC"@
            &&& row.opclass_namespace is Some && row.opclass_name is Some && resolved.opclass
                == postgres::quoted(row.opclass_namespace->0@) + "."@ + postgres::quoted(
                row.opclass_name->0@,
            )
            &&& row.sort_operator matches Some(sort) && resolved.sort_operator == sort@
            &&& row.equality_operator matches Some(equality) && resolved.equality_operator
                == equality@
            &&& resolved.nulls_first == order.nulls_first
        },
{
}

/// An index column sorts NULL to the side that the order says.
pub proof fn index_column_follows_its_order(order: OrderModel, column: Seq<char>)
    ensures
        order.nulls_first ==> order.index_sql(column) == postgres::quoted(column) + " "@
            + order.opclass + " "@ + order.direction + " NULLS "@ + "FIRST"@,
        !order.nulls_first ==> order.index_sql(column) == postgres::quoted(column) + " "@
            + order.opclass + " "@ + order.direction + " NULLS "@ + "LAST"@,
{
}

/// A position names a stream, a chunk and a row that can exist.
pub proof fn position_names_what_can_exist(stream_id: i64, chunk_seq: i64, row_ordinal: i64)
    ensures
        match InputPosition::made(stream_id, chunk_seq, row_ordinal) {
            Ok(position) => {
                &&& position.stream_id == stream_id > 0
                &&& position.chunk_seq == chunk_seq > 0
                &&& position.row_ordinal == row_ordinal >= 0
            },
            Err(_) => stream_id <= 0 || chunk_seq <= 0 || row_ordinal < 0,
        },
{
}

/// A consumer that is done with a chunk stands at the next one. A frontier
/// takes its position along; data takes its rows and bytes into account and
/// leaves the position where it was.
pub proof fn consumer_stands_behind_its_chunk(chunk: ChunkMeta, consumed_frontier_lsn: u64)
    requires
        chunk.sequence < i64::MAX,
    ensures
        InputAdvance::past_frontier(chunk).next_chunk_seq == chunk.sequence + 1,
        InputAdvance::past_frontier(chunk).frontier_lsn == chunk.lsn,
        InputAdvance::past_frontier(chunk).usage.input_rows == 0,
        InputAdvance::past_frontier(chunk).usage.input_bytes == 0,
        InputAdvance::past_frontier(chunk).usage.output_rows == 0,
        InputAdvance::past_frontier(chunk).usage.output_bytes == 0,
        InputAdvance::past_data(chunk, consumed_frontier_lsn).next_chunk_seq == chunk.sequence + 1,
        InputAdvance::past_data(chunk, consumed_frontier_lsn).frontier_lsn == consumed_frontier_lsn,
        InputAdvance::past_data(chunk, consumed_frontier_lsn).usage.input_rows == chunk.rows,
        InputAdvance::past_data(chunk, consumed_frontier_lsn).usage.input_bytes == chunk.bytes,
        InputAdvance::past_data(chunk, consumed_frontier_lsn).usage.output_rows == 0,
        InputAdvance::past_data(chunk, consumed_frontier_lsn).usage.output_bytes == 0,
{
}

/// Rows go to the front of a new chunk and behind the rows of an extended one.
pub proof fn rows_are_placed_in_their_chunk(sequence: i64, row_offset: u64)
    ensures
        (OutputAppendTarget::New { sequence }).chunk() == sequence,
        (OutputAppendTarget::New { sequence }).offset() == 0,
        (OutputAppendTarget::Extend { sequence, row_offset }).chunk() == sequence,
        (OutputAppendTarget::Extend { sequence, row_offset }).offset() == row_offset,
{
}

/// A stored continuation is locked before it is read, as the one row of its
/// relation, and is cleared as that row; it has exactly the columns of its kind.
pub proof fn stored_row_is_the_only_one(
    relation: Seq<char>,
    select: Seq<char>,
    attributes: Seq<Attribute>,
    columns: Seq<Column>,
)
    ensures
        continuation::lock_sql(relation, select) == "SELECT "@ + select + " FROM "@ + relation
            + " WHERE singleton FOR UPDATE"@,
        continuation::clear_sql(relation) == "DELETE FROM "@ + relation
            + " WHERE singleton RETURNING singleton"@,
        continuation::same_columns(attributes, columns) <==> {
            &&& attributes.len() == columns.len()
            &&& forall|index: int|
                0 <= index < columns.len() ==> {
                    &&& (#[trigger] columns[index]).name@ == attributes[index].name@
                    &&& columns[index].type_oid == attributes[index].type_oid
                    &&& columns[index].not_null == attributes[index].not_null
                }
        },
{
    if continuation::same_columns(attributes, columns) {
        assert forall|index: int| 0 <= index < columns.len() implies {
            &&& (#[trigger] columns[index]).name@ == attributes[index].name@
            &&& columns[index].type_oid == attributes[index].type_oid
            &&& columns[index].not_null == attributes[index].not_null
        } by {
            assert(columns[index].is(attributes[index]));
        }
    }
}

/// A replacement deletes the row that was read and stores the row that follows,
/// each with its own values, and does neither where there is none.
pub proof fn replacement_is_of_both_rows(
    replacement: Replacement,
    relation: Seq<char>,
    columns: Seq<Column>,
    before: Option<Seq<SqlModel>>,
    next: Option<Seq<SqlModel>>,
)
    requires
        continuation::replaces(replacement, relation, columns, before, next),
    ensures
        replacement.delete is Some <==> before is Some,
        replacement.insert is Some <==> next is Some,
        replacement.delete matches Some(statement) ==> (before matches Some(fields)
            && statement@.arguments == fields && statement@.sql == continuation::delete_sql(
            relation,
            columns,
        )),
        replacement.insert matches Some(statement) ==> (next matches Some(fields)
            && statement@.arguments == fields && statement@.sql == continuation::insert_sql(
            relation,
            columns,
        )),
{
}

/// The first of a queue is its smallest number; a queue is looked at for a row,
/// or for none.
pub proof fn queues_are_read_from_their_front(relation: Seq<char>)
    ensures
        aggregate::apply::dirty_query(relation).sql == "SELECT min(queue_id)::bigint FROM "@
            + relation,
        aggregate::forwarding::empty_query(relation).sql == "SELECT NOT EXISTS(SELECT 1 FROM "@
            + relation + ")"@,
        aggregate::forwarding::filled_query(relation).sql == "SELECT EXISTS(SELECT 1 FROM "@
            + relation + ")"@,
        distinct::running::queue_query(relation).sql == "SELECT queue_id FROM "@ + relation
            + " ORDER BY queue_id LIMIT 1"@,
        aggregate::apply::dirty_query(relation).arguments.len() == 0,
        aggregate::forwarding::empty_query(relation).arguments.len() == 0,
        aggregate::forwarding::filled_query(relation).arguments.len() == 0,
        distinct::running::queue_query(relation).arguments.len() == 0,
{
}

} // verus!
