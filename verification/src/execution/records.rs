//! How the continuations of the stages lie in their relations.

use vstd::prelude::*;

use crate::execution::aggregate::machine::{
    AfterDrain, AggregateContinuation, AggregatePhase, EmitLeg,
};
use crate::execution::aggregate::storage::{AggregateFields, AggregateRow};
use crate::execution::continuation::Column;
use crate::execution::distinct::machine::{DistinctContinuation, DistinctPhase};
use crate::execution::distinct::storage::ContinuationRow;
use crate::execution::join::planner::{
    InputProgress, InputSide, JoinContinuation, JoinPhase, MatchTruth,
};
use crate::execution::join::storage::{JoinFields, JoinRow};
use crate::execution::linear::machine::{ScanContinuation, TransformContinuation};
use crate::execution::linear::storage::{ScanRow, TransformRow};
use crate::execution::requests::names_position;
use crate::execution::{aggregate, distinct, join, linear};
use crate::postgres;
use crate::session::{self, Row};
use crate::sql::SqlModel;

verus! {

/// Whether the column at a place has a name, and the argument for it a value.
pub open spec fn stores(
    columns: Seq<Column>,
    arguments: Seq<SqlModel>,
    place: int,
    name: Seq<char>,
    value: SqlModel,
) -> bool {
    columns[place].name@ == name && arguments[place - 1] == value
}

/// The columns of an Aggregate continuation hold the fields of their names, as
/// they are written and as they are read.
pub proof fn aggregate_columns_hold_their_fields(fields: AggregateFields, rows: Seq<Row>)
    ensures
        aggregate::storage::columns().len() == 11,
        aggregate::storage::field_arguments(fields).len() == 10,
        aggregate::storage::columns()[0].name@ == "singleton"@,
        stores(aggregate::storage::columns(), aggregate::storage::field_arguments(fields), 1, "phase"@, SqlModel::SmallInt(Some(fields.phase))),
        stores(aggregate::storage::columns(), aggregate::storage::field_arguments(fields), 2, "input_stream_id"@, SqlModel::BigInt(Some(fields.input_stream_id))),
        stores(aggregate::storage::columns(), aggregate::storage::field_arguments(fields), 3, "input_chunk_seq"@, SqlModel::BigInt(fields.input_chunk_seq)),
        stores(aggregate::storage::columns(), aggregate::storage::field_arguments(fields), 4, "input_row_ordinal"@, SqlModel::BigInt(fields.input_row_ordinal)),
        stores(aggregate::storage::columns(), aggregate::storage::field_arguments(fields), 5, "group_queue_id"@, SqlModel::BigInt(fields.group_queue_id)),
        stores(aggregate::storage::columns(), aggregate::storage::field_arguments(fields), 6, "aggregate_ordinal"@, SqlModel::Integer(fields.aggregate_ordinal)),
        stores(aggregate::storage::columns(), aggregate::storage::field_arguments(fields), 7, "emit_leg"@, SqlModel::SmallInt(fields.emit_leg)),
        stores(aggregate::storage::columns(), aggregate::storage::field_arguments(fields), 8, "after_kind"@, SqlModel::SmallInt(fields.after_kind)),
        stores(aggregate::storage::columns(), aggregate::storage::field_arguments(fields), 9, "after_chunk_seq"@, SqlModel::BigInt(fields.after_chunk_seq)),
        stores(aggregate::storage::columns(), aggregate::storage::field_arguments(fields), 10, "after_row_ordinal"@, SqlModel::BigInt(fields.after_row_ordinal)),
        AggregateRow::of(rows).phase == session::smallint(rows, 1),
        AggregateRow::of(rows).input_stream_id == session::bigint(rows, 2),
        AggregateRow::of(rows).input_chunk_seq == session::bigint(rows, 3),
        AggregateRow::of(rows).input_row_ordinal == session::bigint(rows, 4),
        AggregateRow::of(rows).group_queue_id == session::bigint(rows, 5),
        AggregateRow::of(rows).aggregate_ordinal == session::integer(rows, 6),
        AggregateRow::of(rows).emit_leg == session::smallint(rows, 7),
        AggregateRow::of(rows).after_kind == session::smallint(rows, 8),
        AggregateRow::of(rows).after_chunk_seq == session::bigint(rows, 9),
        AggregateRow::of(rows).after_row_ordinal == session::bigint(rows, 10),
{
}

/// The columns of a Join continuation hold the fields of their names, as they
/// are written and as they are read.
pub proof fn join_columns_hold_their_fields(fields: JoinFields, rows: Seq<Row>)
    ensures
        join::storage::columns().len() == 26,
        join::storage::field_arguments(fields).len() == 25,
        join::storage::columns()[0].name@ == "singleton"@,
        stores(join::storage::columns(), join::storage::field_arguments(fields), 1, "phase"@, SqlModel::SmallInt(Some(fields.phase))),
        stores(join::storage::columns(), join::storage::field_arguments(fields), 2, "input_side"@, SqlModel::SmallInt(Some(fields.input_side))),
        stores(join::storage::columns(), join::storage::field_arguments(fields), 3, "left_stream_id"@, SqlModel::BigInt(Some(fields.left_stream_id))),
        stores(join::storage::columns(), join::storage::field_arguments(fields), 4, "left_chunk_seq"@, SqlModel::BigInt(Some(fields.left_chunk_seq))),
        stores(join::storage::columns(), join::storage::field_arguments(fields), 5, "left_row_ordinal"@, SqlModel::BigInt(Some(fields.left_row_ordinal))),
        stores(join::storage::columns(), join::storage::field_arguments(fields), 6, "right_stream_id"@, SqlModel::BigInt(Some(fields.right_stream_id))),
        stores(join::storage::columns(), join::storage::field_arguments(fields), 7, "right_chunk_seq"@, SqlModel::BigInt(Some(fields.right_chunk_seq))),
        stores(join::storage::columns(), join::storage::field_arguments(fields), 8, "right_row_ordinal"@, SqlModel::BigInt(Some(fields.right_row_ordinal))),
        stores(join::storage::columns(), join::storage::field_arguments(fields), 9, "event_weight"@, SqlModel::BigInt(fields.event_weight)),
        stores(join::storage::columns(), join::storage::field_arguments(fields), 10, "event_bytes"@, SqlModel::BigInt(fields.event_bytes)),
        stores(join::storage::columns(), join::storage::field_arguments(fields), 11, "own_row_id"@, SqlModel::BigInt(fields.own_row_id)),
        stores(join::storage::columns(), join::storage::field_arguments(fields), 12, "own_multiplicity"@, SqlModel::BigInt(fields.own_multiplicity)),
        stores(join::storage::columns(), join::storage::field_arguments(fields), 13, "own_match_count"@, SqlModel::BigInt(fields.own_match_count)),
        stores(join::storage::columns(), join::storage::field_arguments(fields), 14, "own_unknown_count"@, SqlModel::BigInt(fields.own_unknown_count)),
        stores(join::storage::columns(), join::storage::field_arguments(fields), 15, "candidate_after"@, SqlModel::BigInt(fields.candidate_after)),
        stores(join::storage::columns(), join::storage::field_arguments(fields), 16, "accumulated_match_count"@, SqlModel::BigInt(fields.accumulated_match_count)),
        stores(join::storage::columns(), join::storage::field_arguments(fields), 17, "accumulated_unknown_count"@, SqlModel::BigInt(fields.accumulated_unknown_count)),
        stores(join::storage::columns(), join::storage::field_arguments(fields), 18, "pending_row_id"@, SqlModel::BigInt(fields.pending_row_id)),
        stores(join::storage::columns(), join::storage::field_arguments(fields), 19, "pending_multiplicity"@, SqlModel::BigInt(fields.pending_multiplicity)),
        stores(join::storage::columns(), join::storage::field_arguments(fields), 20, "pending_truth"@, SqlModel::SmallInt(fields.pending_truth)),
        stores(join::storage::columns(), join::storage::field_arguments(fields), 21, "pending_old_match"@, SqlModel::BigInt(fields.pending_old_match)),
        stores(join::storage::columns(), join::storage::field_arguments(fields), 22, "pending_old_unknown"@, SqlModel::BigInt(fields.pending_old_unknown)),
        stores(join::storage::columns(), join::storage::field_arguments(fields), 23, "pending_new_match"@, SqlModel::BigInt(fields.pending_new_match)),
        stores(join::storage::columns(), join::storage::field_arguments(fields), 24, "pending_new_unknown"@, SqlModel::BigInt(fields.pending_new_unknown)),
        stores(join::storage::columns(), join::storage::field_arguments(fields), 25, "frontier_lsn"@, join::storage::field_arguments(fields)[24]),
        JoinRow::of(rows).phase == session::smallint(rows, 1),
        JoinRow::of(rows).input_side == session::smallint(rows, 2),
        JoinRow::of(rows).left_stream_id == session::bigint(rows, 3),
        JoinRow::of(rows).left_chunk_seq == session::bigint(rows, 4),
        JoinRow::of(rows).left_row_ordinal == session::bigint(rows, 5),
        JoinRow::of(rows).right_stream_id == session::bigint(rows, 6),
        JoinRow::of(rows).right_chunk_seq == session::bigint(rows, 7),
        JoinRow::of(rows).right_row_ordinal == session::bigint(rows, 8),
        JoinRow::of(rows).event_weight == session::bigint(rows, 9),
        JoinRow::of(rows).event_bytes == session::bigint(rows, 10),
        JoinRow::of(rows).own_row_id == session::bigint(rows, 11),
        JoinRow::of(rows).own_multiplicity == session::bigint(rows, 12),
        JoinRow::of(rows).own_match_count == session::bigint(rows, 13),
        JoinRow::of(rows).own_unknown_count == session::bigint(rows, 14),
        JoinRow::of(rows).candidate_after == session::bigint(rows, 15),
        JoinRow::of(rows).accumulated_match_count == session::bigint(rows, 16),
        JoinRow::of(rows).accumulated_unknown_count == session::bigint(rows, 17),
        JoinRow::of(rows).pending_row_id == session::bigint(rows, 18),
        JoinRow::of(rows).pending_multiplicity == session::bigint(rows, 19),
        JoinRow::of(rows).pending_truth == session::smallint(rows, 20),
        JoinRow::of(rows).pending_old_match == session::bigint(rows, 21),
        JoinRow::of(rows).pending_old_unknown == session::bigint(rows, 22),
        JoinRow::of(rows).pending_new_match == session::bigint(rows, 23),
        JoinRow::of(rows).pending_new_unknown == session::bigint(rows, 24),
        JoinRow::of(rows).frontier_lsn == session::text(rows, 25),
{
}

/// The columns of a Scan continuation hold the fields of their names, as they
/// are written and as they are read.
pub proof fn scan_columns_hold_their_fields(value: ScanContinuation, rows: Seq<Row>)
    ensures
        linear::storage::scan_abi().len() == 7,
        linear::storage::scan_fields(value).len() == 6,
        linear::storage::scan_abi()[0].name@ == "singleton"@,
        stores(linear::storage::scan_abi(), linear::storage::scan_fields(value), 1, "phase"@, SqlModel::SmallInt(Some(value.phase.number()))),
        stores(linear::storage::scan_abi(), linear::storage::scan_fields(value), 2, "input_stream_id"@, SqlModel::BigInt(Some(value.input_stream_id))),
        stores(linear::storage::scan_abi(), linear::storage::scan_fields(value), 3, "input_chunk_seq"@, SqlModel::BigInt(value.input_chunk_seq)),
        stores(linear::storage::scan_abi(), linear::storage::scan_fields(value), 4, "next_row_ordinal"@, SqlModel::BigInt(value.next_row_ordinal)),
        stores(linear::storage::scan_abi(), linear::storage::scan_fields(value), 5, "next_bootstrap_seq"@, SqlModel::BigInt(value.next_bootstrap_seq)),
        stores(linear::storage::scan_abi(), linear::storage::scan_fields(value), 6, "pending_frontier_lsn"@, linear::storage::scan_fields(value)[5]),
        ScanRow::of(rows).phase == session::smallint(rows, 1),
        ScanRow::of(rows).input_stream_id == session::bigint(rows, 2),
        ScanRow::of(rows).input_chunk_seq == session::bigint(rows, 3),
        ScanRow::of(rows).next_row_ordinal == session::bigint(rows, 4),
        ScanRow::of(rows).next_bootstrap_seq == session::bigint(rows, 5),
        ScanRow::of(rows).pending_frontier_lsn == session::text(rows, 6),
{
}

/// The columns of a linear continuation hold the fields of their names, as they
/// are written and as they are read.
pub proof fn transform_columns_hold_their_fields(value: TransformContinuation, rows: Seq<Row>)
    ensures
        linear::storage::transform_abi().len() == 4,
        linear::storage::transform_fields(value).len() == 3,
        linear::storage::transform_abi()[0].name@ == "singleton"@,
        stores(linear::storage::transform_abi(), linear::storage::transform_fields(value), 1, "input_stream_id"@, SqlModel::BigInt(Some(value.input_stream_id))),
        stores(linear::storage::transform_abi(), linear::storage::transform_fields(value), 2, "input_chunk_seq"@, SqlModel::BigInt(Some(value.input_chunk_seq))),
        stores(linear::storage::transform_abi(), linear::storage::transform_fields(value), 3, "next_row_ordinal"@, SqlModel::BigInt(Some(value.next_row_ordinal))),
        TransformRow::of(rows).input_stream_id == session::bigint(rows, 1),
        TransformRow::of(rows).input_chunk_seq == session::bigint(rows, 2),
        TransformRow::of(rows).next_row_ordinal == session::bigint(rows, 3),
{
}

/// The columns of a Distinct continuation hold the fields of their names, as
/// they are written and as they are read.
pub proof fn distinct_columns_hold_their_fields(value: DistinctContinuation, rows: Seq<Row>)
    requires
        !(value.phase is Frontier),
    ensures
        distinct::storage::columns().len() == 5,
        distinct::storage::arguments_of(value)->Ok_0.len() == 4,
        distinct::storage::columns()[0].name@ == "singleton"@,
        stores(distinct::storage::columns(), distinct::storage::arguments_of(value)->Ok_0, 1, "phase"@, SqlModel::SmallInt(Some(if value.phase is Apply { 1i16 } else { 2i16 }))),
        stores(distinct::storage::columns(), distinct::storage::arguments_of(value)->Ok_0, 2, "input_stream_id"@, SqlModel::BigInt(Some(value.input.stream_id))),
        stores(distinct::storage::columns(), distinct::storage::arguments_of(value)->Ok_0, 3, "input_chunk_seq"@, SqlModel::BigInt(Some(value.input.chunk_seq))),
        stores(distinct::storage::columns(), distinct::storage::arguments_of(value)->Ok_0, 4, "next_row_ordinal"@, SqlModel::BigInt(Some(value.input.row_ordinal))),
        ContinuationRow::of(rows).phase == session::smallint(rows, 1),
        ContinuationRow::of(rows).input_stream_id == session::bigint(rows, 2),
        ContinuationRow::of(rows).input_chunk_seq == session::bigint(rows, 3),
        ContinuationRow::of(rows).next_row_ordinal == session::bigint(rows, 4),
{
}

/// A stored frontier is the position that it stands for.
pub proof fn stored_frontiers_are_positions(fields: JoinFields, value: ScanContinuation)
    ensures
        fields.frontier_lsn is None ==> join::storage::field_arguments(fields)[24]
            == SqlModel::Text(None),
        fields.frontier_lsn matches Some(lsn) ==> names_position(
            join::storage::field_arguments(fields)[24],
            lsn,
        ),
        value.pending_frontier_lsn is None ==> linear::storage::scan_fields(value)[5]
            == SqlModel::Text(None),
        value.pending_frontier_lsn matches Some(lsn) ==> names_position(
            linear::storage::scan_fields(value)[5],
            lsn,
        ),
{
    if let Some(lsn) = fields.frontier_lsn {
        postgres::lsn_text_is_read_back(lsn);
    }
    if let Some(lsn) = value.pending_frontier_lsn {
        postgres::lsn_text_is_read_back(lsn);
    }
}

/// The phases of the stages are numbered in the order in which an event comes
/// to them; the left side is the first port, and a truth is one, none or less.
pub proof fn codes_are_fixed(
    phase: JoinPhase,
    side: InputSide,
    truth: MatchTruth,
    distinct: DistinctPhase,
)
    ensures
        phase.number() == 1 <==> phase is Preflight,
        phase.number() == 2 <==> phase is Probe,
        phase.number() == 3 <==> phase is PendingTransition,
        phase.number() == 4 <==> phase is Finalize,
        phase.number() == 5 <==> phase is Frontier,
        side.number() == 0 <==> side is Left,
        side.number() == 1 <==> side is Right,
        truth.number() == 1 <==> truth is True,
        truth.number() == 0 <==> truth is False,
        truth.number() == -1 <==> truth is Unknown,
        distinct::storage::phase_number(distinct) == Ok::<i16, Seq<char>>(1) <==> distinct is Apply,
        distinct::storage::phase_number(distinct) == Ok::<i16, Seq<char>>(2) <==> distinct is Drain,
        distinct::storage::phase_number(distinct) is Err <==> distinct is Frontier,
{
}

/// The fields of an Aggregate continuation are those of its phase, and of the
/// place where its drain leads.
pub proof fn aggregate_fields_follow_the_phase(value: AggregateContinuation)
    ensures
        AggregateFields::of(value) matches Ok(fields) ==> {
            &&& fields.input_stream_id == value.input_stream_id
            &&& value.input is None ==> fields.input_chunk_seq is None
                && fields.input_row_ordinal is None
            &&& value.input matches Some(input) ==> fields.input_chunk_seq == Some(input.chunk_seq)
                && fields.input_row_ordinal == Some(input.row_ordinal)
            &&& fields.phase == 1 <==> value.phase is Apply
            &&& fields.phase == 2 <==> value.phase is DrainRebuild
            &&& fields.phase == 3 <==> value.phase is DrainEmit
            &&& fields.phase == 4 <==> value.phase is Frontier
            &&& match value.phase {
                AggregatePhase::DrainRebuild { group_queue_id, aggregate_ordinal, after } => {
                    &&& fields.group_queue_id == Some(group_queue_id)
                    &&& fields.aggregate_ordinal == Some(aggregate_ordinal as i32)
                    &&& fields.emit_leg is None
                    &&& leads_to(fields, after)
                },
                AggregatePhase::DrainEmit { group_queue_id, leg, after } => {
                    &&& fields.group_queue_id == Some(group_queue_id)
                    &&& fields.aggregate_ordinal is None
                    &&& leg == EmitLeg::Decide ==> fields.emit_leg == Some(1i16)
                    &&& leg == EmitLeg::InsertPending ==> fields.emit_leg == Some(2i16)
                    &&& leads_to(fields, after)
                },
                _ => {
                    &&& fields.group_queue_id is None && fields.aggregate_ordinal is None
                    &&& fields.emit_leg is None && fields.after_kind is None
                    &&& fields.after_chunk_seq is None && fields.after_row_ordinal is None
                },
            }
        },
{
}

/// Whether fields say where a drain leads.
pub open spec fn leads_to(fields: AggregateFields, after: AfterDrain) -> bool {
    match after {
        AfterDrain::Apply(input) => {
            &&& fields.after_kind == Some(1i16)
            &&& fields.after_chunk_seq == Some(input.chunk_seq)
            &&& fields.after_row_ordinal == Some(input.row_ordinal)
        },
        AfterDrain::Idle => {
            &&& fields.after_kind == Some(2i16)
            &&& fields.after_chunk_seq is None
            &&& fields.after_row_ordinal is None
        },
        AfterDrain::Frontier(input) => {
            &&& fields.after_kind == Some(3i16)
            &&& fields.after_chunk_seq == Some(input.chunk_seq)
            &&& fields.after_row_ordinal == Some(input.row_ordinal)
        },
    }
}

/// The fields of a Join continuation are its positions, its side, and what its
/// phase knows of the event, of its own row and of the pending candidate.
pub proof fn join_fields_follow_the_phase(value: JoinContinuation)
    ensures
        ({
            let fields = JoinFields::of(value);
            let positions = join::storage::pinned_positions(value);
            &&& fields.left_stream_id == positions.left.stream_id
            &&& fields.left_chunk_seq == positions.left.chunk_seq
            &&& fields.left_row_ordinal == positions.left.row_ordinal
            &&& fields.right_stream_id == positions.right.stream_id
            &&& fields.right_chunk_seq == positions.right.chunk_seq
            &&& fields.right_row_ordinal == positions.right.row_ordinal
            &&& fields.input_side == 0 <==> join::storage::pinned_side(value) is Left
            &&& fields.frontier_lsn is Some <==> value is Frontier
            &&& value matches JoinContinuation::Frontier(frontier) ==> fields.frontier_lsn == Some(
                frontier.frontier,
            )
            &&& fields.event_weight is Some <==> value is Probe || value is Finalize
                || value is PendingTransition
            &&& fields.pending_row_id is Some <==> value is PendingTransition
            &&& value matches JoinContinuation::Probe(progress) ==> keeps_progress(fields, progress)
            &&& value matches JoinContinuation::Finalize(progress) ==> keeps_progress(
                fields,
                progress,
            )
            &&& value matches JoinContinuation::PendingTransition { progress, candidate } ==> {
                &&& keeps_progress(fields, progress)
                &&& fields.pending_row_id == Some(candidate.row_id)
                &&& fields.pending_multiplicity == Some(candidate.multiplicity as i64)
                &&& fields.pending_truth == Some(candidate.truth.number() as i16)
                &&& fields.pending_old_match == Some(candidate.old_counts.matched as i64)
                &&& fields.pending_old_unknown == Some(candidate.old_counts.unknown as i64)
                &&& fields.pending_new_match == Some(candidate.new_counts.matched as i64)
                &&& fields.pending_new_unknown == Some(candidate.new_counts.unknown as i64)
            }
        }),
{
}

/// Whether fields keep the progress of an event.
pub open spec fn keeps_progress(
    fields: JoinFields,
    progress: InputProgress,
) -> bool {
    &&& fields.event_weight == Some(progress.event_weight)
    &&& fields.event_bytes == Some(progress.event_bytes as i64)
    &&& fields.own_row_id == progress.expected_own.row_id
    &&& fields.own_multiplicity == Some(progress.expected_own.multiplicity as i64)
    &&& fields.own_match_count == Some(progress.expected_own.counts.matched as i64)
    &&& fields.own_unknown_count == Some(progress.expected_own.counts.unknown as i64)
    &&& fields.candidate_after == progress.candidate_after
    &&& fields.accumulated_match_count == Some(progress.opposite_counts.matched as i64)
    &&& fields.accumulated_unknown_count == Some(progress.opposite_counts.unknown as i64)
}

} // verus!
