//! How a linear stage conducts its statements: what it asks behind each answer.

use vstd::prelude::*;

use crate::execution::linear::machine::{LinearKind, ScanContinuation};
use crate::execution::linear::opening::{
    ScanPlan, ScanState, ScanTask, TransformPlan, TransformState, TransformTask,
};
use crate::execution::linear::running::{
    BootstrapPlan, BootstrapState, CursorChange, DataPlan, DataState, SourcePlan, SourceState,
};
use crate::execution::linear::statements;
use crate::session::{self, ProgressModel, Reply, RequestModel};
use crate::sql::StatementModel;

verus! {

/// A scan locks its continuation and the authority over it, and then goes on
/// where it stands; only with a chunk does it look at its input.
pub proof fn scan_is_opened_where_it_stands(plan: ScanPlan, state: ScanState, reply: Reply)
    ensures
        plan.opening() is Ok <==> plan.input.source_oid == Some(plan.source_oid),
        plan.resumes(state, reply) matches Ok(ProgressModel::Ask { state: next, request }) ==> match (
            state,
            next,
        ) {
            (ScanState::Loading, ScanState::Authorizing { stored }) => {
                &&& reply matches Reply::Rows(rows) && (stored is Some <==> rows.len() == 1)
                &&& request == (RequestModel::Authority { present: stored is Some })
            },
            (
                ScanState::Authorizing { stored },
                ScanState::Peeking { stored: same, row_ordinal },
            ) => {
                &&& same == stored && reply is Checked
                &&& stored is None ==> row_ordinal == 0
                &&& stored matches Some(state) ==> state.phase is Data && row_ordinal
                    == state.next_row_ordinal->0
                &&& request == (RequestModel::Next { port: plan.input.port })
            },
            _ => false,
        },
        plan.resumes(state, reply) matches Ok(ProgressModel::Done(task)) ==> match (state, task) {
            (ScanState::Authorizing { stored }, ScanTask::Bootstrap { stored: same, next_sequence }) => {
                &&& stored == Some(same) && same.phase is Bootstrap
                &&& same.next_bootstrap_seq == Some(next_sequence)
            },
            (ScanState::Authorizing { stored }, ScanTask::Snapshot { stored: same, frontier }) => {
                &&& stored == Some(same) && same.phase is SnapshotFrontier
                &&& frontier == plan.input.activation_lsn
            },
            (ScanState::Authorizing { stored }, ScanTask::Source { frontier, clears }) => {
                &&& clears
                &&& stored matches Some(same) && same.phase is SourceFrontier
                    && same.pending_frontier_lsn == Some(frontier)
            },
            (ScanState::Peeking { stored, row_ordinal }, ScanTask::Data { chunk, row_ordinal: first, resumed }) => {
                &&& reply == Reply::Chunk(Some(chunk)) && chunk.kind is Data
                &&& first == row_ordinal
                &&& resumed <==> stored is Some
            },
            (ScanState::Peeking { stored, .. }, ScanTask::Source { frontier, clears }) => {
                &&& reply == Reply::Chunk(None) && stored is None && !clears
                &&& plan.input.available_source_frontier_lsn == Some(frontier) && frontier
                    > plan.input.consumed_frontier_lsn
            },
            _ => false,
        },
{
}

/// A transformation locks its continuation and the authority over it, and then
/// takes its next chunk.
pub proof fn transformation_is_opened_where_it_stands(
    plan: TransformPlan,
    state: TransformState,
    reply: Reply,
)
    ensures
        plan.resumes(state, reply) matches Ok(ProgressModel::Ask { state: next, request }) ==> match (
            state,
            next,
        ) {
            (TransformState::Loading, TransformState::Authorizing { stored }) => {
                &&& reply matches Reply::Rows(rows) && (stored is Some <==> rows.len() == 1)
                &&& request == (RequestModel::Authority { present: stored is Some })
            },
            (TransformState::Authorizing { stored }, TransformState::Peeking { stored: same }) => {
                &&& same == stored && reply is Checked
                &&& request == (RequestModel::Next { port: plan.input.port })
            },
            _ => false,
        },
        plan.resumes(state, reply) matches Ok(ProgressModel::Done(task)) ==> (
        state matches TransformState::Peeking { stored } && match task {
            TransformTask::Frontier { lsn, clears, .. } => {
                &&& reply matches Reply::Chunk(Some(chunk)) && chunk.kind is Frontier && lsn
                    == chunk.lsn
                &&& clears <==> stored is Some
            },
            TransformTask::Data { chunk, row_ordinal, resumed } => {
                &&& reply == Reply::Chunk(Some(chunk)) && chunk.kind is Data
                &&& resumed <==> stored is Some
                &&& stored is None ==> row_ordinal == 0
                &&& stored matches Some(state) ==> row_ordinal == state.next_row_ordinal
            },
        }),
{
}

/// A frontier of the source is checked against the chunks of its stream before
/// it goes on, and then the consumer stands there.
pub proof fn source_frontier_is_conducted(plan: SourcePlan, state: SourceState, reply: Reply)
    ensures
        plan.opening() matches ProgressModel::Ask {
            state: SourceState::Checking,
            request: RequestModel::Read(statement),
        } && statement == statements::skipped_chunk_query(
            plan.input.stream_id,
            plan.input.next_chunk_seq,
            plan.frontier,
        ),
        plan.resumes(state, reply) matches Ok(ProgressModel::Ask { state: next, request }) ==> {
            &&& state is Checking && next is Forwarding
            &&& reply matches Reply::Rows(rows) && session::boolean(rows@, 1) == Some(false)
            &&& request == (RequestModel::Frontier { lsn: plan.frontier })
        },
        plan.resumes(state, reply) matches Ok(ProgressModel::Done(advance)) ==> {
            &&& state is Forwarding && reply is Output
            &&& advance.next_chunk_seq == plan.input.next_chunk_seq
            &&& advance.frontier_lsn == plan.frontier
        },
{
}

/// A page of the snapshot is moved from its sequence on; behind its rows the
/// rest of the snapshot is looked for, exactly where there were some.
pub proof fn snapshot_page_is_conducted(plan: BootstrapPlan, state: BootstrapState, reply: Reply)
    requires
        plan.bounded(state, reply),
    ensures
        plan.opening() matches Ok(ProgressModel::Ask { state: first, request }) ==> {
            &&& first is Moving
            &&& request matches RequestModel::Write(statement) && statements::bootstrap_query(
                plan.bootstrap@,
                plan.payload@,
                plan.next_sequence,
                plan.budget,
                plan.output,
            ) == Ok::<StatementModel, Seq<char>>(statement)
        },
        plan.resumes(state, reply) matches Ok(ProgressModel::Ask { state: next, request }) ==> (
        state is Moving && (next matches BootstrapState::Looking { facts, end } && {
            &&& end == plan.next_sequence + facts.usage.input_rows
            &&& request == RequestModel::Read(
                statements::first_bootstrap_query(plan.bootstrap@, end),
            )
        })),
        plan.resumes(state, reply) matches Ok(ProgressModel::Done(close)) ==> {
            &&& close.append matches Some(append) ==> append.lsn == plan.input.activation_lsn
                && append.rows == close.facts.usage.output_rows && append.bytes
                == close.facts.usage.output_bytes
            &&& state matches BootstrapState::Looking { facts, end } ==> {
                &&& close.facts.usage == facts.usage
                &&& reply matches Reply::Rows(rows) && match session::bigint(rows@, 1) {
                    Some(rest) => rest == end && close.next.next_bootstrap_seq == Some(end),
                    None => close.next.phase is SnapshotFrontier,
                }
            }
        },
{
}

/// A chunk of data is measured where it is begun and then transformed from
/// where it stands; a scan that read its last row looks at the chunk that
/// follows exactly when a frontier of its source is not consumed yet.
pub proof fn data_is_conducted(plan: DataPlan, state: DataState, reply: Reply)
    requires
        plan.chunk.sequence < i64::MAX,
    ensures
        plan.opening() matches Ok(ProgressModel::Ask { state: first, request }) ==> {
            &&& 0 <= plan.row_ordinal < plan.chunk.rows
            &&& plan.chunk.sequence == plan.input.next_chunk_seq
            &&& plan.row_ordinal == 0 ==> first is Measuring && request == (RequestModel::Measure {
                port: plan.input.port,
                chunk: plan.chunk,
            })
            &&& plan.row_ordinal > 0 ==> first is Transforming
        },
        plan.resumes(state, reply) matches Ok(ProgressModel::Ask { state: next, request }) ==> match (
            state,
            next,
        ) {
            (DataState::Measuring, DataState::Transforming) => reply is Checked && request is Write,
            (DataState::Transforming, DataState::Following { facts, advance }) => {
                &&& plan.kind is Scan
                &&& plan.input.available_source_frontier_lsn matches Some(frontier) && frontier
                    > plan.input.consumed_frontier_lsn
                &&& facts.last_ordinal + 1 == plan.chunk.rows
                &&& advance.next_chunk_seq == plan.chunk.sequence + 1
                &&& request == (RequestModel::Chunk {
                    port: plan.input.port,
                    sequence: (plan.chunk.sequence + 1) as i64,
                })
            },
            _ => false,
        },
{
}

/// A chunk that is not done leaves a cursor behind its last row, in place of
/// the one that it began with; a chunk that is done leaves none, or the frontier
/// that lies before the next chunk, and moves the consumer.
pub proof fn data_leaves_its_cursor(plan: DataPlan, state: DataState, reply: Reply)
    requires
        plan.chunk.sequence < i64::MAX,
    ensures
        plan.resumes(state, reply) matches Ok(ProgressModel::Done(close)) ==> {
            &&& close.append matches Some(append) ==> append.lsn == plan.chunk.lsn && append.rows
                == close.facts.usage.output_rows && append.bytes == close.facts.usage.output_bytes
            &&& close.facts.continuation_rows == 0 <==> (
            close.cursor matches CursorChange::Complete { frontier, .. } && frontier is None)
            &&& match close.cursor {
                CursorChange::Scan { previous, next } => {
                    &&& plan.kind == LinearKind::Scan && state is Transforming
                    &&& close.advance is None
                    &&& next == ScanContinuation::data(
                        plan.input.stream_id,
                        plan.chunk.sequence,
                        (plan.row_ordinal + close.facts.usage.input_rows) as i64,
                    )
                    &&& previous is Some <==> plan.resumed
                    &&& previous matches Some(before) ==> before == ScanContinuation::data(
                        plan.input.stream_id,
                        plan.chunk.sequence,
                        plan.row_ordinal,
                    )
                },
                CursorChange::Transform { previous, next } => {
                    &&& plan.kind != LinearKind::Scan && state is Transforming
                    &&& close.advance is None
                    &&& next.input_stream_id == plan.input.stream_id
                    &&& next.input_chunk_seq == plan.chunk.sequence
                    &&& next.next_row_ordinal == plan.row_ordinal + close.facts.usage.input_rows
                    &&& previous is Some <==> plan.resumed
                    &&& previous matches Some(before) ==> before.input_stream_id
                        == plan.input.stream_id && before.input_chunk_seq == plan.chunk.sequence
                        && before.next_row_ordinal == plan.row_ordinal
                },
                CursorChange::Complete { clears, frontier } => {
                    &&& clears == plan.resumed
                    &&& close.advance is Some
                    &&& state is Transforming ==> frontier is None
                    &&& frontier matches Some(cursor) ==> {
                        &&& cursor.phase is SourceFrontier
                        &&& cursor.input_stream_id == plan.input.stream_id
                        &&& cursor.pending_frontier_lsn == plan.input.available_source_frontier_lsn
                        &&& reply matches Reply::Chunk(following) && (following matches Some(chunk)
                            ==> (cursor.pending_frontier_lsn matches Some(lsn) && chunk.lsn > lsn))
                    }
                },
            }
        },
{
}

} // verus!
