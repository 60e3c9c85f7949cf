//! What holds of every linear transition, whatever the input and the facts.

use vstd::prelude::*;

use crate::execution::linear::machine::{
    BootstrapFacts, ScanContinuation, ScanPhase, TransformContinuation,
};
use crate::execution::linear::statements;
use crate::execution::linear::step::{self, TransformNext};
use crate::execution::linear::storage::{ScanRow, TransformRow};
use crate::execution::stream::{ChunkMeta, InputState, OutputState};
use crate::planner::WorkBudget;
use crate::postgres;
use crate::sql;

verus! {

/// A phase survives its persisted number.
pub proof fn phase_number_is_read_back(phase: ScanPhase)
    ensures
        ScanPhase::decoded(phase.number()) == Ok::<ScanPhase, Seq<char>>(phase),
{
}

/// A row that carries the fields of a Scan continuation decodes to exactly
/// that continuation.
pub proof fn persisted_scan_is_read_back(continuation: ScanContinuation, row: ScanRow)
    requires
        row.phase == Some(continuation.phase.number()),
        row.input_stream_id == Some(continuation.input_stream_id),
        row.input_chunk_seq == continuation.input_chunk_seq,
        row.next_row_ordinal == continuation.next_row_ordinal,
        row.next_bootstrap_seq == continuation.next_bootstrap_seq,
        sql::text_model(row.pending_frontier_lsn) == (match continuation.pending_frontier_lsn {
            Some(lsn) => Some(postgres::lsn_text(lsn)),
            None => None,
        }),
    ensures
        row.continuation() == Ok::<ScanContinuation, Seq<char>>(continuation),
{
    if let Some(lsn) = continuation.pending_frontier_lsn {
        postgres::lsn_text_is_read_back(lsn);
    }
}

/// A row that carries the fields of a Filter or Project continuation decodes
/// to exactly that continuation.
pub proof fn persisted_transform_is_read_back(continuation: TransformContinuation)
    ensures
        (TransformRow {
            input_stream_id: Some(continuation.input_stream_id),
            input_chunk_seq: Some(continuation.input_chunk_seq),
            next_row_ordinal: Some(continuation.next_row_ordinal),
        }).continuation() == Ok::<TransformContinuation, Seq<char>>(continuation),
{
}

/// The fields of a sound continuation tell a bootstrap cursor, a row cursor
/// and a pending frontier apart, whatever the phase says.
pub proof fn scan_shapes_are_disjoint(left: ScanContinuation, right: ScanContinuation)
    requires
        left.sound() is Ok,
        right.sound() is Ok,
        left.input_chunk_seq == right.input_chunk_seq,
        left.next_bootstrap_seq == right.next_bootstrap_seq,
        left.pending_frontier_lsn == right.pending_frontier_lsn,
    ensures
        left.phase is Bootstrap <==> right.phase is Bootstrap,
        left.phase is Data <==> right.phase is Data,
{
}

/// A bootstrap always leaves a cursor that can be persisted: its next row, or
/// the frontier at which the snapshot was taken.
pub proof fn bootstrap_leaves_a_sound_cursor(
    continuation: ScanContinuation,
    facts: BootstrapFacts,
    remaining: Option<i64>,
    activation_lsn: u64,
)
    requires
        continuation.sound() is Ok,
        continuation.phase is Bootstrap,
        facts.last_sequence != Some(i64::MAX),
        step::bootstrap_end(continuation.next_bootstrap_seq->0, facts) is Ok,
        step::bootstrap_successor(
            continuation,
            step::bootstrap_end(continuation.next_bootstrap_seq->0, facts)->Ok_0,
            remaining,
            activation_lsn,
        ) is Ok,
    ensures
        ({
            let next = step::bootstrap_successor(
                continuation,
                step::bootstrap_end(continuation.next_bootstrap_seq->0, facts)->Ok_0,
                remaining,
                activation_lsn,
            )->Ok_0;
            &&& next.sound() is Ok
            &&& next.phase is Bootstrap ==> next.next_bootstrap_seq->0
                == continuation.next_bootstrap_seq->0 + facts.usage.input_rows
            &&& next.phase is Bootstrap || next == ScanContinuation::frontier(
                ScanPhase::SnapshotFrontier,
                continuation.input_stream_id,
                activation_lsn,
            )
        }),
{
}

/// A transformed prefix is consumed exactly once: the cursor moves by the rows
/// that the primitive processed, and leaves the chunk exactly at its end.
pub proof fn transform_consumes_its_prefix(
    input: InputState,
    chunk: ChunkMeta,
    row_ordinal: i64,
    row: statements::TransformRow,
    budget: WorkBudget,
    output: OutputState,
)
    requires
        step::data_cursor(input, chunk, row_ordinal) is Ok,
        row.facts(row_ordinal, budget, output) is Ok,
        step::transform_next(
            input,
            chunk,
            row_ordinal,
            row.facts(row_ordinal, budget, output)->Ok_0,
        ) is Ok,
    ensures
        ({
            let facts = row.facts(row_ordinal, budget, output)->Ok_0;
            &&& facts.usage.input_rows > 0
            &&& match step::transform_next(input, chunk, row_ordinal, facts)->Ok_0 {
                TransformNext::Row { next_row } => next_row == row_ordinal + facts.usage.input_rows
                    && next_row < chunk.rows,
                TransformNext::Chunk { advance } => chunk.rows == row_ordinal
                    + facts.usage.input_rows && advance.usage.input_rows == chunk.rows
                    && advance.frontier_lsn == input.consumed_frontier_lsn,
            }
        }),
{
}

/// The facts of a transform respect its budget and the targets of its output
/// stream; only a single row may be larger than a byte bound.
pub proof fn transform_respects_its_bounds(
    row: statements::TransformRow,
    row_ordinal: i64,
    budget: WorkBudget,
    output: OutputState,
)
    requires
        row.facts(row_ordinal, budget, output) is Ok,
    ensures
        ({
            let usage = row.facts(row_ordinal, budget, output)->Ok_0.usage;
            &&& usage.input_rows <= budget.max_input_rows
            &&& usage.output_rows <= budget.max_output_rows
            &&& usage.output_rows <= output.target_rows
            &&& usage.input_rows > 1 ==> usage.input_bytes <= budget.max_input_bytes
            &&& usage.output_rows > 1 ==> usage.output_bytes <= budget.max_output_bytes
            &&& usage.output_rows > 1 ==> usage.output_bytes <= output.target_bytes
        }),
{
}

/// A frontier that follows a chunk is ahead of everything consumed, and no
/// published chunk lies at or before it.
pub proof fn frontier_skips_no_chunk(input: InputState, next_chunk_lsn: Option<u64>)
    requires
        step::frontier_behind(input, next_chunk_lsn) is Some,
    ensures
        step::frontier_behind(input, next_chunk_lsn)->0 > input.consumed_frontier_lsn,
        Some(step::frontier_behind(input, next_chunk_lsn)->0)
            == input.available_source_frontier_lsn,
        next_chunk_lsn matches Some(next) ==> next > step::frontier_behind(
            input,
            next_chunk_lsn,
        )->0,
{
}

} // verus!
