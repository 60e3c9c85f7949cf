//! What holds of every Distinct transition, whatever the facts and budget.

use vstd::prelude::*;

use crate::execution::distinct::machine::{
    DistinctActionResult, DistinctContinuation, DistinctMachine, DistinctTransition,
};
use crate::execution::distinct::statements::{self, ApplyRow, DrainRow, ReconcileRow};
use crate::execution::distinct::step;
use crate::execution::distinct::storage::{self, ContinuationRow, StoredContinuation};
use crate::execution::stream::{ChunkMeta, InputState, OutputState};
use crate::planner::WorkBudget;

verus! {

/// Whatever commits can be resumed: the continuation of a transition is again
/// one that the machine accepts.
pub proof fn committed_continuation_is_accepted(
    continuation: DistinctContinuation,
    result: DistinctActionResult,
    budget: WorkBudget,
)
    requires
        DistinctMachine::applied(continuation, result, budget) is Ok,
    ensures
        DistinctMachine::applied(continuation, result, budget)->Ok_0
            matches DistinctTransition::Committed { continuation: Some(next), .. }
            ==> next.sound() is Ok,
{
}

/// Effects leave a Distinct only through a drain: an admitted prefix emits
/// nothing, and a drain emits exactly the effects it reports, within budget.
pub proof fn effects_leave_through_drain(
    continuation: DistinctContinuation,
    result: DistinctActionResult,
    budget: WorkBudget,
)
    requires
        DistinctMachine::applied(continuation, result, budget) is Ok,
    ensures
        match result {
            DistinctActionResult::Applied(page) => {
                &&& page.facts.usage.output_rows == 0
                &&& page.facts.usage.input_rows > 0
                &&& (page.occupancy.external_effects > 0) == DistinctContinuation::drains(page.next)
            },
            DistinctActionResult::Drained(page) => {
                &&& page.facts.usage.input_rows == 0
                &&& page.facts.usage.output_rows == page.occupancy.external_effects
                &&& page.facts.usage.output_rows <= budget.max_output_rows
                &&& page.facts.usage.output_bytes > budget.max_output_bytes
                    ==> page.facts.usage.output_rows == 1
            },
            DistinctActionResult::FrontierForwarded(facts) => facts.usage.output_rows == 0
                && facts.output is Frontier,
        },
{
}

/// Input is consumed in order: an admitted prefix resumes strictly behind
/// itself, and a drain resumes exactly where it stood.
pub proof fn input_is_consumed_in_order(
    continuation: DistinctContinuation,
    result: DistinctActionResult,
    budget: WorkBudget,
)
    requires
        DistinctMachine::applied(continuation, result, budget) is Ok,
    ensures
        DistinctMachine::applied(continuation, result, budget)->Ok_0
            matches DistinctTransition::Committed { continuation: Some(next), .. } ==> {
            &&& next.input.stream_id == continuation.input.stream_id
            &&& next.input.chunk_seq == continuation.input.chunk_seq
            &&& continuation.phase is Apply ==> next.input.row_ordinal
                > continuation.input.row_ordinal
            &&& continuation.phase is Drain ==> next.input.row_ordinal
                == continuation.input.row_ordinal
        },
{
}

/// A data continuation survives persistence exactly, as long as the input
/// cursor still stands at its chunk.
pub proof fn persisted_continuation_is_read_back(continuation: DistinctContinuation)
    requires
        continuation.sound() is Ok,
        !(continuation.phase is Frontier),
    ensures
        storage::loaded(
            Some(
                ContinuationRow {
                    phase: Some(storage::phase_number(continuation.phase)->Ok_0),
                    input_stream_id: Some(continuation.input.stream_id),
                    input_chunk_seq: Some(continuation.input.chunk_seq),
                    next_row_ordinal: Some(continuation.input.row_ordinal),
                },
            ),
            continuation.input.stream_id,
            continuation.input.chunk_seq,
        ) == Ok::<StoredContinuation, Seq<char>>(
            StoredContinuation { value: continuation, persisted: true },
        ),
{
}

/// A prefix that the database admitted and reconciled within the budget always
/// commits: its effects are drained first, then the chunk resumes behind it,
/// and the consumer moves on once nothing of the chunk is left.
pub proof fn admitted_prefix_commits(
    value: DistinctContinuation,
    input: InputState,
    chunk: ChunkMeta,
    applied: ApplyRow,
    reconciled: ReconcileRow,
    budget: WorkBudget,
)
    requires
        value.sound() is Ok,
        value.phase is Apply,
        value.input.stream_id == input.stream_id,
        value.input.chunk_seq == chunk.sequence,
        applied.facts() is Ok,
        reconciled.facts(budget) is Ok,
        statements::prefix_of(applied.facts()->Ok_0, reconciled.facts(budget)->Ok_0) is Ok,
        statements::prefix_of(
            applied.facts()->Ok_0,
            reconciled.facts(budget)->Ok_0,
        )->Ok_0.usage.fits(budget) is Ok,
        applied.input_rows->0 > 0,
        applied.next_row->0 == value.input.row_ordinal + applied.input_rows->0,
        applied.next_row->0 <= chunk.rows <= i64::MAX,
    ensures
        ({
            let admitted = statements::prefix_of(
                applied.facts()->Ok_0,
                reconciled.facts(budget)->Ok_0,
            )->Ok_0;
            let next = step::admit_successor(input, chunk, admitted);
            &&& next is Ok
            &&& step::committed(
                input,
                chunk,
                value,
                DistinctActionResult::Applied(step::admitted_page(admitted, next->Ok_0)),
                step::admitted_page(admitted, next->Ok_0),
                budget,
            ) matches Ok(commit) && (commit.advance is Some <==> admitted.queued_effects == 0
                && admitted.next_row == chunk.rows)
        }),
{
}

/// A page that the database drained within the budget always commits, and it
/// emits at least one effect, so that a drain ends.
pub proof fn drained_page_commits(
    value: DistinctContinuation,
    input: InputState,
    chunk: ChunkMeta,
    row: DrainRow,
    output: OutputState,
    budget: WorkBudget,
)
    requires
        value.sound() is Ok,
        value.phase is Drain,
        value.input.stream_id == input.stream_id,
        value.input.chunk_seq == chunk.sequence,
        value.input.row_ordinal <= chunk.rows <= i64::MAX,
        row.facts(output) is Ok,
        row.facts(output)->Ok_0.usage.fits(budget) is Ok,
        output.next_chunk_seq > 0,
    ensures
        ({
            let drained = row.facts(output)->Ok_0;
            let next = step::drain_successor(input, chunk, value, drained);
            &&& drained.usage.output_rows > 0
            &&& next is Ok
            &&& step::committed(
                input,
                chunk,
                value,
                DistinctActionResult::Drained(step::drained_page(drained, next->Ok_0)),
                step::drained_page(drained, next->Ok_0),
                budget,
            ) matches Ok(commit) && (commit.advance is Some <==> drained.remaining_effects == 0
                && value.input.row_ordinal == chunk.rows)
        }),
{
}

} // verus!
