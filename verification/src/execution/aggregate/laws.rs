//! What holds of every Aggregate transition, whatever the facts and budget.

use vstd::prelude::*;

use crate::execution::aggregate::machine::{
    AfterDrain, AggregateAction, AggregateActionResult, AggregateContinuation, AggregateMachine,
    AggregatePhase, AggregateTransition, ApplyTarget, EmitLeg, FrontierResult, PendingOutput,
    PreparedOutput,
};
use crate::execution::aggregate::apply::ApplyRow;
use crate::execution::aggregate::emit::{EmissionRow, EmitSource, OutputDecision};
use crate::execution::aggregate::pages;
use crate::execution::aggregate::rebuild::RebuildRow;
use crate::execution::aggregate::step;
use crate::execution::aggregate::storage::AggregateFields;
use crate::execution::contract::{InputPosition, PrimitiveFacts};
use crate::execution::stream::{ChunkMeta, InputAdvance, InputState, OutputAppend, OutputState};
use crate::planner::WorkBudget;

verus! {

/// Whatever commits can be resumed: the continuation of a transition is again
/// one that the machine accepts.
pub proof fn committed_continuation_is_accepted(
    machine: AggregateMachine,
    continuation: AggregateContinuation,
    result: AggregateActionResult,
    budget: WorkBudget,
)
    requires
        machine.aggregate_count > 0,
        machine.applied(continuation, result, budget) is Ok,
    ensures
        machine.applied(continuation, result, budget)->Ok_0 matches AggregateTransition::Committed {
            continuation: Some(next),
            ..
        } ==> machine.accepts(next) is Ok,
{
}

/// A continuation that the machine accepts survives persistence exactly.
pub proof fn persisted_continuation_is_read_back(
    machine: AggregateMachine,
    continuation: AggregateContinuation,
)
    requires
        machine.accepts(continuation) is Ok,
        AggregateFields::of(continuation) is Ok,
    ensures
        AggregateFields::of(continuation)->Ok_0.continuation() == Ok::<
            AggregateContinuation,
            Seq<char>,
        >(continuation),
{
}

/// Every accepted continuation of a plan with at most `i32::MAX` aggregates
/// can be persisted.
pub proof fn accepted_continuation_can_be_persisted(
    machine: AggregateMachine,
    continuation: AggregateContinuation,
)
    requires
        machine.accepts(continuation) is Ok,
        machine.aggregate_count <= i32::MAX,
    ensures
        AggregateFields::of(continuation) is Ok,
{
}

/// The dirty-group queue only moves forward: a transition out of an emission
/// never returns to the group it completed, nor to an earlier one.
pub proof fn dirty_group_queue_advances(
    machine: AggregateMachine,
    continuation: AggregateContinuation,
    result: AggregateActionResult,
    budget: WorkBudget,
)
    requires
        machine.applied(continuation, result, budget) is Ok,
        continuation.phase is DrainEmit,
    ensures
        machine.applied(continuation, result, budget)->Ok_0 matches AggregateTransition::Committed {
            continuation: Some(next),
            ..
        } ==> (next.phase matches AggregatePhase::DrainRebuild { group_queue_id, .. }
            ==> group_queue_id > continuation.phase->DrainEmit_group_queue_id),
{
}

/// A replacement takes two one-row transactions: after the retraction commits,
/// only the persisted pending row can be emitted, and it completes the group.
pub proof fn replacement_takes_two_one_row_legs(
    machine: AggregateMachine,
    continuation: AggregateContinuation,
    facts: PrimitiveFacts,
    budget: WorkBudget,
)
    requires
        machine.applied(
            continuation,
            AggregateActionResult::OutputPrepared(
                PreparedOutput::ReplacementRetracted { facts },
            ),
            budget,
        ) is Ok,
    ensures
        facts.usage.output_rows == 1,
        ({
            let group = continuation.phase->DrainEmit_group_queue_id;
            let second = AggregateContinuation {
                input_stream_id: continuation.input_stream_id,
                input: None,
                phase: AggregatePhase::DrainEmit {
                    group_queue_id: group,
                    leg: EmitLeg::InsertPending,
                    after: continuation.phase->DrainEmit_after,
                },
            };
            &&& machine.applied(
                continuation,
                AggregateActionResult::OutputPrepared(
                    PreparedOutput::ReplacementRetracted { facts },
                ),
                budget,
            ) == Ok::<AggregateTransition, Seq<char>>(
                AggregateTransition::Committed { continuation: Some(second), facts },
            )
            &&& AggregateMachine::next_action(second) == (AggregateAction::EmitPending {
                group_queue_id: group,
            })
            &&& forall|result: AggregateActionResult|
                machine.applied(second, result, budget) is Ok ==> #[trigger] emits_one_pending_row(
                    result,
                )
        }),
{
    let second = AggregateContinuation {
        input_stream_id: continuation.input_stream_id,
        input: None,
        phase: AggregatePhase::DrainEmit {
            group_queue_id: continuation.phase->DrainEmit_group_queue_id,
            leg: EmitLeg::InsertPending,
            after: continuation.phase->DrainEmit_after,
        },
    };
    assert forall|result: AggregateActionResult|
        machine.applied(second, result, budget) is Ok implies #[trigger] emits_one_pending_row(
        result,
    ) by {}
}

/// The result of emitting exactly one pending row.
pub open spec fn emits_one_pending_row(result: AggregateActionResult) -> bool {
    result matches AggregateActionResult::PendingEmitted(emitted)
        && emitted.facts.usage.output_rows == 1
}

/// A frontier is forwarded only by a commit that leaves no continuation, and a
/// global group queued before it keeps the frontier as what follows the drain.
pub proof fn frontier_finishes_the_input(
    machine: AggregateMachine,
    continuation: AggregateContinuation,
    result: FrontierResult,
    budget: WorkBudget,
)
    requires
        machine.applied(continuation, AggregateActionResult::Frontier(result), budget) is Ok,
    ensures
        ({
            let transition = machine.applied(
                continuation,
                AggregateActionResult::Frontier(result),
                budget,
            )->Ok_0;
            match result {
                FrontierResult::Forwarded { facts } => transition
                    == (AggregateTransition::Committed { continuation: None, facts })
                    && facts.output is Frontier,
                FrontierResult::GlobalGroupQueued { facts, group_queue_id } => {
                    transition matches AggregateTransition::Committed { continuation: Some(next), .. }
                        && next.phase == (AggregatePhase::DrainRebuild {
                        group_queue_id,
                        aggregate_ordinal: 1,
                        after: AfterDrain::Frontier(continuation.input->0),
                    })
                },
            }
        }),
{
}

/// An admitted page always consumes input, and what it resumes lies strictly
/// behind it in the same chunk.
pub proof fn applied_page_advances(
    machine: AggregateMachine,
    continuation: AggregateContinuation,
    result: AggregateActionResult,
    budget: WorkBudget,
)
    requires
        machine.applied(continuation, result, budget) is Ok,
        continuation.phase is Apply,
    ensures
        machine.applied(continuation, result, budget)->Ok_0 matches AggregateTransition::Committed {
            continuation: next,
            facts,
        } && facts.usage.input_rows > 0 && (next matches Some(resumed) ==> (
        resumed.phase is Apply ==> resumed.input->0.chunk_seq == continuation.input->0.chunk_seq
            && resumed.input->0.row_ordinal > continuation.input->0.row_ordinal)),
{
}

/// The consumer moves past a chunk exactly when nothing of it is left to
/// admit, and then by one chunk.
pub proof fn chunk_is_consumed_exactly_once(
    stream_id: i64,
    chunk: ChunkMeta,
    next_row: i64,
    first_group_queue_id: i64,
    drain_reached: bool,
    following: Option<ChunkMeta>,
    consumed_frontier_lsn: u64,
)
    requires
        step::page_target(
            stream_id,
            chunk,
            next_row,
            first_group_queue_id,
            drain_reached,
            following,
        ) is Ok,
    ensures
        ({
            let target = step::page_target(
                stream_id,
                chunk,
                next_row,
                first_group_queue_id,
                drain_reached,
                following,
            )->Ok_0;
            let resumes = target is Continue || (target matches ApplyTarget::Drain { after, .. }
                && after is Apply);
            match step::apply_advance(chunk, next_row, consumed_frontier_lsn) {
                Some(advance) => !resumes && next_row == chunk.rows && advance
                    == InputAdvance::past_data(chunk, consumed_frontier_lsn),
                None => resumes && next_row < chunk.rows,
            }
        }),
{
}

/// A frontier that follows an admitted chunk is reached only through a drain.
pub proof fn frontier_comes_behind_a_drain(
    stream_id: i64,
    chunk: ChunkMeta,
    first_group_queue_id: i64,
    drain_reached: bool,
    frontier: ChunkMeta,
)
    requires
        chunk.rows <= i64::MAX,
        frontier.kind is Frontier,
        InputPosition::made(frontier.stream_id, frontier.sequence, 0) is Ok,
    ensures
        step::page_target(
            stream_id,
            chunk,
            chunk.rows as i64,
            first_group_queue_id,
            drain_reached,
            Some(frontier),
        ) == Ok::<ApplyTarget, Seq<char>>(
            ApplyTarget::Drain {
                first_group_queue_id,
                after: AfterDrain::Frontier(
                    InputPosition::made(frontier.stream_id, frontier.sequence, 0)->Ok_0,
                ),
            },
        ),
{
}

/// A prefix that the database admitted within the budget always commits: no
/// later check can refuse it.
pub proof fn admitted_prefix_commits(
    machine: AggregateMachine,
    value: AggregateContinuation,
    input: InputState,
    chunk: ChunkMeta,
    row: ApplyRow,
    ensured_groups: u64,
    first_group_queue_id: i64,
    drain_reached: bool,
    following: Option<ChunkMeta>,
    budget: WorkBudget,
)
    requires
        machine.aggregate_count > 0,
        machine.accepts(value) is Ok,
        value.phase is Apply,
        step::pinned(machine, value, input) is Ok,
        step::apply_input(value.input, Some(chunk)) is Ok,
        chunk.sequence == value.input->0.chunk_seq,
        row.facts(value.input->0.row_ordinal, ensured_groups) is Ok,
        row.facts(value.input->0.row_ordinal, ensured_groups)->Ok_0.usage.fits(budget) is Ok,
        row.next_row->0 <= chunk.rows <= i64::MAX,
        first_group_queue_id > 0,
        following matches Some(next) ==> next.stream_id == chunk.stream_id && next.sequence > 0,
    ensures
        ({
            let applied = row.facts(value.input->0.row_ordinal, ensured_groups)->Ok_0;
            let target = step::page_target(
                input.stream_id,
                chunk,
                applied.next_row,
                first_group_queue_id,
                drain_reached,
                following,
            );
            &&& target is Ok
            &&& step::committed(
                machine,
                value,
                AggregateActionResult::Applied(step::applied_page(applied, target->Ok_0)),
                step::apply_advance(chunk, applied.next_row, input.consumed_frontier_lsn),
                budget,
            ) is Ok
        }),
{
}

/// A rebuild page that the database folded within the budget always commits,
/// and the fold moves on: the same aggregate while rows are left, then the
/// next one, then the output.
pub proof fn rebuilt_page_commits(
    machine: AggregateMachine,
    value: AggregateContinuation,
    initialized: u64,
    row: RebuildRow,
    budget: WorkBudget,
)
    requires
        machine.accepts(value) is Ok,
        value.phase is DrainRebuild,
        row.facts() is Ok,
        row.facts()->Ok_0.page.usage.fits(budget) is Ok,
        row.last_row_id matches Some(row_id) ==> row_id > 0,
        row.complete->0 || row.rows->0 > 0,
        initialized + row.mutations->0 <= u64::MAX,
    ensures
        step::committed(
            machine,
            value,
            AggregateActionResult::Rebuilt(step::rebuilt_page(initialized, row.facts()->Ok_0)),
            None,
            budget,
        ) matches Ok(commit) && commit.next == Some(
            AggregateContinuation {
                input_stream_id: value.input_stream_id,
                input: None,
                phase: machine.rebuilt_phase(value.phase, row.complete->0),
            },
        ),
{
}

/// An emission whose one row the database appended always commits, under any
/// budget that admits one row.
pub proof fn emitted_row_commits(
    machine: AggregateMachine,
    value: AggregateContinuation,
    decision: OutputDecision,
    row: EmissionRow,
    output: OutputState,
    discarded: u64,
    next_group: Option<i64>,
    finished: u64,
    budget: WorkBudget,
)
    requires
        machine.accepts(value) is Ok,
        value.phase matches AggregatePhase::DrainEmit { leg, .. } && leg is Decide,
        row.append(output) is Ok,
        output.next_chunk_seq > 0,
        budget.max_output_rows > 0,
        1 + discarded + finished <= u64::MAX,
        next_group matches Some(next) ==> next > value.phase->DrainEmit_group_queue_id,
    ensures
        ({
            let append: Option<OutputAppend> = if EmitSource::of(decision) is Some {
                Some(row.append(output)->Ok_0)
            } else {
                None
            };
            let facts = step::emission_facts(
                append,
                (1 + discarded + finished) as u64,
                decision is Replace || step::group_continues(value, next_group),
            );
            step::committed(
                machine,
                value,
                AggregateActionResult::OutputPrepared(
                    step::prepared(decision, facts, next_group),
                ),
                None,
                budget,
            ) matches Ok(commit) && commit.facts == facts && (commit.next is Some
                <==> facts.continuation_rows == 1)
        }),
{
}

/// The pending row of a replacement commits in the same way.
pub proof fn pending_row_commits(
    machine: AggregateMachine,
    value: AggregateContinuation,
    row: EmissionRow,
    output: OutputState,
    next_group: Option<i64>,
    finished: u64,
    budget: WorkBudget,
)
    requires
        machine.accepts(value) is Ok,
        value.phase matches AggregatePhase::DrainEmit { leg, .. } && leg is InsertPending,
        row.append(output) is Ok,
        output.next_chunk_seq > 0,
        budget.max_output_rows > 0,
        1 + finished <= u64::MAX,
        next_group matches Some(next) ==> next > value.phase->DrainEmit_group_queue_id,
    ensures
        ({
            let facts = step::emission_facts(
                Some(row.append(output)->Ok_0),
                (1 + finished) as u64,
                step::group_continues(value, next_group),
            );
            step::committed(
                machine,
                value,
                AggregateActionResult::PendingEmitted(
                    PendingOutput { facts, next_group_queue_id: next_group },
                ),
                None,
                budget,
            ) matches Ok(commit) && commit.facts == facts && (commit.next is Some
                <==> facts.continuation_rows == 1)
        }),
{
}

/// A page of groups hands the drain on to a continuation that the machine
/// accepts.
pub proof fn page_successor_is_accepted(
    machine: AggregateMachine,
    value: AggregateContinuation,
    next_queue_id: Option<i64>,
)
    requires
        machine.aggregate_count > 0,
        machine.accepts(value) is Ok,
        value.phase is DrainRebuild,
        next_queue_id matches Some(queue_id) ==> queue_id > 0,
    ensures
        pages::page_successor(
            value.input_stream_id,
            value.phase->DrainRebuild_after,
            next_queue_id,
        ) matches Some(next) ==> machine.accepts(next) is Ok,
{
}

/// A new cursor is one that the machine accepts, at the chunk it was given.
pub proof fn started_cursor_is_accepted(
    machine: AggregateMachine,
    chunk: ChunkMeta,
    first_dirty: Option<i64>,
)
    requires
        machine.aggregate_count > 0,
        chunk.stream_id > 0,
        chunk.sequence > 0,
        first_dirty matches Some(queue_id) ==> queue_id > 0,
    ensures
        step::started(Some(chunk), 1, first_dirty) matches Ok(stored) && machine.accepts(
            stored.value,
        ) is Ok && !stored.persisted,
{
}

} // verus!
