//! The course of an Aggregate stage: what follows each of its steps.

use vstd::prelude::*;

use crate::execution::aggregate::apply::ApplyFacts;
use crate::execution::aggregate::emit::OutputDecision;
use crate::execution::aggregate::machine::{
    AfterDrain, AggregateAction, AggregateContinuation, AggregateMachine, AggregatePhase,
    ApplyTarget, EmitLeg, PreparedOutput,
};
use crate::execution::aggregate::pages;
use crate::execution::aggregate::rebuild::RebuildFacts;
use crate::execution::aggregate::step;
use crate::execution::contract::{InputPosition, OutputFacts, PrimitiveFacts};
use crate::execution::stream::{ChunkMeta, InputState, OutputAppend};
use crate::planner::{Operator, WorkBudget};

verus! {

/// A stage acts by its phase: rows are admitted, groups are drained, and a
/// frontier goes on.
pub proof fn phases_act_in_their_part(continuation: AggregateContinuation)
    ensures
        match (continuation.phase, AggregateMachine::next_action(continuation)) {
            (AggregatePhase::Apply, AggregateAction::Apply { input }) => input
                == continuation.input->0,
            (
                AggregatePhase::DrainRebuild { group_queue_id, aggregate_ordinal, .. },
                AggregateAction::DrainRebuild { group_queue_id: group, aggregate_ordinal: ordinal },
            ) => group == group_queue_id && ordinal == aggregate_ordinal,
            (
                AggregatePhase::DrainEmit { group_queue_id, leg: EmitLeg::Decide, .. },
                AggregateAction::PrepareOutput { group_queue_id: group },
            ) => group == group_queue_id,
            (
                AggregatePhase::DrainEmit { group_queue_id, leg: EmitLeg::InsertPending, .. },
                AggregateAction::EmitPending { group_queue_id: group },
            ) => group == group_queue_id,
            (AggregatePhase::Frontier, AggregateAction::ForwardFrontier { input }) => input
                == continuation.input->0,
            _ => false,
        },
        continuation.phase.lifecycle() is Admit <==> continuation.phase is Apply,
        continuation.phase.lifecycle() is Drain <==> continuation.phase is DrainRebuild
            || continuation.phase is DrainEmit,
        continuation.phase.lifecycle() is Frontier <==> continuation.phase is Frontier,
{
}

/// Whether a drain leads back to a place in its own stream.
pub open spec fn leads_back(input_stream_id: i64, after: AfterDrain) -> bool {
    match after {
        AfterDrain::Apply(input) => input.valid() && input.stream_id == input_stream_id,
        AfterDrain::Idle => true,
        AfterDrain::Frontier(input) => input.valid() && input.stream_id == input_stream_id
            && input.row_ordinal == 0,
    }
}

/// A continuation is accepted exactly when it stands in its own stream: at a
/// row while it admits, at the front of a chunk with a frontier, and nowhere
/// while it drains a group, from which it leads back.
pub proof fn continuations_stand_in_their_stream(
    machine: AggregateMachine,
    continuation: AggregateContinuation,
)
    ensures
        machine.accepts(continuation) is Ok <==> {
            &&& continuation.input_stream_id > 0
            &&& continuation.input matches Some(input) ==> input.stream_id
                == continuation.input_stream_id
            &&& match continuation.phase {
                AggregatePhase::Apply => continuation.input matches Some(input) && input.valid(),
                AggregatePhase::Frontier => continuation.input matches Some(input)
                    && input.valid() && input.row_ordinal == 0,
                AggregatePhase::DrainRebuild { group_queue_id, aggregate_ordinal, after } => {
                    &&& continuation.input is None
                    &&& group_queue_id > 0
                    &&& 1 <= aggregate_ordinal <= machine.aggregate_count
                    &&& leads_back(continuation.input_stream_id, after)
                },
                AggregatePhase::DrainEmit { group_queue_id, after, .. } => {
                    &&& continuation.input is None
                    &&& group_queue_id > 0
                    &&& leads_back(continuation.input_stream_id, after)
                },
            }
        },
{
}

/// A fold goes on with its aggregate until that is complete, then with the next
/// one, and behind the last one the group is decided.
pub proof fn folds_take_their_turn(
    machine: AggregateMachine,
    group_queue_id: i64,
    aggregate_ordinal: u32,
    after: AfterDrain,
    complete: bool,
)
    ensures
        ({
            let phase = AggregatePhase::DrainRebuild { group_queue_id, aggregate_ordinal, after };
            let next = machine.rebuilt_phase(phase, complete);
            &&& !complete ==> next == phase
            &&& complete && aggregate_ordinal < machine.aggregate_count ==> (
            next matches AggregatePhase::DrainRebuild {
                group_queue_id: group,
                aggregate_ordinal: ordinal,
                after: same,
            } && group == group_queue_id && ordinal == aggregate_ordinal + 1 && same == after)
            &&& complete && aggregate_ordinal >= machine.aggregate_count ==> (
            next matches AggregatePhase::DrainEmit { group_queue_id: group, leg, after: same }
                && group == group_queue_id && leg is Decide && same == after)
        }),
{
}

/// Behind a group comes the next one of the queue, from its first aggregate on;
/// behind the last one the stage goes where the drain leads.
pub proof fn groups_take_their_turn(
    input_stream_id: i64,
    completed: i64,
    next_group: Option<i64>,
    after: AfterDrain,
)
    ensures
        next_group matches Some(next) ==> match AggregateMachine::after_group(
            input_stream_id,
            completed,
            next_group,
            after,
        ) {
            Ok(Some(continuation)) => {
                &&& next > completed && next > 0
                &&& continuation.input_stream_id == input_stream_id
                &&& continuation.input is None
                &&& continuation.phase == (AggregatePhase::DrainRebuild {
                    group_queue_id: next,
                    aggregate_ordinal: 1,
                    after,
                })
            },
            Ok(None) => false,
            Err(_) => next <= completed || next <= 0,
        },
        next_group is None ==> AggregateMachine::after_group(
            input_stream_id,
            completed,
            next_group,
            after,
        ) == Ok::<Option<AggregateContinuation>, Seq<char>>(
            AggregateMachine::drained(input_stream_id, after),
        ),
        pages::page_successor(input_stream_id, after, None) == AggregateMachine::drained(
            input_stream_id,
            after,
        ),
        next_group matches Some(next) ==> (pages::page_successor(input_stream_id, after, next_group)
            matches Some(continuation) && continuation.input is None && continuation.phase == (
        AggregatePhase::DrainRebuild { group_queue_id: next, aggregate_ordinal: 1, after })),
{
}

/// A drain leads back to the row that is due, to a frontier, or to rest.
pub proof fn drain_leads_where_it_was_told(input_stream_id: i64, position: InputPosition)
    ensures
        AggregateMachine::drained(input_stream_id, AfterDrain::Idle) is None,
        AggregateMachine::drained(input_stream_id, AfterDrain::Apply(position)) matches Some(next)
            && next.phase is Apply && next.input == Some(position) && next.input_stream_id
            == input_stream_id,
        AggregateMachine::drained(input_stream_id, AfterDrain::Frontier(position)) matches Some(next)
            && next.phase is Frontier && next.input == Some(position) && next.input_stream_id
            == input_stream_id,
{
}

/// A decision is carried over as it was taken: only a replacement leaves its
/// group for later, and only an unchanged group has no effect.
pub proof fn decisions_are_carried_over(
    decision: OutputDecision,
    facts: PrimitiveFacts,
    next_group: Option<i64>,
)
    ensures
        match (decision, step::prepared(decision, facts, next_group)) {
            (
                OutputDecision::Unchanged,
                PreparedOutput::Unchanged { facts: same, next_group_queue_id },
            ) => same == facts && next_group_queue_id == next_group,
            (
                OutputDecision::Insert,
                PreparedOutput::Inserted { facts: same, next_group_queue_id },
            ) => same == facts && next_group_queue_id == next_group,
            (
                OutputDecision::Delete,
                PreparedOutput::Deleted { facts: same, next_group_queue_id },
            ) => same == facts && next_group_queue_id == next_group,
            (
                OutputDecision::Replace,
                PreparedOutput::ReplacementRetracted { facts: same },
            ) => same == facts,
            _ => false,
        },
        AggregateMachine::prepared_sound(step::prepared(decision, facts, next_group)) is Ok <==> {
            if decision is Unchanged {
                &&& facts.output is Nothing
                &&& facts.usage.input_rows == 0 && facts.usage.input_bytes == 0
                &&& facts.usage.output_rows == 0 && facts.usage.output_bytes == 0
            } else {
                &&& facts.output is Data
                &&& facts.usage.input_rows == 0 && facts.usage.input_bytes == 0
                &&& facts.usage.output_rows == 1 && facts.usage.output_bytes > 0
            }
        },
{
}

/// A committed decision goes on as it must: a replacement with the row that is
/// pending, and every other decision behind its group.
pub proof fn committed_decision_goes_on(
    machine: AggregateMachine,
    value: AggregateContinuation,
    decision: OutputDecision,
    append: Option<OutputAppend>,
    discarded: u64,
    next_group: Option<i64>,
    finished: u64,
    budget: WorkBudget,
)
    ensures
        step::decision_commit(
            machine,
            value,
            decision,
            append,
            discarded,
            next_group,
            finished,
            budget,
        ) matches Ok(commit) ==> {
            &&& value.phase matches AggregatePhase::DrainEmit { group_queue_id, leg, after }
                && leg is Decide && {
                &&& decision is Replace ==> (commit.next matches Some(next) && next.phase == (
                AggregatePhase::DrainEmit { group_queue_id, leg: EmitLeg::InsertPending, after })
                    && next.input is None && next.input_stream_id == value.input_stream_id)
                &&& !(decision is Replace) ==> Ok::<Option<AggregateContinuation>, Seq<char>>(
                    commit.next,
                ) == AggregateMachine::after_group(
                    value.input_stream_id,
                    group_queue_id,
                    next_group,
                    after,
                )
            }
            &&& commit.advance is None
            &&& append is None <==> decision is Unchanged
            &&& commit.facts.state_rows == 1 + discarded + finished
            &&& append matches Some(append) ==> append.rows == 1 && commit.facts.usage.output_rows == 1
                && commit.facts.usage.output_bytes == append.bytes
        },
{
}

/// A stage goes on behind a page where it must: at the next row, or with a
/// drain that leads there once enough was admitted; behind the last row with
/// the frontier that follows, for which it drains first, or it rests.
pub proof fn admission_goes_on_behind_its_page(
    stream_id: i64,
    chunk: ChunkMeta,
    next_row: i64,
    first_group: i64,
    drain_reached: bool,
    following: Option<ChunkMeta>,
)
    ensures
        match step::page_target(
            stream_id,
            chunk,
            next_row,
            first_group,
            drain_reached,
            following,
        ) {
            Ok(ApplyTarget::Continue(next)) => {
                &&& !drain_reached && next_row < chunk.rows
                &&& next.stream_id == stream_id && next.chunk_seq == chunk.sequence
                    && next.row_ordinal == next_row
            },
            Ok(ApplyTarget::Drain { first_group_queue_id, after }) => {
                &&& first_group_queue_id == first_group
                &&& match after {
                    AfterDrain::Apply(next) => drain_reached && next_row < chunk.rows
                        && next.stream_id == stream_id && next.chunk_seq == chunk.sequence
                        && next.row_ordinal == next_row,
                    AfterDrain::Frontier(next) => next_row == chunk.rows && (
                    following matches Some(frontier) && frontier.kind is Frontier && next.stream_id
                        == frontier.stream_id && next.chunk_seq == frontier.sequence
                        && next.row_ordinal == 0),
                    AfterDrain::Idle => drain_reached && next_row == chunk.rows && !(
                    following matches Some(frontier) && frontier.kind is Frontier),
                }
            },
            Ok(ApplyTarget::Idle) => !drain_reached && next_row == chunk.rows && !(
            following matches Some(frontier) && frontier.kind is Frontier),
            Err(_) => true,
        },
        next_row > chunk.rows ==> step::page_target(
            stream_id,
            chunk,
            next_row,
            first_group,
            drain_reached,
            following,
        ) is Err,
{
}

/// The consumer moves exactly with the last row of a chunk.
pub proof fn consumer_moves_with_the_last_row(
    chunk: ChunkMeta,
    next_row: i64,
    consumed_frontier_lsn: u64,
)
    requires
        chunk.sequence < i64::MAX,
    ensures
        step::apply_advance(chunk, next_row, consumed_frontier_lsn) is Some <==> next_row
            == chunk.rows,
        step::apply_advance(chunk, next_row, consumed_frontier_lsn) matches Some(advance)
            ==> advance.next_chunk_seq == chunk.sequence + 1 && advance.frontier_lsn
            == consumed_frontier_lsn && advance.usage.input_rows == chunk.rows
            && advance.usage.input_bytes == chunk.bytes,
{
}

/// Pages report what they did: an admitted one its input, a folded one the rows
/// that it folded, and neither writes anything.
pub proof fn aggregate_pages_report_what_they_did(
    applied: ApplyFacts,
    target: ApplyTarget,
    initialized: u64,
    rebuilt: RebuildFacts,
)
    requires
        initialized + rebuilt.state_rows <= u64::MAX,
    ensures
        step::applied_page(applied, target).facts.usage == applied.usage,
        step::applied_page(applied, target).facts.state_rows == applied.state_rows,
        step::applied_page(applied, target).facts.output is Nothing,
        step::applied_page(applied, target).facts.continuation_rows == 0 <==> target is Idle,
        step::applied_page(applied, target).target == target,
        step::rebuilt_page(initialized, rebuilt).page == rebuilt.page,
        step::rebuilt_page(initialized, rebuilt).facts.usage == rebuilt.page.usage,
        step::rebuilt_page(initialized, rebuilt).facts.state_rows == initialized
            + rebuilt.state_rows,
        step::rebuilt_page(initialized, rebuilt).facts.output is Nothing,
        step::rebuilt_page(initialized, rebuilt).facts.continuation_rows == 1,
{
}

/// An emission reports the row that it appended, and a continuation exactly
/// where the stage goes on.
pub proof fn emissions_report_what_they_did(
    append: Option<OutputAppend>,
    state_rows: u64,
    continues: bool,
)
    ensures
        ({
            let facts = step::emission_facts(append, state_rows, continues);
            &&& facts.state_rows == state_rows
            &&& facts.continuation_rows == 1 <==> continues
            &&& facts.continuation_rows == 0 <==> !continues
            &&& facts.usage.input_rows == 0 && facts.usage.input_bytes == 0
            &&& append is None ==> facts.output is Nothing && facts.usage.output_rows == 0
                && facts.usage.output_bytes == 0
            &&& append matches Some(append) ==> facts.output == (OutputFacts::Data {
                chunk_seq: append.target.chunk(),
            }) && facts.usage.output_rows == append.rows && facts.usage.output_bytes
                == append.bytes
        }),
{
}

/// A stage rests behind a group exactly when no group is left and the drain
/// leads nowhere.
pub proof fn stage_rests_behind_the_last_group(
    value: AggregateContinuation,
    next_group: Option<i64>,
)
    ensures
        !step::group_continues(value, next_group) <==> next_group is None && (
        value.phase matches AggregatePhase::DrainEmit { after, .. } && after is Idle),
{
}

/// A stage opens a chunk by what it holds: it admits data from the first row,
/// and drains the queue before it lets a frontier go on.
pub proof fn chunks_are_opened_by_what_they_hold(
    chunk: Option<ChunkMeta>,
    dirty_rows: usize,
    first_dirty: Option<i64>,
)
    ensures
        step::started(chunk, dirty_rows, first_dirty) matches Ok(opened) ==> chunk matches Some(
            chunk,
        ) && {
            &&& !opened.persisted
            &&& opened.value.input_stream_id == chunk.stream_id
            &&& chunk.kind is Data ==> opened.value.phase is Apply && opened.value.input == Some(
                InputPosition { stream_id: chunk.stream_id, chunk_seq: chunk.sequence, row_ordinal: 0 },
            )
            &&& chunk.kind is Frontier ==> dirty_rows == 1
            &&& chunk.kind is Frontier && first_dirty is None ==> opened.value.phase is Frontier
                && opened.value.input == Some(
                InputPosition { stream_id: chunk.stream_id, chunk_seq: chunk.sequence, row_ordinal: 0 },
            )
            &&& chunk.kind is Frontier ==> (first_dirty matches Some(group) ==> opened.value.phase
                == (AggregatePhase::DrainRebuild {
                group_queue_id: group,
                aggregate_ordinal: 1,
                after: AfterDrain::Frontier(
                    InputPosition {
                        stream_id: chunk.stream_id,
                        chunk_seq: chunk.sequence,
                        row_ordinal: 0,
                    },
                ),
            }))
        },
        chunk is None ==> step::started(chunk, dirty_rows, first_dirty) is Err,
{
}

/// The global group is due exactly where there are no keys and it is not there
/// yet; a frontier goes on exactly from an empty queue.
pub proof fn global_group_is_due_once(groups: usize, seen: Option<bool>)
    ensures
        groups > 0 ==> step::global_group_due(groups, seen) == Ok::<bool, Seq<char>>(false),
        groups == 0 && seen == Some(false) ==> step::global_group_due(groups, seen) == Ok::<
            bool,
            Seq<char>,
        >(true),
        groups == 0 && seen == Some(true) ==> step::global_group_due(groups, seen) == Ok::<
            bool,
            Seq<char>,
        >(false),
        groups == 0 && seen is None ==> step::global_group_due(groups, seen) is Err,
        step::drained(seen) is Ok <==> seen == Some(true),
{
}

/// A stage reads one operator and has an aggregate.
pub proof fn stage_reads_one_operator(
    operator: Operator,
    aggregates: usize,
    planned_inputs: usize,
    inputs: Seq<InputState>,
)
    ensures
        step::stage_sound(operator, aggregates, planned_inputs, inputs) is Ok <==> {
            &&& operator is Aggregate
            &&& aggregates > 0
            &&& planned_inputs == 1
            &&& inputs.len() == 1 && inputs[0].producer is Operator
        },
{
}

/// A continuation goes on exactly in its own stream and at the chunk of its
/// consumer.
pub proof fn continuation_stands_at_its_consumer(
    machine: AggregateMachine,
    value: AggregateContinuation,
    input: InputState,
)
    ensures
        step::pinned(machine, value, input) is Ok <==> {
            &&& value.input_stream_id == input.stream_id
            &&& value.input matches Some(position) ==> position.stream_id == input.stream_id
                && position.chunk_seq == input.next_chunk_seq
            &&& machine.accepts(value) is Ok
        },
{
}

/// Rows are read from a chunk of data that has them, and a frontier from the
/// front of its own chunk.
pub proof fn chunks_hold_what_is_read(input: Option<InputPosition>, chunk: Option<ChunkMeta>)
    ensures
        match step::apply_input(input, chunk) {
            Ok((position, data)) => input == Some(position) && chunk == Some(data)
                && data.kind is Data && data.stream_id == position.stream_id && 0
                <= position.row_ordinal < data.rows,
            Err(_) => !(input matches Some(position) && (chunk matches Some(data)
                && data.kind is Data && data.stream_id == position.stream_id && 0
                <= position.row_ordinal < data.rows)),
        },
        match step::frontier_input(input, chunk) {
            Ok(frontier) => input matches Some(position) && chunk == Some(frontier)
                && frontier.kind is Frontier && frontier.stream_id == position.stream_id
                && position.row_ordinal == 0,
            Err(_) => !(input matches Some(position) && (chunk matches Some(frontier)
                && frontier.kind is Frontier && frontier.stream_id == position.stream_id
                && position.row_ordinal == 0)),
        },
{
}

} // verus!
