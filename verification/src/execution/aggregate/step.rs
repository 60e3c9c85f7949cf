//! What an Aggregate stage does next, from its cursor, its input and the row
//! facts that PostgreSQL returned.

use vstd::prelude::*;

use crate::database::{self, require_summary, required};
use crate::execution::aggregate::apply::ApplyFacts;
use crate::execution::aggregate::emit::OutputDecision;
use crate::execution::aggregate::machine::{
    AfterDrain, AggregateActionResult, AggregateContinuation, AggregateMachine, AggregatePhase,
    AggregateTransition, AppliedPage, ApplyTarget, FrontierResult, PendingOutput, PreparedOutput,
    RebuiltPage,
};
use crate::execution::aggregate::rebuild::RebuildFacts;
use crate::execution::aggregate::storage::{
    self, aggregate_field_arguments, continuation_columns, encode_execute_fields, AggregateFields,
    StoredAggregate,
};
use crate::execution::continuation::{self, replace_cas, Replacement};
use crate::execution::contract::{InputPosition, OutputFacts, PrimitiveFacts};
use crate::execution::stream::{
    advance_past_data, advance_past_frontier, ChunkKind, ChunkMeta, InputAdvance, InputState,
    OutputAppend, ProducerKind,
};
use crate::planner::{Operator, WorkBudget, WorkUsage};
use crate::postgres::{self, format_lsn};
use crate::sql::{SqlModel, SqlValue, Statement, StatementModel};
use crate::text::{self, fail, render, Holes};

verus! {

/// Whether a stage is an Aggregate with one operator input and an aggregate.
pub open spec fn stage_sound(
    operator: Operator,
    aggregates: usize,
    planned_inputs: usize,
    inputs: Seq<InputState>,
) -> Result<(), Seq<char>> {
    text::both(
        text::holds(operator is Aggregate, "Aggregate executor received another operator"@),
        text::holds(
            aggregates > 0 && inputs.len() == 1 && inputs[0].producer is Operator && planned_inputs
                == 1,
            "Aggregate must have one operator input and one aggregate"@,
        ),
    )
}

/// Checks the operator and inputs of a stage before it steps.
pub fn validate_stage(
    operator: Operator,
    aggregates: usize,
    planned_inputs: usize,
    inputs: &Vec<InputState>,
) -> (outcome: Result<(), String>)
    ensures
        text::agrees(outcome, stage_sound(operator, aggregates, planned_inputs, inputs@)),
{
    if operator != Operator::Aggregate {
        return fail("Aggregate executor received another operator");
    }
    if aggregates == 0 || inputs.len() != 1 || inputs[0].producer != ProducerKind::Operator
        || planned_inputs != 1 {
        return fail("Aggregate must have one operator input and one aggregate");
    }
    Ok(())
}

/// The cursor of a stage that has none yet: it admits a data chunk, drains
/// what is dirty before a frontier, or forwards the frontier.
pub open spec fn started(
    chunk: Option<ChunkMeta>,
    dirty_rows: usize,
    first_dirty: Option<i64>,
) -> Result<StoredAggregate, Seq<char>> {
    match chunk {
        None => Err("runnable Aggregate has no input chunk"@),
        Some(chunk) => match InputPosition::made(chunk.stream_id, chunk.sequence, 0) {
            Err(message) => Err(message),
            Ok(input) => if chunk.kind is Data {
                Ok(
                    StoredAggregate {
                        value: AggregateContinuation {
                            input_stream_id: chunk.stream_id,
                            input: Some(input),
                            phase: AggregatePhase::Apply,
                        },
                        persisted: false,
                    },
                )
            } else {
                text::guarded(
                    text::holds(dirty_rows == 1, "Aggregate dirty queue returned no summary"@),
                    StoredAggregate {
                        value: match first_dirty {
                            Some(group_queue_id) => AggregateContinuation {
                                input_stream_id: chunk.stream_id,
                                input: None,
                                phase: AggregatePhase::DrainRebuild {
                                    group_queue_id,
                                    aggregate_ordinal: 1,
                                    after: AfterDrain::Frontier(input),
                                },
                            },
                            None => AggregateContinuation {
                                input_stream_id: chunk.stream_id,
                                input: Some(input),
                                phase: AggregatePhase::Frontier,
                            },
                        },
                        persisted: false,
                    },
                )
            },
        },
    }
}

/// Starts a cursor at the next chunk. `dirty_rows` and `first_dirty` are the
/// summary of the dirty queue, which only a frontier asks for.
pub fn start_execute_continuation(
    chunk: &Option<ChunkMeta>,
    dirty_rows: usize,
    first_dirty: Option<i64>,
) -> (outcome: Result<StoredAggregate, String>)
    ensures
        text::agrees(outcome, started(*chunk, dirty_rows, first_dirty)),
{
    match chunk {
        None => fail("runnable Aggregate has no input chunk"),
        Some(chunk) => {
            let input = InputPosition::new(chunk.stream_id, chunk.sequence, 0)?;
            let value = match chunk.kind {
                ChunkKind::Data => AggregateContinuation {
                    input_stream_id: chunk.stream_id,
                    input: Some(input),
                    phase: AggregatePhase::Apply,
                },
                ChunkKind::Frontier => {
                    require_summary(dirty_rows, "Aggregate dirty queue returned no summary")?;
                    match first_dirty {
                        Some(group_queue_id) => AggregateContinuation {
                            input_stream_id: chunk.stream_id,
                            input: None,
                            phase: AggregatePhase::DrainRebuild {
                                group_queue_id,
                                aggregate_ordinal: 1,
                                after: AfterDrain::Frontier(input),
                            },
                        },
                        None => AggregateContinuation {
                            input_stream_id: chunk.stream_id,
                            input: Some(input),
                            phase: AggregatePhase::Frontier,
                        },
                    }
                },
            };
            Ok(StoredAggregate { value, persisted: false })
        },
    }
}

/// Whether a cursor belongs to the input and stands where its consumer does.
pub open spec fn pinned(
    machine: AggregateMachine,
    value: AggregateContinuation,
    input: InputState,
) -> Result<(), Seq<char>> {
    text::three(
        text::holds(
            value.input_stream_id == input.stream_id,
            "Aggregate continuation changed its input stream"@,
        ),
        text::holds(
            value.input matches Some(position) ==> position.stream_id == input.stream_id
                && position.chunk_seq == input.next_chunk_seq,
            "Aggregate continuation is not at its input cursor"@,
        ),
        machine.accepts(value),
    )
}

pub fn validate_cursor(
    machine: AggregateMachine,
    value: AggregateContinuation,
    input: &InputState,
) -> (outcome: Result<(), String>)
    ensures
        text::agrees(outcome, pinned(machine, value, *input)),
{
    if value.input_stream_id != input.stream_id {
        return fail("Aggregate continuation changed its input stream");
    }
    if let Some(position) = value.input {
        if position.stream_id != input.stream_id || position.chunk_seq != input.next_chunk_seq {
            return fail("Aggregate continuation is not at its input cursor");
        }
    }
    machine.validate_continuation(value)
}

/// Whether a drain may take a page of groups at once: it stands before the
/// first aggregate of a group.
pub fn tries_page(value: AggregateContinuation) -> (tries: bool)
    ensures
        tries == (value.phase matches AggregatePhase::DrainRebuild { aggregate_ordinal, .. }
            && aggregate_ordinal == 1),
{
    match value.phase {
        AggregatePhase::DrainRebuild { aggregate_ordinal, .. } => aggregate_ordinal == 1,
        _ => false,
    }
}

/// What a stage commits.
#[derive(Clone, Copy, Debug, PartialEq, Eq, Structural)]
pub struct AggregateCommit {
    pub facts: PrimitiveFacts,
    pub next: Option<AggregateContinuation>,
    /// The move of the consumer past a completed chunk.
    pub advance: Option<InputAdvance>,
}

/// What the machine commits for a result, with the move of the consumer.
pub open spec fn committed(
    machine: AggregateMachine,
    value: AggregateContinuation,
    result: AggregateActionResult,
    advance: Option<InputAdvance>,
    budget: WorkBudget,
) -> Result<AggregateCommit, Seq<char>> {
    match machine.applied(value, result, budget) {
        Err(message) => Err(message),
        Ok(AggregateTransition::Committed { continuation, facts }) => Ok(
            AggregateCommit { facts, next: continuation, advance },
        ),
    }
}

fn commit(
    machine: AggregateMachine,
    value: AggregateContinuation,
    result: AggregateActionResult,
    advance: Option<InputAdvance>,
    budget: WorkBudget,
) -> (outcome: Result<AggregateCommit, String>)
    ensures
        text::agrees(outcome, committed(machine, value, result, advance, budget)),
{
    let AggregateTransition::Committed { continuation, facts } = machine.apply(
        value,
        result,
        budget,
    )?;
    Ok(AggregateCommit { facts, next: continuation, advance })
}

/// The chunk that an Apply cursor stands in.
pub open spec fn apply_input(input: Option<InputPosition>, chunk: Option<ChunkMeta>) -> Result<
    (InputPosition, ChunkMeta),
    Seq<char>,
> {
    match input {
        None => Err("Aggregate Apply omitted its input cursor"@),
        Some(position) => match chunk {
            None => Err("Aggregate Apply references a missing input chunk"@),
            Some(chunk) => text::guarded(
                text::three(
                    text::holds(
                        chunk.kind is Data && chunk.stream_id == position.stream_id,
                        "Aggregate Apply does not reference data"@,
                    ),
                    text::holds(position.row_ordinal >= 0, "Aggregate Apply row is negative"@),
                    text::holds(
                        position.row_ordinal < chunk.rows,
                        "Aggregate Apply row is outside its chunk"@,
                    ),
                ),
                (position, chunk),
            ),
        },
    }
}

/// Opens the chunk that an Apply cursor stands in.
pub fn open_apply(input: Option<InputPosition>, chunk: &Option<ChunkMeta>) -> (outcome: Result<
    (InputPosition, ChunkMeta),
    String,
>)
    ensures
        text::agrees(outcome, apply_input(input, *chunk)),
{
    match input {
        None => fail("Aggregate Apply omitted its input cursor"),
        Some(position) => match chunk {
            None => fail("Aggregate Apply references a missing input chunk"),
            Some(chunk) => {
                if chunk.kind != ChunkKind::Data || chunk.stream_id != position.stream_id {
                    return fail("Aggregate Apply does not reference data");
                }
                if position.row_ordinal < 0 {
                    return fail("Aggregate Apply row is negative");
                }
                if position.row_ordinal as u64 >= chunk.rows {
                    return fail("Aggregate Apply row is outside its chunk");
                }
                Ok((position, *chunk))
            },
        },
    }
}

/// Whether the payload of a chunk is measured: once, at its first row.
pub fn measures_payload(position: InputPosition) -> (measures: bool)
    ensures
        measures == (position.row_ordinal == 0),
{
    position.row_ordinal == 0
}

/// Where an admitted page leads. A page inside its chunk continues there,
/// after a drain where one is due. The end of a chunk leads to the frontier
/// that follows it, to a drain where one is due, or to nothing.
pub open spec fn page_target(
    stream_id: i64,
    chunk: ChunkMeta,
    next_row: i64,
    first_group_queue_id: i64,
    drain_reached: bool,
    following: Option<ChunkMeta>,
) -> Result<ApplyTarget, Seq<char>> {
    if chunk.rows > i64::MAX {
        Err("Aggregate chunk rows exceed bigint"@)
    } else if next_row < chunk.rows {
        match InputPosition::made(stream_id, chunk.sequence, next_row) {
            Err(message) => Err(message),
            Ok(next) => Ok(
                if drain_reached {
                    ApplyTarget::Drain { first_group_queue_id, after: AfterDrain::Apply(next) }
                } else {
                    ApplyTarget::Continue(next)
                },
            ),
        }
    } else if next_row == chunk.rows {
        match following {
            Some(next) => if next.kind is Frontier {
                match InputPosition::made(next.stream_id, next.sequence, 0) {
                    Err(message) => Err(message),
                    Ok(frontier) => Ok(
                        ApplyTarget::Drain {
                            first_group_queue_id,
                            after: AfterDrain::Frontier(frontier),
                        },
                    ),
                }
            } else {
                Ok(idle_target(first_group_queue_id, drain_reached))
            },
            None => Ok(idle_target(first_group_queue_id, drain_reached)),
        }
    } else {
        Err("Aggregate Apply advanced beyond its input chunk"@)
    }
}

/// Where the end of a chunk without a frontier behind it leads.
pub open spec fn idle_target(first_group_queue_id: i64, drain_reached: bool) -> ApplyTarget {
    if drain_reached {
        ApplyTarget::Drain { first_group_queue_id, after: AfterDrain::Idle }
    } else {
        ApplyTarget::Idle
    }
}

/// Plans where an admitted page leads. `following` is the chunk behind the
/// admitted one.
pub fn plan_target(
    stream_id: i64,
    chunk: &ChunkMeta,
    next_row: i64,
    first_group_queue_id: i64,
    drain_reached: bool,
    following: &Option<ChunkMeta>,
) -> (outcome: Result<ApplyTarget, String>)
    ensures
        text::agrees(
            outcome,
            page_target(
                stream_id,
                *chunk,
                next_row,
                first_group_queue_id,
                drain_reached,
                *following,
            ),
        ),
{
    if chunk.rows > i64::MAX as u64 {
        return fail("Aggregate chunk rows exceed bigint");
    }
    let chunk_rows: i64 = chunk.rows as i64;
    if next_row < chunk_rows {
        let next = InputPosition::new(stream_id, chunk.sequence, next_row)?;
        if drain_reached {
            return Ok(ApplyTarget::Drain { first_group_queue_id, after: AfterDrain::Apply(next) });
        }
        return Ok(ApplyTarget::Continue(next));
    }
    if next_row != chunk_rows {
        return fail("Aggregate Apply advanced beyond its input chunk");
    }
    if let Some(next) = following {
        if next.kind == ChunkKind::Frontier {
            let frontier = InputPosition::new(next.stream_id, next.sequence, 0)?;
            return Ok(
                ApplyTarget::Drain { first_group_queue_id, after: AfterDrain::Frontier(frontier) },
            );
        }
    }
    if drain_reached {
        return Ok(ApplyTarget::Drain { first_group_queue_id, after: AfterDrain::Idle });
    }
    Ok(ApplyTarget::Idle)
}

/// The continuation rows that a target leaves.
pub open spec fn rows_left(continues: bool) -> u64 {
    if continues {
        1
    } else {
        0
    }
}

/// The page that the machine is asked to accept for an admitted prefix.
pub open spec fn applied_page(applied: ApplyFacts, target: ApplyTarget) -> AppliedPage {
    AppliedPage {
        facts: PrimitiveFacts {
            usage: applied.usage,
            state_rows: applied.state_rows,
            continuation_rows: rows_left(!(target is Idle)),
            output: OutputFacts::Nothing,
        },
        target,
    }
}

/// The move of the consumer behind an admitted page: past a chunk that it
/// completed.
pub open spec fn apply_advance(
    chunk: ChunkMeta,
    next_row: i64,
    consumed_frontier_lsn: u64,
) -> Option<InputAdvance> {
    if next_row == chunk.rows {
        Some(InputAdvance::past_data(chunk, consumed_frontier_lsn))
    } else {
        None
    }
}

/// What an admitted page commits.
pub open spec fn apply_commit(
    machine: AggregateMachine,
    value: AggregateContinuation,
    input: InputState,
    chunk: ChunkMeta,
    applied: ApplyFacts,
    target: ApplyTarget,
    budget: WorkBudget,
) -> Result<AggregateCommit, Seq<char>> {
    committed(
        machine,
        value,
        AggregateActionResult::Applied(applied_page(applied, target)),
        apply_advance(chunk, applied.next_row, input.consumed_frontier_lsn),
        budget,
    )
}

/// Commits one admitted page.
pub fn commit_apply(
    machine: AggregateMachine,
    value: AggregateContinuation,
    input: &InputState,
    chunk: &ChunkMeta,
    applied: &ApplyFacts,
    target: ApplyTarget,
    budget: WorkBudget,
) -> (outcome: Result<AggregateCommit, String>)
    requires
        chunk.sequence < i64::MAX,
    ensures
        text::agrees(outcome, apply_commit(machine, value, *input, *chunk, *applied, target, budget)),
{
    let continuation_rows: u64 = match target {
        ApplyTarget::Idle => 0,
        _ => 1,
    };
    let page = AppliedPage {
        facts: PrimitiveFacts {
            usage: applied.usage,
            state_rows: applied.state_rows,
            continuation_rows,
            output: OutputFacts::Nothing,
        },
        target,
    };
    let advance = if applied.next_row >= 0 && applied.next_row as u64 == chunk.rows {
        Some(advance_past_data(chunk, input.consumed_frontier_lsn))
    } else {
        None
    };
    commit(machine, value, AggregateActionResult::Applied(page), advance, budget)
}

/// The facts of a rebuild page, whose fold or output follows in any case.
pub open spec fn rebuilt_page(initialized: u64, rebuilt: RebuildFacts) -> RebuiltPage {
    RebuiltPage {
        page: rebuilt.page,
        facts: PrimitiveFacts {
            usage: rebuilt.page.usage,
            state_rows: (initialized + rebuilt.state_rows) as u64,
            continuation_rows: 1,
            output: OutputFacts::Nothing,
        },
    }
}

/// What a fold of a page commits.
pub open spec fn rebuild_commit(
    machine: AggregateMachine,
    value: AggregateContinuation,
    initialized: u64,
    rebuilt: RebuildFacts,
    budget: WorkBudget,
) -> Result<AggregateCommit, Seq<char>> {
    if initialized + rebuilt.state_rows > u64::MAX {
        Err("Aggregate rebuild state count overflowed"@)
    } else {
        committed(
            machine,
            value,
            AggregateActionResult::Rebuilt(rebuilt_page(initialized, rebuilt)),
            None,
            budget,
        )
    }
}

/// Commits one rebuild page.
pub fn commit_rebuild(
    machine: AggregateMachine,
    value: AggregateContinuation,
    initialized: u64,
    rebuilt: &RebuildFacts,
    budget: WorkBudget,
) -> (outcome: Result<AggregateCommit, String>)
    ensures
        text::agrees(outcome, rebuild_commit(machine, value, initialized, *rebuilt, budget)),
{
    match initialized.checked_add(rebuilt.state_rows) {
        None => fail("Aggregate rebuild state count overflowed"),
        Some(state_rows) => {
            let page = RebuiltPage {
                page: rebuilt.page,
                facts: PrimitiveFacts {
                    usage: rebuilt.page.usage,
                    state_rows,
                    continuation_rows: 1,
                    output: OutputFacts::Nothing,
                },
            };
            commit(machine, value, AggregateActionResult::Rebuilt(page), None, budget)
        },
    }
}

/// Whether a finished group leaves a continuation: the next dirty group, or
/// what the drain was for.
pub open spec fn group_continues(value: AggregateContinuation, next_group: Option<i64>) -> bool {
    next_group is Some || !(value.phase matches AggregatePhase::DrainEmit { after, .. }
        && after is Idle)
}

fn continues(value: AggregateContinuation, next_group: Option<i64>) -> (continues: bool)
    ensures
        continues == group_continues(value, next_group),
{
    next_group.is_some() || match value.phase {
        AggregatePhase::DrainEmit { after, .. } => after != AfterDrain::Idle,
        _ => true,
    }
}

/// The facts of an emission: one appended row, or none.
pub open spec fn emission_facts(
    append: Option<OutputAppend>,
    state_rows: u64,
    continues: bool,
) -> PrimitiveFacts {
    match append {
        None => PrimitiveFacts {
            usage: crate::planner::no_usage(),
            state_rows,
            continuation_rows: rows_left(continues),
            output: OutputFacts::Nothing,
        },
        Some(append) => PrimitiveFacts {
            usage: WorkUsage {
                input_rows: 0,
                input_bytes: 0,
                output_rows: append.rows,
                output_bytes: append.bytes,
            },
            state_rows,
            continuation_rows: rows_left(continues),
            output: OutputFacts::Data { chunk_seq: append.target.chunk() },
        },
    }
}

fn facts_of(append: &Option<OutputAppend>, state_rows: u64, continues: bool) -> (facts:
    PrimitiveFacts)
    ensures
        facts == emission_facts(*append, state_rows, continues),
{
    let continuation_rows: u64 = if continues {
        1
    } else {
        0
    };
    match append {
        None => PrimitiveFacts {
            usage: WorkUsage::default(),
            state_rows,
            continuation_rows,
            output: OutputFacts::Nothing,
        },
        Some(append) => PrimitiveFacts {
            usage: WorkUsage {
                input_rows: 0,
                input_bytes: 0,
                output_rows: append.rows,
                output_bytes: append.bytes,
            },
            state_rows,
            continuation_rows,
            output: OutputFacts::Data { chunk_seq: append.target.sequence() },
        },
    }
}

/// The prepared output of a decision.
pub open spec fn prepared(
    decision: OutputDecision,
    facts: PrimitiveFacts,
    next_group_queue_id: Option<i64>,
) -> PreparedOutput {
    match decision {
        OutputDecision::Unchanged => PreparedOutput::Unchanged { facts, next_group_queue_id },
        OutputDecision::Insert => PreparedOutput::Inserted { facts, next_group_queue_id },
        OutputDecision::Delete => PreparedOutput::Deleted { facts, next_group_queue_id },
        OutputDecision::Replace => PreparedOutput::ReplacementRetracted { facts },
    }
}

/// What a decided group commits.
pub open spec fn decision_commit(
    machine: AggregateMachine,
    value: AggregateContinuation,
    decision: OutputDecision,
    append: Option<OutputAppend>,
    discarded: u64,
    next_group: Option<i64>,
    finished: u64,
    budget: WorkBudget,
) -> Result<AggregateCommit, Seq<char>> {
    if 1 + discarded + finished > u64::MAX {
        Err("Aggregate emission state count overflowed"@)
    } else {
        committed(
            machine,
            value,
            AggregateActionResult::OutputPrepared(
                prepared(
                    decision,
                    emission_facts(
                        append,
                        (1 + discarded + finished) as u64,
                        decision is Replace || group_continues(value, next_group),
                    ),
                    next_group,
                ),
            ),
            None,
            budget,
        )
    }
}

/// Commits the decision on a group. `append` is the one row that it emitted;
/// `discarded` counts the folds that it discarded, and `finished` the state
/// rows that left with the group. A replacement keeps its group, so that
/// nothing is finished.
pub fn commit_decision(
    machine: AggregateMachine,
    value: AggregateContinuation,
    decision: OutputDecision,
    append: &Option<OutputAppend>,
    discarded: u64,
    next_group: Option<i64>,
    finished: u64,
    budget: WorkBudget,
) -> (outcome: Result<AggregateCommit, String>)
    ensures
        text::agrees(outcome, decision_commit(machine, value, decision, *append, discarded, next_group, finished, budget)),
{
    let emitted: u64 = 1;
    let state_rows: u64 = match emitted.checked_add(discarded) {
        None => return fail("Aggregate emission state count overflowed"),
        Some(rows) => match rows.checked_add(finished) {
            None => return fail("Aggregate emission state count overflowed"),
            Some(rows) => rows,
        },
    };
    let continues = decision == OutputDecision::Replace || continues(value, next_group);
    let facts = facts_of(append, state_rows, continues);
    let prepared = match decision {
        OutputDecision::Unchanged => PreparedOutput::Unchanged {
            facts,
            next_group_queue_id: next_group,
        },
        OutputDecision::Insert => PreparedOutput::Inserted {
            facts,
            next_group_queue_id: next_group,
        },
        OutputDecision::Delete => PreparedOutput::Deleted {
            facts,
            next_group_queue_id: next_group,
        },
        OutputDecision::Replace => PreparedOutput::ReplacementRetracted { facts },
    };
    commit(machine, value, AggregateActionResult::OutputPrepared(prepared), None, budget)
}

/// What a published pending row commits.
pub open spec fn pending_commit(
    machine: AggregateMachine,
    value: AggregateContinuation,
    append: OutputAppend,
    next_group: Option<i64>,
    finished: u64,
    budget: WorkBudget,
) -> Result<AggregateCommit, Seq<char>> {
    if 1 + finished > u64::MAX {
        Err("Aggregate emission state count overflowed"@)
    } else {
        committed(
            machine,
            value,
            AggregateActionResult::PendingEmitted(
                PendingOutput {
                    facts: emission_facts(
                        Some(append),
                        (1 + finished) as u64,
                        group_continues(value, next_group),
                    ),
                    next_group_queue_id: next_group,
                },
            ),
            None,
            budget,
        )
    }
}

/// Commits the pending row of a replaced group.
pub fn commit_pending(
    machine: AggregateMachine,
    value: AggregateContinuation,
    append: OutputAppend,
    next_group: Option<i64>,
    finished: u64,
    budget: WorkBudget,
) -> (outcome: Result<AggregateCommit, String>)
    ensures
        text::agrees(outcome, pending_commit(machine, value, append, next_group, finished, budget)),
{
    let emitted: u64 = 1;
    match emitted.checked_add(finished) {
        None => fail("Aggregate emission state count overflowed"),
        Some(state_rows) => {
            let facts = facts_of(&Some(append), state_rows, continues(value, next_group));
            commit(
                machine,
                value,
                AggregateActionResult::PendingEmitted(
                    PendingOutput { facts, next_group_queue_id: next_group },
                ),
                None,
                budget,
            )
        },
    }
}

/// The frontier chunk that a cursor stands at.
pub open spec fn frontier_input(input: Option<InputPosition>, chunk: Option<ChunkMeta>) -> Result<
    ChunkMeta,
    Seq<char>,
> {
    match input {
        None => Err("Aggregate frontier omitted its input cursor"@),
        Some(position) => match chunk {
            None => Err("Aggregate frontier references a missing input chunk"@),
            Some(chunk) => text::guarded(
                text::holds(
                    chunk.kind is Frontier && chunk.stream_id == position.stream_id
                        && position.row_ordinal == 0,
                    "Aggregate frontier continuation is invalid"@,
                ),
                chunk,
            ),
        },
    }
}

/// Opens the frontier chunk that a cursor stands at.
pub fn open_frontier(input: Option<InputPosition>, chunk: &Option<ChunkMeta>) -> (outcome: Result<
    ChunkMeta,
    String,
>)
    ensures
        text::agrees(outcome, frontier_input(input, *chunk)),
{
    match input {
        None => fail("Aggregate frontier omitted its input cursor"),
        Some(position) => match chunk {
            None => fail("Aggregate frontier references a missing input chunk"),
            Some(chunk) => {
                if chunk.kind != ChunkKind::Frontier || chunk.stream_id != position.stream_id
                    || position.row_ordinal != 0 {
                    return fail("Aggregate frontier continuation is invalid");
                }
                Ok(*chunk)
            },
        },
    }
}

/// Whether the dirty queue is empty.
pub fn queue_empty_query(dirty: &str) -> (sql: String)
    ensures
        sql@ == "SELECT NOT EXISTS(SELECT 1 FROM "@ + dirty@ + ")"@,
{
    let mut sql = "SELECT NOT EXISTS(SELECT 1 FROM ".to_owned();
    sql.append(dirty);
    sql.append(")");
    sql
}

/// Whether the queue is empty, as a frontier requires.
pub open spec fn drained(queue_empty: Option<bool>) -> Result<(), Seq<char>> {
    match database::required_value(queue_empty, "Aggregate dirty queue state"@) {
        Err(message) => Err(message),
        Ok(empty) => text::holds(
            empty,
            "Aggregate attempted to forward a frontier before draining"@,
        ),
    }
}

/// A frontier is forwarded only after every dirty group is published.
pub fn require_drained(queue_empty: Option<bool>) -> (outcome: Result<(), String>)
    ensures
        text::agrees(outcome, drained(queue_empty)),
{
    if !required(queue_empty, "Aggregate dirty queue state")? {
        return fail("Aggregate attempted to forward a frontier before draining");
    }
    Ok(())
}

/// Whether a stage has any group.
pub fn materialized_query(groups: &str) -> (sql: String)
    ensures
        sql@ == "SELECT EXISTS(SELECT 1 FROM "@ + groups@ + ")"@,
{
    let mut sql = "SELECT EXISTS(SELECT 1 FROM ".to_owned();
    sql.append(groups);
    sql.append(")");
    sql
}

/// Whether a stage without keys still has to queue its one group.
pub open spec fn global_group_due(
    groups: usize,
    materialized: Option<bool>,
) -> Result<bool, Seq<char>> {
    if groups > 0 {
        Ok(false)
    } else {
        match database::required_value(
            materialized,
            "global Aggregate materialization state"@,
        ) {
            Err(message) => Err(message),
            Ok(materialized) => Ok(!materialized),
        }
    }
}

/// Whether a frontier must first queue the group of an empty global
/// aggregate. `materialized` is asked only of a stage without group keys.
pub fn queues_global_group(groups: usize, materialized: Option<bool>) -> (outcome: Result<
    bool,
    String,
>)
    ensures
        text::agrees(outcome, global_group_due(groups, materialized)),
{
    if groups > 0 {
        return Ok(false);
    }
    Ok(!required(materialized, "global Aggregate materialization state")?)
}

/// Creates the global group and queues it.
pub const GLOBAL_GROUP_SQL: &'static str =
    "WITH global_group AS MATERIALIZED (
                       INSERT INTO {groups}(global_group) VALUES(true)
                       RETURNING group_state_id
                     )
                     INSERT INTO {dirty}(group_state_id,causal_lsn)
                     SELECT group_state_id,$1::pg_lsn FROM global_group
                     RETURNING queue_id";

/// Queues the one group of a stage without keys.
pub open spec fn global_group_query(
    groups: Seq<char>,
    dirty: Seq<char>,
    lsn: u64,
) -> StatementModel {
    StatementModel {
        sql: text::rendered(
            GLOBAL_GROUP_SQL@,
            seq![("groups"@, groups), ("dirty"@, dirty)],
        ),
        arguments: seq![SqlModel::Text(Some(postgres::lsn_text(lsn)))],
    }
}

/// The statement that creates the global group and queues it.
pub fn global_group_statement(groups: &str, dirty: &str, lsn: u64) -> (statement: Statement)
    ensures
        statement@ == global_group_query(groups@, dirty@, lsn),
{
    let holes = Holes::new().bind("groups", groups).bind("dirty", dirty);
    assert(holes@ =~= seq![("groups"@, groups@), ("dirty"@, dirty@)]);
    Statement::new(render(GLOBAL_GROUP_SQL, holes)).text(format_lsn(lsn).as_str())
}

/// The facts of a queued global group: its state row and its queue entry.
pub open spec fn global_facts() -> PrimitiveFacts {
    PrimitiveFacts { state_rows: 2, ..PrimitiveFacts::nothing() }
}

/// What the queued group of a stage without keys commits.
pub open spec fn global_group_commit(
    machine: AggregateMachine,
    value: AggregateContinuation,
    rows: int,
    queue_id: Option<i64>,
    budget: WorkBudget,
) -> Result<AggregateCommit, Seq<char>> {
    if rows != 1 {
        Err("global Aggregate did not queue its empty group"@)
    } else {
        match database::required_value(queue_id, "global Aggregate queue ID"@) {
            Err(message) => Err(message),
            Ok(group_queue_id) => committed(
                machine,
                value,
                AggregateActionResult::Frontier(
                    FrontierResult::GlobalGroupQueued {
                        facts: global_facts(),
                        group_queue_id,
                    },
                ),
                None,
                budget,
            ),
        }
    }
}

/// Commits a queued global group.
pub fn commit_global_group(
    machine: AggregateMachine,
    value: AggregateContinuation,
    rows: usize,
    queue_id: Option<i64>,
    budget: WorkBudget,
) -> (outcome: Result<AggregateCommit, String>)
    ensures
        text::agrees(outcome, global_group_commit(machine, value, rows as int, queue_id, budget)),
{
    require_summary(rows, "global Aggregate did not queue its empty group")?;
    let group_queue_id: i64 = required(queue_id, "global Aggregate queue ID")?;
    let mut facts = PrimitiveFacts::default();
    facts.state_rows = 2;
    commit(
        machine,
        value,
        AggregateActionResult::Frontier(
            FrontierResult::GlobalGroupQueued { facts, group_queue_id },
        ),
        None,
        budget,
    )
}

/// What a forwarded frontier commits.
pub open spec fn frontier_commit(
    machine: AggregateMachine,
    value: AggregateContinuation,
    chunk: ChunkMeta,
    output: OutputFacts,
    budget: WorkBudget,
) -> Result<AggregateCommit, Seq<char>> {
    committed(
        machine,
        value,
        AggregateActionResult::Frontier(
            FrontierResult::Forwarded {
                facts: PrimitiveFacts { output, ..PrimitiveFacts::nothing() },
            },
        ),
        Some(InputAdvance::past_frontier(chunk)),
        budget,
    )
}

/// Commits a forwarded frontier: its chunk is consumed.
pub fn commit_frontier(
    machine: AggregateMachine,
    value: AggregateContinuation,
    chunk: &ChunkMeta,
    output: OutputFacts,
    budget: WorkBudget,
) -> (outcome: Result<AggregateCommit, String>)
    requires
        chunk.sequence < i64::MAX,
    ensures
        text::agrees(outcome, frontier_commit(machine, value, *chunk, output, budget)),
{
    let mut facts = PrimitiveFacts::default();
    facts.output = output;
    commit(
        machine,
        value,
        AggregateActionResult::Frontier(FrontierResult::Forwarded { facts }),
        Some(advance_past_frontier(chunk)),
        budget,
    )
}

/// The fields of a cursor that has to be persisted.
pub open spec fn fields_of(value: Option<AggregateContinuation>) -> Result<
    Option<Seq<SqlModel>>,
    Seq<char>,
> {
    match value {
        None => Ok(None),
        Some(value) => match AggregateFields::of(value) {
            Ok(fields) => Ok(Some(storage::field_arguments(fields))),
            Err(message) => Err(message),
        },
    }
}

fn encode(value: Option<AggregateContinuation>) -> (outcome: Result<Option<Vec<SqlValue>>, String>)
    ensures
        match (outcome, fields_of(value)) {
            (Ok(fields), Ok(model)) => continuation::optional_fields(fields) == model,
            (Err(error), Err(message)) => error@ == message,
            _ => false,
        },
{
    match value {
        None => Ok(None),
        Some(value) => {
            let fields = encode_execute_fields(value)?;
            Ok(Some(aggregate_field_arguments(&fields)))
        },
    }
}

/// Plans the replacement of the authority row.
pub fn replace_execute_continuation(
    relation: &str,
    stored: &StoredAggregate,
    next: &Option<AggregateContinuation>,
) -> (outcome: Result<Replacement, String>)
    ensures
        match (
            fields_of(
                if stored.persisted {
                    Some(stored.value)
                } else {
                    None
                },
            ),
            fields_of(*next),
        ) {
            (Err(message), _) => outcome matches Err(error) && error@ == message,
            (Ok(_), Err(message)) => outcome matches Err(error) && error@ == message,
            (Ok(before), Ok(after)) => outcome matches Ok(replacement) && continuation::replaces(
                replacement,
                relation@,
                storage::columns(),
                before,
                after,
            ),
        },
{
    let before = encode(
        if stored.persisted {
            Some(stored.value)
        } else {
            None
        },
    )?;
    let after = encode(*next)?;
    replace_cas(relation, &continuation_columns(), before, after, "Aggregate")
}

} // verus!
