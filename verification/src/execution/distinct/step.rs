//! What a Distinct stage does next, from its cursor, its input and the row
//! facts that PostgreSQL returned.

use vstd::prelude::*;

use crate::execution::abi::{self, has_exact_columns, has_type, ordinal_column};
use crate::execution::continuation::{self, replace_cas, Attribute, Replacement};
use crate::execution::contract::{InputPosition, OutputFacts, PrimitiveFacts};
use crate::execution::distinct::machine::{
    AppliedPrefix, DistinctActionResult, DistinctContinuation, DistinctMachine, DistinctPhase,
    OccupancyDiff,
};
use crate::execution::distinct::statements::{DrainFacts, PrefixFacts};
use crate::execution::distinct::storage::{
    self, continuation_arguments, continuation_columns, StoredContinuation,
};
use crate::execution::stream::{
    self, advance_past_data, attribute_matches_slot, ChunkKind, ChunkMeta, InputAdvance,
    InputState, ProducerKind,
};
use crate::planner::{Operator, SlotType, WorkBudget};
use crate::sql::{SqlModel, SqlValue, BYTEAOID, INT8OID, NUMERICOID, PG_LSNOID};
use crate::text::{self, fail, same_text};

verus! {

/// Whether a stage is a Distinct with one operator input.
pub open spec fn stage_sound(
    operator: Operator,
    planned_inputs: usize,
    inputs: Seq<InputState>,
) -> Result<(), Seq<char>> {
    text::both(
        text::holds(operator is Distinct, "Distinct executor received another operator"@),
        text::holds(
            inputs.len() == 1 && inputs[0].producer is Operator && planned_inputs == 1,
            "Distinct must have one operator input"@,
        ),
    )
}

/// Checks the operator and inputs of a stage before it steps.
pub fn validate_stage(operator: Operator, planned_inputs: usize, inputs: &Vec<InputState>) -> (
    outcome: Result<(), String>)
    ensures
        text::agrees(outcome, stage_sound(operator, planned_inputs, inputs@)),
{
    if operator != Operator::Distinct {
        return fail("Distinct executor received another operator");
    }
    if inputs.len() != 1 || inputs[0].producer != ProducerKind::Operator || planned_inputs != 1 {
        return fail("Distinct must have one operator input");
    }
    Ok(())
}

/// The cursor with the phase that the chunk at it calls for.
pub open spec fn pinned(stored: StoredContinuation, chunk: Option<ChunkMeta>) -> Result<
    StoredContinuation,
    Seq<char>,
> {
    match chunk {
        None => Err("runnable Distinct has no input chunk"@),
        Some(chunk) => if stored.persisted {
            text::guarded(
                text::holds(
                    chunk.kind is Data && !(stored.value.phase is Frontier),
                    "Distinct continuation is not pinned to a data chunk"@,
                ),
                stored,
            )
        } else {
            Ok(
                StoredContinuation {
                    value: DistinctContinuation {
                        input: stored.value.input,
                        phase: match chunk.kind {
                            ChunkKind::Data => DistinctPhase::Apply,
                            ChunkKind::Frontier => DistinctPhase::Frontier,
                        },
                    },
                    persisted: false,
                },
            )
        },
    }
}

/// Pins a cursor to the chunk at it. A persisted cursor stands in a data
/// chunk; a fresh one takes its phase from the kind of the chunk.
pub fn pin_phase(stored: StoredContinuation, chunk: &Option<ChunkMeta>) -> (outcome: Result<
    StoredContinuation,
    String,
>)
    ensures
        text::agrees(outcome, pinned(stored, *chunk)),
{
    match chunk {
        None => fail("runnable Distinct has no input chunk"),
        Some(chunk) => {
            if stored.persisted {
                if chunk.kind != ChunkKind::Data || stored.value.phase == DistinctPhase::Frontier {
                    return fail("Distinct continuation is not pinned to a data chunk");
                }
                return Ok(stored);
            }
            let phase = match chunk.kind {
                ChunkKind::Data => DistinctPhase::Apply,
                ChunkKind::Frontier => DistinctPhase::Frontier,
            };
            Ok(
                StoredContinuation {
                    value: DistinctContinuation { input: stored.value.input, phase },
                    persisted: false,
                },
            )
        },
    }
}

/// A frontier is forwarded only from the start of its chunk.
pub fn validate_frontier(stored: &StoredContinuation) -> (outcome: Result<(), String>)
    ensures
        text::agrees(
            outcome,
            text::holds(
                stored.value.input.row_ordinal == 0,
                "Distinct frontier has a row continuation"@,
            ),
        ),
{
    if stored.value.input.row_ordinal != 0 {
        return fail("Distinct frontier has a row continuation");
    }
    Ok(())
}

/// Whether the payload of a chunk is measured before it is read: once, when
/// its first row is admitted.
pub fn measures_payload(stored: &StoredContinuation) -> (measures: bool)
    ensures
        measures == (stored.value.phase is Apply && stored.value.input.row_ordinal == 0),
{
    stored.value.phase == DistinctPhase::Apply && stored.value.input.row_ordinal == 0
}

/// The facts of a forwarded frontier.
pub open spec fn forwarded_facts(output: OutputFacts) -> PrimitiveFacts {
    PrimitiveFacts { output, ..PrimitiveFacts::nothing() }
}

/// Closes a forwarded frontier.
pub fn finish_frontier(stored: &StoredContinuation, output: OutputFacts, budget: WorkBudget) -> (
    outcome: Result<PrimitiveFacts, String>)
    ensures
        match (
            outcome,
            DistinctMachine::applied(
                stored.value,
                DistinctActionResult::FrontierForwarded(forwarded_facts(output)),
                budget,
            ),
        ) {
            (Ok(facts), Ok(_)) => facts == forwarded_facts(output),
            (Err(error), Err(message)) => error@ == message,
            _ => false,
        },
{
    let mut facts = PrimitiveFacts::default();
    facts.output = output;
    DistinctMachine.apply(stored.value, DistinctActionResult::FrontierForwarded(facts), budget)?;
    Ok(facts)
}

/// The cursor at a row behind admitted input: the row, or `None` at the end of
/// the chunk, where the consumer moves past it.
pub open spec fn finished(stream_id: i64, chunk: ChunkMeta, next_row: i64) -> Result<
    Option<DistinctContinuation>,
    Seq<char>,
> {
    if chunk.rows > i64::MAX {
        Err("Distinct chunk rows exceed bigint"@)
    } else if next_row < chunk.rows {
        match InputPosition::made(stream_id, chunk.sequence, next_row) {
            Err(message) => Err(message),
            Ok(input) => Ok(Some(DistinctContinuation { input, phase: DistinctPhase::Apply })),
        }
    } else {
        text::guarded(
            text::holds(
                next_row == chunk.rows,
                "Distinct prefix advanced beyond its input chunk"@,
            ),
            None,
        )
    }
}

pub fn finish_input_position(stream_id: i64, chunk: &ChunkMeta, next_row: i64) -> (outcome: Result<
    Option<DistinctContinuation>,
    String,
>)
    ensures
        text::agrees(outcome, finished(stream_id, *chunk, next_row)),
{
    if chunk.rows > i64::MAX as u64 {
        return fail("Distinct chunk rows exceed bigint");
    }
    let chunk_rows: i64 = chunk.rows as i64;
    if next_row < chunk_rows {
        let input = InputPosition::new(stream_id, chunk.sequence, next_row)?;
        return Ok(Some(DistinctContinuation { input, phase: DistinctPhase::Apply }));
    }
    if next_row != chunk_rows {
        return fail("Distinct prefix advanced beyond its input chunk");
    }
    Ok(None)
}

/// What a stage commits after one admitted prefix or drained page.
#[derive(Clone, Copy, Debug, PartialEq, Eq, Structural)]
pub struct DistinctCommit {
    pub facts: PrimitiveFacts,
    pub next: Option<DistinctContinuation>,
    /// The move of the consumer past a completed chunk.
    pub advance: Option<InputAdvance>,
}

/// The continuation rows that a cursor leaves.
pub open spec fn rows_left(next: Option<DistinctContinuation>) -> u64 {
    if next is Some {
        1
    } else {
        0
    }
}

/// The move of the consumer when no cursor in the chunk is left.
pub open spec fn advance_of(
    input: InputState,
    chunk: ChunkMeta,
    next: Option<DistinctContinuation>,
) -> Option<InputAdvance> {
    if next is Some {
        None
    } else {
        Some(InputAdvance::past_data(chunk, input.consumed_frontier_lsn))
    }
}

/// The cursor behind a drained page: the same one while effects are left.
pub open spec fn drain_successor(
    input: InputState,
    chunk: ChunkMeta,
    value: DistinctContinuation,
    drained: DrainFacts,
) -> Result<Option<DistinctContinuation>, Seq<char>> {
    if drained.remaining_effects > 0 {
        Ok(Some(value))
    } else {
        finished(input.stream_id, chunk, value.input.row_ordinal)
    }
}

/// The page that the machine is asked to accept for a drain.
pub open spec fn drained_page(drained: DrainFacts, next: Option<DistinctContinuation>) -> AppliedPrefix {
    AppliedPrefix {
        facts: PrimitiveFacts {
            usage: drained.usage,
            state_rows: drained.state_rows,
            continuation_rows: rows_left(next),
            output: OutputFacts::Data { chunk_seq: drained.append.target.chunk() },
        },
        occupancy: OccupancyDiff { touched_keys: 0, external_effects: drained.usage.output_rows },
        next,
    }
}

/// The page that the machine is asked to accept for an admitted prefix.
pub open spec fn admitted_page(admitted: PrefixFacts, next: Option<DistinctContinuation>) -> AppliedPrefix {
    AppliedPrefix {
        facts: PrimitiveFacts {
            usage: admitted.usage,
            state_rows: admitted.state_rows,
            continuation_rows: rows_left(next),
            output: OutputFacts::Nothing,
        },
        occupancy: OccupancyDiff {
            touched_keys: admitted.touched_keys,
            external_effects: admitted.queued_effects,
        },
        next,
    }
}

/// The cursor behind an admitted prefix: its queued effects come first.
pub open spec fn admit_successor(input: InputState, chunk: ChunkMeta, admitted: PrefixFacts) -> Result<
    Option<DistinctContinuation>,
    Seq<char>,
> {
    if admitted.queued_effects > 0 {
        match InputPosition::made(input.stream_id, chunk.sequence, admitted.next_row) {
            Err(message) => Err(message),
            Ok(position) => Ok(
                Some(DistinctContinuation { input: position, phase: DistinctPhase::Drain }),
            ),
        }
    } else {
        finished(input.stream_id, chunk, admitted.next_row)
    }
}

/// What the machine commits for a page, with the move of the consumer.
pub open spec fn committed(
    input: InputState,
    chunk: ChunkMeta,
    value: DistinctContinuation,
    result: DistinctActionResult,
    page: AppliedPrefix,
    budget: WorkBudget,
) -> Result<DistinctCommit, Seq<char>> {
    match DistinctMachine::applied(value, result, budget) {
        Err(message) => Err(message),
        Ok(_) => Ok(
            DistinctCommit {
                facts: page.facts,
                next: page.next,
                advance: advance_of(input, chunk, page.next),
            },
        ),
    }
}

fn close(input: &InputState, chunk: &ChunkMeta, page: AppliedPrefix) -> (commit: DistinctCommit)
    requires
        chunk.sequence < i64::MAX,
    ensures
        commit == (DistinctCommit {
            facts: page.facts,
            next: page.next,
            advance: advance_of(*input, *chunk, page.next),
        }),
{
    let advance = match page.next {
        Some(_) => None,
        None => Some(advance_past_data(chunk, input.consumed_frontier_lsn)),
    };
    DistinctCommit { facts: page.facts, next: page.next, advance }
}

/// What a drain commits.
pub open spec fn drain_commit(
    input: InputState,
    chunk: ChunkMeta,
    stored: StoredContinuation,
    drained: DrainFacts,
    budget: WorkBudget,
) -> Result<DistinctCommit, Seq<char>> {
    match drain_successor(input, chunk, stored.value, drained) {
        Err(message) => Err(message),
        Ok(next) => committed(
            input,
            chunk,
            stored.value,
            DistinctActionResult::Drained(drained_page(drained, next)),
            drained_page(drained, next),
            budget,
        ),
    }
}

/// Commits one drained page.
pub fn commit_drain(
    input: &InputState,
    chunk: &ChunkMeta,
    stored: &StoredContinuation,
    drained: &DrainFacts,
    budget: WorkBudget,
) -> (outcome: Result<DistinctCommit, String>)
    requires
        chunk.sequence < i64::MAX,
    ensures
        text::agrees(outcome, drain_commit(*input, *chunk, *stored, *drained, budget)),
{
    let next = if drained.remaining_effects > 0 {
        Some(stored.value)
    } else {
        finish_input_position(input.stream_id, chunk, stored.value.input.row_ordinal)?
    };
    let page = AppliedPrefix {
        facts: PrimitiveFacts {
            usage: drained.usage,
            state_rows: drained.state_rows,
            continuation_rows: if next.is_some() {
                1
            } else {
                0
            },
            output: OutputFacts::Data { chunk_seq: drained.append.target.sequence() },
        },
        occupancy: OccupancyDiff { touched_keys: 0, external_effects: drained.usage.output_rows },
        next,
    };
    assert(page == drained_page(*drained, next));
    DistinctMachine.apply(stored.value, DistinctActionResult::Drained(page), budget)?;
    Ok(close(input, chunk, page))
}

/// What an admitted prefix commits.
pub open spec fn apply_commit(
    input: InputState,
    chunk: ChunkMeta,
    stored: StoredContinuation,
    admitted: PrefixFacts,
    budget: WorkBudget,
) -> Result<DistinctCommit, Seq<char>> {
    match admit_successor(input, chunk, admitted) {
        Err(message) => Err(message),
        Ok(next) => committed(
            input,
            chunk,
            stored.value,
            DistinctActionResult::Applied(admitted_page(admitted, next)),
            admitted_page(admitted, next),
            budget,
        ),
    }
}

/// Commits one admitted prefix.
pub fn commit_apply(
    input: &InputState,
    chunk: &ChunkMeta,
    stored: &StoredContinuation,
    admitted: &PrefixFacts,
    budget: WorkBudget,
) -> (outcome: Result<DistinctCommit, String>)
    requires
        chunk.sequence < i64::MAX,
    ensures
        text::agrees(outcome, apply_commit(*input, *chunk, *stored, *admitted, budget)),
{
    let next = if admitted.queued_effects > 0 {
        Some(
            DistinctContinuation {
                input: InputPosition::new(input.stream_id, chunk.sequence, admitted.next_row)?,
                phase: DistinctPhase::Drain,
            },
        )
    } else {
        finish_input_position(input.stream_id, chunk, admitted.next_row)?
    };
    let page = AppliedPrefix {
        facts: PrimitiveFacts {
            usage: admitted.usage,
            state_rows: admitted.state_rows,
            continuation_rows: if next.is_some() {
                1
            } else {
                0
            },
            output: OutputFacts::Nothing,
        },
        occupancy: OccupancyDiff {
            touched_keys: admitted.touched_keys,
            external_effects: admitted.queued_effects,
        },
        next,
    };
    assert(page == admitted_page(*admitted, next));
    DistinctMachine.apply(stored.value, DistinctActionResult::Applied(page), budget)?;
    Ok(close(input, chunk, page))
}

/// The fields of the stored row, if it is persisted.
pub open spec fn stored_fields(stored: StoredContinuation) -> Result<
    Option<Seq<SqlModel>>,
    Seq<char>,
> {
    if stored.persisted {
        match storage::arguments_of(stored.value) {
            Ok(fields) => Ok(Some(fields)),
            Err(message) => Err(message),
        }
    } else {
        Ok(None)
    }
}

/// The fields of the next row, if there is one.
pub open spec fn next_fields(next: Option<DistinctContinuation>) -> Result<
    Option<Seq<SqlModel>>,
    Seq<char>,
> {
    match next {
        None => Ok(None),
        Some(next) => match storage::arguments_of(next) {
            Ok(fields) => Ok(Some(fields)),
            Err(message) => Err(message),
        },
    }
}

/// Plans the replacement of the authority row.
pub fn replace_continuation(
    relation: &str,
    stored: &StoredContinuation,
    next: &Option<DistinctContinuation>,
) -> (outcome: Result<Replacement, String>)
    ensures
        match (stored_fields(*stored), next_fields(*next)) {
            (Err(message), _) => outcome matches Err(error) && error@ == message,
            (Ok(_), Err(message)) => outcome matches Err(error) && error@ == message,
            (Ok(before), Ok(after)) => outcome matches Ok(replacement) && continuation::replaces(
                replacement,
                relation@,
                storage::columns(),
                before,
                after,
            ),
        },
{
    let mut before: Option<Vec<SqlValue>> = None;
    let mut after: Option<Vec<SqlValue>> = None;
    if stored.persisted {
        before = Some(continuation_arguments(stored.value)?);
    }
    if let Some(next) = next {
        after = Some(continuation_arguments(*next)?);
    }
    replace_cas(relation, &continuation_columns(), before, after, "Distinct")
}

/// Whether a relation has the columns around the keys of a key state.
pub open spec fn state_frame(attributes: Seq<Attribute>, count: int, row_type: u32) -> bool {
    attributes.len() == count + 4 && abi::is_typed(attributes[0], "group_state_id"@, INT8OID)
        && abi::is_typed(attributes[count + 1], "output_key"@, BYTEAOID) && abi::is_typed(
        attributes[count + 2],
        "output_row"@,
        row_type,
    ) && abi::is_typed(attributes[count + 3], "multiplicity"@, INT8OID)
}

/// Whether a relation is the key state of a Distinct.
pub open spec fn state_abi(attributes: Seq<Attribute>, keys: Seq<SlotType>, row_type: u32) -> Result<
    (),
    Seq<char>,
> {
    let count = keys.len() as int;
    text::both(
        text::holds(
            state_frame(attributes, count, row_type),
            "Distinct typed state relation has an invalid ABI"@,
        ),
        text::holds(
            forall|index: int|
                0 <= index < count ==> key_abi(
                    attributes[index + 1],
                    #[trigger] keys[index],
                    index,
                ),
            "Distinct typed key state changed ABI"@,
        ),
    )
}

/// Whether an attribute is the column of a key.
pub open spec fn key_abi(attribute: Attribute, key: SlotType, index: int) -> bool {
    attribute.name@ == abi::ordinal_name("key_"@, index) && stream::matches_slot(attribute, key)
}

pub fn validate_state_abi(attributes: &Vec<Attribute>, keys: &Vec<SlotType>, row_type: u32) -> (
    outcome: Result<(), String>)
    requires
        keys.len() + 4 <= usize::MAX,
    ensures
        text::agrees(outcome, state_abi(attributes@, keys@, row_type)),
{
    let count: usize = keys.len();
    if attributes.len() != count + 4 || !has_type(&attributes[0], "group_state_id", INT8OID)
        || !has_type(&attributes[count + 1], "output_key", BYTEAOID) || !has_type(
        &attributes[count + 2],
        "output_row",
        row_type,
    ) || !has_type(&attributes[count + 3], "multiplicity", INT8OID) {
        return fail("Distinct typed state relation has an invalid ABI");
    }
    let mut index: usize = 0;
    while index < count
        invariant
            index <= count == keys.len(),
            state_frame(attributes@, count as int, row_type),
            forall|k: int|
                0 <= k < index ==> key_abi(attributes@[k + 1], #[trigger] keys@[k], k),
        decreases count - index,
    {
        let attribute = &attributes[index + 1];
        if !same_text(attribute.name.as_str(), ordinal_column("key_", index).as_str())
            || !attribute_matches_slot(attribute, &keys[index]) {
            assert(!key_abi(attributes@[index + 1], keys@[index as int], index as int));
            return fail("Distinct typed key state changed ABI");
        }
        index = index + 1;
    }
    Ok(())
}

pub open spec fn bag_columns(row_type: u32) -> Seq<(&'static str, u32)> {
    seq![
        ("bag_id", INT8OID),
        ("group_state_id", INT8OID),
        ("output_key", BYTEAOID),
        ("output_row", row_type),
        ("multiplicity", INT8OID),
    ]
}

/// Checks the bag of physical representatives.
pub fn validate_bag_abi(attributes: &Vec<Attribute>, row_type: u32) -> (outcome: Result<
    (),
    String,
>)
    ensures
        text::agrees(
            outcome,
            text::holds(
                abi::exact_columns(attributes@, bag_columns(row_type)),
                "Distinct physical representative bag has an invalid ABI"@,
            ),
        ),
{
    let expected: Vec<(&'static str, u32)> = vec![
        ("bag_id", INT8OID),
        ("group_state_id", INT8OID),
        ("output_key", BYTEAOID),
        ("output_row", row_type),
        ("multiplicity", INT8OID),
    ];
    assert(expected@ =~= bag_columns(row_type));
    if !has_exact_columns(attributes, &expected) {
        return fail("Distinct physical representative bag has an invalid ABI");
    }
    Ok(())
}

pub open spec fn queue_columns(row_type: u32) -> Seq<(&'static str, u32)> {
    seq![
        ("queue_id", INT8OID),
        ("output_key", BYTEAOID),
        ("weight", INT8OID),
        ("output_row", row_type),
        ("row_bytes", INT8OID),
        ("causal_lsn", PG_LSNOID),
    ]
}

/// Checks the queue of pending effects.
pub fn validate_queue_abi(attributes: &Vec<Attribute>, row_type: u32) -> (outcome: Result<
    (),
    String,
>)
    ensures
        text::agrees(
            outcome,
            text::holds(
                abi::exact_columns(attributes@, queue_columns(row_type)),
                "Distinct pending effect queue has an invalid ABI"@,
            ),
        ),
{
    let expected: Vec<(&'static str, u32)> = vec![
        ("queue_id", INT8OID),
        ("output_key", BYTEAOID),
        ("weight", INT8OID),
        ("output_row", row_type),
        ("row_bytes", INT8OID),
        ("causal_lsn", PG_LSNOID),
    ];
    assert(expected@ =~= queue_columns(row_type));
    if !has_exact_columns(attributes, &expected) {
        return fail("Distinct pending effect queue has an invalid ABI");
    }
    Ok(())
}

pub open spec fn touched_columns() -> Seq<(&'static str, u32)> {
    seq![("group_state_id", INT8OID), ("net_weight", NUMERICOID)]
}

/// Checks the touched-key scratch relation.
pub fn validate_touched_abi(attributes: &Vec<Attribute>) -> (outcome: Result<(), String>)
    ensures
        text::agrees(
            outcome,
            text::holds(
                abi::exact_columns(attributes@, touched_columns()),
                "Distinct touched-key scratch relation has an invalid ABI"@,
            ),
        ),
{
    let expected: Vec<(&'static str, u32)> = vec![
        ("group_state_id", INT8OID),
        ("net_weight", NUMERICOID),
    ];
    assert(expected@ =~= touched_columns());
    if !has_exact_columns(attributes, &expected) {
        return fail("Distinct touched-key scratch relation has an invalid ABI");
    }
    Ok(())
}

} // verus!
