//! What a linear stage does next, from its cursor, its input and the row facts
//! that PostgreSQL returned.

use vstd::prelude::*;

use crate::execution::continuation::Attribute;
use crate::execution::contract::PrimitiveFacts;
use crate::execution::linear::machine::{
    validate_scan_continuation, BootstrapFacts, LinearKind, ScanContinuation, ScanPhase,
    TransformContinuation, TransformFacts,
};
use crate::execution::stream::{
    self, advance_past_data, advance_past_frontier, attribute_matches_slot, ChunkKind, ChunkMeta,
    InputAdvance, InputState, ProducerKind,
};
use crate::planner::{Operator, OutputSlot, ScanColumn};
use crate::postgres::{self, quote_identifier};
use crate::sql::INT8OID;
use crate::text::{self, fail, join, same_text, signed_text, unsigned_text};

verus! {

/// The linear kind of a stage operator.
pub open spec fn kind_of(operator: Operator) -> Result<LinearKind, Seq<char>> {
    match operator {
        Operator::Scan => Ok(LinearKind::Scan),
        Operator::Filter => Ok(LinearKind::Filter),
        Operator::Project => Ok(LinearKind::Project),
        _ => Err("linear kernel received a stateful or Sink stage"@),
    }
}

/// Whether the inputs of a stage are those of its kind: a Scan reads one
/// source, a Filter or Project one operator.
pub open spec fn inputs_sound(kind: LinearKind, inputs: Seq<InputState>) -> Result<(), Seq<char>> {
    text::both(
        text::holds(
            inputs.len() == 1 && inputs[0].port == 0,
            "linear stage must have exactly one input"@,
        ),
        text::holds(
            (kind is Scan) == (inputs[0].producer is Source),
            "linear stage input producer does not match its operator"@,
        ),
    )
}

/// Checks the operator and inputs of a stage before it steps.
pub fn linear_kind(operator: Operator, inputs: &Vec<InputState>) -> (outcome: Result<
    LinearKind,
    String,
>)
    ensures
        text::agrees(
            outcome,
            match kind_of(operator) {
                Err(message) => Err(message),
                Ok(kind) => text::guarded(inputs_sound(kind, inputs@), kind),
            },
        ),
{
    let kind = match operator {
        Operator::Scan => LinearKind::Scan,
        Operator::Filter => LinearKind::Filter,
        Operator::Project => LinearKind::Project,
        _ => {
            return fail("linear kernel received a stateful or Sink stage");
        },
    };
    if inputs.len() != 1 || inputs[0].port != 0 {
        return fail("linear stage must have exactly one input");
    }
    match (kind, inputs[0].producer) {
        (LinearKind::Scan, ProducerKind::Source) => {},
        (LinearKind::Filter, ProducerKind::Operator) => {},
        (LinearKind::Project, ProducerKind::Operator) => {},
        _ => {
            return fail("linear stage input producer does not match its operator");
        },
    }
    Ok(kind)
}

/// What a Scan does next.
#[derive(Clone, Copy, Debug, PartialEq, Eq, Structural)]
pub enum ScanAction {
    /// Move one page of the initial snapshot.
    Bootstrap { next_sequence: i64 },
    /// Forward the frontier of the initial snapshot.
    SnapshotFrontier,
    /// Forward a frontier of the source.
    SourceFrontier { frontier: u64 },
    /// Read the chunk at the input cursor from a row on.
    ReadChunk { row_ordinal: i64 },
}

/// Whether a Scan may run on its input and stored cursor.
pub open spec fn scan_admissible(
    input: InputState,
    source_oid: u32,
    continuation: Option<ScanContinuation>,
) -> Result<(), Seq<char>> {
    text::both(
        text::holds(
            input.source_oid == Some(source_oid),
            "Scan source OID does not match its source stream"@,
        ),
        match continuation {
            None => Ok(()),
            Some(continuation) => text::both(
                text::holds(
                    continuation.input_stream_id == input.stream_id,
                    "Scan continuation references another input stream"@,
                ),
                continuation.sound(),
            ),
        },
    )
}

/// The action that a sound stored cursor stands for.
pub open spec fn scan_action(continuation: Option<ScanContinuation>) -> ScanAction {
    match continuation {
        None => ScanAction::ReadChunk { row_ordinal: 0 },
        Some(continuation) => match continuation.phase {
            ScanPhase::Bootstrap => ScanAction::Bootstrap {
                next_sequence: continuation.next_bootstrap_seq->0,
            },
            ScanPhase::SnapshotFrontier => ScanAction::SnapshotFrontier,
            ScanPhase::SourceFrontier => ScanAction::SourceFrontier {
                frontier: continuation.pending_frontier_lsn->0,
            },
            ScanPhase::Data => ScanAction::ReadChunk {
                row_ordinal: continuation.next_row_ordinal->0,
            },
        },
    }
}

pub fn plan_scan(
    input: &InputState,
    source_oid: u32,
    continuation: &Option<ScanContinuation>,
) -> (outcome: Result<ScanAction, String>)
    ensures
        text::agrees(
            outcome,
            text::guarded(
                scan_admissible(*input, source_oid, *continuation),
                scan_action(*continuation),
            ),
        ),
{
    if input.source_oid != Some(source_oid) {
        return fail("Scan source OID does not match its source stream");
    }
    match continuation {
        None => Ok(ScanAction::ReadChunk { row_ordinal: 0 }),
        Some(continuation) => {
            if continuation.input_stream_id != input.stream_id {
                return fail("Scan continuation references another input stream");
            }
            validate_scan_continuation(continuation)?;
            Ok(
                match continuation.phase {
                    ScanPhase::Bootstrap => ScanAction::Bootstrap {
                        next_sequence: continuation.next_bootstrap_seq.unwrap(),
                    },
                    ScanPhase::SnapshotFrontier => ScanAction::SnapshotFrontier,
                    ScanPhase::SourceFrontier => ScanAction::SourceFrontier {
                        frontier: continuation.pending_frontier_lsn.unwrap(),
                    },
                    ScanPhase::Data => ScanAction::ReadChunk {
                        row_ordinal: continuation.next_row_ordinal.unwrap(),
                    },
                },
            )
        },
    }
}

/// Whether the chunk at the input cursor of a Scan is the one to transform.
/// `false` means that there is none and the published frontier is next.
pub open spec fn scan_chunk(
    continuation: Option<ScanContinuation>,
    chunk: Option<ChunkMeta>,
) -> Result<bool, Seq<char>> {
    match chunk {
        None => text::guarded(
            text::holds(
                continuation is None,
                "Scan continuation references a missing input chunk"@,
            ),
            false,
        ),
        Some(chunk) => text::guarded(
            text::both(
                text::holds(chunk.kind is Data, "source stream contains a frontier chunk"@),
                text::holds(
                    continuation matches Some(continuation) ==> continuation.input_chunk_seq
                        == Some(chunk.sequence),
                    "Scan continuation is not at its input cursor"@,
                ),
            ),
            true,
        ),
    }
}

pub fn plan_scan_chunk(
    continuation: &Option<ScanContinuation>,
    chunk: &Option<ChunkMeta>,
) -> (outcome: Result<bool, String>)
    ensures
        text::agrees(outcome, scan_chunk(*continuation, *chunk)),
{
    match chunk {
        None => {
            if continuation.is_some() {
                return fail("Scan continuation references a missing input chunk");
            }
            Ok(false)
        },
        Some(chunk) => {
            if chunk.kind != ChunkKind::Data {
                return fail("source stream contains a frontier chunk");
            }
            if let Some(continuation) = continuation {
                if continuation.input_chunk_seq != Some(chunk.sequence) {
                    return fail("Scan continuation is not at its input cursor");
                }
            }
            Ok(true)
        },
    }
}

/// What a Filter or Project does next.
#[derive(Clone, Copy, Debug, PartialEq, Eq, Structural)]
pub enum TransformAction {
    /// Forward the frontier chunk and move the cursor past it.
    Frontier { lsn: u64, advance: InputAdvance },
    /// Transform the data chunk from a row on.
    Data { row_ordinal: i64 },
}

/// The row that a stored cursor resumes at.
pub open spec fn resumed_row(continuation: Option<TransformContinuation>) -> i64 {
    match continuation {
        Some(continuation) => continuation.next_row_ordinal,
        None => 0,
    }
}

pub open spec fn transform_action(
    stream_id: i64,
    continuation: Option<TransformContinuation>,
    chunk: Option<ChunkMeta>,
) -> Result<TransformAction, Seq<char>> {
    let row_ordinal = resumed_row(continuation);
    text::guarded(
        text::both(
            text::four(
                text::holds(
                    continuation matches Some(state) ==> state.input_stream_id == stream_id,
                    "linear continuation references another input stream"@,
                ),
                text::holds(chunk is Some, "runnable linear stage has no input chunk"@),
                text::holds(
                    continuation matches Some(state) ==> state.input_chunk_seq
                        == chunk->0.sequence,
                    "linear continuation is not at its input cursor"@,
                ),
                text::holds(row_ordinal >= 0, "linear continuation has a negative row ordinal"@),
            ),
            text::holds(
                chunk->0.kind is Frontier ==> row_ordinal == 0,
                "frontier continuation has a row offset"@,
            ),
        ),
        match chunk->0.kind {
            ChunkKind::Frontier => TransformAction::Frontier {
                lsn: chunk->0.lsn,
                advance: InputAdvance::past_frontier(chunk->0),
            },
            ChunkKind::Data => TransformAction::Data { row_ordinal },
        },
    )
}

pub fn plan_transform(
    stream_id: i64,
    continuation: &Option<TransformContinuation>,
    chunk: &Option<ChunkMeta>,
) -> (outcome: Result<TransformAction, String>)
    requires
        chunk matches Some(chunk) ==> chunk.sequence < i64::MAX,
    ensures
        text::agrees(outcome, transform_action(stream_id, *continuation, *chunk)),
{
    if let Some(state) = continuation {
        if state.input_stream_id != stream_id {
            return fail("linear continuation references another input stream");
        }
    }
    let chunk = match chunk {
        Some(chunk) => *chunk,
        None => {
            return fail("runnable linear stage has no input chunk");
        },
    };
    let mut row_ordinal: i64 = 0;
    if let Some(state) = continuation {
        if state.input_chunk_seq != chunk.sequence {
            return fail("linear continuation is not at its input cursor");
        }
        row_ordinal = state.next_row_ordinal;
    }
    if row_ordinal < 0 {
        return fail("linear continuation has a negative row ordinal");
    }
    match chunk.kind {
        ChunkKind::Frontier => {
            if row_ordinal != 0 {
                return fail("frontier continuation has a row offset");
            }
            Ok(
                TransformAction::Frontier {
                    lsn: chunk.lsn,
                    advance: advance_past_frontier(&chunk),
                },
            )
        },
        ChunkKind::Data => Ok(TransformAction::Data { row_ordinal }),
    }
}

/// Whether a relation is a bootstrap relation of the output row type.
pub open spec fn bootstrap_abi(attributes: Seq<Attribute>, row_type_oid: u32) -> Result<
    (),
    Seq<char>,
> {
    text::both(
        text::holds(
            attributes.len() == 2 && attributes[0].name@ == "bootstrap_seq"@
                && attributes[0].type_oid == INT8OID && attributes[0].not_null
                && attributes[1].name@ == "row_value"@ && attributes[1].not_null,
            "Scan bootstrap relation changed its ABI"@,
        ),
        text::holds(
            attributes[1].type_oid == row_type_oid,
            "Scan bootstrap row type changed identity"@,
        ),
    )
}

pub fn validate_bootstrap_abi(attributes: &Vec<Attribute>, row_type_oid: u32) -> (outcome: Result<
    (),
    String,
>)
    ensures
        text::agrees(outcome, bootstrap_abi(attributes@, row_type_oid)),
{
    if attributes.len() != 2 || !same_text(attributes[0].name.as_str(), "bootstrap_seq")
        || attributes[0].type_oid != INT8OID || !attributes[0].not_null || !same_text(
        attributes[1].name.as_str(),
        "row_value",
    ) || !attributes[1].not_null {
        return fail("Scan bootstrap relation changed its ABI");
    }
    if attributes[1].type_oid != row_type_oid {
        return fail("Scan bootstrap row type changed identity");
    }
    Ok(())
}

/// Where the rows behind a bootstrap page start, or `None` when the snapshot
/// held no row at the cursor at all.
pub open spec fn bootstrap_end(next_sequence: i64, facts: BootstrapFacts) -> Result<
    Option<i64>,
    Seq<char>,
> {
    match (facts.first_sequence, facts.last_sequence) {
        (None, None) => text::guarded(
            text::holds(
                facts.usage.input_rows == 0,
                "Scan bootstrap primitive returned an invalid cursor"@,
            ),
            None,
        ),
        (Some(first), Some(last)) => if first == next_sequence && facts.usage.input_rows
            > i64::MAX {
            Err("resource count exceeds bigint"@)
        } else {
            text::guarded(
                text::holds(
                    first == next_sequence && last == next_sequence + facts.usage.input_rows - 1,
                    "Scan bootstrap primitive returned an invalid cursor"@,
                ),
                Some((last + 1) as i64),
            )
        },
        _ => Err("Scan bootstrap primitive returned an invalid cursor"@),
    }
}

pub fn after_bootstrap(next_sequence: i64, facts: &BootstrapFacts) -> (outcome: Result<
    Option<i64>,
    String,
>)
    requires
        facts.last_sequence != Some(i64::MAX),
    ensures
        text::agrees(outcome, bootstrap_end(next_sequence, *facts)),
{
    match (facts.first_sequence, facts.last_sequence) {
        (None, None) => {
            if facts.usage.input_rows != 0 {
                return fail("Scan bootstrap primitive returned an invalid cursor");
            }
            Ok(None)
        },
        (Some(first), Some(last)) => {
            if first == next_sequence && facts.usage.input_rows > i64::MAX as u64 {
                return fail("resource count exceeds bigint");
            }
            if first != next_sequence || last as i128 != next_sequence as i128
                + facts.usage.input_rows as i128 - 1 {
                return fail("Scan bootstrap primitive returned an invalid cursor");
            }
            Ok(Some(last + 1))
        },
        _ => fail("Scan bootstrap primitive returned an invalid cursor"),
    }
}

/// The cursor behind a bootstrap page: the next row, which must follow without
/// a gap, or the frontier of the completed snapshot.
pub open spec fn bootstrap_successor(
    continuation: ScanContinuation,
    end: Option<i64>,
    remaining: Option<i64>,
    activation_lsn: u64,
) -> Result<ScanContinuation, Seq<char>> {
    match (end, remaining) {
        (Some(end), Some(remaining)) => text::guarded(
            text::holds(remaining == end, "Scan bootstrap relation has a sequence gap"@),
            ScanContinuation { next_bootstrap_seq: Some(remaining), ..continuation },
        ),
        _ => Ok(
            ScanContinuation::frontier(
                ScanPhase::SnapshotFrontier,
                continuation.input_stream_id,
                activation_lsn,
            ),
        ),
    }
}

/// Chooses the cursor behind a bootstrap page. `remaining` is the first row
/// that is left at or behind `end`; it is not read when `end` is `None`.
pub fn next_bootstrap(
    continuation: &ScanContinuation,
    end: Option<i64>,
    remaining: Option<i64>,
    activation_lsn: u64,
) -> (outcome: Result<ScanContinuation, String>)
    ensures
        text::agrees(
            outcome,
            bootstrap_successor(*continuation, end, remaining, activation_lsn),
        ),
{
    match (end, remaining) {
        (Some(end), Some(remaining)) => {
            if remaining != end {
                return fail("Scan bootstrap relation has a sequence gap");
            }
            Ok(
                ScanContinuation {
                    phase: continuation.phase,
                    input_stream_id: continuation.input_stream_id,
                    input_chunk_seq: continuation.input_chunk_seq,
                    next_row_ordinal: continuation.next_row_ordinal,
                    next_bootstrap_seq: Some(remaining),
                    pending_frontier_lsn: continuation.pending_frontier_lsn,
                },
            )
        },
        _ => Ok(
            ScanContinuation::at_frontier(
                ScanPhase::SnapshotFrontier,
                continuation.input_stream_id,
                activation_lsn,
            ),
        ),
    }
}

/// The facts of a page of the initial snapshot.
pub open spec fn bootstrap_primitive(facts: BootstrapFacts) -> PrimitiveFacts {
    PrimitiveFacts {
        usage: facts.usage,
        state_rows: facts.usage.input_rows,
        continuation_rows: 1,
        output: facts.output,
    }
}

/// The facts that a bootstrap page reports: each moved row is one state row.
pub fn bootstrap_facts(facts: &BootstrapFacts) -> (primitive: PrimitiveFacts)
    ensures
        primitive == bootstrap_primitive(*facts),
{
    PrimitiveFacts {
        usage: facts.usage,
        state_rows: facts.usage.input_rows,
        continuation_rows: 1,
        output: facts.output,
    }
}

/// The snapshot frontier to forward: the activation boundary, before anything
/// else of the source was consumed.
pub open spec fn snapshot_boundary(continuation: ScanContinuation, input: InputState) -> Result<
    u64,
    Seq<char>,
> {
    match continuation.pending_frontier_lsn {
        None => Err("Scan snapshot frontier omitted its LSN"@),
        Some(frontier) => text::guarded(
            text::holds(
                frontier == input.activation_lsn && input.consumed_frontier_lsn
                    == input.activation_lsn,
                "Scan snapshot frontier does not match its activation boundary"@,
            ),
            frontier,
        ),
    }
}

pub fn snapshot_frontier(continuation: &ScanContinuation, input: &InputState) -> (outcome: Result<
    u64,
    String,
>)
    ensures
        text::agrees(outcome, snapshot_boundary(*continuation, *input)),
{
    match continuation.pending_frontier_lsn {
        None => fail("Scan snapshot frontier omitted its LSN"),
        Some(frontier) => {
            if frontier != input.activation_lsn || input.consumed_frontier_lsn
                != input.activation_lsn {
                return fail("Scan snapshot frontier does not match its activation boundary");
            }
            Ok(frontier)
        },
    }
}

/// A published source frontier that the stage has not consumed yet.
pub open spec fn unconsumed_frontier(input: InputState) -> Option<u64> {
    match input.available_source_frontier_lsn {
        Some(frontier) => if frontier > input.consumed_frontier_lsn {
            Some(frontier)
        } else {
            None
        },
        None => None,
    }
}

pub fn pending_source_frontier(input: &InputState) -> (frontier: Option<u64>)
    ensures
        frontier == unconsumed_frontier(*input),
{
    match input.available_source_frontier_lsn {
        Some(frontier) => {
            if frontier > input.consumed_frontier_lsn {
                Some(frontier)
            } else {
                None
            }
        },
        None => None,
    }
}

/// The frontier of the source that is not consumed yet.
pub open spec fn available_frontier(input: InputState) -> Result<u64, Seq<char>> {
    match unconsumed_frontier(input) {
        Some(frontier) => Ok(frontier),
        None => Err("runnable Scan has neither a chunk nor a source frontier"@),
    }
}

/// The frontier to forward when the source has no further chunk.
pub fn available_source_frontier(input: &InputState) -> (outcome: Result<u64, String>)
    ensures
        text::agrees(outcome, available_frontier(*input)),
{
    match pending_source_frontier(input) {
        Some(frontier) => Ok(frontier),
        None => fail("runnable Scan has neither a chunk nor a source frontier"),
    }
}

/// A stored frontier lies ahead of the consumer and is published.
pub open spec fn frontier_published(input: InputState, frontier: u64) -> Result<(), Seq<char>> {
    text::holds(
        frontier > input.consumed_frontier_lsn && (input.available_source_frontier_lsn
            matches Some(available) && frontier <= available),
        "Scan frontier continuation is outside the published frontier"@,
    )
}

/// Checks that a stored frontier lies ahead of the cursor and was published.
pub fn validate_scan_frontier(input: &InputState, frontier: u64) -> (outcome: Result<(), String>)
    ensures
        text::agrees(outcome, frontier_published(*input, frontier)),
{
    let published = match input.available_source_frontier_lsn {
        Some(available) => frontier <= available,
        None => false,
    };
    if frontier <= input.consumed_frontier_lsn || !published {
        return fail("Scan frontier continuation is outside the published frontier");
    }
    Ok(())
}

/// A cursor that passed a frontier and no chunk.
pub open spec fn advanced_frontier(input: InputState, frontier: u64) -> InputAdvance {
    InputAdvance {
        next_chunk_seq: input.next_chunk_seq,
        frontier_lsn: frontier,
        usage: crate::planner::no_usage(),
    }
}

/// The cursor behind a forwarded source frontier: the chunk cursor stays.
pub fn frontier_advance(input: &InputState, frontier: u64) -> (advance: InputAdvance)
    ensures
        advance == advanced_frontier(*input, frontier),
{
    InputAdvance {
        next_chunk_seq: input.next_chunk_seq,
        frontier_lsn: frontier,
        usage: crate::planner::WorkUsage::default(),
    }
}

/// The frontier that may follow a completed chunk: none while the next chunk
/// lies at or before it.
pub open spec fn frontier_behind(input: InputState, next_chunk_lsn: Option<u64>) -> Option<u64> {
    match (unconsumed_frontier(input), next_chunk_lsn) {
        (Some(frontier), Some(next)) => if next > frontier {
            Some(frontier)
        } else {
            None
        },
        (frontier, None) => frontier,
        (None, _) => None,
    }
}

pub fn source_frontier_after_chunk(input: &InputState, next_chunk_lsn: Option<u64>) -> (frontier:
    Option<u64>)
    ensures
        frontier == frontier_behind(*input, next_chunk_lsn),
{
    match (pending_source_frontier(input), next_chunk_lsn) {
        (Some(frontier), Some(next)) => {
            if next > frontier {
                Some(frontier)
            } else {
                None
            }
        },
        (frontier, None) => frontier,
        (None, _) => None,
    }
}

/// Whether a row cursor may transform a chunk.
pub open spec fn data_cursor(input: InputState, chunk: ChunkMeta, row_ordinal: i64) -> Result<
    (),
    Seq<char>,
> {
    text::both(
        text::holds(
            0 <= row_ordinal < chunk.rows,
            "linear continuation row is outside its input chunk"@,
        ),
        text::holds(
            chunk.sequence == input.next_chunk_seq,
            "linear chunk is not at the consumer cursor"@,
        ),
    )
}

pub fn validate_data_cursor(input: &InputState, chunk: &ChunkMeta, row_ordinal: i64) -> (outcome:
    Result<(), String>)
    ensures
        text::agrees(outcome, data_cursor(*input, *chunk, row_ordinal)),
{
    if row_ordinal < 0 || row_ordinal as u64 >= chunk.rows {
        return fail("linear continuation row is outside its input chunk");
    }
    if chunk.sequence != input.next_chunk_seq {
        return fail("linear chunk is not at the consumer cursor");
    }
    Ok(())
}

/// A Scan passes over changes that its initial snapshot already holds.
pub fn emits_rows(kind: LinearKind, chunk: &ChunkMeta, input: &InputState) -> (emits: bool)
    ensures
        emits == (!(kind is Scan) || chunk.lsn > input.activation_lsn),
{
    kind != LinearKind::Scan || chunk.lsn > input.activation_lsn
}

/// The cursor behind a transformed prefix.
#[derive(Clone, Copy, Debug, PartialEq, Eq, Structural)]
pub enum TransformNext {
    /// More rows of the chunk are left, from this one on.
    Row { next_row: i64 },
    /// The chunk is complete and the consumer moves past it.
    Chunk { advance: InputAdvance },
}

pub open spec fn transform_next(
    input: InputState,
    chunk: ChunkMeta,
    row_ordinal: i64,
    facts: TransformFacts,
) -> Result<TransformNext, Seq<char>> {
    let next_row = facts.last_ordinal + 1;
    text::guarded(
        text::four(
            text::holds(
                facts.first_ordinal == row_ordinal,
                "linear primitive did not start at its continuation"@,
            ),
            text::holds(
                facts.last_ordinal < i64::MAX,
                "linear row ordinal space exhausted"@,
            ),
            text::holds(chunk.rows <= i64::MAX, "resource count exceeds bigint"@),
            text::holds(
                next_row <= chunk.rows,
                "linear primitive advanced beyond its input chunk"@,
            ),
        ),
        if next_row < chunk.rows {
            TransformNext::Row { next_row: next_row as i64 }
        } else {
            TransformNext::Chunk {
                advance: InputAdvance::past_data(chunk, input.consumed_frontier_lsn),
            }
        },
    )
}

/// Decides from the facts of a transform where its cursor stands.
pub fn after_transform(
    input: &InputState,
    chunk: &ChunkMeta,
    row_ordinal: i64,
    facts: &TransformFacts,
) -> (outcome: Result<TransformNext, String>)
    requires
        chunk.sequence < i64::MAX,
    ensures
        text::agrees(outcome, transform_next(*input, *chunk, row_ordinal, *facts)),
{
    if facts.first_ordinal != row_ordinal {
        return fail("linear primitive did not start at its continuation");
    }
    if facts.last_ordinal == i64::MAX {
        return fail("linear row ordinal space exhausted");
    }
    let next_row: i64 = facts.last_ordinal + 1;
    if chunk.rows > i64::MAX as u64 {
        return fail("resource count exceeds bigint");
    }
    let chunk_rows: i64 = chunk.rows as i64;
    if next_row < chunk_rows {
        Ok(TransformNext::Row { next_row })
    } else if next_row == chunk_rows {
        Ok(TransformNext::Chunk { advance: advance_past_data(chunk, input.consumed_frontier_lsn) })
    } else {
        fail("linear primitive advanced beyond its input chunk")
    }
}

/// The Scan cursors around an unfinished chunk: the one that was stored, if
/// any was, and its successor.
pub fn scan_row_cursors(
    input: &InputState,
    chunk: &ChunkMeta,
    row_ordinal: i64,
    next_row: i64,
    had_continuation: bool,
) -> (cursors: (Option<ScanContinuation>, ScanContinuation))
    ensures
        cursors.0 == (if had_continuation {
            Some(ScanContinuation::data(input.stream_id, chunk.sequence, row_ordinal))
        } else {
            None
        }),
        cursors.1 == ScanContinuation::data(input.stream_id, chunk.sequence, next_row),
{
    let previous = if had_continuation {
        Some(ScanContinuation::at_row(input.stream_id, chunk.sequence, row_ordinal))
    } else {
        None
    };
    (previous, ScanContinuation::at_row(input.stream_id, chunk.sequence, next_row))
}

/// The Filter or Project cursors around an unfinished chunk.
pub fn transform_row_cursors(
    input: &InputState,
    chunk: &ChunkMeta,
    row_ordinal: i64,
    next_row: i64,
    had_continuation: bool,
) -> (cursors: (Option<TransformContinuation>, TransformContinuation))
    ensures
        cursors.0 == (if had_continuation {
            Some(
                TransformContinuation {
                    input_stream_id: input.stream_id,
                    input_chunk_seq: chunk.sequence,
                    next_row_ordinal: row_ordinal,
                },
            )
        } else {
            None
        }),
        cursors.1 == (TransformContinuation {
            input_stream_id: input.stream_id,
            input_chunk_seq: chunk.sequence,
            next_row_ordinal: next_row,
        }),
{
    let previous = if had_continuation {
        Some(
            TransformContinuation {
                input_stream_id: input.stream_id,
                input_chunk_seq: chunk.sequence,
                next_row_ordinal: row_ordinal,
            },
        )
    } else {
        None
    };
    let next = TransformContinuation {
        input_stream_id: input.stream_id,
        input_chunk_seq: chunk.sequence,
        next_row_ordinal: next_row,
    };
    (previous, next)
}

/// The cursor that waits to forward a frontier.
pub open spec fn frontier_cursor(input: InputState, frontier: Option<u64>) -> Option<ScanContinuation> {
    match frontier {
        Some(frontier) => Some(
            ScanContinuation::frontier(ScanPhase::SourceFrontier, input.stream_id, frontier),
        ),
        None => None,
    }
}

/// The cursor of a Scan behind a completed chunk: a frontier that may follow
/// it, or none.
pub fn scan_after_chunk(input: &InputState, frontier: Option<u64>) -> (next: Option<
    ScanContinuation,
>)
    ensures
        next == frontier_cursor(*input, frontier),
{
    match frontier {
        Some(frontier) => Some(
            ScanContinuation::at_frontier(ScanPhase::SourceFrontier, input.stream_id, frontier),
        ),
        None => None,
    }
}

/// The facts of a transform.
pub open spec fn transform_primitive(facts: TransformFacts, has_continuation: bool) -> PrimitiveFacts {
    PrimitiveFacts {
        usage: facts.usage,
        state_rows: 0,
        continuation_rows: if has_continuation {
            1
        } else {
            0
        },
        output: facts.output,
    }
}

/// The facts that a transform reports, with the continuation row it leaves.
pub fn transform_facts(facts: &TransformFacts, has_continuation: bool) -> (primitive:
    PrimitiveFacts)
    ensures
        primitive == transform_primitive(*facts, has_continuation),
{
    PrimitiveFacts {
        usage: facts.usage,
        state_rows: 0,
        continuation_rows: if has_continuation {
            1
        } else {
            0
        },
        output: facts.output,
    }
}

/// Whether the row type of a source stream is still that of its table.
pub open spec fn same_attributes(source: Seq<Attribute>, input: Seq<Attribute>) -> bool {
    &&& source.len() == input.len()
    &&& forall|index: int|
        0 <= index < source.len() ==> {
            &&& (#[trigger] source[index]).name@ == input[index].name@
            &&& source[index].type_oid == input[index].type_oid
            &&& source[index].typmod == input[index].typmod
            &&& source[index].collation_oid == input[index].collation_oid
        }
}

/// Checks the row type of a source stream against its table.
pub fn validate_source_attributes(source: &Vec<Attribute>, input: &Vec<Attribute>) -> (outcome:
    Result<(), String>)
    ensures
        text::agrees(
            outcome,
            text::holds(
                same_attributes(source@, input@),
                "source stream row type no longer matches its table"@,
            ),
        ),
{
    if source.len() != input.len() {
        return fail("source stream row type no longer matches its table");
    }
    let mut index: usize = 0;
    while index < source.len()
        invariant
            source.len() == input.len(),
            index <= source.len(),
            forall|k: int|
                0 <= k < index ==> {
                    &&& (#[trigger] source@[k]).name@ == input@[k].name@
                    &&& source@[k].type_oid == input@[k].type_oid
                    &&& source@[k].typmod == input@[k].typmod
                    &&& source@[k].collation_oid == input@[k].collation_oid
                },
        decreases source.len() - index,
    {
        let left = &source[index];
        let right = &input[index];
        if !same_text(left.name.as_str(), right.name.as_str()) || left.type_oid != right.type_oid
            || left.typmod != right.typmod || left.collation_oid != right.collation_oid {
            assert(!same_attributes(source@, input@)) by {
                assert(source@[index as int].name@ == left.name@);
            }
            return fail("source stream row type no longer matches its table");
        }
        index = index + 1;
    }
    Ok(())
}

/// The first column that fills a slot.
pub open spec fn column_of(columns: Seq<ScanColumn>, slot: u32) -> Option<ScanColumn>
    decreases columns.len(),
{
    if columns.len() == 0 {
        None
    } else if columns[0].output == slot {
        Some(columns[0])
    } else {
        column_of(columns.drop_first(), slot)
    }
}

/// The first attribute with a number.
pub open spec fn attribute_of(attributes: Seq<Attribute>, number: i16) -> Option<Attribute>
    decreases attributes.len(),
{
    if attributes.len() == 0 {
        None
    } else if attributes[0].number == number {
        Some(attributes[0])
    } else {
        attribute_of(attributes.drop_first(), number)
    }
}

fn find_column(columns: &Vec<ScanColumn>, slot: u32) -> (found: Option<ScanColumn>)
    ensures
        found == column_of(columns@, slot),
{
    let mut index: usize = 0;
    assert(columns@.skip(0) =~= columns@);
    while index < columns.len()
        invariant
            index <= columns.len(),
            column_of(columns@, slot) == column_of(columns@.skip(index as int), slot),
        decreases columns.len() - index,
    {
        if columns[index].output == slot {
            return Some(columns[index]);
        }
        assert(columns@.skip(index as int).drop_first() =~= columns@.skip(index + 1));
        index = index + 1;
    }
    None
}

fn find_attribute(attributes: &Vec<Attribute>, number: i16) -> (found: Option<&Attribute>)
    ensures
        match found {
            Some(found) => attribute_of(attributes@, number) == Some(*found),
            None => attribute_of(attributes@, number) is None,
        },
{
    let mut index: usize = 0;
    assert(attributes@.skip(0) =~= attributes@);
    while index < attributes.len()
        invariant
            index <= attributes.len(),
            attribute_of(attributes@, number) == attribute_of(
                attributes@.skip(index as int),
                number,
            ),
        decreases attributes.len() - index,
    {
        if attributes[index].number == number {
            return Some(&attributes[index]);
        }
        assert(attributes@.skip(index as int).drop_first() =~= attributes@.skip(index + 1));
        index = index + 1;
    }
    None
}

/// Whether a slot stands among the outputs before a position.
pub open spec fn slot_before(outputs: Seq<OutputSlot>, index: int) -> bool {
    exists|earlier: int| 0 <= earlier < index && (#[trigger] outputs[earlier]).slot
        == outputs[index].slot
}

/// The expression of one output slot of a Scan.
pub open spec fn scan_expression(
    source: Seq<Attribute>,
    columns: Seq<ScanColumn>,
    outputs: Seq<OutputSlot>,
    index: int,
) -> Result<Seq<char>, Seq<char>> {
    let output = outputs[index];
    let slot = "Scan output slot "@ + text::decimal(output.slot as int);
    match column_of(columns, output.slot) {
        None => Err(slot + " has no source column"@),
        Some(column) => if slot_before(outputs, index) {
            Err(slot + " is duplicated"@)
        } else {
            match attribute_of(source, column.attnum) {
                None => Err(
                    "Scan source attribute "@ + text::decimal(column.attnum as int)
                        + " no longer exists"@,
                ),
                Some(attribute) => if !stream::matches_slot(attribute, output.type_) {
                    Err(slot + " changed PostgreSQL type"@)
                } else {
                    Ok("(input_row.row_value)."@ + postgres::quoted(attribute.name@))
                },
            }
        },
    }
}

/// The outcome of each output slot of a Scan, in order.
pub open spec fn scan_checks(
    source: Seq<Attribute>,
    columns: Seq<ScanColumn>,
    outputs: Seq<OutputSlot>,
) -> Seq<Result<(), Seq<char>>> {
    Seq::new(
        outputs.len(),
        |index: int| text::checked(scan_expression(source, columns, outputs, index)),
    )
}

/// The select list of a Scan: one source column per output slot.
pub open spec fn scan_list(
    source: Seq<Attribute>,
    columns: Seq<ScanColumn>,
    outputs: Seq<OutputSlot>,
) -> Result<Seq<char>, Seq<char>> {
    text::guarded(
        text::all_hold(scan_checks(source, columns, outputs)),
        text::joined(
            Seq::new(
                outputs.len(),
                |index: int| scan_expression(source, columns, outputs, index)->Ok_0,
            ),
            ", "@,
        ),
    )
}

fn slot_message(slot: u32, rest: &str) -> (message: String)
    ensures
        message@ == "Scan output slot "@ + text::decimal(slot as int) + rest@,
{
    let mut message = "Scan output slot ".to_owned();
    message.append(unsigned_text(slot as u64).as_str());
    message.append(rest);
    message
}

fn seen_before(outputs: &Vec<OutputSlot>, index: usize) -> (seen: bool)
    requires
        index < outputs.len(),
    ensures
        seen == slot_before(outputs@, index as int),
{
    let mut earlier: usize = 0;
    while earlier < index
        invariant
            earlier <= index < outputs.len(),
            forall|k: int| 0 <= k < earlier ==> (#[trigger] outputs@[k]).slot
                != outputs@[index as int].slot,
        decreases index - earlier,
    {
        if outputs[earlier].slot == outputs[index].slot {
            return true;
        }
        earlier = earlier + 1;
    }
    false
}

fn scan_output(
    source: &Vec<Attribute>,
    columns: &Vec<ScanColumn>,
    outputs: &Vec<OutputSlot>,
    index: usize,
) -> (outcome: Result<String, String>)
    requires
        index < outputs.len(),
    ensures
        text::agrees_view(outcome, scan_expression(source@, columns@, outputs@, index as int)),
{
    let output = outputs[index];
    let column = match find_column(columns, output.slot) {
        Some(column) => column,
        None => {
            return Err(slot_message(output.slot, " has no source column"));
        },
    };
    if seen_before(outputs, index) {
        return Err(slot_message(output.slot, " is duplicated"));
    }
    let attribute = match find_attribute(source, column.attnum) {
        Some(attribute) => attribute,
        None => {
            let mut message = "Scan source attribute ".to_owned();
            message.append(signed_text(column.attnum as i64).as_str());
            message.append(" no longer exists");
            return Err(message);
        },
    };
    if !attribute_matches_slot(attribute, &output.type_) {
        return Err(slot_message(output.slot, " changed PostgreSQL type"));
    }
    Ok(
        "(input_row.row_value).".to_owned().concat(
            quote_identifier(attribute.name.as_str()).as_str(),
        ),
    )
}

/// Compiles the select list of a Scan. Every output slot must be filled once,
/// by a source attribute of exactly its type.
pub fn compile_scan(
    source: &Vec<Attribute>,
    columns: &Vec<ScanColumn>,
    outputs: &Vec<OutputSlot>,
) -> (outcome: Result<String, String>)
    ensures
        text::agrees_view(outcome, scan_list(source@, columns@, outputs@)),
{
    let ghost checks = scan_checks(source@, columns@, outputs@);
    let mut expressions: Vec<String> = Vec::new();
    let mut index: usize = 0;
    assert(checks.take(0) =~= Seq::empty());
    while index < outputs.len()
        invariant
            index <= outputs.len(),
            expressions.len() == index,
            checks == scan_checks(source@, columns@, outputs@),
            text::all_hold(checks.take(index as int)) is Ok,
            forall|k: int|
                0 <= k < index ==> #[trigger] expressions@[k]@ == scan_expression(
                    source@,
                    columns@,
                    outputs@,
                    k,
                )->Ok_0,
        decreases outputs.len() - index,
    {
        proof {
            text::next_check_decides(checks, index as int);
        }
        let expression = scan_output(source, columns, outputs, index)?;
        expressions.push(expression);
        index = index + 1;
    }
    proof {
        assert(checks.take(outputs.len() as int) =~= checks);
        assert(text::texts(expressions@) =~= Seq::new(
            outputs@.len(),
            |index: int| scan_expression(source@, columns@, outputs@, index)->Ok_0,
        ));
    }
    Ok(join(&expressions, ", "))
}

/// A predicate and a select list.
#[derive(Clone, Debug, PartialEq, Eq)]
pub struct Transform {
    pub predicate: String,
    pub expressions: String,
}

/// Assembles the transform of a Filter or Project from its compiled output
/// expressions; a Project, and a Scan, let every row pass.
pub fn assemble_transform(predicate: Option<String>, outputs: &Vec<String>) -> (transform:
    Transform)
    ensures
        transform.predicate@ == (match predicate {
            Some(predicate) => predicate@,
            None => "TRUE"@,
        }),
        transform.expressions@ == text::joined(text::texts(outputs@), ", "@),
{
    let predicate = match predicate {
        Some(predicate) => predicate,
        None => "TRUE".to_owned(),
    };
    Transform { predicate, expressions: join(outputs, ", ") }
}

} // verus!
