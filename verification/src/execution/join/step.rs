//! What a Join stage does next, from its cursor, its inputs and the row facts
//! that PostgreSQL returned.

use vstd::prelude::*;

use crate::execution::contract::{InputPosition, KernelPhase, OutputFacts, PrimitiveFacts};
use crate::execution::join::pages::{self, next_input};
use crate::execution::join::planner::{
    self, current_side_is_eligible, plan_frontier, ActionPlan, ActionPlanModel, FinalizePlan, FrontierInputFacts,
    FrontierPlan, FrontierState, InputEventFacts, InputFrontiers, InputPositions, InputProgress,
    InputSide, JoinContinuation, JoinMode, OwnExpectation, OwnStateProbe,
};
use crate::execution::stream::{
    ChunkKind, ChunkMeta, InputAdvance, InputState, OutputAppend, OutputState, ProducerKind,
};
use crate::planner::{Operator, WorkBudget, WorkUsage};
use crate::text::{self, fail};

verus! {

/// The join kinds of a plan.
#[derive(Clone, Copy, Debug, PartialEq, Eq, Structural)]
pub enum JoinKind {
    Inner,
    Left,
    Right,
    Full,
    Semi,
    Anti,
    NullAwareAnti,
}

/// The mode that runs a join kind.
pub open spec fn mode_of(kind: JoinKind) -> JoinMode {
    match kind {
        JoinKind::Inner => JoinMode::Inner,
        JoinKind::Left => JoinMode::Left,
        JoinKind::Right => JoinMode::Right,
        JoinKind::Full => JoinMode::Full,
        JoinKind::Semi => JoinMode::Semi,
        JoinKind::Anti => JoinMode::Anti,
        JoinKind::NullAwareAnti => JoinMode::NullAwareAnti,
    }
}

pub fn mode(kind: JoinKind) -> (mode: JoinMode)
    ensures
        mode == mode_of(kind),
{
    match kind {
        JoinKind::Inner => JoinMode::Inner,
        JoinKind::Left => JoinMode::Left,
        JoinKind::Right => JoinMode::Right,
        JoinKind::Full => JoinMode::Full,
        JoinKind::Semi => JoinMode::Semi,
        JoinKind::Anti => JoinMode::Anti,
        JoinKind::NullAwareAnti => JoinMode::NullAwareAnti,
    }
}

/// One transition of a Join and whether the transaction may go on behind it.
#[derive(Clone, Copy, Debug, PartialEq, Eq, Structural)]
pub struct JoinTransition {
    pub usage: WorkUsage,
    pub continue_in_transaction: bool,
    pub phase: KernelPhase,
    pub state_rows: u64,
}

impl JoinTransition {
    /// A transition that moved nothing but the cursor.
    #[verifier::allow_in_spec]
    pub fn control(phase: KernelPhase) -> (transition: Self)
        returns
            (JoinTransition {
                usage: WorkUsage { input_rows: 0, input_bytes: 0, output_rows: 0, output_bytes: 0 },
                continue_in_transaction: true,
                phase,
                state_rows: 0,
            }),
    {
        Self {
            usage: WorkUsage { input_rows: 0, input_bytes: 0, output_rows: 0, output_bytes: 0 },
            continue_in_transaction: true,
            phase,
            state_rows: 0,
        }
    }

    /// A transition that did bounded work.
    #[verifier::allow_in_spec]
    pub fn material(
        usage: WorkUsage,
        continue_in_transaction: bool,
        phase: KernelPhase,
        state_rows: u64,
    ) -> (transition: Self)
        returns
            (JoinTransition { usage, continue_in_transaction, phase, state_rows }),
    {
        Self { usage, continue_in_transaction, phase, state_rows }
    }
}

/// Whether a stage is a Join of two operator streams.
pub open spec fn stage_sound(operator: Operator, inputs: Seq<InputState>) -> Result<(), Seq<char>> {
    text::both(
        text::holds(operator is Join, "Join kernel received another operator"@),
        text::holds(
            inputs.len() == 2 && inputs[0].producer is Operator && inputs[1].producer is Operator,
            "Join requires exactly two operator-stream inputs"@,
        ),
    )
}

pub fn validate_stage(operator: Operator, inputs: &Vec<InputState>) -> (outcome: Result<(), String>)
    ensures
        text::agrees(outcome, stage_sound(operator, inputs@)),
{
    if operator != Operator::Join {
        return fail("Join kernel received another operator");
    }
    if inputs.len() != 2 || inputs[0].producer != ProducerKind::Operator || inputs[1].producer
        != ProducerKind::Operator {
        return fail("Join requires exactly two operator-stream inputs");
    }
    Ok(())
}

/// Both consumer cursors, at the start of their next chunks.
pub open spec fn consumer(left: InputState, right: InputState) -> Result<InputPositions, Seq<char>> {
    match (
        InputPosition::made(left.stream_id, left.next_chunk_seq, 0),
        InputPosition::made(right.stream_id, right.next_chunk_seq, 0),
    ) {
        (Err(message), _) => Err(message),
        (_, Err(message)) => Err(message),
        (Ok(left), Ok(right)) => text::guarded(
            (InputPositions { left, right }).sound(),
            InputPositions { left, right },
        ),
    }
}

pub fn consumer_positions(left: &InputState, right: &InputState) -> (outcome: Result<
    InputPositions,
    String,
>)
    ensures
        text::agrees(outcome, consumer(*left, *right)),
{
    InputPositions::new(
        InputPosition::new(left.stream_id, left.next_chunk_seq, 0)?,
        InputPosition::new(right.stream_id, right.next_chunk_seq, 0)?,
    )
}

/// An input chunk that a stage has chosen, and the cursor that pins it.
#[derive(Clone, Copy, Debug, PartialEq, Eq, Structural)]
pub struct OpenedInput {
    pub side: InputSide,
    pub head: ChunkMeta,
    pub continuation: JoinContinuation,
}

/// The input that opens when no cursor is stored.
pub open spec fn input_opened(
    left_chunk: Option<ChunkMeta>,
    right_chunk: Option<ChunkMeta>,
    left: InputState,
    right: InputState,
) -> Result<OpenedInput, Seq<char>> {
    match pages::earliest(left_chunk, right_chunk) {
        None => Err("runnable Join has neither a continuation nor an input chunk"@),
        Some((side, head)) => match consumer(left, right) {
            Err(message) => Err(message),
            Ok(positions) => match head.kind {
                ChunkKind::Data => text::guarded(
                    positions.sound(),
                    OpenedInput {
                        side,
                        head,
                        continuation: JoinContinuation::Preflight { positions, side },
                    },
                ),
                ChunkKind::Frontier => {
                    let facts = FrontierInputFacts { side, positions, frontier: head.lsn };
                    text::guarded(
                        facts.sound(),
                        OpenedInput {
                            side,
                            head,
                            continuation: JoinContinuation::Frontier(
                                planner::FrontierContinuation::opening(facts),
                            ),
                        },
                    )
                },
            },
        },
    }
}

/// Opens the next input chunk.
pub fn open_next_input(
    left_chunk: Option<ChunkMeta>,
    right_chunk: Option<ChunkMeta>,
    left: &InputState,
    right: &InputState,
) -> (outcome: Result<OpenedInput, String>)
    ensures
        text::agrees(outcome, input_opened(left_chunk, right_chunk, *left, *right)),
{
    match next_input(left_chunk, right_chunk) {
        None => fail("runnable Join has neither a continuation nor an input chunk"),
        Some((side, head)) => {
            let positions = consumer_positions(left, right)?;
            let continuation = match head.kind {
                ChunkKind::Data => JoinContinuation::start_preflight(positions, side)?,
                ChunkKind::Frontier => JoinContinuation::start_frontier(
                    FrontierInputFacts::new(side, positions, head.lsn)?,
                )?,
            };
            Ok(OpenedInput { side, head, continuation })
        },
    }
}

/// Whether a position is at the consumer cursor of its input. Only the side
/// that owns the event may stand behind the first row.
pub open spec fn at_cursor(position: InputPosition, input: InputState, owner: bool) -> bool {
    position.stream_id == input.stream_id && position.chunk_seq == input.next_chunk_seq && (owner
        || position.row_ordinal == 0)
}

pub open spec fn positions_pinned(
    positions: InputPositions,
    owner: InputSide,
    left: InputState,
    right: InputState,
) -> Result<(), Seq<char>> {
    text::both(
        positions.sound(),
        text::holds(
            at_cursor(positions.left, left, owner is Left) && at_cursor(
                positions.right,
                right,
                owner is Right,
            ),
            "Join continuation is not at its locked consumer positions"@,
        ),
    )
}

/// Checks that a stored cursor stands at the locked consumer positions.
pub fn validate_positions_for_side(
    positions: InputPositions,
    owner: InputSide,
    left: &InputState,
    right: &InputState,
) -> (outcome: Result<(), String>)
    ensures
        text::agrees(outcome, positions_pinned(positions, owner, *left, *right)),
{
    positions.validate()?;
    if positions.left.stream_id != left.stream_id || positions.left.chunk_seq != left.next_chunk_seq
        || (owner != InputSide::Left && positions.left.row_ordinal != 0) {
        return fail("Join continuation is not at its locked consumer positions");
    }
    if positions.right.stream_id != right.stream_id || positions.right.chunk_seq
        != right.next_chunk_seq || (owner != InputSide::Right && positions.right.row_ordinal != 0) {
        return fail("Join continuation is not at its locked consumer positions");
    }
    Ok(())
}

/// The data chunk that holds the row of an event.
pub open spec fn event_chunk(position: InputPosition, chunk: Option<ChunkMeta>) -> Result<
    ChunkMeta,
    Seq<char>,
> {
    match chunk {
        None => Err("Join continuation references a missing input chunk"@),
        Some(chunk) => text::guarded(
            text::holds(
                chunk.kind is Data && 0 <= position.row_ordinal < chunk.rows,
                "Join data continuation references an invalid input row"@,
            ),
            chunk,
        ),
    }
}

pub fn validate_event_chunk(position: InputPosition, chunk: &Option<ChunkMeta>) -> (outcome: Result<
    ChunkMeta,
    String,
>)
    ensures
        text::agrees(outcome, event_chunk(position, *chunk)),
{
    match chunk {
        None => fail("Join continuation references a missing input chunk"),
        Some(chunk) => {
            if chunk.kind != ChunkKind::Data || position.row_ordinal < 0
                || position.row_ordinal as u64 >= chunk.rows {
                return fail("Join data continuation references an invalid input row");
            }
            Ok(*chunk)
        },
    }
}

/// The cursor that opens the event at a preflight position.
pub fn after_preflight(event: InputEventFacts, own: OwnExpectation) -> (outcome: Result<
    JoinContinuation,
    String,
>)
    ensures
        text::agrees(outcome, JoinContinuation::opened(event, own)),
{
    JoinContinuation::start_input(event, own)
}

/// The progress of a candidate scan.
pub open spec fn progress_read(
    continuation: JoinContinuation,
) -> Result<InputProgress, Seq<char>> {
    match continuation.progress_of() {
        Some(progress) => Ok(progress),
        None => Err("Join candidate phase omitted input progress"@),
    }
}

/// The progress of a candidate phase.
pub fn candidate_progress(continuation: &JoinContinuation) -> (outcome: Result<
    InputProgress,
    String,
>)
    ensures
        text::agrees(outcome, progress_read(*continuation)),
{
    match continuation.input_progress() {
        Some(progress) => Ok(progress),
        None => fail("Join candidate phase omitted input progress"),
    }
}

/// The output facts of an append, if there was one.
pub open spec fn append_facts(append: Option<OutputAppend>) -> OutputFacts {
    match append {
        Some(append) => OutputFacts::Data { chunk_seq: append.target.chunk() },
        None => OutputFacts::Nothing,
    }
}

pub fn output_facts(append: &Option<OutputAppend>) -> (facts: OutputFacts)
    ensures
        facts == append_facts(*append),
{
    match append {
        Some(append) => OutputFacts::Data { chunk_seq: append.target.sequence() },
        None => OutputFacts::Nothing,
    }
}

/// The transition of a committed action prefix.
pub open spec fn candidates_closed(
    plan: ActionPlanModel,
    changed: u64,
    append: Option<OutputAppend>,
) -> Result<JoinTransition, Seq<char>> {
    text::guarded(
        plan.commits(
            PrimitiveFacts {
                usage: plan.usage,
                state_rows: changed,
                continuation_rows: 1,
                output: append_facts(append),
            },
        ),
        if plan.usage == crate::planner::no_usage() {
            JoinTransition::control(KernelPhase::Process)
        } else {
            JoinTransition::material(plan.usage, true, KernelPhase::Process, changed)
        },
    )
}

/// Closes an action prefix with what was written for it.
pub fn close_candidates(plan: &ActionPlan, changed: u64, append: &Option<OutputAppend>) -> (
    outcome: Result<JoinTransition, String>)
    ensures
        text::agrees(outcome, candidates_closed(plan@, changed, *append)),
{
    let usage = plan.usage();
    plan.validate_commit(
        PrimitiveFacts {
            usage,
            state_rows: changed,
            continuation_rows: 1,
            output: output_facts(append),
        },
    )?;
    if usage.is_empty() {
        Ok(JoinTransition::control(KernelPhase::Process))
    } else {
        Ok(JoinTransition::material(usage, true, KernelPhase::Process, changed))
    }
}

/// What a Finalize needs to know before it plans: its progress, and whether
/// the current row is part of the output.
#[derive(Clone, Copy, Debug, PartialEq, Eq, Structural)]
pub struct FinalizeStart {
    pub progress: InputProgress,
    pub measures_output: bool,
}

/// Whether the current row of a finished fanout is part of the output.
pub open spec fn emits_current(kind: JoinKind, event: InputEventFacts, progress: InputProgress) -> bool {
    planner::side_is_output(mode_of(kind), event.side) && planner::eligible(
        mode_of(kind),
        progress.opposite_counts,
    )
}

/// The start of a Finalize: the fanout is complete and the own row is the one
/// that it began with.
pub open spec fn finalize_opened(
    continuation: JoinContinuation,
    kind: JoinKind,
    event: InputEventFacts,
    own: OwnExpectation,
) -> Result<FinalizeStart, Seq<char>> {
    match continuation.progress_of() {
        None => Err("Join Finalize phase omitted input progress"@),
        Some(progress) => text::guarded(
            text::both(
                continuation.input_resumes(event),
                text::holds(
                    own == progress.expected_own,
                    "Join own arrangement changed during its fanout"@,
                ),
            ),
            FinalizeStart { progress, measures_output: emits_current(kind, event, progress) },
        ),
    }
}

pub fn open_finalize(
    continuation: &JoinContinuation,
    kind: JoinKind,
    event: InputEventFacts,
    own: OwnExpectation,
) -> (outcome: Result<FinalizeStart, String>)
    ensures
        text::agrees(outcome, finalize_opened(*continuation, kind, event, own)),
{
    let progress = match continuation.input_progress() {
        Some(progress) => progress,
        None => {
            return fail("Join Finalize phase omitted input progress");
        },
    };
    continuation.validate_input_resume(event)?;
    if own != progress.expected_own() {
        return fail("Join own arrangement changed during its fanout");
    }
    let measures_output = current_side_is_eligible(
        mode(kind),
        event.side,
        progress.opposite_counts(),
    );
    Ok(FinalizeStart { progress, measures_output })
}

/// The probe of an own row, with the size of the current output. A row that
/// is no output counts as one byte.
pub open spec fn own_probed(own: OwnExpectation, output_bytes: Option<u64>) -> Result<
    OwnStateProbe,
    Seq<char>,
> {
    let bytes = match output_bytes {
        Some(bytes) => bytes,
        None => 1,
    };
    let probe = match own.row_id {
        None => OwnStateProbe::Absent { output_bytes: bytes },
        Some(row_id) => OwnStateProbe::Present {
            row_id,
            multiplicity: own.multiplicity,
            counts: own.counts,
            output_bytes: bytes,
        },
    };
    text::guarded(probe.sound(), probe)
}

pub fn probe_own(own: OwnExpectation, output_bytes: Option<u64>) -> (outcome: Result<
    OwnStateProbe,
    String,
>)
    ensures
        text::agrees(outcome, own_probed(own, output_bytes)),
{
    let bytes: u64 = match output_bytes {
        Some(bytes) => bytes,
        None => 1,
    };
    match own.row_id {
        None => OwnStateProbe::absent(bytes),
        Some(row_id) => OwnStateProbe::present(row_id, own.multiplicity, own.counts, bytes),
    }
}

/// Where the input stands behind a finished event.
#[derive(Clone, Copy, Debug, PartialEq, Eq, Structural)]
pub enum FinalizeNext {
    /// The preflight of the next row of the chunk.
    Row(JoinContinuation),
    /// The chunk is complete and its consumer moves past it.
    Chunk(InputAdvance),
}

/// The positions with another row on one side.
pub open spec fn moved_to(positions: InputPositions, side: InputSide, row_ordinal: i64) -> InputPositions {
    match side {
        InputSide::Left => InputPositions {
            left: InputPosition { row_ordinal, ..positions.left },
            ..positions
        },
        InputSide::Right => InputPositions {
            right: InputPosition { row_ordinal, ..positions.right },
            ..positions
        },
    }
}

/// The position behind a finished event.
pub open spec fn finalize_next(progress: InputProgress, chunk: ChunkMeta, input: InputState) -> Result<
    FinalizeNext,
    Seq<char>,
> {
    let row_ordinal = progress.positions.of(progress.side).row_ordinal;
    let next = row_ordinal + 1;
    if row_ordinal == i64::MAX {
        Err("Join input row ordinal overflow"@)
    } else if next < 0 {
        Err("negative Join row ordinal"@)
    } else if next < chunk.rows {
        let positions = moved_to(progress.positions, progress.side, next as i64);
        text::guarded(
            positions.sound(),
            FinalizeNext::Row(JoinContinuation::Preflight { positions, side: progress.side }),
        )
    } else if next == chunk.rows {
        text::guarded(
            text::holds(
                input.next_chunk_seq < i64::MAX,
                "Join input chunk cursor overflow"@,
            ),
            FinalizeNext::Chunk(
                InputAdvance {
                    next_chunk_seq: (input.next_chunk_seq + 1) as i64,
                    frontier_lsn: input.consumed_frontier_lsn,
                    usage: WorkUsage {
                        input_rows: chunk.rows,
                        input_bytes: chunk.bytes,
                        output_rows: 0,
                        output_bytes: 0,
                    },
                },
            ),
        )
    } else {
        Err("Join Finalize advanced beyond its immutable input chunk"@)
    }
}

/// Moves the input behind a finished event.
pub fn after_finalize(progress: &InputProgress, chunk: &ChunkMeta, input: &InputState) -> (outcome:
    Result<FinalizeNext, String>)
    ensures
        text::agrees(outcome, finalize_next(*progress, *chunk, *input)),
{
    let position = progress.positions().get(progress.side());
    if position.row_ordinal == i64::MAX {
        return fail("Join input row ordinal overflow");
    }
    let next: i64 = position.row_ordinal + 1;
    if next < 0 {
        return fail("negative Join row ordinal");
    }
    if (next as u64) < chunk.rows {
        let mut positions = progress.positions();
        match progress.side() {
            InputSide::Left => {
                positions.left.row_ordinal = next;
            },
            InputSide::Right => {
                positions.right.row_ordinal = next;
            },
        }
        Ok(FinalizeNext::Row(JoinContinuation::start_preflight(positions, progress.side())?))
    } else if next as u64 == chunk.rows {
        if input.next_chunk_seq == i64::MAX {
            return fail("Join input chunk cursor overflow");
        }
        Ok(
            FinalizeNext::Chunk(
                InputAdvance {
                    next_chunk_seq: input.next_chunk_seq + 1,
                    frontier_lsn: input.consumed_frontier_lsn,
                    usage: WorkUsage {
                        input_rows: chunk.rows,
                        input_bytes: chunk.bytes,
                        output_rows: 0,
                        output_bytes: 0,
                    },
                },
            ),
        )
    } else {
        fail("Join Finalize advanced beyond its immutable input chunk")
    }
}

/// The transition of a committed Finalize.
pub open spec fn finalize_closed(
    plan: FinalizePlan,
    append: Option<OutputAppend>,
    next: FinalizeNext,
) -> Result<JoinTransition, Seq<char>> {
    let continues = next is Row;
    text::guarded(
        plan.commits(
            PrimitiveFacts {
                usage: plan.usage,
                state_rows: 1,
                continuation_rows: if continues {
                    1
                } else {
                    0
                },
                output: append_facts(append),
            },
            continues,
        ),
        JoinTransition::material(plan.usage, continues, KernelPhase::Process, 1),
    )
}

/// Closes a Finalize with what was written for it.
pub fn close_finalize(plan: &FinalizePlan, append: &Option<OutputAppend>, next: &FinalizeNext) -> (
    outcome: Result<JoinTransition, String>)
    ensures
        text::agrees(outcome, finalize_closed(*plan, *append, *next)),
{
    let continues = match next {
        FinalizeNext::Row(_) => true,
        FinalizeNext::Chunk(_) => false,
    };
    let usage = plan.usage();
    plan.validate_commit(
        PrimitiveFacts {
            usage,
            state_rows: 1,
            continuation_rows: if continues {
                1
            } else {
                0
            },
            output: output_facts(append),
        },
        continues,
    )?;
    Ok(JoinTransition::material(usage, continues, KernelPhase::Process, 1))
}

/// The facts of a stored frontier cursor.
pub open spec fn frontier_opened(
    continuation: JoinContinuation,
    left: InputState,
    right: InputState,
) -> Result<FrontierInputFacts, Seq<char>> {
    match continuation {
        JoinContinuation::Frontier(frontier) => {
            let facts = FrontierInputFacts {
                side: frontier.side,
                positions: frontier.positions,
                frontier: frontier.frontier,
            };
            text::guarded(
                text::four(
                    facts.sound(),
                    continuation.frontier_resumes(facts),
                    positions_pinned(facts.positions, facts.side, left, right),
                    text::holds(
                        facts.positions.of(facts.side).row_ordinal == 0,
                        "Join frontier continuation has a data row ordinal"@,
                    ),
                ),
                facts,
            )
        },
        _ => Err("Join frontier executor received another phase"@),
    }
}

pub fn open_frontier(continuation: &JoinContinuation, left: &InputState, right: &InputState) -> (
    outcome: Result<FrontierInputFacts, String>)
    ensures
        text::agrees(outcome, frontier_opened(*continuation, *left, *right)),
{
    match continuation {
        JoinContinuation::Frontier(frontier) => {
            let facts = FrontierInputFacts::new(
                frontier.side(),
                frontier.positions(),
                frontier.frontier(),
            )?;
            continuation.validate_frontier_resume(facts)?;
            validate_positions_for_side(facts.positions, facts.side, left, right)?;
            if facts.positions.get(facts.side).row_ordinal != 0 {
                return fail("Join frontier continuation has a data row ordinal");
            }
            Ok(facts)
        },
        _ => fail("Join frontier executor received another phase"),
    }
}

/// Whether the chunk at a frontier cursor is still the one that it pinned.
pub open spec fn frontier_chunk(facts: FrontierInputFacts, head: Option<ChunkMeta>) -> Result<
    (),
    Seq<char>,
> {
    match head {
        None => Err("Join frontier continuation references a missing chunk"@),
        Some(head) => text::holds(
            head.kind is Frontier && head.rows == 0 && head.bytes == 0 && head.lsn
                == facts.frontier,
            "Join frontier continuation changed its immutable chunk"@,
        ),
    }
}

pub fn validate_frontier_chunk(facts: &FrontierInputFacts, head: &Option<ChunkMeta>) -> (outcome:
    Result<(), String>)
    ensures
        text::agrees(outcome, frontier_chunk(*facts, *head)),
{
    match head {
        None => fail("Join frontier continuation references a missing chunk"),
        Some(head) => {
            if head.kind != ChunkKind::Frontier || head.rows != 0 || head.bytes != 0 || head.lsn
                != facts.frontier {
                return fail("Join frontier continuation changed its immutable chunk");
            }
            Ok(())
        },
    }
}

/// What the frontiers of a stage are before one more input frontier.
pub open spec fn frontier_state(left: InputState, right: InputState, output: OutputState) -> FrontierState {
    FrontierState {
        consumed: InputFrontiers {
            left: left.consumed_frontier_lsn,
            right: right.consumed_frontier_lsn,
        },
        published: match output.published_frontier_lsn {
            Some(lsn) => lsn,
            None => 0,
        },
        latest_output_data: output.latest_data_lsn,
    }
}

/// Plans one input frontier.
pub fn plan_input_frontier(
    continuation: &JoinContinuation,
    facts: FrontierInputFacts,
    left: &InputState,
    right: &InputState,
    output: &OutputState,
    budget: WorkBudget,
) -> (outcome: Result<FrontierPlan, String>)
    ensures
        text::agrees(
            outcome,
            planner::frontier_planned(
                *continuation,
                facts,
                frontier_state(*left, *right, *output),
                budget,
            ),
        ),
{
    let state = FrontierState {
        consumed: InputFrontiers {
            left: left.consumed_frontier_lsn,
            right: right.consumed_frontier_lsn,
        },
        published: match output.published_frontier_lsn {
            Some(lsn) => lsn,
            None => 0,
        },
        latest_output_data: output.latest_data_lsn,
    };
    plan_frontier(continuation, facts, state, budget)
}

/// The move of the consumer past a frontier chunk.
pub open spec fn frontier_advanced(facts: FrontierInputFacts, input: InputState) -> Result<
    InputAdvance,
    Seq<char>,
> {
    text::guarded(
        text::holds(input.next_chunk_seq < i64::MAX, "Join frontier chunk cursor overflow"@),
        InputAdvance {
            next_chunk_seq: (input.next_chunk_seq + 1) as i64,
            frontier_lsn: facts.frontier,
            usage: crate::planner::no_usage(),
        },
    )
}

pub fn advance_frontier(facts: &FrontierInputFacts, input: &InputState) -> (outcome: Result<
    InputAdvance,
    String,
>)
    ensures
        text::agrees(outcome, frontier_advanced(*facts, *input)),
{
    if input.next_chunk_seq == i64::MAX {
        return fail("Join frontier chunk cursor overflow");
    }
    Ok(
        InputAdvance {
            next_chunk_seq: input.next_chunk_seq + 1,
            frontier_lsn: facts.frontier,
            usage: WorkUsage::default(),
        },
    )
}

/// The transition of a committed input frontier.
pub open spec fn frontier_closed(plan: FrontierPlan, output: OutputFacts) -> Result<
    JoinTransition,
    Seq<char>,
> {
    text::guarded(
        plan.commits(PrimitiveFacts { output, ..PrimitiveFacts::nothing() }),
        JoinTransition::material(crate::planner::no_usage(), false, KernelPhase::Frontier, 0),
    )
}

/// Closes an input frontier with the output frontier that was appended.
pub fn close_frontier(plan: &FrontierPlan, output: OutputFacts) -> (outcome: Result<
    JoinTransition,
    String,
>)
    ensures
        text::agrees(outcome, frontier_closed(*plan, output)),
{
    let mut facts = PrimitiveFacts::default();
    facts.output = output;
    plan.validate_commit(facts)?;
    Ok(JoinTransition::material(WorkUsage::default(), false, KernelPhase::Frontier, 0))
}

} // verus!
