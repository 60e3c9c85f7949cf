//! The course of a Join stage: what it reads next, and what follows each event.

use vstd::prelude::*;

use crate::execution::contract::{InputPosition, OutputFacts, PrimitiveFacts};
use crate::execution::join::pages;
use crate::execution::join::planner::{
    self, ActionPlanModel, CandidateProbe, FinalizePlan, FrontierInputFacts, FrontierPlan,
    FrontierState, InputEventFacts, InputPositions, InputProgress, InputSide, JoinContinuation,
    JoinMode, OutputAction, OwnExpectation, OwnStateProbe,
};
use crate::execution::join::statements::CandidateRow;
use crate::execution::join::step::{self, FinalizeNext};
use crate::execution::stream::{ChunkKind, ChunkMeta, InputState, OutputAppend, OutputState};
use crate::planner::{Operator, WorkBudget};
use crate::session::Row;

verus! {

/// A stage reads exactly two operators.
pub proof fn stage_reads_two_operators(operator: Operator, inputs: Seq<InputState>)
    ensures
        step::stage_sound(operator, inputs) is Ok <==> operator is Join && inputs.len() == 2
            && inputs[0].producer is Operator && inputs[1].producer is Operator,
{
}

/// The consumers stand at the front of their next chunks, each in its own
/// stream.
pub proof fn consumers_stand_at_their_next_chunks(left: InputState, right: InputState)
    ensures
        step::consumer(left, right) matches Ok(positions) ==> {
            &&& positions.left == (InputPosition {
                stream_id: left.stream_id,
                chunk_seq: left.next_chunk_seq,
                row_ordinal: 0,
            })
            &&& positions.right == (InputPosition {
                stream_id: right.stream_id,
                chunk_seq: right.next_chunk_seq,
                row_ordinal: 0,
            })
        },
{
}

/// The input that was reached first is opened first; the left one goes first
/// where both were reached at once.
pub proof fn earlier_chunk_is_opened(left: Option<ChunkMeta>, right: Option<ChunkMeta>)
    ensures
        match pages::earliest(left, right) {
            None => left is None && right is None,
            Some((InputSide::Left, chunk)) => left == Some(chunk) && (right matches Some(other)
                ==> chunk.lsn <= other.lsn),
            Some((InputSide::Right, chunk)) => right == Some(chunk) && (left matches Some(other)
                ==> chunk.lsn < other.lsn),
        },
{
}

/// A chunk is opened by what it holds: data is probed row by row, and a
/// frontier goes on under its own position.
pub proof fn chunks_are_opened_by_what_they_hold(
    left_chunk: Option<ChunkMeta>,
    right_chunk: Option<ChunkMeta>,
    left: InputState,
    right: InputState,
)
    ensures
        step::input_opened(left_chunk, right_chunk, left, right) matches Ok(opened) ==> {
            &&& pages::earliest(left_chunk, right_chunk) == Some((opened.side, opened.head))
            &&& opened.head.kind == ChunkKind::Data ==> (
            opened.continuation matches JoinContinuation::Preflight { positions, side } && side
                == opened.side && step::consumer(left, right) == Ok::<InputPositions, Seq<char>>(
                positions,
            ))
            &&& opened.head.kind == ChunkKind::Frontier ==> (
            opened.continuation matches JoinContinuation::Frontier(frontier) && frontier.side
                == opened.side && frontier.frontier == opened.head.lsn && step::consumer(
                left,
                right,
            ) == Ok::<InputPositions, Seq<char>>(frontier.positions))
        },
{
}

/// A continuation goes on exactly where both consumers stand; only the side of
/// the event may be inside its chunk.
pub proof fn only_the_own_side_is_inside_its_chunk(
    positions: InputPositions,
    owner: InputSide,
    left: InputState,
    right: InputState,
)
    ensures
        step::positions_pinned(positions, owner, left, right) is Ok <==> {
            &&& positions.sound() is Ok
            &&& positions.left.stream_id == left.stream_id
            &&& positions.left.chunk_seq == left.next_chunk_seq
            &&& positions.right.stream_id == right.stream_id
            &&& positions.right.chunk_seq == right.next_chunk_seq
            &&& positions.left.row_ordinal == 0 || owner is Left
            &&& positions.right.row_ordinal == 0 || owner is Right
        },
{
}

/// An event is a row that its chunk of data has.
pub proof fn event_is_a_row_of_its_chunk(position: InputPosition, chunk: Option<ChunkMeta>)
    ensures
        match step::event_chunk(position, chunk) {
            Ok(data) => chunk == Some(data) && data.kind is Data && 0 <= position.row_ordinal
                < data.rows,
            Err(_) => !(chunk matches Some(data) && data.kind is Data && 0
                <= position.row_ordinal < data.rows),
        },
{
}

/// An own row is measured as it is stored; without a size it counts as one
/// byte, and without a row it is absent.
pub proof fn own_row_is_probed_as_stored(own: OwnExpectation, output_bytes: Option<u64>)
    ensures
        step::own_probed(own, output_bytes) matches Ok(probe) ==> match probe {
            OwnStateProbe::Absent { output_bytes: size } => own.row_id is None && size == (
            match output_bytes {
                Some(bytes) => bytes,
                None => 1,
            }),
            OwnStateProbe::Present { row_id, multiplicity, counts, output_bytes: size } => {
                &&& own.row_id == Some(row_id)
                &&& multiplicity == own.multiplicity
                &&& counts == own.counts
                &&& size == (match output_bytes {
                    Some(bytes) => bytes,
                    None => 1,
                })
            },
        },
{
}

/// Behind an event comes the next row of its own side, or the next chunk once
/// all rows were read; the other side stays where it is.
pub proof fn event_is_followed_on_its_own_side(
    progress: InputProgress,
    chunk: ChunkMeta,
    input: InputState,
)
    ensures
        ({
            let here = progress.positions.of(progress.side);
            match step::finalize_next(progress, chunk, input) {
                Ok(FinalizeNext::Row(next)) => {
                    &&& here.row_ordinal + 1 < chunk.rows
                    &&& next matches JoinContinuation::Preflight { positions, side } && {
                        &&& side == progress.side
                        &&& positions.of(side).stream_id == here.stream_id
                        &&& positions.of(side).chunk_seq == here.chunk_seq
                        &&& positions.of(side).row_ordinal == here.row_ordinal + 1
                        &&& positions.of(side.other()) == progress.positions.of(side.other())
                    }
                },
                Ok(FinalizeNext::Chunk(advance)) => {
                    &&& here.row_ordinal + 1 == chunk.rows
                    &&& advance.next_chunk_seq == input.next_chunk_seq + 1
                    &&& advance.frontier_lsn == input.consumed_frontier_lsn
                    &&& advance.usage.input_rows == chunk.rows
                    &&& advance.usage.input_bytes == chunk.bytes
                    &&& advance.usage.output_rows == 0 && advance.usage.output_bytes == 0
                },
                Err(_) => true,
            }
        }),
        progress.positions.of(progress.side).row_ordinal + 1 > chunk.rows ==> step::finalize_next(
            progress,
            chunk,
            input,
        ) is Err,
{
}

/// A frontier is read from a chunk that holds nothing else, under the position
/// that was stored.
pub proof fn frontier_is_read_from_its_chunk(facts: FrontierInputFacts, head: Option<ChunkMeta>)
    ensures
        step::frontier_chunk(facts, head) is Ok <==> (head matches Some(chunk)
            && chunk.kind is Frontier && chunk.rows == 0 && chunk.bytes == 0 && chunk.lsn
            == facts.frontier),
{
}

/// A frontier is planned from what each side has consumed and from what has
/// gone out.
pub proof fn frontier_is_planned_from_both_sides(
    left: InputState,
    right: InputState,
    output: OutputState,
)
    ensures
        ({
            let state = step::frontier_state(left, right, output);
            &&& state.consumed.left == left.consumed_frontier_lsn
            &&& state.consumed.right == right.consumed_frontier_lsn
            &&& output.published_frontier_lsn is None ==> state.published == 0
            &&& output.published_frontier_lsn matches Some(lsn) ==> state.published == lsn
            &&& state.latest_output_data == output.latest_data_lsn
        }),
{
}

/// A consumed frontier moves its consumer to the next chunk and to the position
/// of the frontier.
pub proof fn frontier_moves_its_consumer(facts: FrontierInputFacts, input: InputState)
    ensures
        step::frontier_advanced(facts, input) matches Ok(advance) ==> {
            &&& advance.next_chunk_seq == input.next_chunk_seq + 1
            &&& advance.frontier_lsn == facts.frontier
            &&& advance.usage.input_rows == 0 && advance.usage.input_bytes == 0
            &&& advance.usage.output_rows == 0 && advance.usage.output_bytes == 0
        },
        step::frontier_advanced(facts, input) is Err <==> input.next_chunk_seq == i64::MAX,
{
}

/// A step reports the chunk that it appended to, if any.
pub proof fn appended_chunk_is_reported(append: Option<OutputAppend>)
    ensures
        append is None ==> step::append_facts(append) is Nothing,
        append matches Some(append) ==> step::append_facts(Some(append)) == (OutputFacts::Data {
            chunk_seq: append.target.chunk(),
        }),
{
}

/// A candidate is read off its columns in their order.
pub proof fn candidate_columns_are_in_order(row: Row)
    ensures
        CandidateRow::of(row).row_id == row.bigint(1),
        CandidateRow::of(row).multiplicity == row.bigint(2),
        CandidateRow::of(row).truth == row.smallint(3),
        CandidateRow::of(row).match_count == row.bigint(4),
        CandidateRow::of(row).unknown_count == row.bigint(5),
        CandidateRow::of(row).row_bytes == row.bigint(6),
        CandidateRow::of(row).pair_bytes == row.bigint(7),
        CandidateRow::of(row).candidate_bytes == row.bigint(8),
{
}

/// A frontier is taken over on its own side, where it must be beyond what was
/// consumed; it goes out as far as both sides have come, once that is beyond
/// what went out and no data of the output lies behind it.
pub proof fn frontier_goes_out_as_far_as_both_sides(
    continuation: JoinContinuation,
    facts: FrontierInputFacts,
    state: FrontierState,
    budget: WorkBudget,
)
    ensures
        planner::frontier_planned(continuation, facts, state, budget) matches Ok(plan) ==> {
            &&& facts.frontier > state.consumed.of(facts.side)
            &&& plan.side == facts.side
            &&& plan.expected_old == state.consumed
            &&& plan.expected_published == state.published
            &&& plan.new.of(facts.side) == facts.frontier
            &&& plan.new.of(facts.side.other()) == state.consumed.of(facts.side.other())
            &&& plan.publish matches Some(lsn) ==> {
                &&& lsn <= plan.new.left && lsn <= plan.new.right
                &&& lsn == plan.new.left || lsn == plan.new.right
                &&& lsn > state.published
                &&& state.latest_output_data matches Some(data) ==> data <= lsn
            }
            &&& plan.publish is None ==> {
                ||| plan.new.left <= state.published || plan.new.right <= state.published
                ||| state.latest_output_data matches Some(data) && (data > plan.new.left || data
                    > plan.new.right)
            }
        },
{
}

/// A finished event takes in its one row, writes at most one row of its own
/// side, and changes its own row: it is inserted where there was none, deleted
/// where nothing is left of it, and updated otherwise.
pub proof fn finished_event_changes_one_row(
    mode: JoinMode,
    progress: InputProgress,
    event: InputEventFacts,
    own: OwnStateProbe,
    budget: WorkBudget,
)
    ensures
        planner::finalized(mode, JoinContinuation::Finalize(progress), event, own, budget) matches Ok(
            plan,
        ) ==> {
            let change = plan.own_change;
            &&& plan.usage.input_rows == 1 && plan.usage.input_bytes == event.row_bytes
            &&& plan.output is Some ==> plan.usage.output_rows == 1 && plan.usage.output_bytes
                == own.bytes()
            &&& plan.output is None ==> plan.usage.output_rows == 0 && plan.usage.output_bytes == 0
            &&& plan.output matches Some(action) ==> action.weight == event.weight
                && action.current_side == event.side && action.candidate_row_id is None
                && action.kind is CurrentEligibility
            &&& change.counts == progress.opposite_counts
            &&& own is Absent ==> change.kind is Insert && change.expected_row_id is None
                && change.expected_multiplicity == 0 && change.new_multiplicity == event.weight
            &&& own matches OwnStateProbe::Present { row_id, multiplicity, .. } ==> {
                &&& change.expected_row_id == Some(row_id)
                &&& change.expected_multiplicity == multiplicity
                &&& change.new_multiplicity == multiplicity + event.weight
                &&& change.kind is Delete <==> multiplicity + event.weight == 0
                &&& change.kind is Update <==> multiplicity + event.weight != 0
            }
        },
{
}

/// An event goes on exactly when it is the one that was begun.
pub proof fn resumed_event_is_the_begun_one(progress: InputProgress, event: InputEventFacts)
    ensures
        progress.resumes(event) is Ok <==> {
            &&& event.sound() is Ok
            &&& progress.side == event.side
            &&& progress.positions == event.positions
            &&& progress.event_weight == event.weight
            &&& progress.event_bytes == event.row_bytes
        },
        InputProgress::opening(event, progress.expected_own).resumes(event) is Ok
            <==> event.sound() is Ok,
        InputProgress::opening(event, progress.expected_own).candidate_after is None,
        InputProgress::opening(event, progress.expected_own).opposite_counts.matched == 0,
        InputProgress::opening(event, progress.expected_own).opposite_counts.unknown == 0,
        InputProgress::opening(event, progress.expected_own).expected_own == progress.expected_own,
{
}

/// A row is written behind others exactly while the budget has a row left, and
/// bytes for it; the first row may have any size.
pub proof fn rows_are_written_while_they_fit(
    rows: int,
    bytes: int,
    action: OutputAction,
    budget: WorkBudget,
)
    requires
        0 <= rows < u64::MAX,
        0 <= bytes,
        bytes + action.row_bytes <= u64::MAX,
        action.sound() is Ok,
    ensures
        planner::fits_behind(rows, bytes, action, budget) == Ok::<bool, Seq<char>>(
            rows + 1 <= budget.max_output_rows && (rows == 0 || bytes + action.row_bytes
                <= budget.max_output_bytes),
        ),
{
}

/// The candidates of a page come in the order of their identifiers, behind the
/// one that the event has passed.
pub proof fn candidates_come_in_order(
    progress: InputProgress,
    candidates: Seq<CandidateProbe>,
    index: int,
)
    requires
        0 <= index < candidates.len(),
        candidates[index].sound() is Ok,
    ensures
        planner::order_check(progress, None, candidates, index) is Ok <==> if index > 0 {
            candidates[index].row_id > candidates[index - 1].row_id
        } else {
            progress.candidate_after matches Some(passed) ==> candidates[index].row_id > passed
        },
{
}

/// A page is committed as it was planned, with its changes and its output.
pub proof fn commits_are_held_against_their_plans(
    plan: ActionPlanModel,
    last: FinalizePlan,
    frontier: FrontierPlan,
    facts: PrimitiveFacts,
    has_continuation: bool,
)
    ensures
        plan.commits(facts) is Ok ==> {
            &&& facts.usage == plan.usage
            &&& facts.state_rows == plan.candidate_changes.len()
            &&& facts.output is Data ==> plan.actions.len() > 0
            &&& facts.continuation_rows == 1
        },
        last.commits(facts, has_continuation) is Ok ==> {
            &&& facts.usage == last.usage
            &&& facts.state_rows == 1
            &&& facts.output is Data ==> last.output is Some
            &&& facts.continuation_rows == 1 <==> has_continuation
        },
        frontier.commits(facts) is Ok ==> {
            &&& facts.usage.input_rows == 0 && facts.usage.output_rows == 0
            &&& facts.state_rows == 0
            &&& facts.output is Frontier <==> frontier.publish is Some
            &&& facts.continuation_rows == 0
        },
{
}

/// A continuation is in the phase that it is named by, and has progress exactly
/// where an event is under way.
pub proof fn continuations_are_in_their_phase(value: JoinContinuation)
    ensures
        value is Preflight <==> value.phase_of() is Preflight,
        value is Probe <==> value.phase_of() is Probe,
        value is PendingTransition <==> value.phase_of() is PendingTransition,
        value is Finalize <==> value.phase_of() is Finalize,
        value is Frontier <==> value.phase_of() is Frontier,
        value.progress_of() is None <==> value is Preflight || value is Frontier,
{
}

/// A step reports the work that was planned, the state rows that it changed,
/// and whether the transaction goes on: behind candidates always, behind an
/// event where its chunk has another row, behind a frontier never.
pub proof fn steps_report_what_was_planned(
    plan: ActionPlanModel,
    last: FinalizePlan,
    frontier: FrontierPlan,
    changed: u64,
    append: Option<OutputAppend>,
    next: FinalizeNext,
    output: OutputFacts,
)
    ensures
        step::candidates_closed(plan, changed, append) matches Ok(transition) ==> {
            &&& transition.usage == plan.usage && transition.phase is Process
            &&& transition.continue_in_transaction
            &&& changed == plan.candidate_changes.len()
            &&& plan.usage.input_rows > 0 || plan.usage.output_rows > 0 ==> transition.state_rows
                == changed
        },
        step::finalize_closed(last, append, next) matches Ok(transition) ==> {
            &&& transition.usage == last.usage && transition.phase is Process
            &&& transition.continue_in_transaction <==> next is Row
            &&& transition.state_rows == 1
        },
        step::frontier_closed(frontier, output) matches Ok(transition) ==> {
            &&& transition.usage.input_rows == 0 && transition.usage.output_rows == 0
            &&& transition.phase is Frontier && !transition.continue_in_transaction
            &&& transition.state_rows == 0
            &&& output is Frontier <==> frontier.publish is Some
        },
{
}

/// A frontier is taken up from its cursor, which stands at the front of its own
/// chunk.
pub proof fn frontier_is_taken_up_from_its_cursor(
    continuation: JoinContinuation,
    left: InputState,
    right: InputState,
)
    ensures
        step::frontier_opened(continuation, left, right) matches Ok(facts) ==> {
            &&& continuation matches JoinContinuation::Frontier(cursor) && facts.side == cursor.side
                && facts.positions == cursor.positions && facts.frontier == cursor.frontier
            &&& facts.side is Left ==> facts.positions.left.row_ordinal == 0
                && facts.positions.left.chunk_seq == left.next_chunk_seq
            &&& facts.side is Right ==> facts.positions.right.row_ordinal == 0
                && facts.positions.right.chunk_seq == right.next_chunk_seq
        },
{
}

} // verus!
