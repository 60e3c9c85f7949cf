//! What the statements of a Join stage are told, and what they are believed.

use vstd::prelude::*;

use crate::execution::contract::InputPosition;
use crate::execution::join::layout::{self, Layout};
use crate::execution::join::pages::{self, InnerPage};
use crate::execution::join::planner::{
    CandidateExpectation, CandidateProbe, InputEventFacts, InputFrontiers, InputPositions,
    InputProgress, InputSide, JoinMode, MatchTruth, OutputAction, OwnStateChange,
};
use crate::execution::join::statements::{
    self, AppendRow, CandidateRow, ExpectedOutput, OwnRow,
};
use crate::execution::stream::{ChunkMeta, InputState, OutputAppendTarget, OutputState};
use crate::planner::WorkBudget;
use crate::predicate::{self, Condition, Scene};
use crate::sql::{number, StatementModel};
use crate::text;

verus! {

/// What is kept of a side is kept of its own side, and each side has the other
/// one opposite to it.
pub proof fn sides_keep_to_themselves(
    layout: Layout,
    positions: InputPositions,
    frontiers: InputFrontiers,
)
    ensures
        InputSide::Left.other() is Right,
        InputSide::Right.other() is Left,
        layout.payload_of(InputSide::Left) == layout.left_payload@,
        layout.payload_of(InputSide::Right) == layout.right_payload@,
        layout.type_of(InputSide::Left) == layout.left_type@,
        layout.type_of(InputSide::Right) == layout.right_type@,
        layout.state_of(InputSide::Left) == layout.left_state@,
        layout.state_of(InputSide::Right) == layout.right_state@,
        layout.keys_of(InputSide::Left) == text::texts(layout.left_key_exprs@),
        layout.keys_of(InputSide::Right) == text::texts(layout.right_key_exprs@),
        layout::alias(InputSide::Left) == "left_row"@,
        layout::alias(InputSide::Right) == "right_row"@,
        positions.of(InputSide::Left) == positions.left,
        positions.of(InputSide::Right) == positions.right,
        frontiers.of(InputSide::Left) == frontiers.left,
        frontiers.of(InputSide::Right) == frontiers.right,
        layout.is_keyed() <==> layout.keys_of(InputSide::Left).len() > 0 && layout.keys_of(
            InputSide::Right,
        ).len() > 0,
{
}

/// Whether a statement names one input row from some argument on.
pub open spec fn names_row(statement: StatementModel, place: int, position: InputPosition) -> bool {
    &&& statement.told(place) == number(position.stream_id as int)
    &&& statement.told(place + 1) == number(position.chunk_seq as int)
    &&& statement.told(place + 2) == number(position.row_ordinal as int)
}

/// The statements about an event name the row of its own side.
pub proof fn event_is_named_by_its_row(
    layout: Layout,
    side: InputSide,
    position: InputPosition,
    event: InputEventFacts,
    row_key: Seq<char>,
)
    ensures
        statements::event_query(layout, side, position).arguments.len() == 3,
        names_row(statements::event_query(layout, side, position), 1, position),
        statements::own_query(layout, event, row_key).arguments.len() == 3,
        names_row(
            statements::own_query(layout, event, row_key),
            1,
            event.positions.of(event.side),
        ),
        statements::current_output_query(layout, event).arguments.len() == 3,
        names_row(
            statements::current_output_query(layout, event),
            1,
            event.positions.of(event.side),
        ),
{
}

/// A probe names its event and its weight, the candidate that the event has
/// passed, and the rows and bytes that the budget takes in.
pub proof fn probe_is_told(
    layout: Layout,
    mode: JoinMode,
    progress: InputProgress,
    event: InputEventFacts,
    budget: WorkBudget,
)
    ensures
        statements::probe_model(layout, mode, progress, event, budget) matches Ok(statement) ==> {
            &&& statement.arguments.len() == 7
            &&& names_row(statement, 1, event.positions.of(event.side))
            &&& progress.candidate_after is None ==> statement.told(4) == number(0)
            &&& progress.candidate_after matches Some(passed) ==> statement.told(4) == number(
                passed as int,
            )
            &&& statement.told(5) == number(budget.max_input_rows as int)
            &&& statement.told(6) == number(budget.max_input_bytes as int)
            &&& statement.told(7) == number(event.weight as int)
        },
        statements::probe_model(layout, mode, progress, event, budget) is Ok
            <==> budget.max_input_rows <= i64::MAX && budget.max_input_bytes <= i64::MAX,
{
}

/// An event reads its own payload and finds its candidates in the state of the
/// other side, under the keys of its own.
pub proof fn candidates_are_of_the_other_side(layout: Layout, mode: JoinMode, side: InputSide)
    ensures
        ({
            let holes = statements::scan_holes(layout, side);
            &&& holes.contains(("candidate_state"@, layout.state_of(side.other())))
            &&& holes.contains(("current_payload"@, layout.payload_of(side)))
            &&& holes.contains(("current_alias"@, layout::alias(side)))
            &&& holes.contains(
                (
                    "exact_key_predicate"@,
                    layout::exact_predicate(layout.keys_of(side), "candidate"@),
                ),
            )
            &&& holes.contains(
                (
                    "unknown_key_predicate"@,
                    layout::unknown_predicate(layout.keys_of(side), "candidate"@),
                ),
            )
        }),
        ({
            let holes = statements::probe_holes(layout, mode, side);
            &&& holes.contains(("current_payload"@, layout.payload_of(side)))
            &&& holes.contains(("current_alias"@, layout::alias(side)))
            &&& holes.contains(("candidate_alias"@, layout::alias(side.other())))
            &&& holes.contains(("condition"@, layout.condition@))
        }),
        ({
            let holes = pages::page_holes(layout, side, true);
            &&& holes.contains(("current_payload"@, layout.payload_of(side)))
            &&& holes.contains(("current_alias"@, layout::alias(side)))
            &&& holes.contains(("opposite_state"@, layout.state_of(side.other())))
            &&& holes.contains(("opposite_alias"@, layout::alias(side.other())))
            &&& holes.contains(("condition"@, layout.condition@))
            &&& holes.contains(("output_payload"@, layout.output_payload@))
        }),
{
    let scan = statements::scan_holes(layout, side);
    assert(scan[0] == ("candidate_state"@, layout.state_of(side.other())));
    assert(scan[1] == ("current_payload"@, layout.payload_of(side)));
    assert(scan[2] == ("current_alias"@, layout::alias(side)));
    assert(scan[3] == (
        "exact_key_predicate"@,
        layout::exact_predicate(layout.keys_of(side), "candidate"@),
    ));
    assert(scan[4] == (
        "unknown_key_predicate"@,
        layout::unknown_predicate(layout.keys_of(side), "candidate"@),
    ));
    let probe = statements::probe_holes(layout, mode, side);
    assert(probe[0] == ("current_payload"@, layout.payload_of(side)));
    assert(probe[1] == ("current_alias"@, layout::alias(side)));
    assert(probe[2] == ("candidate_alias"@, layout::alias(side.other())));
    assert(probe[3] == ("condition"@, layout.condition@));
    let page = pages::page_holes(layout, side, true);
    assert(page[1] == ("current_payload"@, layout.payload_of(side)));
    assert(page[2] == ("current_alias"@, layout::alias(side)));
    assert(page[3] == ("opposite_state"@, layout.state_of(side.other())));
    assert(page[4] == ("opposite_alias"@, layout::alias(side.other())));
    assert(page[5] == ("condition"@, layout.condition@));
    assert(page[7] == ("output_payload"@, layout.output_payload@));
}

/// A search for more candidates starts behind the last one of a page, or where
/// the event stood before an empty page.
pub proof fn search_goes_on_behind_the_last_candidate(
    layout: Layout,
    event: InputEventFacts,
    candidates: Seq<CandidateProbe>,
    progress: InputProgress,
)
    ensures
        ({
            let statement = statements::completion_model(
                layout,
                event,
                statements::cursor_behind(candidates, progress),
            );
            &&& candidates.len() > 0 ==> statement.told(1) == number(
                candidates.last().row_id as int,
            )
            &&& candidates.len() == 0 && progress.candidate_after is None ==> statement.told(1)
                == number(0)
            &&& candidates.len() == 0 ==> (progress.candidate_after matches Some(passed)
                ==> statement.told(1) == number(passed as int))
            &&& layout.is_keyed() ==> statement.arguments.len() == 4 && names_row(
                statement,
                2,
                event.positions.of(event.side),
            )
            &&& !layout.is_keyed() ==> statement.arguments.len() == 1
            &&& !layout.is_keyed() && event.side is Left ==> statement.sql
                == "SELECT NOT EXISTS (SELECT 1 FROM "@ + layout.right_state@
                + " WHERE row_id > $1)"@
            &&& !layout.is_keyed() && event.side is Right ==> statement.sql
                == "SELECT NOT EXISTS (SELECT 1 FROM "@ + layout.left_state@ + " WHERE row_id > $1)"@
        }),
{
}

/// A candidate is read off its row, column by column.
pub proof fn candidate_is_read_off_its_row(row: CandidateRow)
    ensures
        row.check() is Ok ==> {
            let candidate = row.candidate();
            &&& row.row_id == Some(candidate.row_id)
            &&& row.multiplicity == Some(candidate.multiplicity as i64)
            &&& row.match_count == Some(candidate.old_counts.matched as i64)
            &&& row.unknown_count == Some(candidate.old_counts.unknown as i64)
            &&& row.row_bytes == Some(candidate.row_bytes as i64)
            &&& row.truth matches Some(truth) && MatchTruth::decoded(
                truth,
            ) == Ok::<MatchTruth, Seq<char>>(candidate.truth)
            &&& row.pair_bytes is Some <==> candidate.output_bytes.pair is Some
            &&& row.candidate_bytes is Some <==> candidate.output_bytes.candidate_only is Some
            &&& row.pair_bytes matches Some(bytes) ==> candidate.output_bytes.pair == Some(
                bytes as u64,
            )
            &&& row.candidate_bytes matches Some(bytes) ==> candidate.output_bytes.candidate_only
                == Some(bytes as u64)
        },
{
}

/// An event takes its weight and size from the one row at its position.
pub proof fn event_is_read_off_its_row(
    rows: usize,
    weight: Option<i64>,
    row_bytes: Option<i64>,
    positions: InputPositions,
    side: InputSide,
)
    ensures
        statements::event_read(rows, weight, row_bytes, positions, side) matches Ok(event) ==> {
            &&& rows == 1
            &&& weight == Some(event.weight)
            &&& row_bytes == Some(event.row_bytes as i64)
            &&& event.positions == positions
            &&& event.side == side
        },
{
}

/// The own row of an event is the one that is stored under its key, or none
/// that counts nothing yet; two are one too many.
pub proof fn own_row_is_the_stored_one(rows: usize, row: OwnRow, event: InputEventFacts)
    ensures
        statements::own_read(rows, row, event) matches Ok(own) ==> {
            &&& rows <= 1
            &&& rows == 0 ==> own.row_id is None && own.multiplicity == 0 && own.counts.matched == 0
                && own.counts.unknown == 0
            &&& rows == 1 ==> {
                &&& own.row_id is Some && own.row_id == row.row_id
                &&& row.multiplicity == Some(own.multiplicity as i64)
                &&& row.match_count == Some(own.counts.matched as i64)
                &&& row.unknown_count == Some(own.counts.unknown as i64)
            }
        },
{
}

/// An action is written with its weight and its place among the actions, from
/// the row of its event, and from the candidate that it names.
pub proof fn action_is_written_as_planned(
    layout: Layout,
    event: InputEventFacts,
    action: OutputAction,
    ordinal: int,
)
    ensures
        ({
            let holes = statements::action_holes(layout, event, action, ordinal);
            let position = event.positions.of(event.side);
            &&& holes.contains(("ordinal"@, text::decimal(ordinal)))
            &&& holes.contains(("weight"@, text::decimal(action.weight as int)))
            &&& holes.contains(("row"@, layout.output_row_of()))
            &&& holes.contains(("current_payload"@, layout.payload_of(event.side)))
            &&& holes.contains(("candidate_state"@, layout.state_of(event.side.other())))
            &&& holes.contains(("current_alias"@, layout::alias(event.side)))
            &&& holes.contains(("opposite_alias"@, layout::alias(event.side.other())))
            &&& holes.contains(("current_type"@, layout.type_of(event.side)))
            &&& holes.contains(("opposite_type"@, layout.type_of(event.side.other())))
            &&& holes.contains(("stream_id"@, text::decimal(position.stream_id as int)))
            &&& holes.contains(("chunk_seq"@, text::decimal(position.chunk_seq as int)))
            &&& holes.contains(("row_ordinal"@, text::decimal(position.row_ordinal as int)))
            &&& action.candidate_row_id matches Some(row_id) ==> holes.contains(
                ("candidate_id"@, text::decimal(row_id as int)),
            )
            &&& action.kind is Pair ==> statements::action_select(layout, event, action, ordinal)
                == text::rendered(statements::PAIR_ACTION_SQL@, holes)
            &&& action.kind is CandidateEligibility ==> statements::action_select(
                layout,
                event,
                action,
                ordinal,
            ) == text::rendered(statements::CANDIDATE_ACTION_SQL@, holes)
            &&& action.kind is CurrentEligibility ==> statements::action_select(
                layout,
                event,
                action,
                ordinal,
            ) == text::rendered(statements::CURRENT_ACTION_SQL@, holes)
        }),
{
    let holes = statements::action_holes(layout, event, action, ordinal);
    let position = event.positions.of(event.side);
    assert(holes[0] == ("ordinal"@, text::decimal(ordinal)));
    assert(holes[1] == ("weight"@, text::decimal(action.weight as int)));
    assert(holes[2] == ("row"@, layout.output_row_of()));
    assert(holes[3] == ("current_payload"@, layout.payload_of(event.side)));
    assert(holes[4] == ("current_alias"@, layout::alias(event.side)));
    assert(holes[5] == ("current_type"@, layout.type_of(event.side)));
    assert(holes[6] == ("candidate_state"@, layout.state_of(event.side.other())));
    assert(holes[7] == ("opposite_alias"@, layout::alias(event.side.other())));
    assert(holes[8] == ("opposite_type"@, layout.type_of(event.side.other())));
    assert(action.candidate_row_id matches Some(row_id) ==> holes[9] == (
        "candidate_id"@,
        text::decimal(row_id as int),
    ));
    assert(holes[10] == ("stream_id"@, text::decimal(position.stream_id as int)));
    assert(holes[11] == ("chunk_seq"@, text::decimal(position.chunk_seq as int)));
    assert(holes[12] == ("row_ordinal"@, text::decimal(position.row_ordinal as int)));
}

/// An action is refused that is not of the side of its event, or that is about
/// a candidate and names none.
pub proof fn actions_belong_to_their_event(action: OutputAction, event: InputEventFacts)
    ensures
        statements::action_check(action, event) is Ok <==> {
            &&& action.sound() is Ok
            &&& action.current_side == event.side
            &&& action.kind is Pair || action.kind is CandidateEligibility
                ==> action.candidate_row_id is Some
        },
{
}

/// The rows of actions go to their target in the output stream, and are held
/// against the rows and bytes that were planned.
pub proof fn actions_are_appended_to_their_target(
    action_rows: Seq<char>,
    expected: ExpectedOutput,
    output_payload: Seq<char>,
    output: OutputState,
    target: OutputAppendTarget,
)
    ensures
        statements::append_model(action_rows, expected, output_payload, output, target) matches Ok(
            statement,
        ) ==> {
            &&& statement.arguments.len() == 5
            &&& statement.told(1) == number(output.stream_id as int)
            &&& statement.told(3) == number(expected.rows as int)
            &&& statement.told(4) == number(expected.bytes as int)
            &&& match target {
                OutputAppendTarget::New { sequence } => statement.told(2) == number(sequence as int)
                    && statement.told(5) == number(0),
                OutputAppendTarget::Extend { sequence, row_offset } => statement.told(2) == number(
                    sequence as int,
                ) && statement.told(5) == number(row_offset as int),
            }
        },
{
}

/// An append is believed exactly when it evaluated and stored what was planned.
pub proof fn appended_actions_are_as_planned(
    rows: int,
    row: AppendRow,
    expected: ExpectedOutput,
    target: OutputAppendTarget,
    lsn: u64,
)
    ensures
        match statements::append_read(rows, row, expected, target, lsn) {
            Ok(append) => {
                &&& append.target == target
                &&& append.rows == expected.rows
                &&& append.bytes == expected.bytes
                &&& append.lsn == lsn
            },
            Err(_) => true,
        },
        statements::append_read(rows, row, expected, target, lsn) is Ok <==> {
            &&& rows == 1
            &&& row.rows matches Some(found) && found == expected.rows
            &&& row.inserted matches Some(found) && found == expected.rows
            &&& row.bytes matches Some(found) && found == expected.bytes
            &&& row.stored_bytes matches Some(found) && found == expected.bytes
        },
{
}

/// The state of a candidate is changed from the counts that were read to the
/// counts that were planned, in this order.
pub proof fn candidate_change_names_both_counts(expected: CandidateExpectation)
    ensures
        ({
            let numbers = seq![
                text::decimal(expected.row_id as int),
                text::decimal(expected.multiplicity as int),
                text::decimal(expected.old_counts.matched as int),
                text::decimal(expected.old_counts.unknown as int),
                text::decimal(expected.new_counts.matched as int),
                text::decimal(expected.new_counts.unknown as int),
            ];
            statements::change_values(expected) == "("@ + text::joined(numbers, ","@) + ")"@
        }),
{
    let numbers = seq![
        text::decimal(expected.row_id as int),
        text::decimal(expected.multiplicity as int),
        text::decimal(expected.old_counts.matched as int),
        text::decimal(expected.old_counts.unknown as int),
        text::decimal(expected.new_counts.matched as int),
        text::decimal(expected.new_counts.unknown as int),
    ];
    assert(numbers.drop_last() =~= numbers.take(5));
    assert(numbers.take(5).drop_last() =~= numbers.take(4));
    assert(numbers.take(4).drop_last() =~= numbers.take(3));
    assert(numbers.take(3).drop_last() =~= numbers.take(2));
    assert(numbers.take(2).drop_last() =~= numbers.take(1));
    assert(text::joined(numbers.take(1), ","@) == numbers[0]);
    assert(text::joined(numbers.take(2), ","@) == numbers[0] + ","@ + numbers[1]);
    assert(text::joined(numbers.take(3), ","@) == text::joined(numbers.take(2), ","@) + ","@
        + numbers[2]);
    assert(text::joined(numbers.take(4), ","@) == text::joined(numbers.take(3), ","@) + ","@
        + numbers[3]);
    assert(text::joined(numbers.take(5), ","@) == text::joined(numbers.take(4), ","@) + ","@
        + numbers[4]);
    assert(text::joined(numbers, ","@) == text::joined(numbers.take(5), ","@) + ","@ + numbers[5]);
}

/// Every candidate of a change was changed.
pub proof fn all_candidates_are_changed(updated: Option<i64>, changes: usize)
    ensures
        statements::candidates_changed(updated, changes) matches Ok(count) ==> count == changes,
        statements::candidates_changed(updated, changes) is Ok <==> (updated matches Some(count)
            && count == changes),
{
}

/// The own row of an event is inserted, updated or deleted as planned: from the
/// multiplicity that was read to the one that was planned, with the counts that
/// were planned.
pub proof fn own_change_is_written_as_planned(
    layout: Layout,
    event: InputEventFacts,
    change: OwnStateChange,
    row_key: Seq<char>,
)
    ensures
        ({
            let holes = statements::own_change_holes(layout, event, change, row_key);
            let position = event.positions.of(event.side);
            let sql = statements::own_change_sql(layout, event, change, row_key);
            &&& holes.contains(("state"@, layout.state_of(event.side)))
            &&& holes.contains(("payload"@, layout.payload_of(event.side)))
            &&& holes.contains(("new_multiplicity"@, text::decimal(change.new_multiplicity as int)))
            &&& holes.contains(
                ("old_multiplicity"@, text::decimal(change.expected_multiplicity as int)),
            )
            &&& holes.contains(("match_count"@, text::decimal(change.counts.matched as int)))
            &&& holes.contains(("unknown_count"@, text::decimal(change.counts.unknown as int)))
            &&& holes.contains(("stream_id"@, text::decimal(position.stream_id as int)))
            &&& holes.contains(("chunk_seq"@, text::decimal(position.chunk_seq as int)))
            &&& holes.contains(("row_ordinal"@, text::decimal(position.row_ordinal as int)))
            &&& change.expected_row_id matches Some(row_id) ==> holes.contains(
                ("row_id"@, text::decimal(row_id as int)),
            )
            &&& change.kind is Insert ==> sql == Ok::<Seq<char>, Seq<char>>(
                text::rendered(statements::OWN_INSERT_SQL@, holes),
            )
            &&& !(change.kind is Insert) && change.expected_row_id is None ==> sql is Err
            &&& change.kind is Update && change.expected_row_id is Some ==> sql == Ok::<
                Seq<char>,
                Seq<char>,
            >(text::rendered(statements::OWN_UPDATE_SQL@, holes))
            &&& change.kind is Delete && change.expected_row_id is Some ==> sql == Ok::<
                Seq<char>,
                Seq<char>,
            >(text::rendered(statements::OWN_DELETE_SQL@, holes))
        }),
{
    let holes = statements::own_change_holes(layout, event, change, row_key);
    let position = event.positions.of(event.side);
    assert(holes[0] == ("state"@, layout.state_of(event.side)));
    assert(holes[3] == ("new_multiplicity"@, text::decimal(change.new_multiplicity as int)));
    assert(holes[4] == ("match_count"@, text::decimal(change.counts.matched as int)));
    assert(holes[5] == ("unknown_count"@, text::decimal(change.counts.unknown as int)));
    assert(holes[6] == ("payload"@, layout.payload_of(event.side)));
    assert(holes[8] == ("stream_id"@, text::decimal(position.stream_id as int)));
    assert(holes[9] == ("chunk_seq"@, text::decimal(position.chunk_seq as int)));
    assert(holes[10] == ("row_ordinal"@, text::decimal(position.row_ordinal as int)));
    assert(change.expected_row_id matches Some(row_id) ==> holes[11] == (
        "row_id"@,
        text::decimal(row_id as int),
    ));
    assert(holes[12] == ("old_multiplicity"@, text::decimal(change.expected_multiplicity as int)));
}

/// The statements of a page name its chunk; the append also names its target.
pub proof fn page_is_named_by_its_chunk(
    layout: Layout,
    side: InputSide,
    row_key: Seq<char>,
    chunk: ChunkMeta,
    output: OutputState,
    target: OutputAppendTarget,
)
    ensures
        ({
            let named = seq![number(chunk.stream_id as int), number(chunk.sequence as int)];
            &&& pages::measure_query(layout, side, chunk).arguments == named
            &&& pages::candidates_query(layout, side, chunk).arguments == named
            &&& pages::own_state_query(layout, side, row_key, chunk).arguments == named
        }),
        pages::append_page_model(layout, side, chunk, output, target) matches Ok(statement) ==> {
            &&& statement.arguments.len() == 5
            &&& statement.told(1) == number(chunk.stream_id as int)
            &&& statement.told(2) == number(chunk.sequence as int)
            &&& statement.told(3) == number(output.stream_id as int)
            &&& match target {
                OutputAppendTarget::New { sequence } => statement.told(4) == number(sequence as int)
                    && statement.told(5) == number(0),
                OutputAppendTarget::Extend { sequence, row_offset } => statement.told(4) == number(
                    sequence as int,
                ) && statement.told(5) == number(row_offset as int),
            }
        },
{
}

/// A page is taken as a whole exactly when its output fits the budget.
pub proof fn page_is_taken_where_it_fits(
    rows: int,
    side: InputSide,
    chunk: ChunkMeta,
    output_rows: Option<i64>,
    output_bytes: Option<i64>,
    budget: WorkBudget,
)
    ensures
        pages::page_read(rows, side, chunk, output_rows, output_bytes, budget) matches Ok(
            Some(page),
        ) ==> {
            &&& page.side == side
            &&& page.chunk == chunk
            &&& output_rows == Some(page.output_rows as i64)
            &&& output_bytes == Some(page.output_bytes as i64)
            &&& page.output_rows <= budget.max_output_rows
            &&& page.output_bytes <= budget.max_output_bytes
        },
        pages::page_read(rows, side, chunk, output_rows, output_bytes, budget) matches Ok(None)
            ==> output_rows->0 > budget.max_output_rows || output_bytes->0
            > budget.max_output_bytes,
        pages::page_read(rows, side, chunk, output_rows, output_bytes, budget) is Err <==> {
            ||| rows != 1
            ||| !(output_rows matches Some(found) && found >= 0)
            ||| !(output_bytes matches Some(found) && found >= 0)
        },
{
}

/// A page appends exactly what was measured, under the position of its chunk.
pub proof fn page_appends_what_was_measured(
    summaries: usize,
    page: InnerPage,
    target: OutputAppendTarget,
    rows: Option<i64>,
    bytes: Option<i64>,
)
    ensures
        pages::append_page_read(summaries, page, target, rows, bytes) matches Ok(append) ==> {
            &&& append.target == target
            &&& append.rows == page.output_rows
            &&& append.bytes == page.output_bytes
            &&& append.lsn == page.chunk.lsn
        },
        pages::append_page_read(summaries, page, target, rows, bytes) is Ok <==> {
            &&& summaries == 1
            &&& rows matches Some(found) && found == page.output_rows
            &&& bytes matches Some(found) && found == page.output_bytes
        },
{
}

/// The states of a page are believed when every count that had to change did,
/// and no multiplicity went below zero.
pub proof fn page_states_are_changed_as_a_whole(
    rows: int,
    one: Option<i64>,
    other: Option<i64>,
    third: Option<i64>,
)
    ensures
        pages::candidates_sound(rows, one, other) is Ok <==> rows == 1 && one is Some && one
            == other,
        pages::own_state_sound(rows, one, other, third) is Ok <==> rows == 1 && one is Some && one
            == other && other == third,
{
}

/// A consumed page moves its consumer to the next chunk and accounts for its
/// input and its output.
pub proof fn page_moves_its_consumer(page: InnerPage, input: InputState)
    ensures
        pages::page_advanced(page, input) matches Ok((advance, usage)) ==> {
            &&& advance.next_chunk_seq == input.next_chunk_seq + 1
            &&& advance.frontier_lsn == input.consumed_frontier_lsn
            &&& advance.usage.input_rows == page.chunk.rows
            &&& advance.usage.input_bytes == page.chunk.bytes
            &&& usage.input_rows == page.chunk.rows
            &&& usage.input_bytes == page.chunk.bytes
            &&& usage.output_rows == page.output_rows
            &&& usage.output_bytes == page.output_bytes
        },
        pages::page_advanced(page, input) is Err <==> input.next_chunk_seq == i64::MAX,
{
}

/// The column of an index at a place.
pub open spec fn index_column(place: int) -> Seq<char> {
    "identity_index.indkey["@ + text::decimal(place) + "]"@
}

/// An equality index has its keys in their order, behind the three columns of
/// the row, and the row itself last.
pub proof fn equality_index_has_its_keys_in_order(count: nat, scene: Scene)
    ensures
        exists|condition: Condition|
            #![trigger condition.written()]
            {
                &&& condition.written() == layout::index_key_list(count)
                &&& condition.legible()
                &&& condition.passes(scene) <==> (forall|place: int|
                    0 <= place < count ==> scene.says(
                        #[trigger] index_column(place),
                        "="@,
                        text::decimal(place + 4),
                    )) && scene.says(index_column(count as int), "="@, text::decimal(1))
            },
{
    let parts = Seq::new(
        count + 1,
        |place: int|
            Condition::Compare {
                left: index_column(place),
                gap: " "@,
                operator: "="@,
                right: text::decimal(
                    if place < count {
                        place + 4
                    } else {
                        1
                    },
                ),
            },
    );
    let list = Seq::new(count, |ordinal: int| layout::index_key(ordinal, ordinal + 4)).push(
        layout::index_key(count as int, 1),
    );
    predicate::all_are_linked(parts, list, scene);
    let condition = Condition::Linked { parts, link: " AND "@ };
    assert(condition.written() == layout::index_key_list(count));
    if condition.passes(scene) {
        assert forall|place: int| 0 <= place < count implies scene.says(
            #[trigger] index_column(place),
            "="@,
            text::decimal(place + 4),
        ) by {
            assert(parts[place].passes(scene));
        }
        assert(parts[count as int].passes(scene));
    }
    if (forall|place: int|
        0 <= place < count ==> scene.says(
            #[trigger] index_column(place),
            "="@,
            text::decimal(place + 4),
        )) && scene.says(index_column(count as int), "="@, text::decimal(1)) {
        assert forall|place: int| 0 <= place < parts.len() implies (
        #[trigger] parts[place]).passes(scene) by {
            if place < count {
                assert(scene.says(index_column(place), "="@, text::decimal(place + 4)));
            }
        }
    }
}

} // verus!
