//! How the columns and the sides of a Join line up in its statements.

use vstd::prelude::*;

use crate::execution::join::layout::{self, Layout};
use crate::execution::join::pages;
use crate::execution::join::planner::{InputSide, JoinMode};
use crate::execution::join::provision;
use crate::execution::join::statements;
use crate::execution::stream::{ChunkMeta, OutputAppendTarget, OutputState};
use crate::planner::WorkBudget;
use crate::postgres;
use crate::text;

verus! {

/// The columns of the equality keys, in their order.
pub open spec fn names_keys(names: Seq<Seq<char>>, count: nat) -> bool {
    &&& names.len() == count
    &&& forall|ordinal: int|
        0 <= ordinal < count ==> #[trigger] names[ordinal] == "key_"@ + text::decimal(ordinal)
}

/// An arrangement row is written column by column: what goes into the key
/// columns is what stands there under their names, in the same order.
pub proof fn arrangement_is_written_column_by_column(names: Seq<Seq<char>>, count: nat)
    requires
        names_keys(names, count),
    ensures
        layout::key_column_list(count) == text::joined(names, ","@),
        count > 0 ==> layout::insert_column_list(count) == "row_key,row_value,"@ + text::joined(
            names,
            ","@,
        ) + ",multiplicity,match_count,unknown_count"@,
        count > 0 ==> pages::insert_value_list(count) == "row_key,row_value,"@ + text::joined(
            names,
            ","@,
        ) + ",new_multiplicity,match_count,unknown_count"@,
        count == 0 ==> layout::insert_column_list(count)
            == "row_key,row_value,multiplicity,match_count,unknown_count"@,
        count == 0 ==> pages::insert_value_list(count)
            == "row_key,row_value,new_multiplicity,match_count,unknown_count"@,
{
    let keys = Seq::new(count, |ordinal: int| layout::key_name(ordinal));
    assert(keys =~= names);
}

/// The key expressions of a side are computed under the names of their columns.
pub proof fn keys_are_computed_under_their_names(
    keys: Seq<Seq<char>>,
    names: Seq<Seq<char>>,
    items: Seq<Seq<char>>,
)
    requires
        names_keys(names, keys.len()),
        items.len() == keys.len(),
        forall|ordinal: int|
            0 <= ordinal < keys.len() ==> #[trigger] items[ordinal] == keys[ordinal] + " AS "@
                + names[ordinal],
    ensures
        keys.len() > 0 ==> pages::key_projection(keys) == ","@ + text::joined(items, ","@),
        keys.len() == 0 ==> pages::key_projection(keys) == ""@,
{
    let listed = Seq::new(
        keys.len(),
        |ordinal: int| keys[ordinal] + " AS "@ + layout::key_name(ordinal),
    );
    assert forall|ordinal: int| 0 <= ordinal < keys.len() implies listed[ordinal]
        == #[trigger] items[ordinal] by {
        assert(names[ordinal] == layout::key_name(ordinal));
    }
    assert(listed =~= items);
}

/// The index of an arrangement leads with its keys, and tells rows with equal
/// keys apart.
pub proof fn arrangement_is_indexed_by_its_keys(
    name: Seq<char>,
    relation: Seq<char>,
    names: Seq<Seq<char>>,
    keys: usize,
)
    requires
        names_keys(names, keys as nat),
    ensures
        provision::arrangement_key(name, relation, keys) == "CREATE INDEX "@ + postgres::quoted(
            name + "_key_idx"@,
        ) + " ON "@ + relation + " ("@ + text::joined(names.push("row_id"@), ","@) + ")"@,
{
    let listed = Seq::new(keys as nat, |ordinal: int| layout::key_name(ordinal));
    assert(listed =~= names);
}

/// A new row of an arrangement holds the key of its row, the row of its own
/// side, and the keys of that side.
pub proof fn own_row_is_written_from_its_side(layout: Layout, row_key: Seq<char>)
    ensures
        layout.left_key_exprs@.len() == 0 ==> statements::own_values(
            layout,
            InputSide::Left,
            row_key,
        ) == row_key + ","@ + "left_row"@ + ".row_value"@,
        layout.right_key_exprs@.len() == 0 ==> statements::own_values(
            layout,
            InputSide::Right,
            row_key,
        ) == row_key + ","@ + "right_row"@ + ".row_value"@,
        layout.left_key_exprs@.len() > 0 ==> statements::own_values(
            layout,
            InputSide::Left,
            row_key,
        ) == row_key + ","@ + "left_row"@ + ".row_value"@ + ","@ + text::joined(
            text::texts(layout.left_key_exprs@),
            ","@,
        ),
        layout.right_key_exprs@.len() > 0 ==> statements::own_values(
            layout,
            InputSide::Right,
            row_key,
        ) == row_key + ","@ + "right_row"@ + ".row_value"@ + ","@ + text::joined(
            text::texts(layout.right_key_exprs@),
            ","@,
        ),
{
}

/// The output of an event without a match is made of its own row, and of nulls
/// of the type of the other side.
pub proof fn unmatched_output_is_of_the_own_side(layout: Layout, side: InputSide)
    ensures
        ({
            let holes = statements::current_output_holes(layout, side);
            let (own, own_payload, other, other_type) = if side is Left {
                ("left_row"@, layout.left_payload@, "right_row"@, layout.right_type@)
            } else {
                ("right_row"@, layout.right_payload@, "left_row"@, layout.left_type@)
            };
            &&& holes.contains(("outputs"@, layout.outputs@))
            &&& holes.contains(("output_type"@, layout.output_type@))
            &&& holes.contains(("payload"@, own_payload))
            &&& holes.contains(("current_alias"@, own))
            &&& holes.contains(("opposite_type"@, other_type))
            &&& holes.contains(("opposite_alias"@, other))
        }),
{
    let holes = statements::current_output_holes(layout, side);
    assert(holes[0] == ("outputs"@, layout.outputs@));
    assert(holes[1] == ("output_type"@, layout.output_type@));
    assert(holes[2] == ("payload"@, layout.payload_of(side)));
    assert(holes[3] == ("current_alias"@, layout::alias(side)));
    assert(holes[4] == ("opposite_type"@, layout.type_of(side.other())));
    assert(holes[5] == ("opposite_alias"@, layout::alias(side.other())));
}

/// A candidate is eligible before the event by the counts that it has, and
/// behind it by the counts that it gets.
pub proof fn candidate_is_judged_before_and_behind(layout: Layout, mode: JoinMode, side: InputSide)
    ensures
        ({
            let holes = statements::candidate_byte_holes(layout, mode, side);
            let candidate = if side is Left {
                "right_row"@
            } else {
                "left_row"@
            };
            &&& holes.contains(
                (
                    "old_eligible"@,
                    statements::eligibility(
                        mode,
                        candidate + "."@ + "match_count"@,
                        candidate + "."@ + "unknown_count"@,
                    ),
                ),
            )
            &&& holes.contains(
                (
                    "new_eligible"@,
                    statements::eligibility(
                        mode,
                        candidate + "."@ + "new_match_count"@,
                        candidate + "."@ + "new_unknown_count"@,
                    ),
                ),
            )
            &&& side is Left ==> holes.contains(("current_type"@, layout.left_type@))
                && holes.contains(("current_alias"@, "left_row"@))
            &&& side is Right ==> holes.contains(("current_type"@, layout.right_type@))
                && holes.contains(("current_alias"@, "right_row"@))
        }),
{
    let holes = statements::candidate_byte_holes(layout, mode, side);
    let candidate = layout::alias(side.other());
    assert(holes[0] == (
        "old_eligible"@,
        statements::eligibility(
            mode,
            candidate + "."@ + "match_count"@,
            candidate + "."@ + "unknown_count"@,
        ),
    ));
    assert(holes[1] == (
        "new_eligible"@,
        statements::eligibility(
            mode,
            candidate + "."@ + "new_match_count"@,
            candidate + "."@ + "new_unknown_count"@,
        ),
    ));
    assert(holes[4] == ("current_type"@, layout.type_of(side)));
    assert(holes[5] == ("current_alias"@, layout::alias(side)));
}

/// The rows of a page enter the arrangement of their own side, and their
/// matches are counted in that of the other one.
pub proof fn page_rows_enter_their_own_side(layout: Layout, side: InputSide, row_key: Seq<char>)
    ensures
        ({
            let holes = pages::own_state_holes(layout, side, row_key);
            let (own, own_payload, own_state) = if side is Left {
                ("left_row"@, layout.left_payload@, layout.left_state@)
            } else {
                ("right_row"@, layout.right_payload@, layout.right_state@)
            };
            &&& holes.contains(("row_key"@, row_key))
            &&& holes.contains(("current_payload"@, own_payload))
            &&& holes.contains(("current_alias"@, own))
            &&& holes.contains(("state"@, own_state))
            &&& holes.contains(("match_count"@, pages::match_count(layout, side)))
            &&& holes.contains(("unknown_count"@, pages::unknown_count(layout, side)))
            &&& holes.contains(("counts_join"@, pages::counts_join(layout, side)))
        }),
        ({
            let holes = pages::count_holes(layout, side, true);
            let (own, other, other_state) = if side is Left {
                ("left_row"@, "right_row"@, layout.right_state@)
            } else {
                ("right_row"@, "left_row"@, layout.left_state@)
            };
            &&& holes.contains(("current_alias"@, own))
            &&& holes.contains(("opposite_alias"@, other))
            &&& holes.contains(("opposite_state"@, other_state))
            &&& holes.contains(("condition"@, layout.condition@))
        }),
{
    let holes = pages::own_state_holes(layout, side, row_key);
    assert(holes[0] == ("row_key"@, row_key));
    assert(holes[1] == ("current_payload"@, layout.payload_of(side)));
    assert(holes[2] == ("current_alias"@, layout::alias(side)));
    assert(holes[3] == ("match_count"@, pages::match_count(layout, side)));
    assert(holes[4] == ("unknown_count"@, pages::unknown_count(layout, side)));
    assert(holes[5] == ("counts_join"@, pages::counts_join(layout, side)));
    assert(holes[9] == ("state"@, layout.state_of(side)));
    let counts = pages::count_holes(layout, side, true);
    assert(counts[0] == ("opposite_alias"@, layout::alias(side.other())));
    assert(counts[1] == ("current_alias"@, layout::alias(side)));
    assert(counts[2] == ("opposite_state"@, layout.state_of(side.other())));
    assert(counts[3] == ("condition"@, layout.condition@));
}

/// The output of a page is joined on equal keys alone; its candidates, and the
/// count of its rows that may match, are joined on keys that may be equal too.
pub proof fn page_is_joined_on_its_keys(layout: Layout, side: InputSide, include_unknown: bool)
    ensures
        layout.is_keyed() ==> pages::page_holes(layout, side, include_unknown).contains(
            (
                "key_join"@,
                "AND "@ + layout::key_predicate(
                    layout,
                    side,
                    layout::alias(side.other()),
                    include_unknown,
                ),
            ),
        ),
        !layout.is_keyed() ==> pages::page_holes(layout, side, include_unknown).contains(
            ("key_join"@, ""@),
        ),
        side is Left ==> pages::page_holes(layout, side, include_unknown).contains(
            ("page_predicate"@, "left_row"@ + ".stream_id=$1 AND "@ + "left_row"@ + ".chunk_seq=$2"@),
        ),
        side is Right ==> pages::page_holes(layout, side, include_unknown).contains(
            (
                "page_predicate"@,
                "right_row"@ + ".stream_id=$1 AND "@ + "right_row"@ + ".chunk_seq=$2"@,
            ),
        ),
{
    let holes = pages::page_holes(layout, side, include_unknown);
    assert(holes[6] == (
        "key_join"@,
        layout::key_join(layout, side, layout::alias(side.other()), include_unknown),
    ));
    assert(holes[8] == (
        "page_predicate"@,
        layout::alias(side) + ".stream_id=$1 AND "@ + layout::alias(side) + ".chunk_seq=$2"@,
    ));
}

/// The output of a page, and the count of its matches, go by equal keys; the
/// candidates that it touches, and the count of its rows that may match, go by
/// keys that may be equal.
pub proof fn page_statements_go_by_their_keys(
    layout: Layout,
    side: InputSide,
    chunk: ChunkMeta,
    output: OutputState,
    target: OutputAppendTarget,
)
    ensures
        pages::measure_query(layout, side, chunk).sql == text::rendered(
            pages::MEASURE_PAGE_SQL@,
            pages::page_holes(layout, side, false),
        ),
        pages::append_page_model(layout, side, chunk, output, target) matches Ok(statement)
            ==> statement.sql == text::rendered(
            pages::APPEND_PAGE_SQL@,
            pages::page_holes(layout, side, false),
        ),
        pages::candidates_query(layout, side, chunk).sql == text::rendered(
            pages::PAGE_CANDIDATES_SQL@,
            pages::page_holes(layout, side, true),
        ),
        layout.is_keyed() ==> pages::match_count(layout, side) == text::rendered(
            pages::MATCH_COUNT_SQL@,
            pages::count_holes(layout, side, false),
        ) && pages::unknown_count(layout, side) == text::rendered(
            pages::UNKNOWN_COUNT_SQL@,
            pages::count_holes(layout, side, true),
        ) && pages::counts_join(layout, side) == ""@,
        !layout.is_keyed() ==> pages::match_count(layout, side) == "counts.match_count"@
            && pages::unknown_count(layout, side) == "counts.unknown_count"@ && pages::counts_join(
            layout,
            side,
        ) == text::rendered(pages::COUNTS_JOIN_SQL@, pages::count_holes(layout, side, false)),
{
}

/// The output of a quantum is held to the target of its stream, and its input
/// is left as it is.
pub proof fn output_is_held_to_the_target(budget: WorkBudget, output: OutputState)
    ensures
        pages::clamped(budget, output) is Ok <==> output.target_rows > 0 && output.target_bytes > 0,
        pages::clamped(budget, output) matches Ok(held) ==> {
            &&& held.max_input_rows == budget.max_input_rows
            &&& held.max_input_bytes == budget.max_input_bytes
            &&& held.max_output_rows <= budget.max_output_rows
            &&& held.max_output_rows <= output.target_rows
            &&& held.max_output_rows == budget.max_output_rows || held.max_output_rows
                == output.target_rows
            &&& held.max_output_bytes <= budget.max_output_bytes
            &&& held.max_output_bytes <= output.target_bytes
            &&& held.max_output_bytes == budget.max_output_bytes || held.max_output_bytes
                == output.target_bytes
        },
{
}

/// Candidates are found by their keys exactly where the Join has keys, and each
/// of them is sized for the mode of the Join.
pub proof fn candidates_are_found_by_their_keys(layout: Layout, mode: JoinMode, side: InputSide)
    ensures
        layout.is_keyed() ==> statements::candidate_source(layout, side) == text::rendered(
            statements::KEYED_SOURCE_SQL@,
            statements::scan_holes(layout, side),
        ),
        !layout.is_keyed() ==> statements::candidate_source(layout, side) == text::rendered(
            statements::PLAIN_SOURCE_SQL@,
            statements::scan_holes(layout, side),
        ),
        ({
            let holes = statements::probe_holes(layout, mode, side);
            &&& holes.contains(("candidate_source"@, statements::candidate_source(layout, side)))
            &&& holes.contains(("candidate_bytes"@, statements::candidate_bytes(layout, mode, side)))
            &&& holes.contains(
                (
                    "pair_bytes"@,
                    statements::pair_bytes(layout, mode, layout::alias(side.other())),
                ),
            )
        }),
{
    let holes = statements::probe_holes(layout, mode, side);
    assert(holes[4] == ("candidate_source"@, statements::candidate_source(layout, side)));
    assert(holes[6] == (
        "pair_bytes"@,
        statements::pair_bytes(layout, mode, layout::alias(side.other())),
    ));
    assert(holes[7] == ("candidate_bytes"@, statements::candidate_bytes(layout, mode, side)));
}

/// A pair is sized exactly where pairs go out, which is but for a semijoin and
/// an antijoin; a candidate by itself exactly where rows of its side go out by
/// themselves.
pub proof fn output_is_sized_where_it_goes_out(layout: Layout, mode: JoinMode, side: InputSide)
    ensures
        mode is Semi || mode is Anti || mode is NullAwareAnti ==> statements::pair_bytes(
            layout,
            mode,
            layout::alias(side.other()),
        ) == "NULL::bigint"@,
        !(mode is Semi || mode is Anti || mode is NullAwareAnti) ==> statements::pair_bytes(
            layout,
            mode,
            layout::alias(side.other()),
        ) == text::rendered(
            statements::PAIR_BYTES_SQL@,
            seq![
                ("candidate_alias"@, layout::alias(side.other())),
                ("outputs"@, layout.outputs@),
                ("output_type"@, layout.output_type@),
            ],
        ),
        ({
            let goes_out = match mode {
                JoinMode::Inner => false,
                JoinMode::Left | JoinMode::Semi | JoinMode::Anti | JoinMode::NullAwareAnti => side
                    is Right,
                JoinMode::Right => side is Left,
                JoinMode::Full => true,
            };
            &&& goes_out ==> statements::candidate_bytes(layout, mode, side) == text::rendered(
                statements::CANDIDATE_BYTES_SQL@,
                statements::candidate_byte_holes(layout, mode, side),
            )
            &&& !goes_out ==> statements::candidate_bytes(layout, mode, side) == "NULL::bigint"@
        }),
{
}

} // verus!
