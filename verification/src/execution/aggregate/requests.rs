//! What the statements of an Aggregate stage are told, and what they are
//! believed.

use vstd::prelude::*;

use crate::execution::aggregate::apply::{self, ApplyRow, ApplySql};
use crate::execution::aggregate::emit;
use crate::execution::aggregate::order;
use crate::execution::aggregate::pages::{self, GroupPage, PageSelection, PageSql, SelectionRow};
use crate::execution::aggregate::rebuild::{self, AggregateCapability, RebuildSql};
use crate::execution::aggregate::step;
use crate::execution::btree;
use crate::execution::requests::{names_position, names_prefix};
use crate::execution::stream::{ChunkMeta, OutputAppendTarget, OutputState};
use crate::planner::WorkBudget;
use crate::postgres;
use crate::sql::{number, SqlModel};

verus! {

/// A prefix of a chunk is applied in two statements that name the same rows and
/// the same budget; the second one also names the position of the chunk.
pub proof fn prefix_is_named_twice(
    sql: ApplySql,
    chunk: ChunkMeta,
    first_row: i64,
    budget: WorkBudget,
)
    ensures
        budget.max_input_rows <= i64::MAX && budget.max_input_bytes <= i64::MAX ==> {
            &&& apply::ensure_query(sql, chunk, first_row, budget) matches Ok(ensure)
                && ensure.arguments.len() == 5 && names_prefix(ensure, chunk, first_row, budget)
            &&& apply::apply_query(sql, chunk, first_row, budget) matches Ok(applied)
                && applied.arguments.len() == 6 && names_prefix(applied, chunk, first_row, budget)
                && names_position(applied.told(6), chunk.lsn)
        },
        budget.max_input_rows > i64::MAX || budget.max_input_bytes > i64::MAX ==> {
            &&& apply::ensure_query(sql, chunk, first_row, budget) is Err
            &&& apply::apply_query(sql, chunk, first_row, budget) is Err
        },
{
    postgres::lsn_text_is_read_back(chunk.lsn);
}

/// An application reads its input, matches rows with groups by the orders of
/// the keys, and writes to the bag and to the queue of dirty groups.
pub proof fn application_works_on_its_relations(sql: ApplySql)
    ensures
        sql.group_holes().contains(("input"@, sql.input@)),
        sql.group_holes().contains(("groups"@, sql.groups@)),
        sql.holes().contains(("input"@, sql.input@)),
        sql.holes().contains(("groups"@, sql.groups@)),
        sql.holes().contains(("bag"@, sql.bag@)),
        sql.holes().contains(("dirty"@, sql.dirty@)),
        sql.holes().contains(("row_image"@, sql.row_image@)),
        sql.holes().contains(
            (
                "group_match"@,
                order::group_match(
                    "evaluated_base"@,
                    "resolved_group"@,
                    btree::orders(sql.group_orders@),
                ),
            ),
        ),
{
    assert(sql.group_holes()[0] == ("input"@, sql.input@));
    assert(sql.group_holes()[1] == ("groups"@, sql.groups@));
    assert(sql.holes()[0] == ("input"@, sql.input@));
    assert(sql.holes()[2] == ("groups"@, sql.groups@));
    assert(sql.holes()[3] == (
        "group_match"@,
        order::group_match(
            "evaluated_base"@,
            "resolved_group"@,
            btree::orders(sql.group_orders@),
        ),
    ));
    assert(sql.holes()[4] == ("row_image"@, sql.row_image@));
    assert(sql.holes()[6] == ("bag"@, sql.bag@));
    assert(sql.holes()[9] == ("dirty"@, sql.dirty@));
}

/// An applied prefix is believed when its summary is whole, when it took in at
/// least one row, and when it ends right behind the rows that it took in. The
/// state rows are those of the prefix and of its new groups.
pub proof fn applied_prefix_adds_up(
    rows: int,
    row: ApplyRow,
    first_row: i64,
    ensured_groups: u64,
)
    ensures
        apply::applied(rows, row, first_row, ensured_groups) matches Ok(facts) ==> {
            &&& rows == 1
            &&& row.status matches Some(status) && status@ == "ok"@
            &&& facts.usage.input_rows > 0
            &&& row.rows == Some(facts.usage.input_rows as i64)
            &&& row.bytes == Some(facts.usage.input_bytes as i64)
            &&& facts.usage.output_rows == 0 && facts.usage.output_bytes == 0
            &&& facts.next_row == first_row + facts.usage.input_rows
            &&& row.state_rows matches Some(changed) && changed >= 0 && facts.state_rows == changed
                + ensured_groups
        },
        apply::applied(rows, row, first_row, ensured_groups) is Err ==> {
            ||| rows != 1
            ||| !(row.status matches Some(status) && status@ == "ok"@)
            ||| !(row.rows matches Some(taken) && taken > 0 && first_row + taken <= i64::MAX
                && row.next_row == Some((first_row + taken) as i64))
            ||| !(row.bytes matches Some(bytes) && bytes >= 0)
            ||| !(row.state_rows matches Some(changed) && changed >= 0 && changed + ensured_groups
                <= u64::MAX)
        },
{
}

/// The fold of a group starts without a state exactly when its transition is
/// strict and nothing is given to begin with.
pub proof fn fold_starts_by_its_transition(
    work: Seq<char>,
    dirty: Seq<char>,
    initial_state: Seq<char>,
    capability: AggregateCapability,
    group_queue_id: i64,
)
    ensures
        ({
            let statement = rebuild::initialize_query(
                work,
                dirty,
                initial_state,
                capability,
                group_queue_id,
            );
            &&& statement.arguments.len() == 2
            &&& statement.told(1) == number(group_queue_id as int)
            &&& statement.told(2) == SqlModel::Boolean(Some(true)) <==> capability.transition_is_strict
                && capability.initial_literal is None
            &&& statement.told(2) == SqlModel::Boolean(Some(false)) <==> !(
            capability.transition_is_strict && capability.initial_literal is None)
        }),
{
}

/// A page of a fold names its group and the budget, and looks one row further
/// to see whether the group goes on.
pub proof fn fold_looks_one_row_further(sql: RebuildSql, group_queue_id: i64, budget: WorkBudget)
    ensures
        rebuild::rebuild_query(sql, group_queue_id, budget) matches Ok(statement) ==> {
            &&& budget.max_input_rows < i64::MAX && budget.max_input_bytes <= i64::MAX
            &&& statement.arguments.len() == 4
            &&& statement.told(1) == number(group_queue_id as int)
            &&& statement.told(2) == number(budget.max_input_rows as int)
            &&& statement.told(3) == number(budget.max_input_bytes as int)
            &&& statement.told(4) == number(budget.max_input_rows + 1)
        },
        budget.max_input_rows < i64::MAX && budget.max_input_bytes <= i64::MAX && (
        sql.arguments@.len() > 0 || !sql.capability.transition_is_strict
            || sql.capability.initial_literal is Some) ==> rebuild::rebuild_query(
            sql,
            group_queue_id,
            budget,
        ) is Ok,
{
}

/// A fold takes up its rows from three places: the first row of a group, the
/// rest of a row that was split, and the ranges behind its cursor, each of them
/// only once there is a cursor.
pub proof fn fold_goes_on_behind_its_cursor(sql: RebuildSql)
    ensures
        ({
            let ranges = sql.candidate_ranges();
            &&& ranges.len() == 2 + sql.order.range_predicates@.len()
            &&& ranges[0] == sql.candidate_range("NOT work.has_cursor"@)
            &&& ranges[1] == sql.candidate_range(rebuild::SPLIT_ROW_SQL@)
            &&& forall|index: int|
                0 <= index < sql.order.range_predicates@.len() ==> #[trigger] ranges[2 + index]
                    == sql.candidate_range(
                    "work.has_cursor AND ("@ + sql.order.range_predicates@[index]@ + ")"@,
                )
        }),
{
}

/// An aggregate over distinct arguments counts each row once; any other one
/// counts it as often as it stands in the bag.
pub proof fn distinct_rows_count_once(sql: RebuildSql)
    ensures
        sql.effective_multiplicity() == (if sql.distinct@.len() > 0 {
            "1::bigint"@
        } else {
            rebuild::EFFECTIVE_MULTIPLICITY_SQL@
        }),
{
}

/// The statements about one group of the queue name it.
pub proof fn group_is_named(
    one: Seq<char>,
    other: Seq<char>,
    expression: emit::ExpressionModel,
    group: i64,
)
    ensures
        emit::decision_query(one, other, expression, group).arguments == seq![number(group as int)],
        emit::unchanged_query(one, other, group).arguments == seq![number(group as int)],
        emit::discard_query(one, other, group).arguments == seq![number(group as int)],
        emit::finish_query(one, group).arguments == seq![number(group as int)],
        emit::tombstone_query(one, other, group).arguments == seq![number(group as int)],
        pages::probe_query(one, other, group).arguments == seq![number(group as int)],
{
}

/// The one global group is queued at the position that it is opened for.
pub proof fn global_group_is_queued_at_its_position(
    groups: Seq<char>,
    dirty: Seq<char>,
    lsn: u64,
)
    ensures
        step::global_group_query(groups, dirty, lsn).arguments.len() == 1,
        names_position(step::global_group_query(groups, dirty, lsn).told(1), lsn),
{
    postgres::lsn_text_is_read_back(lsn);
}

/// A page selects groups from its first one on, within the rows, the bytes and
/// the output rows of the budget; where no output is left it still asks for one
/// group.
pub proof fn selection_stays_in_the_budget(
    dirty: Seq<char>,
    bag: Seq<char>,
    group_queue_id: i64,
    budget: WorkBudget,
)
    ensures
        pages::selection_query(dirty, bag, group_queue_id, budget) matches Ok(statement) ==> {
            &&& statement.arguments.len() == 4
            &&& statement.told(1) == number(group_queue_id as int)
            &&& statement.told(2) == number(budget.max_input_rows as int)
            &&& statement.told(3) == number(budget.max_input_bytes as int)
            &&& budget.max_output_rows > 0 ==> statement.told(4) == number(
                budget.max_output_rows as int,
            )
            &&& budget.max_output_rows == 0 ==> statement.told(4) == number(1)
        },
        pages::selection_query(dirty, bag, group_queue_id, budget) is Ok
            <==> budget.max_input_rows <= i64::MAX && budget.max_input_bytes <= i64::MAX
            && budget.max_output_rows <= i64::MAX,
{
}

/// A selection is taken as it was read exactly when it fits the budget; one
/// that is too large, or of no group, leaves the page to single groups.
pub proof fn selection_is_taken_where_it_fits(rows: int, row: SelectionRow, budget: WorkBudget)
    ensures
        pages::selected(rows, row, budget) matches Ok(Some(selection)) ==> {
            &&& rows == 1
            &&& row.last_queue_id == Some(selection.last_queue_id)
            &&& row.input_rows == Some(selection.input_rows as i64)
            &&& row.input_bytes == Some(selection.input_bytes as i64)
            &&& selection.input_rows <= budget.max_input_rows
            &&& selection.input_bytes <= budget.max_input_bytes
            &&& row.causal_lsn matches Some(lsn) && postgres::lsn_value(lsn@) is Some
                && selection.causal_lsn == postgres::lsn_value(lsn@)->0 as u64
        },
        pages::selected(rows, row, budget) matches Ok(None) ==> {
            &&& rows == 1
            &&& {
                ||| row.last_queue_id is None
                ||| row.input_rows matches Some(taken) && taken > budget.max_input_rows
                ||| row.input_bytes matches Some(taken) && taken > budget.max_input_bytes
            }
        },
{
}

/// The statements of a page name its first and its last group.
pub proof fn page_is_named_by_its_groups(sql: PageSql, dirty: Seq<char>, first: i64, last: i64)
    ensures
        pages::measurement_query(sql, first, last).arguments == seq![
            number(first as int),
            number(last as int),
        ],
        pages::publish_query(sql, first, last).arguments == seq![
            number(first as int),
            number(last as int),
        ],
        pages::dequeue_query(dirty, first, last).arguments == seq![
            number(first as int),
            number(last as int),
        ],
{
}

/// A page goes out as it was measured exactly when its output fits the budget.
pub proof fn page_goes_out_where_it_fits(
    rows: int,
    output_rows: Option<i64>,
    output_bytes: Option<i64>,
    selection: PageSelection,
    budget: WorkBudget,
)
    ensures
        pages::measured(rows, output_rows, output_bytes, selection, budget) matches Ok(
            Some(page),
        ) ==> {
            &&& output_rows == Some(page.output_rows as i64)
            &&& output_bytes == Some(page.output_bytes as i64)
            &&& page.output_rows <= budget.max_output_rows
            &&& page.output_bytes <= budget.max_output_bytes
            &&& page.last_queue_id == selection.last_queue_id
            &&& page.causal_lsn == selection.causal_lsn
            &&& page.input_rows == selection.input_rows
            &&& page.input_bytes == selection.input_bytes
        },
        pages::measured(rows, output_rows, output_bytes, selection, budget) matches Ok(None) ==> {
            ||| output_rows matches Some(written) && written > budget.max_output_rows
            ||| output_bytes matches Some(written) && written > budget.max_output_bytes
        },
        pages::measured(rows, output_rows, output_bytes, selection, budget) is Err <==> {
            ||| rows != 1
            ||| !(output_rows matches Some(written) && written >= 0)
            ||| !(output_bytes matches Some(written) && written >= 0)
        },
{
}

/// The output of a page goes to its target: behind the rows that an extended
/// chunk already has, or to the front of a new one.
pub proof fn page_is_appended_to_its_target(
    sql: PageSql,
    output_payload: Seq<char>,
    first: i64,
    page: GroupPage,
    output: OutputState,
    target: OutputAppendTarget,
)
    ensures
        pages::append_query(sql, output_payload, first, page, output, target) matches Ok(
            statement,
        ) ==> {
            &&& statement.arguments.len() == 5
            &&& statement.told(1) == number(first as int)
            &&& statement.told(2) == number(page.last_queue_id as int)
            &&& statement.told(3) == number(output.stream_id as int)
            &&& match target {
                OutputAppendTarget::New { sequence } => statement.told(4) == number(sequence as int)
                    && statement.told(5) == number(0),
                OutputAppendTarget::Extend { sequence, row_offset } => statement.told(4) == number(
                    sequence as int,
                ) && statement.told(5) == number(row_offset as int),
            }
        },
{
}

/// An appended page is believed exactly when it wrote what was measured.
pub proof fn appended_page_is_as_measured(
    rows: int,
    inserted_rows: Option<i64>,
    inserted_bytes: Option<i64>,
    page: GroupPage,
)
    ensures
        pages::append_sound(rows, inserted_rows, inserted_bytes, page) is Ok <==> {
            &&& rows == 1
            &&& inserted_rows matches Some(written) && written == page.output_rows
            &&& inserted_bytes matches Some(written) && written == page.output_bytes
        },
{
}

/// A page is finished exactly when as many groups left the queue as were
/// published, and it changes these and the groups that are gone.
pub proof fn finished_page_adds_up(updated: u64, dequeued: u64, deleted: u64)
    ensures
        pages::page_finished(updated, dequeued) is Ok <==> updated == dequeued,
        pages::page_state_rows(updated, dequeued, deleted) matches Ok(changed) ==> changed
            == updated + dequeued + deleted,
        pages::page_state_rows(updated, dequeued, deleted) is Err <==> updated + dequeued + deleted
            > u64::MAX,
{
}

} // verus!
