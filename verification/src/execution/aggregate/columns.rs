//! How the columns of an Aggregate line up: what is stored of a row, what a
//! fold is ordered by and advanced with, and what an output row is made of; and
//! what of it is committed.

use vstd::prelude::*;

use crate::execution::aggregate::apply::{self, CompiledModel};
use crate::execution::aggregate::emit::{self, OutputSql};
use crate::execution::aggregate::machine::{
    AfterDrain, AggregateContinuation, AggregateMachine, AggregatePhase, AggregateTransition,
    AppliedPage, EmitLeg, FrontierResult, PendingOutput, PreparedOutput, RebuiltPage,
};
use crate::execution::aggregate::order::{self, RebuildKeyModel};
use crate::execution::aggregate::pages::{self, CallModel, PageSql};
use crate::execution::aggregate::provision;
use crate::execution::aggregate::rebuild::{self, RebuildSql};
use crate::execution::btree::{self, BtreeOrder};
use crate::execution::contract::InputPosition;
use crate::execution::provision as stage_provision;
use crate::planner::{AggregateExpr, SortGroupExpr, WorkBudget};
use crate::postgres;
use crate::sql;
use crate::text;

verus! {

/// Whether two keys compare the same expression by the same equality.
pub open spec fn equates(left: SortGroupExpr, right: SortGroupExpr) -> bool {
    &&& left.expr == right.expr
    &&& left.type_ == right.type_
    &&& left.equality_operator_oid == right.equality_operator_oid
}

proof fn uncovered_keys_are_the_other_ones(
    ordinal: int,
    distinct: Seq<SortGroupExpr>,
    order_by: Seq<SortGroupExpr>,
    count: nat,
)
    requires
        count <= distinct.len(),
    ensures
        forall|place: int|
            0 <= place < order::uncovered_keys(ordinal, distinct, order_by, count).len() ==> {
                let key = #[trigger] order::uncovered_keys(
                    ordinal,
                    distinct,
                    order_by,
                    count,
                )[place];
                &&& exists|index: int|
                    0 <= index < count && key.expression == #[trigger] distinct[index]
                        && key.column == "agg_"@ + text::decimal(ordinal) + "_"@ + "distinct"@ + "_"@
                        + text::decimal(index + 1)
                &&& forall|index: int|
                    0 <= index < order_by.len() ==> !equates(
                        #[trigger] order_by[index],
                        key.expression,
                    )
            },
        forall|index: int|
            0 <= index < count ==> {
                ||| exists|k: int|
                    0 <= k < order_by.len() && equates(
                        #[trigger] order_by[k],
                        #[trigger] distinct[index],
                    )
                ||| exists|place: int|
                    0 <= place < order::uncovered_keys(ordinal, distinct, order_by, count).len()
                        && (#[trigger] order::uncovered_keys(
                        ordinal,
                        distinct,
                        order_by,
                        count,
                    )[place]).expression == distinct[index]
            },
    decreases count,
{
    if count > 0 {
        let last = (count - 1) as int;
        let earlier = order::uncovered_keys(ordinal, distinct, order_by, (count - 1) as nat);
        let keys = order::uncovered_keys(ordinal, distinct, order_by, count);
        uncovered_keys_are_the_other_ones(ordinal, distinct, order_by, (count - 1) as nat);
        assert forall|place: int| 0 <= place < keys.len() implies {
            let key = #[trigger] keys[place];
            &&& exists|index: int|
                0 <= index < count && key.expression == #[trigger] distinct[index] && key.column
                    == "agg_"@ + text::decimal(ordinal) + "_"@ + "distinct"@ + "_"@
                    + text::decimal(index + 1)
            &&& forall|index: int|
                0 <= index < order_by.len() ==> !equates(#[trigger] order_by[index], key.expression)
        } by {
            if place < earlier.len() {
                assert(keys[place] == earlier[place]);
            } else {
                assert(keys[place].expression == distinct[last]);
                assert forall|index: int| 0 <= index < order_by.len() implies !equates(
                    #[trigger] order_by[index],
                    distinct[last],
                ) by {
                    assert(!order::same_value(order_by[index], distinct[last]));
                }
            }
        }
        assert forall|index: int| 0 <= index < count implies {
            ||| exists|k: int|
                0 <= k < order_by.len() && equates(#[trigger] order_by[k], #[trigger] distinct[index])
            ||| exists|place: int|
                0 <= place < keys.len() && (#[trigger] keys[place]).expression == distinct[index]
        } by {
            if index < last {
                if !(exists|k: int|
                    0 <= k < order_by.len() && equates(order_by[k], distinct[index])) {
                    let place = choose|place: int|
                        0 <= place < earlier.len() && (#[trigger] earlier[place]).expression
                            == distinct[index];
                    assert(keys[place] == earlier[place]);
                }
            } else if keys.len() > earlier.len() {
                assert(keys[keys.len() - 1].expression == distinct[last]);
            } else {
                let k = choose|k: int|
                    0 <= k < order_by.len() && order::same_value(
                        #[trigger] order_by[k],
                        distinct[last],
                    );
                assert(equates(order_by[k], distinct[last]));
            }
        }
    }
}

/// A fold is ordered by its sort keys, and behind them by the distinct keys
/// that are none of them: rows with equal distinct keys come together. Sort
/// keys that are no distinct keys are refused where there are distinct keys.
pub proof fn fold_order_brings_equal_keys_together(ordinal: int, aggregate: AggregateExpr)
    ensures
        order::effective_order(ordinal, aggregate) matches Ok(keys) ==> {
            &&& aggregate.order_by@.len() <= keys.len()
            &&& forall|index: int|
                0 <= index < aggregate.order_by@.len() ==> {
                    &&& (#[trigger] keys[index]).expression == aggregate.order_by@[index]
                    &&& keys[index].column == "agg_"@ + text::decimal(ordinal) + "_"@ + "order"@
                        + "_"@ + text::decimal(index + 1)
                }
            &&& forall|index: int|
                aggregate.order_by@.len() <= index < keys.len() ==> exists|place: int|
                    0 <= place < aggregate.distinct@.len() && (#[trigger] keys[index]).expression
                        == #[trigger] aggregate.distinct@[place]
            &&& forall|index: int|
                0 <= index < aggregate.distinct@.len() ==> exists|place: int|
                    0 <= place < keys.len() && equates(
                        (#[trigger] keys[place]).expression,
                        #[trigger] aggregate.distinct@[index],
                    )
        },
        order::effective_order(ordinal, aggregate) is Err <==> {
            &&& aggregate.distinct@.len() > 0
            &&& exists|index: int|
                0 <= index < aggregate.order_by@.len() && forall|place: int|
                    0 <= place < aggregate.distinct@.len() ==> !equates(
                        #[trigger] aggregate.order_by@[index],
                        #[trigger] aggregate.distinct@[place],
                    )
        },
{
    let distinct = aggregate.distinct@;
    let order_by = aggregate.order_by@;
    uncovered_keys_are_the_other_ones(ordinal, distinct, order_by, distinct.len());
    let others = order::uncovered_keys(ordinal, distinct, order_by, distinct.len());
    match order::effective_order(ordinal, aggregate) {
        Ok(keys) => {
            assert forall|index: int| order_by.len() <= index < keys.len() implies exists|place: int|
                0 <= place < distinct.len() && (#[trigger] keys[index]).expression
                    == #[trigger] distinct[place] by {
                assert(keys[index] == others[index - order_by.len()]);
            }
            assert forall|index: int| 0 <= index < distinct.len() implies exists|place: int|
                0 <= place < keys.len() && equates(
                    (#[trigger] keys[place]).expression,
                    #[trigger] distinct[index],
                ) by {
                if exists|k: int| 0 <= k < order_by.len() && equates(order_by[k], distinct[index]) {
                    let k = choose|k: int|
                        0 <= k < order_by.len() && equates(order_by[k], distinct[index]);
                    assert(keys[k].expression == order_by[k]);
                } else {
                    let place = choose|place: int|
                        0 <= place < others.len() && (#[trigger] others[place]).expression
                            == distinct[index];
                    assert(keys[order_by.len() + place] == others[place]);
                }
            }
            if distinct.len() > 0 {
                assert forall|index: int| 0 <= index < order_by.len() implies exists|place: int|
                    0 <= place < distinct.len() && equates(
                        #[trigger] order_by[index],
                        #[trigger] distinct[place],
                    ) by {
                    assert(order::covered(order_by[index], distinct));
                    let place = choose|place: int|
                        0 <= place < distinct.len() && order::same_value(
                            order_by[index],
                            #[trigger] distinct[place],
                        );
                    assert(equates(order_by[index], distinct[place]));
                }
            }
        },
        Err(_) => {
            let index = choose|index: int|
                0 <= index < order_by.len() && !order::covered(#[trigger] order_by[index], distinct);
            assert forall|place: int| 0 <= place < distinct.len() implies !equates(
                order_by[index],
                #[trigger] distinct[place],
            ) by {
                assert(!order::same_value(order_by[index], distinct[place]));
            }
        },
    }
}

/// Whether a value stands at the place of its name.
pub open spec fn stands_under(
    names: Seq<Seq<char>>,
    values: Seq<Seq<char>>,
    name: Seq<char>,
    value: Seq<char>,
) -> bool {
    exists|place: int| 0 <= place < names.len() && #[trigger] names[place] == name && values[place]
        == value
}

/// Each stored value stands under its own name: the names and the expressions
/// run side by side, first those that an aggregate is sorted by, then those
/// that it is distinct on.
pub proof fn stored_values_stand_under_their_names(aggregates: Seq<CompiledModel>, index: int)
    requires
        0 <= index < aggregates.len(),
    ensures
        apply::value_names(aggregates).len() == apply::value_expressions(aggregates).len(),
        forall|key: int|
            0 <= key < aggregates[index].order_by.len() ==> stands_under(
                apply::value_names(aggregates),
                apply::value_expressions(aggregates),
                "agg_"@ + text::decimal(index + 1) + "_"@ + "order"@ + "_"@ + text::decimal(key + 1),
                #[trigger] aggregates[index].order_by[key],
            ),
        forall|key: int|
            0 <= key < aggregates[index].distinct.len() ==> stands_under(
                apply::value_names(aggregates),
                apply::value_expressions(aggregates),
                "agg_"@ + text::decimal(index + 1) + "_"@ + "distinct"@ + "_"@ + text::decimal(
                    key + 1,
                ),
                #[trigger] aggregates[index].distinct[key],
            ),
    decreases aggregates.len(),
{
    let rest = aggregates.drop_last();
    let last = aggregates.last();
    let names = apply::value_names(aggregates);
    let values = apply::value_expressions(aggregates);
    if rest.len() > 0 {
        stored_values_stand_under_their_names(
            rest,
            if index < rest.len() {
                index
            } else {
                0
            },
        );
    }
    let start = apply::value_names(rest).len() as int;
    let middle = start + last.order_by.len();
    assert(start == apply::value_expressions(rest).len());
    assert forall|key: int| 0 <= key < aggregates[index].order_by.len() implies stands_under(
        names,
        values,
        "agg_"@ + text::decimal(index + 1) + "_"@ + "order"@ + "_"@ + text::decimal(key + 1),
        #[trigger] aggregates[index].order_by[key],
    ) by {
        let name = order::value_name(index + 1, "order"@, key);
        if index < rest.len() {
            assert(rest[index].order_by[key] == aggregates[index].order_by[key]);
            let place = choose|place: int|
                0 <= place < start && #[trigger] apply::value_names(rest)[place] == name
                    && apply::value_expressions(rest)[place] == rest[index].order_by[key];
            assert(names[place] == name);
        } else {
            assert(names[start + key] == name);
            assert(values[start + key] == last.order_by[key]);
        }
    }
    assert forall|key: int| 0 <= key < aggregates[index].distinct.len() implies stands_under(
        names,
        values,
        "agg_"@ + text::decimal(index + 1) + "_"@ + "distinct"@ + "_"@ + text::decimal(key + 1),
        #[trigger] aggregates[index].distinct[key],
    ) by {
        let name = order::value_name(index + 1, "distinct"@, key);
        if index < rest.len() {
            assert(rest[index].distinct[key] == aggregates[index].distinct[key]);
            let place = choose|place: int|
                0 <= place < start && #[trigger] apply::value_names(rest)[place] == name
                    && apply::value_expressions(rest)[place] == rest[index].distinct[key];
            assert(names[place] == name);
        } else {
            assert(names[middle + key] == name);
            assert(values[middle + key] == last.distinct[key]);
        }
    }
}

/// A value is computed under its name.
pub proof fn values_are_computed_under_their_names(
    names: Seq<Seq<char>>,
    expressions: Seq<Seq<char>>,
    index: int,
)
    requires
        0 <= index < names.len() == expressions.len(),
    ensures
        apply::evaluations(names, expressions).len() == names.len(),
        apply::evaluations(names, expressions)[index] == expressions[index] + " AS "@ + names[index],
        apply::representatives(names).len() == names.len(),
        apply::representatives(names)[index] == "(array_agg("@ + names[index]
            + " ORDER BY row_ordinal))[1] AS "@ + names[index],
        provision::definitions(names, expressions)[index] == postgres::quoted(names[index]) + " "@
            + expressions[index],
{
}

/// A group is stored under one column for each of its values, and the group of
/// all rows under a column that is always true.
pub proof fn groups_are_stored_under_their_values(expressions: Seq<Seq<char>>, index: int)
    ensures
        apply::group_names(expressions.len()).len() == apply::group_values(expressions).len(),
        expressions.len() == 0 ==> apply::group_names(expressions.len())[0] == "global_group"@
            && apply::group_values(expressions)[0] == "true"@,
        0 <= index < expressions.len() ==> apply::group_names(expressions.len())[index] == "group_"@
            + text::decimal(index + 1) && apply::group_values(expressions)[index]
            == expressions[index],
{
}

/// The index of a fold leads with the group, has its keys in their order, each
/// in its own direction, and tells rows with equal keys apart; the fold reads
/// by the same keys.
pub proof fn fold_is_read_along_its_index(keys: Seq<RebuildKeyModel>, index: int)
    requires
        0 <= index < keys.len(),
    ensures
        ({
            let columns = provision::order_index_columns(keys);
            &&& columns.len() == keys.len() + 2
            &&& columns.first() == "group_state_id ASC"@
            &&& columns[index + 1] == keys[index].order.index_sql(keys[index].column)
            &&& columns.last() == "row_id ASC"@
        }),
        order::key_ordering(keys[index]) == "bag."@ + postgres::quoted(keys[index].column)
            + " USING "@ + keys[index].order.sort_operator + " NULLS "@ + (
        if keys[index].order.nulls_first {
            "FIRST"@
        } else {
            "LAST"@
        }),
{
}

/// An aggregate without arguments counts rows; `DISTINCT` stands before its
/// arguments exactly where it is distinct, a filter exactly where it has one,
/// and an order exactly where it has one.
pub proof fn aggregate_is_called_as_declared(call: CallModel, ordinal: int)
    ensures
        call.arguments.len() == 0 ==> call.argument_list() == "*"@,
        call.arguments.len() > 0 && call.distinct ==> call.argument_list() == "DISTINCT "@
            + text::joined(call.arguments, ","@),
        call.arguments.len() > 0 && !call.distinct ==> call.argument_list() == text::joined(
            call.arguments,
            ","@,
        ),
        call.filter matches Some(filter) ==> call.filter_clause() == " FILTER (WHERE "@ + filter
            + ")"@,
        call.filter is None ==> call.filter_clause() == ""@,
        call.order_by.len() == 0 ==> call.order_clause(ordinal) == ""@,
        call.order_by.len() > 0 ==> call.order_clause(ordinal) == " ORDER BY "@ + text::joined(
            call.order_keys(ordinal),
            ","@,
        ),
        call.order_keys(ordinal).len() == call.order_by.len() + (if call.distinct {
            0int
        } else {
            1int
        }),
        !call.distinct ==> call.order_keys(ordinal).last() == "bag.row_id"@,
{
    reveal_strlit("");
    if call.arguments.len() > 0 && !call.distinct {
        assert(call.argument_list() =~= text::joined(call.arguments, ","@));
    }
}

/// The value of an aggregate is its transition state, through its final
/// function where it has one.
pub proof fn final_value_is_computed_from_the_state(function: Option<Seq<char>>, index: int)
    ensures
        function is None ==> emit::final_value(function, index) == "work_"@ + text::decimal(
            index + 1,
        ) + ".transition_state"@,
        function matches Some(name) ==> emit::final_value(function, index) == name + "("@ + ("work_"@
            + text::decimal(index + 1)) + ".transition_state)"@,
{
}

/// A rebuild goes on with the aggregate that its cursor numbers, from one on.
pub proof fn rebuild_is_of_the_numbered_aggregate(value: AggregateContinuation, aggregates: usize)
    requires
        value.phase matches AggregatePhase::DrainRebuild { aggregate_ordinal, .. }
            ==> aggregate_ordinal > 0,
    ensures
        match rebuild::rebuild_target(value, aggregates) {
            Ok(target) => {
                &&& value.phase matches AggregatePhase::DrainRebuild {
                    group_queue_id,
                    aggregate_ordinal,
                    ..
                } && target.group_queue_id == group_queue_id && target.aggregate_index + 1
                    == aggregate_ordinal
                &&& target.aggregate_index < aggregates
            },
            Err(_) => value.phase matches AggregatePhase::DrainRebuild { aggregate_ordinal, .. }
                ==> aggregate_ordinal > aggregates,
        },
{
}

/// A fold calls its transition on the state and on the arguments of the row, in
/// their order; a strict one passes over rows with a null, and takes its first
/// argument over where it has nothing to begin with.
pub proof fn fold_is_advanced_by_its_transition(sql: RebuildSql)
    ensures
        ({
            let call = sql.capability.transition_function@ + "(fold.state_value"@ + (
            if sql.arguments@.len() == 0 {
                ""@
            } else {
                ","@ + text::joined(text::texts(sql.arguments@), ","@)
            }) + ")"@;
            let complete = rebuild::arguments_nonnull(text::texts(sql.arguments@));
            let advance = if sql.capability.initial_literal is Some {
                text::rendered(rebuild::STRICT_NEXT_SQL@, seq![("transition_call"@, call)])
            } else {
                text::rendered(
                    rebuild::STRICT_FIRST_SQL@,
                    seq![
                        ("first"@, sql.arguments@[0]@),
                        ("transition_type"@, sql.capability.transition_type@),
                        ("transition_call"@, call),
                    ],
                )
            };
            &&& !sql.capability.transition_is_strict ==> sql.next_state() == text::rendered(
                rebuild::STATE_SQL@,
                seq![("transition_call"@, call)],
            ) && sql.next_no_trans() == "false"@
            &&& sql.capability.transition_is_strict ==> sql.next_state() == text::rendered(
                rebuild::STRICT_STATE_SQL@,
                seq![("arguments_nonnull"@, complete), ("advance"@, advance)],
            ) && sql.next_no_trans() == text::rendered(
                rebuild::STRICT_NO_TRANS_SQL@,
                seq![("arguments_nonnull"@, complete)],
            )
        }),
        rebuild::filter_condition(None) == "true"@,
{
}

/// The cursor of a fold remembers the keys that the fold is ordered by, and the
/// distinct keys, each in its own column.
pub proof fn cursor_remembers_its_keys(
    sql: RebuildSql,
    ordered: Seq<Seq<char>>,
    remembered: Seq<Seq<char>>,
)
    requires
        ordered.len() == sql.order.columns@.len(),
        forall|index: int|
            0 <= index < ordered.len() ==> #[trigger] ordered[index] == text::rendered(
                rebuild::CURSOR_ORDER_SQL@,
                seq![
                    ("cursor"@, postgres::quoted("cursor_order_"@ + text::decimal(index + 1))),
                    ("column"@, postgres::quoted(sql.order.columns@[index]@)),
                ],
            ),
        remembered.len() == sql.distinct@.len(),
        forall|index: int|
            0 <= index < remembered.len() ==> #[trigger] remembered[index] == text::rendered(
                rebuild::CURSOR_DISTINCT_SQL@,
                seq![
                    ("index"@, text::decimal(index + 1)),
                    (
                        "column"@,
                        postgres::quoted(
                            "agg_"@ + text::decimal(sql.ordinal as int) + "_"@ + "distinct"@ + "_"@
                                + text::decimal(index + 1),
                        ),
                    ),
                ],
            ),
    ensures
        ordered.len() == 0 ==> sql.order_assignments() == ""@,
        ordered.len() > 0 ==> sql.order_assignments() == ","@ + text::joined(ordered, ","@),
        remembered.len() == 0 ==> sql.distinct_assignments() == ""@,
        remembered.len() > 0 ==> sql.distinct_assignments() == ","@ + text::joined(
            seq![rebuild::HAS_DISTINCT_CURSOR_SQL@, rebuild::DISTINCT_TRANSITIONED_SQL@]
                + remembered,
            ","@,
        ),
{
    let assigned = Seq::new(
        sql.order.columns@.len(),
        |index: int| sql.order_assignment(index),
    );
    assert(assigned =~= ordered);
    let kept = Seq::new(sql.distinct@.len(), |index: int| sql.distinct_assignment(index));
    assert(kept =~= remembered);
}

/// What was done in a phase is committed as it was reported, where the phase
/// may do it: an admission takes rows in and lets none out, a fold changes its
/// state, an unchanged group does nothing, and any other one lets out one row.
pub proof fn reports_are_committed_in_their_phase(
    machine: AggregateMachine,
    continuation: AggregateContinuation,
    input: InputPosition,
    applied: AppliedPage,
    rebuilt: RebuiltPage,
    prepared: PreparedOutput,
    pending: PendingOutput,
    budget: WorkBudget,
)
    ensures
        machine.page_applied(input, applied, budget) matches Ok(
            AggregateTransition::Committed { facts, .. },
        ) ==> {
            &&& facts == applied.facts && facts.usage.input_rows > 0
            &&& facts.output is Nothing && facts.usage.output_rows == 0 && facts.usage.output_bytes
                == 0
        },
        machine.rebuild_applied(continuation, rebuilt, budget) matches Ok(
            AggregateTransition::Committed { continuation: next, facts },
        ) ==> {
            &&& facts == rebuilt.facts && facts.usage == rebuilt.page.usage && facts.state_rows > 0
            &&& facts.output is Nothing && facts.usage.output_rows == 0 && facts.usage.output_bytes
                == 0
            &&& rebuilt.page.complete || facts.usage.input_rows > 0
            &&& next matches Some(next) && next.input is None && next.input_stream_id
                == continuation.input_stream_id && next.phase == machine.rebuilt_phase(
                continuation.phase,
                rebuilt.page.complete,
            )
        },
        AggregateMachine::prepared_applied(continuation, prepared, budget) matches Ok(
            AggregateTransition::Committed { continuation: next, facts },
        ) ==> {
            &&& prepared is Unchanged <==> facts.output is Nothing
            &&& prepared is Unchanged ==> facts.usage.input_rows == 0 && facts.usage.output_rows == 0
            &&& !(prepared is Unchanged) ==> facts.output is Data && facts.usage.input_rows == 0
                && facts.usage.output_rows == 1
            &&& prepared is ReplacementRetracted ==> (continuation.phase
                matches AggregatePhase::DrainEmit { group_queue_id, after, .. } && (next
                matches Some(next) && next.phase == (AggregatePhase::DrainEmit {
                group_queue_id,
                leg: EmitLeg::InsertPending,
                after,
            })))
        },
        AggregateMachine::pending_applied(continuation, pending, budget) matches Ok(
            AggregateTransition::Committed { facts, .. },
        ) ==> facts == pending.facts && facts.output is Data && facts.usage.output_rows == 1
            && facts.usage.input_rows == 0,
{
}

/// A frontier goes out at the end of its chunk, and is held back behind the
/// group of all rows where that is due first.
pub proof fn frontier_is_committed_or_held_back(
    continuation: AggregateContinuation,
    frontier: FrontierResult,
    budget: WorkBudget,
)
    ensures
        AggregateMachine::frontier_applied(continuation, frontier, budget) matches Ok(
            AggregateTransition::Committed { continuation: next, facts },
        ) ==> match frontier {
            FrontierResult::Forwarded { facts: reported } => {
                &&& facts == reported && next is None && facts.output is Frontier
                &&& facts.usage.input_rows == 0 && facts.usage.output_rows == 0 && facts.state_rows
                    == 0
            },
            FrontierResult::GlobalGroupQueued { facts: reported, group_queue_id } => {
                &&& facts == reported && facts.output is Nothing && facts.state_rows > 0
                &&& group_queue_id > 0
                &&& next matches Some(next) && next.input is None && (continuation.input
                    matches Some(position) && next.phase == (AggregatePhase::DrainRebuild {
                    group_queue_id,
                    aggregate_ordinal: 1,
                    after: AfterDrain::Frontier(position),
                }))
            },
        },
{
}

/// A page of a fold takes its rows from all of its ranges, in the order of the
/// fold, and rows that stand in the bag more than once come one by one; a row
/// of a distinct fold is never split.
pub proof fn fold_page_is_filled_in(sql: RebuildSql)
    ensures
        ({
            let holes = sql.holes();
            &&& holes.contains(
                ("candidate_ranges"@, text::joined(sql.candidate_ranges(), " UNION ALL "@)),
            )
            &&& holes.contains(("order"@, sql.order.order_sql@))
            &&& holes.contains(("source_order"@, sql.order.order_sql@ + ",occurrence.value"@))
            &&& holes.contains(("page_order"@, sql.order.order_sql@ + ",bag.occurrence"@))
            &&& holes.contains(("work"@, sql.work@))
            &&& holes.contains(("dirty"@, sql.dirty@))
            &&& holes.contains(("next_state"@, sql.next_state()))
            &&& holes.contains(("next_no_trans"@, sql.next_no_trans()))
            &&& holes.contains(("cursor_assignments"@, sql.order_assignments()))
            &&& holes.contains(("distinct_assignments"@, sql.distinct_assignments()))
            &&& sql.distinct@.len() > 0 ==> holes.contains(
                ("remaining_multiplicity"@, "NULL::bigint"@),
            )
            &&& sql.distinct@.len() == 0 ==> holes.contains(
                ("remaining_multiplicity"@, "NULLIF(bag.remaining_after,0)"@),
            )
        }),
{
    let holes = sql.holes();
    assert(holes[0] == (
        "candidate_ranges"@,
        text::joined(sql.candidate_ranges(), " UNION ALL "@),
    ));
    assert(holes[1] == ("order"@, sql.order.order_sql@));
    assert(holes[2] == ("source_order"@, sql.order.order_sql@ + ",occurrence.value"@));
    assert(holes[3] == ("page_order"@, sql.order.order_sql@ + ",bag.occurrence"@));
    assert(holes[5] == ("work"@, sql.work@));
    assert(holes[6] == ("dirty"@, sql.dirty@));
    assert(holes[8] == ("next_state"@, sql.next_state()));
    assert(holes[9] == ("next_no_trans"@, sql.next_no_trans()));
    assert(sql.distinct@.len() > 0 ==> holes[10] == (
        "remaining_multiplicity"@,
        "NULL::bigint"@,
    ));
    assert(sql.distinct@.len() == 0 ==> holes[10] == (
        "remaining_multiplicity"@,
        "NULLIF(bag.remaining_after,0)"@,
    ));
    assert(holes[11] == ("cursor_assignments"@, sql.order_assignments()));
    assert(holes[12] == ("distinct_assignments"@, sql.distinct_assignments()));
}

/// A group is stored once: its columns are unique, nulls taken as equal.
pub proof fn group_is_stored_once(
    result: u32,
    stage_id: i32,
    groups: Seq<char>,
    orders: Seq<BtreeOrder>,
    indexed: Seq<Seq<char>>,
)
    requires
        indexed.len() == orders.len(),
        forall|index: int|
            0 <= index < orders.len() ==> #[trigger] indexed[index]
                == orders[index]@.index_sql("group_"@ + text::decimal(index + 1)),
    ensures
        provision::groups_key(result, stage_id, groups, orders) == "CREATE UNIQUE INDEX "@
            + postgres::quoted(
            stage_provision::named("aggregate_groups_key"@, result, stage_id),
        ) + " ON "@ + groups + "("@ + (if orders.len() == 0 {
            postgres::quoted("global_group"@)
        } else {
            text::joined(indexed, ","@)
        }) + ") NULLS NOT DISTINCT"@,
{
    let models = btree::orders(orders);
    let listed = Seq::new(
        models.len(),
        |index: int| models[index].index_sql("group_"@ + text::decimal(index + 1)),
    );
    assert(listed =~= indexed);
}

/// The work relation of an aggregate has a place for its state, for its cursor
/// through the keys that it is ordered by and is distinct on, and for the rest
/// of a row that was split.
pub proof fn work_has_a_place_for_its_cursor(
    groups: Seq<char>,
    transition_type: Seq<char>,
    order_types: Seq<Seq<char>>,
    distinct_types: Seq<Seq<char>>,
    index: int,
)
    ensures
        ({
            let columns = provision::work_definitions(
                groups,
                transition_type,
                order_types,
                distinct_types,
            );
            &&& columns.len() == 11 + order_types.len() + distinct_types.len()
            &&& columns[1] == "transition_state "@ + transition_type
            &&& columns[2] == "no_trans_value boolean NOT NULL"@
            &&& 0 <= index < order_types.len() ==> columns[7 + index] == postgres::quoted(
                "cursor_order_"@ + text::decimal(index + 1),
            ) + " "@ + order_types[index]
            &&& 0 <= index < distinct_types.len() ==> columns[9 + order_types.len() + index]
                == postgres::quoted("cursor_distinct_"@ + text::decimal(index + 1)) + " "@
                + distinct_types[index]
        }),
{
}

/// An output row is made of the values of its group and of its aggregates, in
/// this order; the group of all rows always has one, and any other group has
/// one where the bag holds a row of it.
pub proof fn output_row_is_made_of_its_values(sql: OutputSql, page: PageSql, index: int)
    ensures
        sql.values().len() == sql.group_values@.len() + sql.finals@.len(),
        0 <= index < sql.group_values@.len() ==> sql.values()[index] == sql.group_values@[index]@,
        0 <= index < sql.finals@.len() ==> sql.values()[sql.group_values@.len() + index]
            == emit::final_value(sql::text_model(sql.finals@[index]), index),
        sql.group_values@.len() == 0 ==> sql.present() == "true"@,
        sql.group_values@.len() > 0 ==> sql.present() == text::rendered(
            emit::PRESENT_SQL@,
            seq![("bag"@, sql.bag@), ("dirty"@, sql.dirty@)],
        ),
        page.values().len() == page.group_values@.len() + page.aggregates@.len(),
        0 <= index < page.group_values@.len() ==> page.values()[index]
            == page.group_values@[index]@,
        0 <= index < page.aggregates@.len() ==> page.values()[page.group_values@.len() + index]
            == page.aggregates@[index]@.value(index + 1, page.bag@),
        page.group_values@.len() == 0 ==> page.present() == "true"@,
        page.group_values@.len() > 0 ==> page.present() == text::rendered(
            pages::PRESENT_SQL@,
            seq![("bag_sql"@, page.bag@)],
        ),
{
}

} // verus!
