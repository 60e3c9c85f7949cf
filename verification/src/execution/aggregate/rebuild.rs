//! The bounded fold of one aggregate over the bag of a group.

use vstd::prelude::*;

use crate::database::{self, require_summary, required};
use crate::execution::abi::{self, has_type};
use crate::execution::aggregate::apply::{self, required_count, with_comma};
use crate::execution::aggregate::machine::{AggregateContinuation, AggregatePhase};
use crate::execution::aggregate::order::{
    self, aggregate_null_safe_equality, cursor_column, value_column, AggregateRebuildOrder,
};
use crate::execution::continuation::Attribute;
use crate::execution::contract::PageFacts;
use crate::execution::stream::budget_bigint;
use crate::planner::{WorkBudget, WorkUsage};
use crate::postgres::{self, quote_identifier};
use crate::session::{self, CellKind, Row};
use crate::sql::{self, SqlModel, Statement, StatementModel, BOOLOID, INT8OID};
use crate::text::{self, fail, join, listed, render, same_text, unsigned_text, Holes};

verus! {

/// Starts the fold of a group, unless it is under way.
pub const INITIALIZE_SQL: &'static str =
    "INSERT INTO {work}(group_state_id,transition_state,no_trans_value)
             SELECT dirty.group_state_id,{initial_state},$2
             FROM {dirty} AS dirty WHERE dirty.queue_id=$1
             ON CONFLICT (group_state_id) DO UPDATE
             SET transition_state={initial_state},no_trans_value=$2,has_cursor=false,
                 cursor_row_id=NULL,remaining_multiplicity=NULL,complete=false,
                 has_distinct_cursor=false,distinct_transitioned=false
             WHERE {work}.complete
             RETURNING 1";

/// A strict transition whose first value becomes the state.
pub const STRICT_FIRST_SQL: &'static str =
    "CASE WHEN fold.no_trans_value
                      THEN ({first})::{transition_type}
                      WHEN fold.state_value IS NULL
                      THEN fold.state_value
                      ELSE {transition_call} END";

/// A strict transition from an initial value.
pub const STRICT_NEXT_SQL: &'static str =
    "CASE WHEN fold.state_value IS NULL
                      THEN fold.state_value ELSE {transition_call} END";

/// The state after one row of a strict fold.
pub const STRICT_STATE_SQL: &'static str =
    "CASE WHEN bag.apply_transition
                      THEN CASE WHEN {arguments_nonnull}
                                THEN {advance} ELSE fold.state_value END
                      ELSE fold.state_value END";

/// Whether a strict fold still waits for its first value.
pub const STRICT_NO_TRANS_SQL: &'static str =
    "CASE WHEN bag.apply_transition AND ({arguments_nonnull})
                      THEN false ELSE fold.no_trans_value END";

/// The state after one row of a fold.
pub const STATE_SQL: &'static str =
    "CASE WHEN bag.apply_transition
                      THEN {transition_call} ELSE fold.state_value END";

/// The rows of a page, each with whether it passes the filter.
pub const PREPARED_SQL: &'static str =
    r#"
            prepared AS MATERIALIZED (
              SELECT bag.*,({filter}) IS TRUE AS apply_transition
              FROM selected AS bag
            )
            "#;

/// The value of a distinct key in the previous row of the page.
pub const LAG_SQL: &'static str =
    "pg_catalog.lag(bag.{column}) OVER (
                       ORDER BY bag.page_ordinal
                     ) AS previous_distinct_{index}";

/// The distinct key of the last folded row.
pub const CURSOR_DISTINCT_SQL: &'static str =
    "cursor_distinct_{index}=CASE
                       WHEN bag.page_ordinal IS NULL THEN work.cursor_distinct_{index}
                       ELSE bag.{column} END";

/// The rows of a page, each with whether it is the first of its distinct tuple
/// that passes the filter.
pub const DISTINCT_PREPARED_SQL: &'static str =
    r#"
            evaluated AS MATERIALIZED (
              SELECT bag.*,({filter}) IS TRUE AS passes_filter,{lag_columns}
              FROM selected AS bag
            ),
            boundaries AS MATERIALIZED (
              SELECT evaluated.*,
                     CASE
                       WHEN evaluated.page_ordinal=1
                         THEN NOT (
                           work.has_distinct_cursor AND ({persisted_equal})
                         )
                       ELSE NOT ({previous_equal})
                     END AS starts_tuple,
                     work.distinct_transitioned AS persisted_transitioned
              FROM evaluated
              JOIN {work} AS work ON true
              JOIN {dirty} AS dirty
                ON dirty.queue_id=$1
               AND work.group_state_id=dirty.group_state_id
            ),
            segmented AS MATERIALIZED (
              SELECT boundaries.*,
                     sum(starts_tuple::integer) OVER (
                       ORDER BY page_ordinal
                     ) AS tuple_ordinal
              FROM boundaries
            ),
            prepared_base AS MATERIALIZED (
              SELECT segmented.*,
                     tuple_ordinal=0 AND persisted_transitioned
                       AS previously_transitioned,
                     count(*) FILTER (WHERE passes_filter) OVER (
                       PARTITION BY tuple_ordinal
                       ORDER BY page_ordinal
                       ROWS BETWEEN UNBOUNDED PRECEDING AND 1 PRECEDING
                     ) AS passing_before
              FROM segmented
            ),
            prepared AS MATERIALIZED (
              SELECT prepared_base.*,
                     passes_filter
                       AND NOT previously_transitioned
                       AND passing_before=0 AS apply_transition,
                     previously_transitioned OR bool_or(passes_filter) OVER (
                       PARTITION BY tuple_ordinal
                       ORDER BY page_ordinal
                       ROWS BETWEEN UNBOUNDED PRECEDING AND CURRENT ROW
                     ) AS tuple_transitioned
              FROM prepared_base
            )
            "#;

/// Whether a distinct tuple was folded.
pub const HAS_DISTINCT_CURSOR_SQL: &'static str =
    "has_distinct_cursor=CASE WHEN bag.page_ordinal IS NULL
                                      THEN work.has_distinct_cursor ELSE true END";

/// Whether the last distinct tuple entered the fold.
pub const DISTINCT_TRANSITIONED_SQL: &'static str =
    "distinct_transitioned=CASE WHEN bag.page_ordinal IS NULL
                                        THEN work.distinct_transitioned
                                        ELSE bag.tuple_transitioned END";

/// The order key of the last folded row.
pub const CURSOR_ORDER_SQL: &'static str =
    "{cursor}=CASE WHEN bag.page_ordinal IS NULL
                         THEN work.{cursor} ELSE bag.{column} END";

/// How often a row is left to fold.
pub const EFFECTIVE_MULTIPLICITY_SQL: &'static str =
    "CASE WHEN work.remaining_multiplicity IS NOT NULL
                    AND bag.row_id=work.cursor_row_id
              THEN work.remaining_multiplicity ELSE bag.multiplicity END";

/// One index range of the rows that are left to fold.
pub const CANDIDATE_RANGE_SQL: &'static str =
    r#"
            (
              SELECT bag.*,{effective_multiplicity} AS effective_multiplicity
              FROM {bag} AS bag
              JOIN {dirty} AS dirty ON {bag_dirty}
              JOIN {work} AS work ON {work_dirty}
              WHERE dirty.queue_id=$1 AND NOT work.complete
                AND ({predicate})
              ORDER BY {order}
              LIMIT $4
            )
            "#;

/// The row whose occurrences the last page split.
pub const SPLIT_ROW_SQL: &'static str =
    "work.remaining_multiplicity IS NOT NULL
             AND bag.row_id=work.cursor_row_id";

/// Folds one bounded page of a group into its transition state.
pub const REBUILD_SQL: &'static str =
    r#"
        WITH RECURSIVE bag_candidates AS MATERIALIZED (
          SELECT bag.*
          FROM ({candidate_ranges}) AS bag
          ORDER BY {order}
          LIMIT $4
        ),
        ranked AS MATERIALIZED (
          SELECT bag.*,
                 coalesce(
                   sum(bag.effective_multiplicity::numeric) OVER (
                     ORDER BY {order}
                     ROWS BETWEEN UNBOUNDED PRECEDING AND 1 PRECEDING
                   ),
                   0::numeric
                 ) AS preceding_multiplicity
          FROM bag_candidates AS bag
        ),
        source AS MATERIALIZED (
          SELECT bag.*,occurrence.value AS occurrence,
                 bag.effective_multiplicity-occurrence.value AS remaining_after,
                 shiba_internal.effect_row_bytes(bag.row_value)::bigint AS row_bytes
          FROM ranked AS bag
          CROSS JOIN LATERAL pg_catalog.generate_series(
            1::bigint,
            least(
              bag.effective_multiplicity,
              greatest($4::numeric-bag.preceding_multiplicity,0::numeric)::bigint
            )
          ) AS occurrence(value)
          WHERE bag.preceding_multiplicity<$4::numeric
          ORDER BY {source_order}
        ),
        measured AS MATERIALIZED (
          SELECT bag.*,
                 row_number() OVER (ORDER BY {page_order}) AS page_ordinal,
                 sum(bag.row_bytes::numeric) OVER (
                   ORDER BY {page_order}
                 ) AS running_bytes
          FROM source AS bag
        ),
        selected AS MATERIALIZED (
          SELECT * FROM measured
          WHERE page_ordinal<=$2
            AND (page_ordinal=1 OR running_bytes<=$3::numeric)
        ),
        {distinct_ctes},
        fold(step,state_value,no_trans_value) AS (
          SELECT 0::bigint,work.transition_state,work.no_trans_value
          FROM {work} AS work
          JOIN {dirty} AS dirty ON {work_dirty}
          WHERE dirty.queue_id=$1
          UNION ALL
          SELECT bag.page_ordinal,{next_state},{next_no_trans}
          FROM fold
          JOIN prepared AS bag ON bag.page_ordinal=fold.step+1
        ),
        final_fold AS MATERIALIZED (
          SELECT * FROM fold ORDER BY step DESC LIMIT 1
        ),
        final_selected AS MATERIALIZED (
          SELECT * FROM prepared ORDER BY page_ordinal DESC LIMIT 1
        ),
        updated AS (
          UPDATE {work} AS work
          SET transition_state=final_fold.state_value,
              no_trans_value=final_fold.no_trans_value,
              has_cursor=CASE WHEN bag.page_ordinal IS NULL
                              THEN work.has_cursor ELSE true END,
              cursor_row_id=CASE WHEN bag.page_ordinal IS NULL
                                 THEN work.cursor_row_id ELSE bag.row_id END,
              remaining_multiplicity=CASE WHEN bag.page_ordinal IS NULL
                                          THEN work.remaining_multiplicity
                                          ELSE {remaining_multiplicity} END,
              complete=(SELECT count(*) FROM source)
                         =(SELECT count(*) FROM selected)
              {cursor_assignments}
              {distinct_assignments}
          FROM final_fold
          CROSS JOIN {dirty} AS dirty
          LEFT JOIN final_selected AS bag ON true
          WHERE dirty.queue_id=$1 AND {work_dirty}
          RETURNING 1
        )
        SELECT CASE
                 WHEN (
                   SELECT count(*) FROM {work} AS work
                   JOIN {dirty} AS dirty ON {work_dirty}
                   WHERE dirty.queue_id=$1
                 )<>1 THEN 'missing_work'
                 WHEN (SELECT count(*) FROM updated)<>1 THEN 'missing_update'
                 ELSE 'ok'
               END,
               count(*)::bigint,
               coalesce(sum(row_bytes),0)::bigint,
               (array_agg(row_id ORDER BY page_ordinal DESC))[1],
               (SELECT count(*) FROM source)=(SELECT count(*) FROM selected),
               (SELECT count(*)::bigint FROM updated)
        FROM selected
        "#;

/// How the database folds one aggregate.
#[derive(Clone, Debug, PartialEq, Eq)]
pub struct AggregateCapability {
    pub transition_function: String,
    pub transition_type: String,
    pub transition_type_oid: u32,
    pub transition_collation_oid: u32,
    pub transition_is_strict: bool,
    pub initial_literal: Option<String>,
    pub final_function: Option<String>,
}

/// The aggregate of a rebuild: its group, and its index in the plan.
#[derive(Clone, Copy, Debug, PartialEq, Eq, Structural)]
pub struct RebuildTarget {
    pub group_queue_id: i64,
    pub aggregate_index: usize,
}

/// The aggregate that a rebuild folds.
pub open spec fn rebuild_target(value: AggregateContinuation, aggregates: usize) -> Result<
    RebuildTarget,
    Seq<char>,
> {
    match value.phase {
        AggregatePhase::DrainRebuild { group_queue_id, aggregate_ordinal, after } => text::guarded(
            text::holds(
                aggregate_ordinal <= aggregates,
                "Aggregate rebuild ordinal exceeds its plan"@,
            ),
            RebuildTarget { group_queue_id, aggregate_index: (aggregate_ordinal - 1) as usize },
        ),
        _ => Err("Aggregate rebuild received another phase"@),
    }
}

pub fn locate_rebuild(value: AggregateContinuation, aggregates: usize) -> (outcome: Result<
    RebuildTarget,
    String,
>)
    requires
        value.phase matches AggregatePhase::DrainRebuild { aggregate_ordinal, .. }
            ==> aggregate_ordinal > 0,
    ensures
        text::agrees(outcome, rebuild_target(value, aggregates)),
{
    match value.phase {
        AggregatePhase::DrainRebuild { group_queue_id, aggregate_ordinal, .. } => {
            if aggregate_ordinal as usize > aggregates {
                return fail("Aggregate rebuild ordinal exceeds its plan");
            }
            Ok(
                RebuildTarget {
                    group_queue_id,
                    aggregate_index: (aggregate_ordinal - 1) as usize,
                },
            )
        },
        _ => fail("Aggregate rebuild received another phase"),
    }
}

/// The output attribute of an aggregate: its columns stand behind the group
/// keys.
pub fn output_attribute(attributes: usize, groups: usize, aggregate_index: usize) -> (outcome:
    Result<usize, String>)
    requires
        groups + aggregate_index <= usize::MAX,
    ensures
        text::agrees(
            outcome,
            text::guarded(
                text::holds(
                    groups + aggregate_index < attributes,
                    "Aggregate output attribute is missing"@,
                ),
                (groups + aggregate_index) as usize,
            ),
        ),
{
    let index: usize = groups + aggregate_index;
    if index >= attributes {
        return fail("Aggregate output attribute is missing");
    }
    Ok(index)
}

/// Whether a work relation still holds what a rebuild folds.
pub open spec fn work_sound(attributes: Seq<Attribute>, capability: AggregateCapability) -> Result<
    (),
    Seq<char>,
> {
    text::three(
        text::holds(
            attributes.len() > 1,
            "Aggregate work relation omitted transition state"@,
        ),
        text::holds(
            attributes.len() > 2,
            "Aggregate work relation omitted no-transition state"@,
        ),
        text::holds(
            abi::is_typed(attributes[0], "group_state_id"@, INT8OID) && attributes[0].not_null
                && abi::is_typed(
                attributes[1],
                "transition_state"@,
                capability.transition_type_oid,
            ) && attributes[1].collation_oid == capability.transition_collation_oid
                && abi::is_typed(attributes[2], "no_trans_value"@, BOOLOID)
                && attributes[2].not_null,
            "Aggregate rebuild work relation changed its typed ABI"@,
        ),
    )
}

pub fn validate_work(attributes: &Vec<Attribute>, capability: &AggregateCapability) -> (outcome:
    Result<(), String>)
    ensures
        text::agrees(outcome, work_sound(attributes@, *capability)),
{
    if attributes.len() <= 1 {
        return fail("Aggregate work relation omitted transition state");
    }
    if attributes.len() <= 2 {
        return fail("Aggregate work relation omitted no-transition state");
    }
    if !has_type(&attributes[0], "group_state_id", INT8OID) || !attributes[0].not_null
        || !has_type(&attributes[1], "transition_state", capability.transition_type_oid)
        || attributes[1].collation_oid != capability.transition_collation_oid || !has_type(
        &attributes[2],
        "no_trans_value",
        BOOLOID,
    ) || !attributes[2].not_null {
        return fail("Aggregate rebuild work relation changed its typed ABI");
    }
    Ok(())
}

/// Opens the fold of a group.
pub open spec fn initialize_query(
    work: Seq<char>,
    dirty: Seq<char>,
    initial_state: Seq<char>,
    capability: AggregateCapability,
    group_queue_id: i64,
) -> StatementModel {
    StatementModel {
        sql: text::rendered(
            INITIALIZE_SQL@,
            seq![
                ("work"@, work),
                ("dirty"@, dirty),
                ("initial_state"@, initial_state),
            ],
        ),
        arguments: seq![
            SqlModel::BigInt(Some(group_queue_id)),
            SqlModel::Boolean(
                Some(capability.transition_is_strict && capability.initial_literal is None),
            ),
        ],
    }
}

/// The statement that starts the fold of a group, unless it is under way.
pub fn initialize_statement(
    work: &str,
    dirty: &str,
    initial_state: &str,
    capability: &AggregateCapability,
    group_queue_id: i64,
) -> (statement: Statement)
    ensures
        statement@ == initialize_query(work@, dirty@, initial_state@, *capability, group_queue_id),
{
    let holes = Holes::new().bind("work", work).bind("dirty", dirty).bind(
        "initial_state",
        initial_state,
    );
    assert(holes@ =~= seq![
        ("work"@, work@),
        ("dirty"@, dirty@),
        ("initial_state"@, initial_state@),
    ]);
    Statement::new(render(INITIALIZE_SQL, holes)).bigint(group_queue_id).boolean(
        capability.transition_is_strict && capability.initial_literal.is_none(),
    )
}

/// Checks that at most one fold was started.
pub fn validate_initialized(rows: usize) -> (outcome: Result<(), String>)
    ensures
        text::agrees(
            outcome,
            text::holds(rows <= 1, "Aggregate rebuild initialized multiple work rows"@),
        ),
{
    if rows > 1 {
        return fail("Aggregate rebuild initialized multiple work rows");
    }
    Ok(())
}

/// The filter of an aggregate as a condition that is never NULL.
pub open spec fn filter_condition(filter: Option<Seq<char>>) -> Seq<char> {
    match filter {
        None => "true"@,
        Some(filter) => "coalesce(("@ + filter + "),false)"@,
    }
}

pub fn filter_sql(filter: &Option<String>) -> (sql: String)
    ensures
        sql@ == filter_condition(sql::text_model(*filter)),
{
    match filter {
        None => "true".to_owned(),
        Some(filter) => {
            let mut sql = "coalesce((".to_owned();
            sql.append(filter.as_str());
            sql.append("),false)");
            sql
        },
    }
}

/// What a rebuild page reads, folds and writes.
pub struct RebuildSql<'a> {
    pub capability: &'a AggregateCapability,
    pub bag: &'a str,
    pub dirty: &'a str,
    pub work: &'a str,
    /// The ordinal of the aggregate, counted from one.
    pub ordinal: usize,
    /// The equality operators of the distinct keys, in order.
    pub distinct: &'a Vec<String>,
    pub order: &'a AggregateRebuildOrder,
    pub arguments: &'a Vec<String>,
    pub filter: &'a str,
}

/// The condition that no argument is NULL.
pub open spec fn arguments_nonnull(arguments: Seq<Seq<char>>) -> Seq<char> {
    if arguments.len() == 0 {
        "true"@
    } else {
        text::joined(
            Seq::new(arguments.len(), |index: int| "("@ + arguments[index] + ")"@ + " IS NOT NULL"@),
            " AND "@,
        )
    }
}

fn nonnull_sql(arguments: &Vec<String>) -> (sql: String)
    ensures
        sql@ == arguments_nonnull(text::texts(arguments@)),
{
    if arguments.is_empty() {
        return "true".to_owned();
    }
    let list = listed(
        arguments.len(),
        |index: usize| -> (item: String)
            requires
                index < arguments.len(),
            ensures
                item@ == "("@ + arguments@[index as int]@ + ")"@ + " IS NOT NULL"@
            {
                let mut sql = "(".to_owned();
                sql.append(arguments[index].as_str());
                sql.append(")");
                sql.append(" IS NOT NULL");
                sql
            },
    );
    proof {
        let models = text::texts(arguments@);
        assert(text::texts(list@) =~= Seq::new(
            models.len(),
            |index: int| "("@ + models[index] + ")"@ + " IS NOT NULL"@,
        ));
    }
    join(&list, " AND ")
}

impl<'a> RebuildSql<'a> {
    /// The call of the transition function.
    pub open spec fn transition_call(self) -> Seq<char> {
        self.capability.transition_function@ + "(fold.state_value"@ + apply::behind_comma(
            text::texts(self.arguments@),
        ) + ")"@
    }

    /// The state after a row that a strict transition accepts: without an
    /// initial value, the first argument becomes the state.
    pub open spec fn strict_advance(self) -> Seq<char> {
        if self.capability.initial_literal is None {
            text::rendered(
                STRICT_FIRST_SQL@,
                seq![
                    ("first"@, self.arguments@[0]@),
                    ("transition_type"@, self.capability.transition_type@),
                    ("transition_call"@, self.transition_call()),
                ],
            )
        } else {
            text::rendered(
                STRICT_NEXT_SQL@,
                seq![("transition_call"@, self.transition_call())],
            )
        }
    }

    /// The state after one row.
    pub open spec fn next_state(self) -> Seq<char> {
        if self.capability.transition_is_strict {
            text::rendered(
                STRICT_STATE_SQL@,
                seq![
                    ("arguments_nonnull"@, arguments_nonnull(text::texts(self.arguments@))),
                    ("advance"@, self.strict_advance()),
                ],
            )
        } else {
            text::rendered(STATE_SQL@, seq![("transition_call"@, self.transition_call())])
        }
    }

    /// Whether the state still waits for its first value after one row.
    pub open spec fn next_no_trans(self) -> Seq<char> {
        if self.capability.transition_is_strict {
            text::rendered(
                STRICT_NO_TRANS_SQL@,
                seq![("arguments_nonnull"@, arguments_nonnull(text::texts(self.arguments@)))],
            )
        } else {
            "false"@
        }
    }

    /// A strict transition without an initial value starts with an argument.
    pub open spec fn sound(self) -> Result<(), Seq<char>> {
        text::holds(
            self.capability.transition_is_strict && self.capability.initial_literal is None
                ==> self.arguments@.len() > 0,
            "strict Aggregate with NULL initial state has no argument"@,
        )
    }

    /// A distinct column of the bag.
    pub open spec fn distinct_column(self, index: int) -> Seq<char> {
        postgres::quoted(order::value_name(self.ordinal as int, "distinct"@, index))
    }

    /// The value of a distinct column in the previous row of the page.
    pub open spec fn lag_column(self, index: int) -> Seq<char> {
        text::rendered(
            LAG_SQL@,
            seq![("column"@, self.distinct_column(index)), ("index"@, text::decimal(index + 1))],
        )
    }

    /// Equality of one distinct key with the value before it.
    pub open spec fn key_repeats(self, before: Seq<char>, index: int) -> Seq<char> {
        order::null_safe(
            "evaluated."@ + self.distinct_column(index),
            before + text::decimal(index + 1),
            self.distinct@[index]@,
        )
    }

    /// Equality of the distinct keys with the values before them.
    pub open spec fn tuple_repeats(self, before: Seq<char>) -> Seq<char> {
        text::joined(
            Seq::new(self.distinct@.len(), |index: int| self.key_repeats(before, index)),
            " AND "@,
        )
    }

    /// The rows of a page, each with whether the fold takes it.
    pub open spec fn prepared(self) -> Seq<char> {
        if self.distinct@.len() == 0 {
            text::rendered(PREPARED_SQL@, seq![("filter"@, self.filter@)])
        } else {
            text::rendered(
                DISTINCT_PREPARED_SQL@,
                seq![
                    ("filter"@, self.filter@),
                    (
                        "lag_columns"@,
                        text::joined(
                            Seq::new(self.distinct@.len(), |index: int| self.lag_column(index)),
                            ","@,
                        ),
                    ),
                    ("persisted_equal"@, self.tuple_repeats("work.cursor_distinct_"@)),
                    ("previous_equal"@, self.tuple_repeats("evaluated.previous_distinct_"@)),
                    ("work"@, self.work@),
                    ("dirty"@, self.dirty@),
                ],
            )
        }
    }

    /// The assignment of one distinct cursor.
    pub open spec fn distinct_assignment(self, index: int) -> Seq<char> {
        text::rendered(
            CURSOR_DISTINCT_SQL@,
            seq![("index"@, text::decimal(index + 1)), ("column"@, self.distinct_column(index))],
        )
    }

    /// The assignments of the distinct cursors.
    pub open spec fn distinct_assignments(self) -> Seq<char> {
        if self.distinct@.len() == 0 {
            ""@
        } else {
            ","@ + text::joined(
                seq![HAS_DISTINCT_CURSOR_SQL@, DISTINCT_TRANSITIONED_SQL@] + Seq::new(
                    self.distinct@.len(),
                    |index: int| self.distinct_assignment(index),
                ),
                ","@,
            )
        }
    }

    /// The assignment of one order cursor.
    pub open spec fn order_assignment(self, index: int) -> Seq<char> {
        text::rendered(
            CURSOR_ORDER_SQL@,
            seq![
                ("cursor"@, order::cursor_name(index)),
                ("column"@, postgres::quoted(self.order.columns@[index]@)),
            ],
        )
    }

    /// The assignments of the order cursors.
    pub open spec fn order_assignments(self) -> Seq<char> {
        apply::behind_comma(
            Seq::new(self.order.columns@.len(), |index: int| self.order_assignment(index)),
        )
    }

    /// How often a row counts: once under `DISTINCT`, else as often as it
    /// occurs or is left from the last page.
    pub open spec fn effective_multiplicity(self) -> Seq<char> {
        if self.distinct@.len() != 0 {
            "1::bigint"@
        } else {
            EFFECTIVE_MULTIPLICITY_SQL@
        }
    }

    /// One index range of rows behind the cursor.
    pub open spec fn candidate_range(self, predicate: Seq<char>) -> Seq<char> {
        text::rendered(
            CANDIDATE_RANGE_SQL@,
            seq![
                ("effective_multiplicity"@, self.effective_multiplicity()),
                ("bag"@, self.bag@),
                ("dirty"@, self.dirty@),
                ("bag_dirty"@, "bag.group_state_id=dirty.group_state_id"@),
                ("work"@, self.work@),
                ("work_dirty"@, "work.group_state_id=dirty.group_state_id"@),
                ("predicate"@, predicate),
                ("order"@, self.order.order_sql@),
            ],
        )
    }

    /// The ranges of a page: everything before the first page, the row that
    /// the last page split, and each range behind the cursor.
    pub open spec fn candidate_ranges(self) -> Seq<Seq<char>> {
        seq![
            self.candidate_range("NOT work.has_cursor"@),
            self.candidate_range(SPLIT_ROW_SQL@),
        ] + Seq::new(
            self.order.range_predicates@.len(),
            |index: int|
                self.candidate_range(
                    "work.has_cursor AND ("@ + self.order.range_predicates@[index]@ + ")"@,
                ),
        )
    }

    /// The holes of a rebuild page.
    pub open spec fn holes(self) -> Seq<(Seq<char>, Seq<char>)> {
        seq![
            ("candidate_ranges"@, text::joined(self.candidate_ranges(), " UNION ALL "@)),
            ("order"@, self.order.order_sql@),
            ("source_order"@, self.order.order_sql@ + ",occurrence.value"@),
            ("page_order"@, self.order.order_sql@ + ",bag.occurrence"@),
            ("distinct_ctes"@, self.prepared()),
            ("work"@, self.work@),
            ("dirty"@, self.dirty@),
            ("work_dirty"@, "work.group_state_id=dirty.group_state_id"@),
            ("next_state"@, self.next_state()),
            ("next_no_trans"@, self.next_no_trans()),
            (
                "remaining_multiplicity"@,
                if self.distinct@.len() != 0 {
                    "NULL::bigint"@
                } else {
                    "NULLIF(bag.remaining_after,0)"@
                },
            ),
            ("cursor_assignments"@, self.order_assignments()),
            ("distinct_assignments"@, self.distinct_assignments()),
        ]
    }
}

fn transition_call(sql: &RebuildSql) -> (text: String)
    ensures
        text@ == sql.transition_call(),
{
    let mut text = sql.capability.transition_function.clone();
    text.append("(fold.state_value");
    text.append(with_comma(sql.arguments).as_str());
    text.append(")");
    text
}

fn strict_advance(sql: &RebuildSql) -> (text: String)
    requires
        sql.capability.initial_literal is None ==> sql.arguments@.len() > 0,
    ensures
        text@ == sql.strict_advance(),
{
    let call = transition_call(sql);
    if sql.capability.initial_literal.is_none() {
        let holes = Holes::new().bind("first", sql.arguments[0].as_str()).bind(
            "transition_type",
            sql.capability.transition_type.as_str(),
        ).bind("transition_call", call.as_str());
        assert(holes@ =~= seq![
            ("first"@, sql.arguments@[0]@),
            ("transition_type"@, sql.capability.transition_type@),
            ("transition_call"@, sql.transition_call()),
        ]);
        return render(STRICT_FIRST_SQL, holes);
    }
    let holes = Holes::new().bind("transition_call", call.as_str());
    assert(holes@ =~= seq![("transition_call"@, sql.transition_call())]);
    render(STRICT_NEXT_SQL, holes)
}

fn next_state(sql: &RebuildSql) -> (text: String)
    requires
        sql.sound() is Ok,
    ensures
        text@ == sql.next_state(),
{
    if sql.capability.transition_is_strict {
        let holes = Holes::new().bind(
            "arguments_nonnull",
            nonnull_sql(sql.arguments).as_str(),
        ).bind("advance", strict_advance(sql).as_str());
        assert(holes@ =~= seq![
            ("arguments_nonnull"@, arguments_nonnull(text::texts(sql.arguments@))),
            ("advance"@, sql.strict_advance()),
        ]);
        return render(STRICT_STATE_SQL, holes);
    }
    let holes = Holes::new().bind("transition_call", transition_call(sql).as_str());
    assert(holes@ =~= seq![("transition_call"@, sql.transition_call())]);
    render(STATE_SQL, holes)
}

fn next_no_trans(sql: &RebuildSql) -> (text: String)
    ensures
        text@ == sql.next_no_trans(),
{
    if !sql.capability.transition_is_strict {
        return "false".to_owned();
    }
    let holes = Holes::new().bind("arguments_nonnull", nonnull_sql(sql.arguments).as_str());
    assert(holes@ =~= seq![
        ("arguments_nonnull"@, arguments_nonnull(text::texts(sql.arguments@))),
    ]);
    render(STRICT_NO_TRANS_SQL, holes)
}

fn distinct_column(sql: &RebuildSql, index: usize) -> (text: String)
    requires
        index < usize::MAX,
    ensures
        text@ == sql.distinct_column(index as int),
{
    quote_identifier(value_column(sql.ordinal, "distinct", index).as_str())
}

fn lag_column(sql: &RebuildSql, index: usize) -> (text: String)
    requires
        index < usize::MAX,
    ensures
        text@ == sql.lag_column(index as int),
{
    let holes = Holes::new().bind("column", distinct_column(sql, index).as_str()).bind(
        "index",
        unsigned_text((index + 1) as u64).as_str(),
    );
    assert(holes@ =~= seq![
        ("column"@, sql.distinct_column(index as int)),
        ("index"@, text::decimal(index + 1)),
    ]);
    render(LAG_SQL, holes)
}

fn lag_columns(sql: &RebuildSql) -> (text: String)
    ensures
        text@ == text::joined(
            Seq::new(sql.distinct@.len(), |index: int| sql.lag_column(index)),
            ","@,
        ),
{
    let list = listed(
        sql.distinct.len(),
        |index: usize| -> (item: String)
            requires
                index < sql.distinct.len(),
            ensures
                item@ == sql.lag_column(index as int)
            { lag_column(sql, index) },
    );
    assert(text::texts(list@) =~= Seq::new(
        sql.distinct@.len(),
        |index: int| sql.lag_column(index),
    ));
    join(&list, ",")
}

fn key_repeats(sql: &RebuildSql, before: &str, index: usize) -> (text: String)
    requires
        index < sql.distinct.len(),
    ensures
        text@ == sql.key_repeats(before@, index as int),
{
    let left = "evaluated.".to_owned().concat(distinct_column(sql, index).as_str());
    let right = before.to_owned().concat(unsigned_text((index + 1) as u64).as_str());
    aggregate_null_safe_equality(left.as_str(), right.as_str(), sql.distinct[index].as_str())
}

fn tuple_repeats(sql: &RebuildSql, before: &str) -> (text: String)
    ensures
        text@ == sql.tuple_repeats(before@),
{
    let list = listed(
        sql.distinct.len(),
        |index: usize| -> (item: String)
            requires
                index < sql.distinct.len(),
            ensures
                item@ == sql.key_repeats(before@, index as int)
            { key_repeats(sql, before, index) },
    );
    assert(text::texts(list@) =~= Seq::new(
        sql.distinct@.len(),
        |index: int| sql.key_repeats(before@, index),
    ));
    join(&list, " AND ")
}

fn prepared(sql: &RebuildSql) -> (text: String)
    ensures
        text@ == sql.prepared(),
{
    if sql.distinct.is_empty() {
        let holes = Holes::new().bind("filter", sql.filter);
        assert(holes@ =~= seq![("filter"@, sql.filter@)]);
        return render(PREPARED_SQL, holes);
    }
    let holes = Holes::new().bind("filter", sql.filter).bind(
        "lag_columns",
        lag_columns(sql).as_str(),
    ).bind("persisted_equal", tuple_repeats(sql, "work.cursor_distinct_").as_str()).bind(
        "previous_equal",
        tuple_repeats(sql, "evaluated.previous_distinct_").as_str(),
    ).bind("work", sql.work).bind("dirty", sql.dirty);
    assert(holes@ =~= seq![
        ("filter"@, sql.filter@),
        (
            "lag_columns"@,
            text::joined(
                Seq::new(sql.distinct@.len(), |index: int| sql.lag_column(index)),
                ","@,
            ),
        ),
        ("persisted_equal"@, sql.tuple_repeats("work.cursor_distinct_"@)),
        ("previous_equal"@, sql.tuple_repeats("evaluated.previous_distinct_"@)),
        ("work"@, sql.work@),
        ("dirty"@, sql.dirty@),
    ]);
    render(DISTINCT_PREPARED_SQL, holes)
}

fn distinct_assignment(sql: &RebuildSql, index: usize) -> (text: String)
    requires
        index < usize::MAX,
    ensures
        text@ == sql.distinct_assignment(index as int),
{
    let holes = Holes::new().bind("index", unsigned_text((index + 1) as u64).as_str()).bind(
        "column",
        distinct_column(sql, index).as_str(),
    );
    assert(holes@ =~= seq![
        ("index"@, text::decimal(index + 1)),
        ("column"@, sql.distinct_column(index as int)),
    ]);
    render(CURSOR_DISTINCT_SQL, holes)
}

fn distinct_assignments(sql: &RebuildSql) -> (text: String)
    ensures
        text@ == sql.distinct_assignments(),
{
    if sql.distinct.is_empty() {
        return "".to_owned();
    }
    let mut list: Vec<String> = Vec::new();
    list.push(HAS_DISTINCT_CURSOR_SQL.to_owned());
    list.push(DISTINCT_TRANSITIONED_SQL.to_owned());
    let ghost model = seq![HAS_DISTINCT_CURSOR_SQL@, DISTINCT_TRANSITIONED_SQL@] + Seq::new(
        sql.distinct@.len(),
        |index: int| sql.distinct_assignment(index),
    );
    let mut index: usize = 0;
    while index < sql.distinct.len()
        invariant
            index <= sql.distinct.len(),
            list.len() == index + 2,
            model == seq![HAS_DISTINCT_CURSOR_SQL@, DISTINCT_TRANSITIONED_SQL@] + Seq::new(
                sql.distinct@.len(),
                |index: int| sql.distinct_assignment(index),
            ),
            forall|k: int| 0 <= k < list.len() ==> #[trigger] list@[k]@ == model[k],
        decreases sql.distinct.len() - index,
    {
        list.push(distinct_assignment(sql, index));
        index = index + 1;
    }
    assert(text::texts(list@) =~= model);
    ",".to_owned().concat(join(&list, ",").as_str())
}

fn order_assignment(sql: &RebuildSql, index: usize) -> (text: String)
    requires
        index < sql.order.columns.len(),
    ensures
        text@ == sql.order_assignment(index as int),
{
    let holes = Holes::new().bind("cursor", cursor_column(index).as_str()).bind(
        "column",
        quote_identifier(sql.order.columns[index].as_str()).as_str(),
    );
    assert(holes@ =~= seq![
        ("cursor"@, order::cursor_name(index as int)),
        ("column"@, postgres::quoted(sql.order.columns@[index as int]@)),
    ]);
    render(CURSOR_ORDER_SQL, holes)
}

fn order_assignments(sql: &RebuildSql) -> (text: String)
    ensures
        text@ == sql.order_assignments(),
{
    let list = listed(
        sql.order.columns.len(),
        |index: usize| -> (item: String)
            requires
                index < sql.order.columns.len(),
            ensures
                item@ == sql.order_assignment(index as int)
            { order_assignment(sql, index) },
    );
    assert(text::texts(list@) =~= Seq::new(
        sql.order.columns@.len(),
        |index: int| sql.order_assignment(index),
    ));
    with_comma(&list)
}

fn candidate_range(sql: &RebuildSql, predicate: &str) -> (text: String)
    ensures
        text@ == sql.candidate_range(predicate@),
{
    let multiplicity = if sql.distinct.is_empty() {
        EFFECTIVE_MULTIPLICITY_SQL
    } else {
        "1::bigint"
    };
    let holes = Holes::new().bind("effective_multiplicity", multiplicity).bind(
        "bag",
        sql.bag,
    ).bind("dirty", sql.dirty).bind("bag_dirty", "bag.group_state_id=dirty.group_state_id").bind(
        "work",
        sql.work,
    ).bind("work_dirty", "work.group_state_id=dirty.group_state_id").bind(
        "predicate",
        predicate,
    ).bind("order", sql.order.order_sql.as_str());
    assert(holes@ =~= seq![
        ("effective_multiplicity"@, sql.effective_multiplicity()),
        ("bag"@, sql.bag@),
        ("dirty"@, sql.dirty@),
        ("bag_dirty"@, "bag.group_state_id=dirty.group_state_id"@),
        ("work"@, sql.work@),
        ("work_dirty"@, "work.group_state_id=dirty.group_state_id"@),
        ("predicate"@, predicate@),
        ("order"@, sql.order.order_sql@),
    ]);
    render(CANDIDATE_RANGE_SQL, holes)
}

fn candidate_ranges(sql: &RebuildSql) -> (text: String)
    ensures
        text@ == text::joined(sql.candidate_ranges(), " UNION ALL "@),
{
    let mut list: Vec<String> = Vec::new();
    list.push(candidate_range(sql, "NOT work.has_cursor"));
    list.push(candidate_range(sql, SPLIT_ROW_SQL));
    let ghost model = sql.candidate_ranges();
    let mut index: usize = 0;
    while index < sql.order.range_predicates.len()
        invariant
            index <= sql.order.range_predicates.len(),
            list.len() == index + 2,
            model == sql.candidate_ranges(),
            forall|k: int| 0 <= k < list.len() ==> #[trigger] list@[k]@ == model[k],
        decreases sql.order.range_predicates.len() - index,
    {
        let mut predicate = "work.has_cursor AND (".to_owned();
        predicate.append(sql.order.range_predicates[index].as_str());
        predicate.append(")");
        list.push(candidate_range(sql, predicate.as_str()));
        index = index + 1;
    }
    assert(text::texts(list@) =~= model);
    join(&list, " UNION ALL ")
}

/// The budget of one rebuild page, with one row to see whether more follow.
pub open spec fn rebuild_budget_fits(budget: WorkBudget) -> Result<(), Seq<char>> {
    text::three(
        text::holds(
            budget.max_input_rows <= i64::MAX,
            "Aggregate rebuild row budget exceeds bigint"@,
        ),
        text::holds(
            budget.max_input_rows < i64::MAX,
            "Aggregate rebuild row budget overflow"@,
        ),
        text::holds(
            budget.max_input_bytes <= i64::MAX,
            "Aggregate rebuild byte budget exceeds bigint"@,
        ),
    )
}

/// Folds a page of rows, if the plan and the budget allow it.
pub open spec fn rebuild_query(
    sql: RebuildSql,
    group_queue_id: i64,
    budget: WorkBudget,
) -> Result<StatementModel, Seq<char>> {
    text::guarded(
        text::both(sql.sound(), rebuild_budget_fits(budget)),
        StatementModel {
            sql: text::rendered(REBUILD_SQL@, sql.holes()),
            arguments: seq![
                SqlModel::BigInt(Some(group_queue_id)),
                SqlModel::BigInt(Some(budget.max_input_rows as i64)),
                SqlModel::BigInt(Some(budget.max_input_bytes as i64)),
                SqlModel::BigInt(Some((budget.max_input_rows + 1) as i64)),
            ],
        },
    )
}

/// The statement that folds one bounded page of a group.
pub fn rebuild_statement(sql: &RebuildSql, group_queue_id: i64, budget: &WorkBudget) -> (outcome:
    Result<Statement, String>)
    ensures
        text::agrees_view(outcome, rebuild_query(*sql, group_queue_id, *budget)),
{
    if sql.capability.transition_is_strict && sql.capability.initial_literal.is_none()
        && sql.arguments.is_empty() {
        return fail("strict Aggregate with NULL initial state has no argument");
    }
    let max_rows: i64 = budget_bigint(
        budget.max_input_rows,
        "Aggregate rebuild row budget exceeds bigint",
    )?;
    if max_rows == i64::MAX {
        return fail("Aggregate rebuild row budget overflow");
    }
    let raw_rows: i64 = max_rows + 1;
    let max_bytes: i64 = budget_bigint(
        budget.max_input_bytes,
        "Aggregate rebuild byte budget exceeds bigint",
    )?;
    let source_order = sql.order.order_sql.clone().concat(",occurrence.value");
    let page_order = sql.order.order_sql.clone().concat(",bag.occurrence");
    let remaining = if sql.distinct.is_empty() {
        "NULLIF(bag.remaining_after,0)"
    } else {
        "NULL::bigint"
    };
    let holes = Holes::new().bind("candidate_ranges", candidate_ranges(sql).as_str()).bind(
        "order",
        sql.order.order_sql.as_str(),
    ).bind("source_order", source_order.as_str()).bind("page_order", page_order.as_str()).bind(
        "distinct_ctes",
        prepared(sql).as_str(),
    ).bind("work", sql.work).bind("dirty", sql.dirty).bind(
        "work_dirty",
        "work.group_state_id=dirty.group_state_id",
    ).bind("next_state", next_state(sql).as_str()).bind(
        "next_no_trans",
        next_no_trans(sql).as_str(),
    ).bind("remaining_multiplicity", remaining).bind(
        "cursor_assignments",
        order_assignments(sql).as_str(),
    ).bind("distinct_assignments", distinct_assignments(sql).as_str());
    assert(holes@ =~= sql.holes());
    let statement = Statement::new(render(REBUILD_SQL, holes)).bigint(group_queue_id).bigint(
        max_rows,
    ).bigint(max_bytes).bigint(raw_rows);
    assert(statement@.arguments =~= seq![
        SqlModel::BigInt(Some(group_queue_id)),
        SqlModel::BigInt(Some(max_rows)),
        SqlModel::BigInt(Some(max_bytes)),
        SqlModel::BigInt(Some(raw_rows)),
    ]);
    Ok(statement)
}

/// The summary row of a rebuild page as the database returned it.
#[derive(Clone, Debug, PartialEq, Eq)]
pub struct RebuildRow {
    pub status: Option<String>,
    pub rows: Option<i64>,
    pub bytes: Option<i64>,
    pub last_row_id: Option<i64>,
    pub complete: Option<bool>,
    pub mutations: Option<i64>,
}

impl RebuildRow {
    /// The types of the columns, in order.
    pub open spec fn kinds() -> Seq<CellKind> {
        seq![
            CellKind::Text,
            CellKind::BigInt,
            CellKind::BigInt,
            CellKind::BigInt,
            CellKind::Boolean,
            CellKind::BigInt,
        ]
    }

    pub fn column_kinds() -> (kinds: Vec<CellKind>)
        ensures
            kinds@ == RebuildRow::kinds(),
    {
        vec![
            CellKind::Text,
            CellKind::BigInt,
            CellKind::BigInt,
            CellKind::BigInt,
            CellKind::Boolean,
            CellKind::BigInt,
        ]
    }

    /// The columns of the first returned row, in order.
    pub open spec fn of(rows: Seq<Row>) -> RebuildRow {
        RebuildRow {
            status: session::text(rows, 1),
            rows: session::bigint(rows, 2),
            bytes: session::bigint(rows, 3),
            last_row_id: session::bigint(rows, 4),
            complete: session::boolean(rows, 5),
            mutations: session::bigint(rows, 6),
        }
    }

    pub fn read(rows: &Vec<Row>) -> (row: RebuildRow)
        ensures
            row == RebuildRow::of(rows@),
    {
        RebuildRow {
            status: session::first_text(rows, 1),
            rows: session::first_bigint(rows, 2),
            bytes: session::first_bigint(rows, 3),
            last_row_id: session::first_bigint(rows, 4),
            complete: session::first_boolean(rows, 5),
            mutations: session::first_bigint(rows, 6),
        }
    }
}

/// What a rebuild page did.
#[derive(Clone, Copy, Debug, PartialEq, Eq, Structural)]
pub struct RebuildFacts {
    pub page: PageFacts,
    pub state_rows: u64,
}

impl RebuildRow {
    pub open spec fn complete_row(self) -> Result<(), Seq<char>> {
        text::both(
            match apply::present_text(self.status, "Aggregate rebuild status"@) {
                Err(message) => Err(message),
                Ok(status) => text::holds(status == "ok"@, "Aggregate rebuild returned "@ + status),
            },
            text::four(
                text::checked(apply::counted(self.rows, "Aggregate rebuild rows"@)),
                text::checked(apply::counted(self.bytes, "Aggregate rebuild bytes"@)),
                text::checked(
                    database::required_value(self.complete, "Aggregate rebuild completion"@),
                ),
                text::checked(apply::counted(self.mutations, "Aggregate rebuild mutations"@)),
            ),
        )
    }

    /// The facts of a page: it has a row cursor exactly when it folded rows,
    /// and it changed its work row.
    pub open spec fn facts(self) -> Result<RebuildFacts, Seq<char>> {
        text::guarded(
            text::three(
                self.complete_row(),
                text::holds(
                    self.last_row_id is Some <==> self.rows->0 > 0,
                    "Aggregate rebuild row cursor is inconsistent"@,
                ),
                text::holds(
                    self.mutations->0 > 0,
                    "Aggregate rebuild did not mutate its work state"@,
                ),
            ),
            RebuildFacts {
                page: PageFacts {
                    usage: WorkUsage {
                        input_rows: self.rows->0 as u64,
                        input_bytes: self.bytes->0 as u64,
                        output_rows: 0,
                        output_bytes: 0,
                    },
                    last_row_id: self.last_row_id,
                    complete: self.complete->0,
                },
                state_rows: self.mutations->0 as u64,
            },
        )
    }
}

fn require_status(status: &Option<String>) -> (outcome: Result<(), String>)
    ensures
        text::agrees(
            outcome,
            match apply::present_text(*status, "Aggregate rebuild status"@) {
                Err(message) => Err(message),
                Ok(status) => text::holds(status == "ok"@, "Aggregate rebuild returned "@ + status),
            },
        ),
{
    match status {
        None => Err("database returned NULL ".to_owned().concat("Aggregate rebuild status")),
        Some(status) => {
            if !same_text(status.as_str(), "ok") {
                return Err("Aggregate rebuild returned ".to_owned().concat(status.as_str()));
            }
            Ok(())
        },
    }
}

/// What a fold of a page did.
pub open spec fn rebuilt(rows: int, row: RebuildRow) -> Result<RebuildFacts, Seq<char>> {
    if rows != 1 {
        Err("Aggregate rebuild returned no page summary"@)
    } else {
        row.facts()
    }
}

/// Decodes the summary of a rebuild page.
pub fn decode_rebuild(rows: usize, row: &RebuildRow) -> (outcome: Result<RebuildFacts, String>)
    ensures
        text::agrees(outcome, rebuilt(rows as int, *row)),
{
    require_summary(rows, "Aggregate rebuild returned no page summary")?;
    require_status(&row.status)?;
    let input_rows: u64 = required_count(row.rows, "Aggregate rebuild rows")?;
    let input_bytes: u64 = required_count(row.bytes, "Aggregate rebuild bytes")?;
    let complete = required(row.complete, "Aggregate rebuild completion")?;
    let state_rows: u64 = required_count(row.mutations, "Aggregate rebuild mutations")?;
    if row.last_row_id.is_some() != (input_rows > 0) {
        return fail("Aggregate rebuild row cursor is inconsistent");
    }
    if state_rows == 0 {
        return fail("Aggregate rebuild did not mutate its work state");
    }
    Ok(
        RebuildFacts {
            page: PageFacts {
                usage: WorkUsage { input_rows, input_bytes, output_rows: 0, output_bytes: 0 },
                last_row_id: row.last_row_id,
                complete,
            },
            state_rows,
        },
    )
}

} // verus!
