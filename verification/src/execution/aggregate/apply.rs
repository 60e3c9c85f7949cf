//! The admission of one bounded input prefix into the bag and the dirty-group
//! queue of an Aggregate.

use vstd::prelude::*;

use crate::database::{self, require_summary, required};
use crate::execution::aggregate::order::{self, aggregate_group_match, value_column};
use crate::execution::btree::{self, BtreeOrder};
use crate::execution::stream::{budget_bigint, ChunkMeta};
use crate::planner::{WorkBudget, WorkUsage};
use crate::postgres::{self, format_lsn};
use crate::session::{self, Row};
use crate::sql::{SqlModel, Statement, StatementModel};
use crate::text::{self, fail, join, listed, numbered_names, render, same_text, Holes};

verus! {

/// Inserts the groups of a bounded prefix that do not exist yet.
pub const ENSURE_GROUPS_SQL: &'static str =
    r#"
            WITH candidates AS MATERIALIZED (
              SELECT input_row.row_ordinal,input_row.row_value,
                     shiba_internal.effect_row_bytes(input_row.row_value) AS row_bytes
              FROM {input} AS input_row
              WHERE input_row.stream_id=$1 AND input_row.chunk_seq=$2
                AND input_row.row_ordinal >= $3
              ORDER BY input_row.row_ordinal LIMIT $4
            ),
            measured AS (
              SELECT candidates.*,
                     row_number() OVER (ORDER BY row_ordinal) AS page_row,
                     sum(row_bytes) OVER (ORDER BY row_ordinal) AS running_bytes
              FROM candidates
            ),
            incoming AS MATERIALIZED (
              SELECT * FROM measured
              WHERE page_row=1 OR running_bytes <= $5
            )
            INSERT INTO {groups}({group_identity})
            SELECT {group_evaluations} FROM incoming AS input_row
            ON CONFLICT ({group_identity}) DO NOTHING
            RETURNING 1
            "#;

/// Admits a bounded prefix into the bag and queues the touched groups.
pub const APPLY_SQL: &'static str =
    r#"
        WITH candidates AS MATERIALIZED (
          SELECT input_row.row_ordinal,input_row.weight,input_row.row_value,
                 shiba_internal.effect_row_bytes(input_row.row_value) AS row_bytes
          FROM {input} AS input_row
          WHERE input_row.stream_id=$1 AND input_row.chunk_seq=$2
            AND input_row.row_ordinal >= $3
          ORDER BY input_row.row_ordinal LIMIT $4
        ),
        measured AS (
          SELECT candidates.*,
                 row_number() OVER (ORDER BY row_ordinal) AS page_row,
                 sum(row_bytes) OVER (ORDER BY row_ordinal) AS running_bytes
          FROM candidates
        ),
        incoming AS MATERIALIZED (
          SELECT * FROM measured
          WHERE page_row=1 OR running_bytes <= $5
        ),
        evaluated_base AS MATERIALIZED (
          SELECT row_ordinal,weight,row_value,row_bytes,
                 {evaluated_values}
          FROM incoming AS input_row
        ),
        evaluated AS MATERIALIZED (
          SELECT evaluated_base.*,
                 {row_image} AS row_image,
                 resolved_group.group_state_id
          FROM evaluated_base
          JOIN {groups} AS resolved_group ON {group_match}
        ),
        prefixes AS (
          SELECT evaluated.*,
                 sum(weight::numeric) OVER (
                   PARTITION BY row_image ORDER BY row_ordinal
                   ROWS UNBOUNDED PRECEDING
                 ) AS row_prefix
          FROM evaluated
        ),
        collapsed AS MATERIALIZED (
          SELECT row_image,(array_agg(row_value ORDER BY row_ordinal))[1] AS row_value,
                 (array_agg(group_state_id ORDER BY row_ordinal))[1] AS group_state_id
                 {representative_suffix},
                 sum(weight::numeric) AS net_weight,
                 min(row_prefix) AS min_prefix,max(row_prefix) AS max_prefix
          FROM prefixes GROUP BY row_image
        ),
        existing AS MATERIALIZED (
          SELECT bag.row_id,bag.row_image,bag.multiplicity,bag.group_state_id
          FROM {bag} AS bag JOIN collapsed USING(row_image)
          FOR UPDATE
        ),
        decision AS MATERIALIZED (
          SELECT collapsed.*,existing.row_id,
                 existing.group_state_id AS old_group_state_id,
                 coalesce(existing.multiplicity,0)::numeric AS old_multiplicity,
                 coalesce(existing.multiplicity,0)::numeric+collapsed.net_weight
                   AS new_multiplicity,
                 coalesce(existing.multiplicity,0)::numeric+collapsed.min_prefix
                   AS minimum_multiplicity,
                 coalesce(existing.multiplicity,0)::numeric+collapsed.max_prefix
                   AS maximum_multiplicity
          FROM collapsed LEFT JOIN existing USING(row_image)
        ),
        removed AS (
          DELETE FROM {bag} AS bag USING decision
          WHERE bag.row_id=decision.row_id AND decision.new_multiplicity=0
          RETURNING 1
        ),
        changed AS (
          UPDATE {bag} AS bag SET multiplicity=decision.new_multiplicity::bigint
          FROM decision
          WHERE bag.row_id=decision.row_id AND decision.new_multiplicity>0
            AND decision.new_multiplicity<=9223372036854775807
          RETURNING 1
        ),
        created AS (
          INSERT INTO {bag}(
            row_image,row_value,multiplicity,group_state_id{bag_column_suffix}
          )
          SELECT row_image,row_value,new_multiplicity::bigint,group_state_id
                 {decision_column_suffix}
          FROM decision
          WHERE row_id IS NULL AND new_multiplicity>0
            AND new_multiplicity<=9223372036854775807
          RETURNING 1
        ),
        queued AS (
          INSERT INTO {dirty} AS target(group_state_id,causal_lsn)
          SELECT DISTINCT decision.group_state_id,$6::pg_lsn FROM decision
          ON CONFLICT (group_state_id) DO UPDATE
          SET causal_lsn=greatest(target.causal_lsn,excluded.causal_lsn)
          RETURNING queue_id
        ),
        summary AS (
          SELECT CASE
                      WHEN (SELECT count(*) FROM evaluated)
                           <>(SELECT count(*) FROM incoming)
                        THEN 'missing_group'
                      WHEN bool_or(
                        row_id IS NOT NULL
                        AND old_group_state_id<>group_state_id
                      ) THEN 'group_mismatch'
                      WHEN bool_or(minimum_multiplicity<0) THEN 'negative'
                      WHEN bool_or(maximum_multiplicity>9223372036854775807)
                        THEN 'overflow' ELSE 'ok' END AS status
          FROM decision
        )
        SELECT summary.status,
               (SELECT count(*)::bigint FROM incoming),
               (SELECT coalesce(sum(row_bytes),0)::bigint FROM incoming),
               (SELECT max(row_ordinal)+1 FROM incoming),
               (SELECT count(*)::bigint FROM removed)
                 +(SELECT count(*)::bigint FROM changed)
                 +(SELECT count(*)::bigint FROM created)
                 +(SELECT count(*)::bigint FROM queued)
        FROM summary
        "#;

/// The compiled expressions of one aggregate, in order.
#[derive(Clone, Debug, PartialEq, Eq)]
pub struct CompiledAggregate {
    pub order_by: Vec<String>,
    pub distinct: Vec<String>,
}

/// The compiled expressions of one aggregate as a mathematical value.
#[verifier::ext_equal]
pub struct CompiledModel {
    pub order_by: Seq<Seq<char>>,
    pub distinct: Seq<Seq<char>>,
}

impl View for CompiledAggregate {
    type V = CompiledModel;

    open spec fn view(&self) -> CompiledModel {
        CompiledModel {
            order_by: text::texts(self.order_by@),
            distinct: text::texts(self.distinct@),
        }
    }
}

pub open spec fn compiled(list: Seq<CompiledAggregate>) -> Seq<CompiledModel> {
    Seq::new(list.len(), |index: int| list[index]@)
}

/// The bag columns of one role of an aggregate.
pub open spec fn role_names(ordinal: int, role: Seq<char>, count: nat) -> Seq<Seq<char>> {
    Seq::new(count, |index: int| order::value_name(ordinal, role, index))
}

/// The bag columns of all aggregates: for each its order keys, then its
/// distinct keys.
pub open spec fn value_names(aggregates: Seq<CompiledModel>) -> Seq<Seq<char>>
    decreases aggregates.len(),
{
    if aggregates.len() == 0 {
        Seq::empty()
    } else {
        let ordinal = aggregates.len() as int;
        let last = aggregates.last();
        value_names(aggregates.drop_last()) + role_names(ordinal, "order"@, last.order_by.len())
            + role_names(ordinal, "distinct"@, last.distinct.len())
    }
}

/// The expressions of those columns, in the same order.
pub open spec fn value_expressions(aggregates: Seq<CompiledModel>) -> Seq<Seq<char>>
    decreases aggregates.len(),
{
    if aggregates.len() == 0 {
        Seq::empty()
    } else {
        let last = aggregates.last();
        value_expressions(aggregates.drop_last()) + last.order_by + last.distinct
    }
}

/// Column names and the expressions that fill them.
pub struct ValueList {
    pub names: Vec<String>,
    pub expressions: Vec<String>,
}

fn push_role(list: &mut ValueList, ordinal: usize, role: &str, expressions: &Vec<String>)
    ensures
        text::texts(final(list).names@) == text::texts(old(list).names@) + role_names(
            ordinal as int,
            role@,
            expressions@.len(),
        ),
        text::texts(final(list).expressions@) == text::texts(old(list).expressions@)
            + text::texts(expressions@),
        old(list).names@.len() == old(list).expressions@.len() ==> final(list).names@.len()
            == final(list).expressions@.len(),
{
    let ghost names = text::texts(list.names@);
    let ghost values = text::texts(list.expressions@);
    let mut index: usize = 0;
    assert(text::texts(list.names@) =~= names + role_names(ordinal as int, role@, 0));
    assert(text::texts(list.expressions@) =~= values + text::texts(expressions@).take(0));
    while index < expressions.len()
        invariant
            index <= expressions.len(),
            names == text::texts(old(list).names@),
            values == text::texts(old(list).expressions@),
            text::texts(list.names@) == names + role_names(ordinal as int, role@, index as nat),
            text::texts(list.expressions@) == values + text::texts(expressions@).take(
                index as int,
            ),
        decreases expressions.len() - index,
    {
        let ghost before = *list;
        list.names.push(value_column(ordinal, role, index));
        list.expressions.push(expressions[index].clone());
        proof {
            assert(text::texts(list.names@) =~= text::texts(before.names@).push(
                order::value_name(ordinal as int, role@, index as int),
            ));
            assert(text::texts(list.expressions@) =~= text::texts(before.expressions@).push(
                expressions@[index as int]@,
            ));
            assert(role_names(ordinal as int, role@, (index + 1) as nat) =~= role_names(
                ordinal as int,
                role@,
                index as nat,
            ).push(order::value_name(ordinal as int, role@, index as int)));
            assert(text::texts(expressions@).take(index + 1) =~= text::texts(expressions@).take(
                index as int,
            ).push(expressions@[index as int]@));
            assert(text::texts(list.names@) =~= names + role_names(
                ordinal as int,
                role@,
                (index + 1) as nat,
            ));
            assert(text::texts(list.expressions@) =~= values + text::texts(expressions@).take(
                index + 1,
            ));
        }
        index = index + 1;
    }
    proof {
        assert(text::texts(expressions@).take(expressions@.len() as int) =~= text::texts(
            expressions@,
        ));
        assert(text::texts(list.names@).len() == list.names@.len());
        assert(text::texts(list.expressions@).len() == list.expressions@.len());
        assert(text::texts(old(list).names@).len() == old(list).names@.len());
        assert(text::texts(old(list).expressions@).len() == old(list).expressions@.len());
    }
}

/// The bag columns of all aggregates and the expressions that fill them.
pub fn value_list(aggregates: &Vec<CompiledAggregate>) -> (list: ValueList)
    ensures
        text::texts(list.names@) == value_names(compiled(aggregates@)),
        text::texts(list.expressions@) == value_expressions(compiled(aggregates@)),
        list.names@.len() == list.expressions@.len(),
{
    let ghost models = compiled(aggregates@);
    let mut list = ValueList { names: Vec::new(), expressions: Vec::new() };
    let mut index: usize = 0;
    assert(text::texts(list.names@) =~= value_names(models.take(0)));
    assert(text::texts(list.expressions@) =~= value_expressions(models.take(0)));
    while index < aggregates.len()
        invariant
            index <= aggregates.len(),
            models == compiled(aggregates@),
            text::texts(list.names@) == value_names(models.take(index as int)),
            text::texts(list.expressions@) == value_expressions(models.take(index as int)),
            list.names@.len() == list.expressions@.len(),
        decreases aggregates.len() - index,
    {
        let ordinal: usize = index + 1;
        push_role(&mut list, ordinal, "order", &aggregates[index].order_by);
        push_role(&mut list, ordinal, "distinct", &aggregates[index].distinct);
        proof {
            let now = models.take(index + 1);
            assert(now.drop_last() =~= models.take(index as int));
            assert(now.last() == aggregates@[index as int]@);
            assert(text::texts(list.names@) =~= value_names(now));
            assert(text::texts(list.expressions@) =~= value_expressions(now));
        }
        index = index + 1;
    }
    assert(models.take(models.len() as int) =~= models);
    list
}

/// A list behind a comma, or nothing.
pub open spec fn behind_comma(list: Seq<Seq<char>>) -> Seq<char> {
    if list.len() == 0 {
        ""@
    } else {
        ","@ + text::joined(list, ","@)
    }
}

pub fn with_comma(list: &Vec<String>) -> (sql: String)
    ensures
        sql@ == behind_comma(text::texts(list@)),
{
    if list.is_empty() {
        return "".to_owned();
    }
    ",".to_owned().concat(join(list, ",").as_str())
}

/// Each expression under the name of its column.
pub open spec fn evaluations(names: Seq<Seq<char>>, expressions: Seq<Seq<char>>) -> Seq<Seq<char>> {
    Seq::new(names.len(), |index: int| expressions[index] + " AS "@ + names[index])
}

fn evaluate(names: &Vec<String>, expressions: &Vec<String>) -> (list: Vec<String>)
    requires
        names.len() == expressions.len(),
    ensures
        text::texts(list@) == evaluations(text::texts(names@), text::texts(expressions@)),
{
    let list = listed(
        names.len(),
        |index: usize| -> (item: String)
            requires
                index < names.len(),
                names.len() == expressions.len(),
            ensures
                item@ == expressions@[index as int]@ + " AS "@ + names@[index as int]@
            {
                let mut sql = expressions[index].clone();
                sql.append(" AS ");
                sql.append(names[index].as_str());
                sql
            },
    );
    assert(text::texts(list@) =~= evaluations(text::texts(names@), text::texts(expressions@)));
    list
}

/// The group columns of the state relations.
pub open spec fn group_names(groups: nat) -> Seq<Seq<char>> {
    if groups == 0 {
        seq!["global_group"@]
    } else {
        text::numbered("group_"@, 1, groups)
    }
}

pub fn group_columns(groups: usize) -> (names: Vec<String>)
    requires
        groups < usize::MAX,
    ensures
        text::texts(names@) == group_names(groups as nat),
{
    if groups == 0 {
        let names = vec!["global_group".to_owned()];
        assert(text::texts(names@) =~= group_names(0));
        return names;
    }
    numbered_names("group_", 1, groups)
}

/// The values of the group columns; a global group has the one value `true`.
pub open spec fn group_values(expressions: Seq<Seq<char>>) -> Seq<Seq<char>> {
    if expressions.len() == 0 {
        seq!["true"@]
    } else {
        expressions
    }
}

/// Each group value under the name of its column.
pub open spec fn group_evaluations(expressions: Seq<Seq<char>>) -> Seq<Seq<char>> {
    evaluations(group_names(expressions.len()), group_values(expressions))
}

fn evaluate_groups(expressions: &Vec<String>) -> (list: Vec<String>)
    requires
        expressions.len() < usize::MAX,
    ensures
        text::texts(list@) == group_evaluations(text::texts(expressions@)),
{
    let names = group_columns(expressions.len());
    proof {
        assert(text::texts(names@).len() == names@.len());
        assert(text::texts(expressions@).len() == expressions@.len());
    }
    if expressions.is_empty() {
        let values = vec!["true".to_owned()];
        assert(text::texts(values@) =~= group_values(text::texts(expressions@)));
        return evaluate(&names, &values);
    }
    evaluate(&names, expressions)
}

/// The first value of each column in a collapsed row.
pub open spec fn representatives(names: Seq<Seq<char>>) -> Seq<Seq<char>> {
    Seq::new(
        names.len(),
        |index: int|
            "(array_agg("@ + names[index] + " ORDER BY row_ordinal))[1] AS "@ + names[index],
    )
}

fn first_values(names: &Vec<String>) -> (list: Vec<String>)
    ensures
        text::texts(list@) == representatives(text::texts(names@)),
{
    let list = listed(
        names.len(),
        |index: usize| -> (item: String)
            requires
                index < names.len(),
            ensures
                item@ == "(array_agg("@ + names@[index as int]@ + " ORDER BY row_ordinal))[1] AS "@
                    + names@[index as int]@
            {
                let mut sql = "(array_agg(".to_owned();
                sql.append(names[index].as_str());
                sql.append(" ORDER BY row_ordinal))[1] AS ");
                sql.append(names[index].as_str());
                sql
            },
    );
    assert(text::texts(list@) =~= representatives(text::texts(names@)));
    list
}

/// Each column behind a prefix.
pub open spec fn prefixed(prefix: Seq<char>, names: Seq<Seq<char>>) -> Seq<Seq<char>> {
    Seq::new(names.len(), |index: int| prefix + names[index])
}

fn with_prefix(prefix: &str, names: &Vec<String>) -> (list: Vec<String>)
    ensures
        text::texts(list@) == prefixed(prefix@, text::texts(names@)),
{
    let list = listed(
        names.len(),
        |index: usize| -> (item: String)
            requires
                index < names.len(),
            ensures
                item@ == prefix@ + names@[index as int]@
            { prefix.to_owned().concat(names[index].as_str()) },
    );
    assert(text::texts(list@) =~= prefixed(prefix@, text::texts(names@)));
    list
}

fn append_list(left: Vec<String>, right: &Vec<String>) -> (list: Vec<String>)
    ensures
        text::texts(list@) == text::texts(left@) + text::texts(right@),
{
    let ghost before = text::texts(left@);
    let mut list = left;
    let mut index: usize = 0;
    assert(text::texts(list@) =~= before + text::texts(right@).take(0));
    while index < right.len()
        invariant
            index <= right.len(),
            text::texts(list@) == before + text::texts(right@).take(index as int),
        decreases right.len() - index,
    {
        let ghost now = list@;
        list.push(right[index].clone());
        proof {
            assert(text::texts(list@) =~= text::texts(now).push(right@[index as int]@));
            assert(text::texts(right@).take(index + 1) =~= text::texts(right@).take(
                index as int,
            ).push(right@[index as int]@));
            assert(text::texts(list@) =~= before + text::texts(right@).take(index + 1));
        }
        index = index + 1;
    }
    assert(text::texts(right@).take(right@.len() as int) =~= text::texts(right@));
    list
}

/// What one admitted prefix reads, evaluates and writes.
pub struct ApplySql<'a> {
    pub input: &'a str,
    pub groups: &'a str,
    pub bag: &'a str,
    pub dirty: &'a str,
    pub group_expressions: &'a Vec<String>,
    pub group_orders: &'a Vec<BtreeOrder>,
    pub aggregates: &'a Vec<CompiledAggregate>,
    /// The canonical key of the row `evaluated_base.row_value`.
    pub row_image: &'a str,
}

impl<'a> ApplySql<'a> {
    /// The holes of the statement that ensures the groups of a prefix.
    pub open spec fn group_holes(self) -> Seq<(Seq<char>, Seq<char>)> {
        let expressions = text::texts(self.group_expressions@);
        seq![
            ("input"@, self.input@),
            ("groups"@, self.groups@),
            ("group_identity"@, text::joined(group_names(expressions.len()), ","@)),
            ("group_evaluations"@, text::joined(group_evaluations(expressions), ","@)),
        ]
    }

    /// The holes of the statement that admits a prefix.
    pub open spec fn holes(self) -> Seq<(Seq<char>, Seq<char>)> {
        let expressions = text::texts(self.group_expressions@);
        let aggregates = compiled(self.aggregates@);
        let names = value_names(aggregates);
        seq![
            ("input"@, self.input@),
            (
                "evaluated_values"@,
                text::joined(
                    group_evaluations(expressions) + evaluations(
                        names,
                        value_expressions(aggregates),
                    ),
                    ","@,
                ),
            ),
            ("groups"@, self.groups@),
            (
                "group_match"@,
                order::group_match(
                    "evaluated_base"@,
                    "resolved_group"@,
                    btree::orders(self.group_orders@),
                ),
            ),
            ("row_image"@, self.row_image@),
            ("representative_suffix"@, behind_comma(representatives(names))),
            ("bag"@, self.bag@),
            ("bag_column_suffix"@, behind_comma(names)),
            ("decision_column_suffix"@, behind_comma(prefixed("decision."@, names))),
            ("dirty"@, self.dirty@),
        ]
    }
}

/// The arguments that bound a prefix of one chunk.
pub open spec fn prefix_arguments(chunk: ChunkMeta, first_row: i64, budget: WorkBudget) -> Seq<
    SqlModel,
> {
    seq![
        SqlModel::BigInt(Some(chunk.stream_id)),
        SqlModel::BigInt(Some(chunk.sequence)),
        SqlModel::BigInt(Some(first_row)),
        SqlModel::BigInt(Some(budget.max_input_rows as i64)),
        SqlModel::BigInt(Some(budget.max_input_bytes as i64)),
    ]
}

/// Whether the budget of a prefix fits the database.
pub open spec fn prefix_budget_fits(budget: WorkBudget) -> Result<(), Seq<char>> {
    text::both(
        text::holds(
            budget.max_input_rows <= i64::MAX,
            "Aggregate row budget exceeds bigint"@,
        ),
        text::holds(
            budget.max_input_bytes <= i64::MAX,
            "Aggregate byte budget exceeds bigint"@,
        ),
    )
}

/// Makes the groups of a page of rows, if the budget fits the wire.
pub open spec fn ensure_query(
    sql: ApplySql,
    chunk: ChunkMeta,
    first_row: i64,
    budget: WorkBudget,
) -> Result<StatementModel, Seq<char>> {
    text::guarded(
        prefix_budget_fits(budget),
        StatementModel {
            sql: text::rendered(ENSURE_GROUPS_SQL@, sql.group_holes()),
            arguments: prefix_arguments(chunk, first_row, budget),
        },
    )
}

/// The statement that inserts the groups of a prefix that do not exist yet.
pub fn ensure_groups_statement(
    sql: &ApplySql,
    chunk: &ChunkMeta,
    first_row: i64,
    budget: &WorkBudget,
) -> (outcome: Result<Statement, String>)
    requires
        sql.group_expressions.len() < usize::MAX,
    ensures
        text::agrees_view(outcome, ensure_query(*sql, *chunk, first_row, *budget)),
{
    let max_rows: i64 = budget_bigint(
        budget.max_input_rows,
        "Aggregate row budget exceeds bigint",
    )?;
    let max_bytes: i64 = budget_bigint(
        budget.max_input_bytes,
        "Aggregate byte budget exceeds bigint",
    )?;
    let identity = join(&group_columns(sql.group_expressions.len()), ",");
    let holes = Holes::new().bind("input", sql.input).bind("groups", sql.groups).bind(
        "group_identity",
        identity.as_str(),
    ).bind(
        "group_evaluations",
        join(&evaluate_groups(sql.group_expressions), ",").as_str(),
    );
    assert(holes@ =~= sql.group_holes());
    let statement = Statement::new(render(ENSURE_GROUPS_SQL, holes)).bigint(
        chunk.stream_id,
    ).bigint(chunk.sequence).bigint(first_row).bigint(max_rows).bigint(max_bytes);
    assert(statement@.arguments =~= prefix_arguments(*chunk, first_row, *budget));
    Ok(statement)
}

/// Moves a page of rows into the bag, if the budget fits the wire.
pub open spec fn apply_query(
    sql: ApplySql,
    chunk: ChunkMeta,
    first_row: i64,
    budget: WorkBudget,
) -> Result<StatementModel, Seq<char>> {
    text::guarded(
        prefix_budget_fits(budget),
        StatementModel {
            sql: text::rendered(APPLY_SQL@, sql.holes()),
            arguments: prefix_arguments(chunk, first_row, budget).push(
                SqlModel::Text(Some(postgres::lsn_text(chunk.lsn))),
            ),
        },
    )
}

/// The statement that admits a prefix into the bag and queues its groups.
pub fn apply_statement(sql: &ApplySql, chunk: &ChunkMeta, first_row: i64, budget: &WorkBudget) -> (
    outcome: Result<Statement, String>)
    requires
        sql.group_expressions.len() < usize::MAX,
    ensures
        text::agrees_view(outcome, apply_query(*sql, *chunk, first_row, *budget)),
{
    let max_rows: i64 = budget_bigint(
        budget.max_input_rows,
        "Aggregate row budget exceeds bigint",
    )?;
    let max_bytes: i64 = budget_bigint(
        budget.max_input_bytes,
        "Aggregate byte budget exceeds bigint",
    )?;
    let list = value_list(sql.aggregates);
    let values = evaluate(&list.names, &list.expressions);
    let evaluated = append_list(evaluate_groups(sql.group_expressions), &values);
    let matching = aggregate_group_match("evaluated_base", "resolved_group", sql.group_orders);
    let holes = Holes::new().bind("input", sql.input).bind(
        "evaluated_values",
        join(&evaluated, ",").as_str(),
    ).bind("groups", sql.groups).bind("group_match", matching.as_str()).bind(
        "row_image",
        sql.row_image,
    ).bind("representative_suffix", with_comma(&first_values(&list.names)).as_str()).bind(
        "bag",
        sql.bag,
    ).bind("bag_column_suffix", with_comma(&list.names).as_str()).bind(
        "decision_column_suffix",
        with_comma(&with_prefix("decision.", &list.names)).as_str(),
    ).bind("dirty", sql.dirty);
    assert(holes@ =~= sql.holes());
    let statement = Statement::new(render(APPLY_SQL, holes)).bigint(chunk.stream_id).bigint(
        chunk.sequence,
    ).bigint(first_row).bigint(max_rows).bigint(max_bytes).text(format_lsn(chunk.lsn).as_str());
    assert(statement@.arguments =~= prefix_arguments(*chunk, first_row, *budget).push(
        SqlModel::Text(Some(postgres::lsn_text(chunk.lsn))),
    ));
    Ok(statement)
}

/// A required count that must not be negative.
pub open spec fn counted(value: Option<i64>, name: Seq<char>) -> Result<u64, Seq<char>> {
    match database::required_value(value, name) {
        Err(message) => Err(message),
        Ok(value) => if value >= 0 {
            Ok(value as u64)
        } else {
            Err("Aggregate returned a negative count"@)
        },
    }
}

pub fn required_count(value: Option<i64>, name: &str) -> (outcome: Result<u64, String>)
    ensures
        text::agrees(outcome, counted(value, name@)),
{
    aggregate_nonnegative(required(value, name)?)
}

pub fn aggregate_nonnegative(value: i64) -> (outcome: Result<u64, String>)
    ensures
        text::agrees(
            outcome,
            text::guarded(
                text::holds(value >= 0, "Aggregate returned a negative count"@),
                value as u64,
            ),
        ),
{
    if value < 0 {
        return fail("Aggregate returned a negative count");
    }
    Ok(value as u64)
}

/// A required text.
pub open spec fn present_text(value: Option<String>, name: Seq<char>) -> Result<
    Seq<char>,
    Seq<char>,
> {
    match value {
        None => Err("database returned NULL "@ + name),
        Some(value) => Ok(value@),
    }
}

/// The summary row of an admitted prefix as the database returned it.
#[derive(Clone, Debug, PartialEq, Eq)]
pub struct ApplyRow {
    pub status: Option<String>,
    pub rows: Option<i64>,
    pub bytes: Option<i64>,
    pub next_row: Option<i64>,
    pub state_rows: Option<i64>,
}

impl ApplyRow {
    /// The columns of the first returned row, in order.
    pub open spec fn of(rows: Seq<Row>) -> ApplyRow {
        ApplyRow {
            status: session::text(rows, 1),
            rows: session::bigint(rows, 2),
            bytes: session::bigint(rows, 3),
            next_row: session::bigint(rows, 4),
            state_rows: session::bigint(rows, 5),
        }
    }

    pub fn read(rows: &Vec<Row>) -> (row: ApplyRow)
        ensures
            row == ApplyRow::of(rows@),
    {
        ApplyRow {
            status: session::first_text(rows, 1),
            rows: session::first_bigint(rows, 2),
            bytes: session::first_bigint(rows, 3),
            next_row: session::first_bigint(rows, 4),
            state_rows: session::first_bigint(rows, 5),
        }
    }
}

/// What an admitted prefix did.
#[derive(Clone, Copy, Debug, PartialEq, Eq, Structural)]
pub struct ApplyFacts {
    pub usage: WorkUsage,
    pub next_row: i64,
    pub state_rows: u64,
}

impl ApplyRow {
    pub open spec fn complete(self) -> Result<(), Seq<char>> {
        text::both(
            match present_text(self.status, "Aggregate Apply status"@) {
                Err(message) => Err(message),
                Ok(status) => text::holds(
                    status == "ok"@,
                    "Aggregate Apply multiplicity is "@ + status,
                ),
            },
            text::four(
                text::checked(counted(self.rows, "Aggregate applied rows"@)),
                text::checked(counted(self.bytes, "Aggregate applied bytes"@)),
                text::checked(
                    database::required_value(self.next_row, "Aggregate next input row"@),
                ),
                text::checked(counted(self.state_rows, "Aggregate state rows"@)),
            ),
        )
    }

    /// The facts of a prefix that starts at a row: it admits at least one row,
    /// and the next one is directly behind it.
    pub open spec fn facts(self, first_row: i64, ensured_groups: u64) -> Result<
        ApplyFacts,
        Seq<char>,
    > {
        text::guarded(
            text::both(
                self.complete(),
                text::four(
                    text::holds(
                        self.state_rows->0 + ensured_groups <= u64::MAX,
                        "Aggregate Apply state count overflowed"@,
                    ),
                    text::holds(
                        self.rows->0 > 0,
                        "Aggregate Apply made no bounded input progress"@,
                    ),
                    text::holds(
                        first_row + self.rows->0 <= i64::MAX,
                        "Aggregate input row overflow"@,
                    ),
                    text::holds(
                        self.next_row->0 == first_row + self.rows->0,
                        "Aggregate Apply returned a discontinuous input page"@,
                    ),
                ),
            ),
            ApplyFacts {
                usage: WorkUsage {
                    input_rows: self.rows->0 as u64,
                    input_bytes: self.bytes->0 as u64,
                    output_rows: 0,
                    output_bytes: 0,
                },
                next_row: self.next_row->0,
                state_rows: (self.state_rows->0 + ensured_groups) as u64,
            },
        )
    }
}

fn require_status(status: &Option<String>) -> (outcome: Result<(), String>)
    ensures
        text::agrees(
            outcome,
            match present_text(*status, "Aggregate Apply status"@) {
                Err(message) => Err(message),
                Ok(status) => text::holds(
                    status == "ok"@,
                    "Aggregate Apply multiplicity is "@ + status,
                ),
            },
        ),
{
    match status {
        None => Err("database returned NULL ".to_owned().concat("Aggregate Apply status")),
        Some(status) => {
            if !same_text(status.as_str(), "ok") {
                return Err("Aggregate Apply multiplicity is ".to_owned().concat(status.as_str()));
            }
            Ok(())
        },
    }
}

/// What an admitted page did.
pub open spec fn applied(
    rows: int,
    row: ApplyRow,
    first_row: i64,
    ensured_groups: u64,
) -> Result<ApplyFacts, Seq<char>> {
    if rows != 1 {
        Err("Aggregate Apply returned no summary"@)
    } else {
        row.facts(first_row, ensured_groups)
    }
}

/// Decodes the summary of an admitted prefix.
pub fn decode_apply(rows: usize, row: &ApplyRow, first_row: i64, ensured_groups: u64) -> (outcome:
    Result<ApplyFacts, String>)
    ensures
        text::agrees(outcome, applied(rows as int, *row, first_row, ensured_groups)),
{
    require_summary(rows, "Aggregate Apply returned no summary")?;
    require_status(&row.status)?;
    let input_rows: u64 = required_count(row.rows, "Aggregate applied rows")?;
    let input_bytes: u64 = required_count(row.bytes, "Aggregate applied bytes")?;
    let next_row: i64 = required(row.next_row, "Aggregate next input row")?;
    let touched: u64 = required_count(row.state_rows, "Aggregate state rows")?;
    let state_rows: u64 = match touched.checked_add(ensured_groups) {
        Some(state_rows) => state_rows,
        None => return fail("Aggregate Apply state count overflowed"),
    };
    if input_rows == 0 {
        return fail("Aggregate Apply made no bounded input progress");
    }
    match first_row.checked_add(input_rows as i64) {
        None => fail("Aggregate input row overflow"),
        Some(expected) => {
            if next_row != expected {
                return fail("Aggregate Apply returned a discontinuous input page");
            }
            Ok(
                ApplyFacts {
                    usage: WorkUsage { input_rows, input_bytes, output_rows: 0, output_bytes: 0 },
                    next_row,
                    state_rows,
                },
            )
        },
    }
}

/// Reads the first dirty group.
pub open spec fn dirty_query(dirty: Seq<char>) -> StatementModel {
    StatementModel {
        sql: "SELECT min(queue_id)::bigint FROM "@ + dirty,
        arguments: Seq::empty(),
    }
}

/// The first dirty group.
pub fn first_dirty_query(dirty: &str) -> (sql: String)
    ensures
        sql@ == "SELECT min(queue_id)::bigint FROM "@ + dirty@,
{
    "SELECT min(queue_id)::bigint FROM ".to_owned().concat(dirty)
}

/// The first dirty group, which an admitted page leaves behind.
pub open spec fn first_dirty(rows: int, queue_id: Option<i64>) -> Result<i64, Seq<char>> {
    if rows != 1 {
        Err("Aggregate dirty queue returned no summary"@)
    } else {
        database::required_value(queue_id, "Aggregate first dirty group"@)
    }
}

/// Decodes the first dirty group behind an admitted prefix, which queued one.
pub fn decode_first_dirty(rows: usize, queue_id: Option<i64>) -> (outcome: Result<i64, String>)
    ensures
        text::agrees(outcome, first_dirty(rows as int, queue_id)),
{
    require_summary(rows, "Aggregate dirty queue returned no summary")?;
    required(queue_id, "Aggregate first dirty group")
}

} // verus!
