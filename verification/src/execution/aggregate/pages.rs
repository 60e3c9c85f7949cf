//! Pages of dirty groups whose aggregates are computed in one statement: the
//! fast path of a drain.

use vstd::prelude::*;

use crate::database::{self, require_summary, required, to_bigint};
use crate::execution::aggregate::apply::{self, required_count};
use crate::execution::aggregate::machine::{
    AfterDrain, AggregateContinuation, AggregateMachine, AggregatePhase,
};
use crate::execution::aggregate::order::{self, key_ordering_sql, value_column, RebuildKeyModel};
use crate::execution::btree::{self, BtreeOrder, OrderModel};
use crate::execution::stream::{budget_bigint, OutputAppendTarget, OutputState};
use crate::planner::{WorkBudget, WorkUsage};
use crate::postgres::{self, parse_lsn};
use crate::session::{self, Row};
use crate::sql::{self, SqlModel, Statement, StatementModel};
use crate::text::{self, fail, join, listed, render, unsigned_text, Holes};

verus! {

/// Whether a group has work that is left from an earlier page.
pub const WORK_PROBE_SQL: &'static str =
    "SELECT EXISTS(
                   SELECT 1 FROM {work} AS work
                   JOIN {dirty} AS dirty USING(group_state_id)
                   WHERE dirty.queue_id=$1
                 )";

/// Selects the dirty groups of one page and what they cost to read.
pub const SELECTION_SQL: &'static str =
    r#"
            WITH costs AS MATERIALIZED (
              SELECT dirty.queue_id,dirty.causal_lsn,
                     coalesce(sum(bag.multiplicity),0)::bigint AS input_rows,
                     coalesce(sum(
                       bag.multiplicity
                         * shiba_internal.effect_row_bytes(bag.row_value)
                     ),0)::bigint AS input_bytes
              FROM {dirty} AS dirty
              LEFT JOIN {bag} AS bag USING(group_state_id)
              WHERE dirty.queue_id >= $1
              GROUP BY dirty.queue_id,dirty.causal_lsn
              ORDER BY dirty.queue_id
              LIMIT $4
            ),
            measured AS (
              SELECT costs.*,
                     row_number() OVER (ORDER BY queue_id) AS page_group,
                     sum(input_rows) OVER (ORDER BY queue_id) AS running_rows,
                     sum(input_bytes) OVER (ORDER BY queue_id) AS running_bytes
              FROM costs
            ),
            selected AS (
              SELECT * FROM measured
              WHERE page_group=1
                 OR (running_rows <= $2 AND running_bytes <= $3)
            )
            SELECT max(queue_id)::bigint,
                   coalesce(sum(input_rows),0)::bigint,
                   coalesce(sum(input_bytes),0)::bigint,
                   max(causal_lsn)::text
            FROM selected
            "#;

/// Measures the output of a page.
pub const MEASUREMENT_SQL: &'static str =
    "WITH {desired_ctes}, actions AS MATERIALIZED ({action_rows})
             SELECT count(*)::bigint,
                    coalesce(sum(
                      shiba_internal.effect_row_bytes(row_value)
                    ),0)::bigint
             FROM actions";

/// One row of each selected group, which holds its group keys.
pub const REPRESENTATIVES_SQL: &'static str =
    r#"representatives AS MATERIALIZED (
                  SELECT DISTINCT ON (bag.group_state_id)
                         bag.group_state_id,bag.row_value
                  FROM selected_dirty
                  JOIN {bag} AS bag USING(group_state_id)
                  ORDER BY bag.group_state_id,bag.row_id
                ),"#;

/// The representative of each selected group.
pub const REPRESENTATIVE_JOIN_SQL: &'static str =
    " LEFT JOIN representatives AS representative USING(group_state_id)";

/// One aggregate call over the bag of a group.
pub const AGGREGATE_VALUE_SQL: &'static str =
    "(SELECT {function}({call_arguments}{order}){filter}
              FROM {bag_sql} AS bag
              CROSS JOIN LATERAL
                generate_series(1,bag.multiplicity) AS repetition(ordinal)
              WHERE bag.group_state_id=groups.group_state_id)";

/// Whether a group still has rows.
pub const PRESENT_SQL: &'static str =
    "EXISTS(SELECT 1 FROM {bag_sql} AS present_bag
                    WHERE present_bag.group_state_id=groups.group_state_id)";

/// The desired output of each selected group and how it differs from the
/// published one.
pub const DESIRED_SQL: &'static str =
    r#"
        selected_dirty AS MATERIALIZED (
          SELECT * FROM {dirty}
          WHERE queue_id BETWEEN $1 AND $2
        ),
        {representative_cte}
        desired_base AS MATERIALIZED (
          SELECT selected_dirty.queue_id,selected_dirty.group_state_id,
                 groups.published_present,groups.published_key,
                 groups.published_output,
                 {present} AS present,
                 {output_row} AS row_value
          FROM selected_dirty
          JOIN {groups} AS groups USING(group_state_id)
          {representative_join}
        ),
        desired AS MATERIALIZED (
          SELECT desired_base.*,
                 CASE WHEN present THEN {output_key} ELSE NULL::bytea END
                   AS row_key
          FROM desired_base
        ),
        decisions AS MATERIALIZED (
          SELECT desired.*,
                 CASE
                   WHEN published_present=present
                    AND (NOT present OR published_key=row_key) THEN 'unchanged'
                   WHEN NOT published_present AND present THEN 'insert'
                   WHEN published_present AND NOT present THEN 'delete'
                   ELSE 'replace'
                 END AS decision
          FROM desired
        )
        "#;

/// The rows that turn the published outputs into the desired ones:
/// retractions, then insertions.
pub const ACTION_ROWS_SQL: &'static str =
    "
        SELECT queue_id,0::smallint AS leg,-1::bigint AS weight,
               published_output AS row_value
        FROM decisions
        WHERE decision IN ('delete','replace')
        UNION ALL
        SELECT queue_id,1::smallint AS leg,1::bigint AS weight,row_value
        FROM decisions
        WHERE decision IN ('insert','replace')
    ";

/// The qualified name of an aggregate function.
pub const FUNCTION_NAME_SQL: &'static str =
    "SELECT format('%I.%I',namespace.nspname,function.proname)
         FROM pg_catalog.pg_proc AS function
         JOIN pg_catalog.pg_namespace AS namespace
           ON namespace.oid=function.pronamespace
         WHERE function.oid=$1 AND function.prokind='a'";

/// Appends the actions of a page to the output payload.
pub const APPEND_SQL: &'static str =
    r#"
                WITH {desired_ctes},
                actions AS MATERIALIZED ({action_rows}),
                numbered AS MATERIALIZED (
                  SELECT row_number() OVER (ORDER BY queue_id,leg)-1
                           AS page_ordinal,
                         weight,row_value
                  FROM actions
                ),
                stored AS (
                  INSERT INTO {output_payload}(
                    stream_id,chunk_seq,row_ordinal,weight,row_value
                  )
                  SELECT $3,$4,$5+page_ordinal,weight,row_value
                  FROM numbered
                  ORDER BY page_ordinal
                  RETURNING shiba_internal.effect_row_bytes(row_value)
                    AS row_bytes
                )
                SELECT count(*)::bigint,
                       coalesce(sum(row_bytes),0)::bigint
                FROM stored
                "#;

/// Publishes the desired outputs of a page.
pub const PUBLISH_SQL: &'static str =
    r#"
            WITH {desired_ctes},
            changed AS (
              UPDATE {groups} AS groups
              SET published_present=desired.present,
                  published_key=desired.row_key,
                  published_output=CASE WHEN desired.present
                                        THEN desired.row_value
                                        ELSE NULL END,
                  pending_present=false,
                  pending_key=NULL,
                  pending_output=NULL
              FROM desired
              WHERE groups.group_state_id=desired.group_state_id
              RETURNING groups.group_state_id
            )
            SELECT count(*)::bigint FROM changed
            "#;

/// Takes the groups of a page off the queue.
pub const DEQUEUE_SQL: &'static str =
    "DELETE FROM {dirty}
             WHERE queue_id BETWEEN $1 AND $2
             RETURNING group_state_id";

/// Removes the groups that hold nothing any more.
pub const CLEANUP_SQL: &'static str =
    "DELETE FROM {groups} AS groups
                 WHERE NOT groups.published_present
                   AND NOT groups.pending_present
                   AND NOT EXISTS(
                     SELECT 1 FROM {bag} AS bag
                     WHERE bag.group_state_id=groups.group_state_id
                   )
                 RETURNING 1";

/// The names of an aggregate function in the catalog.
pub fn aggregate_function_statement(function_oid: u32) -> (statement: Statement)
    ensures
        statement@ == (StatementModel {
            sql: FUNCTION_NAME_SQL@,
            arguments: seq![SqlModel::Oid(function_oid)],
        }),
{
    Statement::new(FUNCTION_NAME_SQL.to_owned()).oid(function_oid)
}

/// The SQL name of an aggregate function from its unique catalog row.
pub fn aggregate_function_name(function_oid: u32, rows: usize, name: Option<String>) -> (outcome:
    Result<String, String>)
    ensures
        text::agrees_view(
            outcome,
            if rows != 1 {
                Err(
                    "Aggregate function OID "@ + text::decimal(function_oid as int)
                        + " has no unique catalog row"@,
                )
            } else {
                apply::present_text(name, "Aggregate function SQL name"@)
            },
        ),
{
    if rows != 1 {
        let mut message = "Aggregate function OID ".to_owned();
        message.append(unsigned_text(function_oid as u64).as_str());
        message.append(" has no unique catalog row");
        return Err(message);
    }
    match name {
        None => Err("database returned NULL ".to_owned().concat("Aggregate function SQL name")),
        Some(name) => Ok(name),
    }
}

/// One aggregate call over the bag of a group.
#[derive(Debug, PartialEq, Eq)]
pub struct AggregateCall {
    pub function: String,
    pub arguments: Vec<String>,
    pub distinct: bool,
    pub order_by: Vec<BtreeOrder>,
    pub filter: Option<String>,
}

/// One aggregate call as a mathematical value.
#[verifier::ext_equal]
pub struct CallModel {
    pub function: Seq<char>,
    pub arguments: Seq<Seq<char>>,
    pub distinct: bool,
    pub order_by: Seq<OrderModel>,
    pub filter: Option<Seq<char>>,
}

impl View for AggregateCall {
    type V = CallModel;

    open spec fn view(&self) -> CallModel {
        CallModel {
            function: self.function@,
            arguments: text::texts(self.arguments@),
            distinct: self.distinct,
            order_by: btree::orders(self.order_by@),
            filter: sql::text_model(self.filter),
        }
    }
}

impl CallModel {
    /// The arguments of the call: `*` where it has none.
    pub open spec fn argument_list(self) -> Seq<char> {
        if self.arguments.len() == 0 {
            "*"@
        } else {
            (if self.distinct {
                "DISTINCT "@
            } else {
                ""@
            }) + text::joined(self.arguments, ","@)
        }
    }

    /// The order keys of the call; rows break ties unless equal rows are one
    /// input.
    pub open spec fn order_keys(self, ordinal: int) -> Seq<Seq<char>> {
        let keys = Seq::new(
            self.order_by.len(),
            |index: int|
                order::key_ordering(
                    RebuildKeyModel {
                        column: order::value_name(ordinal, "order"@, index),
                        order: self.order_by[index],
                    },
                ),
        );
        if self.distinct {
            keys
        } else {
            keys.push("bag.row_id"@)
        }
    }

    /// The order clause of the call.
    pub open spec fn order_clause(self, ordinal: int) -> Seq<char> {
        if self.order_by.len() == 0 {
            ""@
        } else {
            " ORDER BY "@ + text::joined(self.order_keys(ordinal), ","@)
        }
    }

    /// The filter clause of the call.
    pub open spec fn filter_clause(self) -> Seq<char> {
        match self.filter {
            None => ""@,
            Some(filter) => " FILTER (WHERE "@ + filter + ")"@,
        }
    }

    /// The value of the call over the bag of a group.
    pub open spec fn value(self, ordinal: int, bag: Seq<char>) -> Seq<char> {
        text::rendered(
            AGGREGATE_VALUE_SQL@,
            seq![
                ("function"@, self.function),
                ("call_arguments"@, self.argument_list()),
                ("order"@, self.order_clause(ordinal)),
                ("filter"@, self.filter_clause()),
                ("bag_sql"@, bag),
            ],
        )
    }
}

fn argument_list(call: &AggregateCall) -> (sql: String)
    ensures
        sql@ == call@.argument_list(),
{
    assert(text::texts(call.arguments@).len() == call.arguments@.len());
    if call.arguments.is_empty() {
        return "*".to_owned();
    }
    let distinct = if call.distinct {
        "DISTINCT "
    } else {
        ""
    };
    distinct.to_owned().concat(join(&call.arguments, ",").as_str())
}

fn order_clause(call: &AggregateCall, ordinal: usize) -> (sql: String)
    ensures
        sql@ == call@.order_clause(ordinal as int),
{
    if call.order_by.is_empty() {
        return "".to_owned();
    }
    let mut keys = listed(
        call.order_by.len(),
        |index: usize| -> (item: String)
            requires
                index < call.order_by.len(),
            ensures
                item@ == order::key_ordering(
                    (RebuildKeyModel {
                        column: order::value_name(ordinal as int, "order"@, index as int),
                        order: call.order_by@[index as int]@,
                    }),
                )
            {
                key_ordering_sql(
                    value_column(ordinal, "order", index).as_str(),
                    &call.order_by[index],
                )
            },
    );
    if !call.distinct {
        keys.push("bag.row_id".to_owned());
    }
    assert(text::texts(keys@) =~= call@.order_keys(ordinal as int));
    " ORDER BY ".to_owned().concat(join(&keys, ",").as_str())
}

fn filter_clause(call: &AggregateCall) -> (sql: String)
    ensures
        sql@ == call@.filter_clause(),
{
    match &call.filter {
        None => "".to_owned(),
        Some(filter) => {
            let mut sql = " FILTER (WHERE ".to_owned();
            sql.append(filter.as_str());
            sql.append(")");
            sql
        },
    }
}

fn value_sql(call: &AggregateCall, ordinal: usize, bag: &str) -> (sql: String)
    ensures
        sql@ == call@.value(ordinal as int, bag@),
{
    let holes = Holes::new().bind("function", call.function.as_str()).bind(
        "call_arguments",
        argument_list(call).as_str(),
    ).bind("order", order_clause(call, ordinal).as_str()).bind(
        "filter",
        filter_clause(call).as_str(),
    ).bind("bag_sql", bag);
    assert(holes@ =~= seq![
        ("function"@, call@.function),
        ("call_arguments"@, call@.argument_list()),
        ("order"@, call@.order_clause(ordinal as int)),
        ("filter"@, call@.filter_clause()),
        ("bag_sql"@, bag@),
    ]);
    render(AGGREGATE_VALUE_SQL, holes)
}

/// What the pages of a group read and write.
pub struct PageSql<'a> {
    pub bag: &'a str,
    pub groups: &'a str,
    pub dirty: &'a str,
    pub output_type: &'a str,
    /// The canonical key of the row `desired_base.row_value`.
    pub output_key: &'a str,
    /// The group keys of a row `representative`; none for a global group.
    pub group_values: &'a Vec<String>,
    pub aggregates: &'a Vec<AggregateCall>,
}

impl<'a> PageSql<'a> {
    /// The values of the output row: the group keys, then the aggregates.
    pub open spec fn values(self) -> Seq<Seq<char>> {
        text::texts(self.group_values@) + Seq::new(
            self.aggregates@.len(),
            |index: int| self.aggregates@[index]@.value(index + 1, self.bag@),
        )
    }

    /// Whether a group has an output row: a global group always does.
    pub open spec fn present(self) -> Seq<char> {
        if self.group_values@.len() == 0 {
            "true"@
        } else {
            text::rendered(PRESENT_SQL@, seq![("bag_sql"@, self.bag@)])
        }
    }

    /// The holes of the desired outputs.
    pub open spec fn desired_holes(self) -> Seq<(Seq<char>, Seq<char>)> {
        let grouped = self.group_values@.len() > 0;
        seq![
            ("dirty"@, self.dirty@),
            ("groups"@, self.groups@),
            (
                "representative_cte"@,
                if grouped {
                    text::rendered(REPRESENTATIVES_SQL@, seq![("bag"@, self.bag@)])
                } else {
                    ""@
                },
            ),
            (
                "representative_join"@,
                if grouped {
                    REPRESENTATIVE_JOIN_SQL@
                } else {
                    ""@
                },
            ),
            ("present"@, self.present()),
            (
                "output_row"@,
                "ROW("@ + text::joined(self.values(), ","@) + ")::"@ + self.output_type@,
            ),
            ("output_key"@, self.output_key@),
        ]
    }

    /// The desired output of every selected group, and how it differs from
    /// what is published.
    pub open spec fn desired(self) -> Seq<char> {
        text::rendered(DESIRED_SQL@, self.desired_holes())
    }
}

fn output_values(sql: &PageSql) -> (list: Vec<String>)
    ensures
        text::texts(list@) == sql.values(),
{
    let mut list: Vec<String> = Vec::new();
    let mut index: usize = 0;
    let ghost keys = text::texts(sql.group_values@);
    while index < sql.group_values.len()
        invariant
            index <= sql.group_values.len(),
            keys == text::texts(sql.group_values@),
            text::texts(list@) =~= keys.take(index as int),
        decreases sql.group_values.len() - index,
    {
        let ghost before = list@;
        list.push(sql.group_values[index].clone());
        assert(text::texts(list@) =~= text::texts(before).push(keys[index as int]));
        index = index + 1;
    }
    index = 0;
    assert(keys.take(keys.len() as int) =~= keys);
    while index < sql.aggregates.len()
        invariant
            index <= sql.aggregates.len(),
            keys == text::texts(sql.group_values@),
            text::texts(list@) =~= keys + Seq::new(
                index as nat,
                |k: int| sql.aggregates@[k]@.value(k + 1, sql.bag@),
            ),
        decreases sql.aggregates.len() - index,
    {
        let ghost before = list@;
        list.push(value_sql(&sql.aggregates[index], index + 1, sql.bag));
        assert(text::texts(list@) =~= text::texts(before).push(
            sql.aggregates@[index as int]@.value(index + 1, sql.bag@),
        ));
        index = index + 1;
    }
    assert(text::texts(list@) =~= sql.values());
    list
}

/// The common table expressions of the desired outputs of a page.
pub fn desired_sql(sql: &PageSql) -> (text: String)
    ensures
        text@ == sql.desired(),
{
    let grouped = !sql.group_values.is_empty();
    let representatives = if grouped {
        let holes = Holes::new().bind("bag", sql.bag);
        assert(holes@ =~= seq![("bag"@, sql.bag@)]);
        render(REPRESENTATIVES_SQL, holes)
    } else {
        "".to_owned()
    };
    let joined = if grouped {
        REPRESENTATIVE_JOIN_SQL
    } else {
        ""
    };
    let present = if grouped {
        let holes = Holes::new().bind("bag_sql", sql.bag);
        assert(holes@ =~= seq![("bag_sql"@, sql.bag@)]);
        render(PRESENT_SQL, holes)
    } else {
        "true".to_owned()
    };
    let mut row = "ROW(".to_owned();
    row.append(join(&output_values(sql), ",").as_str());
    row.append(")::");
    row.append(sql.output_type);
    let holes = Holes::new().bind("dirty", sql.dirty).bind("groups", sql.groups).bind(
        "representative_cte",
        representatives.as_str(),
    ).bind("representative_join", joined).bind("present", present.as_str()).bind(
        "output_row",
        row.as_str(),
    ).bind("output_key", sql.output_key);
    assert(holes@ =~= sql.desired_holes());
    render(DESIRED_SQL, holes)
}

/// Asks whether a fold of a group has begun.
pub open spec fn probe_query(
    work: Seq<char>,
    dirty: Seq<char>,
    group_queue_id: i64,
) -> StatementModel {
    StatementModel {
        sql: text::rendered(WORK_PROBE_SQL@, seq![("work"@, work), ("dirty"@, dirty)]),
        arguments: seq![SqlModel::BigInt(Some(group_queue_id))],
    }
}

/// The probe for work that is left of a group from an earlier page.
pub fn work_probe(work: &str, dirty: &str, group_queue_id: i64) -> (statement: Statement)
    ensures
        statement@ == probe_query(work@, dirty@, group_queue_id),
{
    let holes = Holes::new().bind("work", work).bind("dirty", dirty);
    assert(holes@ =~= seq![("work"@, work@), ("dirty"@, dirty@)]);
    Statement::new(render(WORK_PROBE_SQL, holes)).bigint(group_queue_id)
}

/// Whether a fold of a group has begun.
pub open spec fn begun(existing: Option<bool>) -> Result<bool, Seq<char>> {
    database::required_value(existing, "Aggregate page work state"@)
}

/// Whether a group has work that is left from an earlier page.
pub fn decode_work_probe(existing: Option<bool>) -> (outcome: Result<bool, String>)
    ensures
        text::agrees(outcome, begun(existing)),
{
    required(existing, "Aggregate page work state")
}

/// The budget of one page of groups.
pub open spec fn page_budget_fits(budget: WorkBudget) -> Result<(), Seq<char>> {
    text::three(
        text::holds(
            budget.max_input_rows <= i64::MAX,
            "Aggregate page row budget exceeds bigint"@,
        ),
        text::holds(
            budget.max_input_bytes <= i64::MAX,
            "Aggregate page byte budget exceeds bigint"@,
        ),
        text::holds(
            budget.max_output_rows <= i64::MAX,
            "Aggregate page output budget exceeds bigint"@,
        ),
    )
}

/// Selects the groups of a page, if the budget fits the wire.
pub open spec fn selection_query(
    dirty: Seq<char>,
    bag: Seq<char>,
    group_queue_id: i64,
    budget: WorkBudget,
) -> Result<StatementModel, Seq<char>> {
    text::guarded(
        page_budget_fits(budget),
        StatementModel {
            sql: text::rendered(
                SELECTION_SQL@,
                seq![("dirty"@, dirty), ("bag"@, bag)],
            ),
            arguments: seq![
                SqlModel::BigInt(Some(group_queue_id)),
                SqlModel::BigInt(Some(budget.max_input_rows as i64)),
                SqlModel::BigInt(Some(budget.max_input_bytes as i64)),
                SqlModel::BigInt(
                    Some(
                        if budget.max_output_rows == 0 {
                            1
                        } else {
                            budget.max_output_rows as i64
                        },
                    ),
                ),
            ],
        },
    )
}

/// The statement that selects the groups of one page: at least one, and no
/// more than the budget admits.
pub fn selection_statement(
    dirty: &str,
    bag: &str,
    group_queue_id: i64,
    budget: &WorkBudget,
) -> (outcome: Result<Statement, String>)
    ensures
        text::agrees_view(outcome, selection_query(dirty@, bag@, group_queue_id, *budget)),
{
    let max_rows: i64 = budget_bigint(
        budget.max_input_rows,
        "Aggregate page row budget exceeds bigint",
    )?;
    let max_bytes: i64 = budget_bigint(
        budget.max_input_bytes,
        "Aggregate page byte budget exceeds bigint",
    )?;
    let max_groups: i64 = if budget.max_output_rows == 0 {
        1
    } else {
        budget_bigint(budget.max_output_rows, "Aggregate page output budget exceeds bigint")?
    };
    let holes = Holes::new().bind("dirty", dirty).bind("bag", bag);
    assert(holes@ =~= seq![("dirty"@, dirty@), ("bag"@, bag@)]);
    let statement = Statement::new(render(SELECTION_SQL, holes)).bigint(group_queue_id).bigint(
        max_rows,
    ).bigint(max_bytes).bigint(max_groups);
    assert(statement@.arguments =~= seq![
        SqlModel::BigInt(Some(group_queue_id)),
        SqlModel::BigInt(Some(max_rows)),
        SqlModel::BigInt(Some(max_bytes)),
        SqlModel::BigInt(Some(max_groups)),
    ]);
    Ok(statement)
}

/// The summary row of a selection as the database returned it.
#[derive(Clone, Debug, PartialEq, Eq)]
pub struct SelectionRow {
    pub last_queue_id: Option<i64>,
    pub input_rows: Option<i64>,
    pub input_bytes: Option<i64>,
    pub causal_lsn: Option<String>,
}

impl SelectionRow {
    /// The columns of the first returned row, in order.
    pub open spec fn of(rows: Seq<Row>) -> SelectionRow {
        SelectionRow {
            last_queue_id: session::bigint(rows, 1),
            input_rows: session::bigint(rows, 2),
            input_bytes: session::bigint(rows, 3),
            causal_lsn: session::text(rows, 4),
        }
    }

    pub fn read(rows: &Vec<Row>) -> (row: SelectionRow)
        ensures
            row == SelectionRow::of(rows@),
    {
        SelectionRow {
            last_queue_id: session::first_bigint(rows, 1),
            input_rows: session::first_bigint(rows, 2),
            input_bytes: session::first_bigint(rows, 3),
            causal_lsn: session::first_text(rows, 4),
        }
    }
}

/// The groups of one page and what they cost to read.
#[derive(Clone, Copy, Debug, PartialEq, Eq, Structural)]
pub struct PageSelection {
    pub last_queue_id: i64,
    pub causal_lsn: u64,
    pub input_rows: u64,
    pub input_bytes: u64,
}

/// The causal position of a page.
pub open spec fn page_lsn(value: Option<String>) -> Result<u64, Seq<char>> {
    match value {
        None => Err("Aggregate page omitted its causal LSN"@),
        Some(value) => match postgres::lsn_value(value@) {
            Some(lsn) => Ok(lsn as u64),
            None => Err("malformed LSN "@ + postgres::quoted(value@)),
        },
    }
}

impl SelectionRow {
    /// The selection, or `None` where nothing is dirty or the first group
    /// alone exceeds the budget.
    pub open spec fn selection(self, budget: WorkBudget) -> Result<
        Option<PageSelection>,
        Seq<char>,
    > {
        match self.last_queue_id {
            None => Ok(None),
            Some(last_queue_id) => match text::both(
                text::checked(apply::counted(self.input_rows, "Aggregate page input rows"@)),
                text::checked(apply::counted(self.input_bytes, "Aggregate page input bytes"@)),
            ) {
                Err(message) => Err(message),
                Ok(()) => if self.input_rows->0 > budget.max_input_rows || self.input_bytes->0
                    > budget.max_input_bytes {
                    Ok(None)
                } else {
                    match page_lsn(self.causal_lsn) {
                        Err(message) => Err(message),
                        Ok(causal_lsn) => Ok(
                            Some(
                                PageSelection {
                                    last_queue_id,
                                    causal_lsn,
                                    input_rows: self.input_rows->0 as u64,
                                    input_bytes: self.input_bytes->0 as u64,
                                },
                            ),
                        ),
                    }
                },
            },
        }
    }
}

/// The groups that were selected, or none.
pub open spec fn selected(
    rows: int,
    row: SelectionRow,
    budget: WorkBudget,
) -> Result<Option<PageSelection>, Seq<char>> {
    if rows != 1 {
        Err("Aggregate group page returned no selection summary"@)
    } else {
        row.selection(budget)
    }
}

/// Decodes the selection of a page.
pub fn decode_selection(rows: usize, row: &SelectionRow, budget: &WorkBudget) -> (outcome: Result<
    Option<PageSelection>,
    String,
>)
    ensures
        text::agrees(outcome, selected(rows as int, *row, *budget)),
{
    require_summary(rows, "Aggregate group page returned no selection summary")?;
    match row.last_queue_id {
        None => Ok(None),
        Some(last_queue_id) => {
            let input_rows: u64 = required_count(
                row.input_rows,
                "Aggregate page input rows",
            )?;
            let input_bytes: u64 = required_count(
                row.input_bytes,
                "Aggregate page input bytes",
            )?;
            if input_rows > budget.max_input_rows as u64 || input_bytes
                > budget.max_input_bytes as u64 {
                return Ok(None);
            }
            match &row.causal_lsn {
                None => fail("Aggregate page omitted its causal LSN"),
                Some(value) => {
                    let causal_lsn: u64 = parse_lsn(value.as_str())?;
                    Ok(Some(PageSelection { last_queue_id, causal_lsn, input_rows, input_bytes }))
                },
            }
        },
    }
}

/// The holes of a statement over the actions of a page.
pub open spec fn action_holes(sql: PageSql) -> Seq<(Seq<char>, Seq<char>)> {
    seq![("desired_ctes"@, sql.desired()), ("action_rows"@, ACTION_ROWS_SQL@)]
}

fn bind_actions(sql: &PageSql) -> (holes: Holes)
    ensures
        holes@ == action_holes(*sql),
{
    let holes = Holes::new().bind("desired_ctes", desired_sql(sql).as_str()).bind(
        "action_rows",
        ACTION_ROWS_SQL,
    );
    assert(holes@ =~= action_holes(*sql));
    holes
}

/// Measures the output of the selected groups.
pub open spec fn measurement_query(
    sql: PageSql,
    first_queue_id: i64,
    last_queue_id: i64,
) -> StatementModel {
    StatementModel {
        sql: text::rendered(MEASUREMENT_SQL@, action_holes(sql)),
        arguments: seq![
            SqlModel::BigInt(Some(first_queue_id)),
            SqlModel::BigInt(Some(last_queue_id)),
        ],
    }
}

/// The statement that measures the output of a page.
pub fn action_measurement(sql: &PageSql, first_queue_id: i64, last_queue_id: i64) -> (statement:
    Statement)
    ensures
        statement@ == measurement_query(*sql, first_queue_id, last_queue_id),
{
    Statement::new(render(MEASUREMENT_SQL, bind_actions(sql))).bigint(first_queue_id).bigint(
        last_queue_id,
    )
}

/// One page of groups and its measured work.
#[derive(Clone, Copy, Debug, PartialEq, Eq, Structural)]
pub struct GroupPage {
    pub last_queue_id: i64,
    pub causal_lsn: u64,
    pub input_rows: u64,
    pub input_bytes: u64,
    pub output_rows: u64,
    pub output_bytes: u64,
}

/// The page of a selection whose output was measured, or `None` where the
/// output exceeds the budget.
pub open spec fn measured_page(
    selection: PageSelection,
    output_rows: Option<i64>,
    output_bytes: Option<i64>,
    budget: WorkBudget,
) -> Result<Option<GroupPage>, Seq<char>> {
    match text::both(
        text::checked(apply::counted(output_rows, "Aggregate page output rows"@)),
        text::checked(apply::counted(output_bytes, "Aggregate page output bytes"@)),
    ) {
        Err(message) => Err(message),
        Ok(()) => if output_rows->0 > budget.max_output_rows || output_bytes->0
            > budget.max_output_bytes {
            Ok(None)
        } else {
            Ok(
                Some(
                    GroupPage {
                        last_queue_id: selection.last_queue_id,
                        causal_lsn: selection.causal_lsn,
                        input_rows: selection.input_rows,
                        input_bytes: selection.input_bytes,
                        output_rows: output_rows->0 as u64,
                        output_bytes: output_bytes->0 as u64,
                    },
                ),
            )
        },
    }
}

/// The page, if its output fits the budget.
pub open spec fn measured(
    rows: int,
    output_rows: Option<i64>,
    output_bytes: Option<i64>,
    selection: PageSelection,
    budget: WorkBudget,
) -> Result<Option<GroupPage>, Seq<char>> {
    if rows != 1 {
        Err("Aggregate page action measurement returned no summary"@)
    } else {
        measured_page(selection, output_rows, output_bytes, budget)
    }
}

/// Decodes the measured output of a page.
pub fn decode_measurement(
    rows: usize,
    output_rows: Option<i64>,
    output_bytes: Option<i64>,
    selection: PageSelection,
    budget: &WorkBudget,
) -> (outcome: Result<Option<GroupPage>, String>)
    ensures
        text::agrees(outcome, measured(rows as int, output_rows, output_bytes, selection, *budget)),
{
    require_summary(rows, "Aggregate page action measurement returned no summary")?;
    let rows: u64 = required_count(output_rows, "Aggregate page output rows")?;
    let bytes: u64 = required_count(output_bytes, "Aggregate page output bytes")?;
    if rows > budget.max_output_rows as u64 || bytes > budget.max_output_bytes as u64 {
        return Ok(None);
    }
    Ok(
        Some(
            GroupPage {
                last_queue_id: selection.last_queue_id,
                causal_lsn: selection.causal_lsn,
                input_rows: selection.input_rows,
                input_bytes: selection.input_bytes,
                output_rows: rows,
                output_bytes: bytes,
            },
        ),
    )
}

/// Appends the output of a page to a chunk.
pub open spec fn append_query(
    sql: PageSql,
    output_payload: Seq<char>,
    first_queue_id: i64,
    page: GroupPage,
    output: OutputState,
    target: OutputAppendTarget,
) -> Result<StatementModel, Seq<char>> {
    text::guarded(
        text::holds(
            target.offset() <= i64::MAX,
            "Aggregate page row offset exceeds bigint"@,
        ),
        StatementModel {
            sql: text::rendered(
                APPEND_SQL@,
                action_holes(sql).push(("output_payload"@, output_payload)),
            ),
            arguments: seq![
                SqlModel::BigInt(Some(first_queue_id)),
                SqlModel::BigInt(Some(page.last_queue_id)),
                SqlModel::BigInt(Some(output.stream_id)),
                SqlModel::BigInt(Some(target.chunk())),
                SqlModel::BigInt(Some(target.offset() as i64)),
            ],
        },
    )
}

/// The statement that appends the output of a page to its stream.
pub fn append_statement(
    sql: &PageSql,
    output_payload: &str,
    first_queue_id: i64,
    page: &GroupPage,
    output: &OutputState,
    target: OutputAppendTarget,
) -> (outcome: Result<Statement, String>)
    ensures
        text::agrees_view(outcome, append_query(*sql, output_payload@, first_queue_id, *page, *output, target)),
{
    let offset: i64 = to_bigint(target.row_offset(), "Aggregate page row offset exceeds bigint")?;
    let holes = bind_actions(sql).bind("output_payload", output_payload);
    let statement = Statement::new(render(APPEND_SQL, holes)).bigint(first_queue_id).bigint(
        page.last_queue_id,
    ).bigint(output.stream_id).bigint(target.sequence()).bigint(offset);
    assert(statement@.arguments =~= seq![
        SqlModel::BigInt(Some(first_queue_id)),
        SqlModel::BigInt(Some(page.last_queue_id)),
        SqlModel::BigInt(Some(output.stream_id)),
        SqlModel::BigInt(Some(target.chunk())),
        SqlModel::BigInt(Some(target.offset() as i64)),
    ]);
    Ok(statement)
}

/// Whether an append wrote what was measured.
pub open spec fn append_sound(
    rows: int,
    inserted_rows: Option<i64>,
    inserted_bytes: Option<i64>,
    page: GroupPage,
) -> Result<(), Seq<char>> {
    text::both(
        text::holds(rows == 1, "Aggregate page append returned no summary"@),
        match apply::counted(inserted_rows, "Aggregate page inserted rows"@) {
            Err(message) => Err(message),
            Ok(written) => if written != page.output_rows {
                Err("Aggregate page append disagrees with its measurement"@)
            } else {
                match apply::counted(inserted_bytes, "Aggregate page inserted bytes"@) {
                    Err(message) => Err(message),
                    Ok(bytes) => text::holds(
                        bytes == page.output_bytes,
                        "Aggregate page append disagrees with its measurement"@,
                    ),
                }
            },
        },
    )
}

/// Checks that an append wrote what was measured.
pub fn validate_append(
    rows: usize,
    inserted_rows: Option<i64>,
    inserted_bytes: Option<i64>,
    page: &GroupPage,
) -> (outcome: Result<(), String>)
    ensures
        text::agrees(outcome, append_sound(rows as int, inserted_rows, inserted_bytes, *page)),
{
    require_summary(rows, "Aggregate page append returned no summary")?;
    let written: u64 = required_count(inserted_rows, "Aggregate page inserted rows")?;
    if written != page.output_rows {
        return fail("Aggregate page append disagrees with its measurement");
    }
    let bytes: u64 = required_count(inserted_bytes, "Aggregate page inserted bytes")?;
    if bytes != page.output_bytes {
        return fail("Aggregate page append disagrees with its measurement");
    }
    Ok(())
}

/// Keeps the output of a page as published.
pub open spec fn publish_query(
    sql: PageSql,
    first_queue_id: i64,
    last_queue_id: i64,
) -> StatementModel {
    StatementModel {
        sql: text::rendered(
            PUBLISH_SQL@,
            seq![("desired_ctes"@, sql.desired()), ("groups"@, sql.groups@)],
        ),
        arguments: seq![
            SqlModel::BigInt(Some(first_queue_id)),
            SqlModel::BigInt(Some(last_queue_id)),
        ],
    }
}

/// The statement that publishes the desired outputs of a page.
pub fn publish_statement(sql: &PageSql, first_queue_id: i64, last_queue_id: i64) -> (statement:
    Statement)
    ensures
        statement@ == publish_query(*sql, first_queue_id, last_queue_id),
{
    let holes = Holes::new().bind("desired_ctes", desired_sql(sql).as_str()).bind(
        "groups",
        sql.groups,
    );
    assert(holes@ =~= seq![("desired_ctes"@, sql.desired()), ("groups"@, sql.groups@)]);
    Statement::new(render(PUBLISH_SQL, holes)).bigint(first_queue_id).bigint(last_queue_id)
}

/// Takes the groups of a page off the queue.
pub open spec fn dequeue_query(
    dirty: Seq<char>,
    first_queue_id: i64,
    last_queue_id: i64,
) -> StatementModel {
    StatementModel {
        sql: text::rendered(DEQUEUE_SQL@, seq![("dirty"@, dirty)]),
        arguments: seq![
            SqlModel::BigInt(Some(first_queue_id)),
            SqlModel::BigInt(Some(last_queue_id)),
        ],
    }
}

/// The statement that takes the groups of a page off the queue.
pub fn dequeue_statement(dirty: &str, first_queue_id: i64, last_queue_id: i64) -> (statement:
    Statement)
    ensures
        statement@ == dequeue_query(dirty@, first_queue_id, last_queue_id),
{
    let holes = Holes::new().bind("dirty", dirty);
    assert(holes@ =~= seq![("dirty"@, dirty@)]);
    Statement::new(render(DEQUEUE_SQL, holes)).bigint(first_queue_id).bigint(last_queue_id)
}

/// The statement that removes the groups that hold nothing any more.
pub fn cleanup_query(groups: &str, bag: &str) -> (sql: String)
    ensures
        sql@ == text::rendered(CLEANUP_SQL@, seq![("groups"@, groups@), ("bag"@, bag@)]),
{
    let holes = Holes::new().bind("groups", groups).bind("bag", bag);
    assert(holes@ =~= seq![("groups"@, groups@), ("bag"@, bag@)]);
    render(CLEANUP_SQL, holes)
}

/// The groups whose published output a page changed.
pub open spec fn updated_groups(updated: Option<i64>) -> Result<u64, Seq<char>> {
    apply::counted(updated, "Aggregate page updated groups"@)
}

pub fn decode_updated(updated: Option<i64>) -> (outcome: Result<u64, String>)
    ensures
        text::agrees(outcome, updated_groups(updated)),
{
    required_count(updated, "Aggregate page updated groups")
}

/// Whether every group of a page was published and left the queue.
pub open spec fn page_finished(updated: u64, dequeued: u64) -> Result<(), Seq<char>> {
    text::holds(updated == dequeued, "Aggregate page did not finish every selected group"@)
}

pub fn require_finished(updated: u64, dequeued: u64) -> (outcome: Result<(), String>)
    ensures
        text::agrees(outcome, page_finished(updated, dequeued)),
{
    if updated != dequeued {
        return fail("Aggregate page did not finish every selected group");
    }
    Ok(())
}

/// The state rows that a page changed.
pub open spec fn page_state_rows(updated: u64, dequeued: u64, deleted: u64) -> Result<
    u64,
    Seq<char>,
> {
    text::guarded(
        text::holds(
            updated + dequeued + deleted <= u64::MAX,
            "Aggregate page state count overflowed"@,
        ),
        (updated + dequeued + deleted) as u64,
    )
}

pub fn finish_page(updated: u64, dequeued: u64, deleted: u64) -> (outcome: Result<u64, String>)
    ensures
        text::agrees(outcome, page_state_rows(updated, dequeued, deleted)),
{
    match updated.checked_add(dequeued) {
        None => fail("Aggregate page state count overflowed"),
        Some(rows) => match rows.checked_add(deleted) {
            None => fail("Aggregate page state count overflowed"),
            Some(rows) => Ok(rows),
        },
    }
}

/// What one page of groups commits.
#[derive(Clone, Copy, Debug, PartialEq, Eq, Structural)]
pub struct PageCommit {
    pub usage: WorkUsage,
    pub next: Option<AggregateContinuation>,
}

/// The continuation behind a page: the first group that is still dirty, or
/// what the drain was for.
pub open spec fn page_successor(
    input_stream_id: i64,
    after: AfterDrain,
    next_queue_id: Option<i64>,
) -> Option<AggregateContinuation> {
    match next_queue_id {
        Some(group_queue_id) => Some(
            AggregateContinuation {
                input_stream_id,
                input: None,
                phase: AggregatePhase::DrainRebuild { group_queue_id, aggregate_ordinal: 1, after },
            },
        ),
        None => AggregateMachine::drained(input_stream_id, after),
    }
}

/// What a page of groups commits.
pub open spec fn page_commit(
    machine: AggregateMachine,
    value: AggregateContinuation,
    page: GroupPage,
    next_queue_id: Option<i64>,
) -> Result<PageCommit, Seq<char>> {
    match value.phase {
        AggregatePhase::DrainRebuild { group_queue_id, aggregate_ordinal, after } => {
            let next = page_successor(value.input_stream_id, after, next_queue_id);
            text::guarded(
                match next {
                    None => Ok(()),
                    Some(next) => machine.accepts(next),
                },
                PageCommit {
                    usage: WorkUsage {
                        input_rows: page.input_rows,
                        input_bytes: page.input_bytes,
                        output_rows: page.output_rows,
                        output_bytes: page.output_bytes,
                    },
                    next,
                },
            )
        },
        _ => Err("Aggregate group page received another phase"@),
    }
}

/// Commits one page of groups.
pub fn commit_page(
    machine: AggregateMachine,
    value: AggregateContinuation,
    page: &GroupPage,
    next_queue_id: Option<i64>,
) -> (outcome: Result<PageCommit, String>)
    ensures
        text::agrees(outcome, page_commit(machine, value, *page, next_queue_id)),
{
    match value.phase {
        AggregatePhase::DrainRebuild { after, .. } => {
            let next = match next_queue_id {
                Some(group_queue_id) => Some(
                    AggregateContinuation {
                        input_stream_id: value.input_stream_id,
                        input: None,
                        phase: AggregatePhase::DrainRebuild {
                            group_queue_id,
                            aggregate_ordinal: 1,
                            after,
                        },
                    },
                ),
                None => AggregateMachine::after_drained(value.input_stream_id, after),
            };
            if let Some(next) = next {
                machine.action(next)?;
            }
            Ok(
                PageCommit {
                    usage: WorkUsage {
                        input_rows: page.input_rows,
                        input_bytes: page.input_bytes,
                        output_rows: page.output_rows,
                        output_bytes: page.output_bytes,
                    },
                    next,
                },
            )
        },
        _ => fail("Aggregate group page received another phase"),
    }
}

} // verus!
