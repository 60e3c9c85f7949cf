//! Whole-chunk pages of an inner Join: a chunk whose measured output fits one
//! transaction is applied by four set statements.

use vstd::prelude::*;

use crate::database::{self, require_summary, required, required_nonnegative, to_bigint};
use crate::execution::join::layout::{
    self, insert_columns_sql, key_column, key_columns_sql, key_join_sql, side_alias, Layout,
};
use crate::execution::join::planner::InputSide;
use crate::execution::stream::{
    ChunkKind, ChunkMeta, InputAdvance, InputState, OutputAppend, OutputAppendTarget, OutputState,
};
use crate::planner::{WorkBudget, WorkUsage};
use crate::sql::{SqlModel, Statement, StatementModel};
use crate::text::{self, fail, join, listed, render, Holes};

verus! {

/// Measures the output of one whole inner-join input chunk.
pub const MEASURE_PAGE_SQL: &'static str =
    r#"
                SELECT count(*)::bigint,
                       coalesce(sum(
                         shiba_internal.effect_row_bytes({output_row})
                       ),0)::bigint
                FROM {current_payload} AS {current_alias}
                JOIN {opposite_state} AS {opposite_alias}
                  ON ({condition}) IS TRUE
                {key_join}
                WHERE {page_predicate}
                "#;

/// Appends the output of one whole inner-join input chunk.
pub const APPEND_PAGE_SQL: &'static str =
    r#"
                WITH joined AS MATERIALIZED (
                  SELECT row_number() OVER (
                           ORDER BY {current_alias}.row_ordinal,
                                    {opposite_alias}.row_id
                         ) - 1 AS page_ordinal,
                         {current_alias}.weight
                           * {opposite_alias}.multiplicity AS weight,
                         {output_row} AS row_value
                  FROM {current_payload} AS {current_alias}
                  JOIN {opposite_state} AS {opposite_alias}
                    ON ({condition}) IS TRUE
                  {key_join}
                  WHERE {current_alias}.stream_id=$1
                    AND {current_alias}.chunk_seq=$2
                ),
                stored AS (
                  INSERT INTO {output_payload}(
                    stream_id,chunk_seq,row_ordinal,weight,row_value
                  )
                  SELECT $3,$4,$5+page_ordinal,weight,row_value
                  FROM joined
                  ORDER BY page_ordinal
                  RETURNING shiba_internal.effect_row_bytes(row_value) AS row_bytes
                )
                SELECT count(*)::bigint,
                       coalesce(sum(row_bytes),0)::bigint
                FROM stored
                "#;

/// Counts one whole input chunk against the opposite arrangement.
pub const PAGE_CANDIDATES_SQL: &'static str =
    r#"
                WITH deltas AS MATERIALIZED (
                  SELECT {opposite_alias}.row_id,
                         coalesce(sum({current_alias}.weight)
                           FILTER (WHERE ({condition}) IS TRUE),0)::bigint
                           AS matched_delta,
                         coalesce(sum({current_alias}.weight)
                           FILTER (WHERE ({condition}) IS NULL),0)::bigint
                           AS unknown_delta
                  FROM {current_payload} AS {current_alias}
                  JOIN {opposite_state} AS {opposite_alias}
                    ON TRUE
                  {key_join}
                  WHERE {current_alias}.stream_id=$1
                    AND {current_alias}.chunk_seq=$2
                  GROUP BY {opposite_alias}.row_id
                ),
                changed AS (
                  UPDATE {opposite_state} AS candidate
                  SET match_count=candidate.match_count+deltas.matched_delta,
                      unknown_count=candidate.unknown_count+deltas.unknown_delta
                  FROM deltas
                  WHERE candidate.row_id=deltas.row_id
                    AND candidate.match_count+deltas.matched_delta >= 0
                    AND candidate.unknown_count+deltas.unknown_delta >= 0
                    AND (
                      deltas.matched_delta <> 0
                      OR deltas.unknown_delta <> 0
                    )
                  RETURNING candidate.row_id
                )
                SELECT count(*) FILTER (
                         WHERE matched_delta <> 0 OR unknown_delta <> 0
                       )::bigint,
                       (SELECT count(*)::bigint FROM changed)
                FROM deltas
                "#;

/// Both counts of a row from one filtered scan of the opposite arrangement.
pub const COUNTS_JOIN_SQL: &'static str =
    r#"
                  LEFT JOIN LATERAL (
                    SELECT coalesce(sum({opposite_alias}.multiplicity)
                                      FILTER (WHERE ({condition}) IS TRUE),0)::bigint
                               AS match_count,
                           coalesce(sum({opposite_alias}.multiplicity)
                                      FILTER (WHERE ({condition}) IS NULL),0)::bigint
                               AS unknown_count
                    FROM {opposite_state} AS {opposite_alias}
                  ) AS counts ON TRUE
                "#;

/// The matches of a row among its equality candidates.
pub const MATCH_COUNT_SQL: &'static str =
    r#"coalesce((
                           SELECT sum({opposite_alias}.multiplicity)::bigint
                           FROM LATERAL (
                             SELECT collapsed.row_value
                           ) AS {current_alias}
                           JOIN {opposite_state} AS {opposite_alias}
                             ON ({condition}) IS TRUE
                           {key_join}
                         ),0)::bigint"#;

/// The unknown matches of a row among its equality candidates.
pub const UNKNOWN_COUNT_SQL: &'static str =
    r#"coalesce((
                           SELECT sum({opposite_alias}.multiplicity)::bigint
                           FROM LATERAL (
                             SELECT collapsed.row_value
                           ) AS {current_alias}
                           JOIN {opposite_state} AS {opposite_alias}
                             ON ({condition}) IS NULL
                           {key_join}
                         ),0)::bigint"#;

/// Applies one whole input chunk to the arrangement of its side.
pub const OWN_STATE_SQL: &'static str =
    r#"
                WITH incoming AS MATERIALIZED (
                  SELECT effect.row_ordinal,effect.row_value,effect.weight,
                         {row_key} AS row_key,
                         sum(effect.weight) OVER (
                           PARTITION BY {row_key}
                           ORDER BY effect.row_ordinal
                           ROWS UNBOUNDED PRECEDING
                         ) AS prefix
                  FROM {current_payload} AS effect
                  WHERE effect.stream_id=$1 AND effect.chunk_seq=$2
                ),
                collapsed AS MATERIALIZED (
                  SELECT row_key,
                         (array_agg(row_value ORDER BY row_ordinal))[1]
                           AS row_value,
                         sum(weight)::bigint AS net_weight,
                         min(prefix)::bigint AS min_prefix
                  FROM incoming
                  GROUP BY row_key
                ),
                desired AS MATERIALIZED (
                  SELECT collapsed.*{key_projection},
                         own.row_id,
                         coalesce(own.multiplicity,0)::bigint AS old_multiplicity,
                         {match_count} AS match_count,
                         {unknown_count} AS unknown_count
                  FROM collapsed
                  CROSS JOIN LATERAL (
                    SELECT collapsed.row_value
                  ) AS {current_alias}
                  {counts_join}
                  LEFT JOIN {state} AS own USING(row_key)
                ),
                valid AS MATERIALIZED (
                  SELECT *,old_multiplicity+net_weight AS new_multiplicity
                  FROM desired
                  WHERE old_multiplicity+min_prefix >= 0
                    AND old_multiplicity+net_weight >= 0
                ),
                removed AS (
                  DELETE FROM {state} AS own
                  USING valid
                  WHERE own.row_id=valid.row_id
                    AND valid.new_multiplicity=0
                  RETURNING own.row_id
                ),
                updated AS (
                  UPDATE {state} AS own
                  SET multiplicity=valid.new_multiplicity,
                      match_count=valid.match_count,
                      unknown_count=valid.unknown_count
                  FROM valid
                  WHERE own.row_id=valid.row_id
                    AND valid.new_multiplicity>0
                  RETURNING own.row_id
                ),
                inserted AS (
                  INSERT INTO {state}({insert_columns})
                  SELECT {insert_values}
                  FROM valid
                  WHERE row_id IS NULL AND new_multiplicity>0
                  ON CONFLICT (row_key) DO NOTHING
                  RETURNING row_id
                )
                SELECT (SELECT count(*)::bigint FROM collapsed),
                       (SELECT count(*)::bigint FROM valid),
                       (SELECT count(*)::bigint FROM removed)
                         +(SELECT count(*)::bigint FROM updated)
                         +(SELECT count(*)::bigint FROM inserted)
                "#;

/// The next input of a stage: the earlier chunk of the two, the left one on a
/// tie.
pub open spec fn earliest(left: Option<ChunkMeta>, right: Option<ChunkMeta>) -> Option<
    (InputSide, ChunkMeta),
> {
    match (left, right) {
        (Some(left), Some(right)) => if left.lsn <= right.lsn {
            Some((InputSide::Left, left))
        } else {
            Some((InputSide::Right, right))
        },
        (Some(left), None) => Some((InputSide::Left, left)),
        (None, Some(right)) => Some((InputSide::Right, right)),
        (None, None) => None,
    }
}

pub fn next_input(left: Option<ChunkMeta>, right: Option<ChunkMeta>) -> (head: Option<
    (InputSide, ChunkMeta),
>)
    ensures
        head == earliest(left, right),
{
    match (left, right) {
        (Some(left), Some(right)) => {
            if left.lsn <= right.lsn {
                Some((InputSide::Left, left))
            } else {
                Some((InputSide::Right, right))
            }
        },
        (Some(left), None) => Some((InputSide::Left, left)),
        (None, Some(right)) => Some((InputSide::Right, right)),
        (None, None) => None,
    }
}

/// The budget of a stage, with the output held to the targets of its stream.
pub open spec fn clamped(budget: WorkBudget, output: OutputState) -> Result<WorkBudget, Seq<char>> {
    text::guarded(
        text::three(
            text::holds(output.target_rows >= 0, "negative Join row target"@),
            text::holds(output.target_bytes >= 0, "negative Join byte target"@),
            text::holds(
                output.target_rows != 0 && output.target_bytes != 0,
                "Join output stream has a zero target"@,
            ),
        ),
        WorkBudget {
            max_input_rows: budget.max_input_rows,
            max_input_bytes: budget.max_input_bytes,
            max_output_rows: if budget.max_output_rows <= output.target_rows {
                budget.max_output_rows
            } else {
                output.target_rows as usize
            },
            max_output_bytes: if budget.max_output_bytes <= output.target_bytes {
                budget.max_output_bytes
            } else {
                output.target_bytes as usize
            },
        },
    )
}

/// Clamps the budget of a stage to the chunk targets of its output stream: a
/// transaction publishes at most one immutable output chunk.
pub fn effective_budget(budget: &WorkBudget, output: &OutputState) -> (outcome: Result<
    WorkBudget,
    String,
>)
    ensures
        text::agrees(outcome, clamped(*budget, *output)),
{
    if output.target_rows < 0 {
        return fail("negative Join row target");
    }
    if output.target_bytes < 0 {
        return fail("negative Join byte target");
    }
    if output.target_rows == 0 || output.target_bytes == 0 {
        return fail("Join output stream has a zero target");
    }
    let max_output_rows: usize = if budget.max_output_rows as u64 <= output.target_rows as u64 {
        budget.max_output_rows
    } else {
        output.target_rows as usize
    };
    let max_output_bytes: usize = if budget.max_output_bytes as u64 <= output.target_bytes as u64 {
        budget.max_output_bytes
    } else {
        output.target_bytes as usize
    };
    Ok(
        WorkBudget::new(
            budget.max_input_rows,
            budget.max_input_bytes,
            max_output_rows,
            max_output_bytes,
        ),
    )
}

/// Whether a whole chunk of an inner Join may be measured as one page.
pub fn page_fits_input(chunk: &ChunkMeta, budget: &WorkBudget) -> (fits: bool)
    ensures
        fits == (chunk.kind is Data && chunk.rows <= budget.max_input_rows && chunk.bytes
            <= budget.max_input_bytes),
{
    chunk.kind == ChunkKind::Data && chunk.rows <= budget.max_input_rows as u64 && chunk.bytes
        <= budget.max_input_bytes as u64
}

/// The holes that the page statements share.
pub open spec fn page_holes(layout: Layout, side: InputSide, include_unknown: bool) -> Seq<
    (Seq<char>, Seq<char>),
> {
    seq![
        ("output_row"@, layout.output_row_of()),
        ("current_payload"@, layout.payload_of(side)),
        ("current_alias"@, layout::alias(side)),
        ("opposite_state"@, layout.state_of(side.other())),
        ("opposite_alias"@, layout::alias(side.other())),
        ("condition"@, layout.condition@),
        (
            "key_join"@,
            layout::key_join(layout, side, layout::alias(side.other()), include_unknown),
        ),
        ("output_payload"@, layout.output_payload@),
        (
            "page_predicate"@,
            layout::alias(side) + ".stream_id=$1 AND "@ + layout::alias(side) + ".chunk_seq=$2"@,
        ),
    ]
}

fn bind_page(layout: &Layout, side: InputSide, include_unknown: bool) -> (holes: Holes)
    ensures
        holes@ == page_holes(*layout, side, include_unknown),
{
    let current = side_alias(side);
    let opposite = side_alias(side.opposite());
    let mut predicate = current.to_owned();
    predicate.append(".stream_id=$1 AND ");
    predicate.append(current);
    predicate.append(".chunk_seq=$2");
    let holes = Holes::new().bind("output_row", layout.output_row().as_str()).bind(
        "current_payload",
        layout.input_payload(side),
    ).bind("current_alias", current).bind("opposite_state", layout.state(side.opposite())).bind(
        "opposite_alias",
        opposite,
    ).bind("condition", layout.condition.as_str()).bind(
        "key_join",
        key_join_sql(layout, side, opposite, include_unknown).as_str(),
    ).bind("output_payload", layout.output_payload.as_str()).bind(
        "page_predicate",
        predicate.as_str(),
    );
    assert(holes@ =~= page_holes(*layout, side, include_unknown));
    holes
}

/// The statement arguments that name one chunk.
pub open spec fn chunk_arguments(chunk: ChunkMeta) -> Seq<SqlModel> {
    seq![SqlModel::BigInt(Some(chunk.stream_id)), SqlModel::BigInt(Some(chunk.sequence))]
}

/// Measures the output of a whole chunk.
pub open spec fn measure_query(
    layout: Layout,
    side: InputSide,
    chunk: ChunkMeta,
) -> StatementModel {
    StatementModel {
        sql: text::rendered(MEASURE_PAGE_SQL@, page_holes(layout, side, false)),
        arguments: chunk_arguments(chunk),
    }
}

/// The query that measures the output of one whole input chunk.
pub fn measure_page_statement(layout: &Layout, side: InputSide, chunk: &ChunkMeta) -> (statement:
    Statement)
    ensures
        statement@ == measure_query(*layout, side, *chunk),
{
    let statement = Statement::new(
        render(MEASURE_PAGE_SQL, bind_page(layout, side, false)),
    ).bigint(chunk.stream_id).bigint(chunk.sequence);
    assert(statement@.arguments =~= chunk_arguments(*chunk));
    statement
}

/// One complete input chunk whose output fits a transaction.
#[derive(Clone, Copy, Debug, PartialEq, Eq, Structural)]
pub struct InnerPage {
    pub side: InputSide,
    pub chunk: ChunkMeta,
    pub output_rows: u64,
    pub output_bytes: u64,
}

/// The page of a measured chunk, or `None` when its fanout exceeds the budget.
pub open spec fn measured_page(
    side: InputSide,
    chunk: ChunkMeta,
    output_rows: Option<i64>,
    output_bytes: Option<i64>,
    budget: WorkBudget,
) -> Result<Option<InnerPage>, Seq<char>> {
    text::guarded(
        text::both(
            text::checked(database::required_natural(output_rows, "Join page output rows"@)),
            text::checked(database::required_natural(output_bytes, "Join page output bytes"@)),
        ),
        if output_rows->0 > budget.max_output_rows || output_bytes->0 > budget.max_output_bytes {
            None
        } else {
            Some(
                InnerPage {
                    side,
                    chunk,
                    output_rows: output_rows->0 as u64,
                    output_bytes: output_bytes->0 as u64,
                },
            )
        },
    )
}

/// The page of a whole chunk, if its output fits the budget.
pub open spec fn page_read(
    rows: int,
    side: InputSide,
    chunk: ChunkMeta,
    output_rows: Option<i64>,
    output_bytes: Option<i64>,
    budget: WorkBudget,
) -> Result<Option<InnerPage>, Seq<char>> {
    if rows != 1 {
        Err("Join page measurement returned no summary"@)
    } else {
        measured_page(side, chunk, output_rows, output_bytes, budget)
    }
}

/// Decodes the measurement of a chunk.
pub fn decode_measured_page(
    rows: usize,
    side: InputSide,
    chunk: &ChunkMeta,
    output_rows: Option<i64>,
    output_bytes: Option<i64>,
    budget: &WorkBudget,
) -> (outcome: Result<Option<InnerPage>, String>)
    ensures
        text::agrees(outcome, page_read(rows as int, side, *chunk, output_rows, output_bytes, *budget)),
{
    require_summary(rows, "Join page measurement returned no summary")?;
    let output_rows: u64 = required_nonnegative(output_rows, "Join page output rows")?;
    let output_bytes: u64 = required_nonnegative(output_bytes, "Join page output bytes")?;
    if output_rows > budget.max_output_rows as u64 || output_bytes
        > budget.max_output_bytes as u64 {
        return Ok(None);
    }
    Ok(Some(InnerPage { side, chunk: *chunk, output_rows, output_bytes }))
}

/// Whether a page has output; one without rows has no bytes.
pub open spec fn appends_output(
    expected_rows: u64,
    expected_bytes: u64,
) -> Result<bool, Seq<char>> {
    text::guarded(
        text::holds(
            expected_rows != 0 || expected_bytes == 0,
            "empty Join page measured nonzero output bytes"@,
        ),
        expected_rows != 0,
    )
}

/// Whether a page has rows to append; an empty one must not have bytes.
pub fn page_appends(expected_rows: u64, expected_bytes: u64) -> (outcome: Result<bool, String>)
    ensures
        text::agrees(outcome, appends_output(expected_rows, expected_bytes)),
{
    if expected_rows == 0 {
        if expected_bytes != 0 {
            return fail("empty Join page measured nonzero output bytes");
        }
        return Ok(false);
    }
    Ok(true)
}

/// The statement that appends the output of one whole chunk.
pub open spec fn append_page_model(
    layout: Layout,
    side: InputSide,
    chunk: ChunkMeta,
    output: OutputState,
    target: OutputAppendTarget,
) -> Result<StatementModel, Seq<char>> {
    text::guarded(
        text::holds(target.offset() <= i64::MAX, "Join resource count exceeds bigint"@),
        StatementModel {
            sql: text::rendered(APPEND_PAGE_SQL@, page_holes(layout, side, false)),
            arguments: seq![
                SqlModel::BigInt(Some(chunk.stream_id)),
                SqlModel::BigInt(Some(chunk.sequence)),
                SqlModel::BigInt(Some(output.stream_id)),
                SqlModel::BigInt(Some(target.chunk())),
                SqlModel::BigInt(Some(target.offset() as i64)),
            ],
        },
    )
}

pub fn append_page_statement(
    layout: &Layout,
    side: InputSide,
    chunk: &ChunkMeta,
    output: &OutputState,
    target: OutputAppendTarget,
) -> (outcome: Result<Statement, String>)
    ensures
        text::agrees_view(outcome, append_page_model(*layout, side, *chunk, *output, target)),
{
    let offset: i64 = to_bigint(target.row_offset(), "Join resource count exceeds bigint")?;
    let statement = Statement::new(
        render(APPEND_PAGE_SQL, bind_page(layout, side, false)),
    ).bigint(chunk.stream_id).bigint(chunk.sequence).bigint(output.stream_id).bigint(
        target.sequence(),
    ).bigint(offset);
    assert(statement@ =~= append_page_model(*layout, side, *chunk, *output, target)->Ok_0);
    Ok(statement)
}

/// The append of a page: exactly the rows and bytes that were measured.
pub open spec fn appended_page(
    page: InnerPage,
    target: OutputAppendTarget,
    rows: Option<i64>,
    bytes: Option<i64>,
) -> Result<OutputAppend, Seq<char>> {
    text::guarded(
        text::both(
            text::checked(database::required_natural(rows, "Join page inserted rows"@)),
            if rows->0 == page.output_rows {
                text::both(
                    text::checked(database::required_natural(bytes, "Join page inserted bytes"@)),
                    text::holds(
                        bytes->0 == page.output_bytes,
                        "Join page append disagrees with its measurement"@,
                    ),
                )
            } else {
                Err("Join page append disagrees with its measurement"@)
            },
        ),
        OutputAppend {
            target,
            rows: page.output_rows,
            bytes: page.output_bytes,
            lsn: page.chunk.lsn,
        },
    )
}

/// The append of a page.
pub open spec fn append_page_read(
    summaries: usize,
    page: InnerPage,
    target: OutputAppendTarget,
    rows: Option<i64>,
    bytes: Option<i64>,
) -> Result<OutputAppend, Seq<char>> {
    if summaries != 1 {
        Err("Join page append returned no summary"@)
    } else {
        appended_page(page, target, rows, bytes)
    }
}

/// Decodes the append of a page.
pub fn decode_appended_page(
    summaries: usize,
    page: &InnerPage,
    target: OutputAppendTarget,
    rows: Option<i64>,
    bytes: Option<i64>,
) -> (outcome: Result<OutputAppend, String>)
    ensures
        text::agrees(outcome, append_page_read(summaries, *page, target, rows, bytes)),
{
    require_summary(summaries, "Join page append returned no summary")?;
    let inserted: u64 = required_nonnegative(rows, "Join page inserted rows")?;
    if inserted != page.output_rows {
        return fail("Join page append disagrees with its measurement");
    }
    let stored: u64 = required_nonnegative(bytes, "Join page inserted bytes")?;
    if stored != page.output_bytes {
        return fail("Join page append disagrees with its measurement");
    }
    Ok(
        OutputAppend {
            target,
            rows: page.output_rows,
            bytes: page.output_bytes,
            lsn: page.chunk.lsn,
        },
    )
}

/// Counts the matches of a page for the candidates of the other side.
pub open spec fn candidates_query(
    layout: Layout,
    side: InputSide,
    chunk: ChunkMeta,
) -> StatementModel {
    StatementModel {
        sql: text::rendered(PAGE_CANDIDATES_SQL@, page_holes(layout, side, true)),
        arguments: chunk_arguments(chunk),
    }
}

/// The statement that counts one whole chunk against its candidates.
pub fn page_candidates_statement(layout: &Layout, side: InputSide, chunk: &ChunkMeta) -> (
    statement: Statement)
    ensures
        statement@ == candidates_query(*layout, side, *chunk),
{
    let statement = Statement::new(
        render(PAGE_CANDIDATES_SQL, bind_page(layout, side, true)),
    ).bigint(chunk.stream_id).bigint(chunk.sequence);
    assert(statement@.arguments =~= chunk_arguments(*chunk));
    statement
}

/// Every candidate of a page changed.
pub open spec fn candidates_sound(
    rows: int,
    expected: Option<i64>,
    actual: Option<i64>,
) -> Result<(), Seq<char>> {
    text::four(
        text::holds(rows == 1, "Join page candidate update returned no summary"@),
        text::checked(database::required_value(expected, "Join page candidate changes"@)),
        text::checked(database::required_value(actual, "Join page changed candidates"@)),
        text::holds(
            expected->0 == actual->0,
            "Join page candidate counts would underflow"@,
        ),
    )
}

/// Every candidate whose counts change must have changed.
pub fn decode_page_candidates(rows: usize, expected: Option<i64>, actual: Option<i64>) -> (outcome:
    Result<(), String>)
    ensures
        text::agrees(outcome, candidates_sound(rows as int, expected, actual)),
{
    require_summary(rows, "Join page candidate update returned no summary")?;
    let expected: i64 = required(expected, "Join page candidate changes")?;
    let actual: i64 = required(actual, "Join page changed candidates")?;
    if expected != actual {
        return fail("Join page candidate counts would underflow");
    }
    Ok(())
}

/// The key expressions of a side under the names of their columns.
pub open spec fn key_projection(keys: Seq<Seq<char>>) -> Seq<char> {
    if keys.len() == 0 {
        ""@
    } else {
        ","@ + text::joined(
            Seq::new(
                keys.len(),
                |ordinal: int| keys[ordinal] + " AS "@ + layout::key_name(ordinal),
            ),
            ","@,
        )
    }
}

fn key_projection_sql(keys: &Vec<String>) -> (sql: String)
    ensures
        sql@ == key_projection(text::texts(keys@)),
{
    if keys.is_empty() {
        return "".to_owned();
    }
    let list = listed(
        keys.len(),
        |ordinal: usize| -> (item: String)
            requires
                ordinal < keys.len(),
            ensures
                item@ == keys@[ordinal as int]@ + " AS "@ + layout::key_name(ordinal as int)
            {
                let mut item = keys[ordinal].clone();
                item.append(" AS ");
                item.append(key_column(ordinal).as_str());
                item
            },
    );
    proof {
        let models = text::texts(keys@);
        assert(text::texts(list@) =~= Seq::new(
            models.len(),
            |ordinal: int| models[ordinal] + " AS "@ + layout::key_name(ordinal),
        ));
    }
    ",".to_owned().concat(join(&list, ",").as_str())
}

/// The values of an arrangement row that an insertion fills.
pub open spec fn insert_value_list(count: nat) -> Seq<char> {
    if count == 0 {
        "row_key,row_value,new_multiplicity,match_count,unknown_count"@
    } else {
        "row_key,row_value,"@ + layout::key_column_list(count)
            + ",new_multiplicity,match_count,unknown_count"@
    }
}

fn insert_values_sql(count: usize) -> (sql: String)
    ensures
        sql@ == insert_value_list(count as nat),
{
    if count == 0 {
        return "row_key,row_value,new_multiplicity,match_count,unknown_count".to_owned();
    }
    let mut sql = "row_key,row_value,".to_owned();
    sql.append(key_columns_sql(count).as_str());
    sql.append(",new_multiplicity,match_count,unknown_count");
    sql
}

/// The holes of the count fragments.
pub open spec fn count_holes(layout: Layout, side: InputSide, include_unknown: bool) -> Seq<
    (Seq<char>, Seq<char>),
> {
    seq![
        ("opposite_alias"@, layout::alias(side.other())),
        ("current_alias"@, layout::alias(side)),
        ("opposite_state"@, layout.state_of(side.other())),
        ("condition"@, layout.condition@),
        (
            "key_join"@,
            layout::key_join(layout, side, layout::alias(side.other()), include_unknown),
        ),
    ]
}

fn bind_counts(layout: &Layout, side: InputSide, include_unknown: bool) -> (holes: Holes)
    ensures
        holes@ == count_holes(*layout, side, include_unknown),
{
    let opposite = side_alias(side.opposite());
    let holes = Holes::new().bind("opposite_alias", opposite).bind(
        "current_alias",
        side_alias(side),
    ).bind("opposite_state", layout.state(side.opposite())).bind(
        "condition",
        layout.condition.as_str(),
    ).bind("key_join", key_join_sql(layout, side, opposite, include_unknown).as_str());
    assert(holes@ =~= count_holes(*layout, side, include_unknown));
    holes
}

/// Without keys, both counts of a row come from one filtered scan of the
/// opposite arrangement.
pub open spec fn counts_join(layout: Layout, side: InputSide) -> Seq<char> {
    if layout.is_keyed() {
        ""@
    } else {
        text::rendered(COUNTS_JOIN_SQL@, count_holes(layout, side, false))
    }
}

/// How many opposite rows match a row.
pub open spec fn match_count(layout: Layout, side: InputSide) -> Seq<char> {
    if layout.is_keyed() {
        text::rendered(MATCH_COUNT_SQL@, count_holes(layout, side, false))
    } else {
        "counts.match_count"@
    }
}

/// How many opposite rows may match a row.
pub open spec fn unknown_count(layout: Layout, side: InputSide) -> Seq<char> {
    if layout.is_keyed() {
        text::rendered(UNKNOWN_COUNT_SQL@, count_holes(layout, side, true))
    } else {
        "counts.unknown_count"@
    }
}

/// The holes of the own-state statement. `row_key` is the canonical key of the
/// row `effect.row_value`.
pub open spec fn own_state_holes(layout: Layout, side: InputSide, row_key: Seq<char>) -> Seq<
    (Seq<char>, Seq<char>),
> {
    seq![
        ("row_key"@, row_key),
        ("current_payload"@, layout.payload_of(side)),
        ("current_alias"@, layout::alias(side)),
        ("match_count"@, match_count(layout, side)),
        ("unknown_count"@, unknown_count(layout, side)),
        ("counts_join"@, counts_join(layout, side)),
        ("key_projection"@, key_projection(layout.keys_of(side))),
        ("insert_columns"@, layout::insert_column_list(layout.keys_of(side).len())),
        ("insert_values"@, insert_value_list(layout.keys_of(side).len())),
        ("state"@, layout.state_of(side)),
    ]
}

/// Applies a page to the arrangement of its own side.
pub open spec fn own_state_query(
    layout: Layout,
    side: InputSide,
    row_key: Seq<char>,
    chunk: ChunkMeta,
) -> StatementModel {
    StatementModel {
        sql: text::rendered(OWN_STATE_SQL@, own_state_holes(layout, side, row_key)),
        arguments: chunk_arguments(chunk),
    }
}

/// The statement that applies one whole chunk to the arrangement of its side.
pub fn own_state_statement(layout: &Layout, side: InputSide, row_key: &str, chunk: &ChunkMeta) -> (
    statement: Statement)
    ensures
        statement@ == own_state_query(*layout, side, row_key@, *chunk),
{
    let keyed = layout.keyed();
    let counts_join = if keyed {
        "".to_owned()
    } else {
        render(COUNTS_JOIN_SQL, bind_counts(layout, side, false))
    };
    let match_count = if keyed {
        render(MATCH_COUNT_SQL, bind_counts(layout, side, false))
    } else {
        "counts.match_count".to_owned()
    };
    let unknown_count = if keyed {
        render(UNKNOWN_COUNT_SQL, bind_counts(layout, side, true))
    } else {
        "counts.unknown_count".to_owned()
    };
    let keys = layout.key_exprs(side);
    assert(text::texts(keys@).len() == keys.len());
    let holes = Holes::new().bind("row_key", row_key).bind(
        "current_payload",
        layout.input_payload(side),
    ).bind("current_alias", side_alias(side)).bind("match_count", match_count.as_str()).bind(
        "unknown_count",
        unknown_count.as_str(),
    ).bind("counts_join", counts_join.as_str()).bind(
        "key_projection",
        key_projection_sql(keys).as_str(),
    ).bind("insert_columns", insert_columns_sql(keys.len()).as_str()).bind(
        "insert_values",
        insert_values_sql(keys.len()).as_str(),
    ).bind("state", layout.state(side));
    assert(holes@ =~= own_state_holes(*layout, side, row_key@));
    let statement = Statement::new(render(OWN_STATE_SQL, holes)).bigint(chunk.stream_id).bigint(
        chunk.sequence,
    );
    assert(statement@.arguments =~= chunk_arguments(*chunk));
    statement
}

/// Every row of a page was valid and applied.
pub open spec fn own_state_sound(
    rows: int,
    collapsed: Option<i64>,
    valid: Option<i64>,
    mutations: Option<i64>,
) -> Result<(), Seq<char>> {
    text::both(
        text::holds(rows == 1, "Join page own-state mutation returned no summary"@),
        text::four(
            text::checked(database::required_value(collapsed, "Join page collapsed rows"@)),
            text::checked(database::required_value(valid, "Join page valid rows"@)),
            text::checked(
                database::required_value(mutations, "Join page state mutations"@),
            ),
            text::holds(
                collapsed->0 == valid->0 && valid->0 == mutations->0,
                "Join page own multiplicity would underflow"@,
            ),
        ),
    )
}

/// Every row of a chunk must be valid and change exactly one state row.
pub fn decode_own_state(
    rows: usize,
    collapsed: Option<i64>,
    valid: Option<i64>,
    mutations: Option<i64>,
) -> (outcome: Result<(), String>)
    ensures
        text::agrees(outcome, own_state_sound(rows as int, collapsed, valid, mutations)),
{
    require_summary(rows, "Join page own-state mutation returned no summary")?;
    let collapsed: i64 = required(collapsed, "Join page collapsed rows")?;
    let valid: i64 = required(valid, "Join page valid rows")?;
    let mutations: i64 = required(mutations, "Join page state mutations")?;
    if collapsed != valid || valid != mutations {
        return fail("Join page own multiplicity would underflow");
    }
    Ok(())
}

/// The move of the consumer past an applied page, and the work of the step.
pub open spec fn page_advanced(page: InnerPage, input: InputState) -> Result<
    (InputAdvance, WorkUsage),
    Seq<char>,
> {
    text::guarded(
        text::holds(input.next_chunk_seq < i64::MAX, "Join page input cursor overflow"@),
        (
            InputAdvance {
                next_chunk_seq: (input.next_chunk_seq + 1) as i64,
                frontier_lsn: input.consumed_frontier_lsn,
                usage: WorkUsage {
                    input_rows: page.chunk.rows,
                    input_bytes: page.chunk.bytes,
                    output_rows: 0,
                    output_bytes: 0,
                },
            },
            WorkUsage {
                input_rows: page.chunk.rows,
                input_bytes: page.chunk.bytes,
                output_rows: page.output_rows,
                output_bytes: page.output_bytes,
            },
        ),
    )
}

/// Closes an applied page.
pub fn finish_inner_page(page: &InnerPage, input: &InputState) -> (outcome: Result<
    (InputAdvance, WorkUsage),
    String,
>)
    ensures
        text::agrees(outcome, page_advanced(*page, *input)),
{
    if input.next_chunk_seq == i64::MAX {
        return fail("Join page input cursor overflow");
    }
    let advance = InputAdvance {
        next_chunk_seq: input.next_chunk_seq + 1,
        frontier_lsn: input.consumed_frontier_lsn,
        usage: WorkUsage {
            input_rows: page.chunk.rows,
            input_bytes: page.chunk.bytes,
            output_rows: 0,
            output_bytes: 0,
        },
    };
    let usage = WorkUsage {
        input_rows: page.chunk.rows,
        input_bytes: page.chunk.bytes,
        output_rows: page.output_rows,
        output_bytes: page.output_bytes,
    };
    Ok((advance, usage))
}

} // verus!
