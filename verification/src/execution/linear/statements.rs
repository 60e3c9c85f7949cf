//! The bounded statements of a linear stage and the row facts they return.

use vstd::prelude::*;

use crate::database::{self, require_summary, required, required_nonnegative, to_bigint};
use crate::execution::contract::OutputFacts;
use crate::execution::linear::machine::{BootstrapFacts, TransformFacts};
use crate::execution::stream::{
    self, budget_bigint, minimum, ChunkMeta, OutputAppend, OutputAppendTarget, OutputState,
};
use crate::planner::{WorkBudget, WorkUsage};
use crate::postgres::{self, format_lsn};
use crate::session::{self, CellKind, Row};
use crate::sql::{SqlModel, Statement, StatementModel};
use crate::text::{self, fail, render, Holes};

verus! {

/// Scans one bounded input prefix, evaluates it, and writes the typed payload.
pub const TRANSFORM_SQL: &'static str =
    r#"
        WITH input_source AS MATERIALIZED (
          SELECT input_row.row_ordinal,
                 input_row.weight,
                 input_row.row_value,
                 shiba_internal.effect_row_bytes(input_row.row_value)
                   AS input_bytes
          FROM {input_relation} AS input_row
          WHERE input_row.stream_id = $1
            AND input_row.chunk_seq = $2
            AND input_row.row_ordinal >= $3
            AND input_row.row_ordinal < $4
          ORDER BY input_row.row_ordinal
          LIMIT $5
        ),
        input_measured AS MATERIALIZED (
          SELECT input_source.*,
                 row_number() OVER (
                   ORDER BY input_source.row_ordinal
                 ) AS input_count,
                 sum(input_source.input_bytes) OVER (
                   ORDER BY input_source.row_ordinal
                   ROWS UNBOUNDED PRECEDING
                 ) AS running_input_bytes
          FROM input_source
        ),
        input_bounded AS MATERIALIZED (
          SELECT *
          FROM input_measured
          WHERE input_count = 1 OR running_input_bytes <= $6
        ),
        predicated AS MATERIALIZED (
          SELECT input_row.*,
                 ($11::boolean AND (({predicate}) IS TRUE)) AS passes
          FROM input_bounded AS input_row
        ),
        evaluated AS MATERIALIZED (
          SELECT input_row.*,
                 CASE WHEN input_row.passes
                   THEN ROW({expressions})::{output_type}
                   ELSE NULL::{output_type}
                 END AS output_value
          FROM predicated AS input_row
        ),
        output_measured AS MATERIALIZED (
          SELECT evaluated.*,
                 sum(evaluated.passes::integer) OVER (
                   ORDER BY evaluated.row_ordinal
                   ROWS UNBOUNDED PRECEDING
                 ) AS running_output_rows,
                 sum(
                   CASE WHEN evaluated.passes
                     THEN shiba_internal.effect_row_bytes(
                       evaluated.output_value
                     )
                     ELSE 0
                   END
                 ) OVER (
                   ORDER BY evaluated.row_ordinal
                   ROWS UNBOUNDED PRECEDING
                 ) AS running_output_bytes
          FROM evaluated
        ),
        selected AS MATERIALIZED (
          SELECT *
          FROM output_measured
          WHERE running_output_rows = 0
             OR (
               running_output_rows <= $7
               AND running_output_bytes <= $8
             )
             OR (passes AND running_output_rows = 1)
        ),
        stats AS MATERIALIZED (
          SELECT count(*)::bigint AS processed_count,
                 min(row_ordinal)::bigint AS min_ordinal,
                 max(row_ordinal)::bigint AS max_ordinal,
                 coalesce(sum(input_bytes), 0)::bigint AS input_bytes,
                 count(*) FILTER (WHERE passes)::bigint AS output_count,
                 coalesce(
                   sum(shiba_internal.effect_row_bytes(output_value))
                     FILTER (WHERE passes),
                   0
                 )::bigint AS output_bytes
          FROM selected
        ),
        inserted AS (
          INSERT INTO {output_relation}(
            stream_id, chunk_seq, row_ordinal, weight, row_value
          )
          SELECT $9,
                 $10,
                 row_number() OVER (ORDER BY selected.row_ordinal) - 1,
                 selected.weight,
                 selected.output_value
          FROM selected
          WHERE selected.passes
          RETURNING shiba_internal.effect_row_bytes(row_value)
            AS stored_bytes
        )
        SELECT stats.processed_count,
               stats.min_ordinal,
               stats.max_ordinal,
               stats.input_bytes,
               stats.output_count,
               stats.output_bytes,
               (SELECT count(*)::bigint FROM inserted),
               (
                 SELECT coalesce(sum(stored_bytes), 0)::bigint
                 FROM inserted
               )
        FROM stats
        "#;

/// Moves one bounded page of the initial snapshot into the output payload.
pub const BOOTSTRAP_SQL: &'static str =
    r#"
        WITH candidate AS MATERIALIZED (
          SELECT bootstrap.bootstrap_seq,
                 bootstrap.row_value,
                 shiba_internal.effect_row_bytes(bootstrap.row_value)
                   AS row_bytes
          FROM {bootstrap} AS bootstrap
          WHERE bootstrap.bootstrap_seq >= $1
          ORDER BY bootstrap.bootstrap_seq
          LIMIT $2
        ),
        measured AS MATERIALIZED (
          SELECT candidate.*,
                 row_number() OVER (
                   ORDER BY candidate.bootstrap_seq
                 ) AS running_rows,
                 sum(candidate.row_bytes) OVER (
                   ORDER BY candidate.bootstrap_seq
                   ROWS UNBOUNDED PRECEDING
                 ) AS running_bytes
          FROM candidate
        ),
        selected AS MATERIALIZED (
          SELECT *
          FROM measured
          WHERE running_rows = 1 OR running_bytes <= $3
        ),
        stats AS MATERIALIZED (
          SELECT count(*)::bigint AS row_count,
                 min(bootstrap_seq)::bigint AS first_sequence,
                 max(bootstrap_seq)::bigint AS last_sequence,
                 coalesce(sum(row_bytes), 0)::bigint AS payload_bytes
          FROM selected
        ),
        inserted AS (
          INSERT INTO {output_relation}(
            stream_id, chunk_seq, row_ordinal, weight, row_value
          )
          SELECT $4,
                 $5,
                 row_number() OVER (ORDER BY selected.bootstrap_seq) - 1,
                 1,
                 selected.row_value
          FROM selected
          RETURNING shiba_internal.effect_row_bytes(row_value)
            AS stored_bytes
        ),
        deleted AS (
          DELETE FROM {bootstrap} AS bootstrap
          USING selected
          WHERE bootstrap.bootstrap_seq = selected.bootstrap_seq
          RETURNING bootstrap.bootstrap_seq
        )
        SELECT stats.row_count,
               stats.first_sequence,
               stats.last_sequence,
               stats.payload_bytes,
               (SELECT count(*)::bigint FROM inserted),
               (
                 SELECT coalesce(sum(stored_bytes), 0)::bigint
                 FROM inserted
               ),
               (SELECT count(*)::bigint FROM deleted)
        FROM stats
        "#;

/// Whether a published source chunk lies at or before a frontier.
pub const SKIPPED_CHUNK_SQL: &'static str =
    r#"
            SELECT EXISTS (
              SELECT 1
              FROM shiba_internal.effect_stream_chunks AS pending
              WHERE pending.stream_id = $1
                AND pending.chunk_seq >= $2
                AND pending.chunk_lsn <= $3::pg_lsn
            )
            "#;

/// The bounds of one transform, as the statement takes them.
#[derive(Clone, Copy, Debug, PartialEq, Eq, Structural)]
pub struct TransformLimits {
    pub input_rows: i64,
    pub input_bytes: i64,
    pub output_rows: i64,
    pub output_bytes: i64,
}

impl TransformLimits {
    /// The budget, with the output also held to the stream's chunk targets.
    pub open spec fn of(budget: WorkBudget, output: OutputState) -> Result<
        TransformLimits,
        Seq<char>,
    > {
        text::guarded(
            text::holds(
                budget.max_input_rows <= i64::MAX && budget.max_input_bytes <= i64::MAX
                    && budget.max_output_rows <= i64::MAX && budget.max_output_bytes <= i64::MAX,
                "work budget exceeds bigint"@,
            ),
            TransformLimits {
                input_rows: budget.max_input_rows as i64,
                input_bytes: budget.max_input_bytes as i64,
                output_rows: stream::smaller(budget.max_output_rows as i64, output.target_rows),
                output_bytes: stream::smaller(budget.max_output_bytes as i64, output.target_bytes),
            },
        )
    }
}

pub fn transform_limits(budget: &WorkBudget, output: &OutputState) -> (outcome: Result<
    TransformLimits,
    String,
>)
    ensures
        text::agrees(outcome, TransformLimits::of(*budget, *output)),
{
    let input_rows: i64 = budget_bigint(budget.max_input_rows, "work budget exceeds bigint")?;
    let input_bytes: i64 = budget_bigint(budget.max_input_bytes, "work budget exceeds bigint")?;
    let output_rows: i64 = budget_bigint(budget.max_output_rows, "work budget exceeds bigint")?;
    let output_bytes: i64 = budget_bigint(budget.max_output_bytes, "work budget exceeds bigint")?;
    Ok(
        TransformLimits {
            input_rows,
            input_bytes,
            output_rows: minimum(output_rows, output.target_rows),
            output_bytes: minimum(output_bytes, output.target_bytes),
        },
    )
}

/// What one transform reads, evaluates and writes.
pub struct TransformSql<'a> {
    pub input_relation: &'a str,
    pub output_relation: &'a str,
    pub output_type: &'a str,
    pub predicate: &'a str,
    pub expressions: &'a str,
}

impl<'a> TransformSql<'a> {
    /// The holes of the transform statement.
    pub open spec fn holes(self) -> Seq<(Seq<char>, Seq<char>)> {
        seq![
            ("input_relation"@, self.input_relation@),
            ("output_relation"@, self.output_relation@),
            ("output_type"@, self.output_type@),
            ("predicate"@, self.predicate@),
            ("expressions"@, self.expressions@),
        ]
    }
}

/// The statement that transforms a bounded prefix of one chunk.
pub open spec fn transform_model(
    sql: TransformSql,
    limits: TransformLimits,
    output: OutputState,
    chunk: ChunkMeta,
    row_ordinal: i64,
    emit_rows: bool,
) -> StatementModel {
    StatementModel {
        sql: text::rendered(TRANSFORM_SQL@, sql.holes()),
        arguments: seq![
            SqlModel::BigInt(Some(chunk.stream_id)),
            SqlModel::BigInt(Some(chunk.sequence)),
            SqlModel::BigInt(Some(row_ordinal)),
            SqlModel::BigInt(Some(chunk.rows as i64)),
            SqlModel::BigInt(Some(limits.input_rows)),
            SqlModel::BigInt(Some(limits.input_bytes)),
            SqlModel::BigInt(Some(limits.output_rows)),
            SqlModel::BigInt(Some(limits.output_bytes)),
            SqlModel::BigInt(Some(output.stream_id)),
            SqlModel::BigInt(Some(output.next_chunk_seq)),
            SqlModel::Boolean(Some(emit_rows)),
        ],
    }
}

/// Transforms a prefix of a chunk, if the limits fit the wire.
pub open spec fn transform_query(
    sql: TransformSql,
    budget: WorkBudget,
    output: OutputState,
    chunk: ChunkMeta,
    row_ordinal: i64,
    emit_rows: bool,
) -> Result<StatementModel, Seq<char>> {
    match TransformLimits::of(budget, output) {
        Err(message) => Err(message),
        Ok(limits) => text::guarded(
            text::holds(chunk.rows <= i64::MAX, "resource count exceeds bigint"@),
            transform_model(sql, limits, output, chunk, row_ordinal, emit_rows),
        ),
    }
}

pub fn transform_statement(
    sql: &TransformSql,
    budget: &WorkBudget,
    output: &OutputState,
    chunk: &ChunkMeta,
    row_ordinal: i64,
    emit_rows: bool,
) -> (outcome: Result<Statement, String>)
    ensures
        text::agrees_view(outcome, transform_query(*sql, *budget, *output, *chunk, row_ordinal, emit_rows)),
{
    let limits = transform_limits(budget, output)?;
    let chunk_rows: i64 = to_bigint(chunk.rows, "resource count exceeds bigint")?;
    let holes = Holes::new().bind("input_relation", sql.input_relation).bind(
        "output_relation",
        sql.output_relation,
    ).bind("output_type", sql.output_type).bind("predicate", sql.predicate).bind(
        "expressions",
        sql.expressions,
    );
    assert(holes@ =~= sql.holes());
    let statement = Statement::new(render(TRANSFORM_SQL, holes)).bigint(chunk.stream_id).bigint(
        chunk.sequence,
    ).bigint(row_ordinal).bigint(chunk_rows).bigint(limits.input_rows).bigint(
        limits.input_bytes,
    ).bigint(limits.output_rows).bigint(limits.output_bytes).bigint(output.stream_id).bigint(
        output.next_chunk_seq,
    ).boolean(emit_rows);
    assert(statement@ =~= transform_model(*sql, limits, *output, *chunk, row_ordinal, emit_rows));
    Ok(statement)
}

/// The summary row of a transform as the database returned it.
#[derive(Clone, Copy, Debug, PartialEq, Eq, Structural)]
pub struct TransformRow {
    pub processed: Option<i64>,
    pub first: Option<i64>,
    pub last: Option<i64>,
    pub input_bytes: Option<i64>,
    pub emitted: Option<i64>,
    pub output_bytes: Option<i64>,
    pub inserted: Option<i64>,
    pub stored_bytes: Option<i64>,
}

impl TransformRow {
    /// The columns of the first returned row, in order.
    pub open spec fn of(rows: Seq<Row>) -> TransformRow {
        TransformRow {
            processed: session::bigint(rows, 1),
            first: session::bigint(rows, 2),
            last: session::bigint(rows, 3),
            input_bytes: session::bigint(rows, 4),
            emitted: session::bigint(rows, 5),
            output_bytes: session::bigint(rows, 6),
            inserted: session::bigint(rows, 7),
            stored_bytes: session::bigint(rows, 8),
        }
    }

    pub fn read(rows: &Vec<Row>) -> (row: TransformRow)
        ensures
            row == TransformRow::of(rows@),
    {
        TransformRow {
            processed: session::first_bigint(rows, 1),
            first: session::first_bigint(rows, 2),
            last: session::first_bigint(rows, 3),
            input_bytes: session::first_bigint(rows, 4),
            emitted: session::first_bigint(rows, 5),
            output_bytes: session::first_bigint(rows, 6),
            inserted: session::first_bigint(rows, 7),
            stored_bytes: session::first_bigint(rows, 8),
        }
    }
}

impl TransformRow {
    /// Whether every column that must be there is, with no negative count.
    pub open spec fn complete(self) -> Result<(), Seq<char>> {
        text::both(
            text::four(
                text::checked(
                    database::required_natural(self.processed, "processed input rows"@),
                ),
                text::checked(database::required_value(self.first, "first input ordinal"@)),
                text::checked(database::required_value(self.last, "last input ordinal"@)),
                text::checked(
                    database::required_natural(self.input_bytes, "processed input bytes"@),
                ),
            ),
            text::four(
                text::checked(database::required_natural(self.emitted, "emitted rows"@)),
                text::checked(database::required_natural(self.output_bytes, "emitted bytes"@)),
                text::checked(database::required_natural(self.inserted, "inserted output rows"@)),
                text::checked(
                    database::required_natural(self.stored_bytes, "stored output bytes"@),
                ),
            ),
        )
    }

    /// Whether the row covers a gapless prefix from `row_ordinal` on, and
    /// stored exactly the rows and bytes that it emitted.
    pub open spec fn consistent(self, row_ordinal: i64) -> bool {
        self.processed->0 > 0 && self.first->0 == row_ordinal && self.last->0 == row_ordinal
            + self.processed->0 - 1 && self.inserted->0 == self.emitted->0 && self.stored_bytes->0
            == self.output_bytes->0
    }

    pub open spec fn usage(self) -> WorkUsage {
        WorkUsage {
            input_rows: self.processed->0 as u64,
            input_bytes: self.input_bytes->0 as u64,
            output_rows: self.emitted->0 as u64,
            output_bytes: self.output_bytes->0 as u64,
        }
    }

    /// Whether the emitted rows respect the targets of the output stream.
    pub open spec fn within_targets(self, limits: TransformLimits) -> Result<(), Seq<char>> {
        text::three(
            text::holds(limits.output_rows >= 0, "negative output row target"@),
            text::holds(
                !(self.emitted->0 > limits.output_rows),
                "linear primitive exceeded its stream target"@,
            ),
            if self.emitted->0 > 1 {
                text::both(
                    text::holds(limits.output_bytes >= 0, "negative output byte target"@),
                    text::holds(
                        self.output_bytes->0 <= limits.output_bytes,
                        "linear primitive exceeded its stream target"@,
                    ),
                )
            } else {
                Ok(())
            },
        )
    }

    /// The facts of a transform, or why the row cannot be its summary.
    pub open spec fn facts(
        self,
        row_ordinal: i64,
        budget: WorkBudget,
        output: OutputState,
    ) -> Result<TransformFacts, Seq<char>> {
        match TransformLimits::of(budget, output) {
            Err(message) => Err(message),
            Ok(limits) => text::guarded(
                text::four(
                    self.complete(),
                    text::holds(
                        self.consistent(row_ordinal),
                        "linear primitive returned inconsistent row facts"@,
                    ),
                    self.usage().fits(budget),
                    self.within_targets(limits),
                ),
                TransformFacts {
                    usage: self.usage(),
                    first_ordinal: self.first->0,
                    last_ordinal: self.last->0,
                    output: if self.emitted->0 == 0 {
                        OutputFacts::Nothing
                    } else {
                        OutputFacts::Data { chunk_seq: output.next_chunk_seq }
                    },
                },
            ),
        }
    }
}

/// What a transform did.
pub open spec fn transformed(
    rows: int,
    row: TransformRow,
    row_ordinal: i64,
    budget: WorkBudget,
    output: OutputState,
) -> Result<TransformFacts, Seq<char>> {
    if rows != 1 {
        Err("linear primitive returned no summary row"@)
    } else {
        row.facts(row_ordinal, budget, output)
    }
}

/// Decodes the summary of a transform that started at `row_ordinal`.
pub fn decode_transform(
    rows: usize,
    row: &TransformRow,
    row_ordinal: i64,
    budget: &WorkBudget,
    output: &OutputState,
) -> (outcome: Result<TransformFacts, String>)
    ensures
        text::agrees(outcome, transformed(rows as int, *row, row_ordinal, *budget, *output)),
{
    require_summary(rows, "linear primitive returned no summary row")?;
    let limits = transform_limits(budget, output)?;
    let processed: u64 = required_nonnegative(row.processed, "processed input rows")?;
    let first: i64 = required(row.first, "first input ordinal")?;
    let last: i64 = required(row.last, "last input ordinal")?;
    let input_bytes: u64 = required_nonnegative(row.input_bytes, "processed input bytes")?;
    let emitted: u64 = required_nonnegative(row.emitted, "emitted rows")?;
    let output_bytes: u64 = required_nonnegative(row.output_bytes, "emitted bytes")?;
    let inserted: u64 = required_nonnegative(row.inserted, "inserted output rows")?;
    let stored_bytes: u64 = required_nonnegative(row.stored_bytes, "stored output bytes")?;
    if processed == 0 || first != row_ordinal || last as i128 != row_ordinal as i128
        + processed as i128 - 1 || inserted != emitted || stored_bytes != output_bytes {
        return fail("linear primitive returned inconsistent row facts");
    }
    let usage = WorkUsage { input_rows: processed, input_bytes, output_rows: emitted, output_bytes };
    usage.validate(*budget)?;
    if limits.output_rows < 0 {
        return fail("negative output row target");
    }
    if emitted > limits.output_rows as u64 {
        return fail("linear primitive exceeded its stream target");
    }
    if emitted > 1 {
        if limits.output_bytes < 0 {
            return fail("negative output byte target");
        }
        if output_bytes > limits.output_bytes as u64 {
            return fail("linear primitive exceeded its stream target");
        }
    }
    Ok(
        TransformFacts {
            usage,
            first_ordinal: first,
            last_ordinal: last,
            output: if emitted == 0 {
                OutputFacts::Nothing
            } else {
                OutputFacts::Data { chunk_seq: output.next_chunk_seq }
            },
        },
    )
}

/// The rows that a primitive wrote into a new chunk, if it wrote any.
pub open spec fn new_chunk_append(output: OutputFacts, usage: WorkUsage, lsn: u64) -> Option<
    OutputAppend,
> {
    match output {
        OutputFacts::Data { chunk_seq } => Some(
            OutputAppend {
                target: OutputAppendTarget::New { sequence: chunk_seq },
                rows: usage.output_rows,
                bytes: usage.output_bytes,
                lsn,
            },
        ),
        _ => None,
    }
}

/// The append that the commit boundary must publish for a primitive.
pub fn output_append(output: OutputFacts, usage: &WorkUsage, lsn: u64) -> (append: Option<
    OutputAppend,
>)
    ensures
        append == new_chunk_append(output, *usage, lsn),
{
    match output {
        OutputFacts::Data { chunk_seq } => Some(
            OutputAppend {
                target: OutputAppendTarget::New { sequence: chunk_seq },
                rows: usage.output_rows,
                bytes: usage.output_bytes,
                lsn,
            },
        ),
        _ => None,
    }
}

/// The most rows and bytes of one bootstrap page.
#[derive(Clone, Copy, Debug, PartialEq, Eq, Structural)]
pub struct BootstrapLimits {
    pub rows: i64,
    pub bytes: i64,
}

impl BootstrapLimits {
    /// A bootstrap row is input and output at once, so each bound is the
    /// smallest of both budgets and the chunk target.
    pub open spec fn of(budget: WorkBudget, output: OutputState) -> Result<
        BootstrapLimits,
        Seq<char>,
    > {
        text::guarded(
            text::holds(
                budget.max_input_rows <= i64::MAX && budget.max_input_bytes <= i64::MAX
                    && budget.max_output_rows <= i64::MAX && budget.max_output_bytes <= i64::MAX,
                "work budget exceeds bigint"@,
            ),
            BootstrapLimits {
                rows: stream::smaller(
                    stream::smaller(budget.max_input_rows as i64, budget.max_output_rows as i64),
                    output.target_rows,
                ),
                bytes: stream::smaller(
                    stream::smaller(budget.max_input_bytes as i64, budget.max_output_bytes as i64),
                    output.target_bytes,
                ),
            },
        )
    }
}

pub fn bootstrap_limits(budget: &WorkBudget, output: &OutputState) -> (outcome: Result<
    BootstrapLimits,
    String,
>)
    ensures
        text::agrees(outcome, BootstrapLimits::of(*budget, *output)),
{
    let input_rows: i64 = budget_bigint(budget.max_input_rows, "work budget exceeds bigint")?;
    let output_rows: i64 = budget_bigint(budget.max_output_rows, "work budget exceeds bigint")?;
    let input_bytes: i64 = budget_bigint(budget.max_input_bytes, "work budget exceeds bigint")?;
    let output_bytes: i64 = budget_bigint(budget.max_output_bytes, "work budget exceeds bigint")?;
    Ok(
        BootstrapLimits {
            rows: minimum(minimum(input_rows, output_rows), output.target_rows),
            bytes: minimum(minimum(input_bytes, output_bytes), output.target_bytes),
        },
    )
}

/// The statement that moves one bootstrap page into the output payload.
pub open spec fn bootstrap_model(
    bootstrap: Seq<char>,
    output_relation: Seq<char>,
    next_sequence: i64,
    limits: BootstrapLimits,
    output: OutputState,
) -> StatementModel {
    StatementModel {
        sql: text::rendered(
            BOOTSTRAP_SQL@,
            seq![("bootstrap"@, bootstrap), ("output_relation"@, output_relation)],
        ),
        arguments: seq![
            SqlModel::BigInt(Some(next_sequence)),
            SqlModel::BigInt(Some(limits.rows)),
            SqlModel::BigInt(Some(limits.bytes)),
            SqlModel::BigInt(Some(output.stream_id)),
            SqlModel::BigInt(Some(output.next_chunk_seq)),
        ],
    }
}

/// Moves a page of the initial snapshot, if the limits fit the wire.
pub open spec fn bootstrap_query(
    bootstrap: Seq<char>,
    output_relation: Seq<char>,
    next_sequence: i64,
    budget: WorkBudget,
    output: OutputState,
) -> Result<StatementModel, Seq<char>> {
    match BootstrapLimits::of(budget, output) {
        Err(message) => Err(message),
        Ok(limits) => Ok(
            bootstrap_model(
                bootstrap,
                output_relation,
                next_sequence,
                limits,
                output,
            ),
        ),
    }
}

pub fn bootstrap_statement(
    bootstrap: &str,
    output_relation: &str,
    next_sequence: i64,
    budget: &WorkBudget,
    output: &OutputState,
) -> (outcome: Result<Statement, String>)
    ensures
        text::agrees_view(outcome, bootstrap_query(bootstrap@, output_relation@, next_sequence, *budget, *output)),
{
    let limits = bootstrap_limits(budget, output)?;
    let holes = Holes::new().bind("bootstrap", bootstrap).bind("output_relation", output_relation);
    assert(holes@ =~= seq![("bootstrap"@, bootstrap@), ("output_relation"@, output_relation@)]);
    let statement = Statement::new(render(BOOTSTRAP_SQL, holes)).bigint(next_sequence).bigint(
        limits.rows,
    ).bigint(limits.bytes).bigint(output.stream_id).bigint(output.next_chunk_seq);
    assert(statement@ =~= bootstrap_model(
        bootstrap@,
        output_relation@,
        next_sequence,
        limits,
        *output,
    ));
    Ok(statement)
}

/// The summary row of a bootstrap page as the database returned it.
#[derive(Clone, Copy, Debug, PartialEq, Eq, Structural)]
pub struct BootstrapRow {
    pub rows: Option<i64>,
    pub first_sequence: Option<i64>,
    pub last_sequence: Option<i64>,
    pub bytes: Option<i64>,
    pub inserted: Option<i64>,
    pub stored_bytes: Option<i64>,
    pub deleted: Option<i64>,
}

impl BootstrapRow {
    /// The types of the columns, in order.
    pub open spec fn kinds() -> Seq<CellKind> {
        seq![
            CellKind::BigInt,
            CellKind::BigInt,
            CellKind::BigInt,
            CellKind::BigInt,
            CellKind::BigInt,
            CellKind::BigInt,
            CellKind::BigInt,
        ]
    }

    pub fn column_kinds() -> (kinds: Vec<CellKind>)
        ensures
            kinds@ == BootstrapRow::kinds(),
    {
        vec![
            CellKind::BigInt,
            CellKind::BigInt,
            CellKind::BigInt,
            CellKind::BigInt,
            CellKind::BigInt,
            CellKind::BigInt,
            CellKind::BigInt,
        ]
    }

    /// The columns of the first returned row, in order.
    pub open spec fn of(rows: Seq<Row>) -> BootstrapRow {
        BootstrapRow {
            rows: session::bigint(rows, 1),
            first_sequence: session::bigint(rows, 2),
            last_sequence: session::bigint(rows, 3),
            bytes: session::bigint(rows, 4),
            inserted: session::bigint(rows, 5),
            stored_bytes: session::bigint(rows, 6),
            deleted: session::bigint(rows, 7),
        }
    }

    pub fn read(rows: &Vec<Row>) -> (row: BootstrapRow)
        ensures
            row == BootstrapRow::of(rows@),
    {
        BootstrapRow {
            rows: session::first_bigint(rows, 1),
            first_sequence: session::first_bigint(rows, 2),
            last_sequence: session::first_bigint(rows, 3),
            bytes: session::first_bigint(rows, 4),
            inserted: session::first_bigint(rows, 5),
            stored_bytes: session::first_bigint(rows, 6),
            deleted: session::first_bigint(rows, 7),
        }
    }
}

impl BootstrapRow {
    pub open spec fn complete(self) -> Result<(), Seq<char>> {
        text::both(
            text::checked(database::required_natural(self.rows, "bootstrap row count"@)),
            text::four(
                text::checked(database::required_natural(self.bytes, "bootstrap bytes"@)),
                text::checked(
                    database::required_natural(self.inserted, "bootstrap inserted rows"@),
                ),
                text::checked(
                    database::required_natural(self.stored_bytes, "bootstrap stored bytes"@),
                ),
                text::checked(database::required_natural(self.deleted, "bootstrap deleted rows"@)),
            ),
        )
    }

    pub open spec fn usage(self) -> WorkUsage {
        WorkUsage {
            input_rows: self.rows->0 as u64,
            input_bytes: self.bytes->0 as u64,
            output_rows: self.rows->0 as u64,
            output_bytes: self.bytes->0 as u64,
        }
    }

    /// The facts of a bootstrap page: every row that left the snapshot was
    /// stored in the payload.
    pub open spec fn facts(self, budget: WorkBudget, output: OutputState) -> Result<
        BootstrapFacts,
        Seq<char>,
    > {
        text::guarded(
            text::three(
                self.complete(),
                text::holds(
                    self.inserted->0 == self.rows->0 && self.deleted->0 == self.rows->0
                        && self.stored_bytes->0 == self.bytes->0,
                    "Scan bootstrap primitive returned inconsistent row facts"@,
                ),
                self.usage().fits(budget),
            ),
            BootstrapFacts {
                usage: self.usage(),
                first_sequence: self.first_sequence,
                last_sequence: self.last_sequence,
                output: if self.rows->0 == 0 {
                    OutputFacts::Nothing
                } else {
                    OutputFacts::Data { chunk_seq: output.next_chunk_seq }
                },
            },
        )
    }
}

/// What a page of the initial snapshot did.
pub open spec fn bootstrapped(
    rows: int,
    row: BootstrapRow,
    budget: WorkBudget,
    output: OutputState,
) -> Result<BootstrapFacts, Seq<char>> {
    if rows != 1 {
        Err("Scan bootstrap primitive returned no summary row"@)
    } else {
        row.facts(budget, output)
    }
}

/// Decodes the summary of a bootstrap page.
pub fn decode_bootstrap(
    rows: usize,
    row: &BootstrapRow,
    budget: &WorkBudget,
    output: &OutputState,
) -> (outcome: Result<BootstrapFacts, String>)
    ensures
        text::agrees(outcome, bootstrapped(rows as int, *row, *budget, *output)),
{
    require_summary(rows, "Scan bootstrap primitive returned no summary row")?;
    let moved: u64 = required_nonnegative(row.rows, "bootstrap row count")?;
    let bytes: u64 = required_nonnegative(row.bytes, "bootstrap bytes")?;
    let inserted: u64 = required_nonnegative(row.inserted, "bootstrap inserted rows")?;
    let stored_bytes: u64 = required_nonnegative(row.stored_bytes, "bootstrap stored bytes")?;
    let deleted: u64 = required_nonnegative(row.deleted, "bootstrap deleted rows")?;
    if inserted != moved || deleted != moved || stored_bytes != bytes {
        return fail("Scan bootstrap primitive returned inconsistent row facts");
    }
    let usage = WorkUsage {
        input_rows: moved,
        input_bytes: bytes,
        output_rows: moved,
        output_bytes: bytes,
    };
    usage.validate(*budget)?;
    Ok(
        BootstrapFacts {
            usage,
            first_sequence: row.first_sequence,
            last_sequence: row.last_sequence,
            output: if moved == 0 {
                OutputFacts::Nothing
            } else {
                OutputFacts::Data { chunk_seq: output.next_chunk_seq }
            },
        },
    )
}

/// Finds the first row that is left of the initial snapshot.
pub open spec fn first_bootstrap_query(bootstrap: Seq<char>, at_or_after: i64) -> StatementModel {
    StatementModel {
        sql: "SELECT min(bootstrap_seq)::bigint FROM "@ + bootstrap
            + " WHERE bootstrap_seq >= $1"@,
        arguments: seq![SqlModel::BigInt(Some(at_or_after))],
    }
}

/// The query for the first bootstrap row at or behind a position.
pub fn first_bootstrap_statement(bootstrap: &str, at_or_after: i64) -> (statement: Statement)
    ensures
        statement@ == first_bootstrap_query(bootstrap@, at_or_after),
{
    let mut query = "SELECT min(bootstrap_seq)::bigint FROM ".to_owned();
    query.append(bootstrap);
    query.append(" WHERE bootstrap_seq >= $1");
    Statement::new(query).bigint(at_or_after)
}

/// Asks whether a frontier would pass a chunk of the source.
pub open spec fn skipped_chunk_query(
    stream_id: i64,
    next_chunk_seq: i64,
    frontier: u64,
) -> StatementModel {
    StatementModel {
        sql: SKIPPED_CHUNK_SQL@,
        arguments: seq![
            SqlModel::BigInt(Some(stream_id)),
            SqlModel::BigInt(Some(next_chunk_seq)),
            SqlModel::Text(Some(postgres::lsn_text(frontier))),
        ],
    }
}

/// The query for a source chunk that a frontier would skip.
pub fn skipped_chunk_statement(stream_id: i64, next_chunk_seq: i64, frontier: u64) -> (statement:
    Statement)
    ensures
        statement@ == skipped_chunk_query(stream_id, next_chunk_seq, frontier),
{
    Statement::new(SKIPPED_CHUNK_SQL.to_owned()).bigint(stream_id).bigint(next_chunk_seq).text(
        format_lsn(frontier).as_str(),
    )
}

/// A frontier passes no chunk of the source.
pub open spec fn skips_nothing(skipped: Option<bool>) -> Result<(), Seq<char>> {
    match skipped {
        None => Err("source frontier check returned NULL"@),
        Some(skipped) => text::holds(
            !skipped,
            "Scan frontier would skip a published source chunk"@,
        ),
    }
}

/// Refuses a frontier that would skip a published source chunk.
pub fn assert_frontier_skips_no_source_chunk(skipped: Option<bool>) -> (outcome: Result<(), String>)
    ensures
        text::agrees(outcome, skips_nothing(skipped)),
{
    match skipped {
        None => fail("source frontier check returned NULL"),
        Some(true) => fail("Scan frontier would skip a published source chunk"),
        Some(false) => Ok(()),
    }
}

} // verus!
