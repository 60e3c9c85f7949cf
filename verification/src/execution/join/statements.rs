//! The bounded statements of one Join event and the row facts they return.

use vstd::prelude::*;

use crate::database::{
    self, optional_nonnegative, require_summary, required, required_nonnegative, to_bigint,
};
use crate::execution::contract::InputPosition;
use crate::execution::join::layout::{
    self, insert_columns_sql, key_exact_predicate_sql, key_unknown_predicate_sql, side_alias,
    Layout,
};
use crate::execution::join::planner::{
    self, candidate_side_is_output, CandidateExpectation, CandidateProbe, CandidateStateChange,
    InputEventFacts, InputPositions, InputProgress, InputSide, JoinMode, MatchCounts, MatchTruth,
    OutputAction, OutputActionKind, OwnExpectation, OwnStateChange, OwnStateChangeKind,
    ProjectionBytes,
};
use crate::execution::stream::{budget_bigint, OutputAppend, OutputAppendTarget, OutputState};
use crate::planner::WorkBudget;
use crate::predicate::bracketed;
use crate::session::{self, Row};
use crate::sql::{SqlModel, Statement, StatementModel};
use crate::text::{self, fail, join, listed, render, signed_text, unsigned_text, Holes};

verus! {

/// The weight and size of one input row.
pub const EVENT_SQL: &'static str =
    r#"
            SELECT effect.weight,
                   shiba_internal.effect_row_bytes(effect.row_value)
            FROM {payload} AS effect
            WHERE effect.stream_id = $1
              AND effect.chunk_seq = $2
              AND effect.row_ordinal = $3
            "#;

/// Locks the arrangement row of one input row.
pub const OWN_SQL: &'static str =
    r#"
            SELECT own.row_id,own.multiplicity,
                   own.match_count,own.unknown_count
            FROM {state} AS own
            JOIN {payload} AS input_row
              ON own.row_key = {row_key}
            WHERE input_row.stream_id = $1
              AND input_row.chunk_seq = $2
              AND input_row.row_ordinal = $3
            FOR UPDATE OF own
            "#;

/// The size of a true pair.
pub const PAIR_BYTES_SQL: &'static str =
    "CASE WHEN {candidate_alias}.truth = 1 THEN
                   shiba_internal.effect_row_bytes(
                     ROW({outputs})::{output_type}
                   )
                 END";

/// The size of a candidate whose eligibility changes.
pub const CANDIDATE_BYTES_SQL: &'static str =
    "CASE WHEN ({old_eligible}) IS DISTINCT FROM ({new_eligible})
                   THEN (
                     SELECT shiba_internal.effect_row_bytes(
                              ROW({outputs})::{output_type}
                            )
                     FROM (
                       SELECT NULL::{current_type} AS row_value
                     ) AS {current_alias}
                   )
                 END";

/// The equality candidates behind the cursor.
pub const KEYED_SOURCE_SQL: &'static str =
    r#"
                SELECT candidate.row_id,candidate.row_value,
                       candidate.multiplicity,candidate.match_count,
                       candidate.unknown_count,
                       shiba_internal.effect_row_bytes(candidate.row_value)
                         AS row_bytes
                FROM {candidate_state} AS candidate
                CROSS JOIN current_input AS {current_alias}
                WHERE candidate.row_id > $4
                  AND ({exact_key_predicate})
                UNION ALL
                SELECT candidate.row_id,candidate.row_value,
                       candidate.multiplicity,candidate.match_count,
                       candidate.unknown_count,
                       shiba_internal.effect_row_bytes(candidate.row_value)
                         AS row_bytes
                FROM {candidate_state} AS candidate
                CROSS JOIN current_input AS {current_alias}
                WHERE candidate.row_id > $4
                  AND ({unknown_key_predicate})
                ORDER BY row_id
                LIMIT $5
                "#;

/// All candidates behind the cursor.
pub const PLAIN_SOURCE_SQL: &'static str =
    r#"
                SELECT candidate.row_id,candidate.row_value,
                       candidate.multiplicity,candidate.match_count,
                       candidate.unknown_count,
                       shiba_internal.effect_row_bytes(candidate.row_value)
                         AS row_bytes
                FROM {candidate_state} AS candidate
                WHERE candidate.row_id > $4
                ORDER BY candidate.row_id
                LIMIT $5
                "#;

/// Probes one bounded page of candidates against the current row.
pub const PROBE_SQL: &'static str =
    r#"
            WITH current_input AS MATERIALIZED (
              SELECT input_row.row_value
              FROM {current_payload} AS input_row
              WHERE input_row.stream_id = $1
                AND input_row.chunk_seq = $2
                AND input_row.row_ordinal = $3
            ),
            candidate_source AS MATERIALIZED (
              {candidate_source}
            ),
            measured AS MATERIALIZED (
              SELECT candidate_source.*,
                     row_number() OVER (ORDER BY row_id) AS running_rows,
                     sum(row_bytes) OVER (
                       ORDER BY row_id ROWS UNBOUNDED PRECEDING
                     ) AS running_bytes
              FROM candidate_source
            ),
            bounded AS MATERIALIZED (
              SELECT *
              FROM measured
              WHERE running_rows = 1 OR running_bytes <= $6
            ),
            truth_rows AS MATERIALIZED (
              SELECT {candidate_alias}.*,
                     CASE
                       WHEN ({condition}) IS TRUE THEN 1::smallint
                       WHEN ({condition}) IS NULL THEN -1::smallint
                       ELSE 0::smallint
                     END AS truth
              FROM bounded AS {candidate_alias}
              CROSS JOIN current_input AS {current_alias}
            ),
            counted AS MATERIALIZED (
              SELECT truth_rows.*,
                     (
                       truth_rows.match_count::numeric
                       + CASE WHEN truth_rows.truth = 1
                           THEN $7::numeric ELSE 0::numeric END
                     )::bigint AS new_match_count,
                     (
                       truth_rows.unknown_count::numeric
                       + {unknown_delta}
                     )::bigint AS new_unknown_count
              FROM truth_rows
            )
            SELECT {candidate_alias}.row_id,{candidate_alias}.multiplicity,
                   {candidate_alias}.truth,
                   {candidate_alias}.match_count,
                   {candidate_alias}.unknown_count,
                   {candidate_alias}.row_bytes,
                   {pair_bytes} AS pair_bytes,
                   {candidate_bytes} AS candidate_bytes
            FROM counted AS {candidate_alias}
            CROSS JOIN current_input AS {current_alias}
            ORDER BY {candidate_alias}.row_id
            "#;

/// Whether no equality candidate is left behind the cursor.
pub const KEYED_COMPLETION_SQL: &'static str =
    r#"
                WITH current_input AS MATERIALIZED (
                  SELECT input_row.row_value
                  FROM {current_payload} AS input_row
                  WHERE input_row.stream_id = $2
                    AND input_row.chunk_seq = $3
                    AND input_row.row_ordinal = $4
                ), remaining AS (
                  SELECT candidate.row_id
                  FROM {candidate_state} AS candidate
                  CROSS JOIN current_input AS {current_alias}
                  WHERE candidate.row_id > $1
                    AND ({exact_key_predicate})
                  UNION ALL
                  SELECT candidate.row_id
                  FROM {candidate_state} AS candidate
                  CROSS JOIN current_input AS {current_alias}
                  WHERE candidate.row_id > $1
                    AND ({unknown_key_predicate})
                )
                SELECT NOT EXISTS (SELECT 1 FROM remaining)
                "#;

/// The row of a matching pair.
pub const PAIR_ACTION_SQL: &'static str =
    r#"
                    SELECT {ordinal}::bigint AS action_ordinal,
                           {weight}::bigint AS weight,
                           {row} AS row_value
                    FROM {current_payload} AS {current_alias}
                    JOIN {candidate_state} AS {opposite_alias}
                      ON {opposite_alias}.row_id = {candidate_id}
                    WHERE {current_alias}.stream_id = {stream_id}
                      AND {current_alias}.chunk_seq = {chunk_seq}
                      AND {current_alias}.row_ordinal = {row_ordinal}
                    "#;

/// The row of a candidate without a partner.
pub const CANDIDATE_ACTION_SQL: &'static str =
    r#"
                    SELECT {ordinal}::bigint AS action_ordinal,
                           {weight}::bigint AS weight,
                           {row} AS row_value
                    FROM {candidate_state} AS {opposite_alias}
                    CROSS JOIN (
                      SELECT NULL::{current_type} AS row_value
                    ) AS {current_alias}
                    WHERE {opposite_alias}.row_id = {candidate_id}
                    "#;

/// The row of the current input without a partner.
pub const CURRENT_ACTION_SQL: &'static str =
    r#"
                    SELECT {ordinal}::bigint AS action_ordinal,
                           {weight}::bigint AS weight,
                           {row} AS row_value
                    FROM {current_payload} AS {current_alias}
                    CROSS JOIN (
                      SELECT NULL::{opposite_type} AS row_value
                    ) AS {opposite_alias}
                    WHERE {current_alias}.stream_id = {stream_id}
                      AND {current_alias}.chunk_seq = {chunk_seq}
                      AND {current_alias}.row_ordinal = {row_ordinal}
                    "#;

/// Appends exactly the planned action rows.
pub const APPEND_SQL: &'static str =
    r#"
            WITH action_rows AS MATERIALIZED (
              {action_rows}
            ),
            measured AS MATERIALIZED (
              SELECT action_rows.*,
                     shiba_internal.effect_row_bytes(row_value) AS row_bytes
              FROM action_rows
            ),
            stats AS MATERIALIZED (
              SELECT count(*)::bigint AS row_count,
                     coalesce(sum(row_bytes),0)::bigint AS payload_bytes,
                     min(action_ordinal)::bigint AS first_ordinal,
                     max(action_ordinal)::bigint AS last_ordinal
              FROM measured
            ),
            validated AS MATERIALIZED (
              SELECT *
              FROM stats
              WHERE row_count = $3
                AND payload_bytes = $4
                AND first_ordinal = 0
                AND last_ordinal = $3 - 1
            ),
            inserted AS (
              INSERT INTO {output_relation}(
                stream_id,chunk_seq,row_ordinal,weight,row_value
              )
              SELECT $1,$2,$5 + measured.action_ordinal,
                     measured.weight,measured.row_value
              FROM measured
              CROSS JOIN validated
              ORDER BY measured.action_ordinal
              RETURNING shiba_internal.effect_row_bytes(row_value)
                AS stored_bytes
            )
            SELECT stats.row_count,stats.payload_bytes,
                   (SELECT count(*)::bigint FROM inserted),
                   (
                     SELECT coalesce(sum(stored_bytes),0)::bigint
                     FROM inserted
            )
            FROM stats
            "#;

/// Compares and sets the counts of the changed candidates.
pub const CANDIDATE_CHANGES_SQL: &'static str =
    r#"
            WITH expected(
              row_id,multiplicity,old_match,old_unknown,new_match,new_unknown
            ) AS (VALUES {values}),
            updated AS (
              UPDATE {state} AS arrangement
              SET match_count = expected.new_match,
                  unknown_count = expected.new_unknown
              FROM expected
              WHERE arrangement.row_id = expected.row_id
                AND arrangement.multiplicity = expected.multiplicity
                AND arrangement.match_count = expected.old_match
                AND arrangement.unknown_count = expected.old_unknown
              RETURNING arrangement.row_id
            )
            SELECT count(*)::bigint FROM updated
            "#;

/// The size of the current row without a partner.
pub const CURRENT_OUTPUT_SQL: &'static str =
    r#"
            SELECT shiba_internal.effect_row_bytes(
                     ROW({outputs})::{output_type}
                   )
            FROM {payload} AS {current_alias}
            CROSS JOIN (
              SELECT NULL::{opposite_type} AS row_value
            ) AS {opposite_alias}
            WHERE {current_alias}.stream_id = $1
              AND {current_alias}.chunk_seq = $2
              AND {current_alias}.row_ordinal = $3
            "#;

/// Inserts the arrangement row of an event.
pub const OWN_INSERT_SQL: &'static str =
    r#"
                INSERT INTO {state}({insert_columns})
                SELECT {insert_values},{new_multiplicity},{match_count},{unknown_count}
                FROM {payload} AS {current_alias}
                WHERE {current_alias}.stream_id = {stream_id}
                  AND {current_alias}.chunk_seq = {chunk_seq}
                  AND {current_alias}.row_ordinal = {row_ordinal}
                ON CONFLICT (row_key) DO NOTHING
                RETURNING row_id
                "#;

/// Changes the multiplicity of an arrangement row.
pub const OWN_UPDATE_SQL: &'static str =
    r#"
                UPDATE {state} SET multiplicity = {new_multiplicity}
                WHERE row_id = {row_id}
                  AND multiplicity = {old_multiplicity}
                  AND match_count = {match_count}
                  AND unknown_count = {unknown_count}
                RETURNING row_id
                "#;

/// Deletes an arrangement row.
pub const OWN_DELETE_SQL: &'static str =
    r#"
                DELETE FROM {state}
                WHERE row_id = {row_id}
                  AND multiplicity = {old_multiplicity}
                  AND match_count = {match_count}
                  AND unknown_count = {unknown_count}
                RETURNING row_id
                "#;

/// The statement arguments that name one input row.
pub open spec fn position_arguments(position: InputPosition) -> Seq<SqlModel> {
    seq![
        SqlModel::BigInt(Some(position.stream_id)),
        SqlModel::BigInt(Some(position.chunk_seq)),
        SqlModel::BigInt(Some(position.row_ordinal)),
    ]
}

/// Reads one event of an input.
pub open spec fn event_query(
    layout: Layout,
    side: InputSide,
    position: InputPosition,
) -> StatementModel {
    StatementModel {
        sql: text::rendered(EVENT_SQL@, seq![("payload"@, layout.payload_of(side))]),
        arguments: position_arguments(position),
    }
}

/// The query for the weight and size of one input row.
pub fn event_statement(layout: &Layout, side: InputSide, position: InputPosition) -> (statement:
    Statement)
    ensures
        statement@ == event_query(*layout, side, position),
{
    let holes = Holes::new().bind("payload", layout.input_payload(side));
    assert(holes@ =~= seq![("payload"@, layout.payload_of(side))]);
    let statement = Statement::new(render(EVENT_SQL, holes)).bigint(position.stream_id).bigint(
        position.chunk_seq,
    ).bigint(position.row_ordinal);
    assert(statement@.arguments =~= position_arguments(position));
    statement
}

/// The facts of the input row at a position.
pub open spec fn event_read(
    rows: usize,
    weight: Option<i64>,
    row_bytes: Option<i64>,
    positions: InputPositions,
    side: InputSide,
) -> Result<InputEventFacts, Seq<char>> {
    let event = InputEventFacts {
        side,
        positions,
        weight: weight->0,
        row_bytes: row_bytes->0 as u64,
    };
    text::guarded(
        text::four(
            text::holds(rows == 1, "Join input position has no unique typed effect row"@),
            text::checked(database::required_value(weight, "Join input weight"@)),
            text::checked(database::required_natural(row_bytes, "Join input bytes"@)),
            event.sound(),
        ),
        event,
    )
}

/// Decodes the input row at a position.
pub fn decode_event(
    rows: usize,
    weight: Option<i64>,
    row_bytes: Option<i64>,
    positions: InputPositions,
    side: InputSide,
) -> (outcome: Result<InputEventFacts, String>)
    ensures
        text::agrees(outcome, event_read(rows, weight, row_bytes, positions, side)),
{
    if rows != 1 {
        return fail("Join input position has no unique typed effect row");
    }
    let weight: i64 = required(weight, "Join input weight")?;
    let row_bytes: u64 = required_nonnegative(row_bytes, "Join input bytes")?;
    InputEventFacts::new(side, positions, weight, row_bytes)
}

/// Locks the arrangement row of an event.
pub open spec fn own_query(
    layout: Layout,
    event: InputEventFacts,
    row_key: Seq<char>,
) -> StatementModel {
    StatementModel {
        sql: text::rendered(
            OWN_SQL@,
            seq![
                ("state"@, layout.state_of(event.side)),
                ("payload"@, layout.payload_of(event.side)),
                ("row_key"@, row_key),
            ],
        ),
        arguments: position_arguments(event.positions.of(event.side)),
    }
}

/// The query that locks the arrangement row of an event. `row_key` is the
/// canonical key of the row `input_row.row_value`.
pub fn own_statement(layout: &Layout, event: &InputEventFacts, row_key: &str) -> (statement:
    Statement)
    ensures
        statement@ == own_query(*layout, *event, row_key@),
{
    let position = event.positions.get(event.side);
    let holes = Holes::new().bind("state", layout.state(event.side)).bind(
        "payload",
        layout.input_payload(event.side),
    ).bind("row_key", row_key);
    assert(holes@ =~= seq![
        ("state"@, layout.state_of(event.side)),
        ("payload"@, layout.payload_of(event.side)),
        ("row_key"@, row_key@),
    ]);
    let statement = Statement::new(render(OWN_SQL, holes)).bigint(position.stream_id).bigint(
        position.chunk_seq,
    ).bigint(position.row_ordinal);
    assert(statement@.arguments =~= position_arguments(event.positions.of(event.side)));
    statement
}

/// The locked arrangement row of an event as the database returned it.
#[derive(Clone, Copy, Debug, PartialEq, Eq, Structural)]
pub struct OwnRow {
    pub row_id: Option<i64>,
    pub multiplicity: Option<i64>,
    pub match_count: Option<i64>,
    pub unknown_count: Option<i64>,
}

impl OwnRow {
    /// The columns of the first returned row, in order.
    pub open spec fn of(rows: Seq<Row>) -> OwnRow {
        OwnRow {
            row_id: session::bigint(rows, 1),
            multiplicity: session::bigint(rows, 2),
            match_count: session::bigint(rows, 3),
            unknown_count: session::bigint(rows, 4),
        }
    }

    pub fn read(rows: &Vec<Row>) -> (row: OwnRow)
        ensures
            row == OwnRow::of(rows@),
    {
        OwnRow {
            row_id: session::first_bigint(rows, 1),
            multiplicity: session::first_bigint(rows, 2),
            match_count: session::first_bigint(rows, 3),
            unknown_count: session::first_bigint(rows, 4),
        }
    }
}

impl OwnRow {
    /// The arrangement row, if it is sound.
    pub open spec fn expectation(self) -> Result<OwnExpectation, Seq<char>> {
        let own = OwnExpectation {
            row_id: self.row_id,
            multiplicity: self.multiplicity->0 as u64,
            counts: MatchCounts {
                matched: self.match_count->0 as u64,
                unknown: self.unknown_count->0 as u64,
            },
        };
        text::guarded(
            text::three(
                text::four(
                    text::checked(database::required_value(self.row_id, "Join own row ID"@)),
                    text::checked(
                        database::required_natural(self.multiplicity, "Join own multiplicity"@),
                    ),
                    text::checked(
                        database::required_natural(self.match_count, "Join own match count"@),
                    ),
                    text::checked(
                        database::required_natural(self.unknown_count, "Join own unknown count"@),
                    ),
                ),
                own.counts.sound(),
                own.sound(),
            ),
            own,
        )
    }
}

/// The arrangement row of an event: none, or one that can take its weight.
pub open spec fn own_read(rows: usize, row: OwnRow, event: InputEventFacts) -> Result<
    OwnExpectation,
    Seq<char>,
> {
    if rows == 0 {
        text::guarded(
            OwnExpectation::nowhere().takes(event.weight),
            OwnExpectation::nowhere(),
        )
    } else if rows == 1 {
        match row.expectation() {
            Err(message) => Err(message),
            Ok(own) => text::guarded(own.takes(event.weight), own),
        }
    } else {
        Err(
            "Join own typed row has "@ + text::decimal(rows as int) + " arrangement identities"@,
        )
    }
}

/// Decodes the arrangement row of an event.
pub fn decode_own(rows: usize, row: &OwnRow, event: &InputEventFacts) -> (outcome: Result<
    OwnExpectation,
    String,
>)
    ensures
        text::agrees(outcome, own_read(rows, *row, *event)),
{
    let own = if rows == 0 {
        OwnExpectation::absent()
    } else if rows == 1 {
        let row_id: i64 = required(row.row_id, "Join own row ID")?;
        let multiplicity: u64 = required_nonnegative(row.multiplicity, "Join own multiplicity")?;
        let matched: u64 = required_nonnegative(row.match_count, "Join own match count")?;
        let unknown: u64 = required_nonnegative(row.unknown_count, "Join own unknown count")?;
        OwnExpectation::present(row_id, multiplicity, MatchCounts::new(matched, unknown)?)?
    } else {
        let mut message = "Join own typed row has ".to_owned();
        message.append(unsigned_text(rows as u64).as_str());
        message.append(" arrangement identities");
        return Err(message);
    };
    own.validate_event(event.weight)?;
    Ok(own)
}

/// When a row with these counts is part of the output of a mode.
pub open spec fn eligibility(mode: JoinMode, matched: Seq<char>, unknown: Seq<char>) -> Seq<char> {
    match mode {
        JoinMode::Inner => "false"@,
        JoinMode::Semi => matched + " "@ + ">"@ + " "@ + "0"@,
        JoinMode::NullAwareAnti => matched + " "@ + "="@ + " "@ + "0"@ + " AND "@ + (unknown + " "@
            + "="@ + " "@ + "0"@),
        _ => matched + " "@ + "="@ + " "@ + "0"@,
    }
}

fn against_zero(count: &str, operator: &str) -> (sql: String)
    ensures
        sql@ == count@ + " "@ + operator@ + " "@ + "0"@,
{
    let mut sql = count.to_owned();
    sql.append(" ");
    sql.append(operator);
    sql.append(" ");
    sql.append("0");
    sql
}

pub fn eligibility_sql(mode: JoinMode, matched: &str, unknown: &str) -> (sql: String)
    ensures
        sql@ == eligibility(mode, matched@, unknown@),
{
    match mode {
        JoinMode::Inner => "false".to_owned(),
        JoinMode::Semi => against_zero(matched, ">"),
        JoinMode::NullAwareAnti => {
            let mut sql = against_zero(matched, "=");
            sql.append(" AND ");
            sql.append(against_zero(unknown, "=").as_str());
            sql
        },
        _ => against_zero(matched, "="),
    }
}

/// The size of a pair, measured only where the mode emits pairs.
pub open spec fn pair_bytes(layout: Layout, mode: JoinMode, candidate: Seq<char>) -> Seq<char> {
    if planner::emits_pairs(mode) {
        text::rendered(
            PAIR_BYTES_SQL@,
            seq![
                ("candidate_alias"@, candidate),
                ("outputs"@, layout.outputs@),
                ("output_type"@, layout.output_type@),
            ],
        )
    } else {
        "NULL::bigint"@
    }
}

fn pair_bytes_sql(layout: &Layout, mode: JoinMode, candidate: &str) -> (sql: String)
    ensures
        sql@ == pair_bytes(*layout, mode, candidate@),
{
    let enabled = match mode {
        JoinMode::Inner => true,
        JoinMode::Left => true,
        JoinMode::Right => true,
        JoinMode::Full => true,
        _ => false,
    };
    if !enabled {
        return "NULL::bigint".to_owned();
    }
    let holes = Holes::new().bind("candidate_alias", candidate).bind(
        "outputs",
        layout.outputs.as_str(),
    ).bind("output_type", layout.output_type.as_str());
    assert(holes@ =~= seq![
        ("candidate_alias"@, candidate@),
        ("outputs"@, layout.outputs@),
        ("output_type"@, layout.output_type@),
    ]);
    render(PAIR_BYTES_SQL, holes)
}

/// The holes of the size of a candidate's own transition.
pub open spec fn candidate_byte_holes(layout: Layout, mode: JoinMode, side: InputSide) -> Seq<
    (Seq<char>, Seq<char>),
> {
    let candidate = layout::alias(side.other());
    seq![
        (
            "old_eligible"@,
            eligibility(
                mode,
                layout::member(candidate, "match_count"@),
                layout::member(candidate, "unknown_count"@),
            ),
        ),
        (
            "new_eligible"@,
            eligibility(
                mode,
                layout::member(candidate, "new_match_count"@),
                layout::member(candidate, "new_unknown_count"@),
            ),
        ),
        ("outputs"@, layout.outputs@),
        ("output_type"@, layout.output_type@),
        ("current_type"@, layout.type_of(side)),
        ("current_alias"@, layout::alias(side)),
    ]
}

/// The size of a candidate's own transition, measured only where the mode
/// emits candidates of that side.
pub open spec fn candidate_bytes(layout: Layout, mode: JoinMode, side: InputSide) -> Seq<char> {
    if planner::side_is_output(mode, side.other()) {
        text::rendered(CANDIDATE_BYTES_SQL@, candidate_byte_holes(layout, mode, side))
    } else {
        "NULL::bigint"@
    }
}

fn dotted(row: &str, column: &str) -> (sql: String)
    ensures
        sql@ == layout::member(row@, column@),
{
    let mut sql = row.to_owned();
    sql.append(".");
    sql.append(column);
    sql
}

fn candidate_bytes_sql(layout: &Layout, mode: JoinMode, side: InputSide) -> (sql: String)
    ensures
        sql@ == candidate_bytes(*layout, mode, side),
{
    if !candidate_side_is_output(mode, side.opposite()) {
        return "NULL::bigint".to_owned();
    }
    let candidate = side_alias(side.opposite());
    let old_eligible = eligibility_sql(
        mode,
        dotted(candidate, "match_count").as_str(),
        dotted(candidate, "unknown_count").as_str(),
    );
    let new_eligible = eligibility_sql(
        mode,
        dotted(candidate, "new_match_count").as_str(),
        dotted(candidate, "new_unknown_count").as_str(),
    );
    let holes = Holes::new().bind("old_eligible", old_eligible.as_str()).bind(
        "new_eligible",
        new_eligible.as_str(),
    ).bind("outputs", layout.outputs.as_str()).bind("output_type", layout.output_type.as_str()).bind(
        "current_type",
        layout.input_type(side),
    ).bind("current_alias", side_alias(side));
    assert(holes@ =~= candidate_byte_holes(*layout, mode, side));
    render(CANDIDATE_BYTES_SQL, holes)
}

/// The holes of the statements that scan candidates.
pub open spec fn scan_holes(layout: Layout, side: InputSide) -> Seq<(Seq<char>, Seq<char>)> {
    seq![
        ("candidate_state"@, layout.state_of(side.other())),
        ("current_payload"@, layout.payload_of(side)),
        ("current_alias"@, layout::alias(side)),
        (
            "exact_key_predicate"@,
            layout::exact_predicate(layout.keys_of(side), "candidate"@),
        ),
        (
            "unknown_key_predicate"@,
            layout::unknown_predicate(layout.keys_of(side), "candidate"@),
        ),
    ]
}

fn bind_scan(layout: &Layout, side: InputSide) -> (holes: Holes)
    ensures
        holes@ == scan_holes(*layout, side),
{
    let holes = Holes::new().bind("candidate_state", layout.state(side.opposite())).bind(
        "current_payload",
        layout.input_payload(side),
    ).bind("current_alias", side_alias(side)).bind(
        "exact_key_predicate",
        key_exact_predicate_sql(layout, side, "candidate").as_str(),
    ).bind(
        "unknown_key_predicate",
        key_unknown_predicate_sql(layout, side, "candidate").as_str(),
    );
    assert(holes@ =~= scan_holes(*layout, side));
    holes
}

/// The candidates behind the cursor: with keys, the exact and the unknown
/// ones; without, all of them.
pub open spec fn candidate_source(layout: Layout, side: InputSide) -> Seq<char> {
    text::rendered(
        if layout.is_keyed() {
            KEYED_SOURCE_SQL@
        } else {
            PLAIN_SOURCE_SQL@
        },
        scan_holes(layout, side),
    )
}

/// How an unknown match would change the unknown count of a candidate. The
/// count is exact within the probe for every mode; what is stored changes only
/// in the mode that consults it.
pub const UNKNOWN_DELTA: &'static str =
    "CASE WHEN truth_rows.truth = -1 THEN $7::numeric ELSE 0::numeric END";

/// The holes of the probe statement.
pub open spec fn probe_holes(layout: Layout, mode: JoinMode, side: InputSide) -> Seq<
    (Seq<char>, Seq<char>),
> {
    seq![
        ("current_payload"@, layout.payload_of(side)),
        ("current_alias"@, layout::alias(side)),
        ("candidate_alias"@, layout::alias(side.other())),
        ("condition"@, layout.condition@),
        ("candidate_source"@, candidate_source(layout, side)),
        ("unknown_delta"@, UNKNOWN_DELTA@),
        ("pair_bytes"@, pair_bytes(layout, mode, layout::alias(side.other()))),
        ("candidate_bytes"@, candidate_bytes(layout, mode, side)),
    ]
}

/// The last candidate that an event has passed; zero before the first.
pub open spec fn cursor_of(progress: InputProgress) -> i64 {
    match progress.candidate_after {
        Some(row_id) => row_id,
        None => 0,
    }
}

fn scan_cursor(progress: &InputProgress) -> (cursor: i64)
    ensures
        cursor == cursor_of(*progress),
{
    match progress.candidate_after() {
        Some(row_id) => row_id,
        None => 0,
    }
}

/// The statement that probes one bounded page of candidates.
pub open spec fn probe_model(
    layout: Layout,
    mode: JoinMode,
    progress: InputProgress,
    event: InputEventFacts,
    budget: WorkBudget,
) -> Result<StatementModel, Seq<char>> {
    text::guarded(
        text::holds(
            budget.max_input_rows <= i64::MAX && budget.max_input_bytes <= i64::MAX,
            "Join resource budget exceeds bigint"@,
        ),
        StatementModel {
            sql: text::rendered(PROBE_SQL@, probe_holes(layout, mode, event.side)),
            arguments: position_arguments(event.positions.of(event.side)) + seq![
                SqlModel::BigInt(Some(cursor_of(progress))),
                SqlModel::BigInt(Some(budget.max_input_rows as i64)),
                SqlModel::BigInt(Some(budget.max_input_bytes as i64)),
                SqlModel::BigInt(Some(event.weight)),
            ],
        },
    )
}

pub fn probe_statement(
    layout: &Layout,
    mode: JoinMode,
    progress: &InputProgress,
    event: &InputEventFacts,
    budget: &WorkBudget,
) -> (outcome: Result<Statement, String>)
    ensures
        text::agrees_view(outcome, probe_model(*layout, mode, *progress, *event, *budget)),
{
    let side = event.side;
    let source = if layout.keyed() {
        render(KEYED_SOURCE_SQL, bind_scan(layout, side))
    } else {
        render(PLAIN_SOURCE_SQL, bind_scan(layout, side))
    };
    let holes = Holes::new().bind("current_payload", layout.input_payload(side)).bind(
        "current_alias",
        side_alias(side),
    ).bind("candidate_alias", side_alias(side.opposite())).bind(
        "condition",
        layout.condition.as_str(),
    ).bind("candidate_source", source.as_str()).bind("unknown_delta", UNKNOWN_DELTA).bind(
        "pair_bytes",
        pair_bytes_sql(layout, mode, side_alias(side.opposite())).as_str(),
    ).bind("candidate_bytes", candidate_bytes_sql(layout, mode, side).as_str());
    assert(holes@ =~= probe_holes(*layout, mode, side));
    let max_rows: i64 = budget_bigint(
        budget.max_input_rows,
        "Join resource budget exceeds bigint",
    )?;
    let max_bytes: i64 = budget_bigint(
        budget.max_input_bytes,
        "Join resource budget exceeds bigint",
    )?;
    let current = event.positions.get(side);
    let statement = Statement::new(render(PROBE_SQL, holes)).bigint(current.stream_id).bigint(
        current.chunk_seq,
    ).bigint(current.row_ordinal).bigint(scan_cursor(progress)).bigint(max_rows).bigint(
        max_bytes,
    ).bigint(event.weight);
    assert(statement@ =~= probe_model(*layout, mode, *progress, *event, *budget)->Ok_0);
    Ok(statement)
}

/// One probed candidate as the database returned it.
#[derive(Clone, Copy, Debug, PartialEq, Eq, Structural)]
pub struct CandidateRow {
    pub row_id: Option<i64>,
    pub multiplicity: Option<i64>,
    pub truth: Option<i16>,
    pub match_count: Option<i64>,
    pub unknown_count: Option<i64>,
    pub row_bytes: Option<i64>,
    pub pair_bytes: Option<i64>,
    pub candidate_bytes: Option<i64>,
}

/// The size of an optional projection.
pub open spec fn optional_size(value: Option<i64>) -> Option<u64> {
    match value {
        Some(value) => Some(value as u64),
        None => None,
    }
}

impl CandidateRow {
    /// The truth of the match.
    pub open spec fn truth_read(self) -> Result<MatchTruth, Seq<char>> {
        match database::required_value(self.truth, "Join candidate truth"@) {
            Err(message) => Err(message),
            Ok(code) => MatchTruth::decoded(code),
        }
    }

    /// The candidate that the columns stand for.
    pub open spec fn candidate(self) -> CandidateProbe {
        CandidateProbe {
            row_id: self.row_id->0,
            multiplicity: self.multiplicity->0 as u64,
            truth: self.truth_read()->Ok_0,
            old_counts: MatchCounts {
                matched: self.match_count->0 as u64,
                unknown: self.unknown_count->0 as u64,
            },
            row_bytes: self.row_bytes->0 as u64,
            output_bytes: ProjectionBytes {
                pair: optional_size(self.pair_bytes),
                candidate_only: optional_size(self.candidate_bytes),
            },
        }
    }

    /// Whether the row is a sound candidate.
    pub open spec fn check(self) -> Result<(), Seq<char>> {
        let candidate = self.candidate();
        text::four(
            text::three(
                text::checked(database::required_value(self.row_id, "Join candidate row ID"@)),
                text::checked(
                    database::required_natural(self.multiplicity, "Join candidate multiplicity"@),
                ),
                text::checked(self.truth_read()),
            ),
            text::three(
                text::checked(
                    database::required_natural(self.match_count, "Join candidate match count"@),
                ),
                text::checked(
                    database::required_natural(self.unknown_count, "Join candidate unknown count"@),
                ),
                candidate.old_counts.sound(),
            ),
            text::four(
                text::checked(database::required_natural(self.row_bytes, "Join candidate bytes"@)),
                text::checked(database::optional_natural(self.pair_bytes, "Join pair bytes"@)),
                text::checked(
                    database::optional_natural(self.candidate_bytes, "Join transition bytes"@),
                ),
                candidate.output_bytes.sound(),
            ),
            candidate.sound(),
        )
    }
}

fn decode_candidate(row: &CandidateRow) -> (outcome: Result<CandidateProbe, String>)
    ensures
        text::agrees(outcome, text::guarded(row.check(), row.candidate())),
{
    let row_id: i64 = required(row.row_id, "Join candidate row ID")?;
    let multiplicity: u64 = required_nonnegative(row.multiplicity, "Join candidate multiplicity")?;
    let truth = MatchTruth::from_code(required(row.truth, "Join candidate truth")?)?;
    let matched: u64 = required_nonnegative(row.match_count, "Join candidate match count")?;
    let unknown: u64 = required_nonnegative(row.unknown_count, "Join candidate unknown count")?;
    let counts = MatchCounts::new(matched, unknown)?;
    let row_bytes: u64 = required_nonnegative(row.row_bytes, "Join candidate bytes")?;
    let pair = optional_nonnegative(row.pair_bytes, "Join pair bytes")?;
    let candidate_only = optional_nonnegative(row.candidate_bytes, "Join transition bytes")?;
    let projections = ProjectionBytes::new(pair, candidate_only)?;
    CandidateProbe::new(row_id, multiplicity, truth, counts, row_bytes, projections)
}

/// The outcome of each probed row, in order.
pub open spec fn row_checks(rows: Seq<CandidateRow>) -> Seq<Result<(), Seq<char>>> {
    Seq::new(rows.len(), |index: int| rows[index].check())
}

/// The candidates of the probed rows.
pub open spec fn candidates_of(rows: Seq<CandidateRow>) -> Seq<CandidateProbe> {
    Seq::new(rows.len(), |index: int| rows[index].candidate())
}

/// Decodes a page of probed candidates; the first unsound row decides the
/// error.
pub fn decode_candidates(rows: &Vec<CandidateRow>) -> (outcome: Result<
    Vec<CandidateProbe>,
    String,
>)
    ensures
        match (outcome, text::all_hold(row_checks(rows@))) {
            (Ok(candidates), Ok(())) => candidates@ == candidates_of(rows@),
            (Err(error), Err(message)) => error@ == message,
            _ => false,
        },
{
    let ghost checks = row_checks(rows@);
    let mut candidates: Vec<CandidateProbe> = Vec::new();
    let mut index: usize = 0;
    assert(checks.take(0) =~= Seq::empty());
    while index < rows.len()
        invariant
            index <= rows.len(),
            candidates.len() == index,
            checks == row_checks(rows@),
            text::all_hold(checks.take(index as int)) is Ok,
            forall|k: int| 0 <= k < index ==> #[trigger] candidates@[k] == rows@[k].candidate(),
        decreases rows.len() - index,
    {
        proof {
            text::next_check_decides(checks, index as int);
        }
        let candidate = decode_candidate(&rows[index])?;
        candidates.push(candidate);
        index = index + 1;
    }
    proof {
        assert(checks.take(rows.len() as int) =~= checks);
        assert(candidates@ =~= candidates_of(rows@));
    }
    Ok(candidates)
}

/// The cursor behind a page: its last candidate, or where the event stood.
pub open spec fn cursor_behind(candidates: Seq<CandidateProbe>, progress: InputProgress) -> i64 {
    if candidates.len() > 0 {
        candidates.last().row_id
    } else {
        cursor_of(progress)
    }
}

/// The query that asks whether candidates are left behind a page.
pub open spec fn completion_model(layout: Layout, event: InputEventFacts, after: i64) -> StatementModel {
    if layout.is_keyed() {
        StatementModel {
            sql: text::rendered(KEYED_COMPLETION_SQL@, scan_holes(layout, event.side)),
            arguments: seq![SqlModel::BigInt(Some(after))] + position_arguments(
                event.positions.of(event.side),
            ),
        }
    } else {
        StatementModel {
            sql: "SELECT NOT EXISTS (SELECT 1 FROM "@ + layout.state_of(event.side.other())
                + " WHERE row_id > $1)"@,
            arguments: seq![SqlModel::BigInt(Some(after))],
        }
    }
}

pub fn completion_statement(
    layout: &Layout,
    event: &InputEventFacts,
    candidates: &Vec<CandidateProbe>,
    progress: &InputProgress,
) -> (statement: Statement)
    ensures
        statement@ == completion_model(*layout, *event, cursor_behind(candidates@, *progress)),
{
    let after: i64 = if candidates.len() > 0 {
        candidates[candidates.len() - 1].row_id
    } else {
        scan_cursor(progress)
    };
    let statement = if layout.keyed() {
        let current = event.positions.get(event.side);
        Statement::new(render(KEYED_COMPLETION_SQL, bind_scan(layout, event.side))).bigint(
            after,
        ).bigint(current.stream_id).bigint(current.chunk_seq).bigint(current.row_ordinal)
    } else {
        let mut sql = "SELECT NOT EXISTS (SELECT 1 FROM ".to_owned();
        sql.append(layout.state(event.side.opposite()));
        sql.append(" WHERE row_id > $1)");
        Statement::new(sql).bigint(after)
    };
    assert(statement@ =~= completion_model(
        *layout,
        *event,
        cursor_behind(candidates@, *progress),
    ));
    statement
}

/// Whether a candidate scan is complete.
pub open spec fn scan_completed(complete: Option<bool>) -> Result<bool, Seq<char>> {
    match complete {
        Some(complete) => Ok(complete),
        None => Err("Join candidate completion probe returned NULL"@),
    }
}

/// Whether a page was the last one.
pub fn decode_completion(complete: Option<bool>) -> (outcome: Result<bool, String>)
    ensures
        text::agrees(outcome, scan_completed(complete)),
{
    match complete {
        Some(complete) => Ok(complete),
        None => fail("Join candidate completion probe returned NULL"),
    }
}

/// The holes of one output action.
pub open spec fn action_holes(
    layout: Layout,
    event: InputEventFacts,
    action: OutputAction,
    ordinal: int,
) -> Seq<(Seq<char>, Seq<char>)> {
    let position = event.positions.of(event.side);
    seq![
        ("ordinal"@, text::decimal(ordinal)),
        ("weight"@, text::decimal(action.weight as int)),
        ("row"@, layout.output_row_of()),
        ("current_payload"@, layout.payload_of(event.side)),
        ("current_alias"@, layout::alias(event.side)),
        ("current_type"@, layout.type_of(event.side)),
        ("candidate_state"@, layout.state_of(event.side.other())),
        ("opposite_alias"@, layout::alias(event.side.other())),
        ("opposite_type"@, layout.type_of(event.side.other())),
        (
            "candidate_id"@,
            match action.candidate_row_id {
                Some(row_id) => text::decimal(row_id as int),
                None => ""@,
            },
        ),
        ("stream_id"@, text::decimal(position.stream_id as int)),
        ("chunk_seq"@, text::decimal(position.chunk_seq as int)),
        ("row_ordinal"@, text::decimal(position.row_ordinal as int)),
    ]
}

/// The rows of one output action.
pub open spec fn action_select(
    layout: Layout,
    event: InputEventFacts,
    action: OutputAction,
    ordinal: int,
) -> Seq<char> {
    text::rendered(
        match action.kind {
            OutputActionKind::Pair => PAIR_ACTION_SQL@,
            OutputActionKind::CandidateEligibility => CANDIDATE_ACTION_SQL@,
            OutputActionKind::CurrentEligibility => CURRENT_ACTION_SQL@,
        },
        action_holes(layout, event, action, ordinal),
    )
}

/// Whether an action is sound and belongs to the event.
pub open spec fn action_check(action: OutputAction, event: InputEventFacts) -> Result<
    (),
    Seq<char>,
> {
    text::three(
        action.sound(),
        text::holds(
            action.current_side == event.side,
            "Join output action changed its current input side"@,
        ),
        match action.kind {
            OutputActionKind::Pair => text::holds(
                action.candidate_row_id is Some,
                "Join pair action omitted its candidate"@,
            ),
            OutputActionKind::CandidateEligibility => text::holds(
                action.candidate_row_id is Some,
                "Join transition action omitted its candidate"@,
            ),
            OutputActionKind::CurrentEligibility => Ok(()),
        },
    )
}

fn action_sql(layout: &Layout, event: &InputEventFacts, action: &OutputAction, ordinal: usize) -> (
    outcome: Result<String, String>)
    ensures
        text::agrees_view(
            outcome,
            text::guarded(
                action_check(*action, *event),
                action_select(*layout, *event, *action, ordinal as int),
            ),
        ),
{
    action.validate()?;
    if action.current_side != event.side {
        return fail("Join output action changed its current input side");
    }
    let candidate = match action.candidate_row_id {
        Some(row_id) => signed_text(row_id),
        None => {
            match action.kind {
                OutputActionKind::Pair => {
                    return fail("Join pair action omitted its candidate");
                },
                OutputActionKind::CandidateEligibility => {
                    return fail("Join transition action omitted its candidate");
                },
                OutputActionKind::CurrentEligibility => {},
            }
            "".to_owned()
        },
    };
    let position = event.positions.get(event.side);
    let holes = Holes::new().bind("ordinal", unsigned_text(ordinal as u64).as_str()).bind(
        "weight",
        signed_text(action.weight).as_str(),
    ).bind("row", layout.output_row().as_str()).bind(
        "current_payload",
        layout.input_payload(event.side),
    ).bind("current_alias", side_alias(event.side)).bind(
        "current_type",
        layout.input_type(event.side),
    ).bind("candidate_state", layout.state(event.side.opposite())).bind(
        "opposite_alias",
        side_alias(event.side.opposite()),
    ).bind("opposite_type", layout.input_type(event.side.opposite())).bind(
        "candidate_id",
        candidate.as_str(),
    ).bind("stream_id", signed_text(position.stream_id).as_str()).bind(
        "chunk_seq",
        signed_text(position.chunk_seq).as_str(),
    ).bind("row_ordinal", signed_text(position.row_ordinal).as_str());
    assert(holes@ =~= action_holes(*layout, *event, *action, ordinal as int));
    Ok(
        match action.kind {
            OutputActionKind::Pair => render(PAIR_ACTION_SQL, holes),
            OutputActionKind::CandidateEligibility => render(CANDIDATE_ACTION_SQL, holes),
            OutputActionKind::CurrentEligibility => render(CURRENT_ACTION_SQL, holes),
        },
    )
}

/// The outcome of each action, in order.
pub open spec fn action_checks(actions: Seq<OutputAction>, event: InputEventFacts) -> Seq<
    Result<(), Seq<char>>,
> {
    Seq::new(actions.len(), |index: int| action_check(actions[index], event))
}

/// The rows of a list of actions.
pub open spec fn action_rows(layout: Layout, event: InputEventFacts, actions: Seq<OutputAction>) -> Seq<
    char,
> {
    text::joined(
        Seq::new(
            actions.len(),
            |index: int| action_select(layout, event, actions[index], index),
        ),
        " UNION ALL "@,
    )
}

/// The rows and bytes that a list of actions must append.
#[derive(Clone, Copy, Debug, PartialEq, Eq, Structural)]
pub struct ExpectedOutput {
    pub rows: u64,
    pub bytes: u64,
}

/// The rows of the actions, and what they must append.
pub struct ActionRows {
    pub sql: String,
    pub expected: ExpectedOutput,
}

/// Whether a list of actions can be appended.
pub open spec fn actions_append(actions: Seq<OutputAction>, event: InputEventFacts) -> Result<
    (),
    Seq<char>,
> {
    text::both(
        text::all_hold(action_checks(actions, event)),
        text::holds(
            planner::action_bytes(actions) <= u64::MAX,
            "Join output action bytes overflow"@,
        ),
    )
}

proof fn action_bytes_grow(actions: Seq<OutputAction>, length: int)
    requires
        0 <= length <= actions.len(),
    ensures
        planner::action_bytes(actions.take(length)) <= planner::action_bytes(actions),
    decreases actions.len() - length,
{
    if length == actions.len() {
        assert(actions.take(length) =~= actions);
    } else {
        action_bytes_grow(actions, length + 1);
        assert(actions.take(length + 1).drop_last() =~= actions.take(length));
    }
}

fn total_bytes(actions: &[OutputAction]) -> (outcome: Result<u64, String>)
    ensures
        text::agrees(
            outcome,
            text::guarded(
                text::holds(
                    planner::action_bytes(actions@) <= u64::MAX,
                    "Join output action bytes overflow"@,
                ),
                planner::action_bytes(actions@) as u64,
            ),
        ),
{
    let mut sum: u64 = 0;
    let mut index: usize = 0;
    while index < actions.len()
        invariant
            index <= actions.len(),
            sum == planner::action_bytes(actions@.take(index as int)),
        decreases actions.len() - index,
    {
        proof {
            assert(actions@.take(index + 1).drop_last() =~= actions@.take(index as int));
            action_bytes_grow(actions@, index + 1);
        }
        match sum.checked_add(actions[index].row_bytes) {
            None => {
                return fail("Join output action bytes overflow");
            },
            Some(next) => {
                sum = next;
            },
        }
        index = index + 1;
    }
    assert(actions@.take(actions.len() as int) =~= actions@);
    Ok(sum)
}

/// Writes the rows of a list of actions.
pub fn compose_actions(layout: &Layout, event: &InputEventFacts, actions: &[OutputAction]) -> (
    outcome: Result<ActionRows, String>)
    ensures
        match (outcome, actions_append(actions@, *event)) {
            (Ok(rows), Ok(())) => {
                &&& rows.sql@ == action_rows(*layout, *event, actions@)
                &&& rows.expected.rows == actions@.len()
                &&& rows.expected.bytes == planner::action_bytes(actions@)
            },
            (Err(error), Err(message)) => error@ == message,
            _ => false,
        },
{
    let ghost checks = action_checks(actions@, *event);
    let mut selects: Vec<String> = Vec::new();
    let mut index: usize = 0;
    assert(checks.take(0) =~= Seq::empty());
    while index < actions.len()
        invariant
            index <= actions.len(),
            selects.len() == index,
            checks == action_checks(actions@, *event),
            text::all_hold(checks.take(index as int)) is Ok,
            forall|k: int|
                0 <= k < index ==> #[trigger] selects@[k]@ == action_select(
                    *layout,
                    *event,
                    actions@[k],
                    k,
                ),
        decreases actions.len() - index,
    {
        proof {
            text::next_check_decides(checks, index as int);
        }
        let select = action_sql(layout, event, &actions[index], index)?;
        selects.push(select);
        index = index + 1;
    }
    proof {
        assert(checks.take(actions.len() as int) =~= checks);
        assert(text::texts(selects@) =~= Seq::new(
            actions@.len(),
            |index: int| action_select(*layout, *event, actions@[index], index),
        ));
    }
    let bytes: u64 = total_bytes(actions)?;
    Ok(
        ActionRows {
            sql: join(&selects, " UNION ALL "),
            expected: ExpectedOutput { rows: actions.len() as u64, bytes },
        },
    )
}

/// The statement that appends the rows of a list of actions.
pub open spec fn append_model(
    action_rows: Seq<char>,
    expected: ExpectedOutput,
    output_payload: Seq<char>,
    output: OutputState,
    target: OutputAppendTarget,
) -> Result<StatementModel, Seq<char>> {
    text::guarded(
        text::holds(
            expected.rows <= i64::MAX && expected.bytes <= i64::MAX && target.offset() <= i64::MAX,
            "Join resource count exceeds bigint"@,
        ),
        StatementModel {
            sql: text::rendered(
                APPEND_SQL@,
                seq![("action_rows"@, action_rows), ("output_relation"@, output_payload)],
            ),
            arguments: seq![
                SqlModel::BigInt(Some(output.stream_id)),
                SqlModel::BigInt(Some(target.chunk())),
                SqlModel::BigInt(Some(expected.rows as i64)),
                SqlModel::BigInt(Some(expected.bytes as i64)),
                SqlModel::BigInt(Some(target.offset() as i64)),
            ],
        },
    )
}

pub fn append_statement(
    layout: &Layout,
    rows: &ActionRows,
    output: &OutputState,
    target: OutputAppendTarget,
) -> (outcome: Result<Statement, String>)
    ensures
        text::agrees_view(
            outcome,
            append_model(rows.sql@, rows.expected, layout.output_payload@, *output, target),
        ),
{
    let holes = Holes::new().bind("action_rows", rows.sql.as_str()).bind(
        "output_relation",
        layout.output_payload.as_str(),
    );
    assert(holes@ =~= seq![
        ("action_rows"@, rows.sql@),
        ("output_relation"@, layout.output_payload@),
    ]);
    let expected_rows: i64 = to_bigint(rows.expected.rows, "Join resource count exceeds bigint")?;
    let expected_bytes: i64 = to_bigint(rows.expected.bytes, "Join resource count exceeds bigint")?;
    let offset: i64 = to_bigint(target.row_offset(), "Join resource count exceeds bigint")?;
    let statement = Statement::new(render(APPEND_SQL, holes)).bigint(output.stream_id).bigint(
        target.sequence(),
    ).bigint(expected_rows).bigint(expected_bytes).bigint(offset);
    assert(statement@ =~= append_model(
        rows.sql@,
        rows.expected,
        layout.output_payload@,
        *output,
        target,
    )->Ok_0);
    Ok(statement)
}

/// The summary row of an append as the database returned it.
#[derive(Clone, Copy, Debug, PartialEq, Eq, Structural)]
pub struct AppendRow {
    pub rows: Option<i64>,
    pub bytes: Option<i64>,
    pub inserted: Option<i64>,
    pub stored_bytes: Option<i64>,
}

impl AppendRow {
    /// The columns of the first returned row, in order.
    pub open spec fn of(rows: Seq<Row>) -> AppendRow {
        AppendRow {
            rows: session::bigint(rows, 1),
            bytes: session::bigint(rows, 2),
            inserted: session::bigint(rows, 3),
            stored_bytes: session::bigint(rows, 4),
        }
    }

    pub fn read(rows: &Vec<Row>) -> (row: AppendRow)
        ensures
            row == AppendRow::of(rows@),
    {
        AppendRow {
            rows: session::first_bigint(rows, 1),
            bytes: session::first_bigint(rows, 2),
            inserted: session::first_bigint(rows, 3),
            stored_bytes: session::first_bigint(rows, 4),
        }
    }
}

/// The append of a list of actions: exactly the rows and bytes of the plan.
pub open spec fn appended(
    row: AppendRow,
    expected: ExpectedOutput,
    target: OutputAppendTarget,
    lsn: u64,
) -> Result<OutputAppend, Seq<char>> {
    text::guarded(
        text::three(
            text::four(
                text::checked(database::required_natural(row.rows, "Join evaluated output rows"@)),
                text::checked(
                    database::required_natural(row.bytes, "Join evaluated output bytes"@),
                ),
                text::checked(
                    database::required_natural(row.inserted, "Join inserted output rows"@),
                ),
                text::checked(
                    database::required_natural(row.stored_bytes, "Join stored output bytes"@),
                ),
            ),
            text::holds(
                row.rows->0 == expected.rows && row.bytes->0 == expected.bytes,
                "Join output projection changed after its bounded probe"@,
            ),
            text::holds(
                row.inserted->0 == expected.rows && row.stored_bytes->0 == expected.bytes,
                "Join output staging returned inconsistent payload facts"@,
            ),
        ),
        OutputAppend { target, rows: expected.rows, bytes: expected.bytes, lsn },
    )
}

/// The append of output actions.
pub open spec fn append_read(
    rows: int,
    row: AppendRow,
    expected: ExpectedOutput,
    target: OutputAppendTarget,
    lsn: u64,
) -> Result<OutputAppend, Seq<char>> {
    if rows != 1 {
        Err("Join output primitive returned no summary row"@)
    } else {
        appended(row, expected, target, lsn)
    }
}

/// Decodes the append of a list of actions.
pub fn decode_append(
    rows: usize,
    row: &AppendRow,
    expected: &ExpectedOutput,
    target: OutputAppendTarget,
    lsn: u64,
) -> (outcome: Result<OutputAppend, String>)
    ensures
        text::agrees(outcome, append_read(rows as int, *row, *expected, target, lsn)),
{
    require_summary(rows, "Join output primitive returned no summary row")?;
    let evaluated: u64 = required_nonnegative(row.rows, "Join evaluated output rows")?;
    let bytes: u64 = required_nonnegative(row.bytes, "Join evaluated output bytes")?;
    let inserted: u64 = required_nonnegative(row.inserted, "Join inserted output rows")?;
    let stored_bytes: u64 = required_nonnegative(row.stored_bytes, "Join stored output bytes")?;
    if evaluated != expected.rows || bytes != expected.bytes {
        return fail("Join output projection changed after its bounded probe");
    }
    if inserted != expected.rows || stored_bytes != expected.bytes {
        return fail("Join output staging returned inconsistent payload facts");
    }
    Ok(OutputAppend { target, rows: expected.rows, bytes: expected.bytes, lsn })
}

/// The values of one candidate change.
pub open spec fn change_values(expected: CandidateExpectation) -> Seq<char> {
    "("@ + (text::decimal(expected.row_id as int) + ","@ + text::decimal(
        expected.multiplicity as int,
    ) + ","@ + text::decimal(expected.old_counts.matched as int) + ","@ + text::decimal(
        expected.old_counts.unknown as int,
    ) + ","@ + text::decimal(expected.new_counts.matched as int) + ","@ + text::decimal(
        expected.new_counts.unknown as int,
    )) + ")"@
}

fn change_sql(expected: &CandidateExpectation) -> (sql: String)
    ensures
        sql@ == change_values(*expected),
{
    let mut sql = signed_text(expected.row_id);
    sql.append(",");
    sql.append(unsigned_text(expected.multiplicity).as_str());
    sql.append(",");
    sql.append(unsigned_text(expected.old_counts.matched).as_str());
    sql.append(",");
    sql.append(unsigned_text(expected.old_counts.unknown).as_str());
    sql.append(",");
    sql.append(unsigned_text(expected.new_counts.matched).as_str());
    sql.append(",");
    sql.append(unsigned_text(expected.new_counts.unknown).as_str());
    bracketed(sql.as_str())
}

/// The statement that compares and sets the counts of the changed candidates.
pub open spec fn changes_sql(state: Seq<char>, changes: Seq<CandidateStateChange>) -> Seq<char> {
    text::rendered(
        CANDIDATE_CHANGES_SQL@,
        seq![
            (
                "values"@,
                text::joined(
                    Seq::new(
                        changes.len(),
                        |index: int| change_values(changes[index].expected),
                    ),
                    ","@,
                ),
            ),
            ("state"@, state),
        ],
    )
}

pub fn candidate_changes_statement(state: &str, changes: &[CandidateStateChange]) -> (sql: String)
    ensures
        sql@ == changes_sql(state@, changes@),
{
    let list = listed(
        changes.len(),
        |index: usize| -> (item: String)
            requires
                index < changes.len(),
            ensures
                item@ == change_values(changes@[index as int].expected)
            { change_sql(&changes[index].expected) },
    );
    assert(text::texts(list@) =~= Seq::new(
        changes@.len(),
        |index: int| change_values(changes@[index].expected),
    ));
    let holes = Holes::new().bind("values", join(&list, ",").as_str()).bind("state", state);
    assert(holes@ =~= seq![
        (
            "values"@,
            text::joined(
                Seq::new(
                    changes@.len(),
                    |index: int| change_values(changes@[index].expected),
                ),
                ","@,
            ),
        ),
        ("state"@, state@),
    ]);
    render(CANDIDATE_CHANGES_SQL, holes)
}

/// The candidates that changed, which are those that were planned.
pub open spec fn candidates_changed(
    updated: Option<i64>,
    changes: usize,
) -> Result<u64, Seq<char>> {
    match updated {
        None => Err("Join candidate update count returned NULL"@),
        Some(updated) => text::guarded(
            text::both(
                text::holds(updated >= 0, "Join candidate update count is negative"@),
                text::holds(
                    updated == changes,
                    "Join candidate compare-and-set changed an unexpected row count"@,
                ),
            ),
            updated as u64,
        ),
    }
}

/// Every planned candidate change must have found its row as expected.
pub fn decode_candidate_changes(updated: Option<i64>, changes: usize) -> (outcome: Result<
    u64,
    String,
>)
    ensures
        text::agrees(outcome, candidates_changed(updated, changes)),
{
    match updated {
        None => fail("Join candidate update count returned NULL"),
        Some(updated) => {
            if updated < 0 {
                return fail("Join candidate update count is negative");
            }
            if updated as u64 != changes as u64 {
                return fail("Join candidate compare-and-set changed an unexpected row count");
            }
            Ok(updated as u64)
        },
    }
}

/// The holes of the query that measures the current row alone.
pub open spec fn current_output_holes(layout: Layout, side: InputSide) -> Seq<
    (Seq<char>, Seq<char>),
> {
    seq![
        ("outputs"@, layout.outputs@),
        ("output_type"@, layout.output_type@),
        ("payload"@, layout.payload_of(side)),
        ("current_alias"@, layout::alias(side)),
        ("opposite_type"@, layout.type_of(side.other())),
        ("opposite_alias"@, layout::alias(side.other())),
    ]
}

/// Measures the output of an event on its own.
pub open spec fn current_output_query(layout: Layout, event: InputEventFacts) -> StatementModel {
    StatementModel {
        sql: text::rendered(CURRENT_OUTPUT_SQL@, current_output_holes(layout, event.side)),
        arguments: position_arguments(event.positions.of(event.side)),
    }
}

/// The query that measures the output of the current row without a partner.
pub fn current_output_statement(layout: &Layout, event: &InputEventFacts) -> (statement: Statement)
    ensures
        statement@ == current_output_query(*layout, *event),
{
    let side = event.side;
    let current = event.positions.get(side);
    let holes = Holes::new().bind("outputs", layout.outputs.as_str()).bind(
        "output_type",
        layout.output_type.as_str(),
    ).bind("payload", layout.input_payload(side)).bind("current_alias", side_alias(side)).bind(
        "opposite_type",
        layout.input_type(side.opposite()),
    ).bind("opposite_alias", side_alias(side.opposite()));
    assert(holes@ =~= current_output_holes(*layout, side));
    let statement = Statement::new(render(CURRENT_OUTPUT_SQL, holes)).bigint(
        current.stream_id,
    ).bigint(current.chunk_seq).bigint(current.row_ordinal);
    assert(statement@.arguments =~= position_arguments(event.positions.of(event.side)));
    statement
}

/// The output bytes of an event on its own.
pub open spec fn current_output(rows: int, bytes: Option<i64>) -> Result<u64, Seq<char>> {
    if rows != 1 {
        Err("Join current-row projection returned no unique row"@)
    } else {
        database::required_natural(bytes, "Join current output bytes"@)
    }
}

/// Decodes the size of the current row.
pub fn decode_current_output(rows: usize, bytes: Option<i64>) -> (outcome: Result<u64, String>)
    ensures
        text::agrees(outcome, current_output(rows as int, bytes)),
{
    if rows != 1 {
        return fail("Join current-row projection returned no unique row");
    }
    required_nonnegative(bytes, "Join current output bytes")
}

/// The values of a new arrangement row. `row_key` is the canonical key of the
/// current row.
pub open spec fn own_values(layout: Layout, side: InputSide, row_key: Seq<char>) -> Seq<char> {
    let keys = layout.keys_of(side);
    let head = row_key + ","@ + layout::alias(side) + ".row_value"@;
    if keys.len() == 0 {
        head
    } else {
        head + ","@ + text::joined(keys, ","@)
    }
}

/// The holes of the statement that changes the arrangement row of an event.
pub open spec fn own_change_holes(
    layout: Layout,
    event: InputEventFacts,
    change: OwnStateChange,
    row_key: Seq<char>,
) -> Seq<(Seq<char>, Seq<char>)> {
    let side = event.side;
    let current = event.positions.of(side);
    seq![
        ("state"@, layout.state_of(side)),
        ("insert_columns"@, layout::insert_column_list(layout.keys_of(side).len())),
        ("insert_values"@, own_values(layout, side, row_key)),
        ("new_multiplicity"@, text::decimal(change.new_multiplicity as int)),
        ("match_count"@, text::decimal(change.counts.matched as int)),
        ("unknown_count"@, text::decimal(change.counts.unknown as int)),
        ("payload"@, layout.payload_of(side)),
        ("current_alias"@, layout::alias(side)),
        ("stream_id"@, text::decimal(current.stream_id as int)),
        ("chunk_seq"@, text::decimal(current.chunk_seq as int)),
        ("row_ordinal"@, text::decimal(current.row_ordinal as int)),
        (
            "row_id"@,
            match change.expected_row_id {
                Some(row_id) => text::decimal(row_id as int),
                None => ""@,
            },
        ),
        ("old_multiplicity"@, text::decimal(change.expected_multiplicity as int)),
    ]
}

/// The statement that changes the arrangement row of an event.
pub open spec fn own_change_sql(
    layout: Layout,
    event: InputEventFacts,
    change: OwnStateChange,
    row_key: Seq<char>,
) -> Result<Seq<char>, Seq<char>> {
    let holes = own_change_holes(layout, event, change, row_key);
    match change.kind {
        OwnStateChangeKind::Insert => Ok(text::rendered(OWN_INSERT_SQL@, holes)),
        OwnStateChangeKind::Update => text::guarded(
            text::holds(change.expected_row_id is Some, "Join own update omitted its row ID"@),
            text::rendered(OWN_UPDATE_SQL@, holes),
        ),
        OwnStateChangeKind::Delete => text::guarded(
            text::holds(change.expected_row_id is Some, "Join own delete omitted its row ID"@),
            text::rendered(OWN_DELETE_SQL@, holes),
        ),
    }
}

/// Writes the statement that changes the arrangement row of an event: an
/// insertion, or a comparison with what the fanout expected.
pub fn own_change_statement(
    layout: &Layout,
    event: &InputEventFacts,
    change: &OwnStateChange,
    row_key: &str,
) -> (outcome: Result<String, String>)
    ensures
        text::agrees_view(outcome, own_change_sql(*layout, *event, *change, row_key@)),
{
    let side = event.side;
    let current = event.positions.get(side);
    let keys = layout.key_exprs(side);
    assert(text::texts(keys@).len() == keys.len());
    let mut values = row_key.to_owned();
    values.append(",");
    values.append(side_alias(side));
    values.append(".row_value");
    if !keys.is_empty() {
        values.append(",");
        values.append(join(keys, ",").as_str());
    }
    let row_id = match change.expected_row_id {
        Some(row_id) => signed_text(row_id),
        None => "".to_owned(),
    };
    let holes = Holes::new().bind("state", layout.state(side)).bind(
        "insert_columns",
        insert_columns_sql(keys.len()).as_str(),
    ).bind("insert_values", values.as_str()).bind(
        "new_multiplicity",
        unsigned_text(change.new_multiplicity).as_str(),
    ).bind("match_count", unsigned_text(change.counts.matched).as_str()).bind(
        "unknown_count",
        unsigned_text(change.counts.unknown).as_str(),
    ).bind("payload", layout.input_payload(side)).bind("current_alias", side_alias(side)).bind(
        "stream_id",
        signed_text(current.stream_id).as_str(),
    ).bind("chunk_seq", signed_text(current.chunk_seq).as_str()).bind(
        "row_ordinal",
        signed_text(current.row_ordinal).as_str(),
    ).bind("row_id", row_id.as_str()).bind(
        "old_multiplicity",
        unsigned_text(change.expected_multiplicity).as_str(),
    );
    assert(holes@ =~= own_change_holes(*layout, *event, *change, row_key@));
    match change.kind {
        OwnStateChangeKind::Insert => Ok(render(OWN_INSERT_SQL, holes)),
        OwnStateChangeKind::Update => {
            if change.expected_row_id.is_none() {
                return fail("Join own update omitted its row ID");
            }
            Ok(render(OWN_UPDATE_SQL, holes))
        },
        OwnStateChangeKind::Delete => {
            if change.expected_row_id.is_none() {
                return fail("Join own delete omitted its row ID");
            }
            Ok(render(OWN_DELETE_SQL, holes))
        },
    }
}

/// Exactly one arrangement row changed.
pub open spec fn own_changed(rows: int) -> Result<(), Seq<char>> {
    text::holds(
        rows == 1,
        "Join own arrangement compare-and-set did not affect one row"@,
    )
}

/// The change must affect exactly the arrangement row of the event.
pub fn require_own_change(rows: usize) -> (outcome: Result<(), String>)
    ensures
        text::agrees(outcome, own_changed(rows as int)),
{
    if rows != 1 {
        return fail("Join own arrangement compare-and-set did not affect one row");
    }
    Ok(())
}

} // verus!
