//! The output of a rebuilt group: the decision against what is published, the
//! one row that an emission appends, and the end of the group.

use vstd::prelude::*;

use crate::database::{self, require_summary, required};
use crate::execution::aggregate::apply::{self, required_count};
use crate::execution::aggregate::machine::{AggregateContinuation, AggregatePhase, EmitLeg};
use crate::execution::stream::{OutputAppend, OutputAppendTarget, OutputState};
use crate::postgres::{self, parse_lsn};
use crate::session::{self, Row};
use crate::sql::{self, SqlModel, Statement, StatementModel};
use crate::text::{
    self, debug_text, fail, join, listed, render, same_text, unsigned_text, Holes,
};

verus! {

/// Compares the desired output of a group with the published one.
pub const DECISION_SQL: &'static str =
    "SELECT CASE
                       WHEN groups.published_present=desired.present
                        AND (
                          NOT desired.present
                          OR groups.published_key=keyed.output_key
                        ) THEN 'unchanged'
                       WHEN NOT groups.published_present AND desired.present THEN 'insert'
                       WHEN groups.published_present AND NOT desired.present THEN 'delete'
                       ELSE 'replace'
                     END
                     FROM {groups} AS groups
                     JOIN {dirty} AS dirty ON {predicate}
                     CROSS JOIN LATERAL (
                       SELECT {present} AS present,
                              {row} AS output_row
                     ) AS desired
                     CROSS JOIN LATERAL (
                       SELECT CASE WHEN desired.present
                                   THEN {key} ELSE NULL::bytea END AS output_key
                     ) AS keyed
                     WHERE dirty.queue_id=$1
                     FOR UPDATE OF groups";

/// Clears what was pending for an unchanged group.
pub const UNCHANGED_SQL: &'static str =
    "UPDATE {groups} AS groups
                             SET pending_present=false,pending_key=NULL,pending_output=NULL
                             FROM {dirty} AS dirty
                             WHERE dirty.queue_id=$1 AND {predicate}
                             RETURNING 1";

/// One row of the group, which holds its group keys.
pub const REPRESENTATIVE_SQL: &'static str =
    " JOIN LATERAL (
                SELECT bag.row_value
                FROM {bag} AS bag
                WHERE bag.group_state_id=dirty.group_state_id
                ORDER BY bag.row_id
                LIMIT 1
              ) AS representative ON true";

/// The folded state of one aggregate.
pub const WORK_JOIN_SQL: &'static str =
    " JOIN {work} AS {alias}
                ON {alias}.group_state_id=dirty.group_state_id";

/// The output row of a group.
pub const OUTPUT_ROW_SQL: &'static str =
    "(SELECT ROW({values})::{output_type} FROM {from}
          WHERE dirty.queue_id=$1)";

/// Whether a group still has rows.
pub const PRESENT_SQL: &'static str =
    "EXISTS(
               SELECT 1 FROM {bag} AS bag
               JOIN {dirty} AS dirty
                 ON bag.group_state_id=dirty.group_state_id
               WHERE dirty.queue_id=$1
             )";

/// The desired row becomes the published one.
pub const PUBLISH_DESIRED_SQL: &'static str =
    "published_present=true,published_key=desired.row_key,
             published_output=emitted.row_value,
             pending_present=false,pending_key=NULL,pending_output=NULL";

/// Nothing is published any more.
pub const RETRACT_PUBLISHED_SQL: &'static str =
    "published_present=false,published_key=NULL,published_output=NULL,
             pending_present=false,pending_key=NULL,pending_output=NULL";

/// Nothing is published any more; the desired row is pending.
pub const RETRACT_AND_KEEP_SQL: &'static str =
    "published_present=false,published_key=NULL,published_output=NULL,
             pending_present=true,pending_key=desired.row_key,
             pending_output=desired.row_value";

/// The pending row becomes the published one.
pub const PUBLISH_PENDING_SQL: &'static str =
    "published_present=true,published_key=groups.pending_key,
         published_output=emitted.row_value,
         pending_present=false,pending_key=NULL,pending_output=NULL";

/// The desired row and its key.
pub const DESIRED_ROW_SQL: &'static str =
    "desired AS MATERIALIZED (
                   SELECT desired.output_row AS row_value,{key} AS row_key
                   FROM (SELECT {row} AS output_row) AS desired
                 ),";

/// Appends one row to the output payload and updates its group.
pub const EMISSION_SQL: &'static str =
    "WITH {desired}
             emitted AS MATERIALIZED (
               SELECT {row} AS row_value,dirty.causal_lsn
               FROM {groups} AS groups
               JOIN {dirty} AS dirty
                 ON groups.group_state_id=dirty.group_state_id
               {desired_from}
               WHERE dirty.queue_id=$1 AND {guard}
             ),
             summary AS MATERIALIZED (
               SELECT shiba_internal.effect_row_bytes(row_value)::bigint AS bytes,
                      causal_lsn
               FROM emitted
             ),
             payload_insert AS (
               INSERT INTO {payload}(
                 stream_id,chunk_seq,row_ordinal,weight,row_value
               )
               SELECT $2,$3,0,$4,emitted.row_value
               FROM emitted
               RETURNING 1
             ),
             state_update AS (
               UPDATE {groups} AS groups SET {assignment}
               FROM emitted{desired_from},{dirty} AS dirty
               WHERE dirty.queue_id=$1
                 AND groups.group_state_id=dirty.group_state_id
               RETURNING 1
             )
             SELECT summary.bytes,summary.causal_lsn::text,
                    (SELECT count(*)::bigint FROM payload_insert),
                    (SELECT count(*)::bigint FROM state_update)
             FROM summary";

/// Discards the finished fold of one aggregate.
pub const DISCARD_SQL: &'static str =
    "DELETE FROM {work} AS work USING {dirty} AS dirty
                 WHERE dirty.queue_id=$1
                   AND work.group_state_id=dirty.group_state_id
                 RETURNING 1";

/// Takes a finished group off the queue.
pub const FINISH_SQL: &'static str =
    "DELETE FROM {dirty} WHERE queue_id=$1
             RETURNING queue_id,group_state_id";

/// Removes a group that holds nothing any more.
pub const TOMBSTONE_SQL: &'static str =
    "DELETE FROM {groups} AS groups
                 WHERE groups.group_state_id=$1
                   AND NOT groups.published_present
                   AND NOT groups.pending_present
                   AND NOT EXISTS (
                     SELECT 1 FROM {bag} AS bag
                     WHERE bag.group_state_id=groups.group_state_id
                   )
                 RETURNING 1";

/// What an emission leg works on: the group and the leg.
#[derive(Clone, Copy, Debug, PartialEq, Eq, Structural)]
pub struct EmitTarget {
    pub group_queue_id: i64,
    pub leg: EmitLeg,
}

/// The leg that a continuation stands at. The output row has one attribute
/// per group key and aggregate.
pub fn locate_emission(
    value: AggregateContinuation,
    attributes: usize,
    groups: usize,
    aggregates: usize,
) -> (outcome: Result<EmitTarget, String>)
    ensures
        text::agrees(
            outcome,
            match value.phase {
                AggregatePhase::DrainEmit { group_queue_id, leg, after } => text::guarded(
                    text::holds(
                        attributes == groups + aggregates,
                        "Aggregate output payload changed ABI"@,
                    ),
                    EmitTarget { group_queue_id, leg },
                ),
                _ => Err("Aggregate emission received another phase"@),
            },
        ),
{
    match value.phase {
        AggregatePhase::DrainEmit { group_queue_id, leg, .. } => {
            if attributes < groups || attributes - groups != aggregates {
                return fail("Aggregate output payload changed ABI");
            }
            Ok(EmitTarget { group_queue_id, leg })
        },
        _ => fail("Aggregate emission received another phase"),
    }
}

/// What the output of a group is computed from.
pub struct OutputSql<'a> {
    pub dirty: &'a str,
    pub bag: &'a str,
    pub output_type: &'a str,
    /// The canonical key of the row `desired.output_row`.
    pub output_key: &'a str,
    /// The group keys of a row `representative`; none for a global group.
    pub group_values: &'a Vec<String>,
    /// The work relation of each aggregate.
    pub works: &'a Vec<String>,
    /// The final function of each aggregate, where it has one.
    pub finals: &'a Vec<Option<String>>,
}

/// The alias of the work relation of one aggregate.
pub open spec fn work_alias(index: int) -> Seq<char> {
    "work_"@ + text::decimal(index + 1)
}

fn alias_of(index: usize) -> (alias: String)
    requires
        index < usize::MAX,
    ensures
        alias@ == work_alias(index as int),
{
    "work_".to_owned().concat(unsigned_text((index + 1) as u64).as_str())
}

/// The value of one aggregate from its transition state.
pub open spec fn final_value(function: Option<Seq<char>>, index: int) -> Seq<char> {
    match function {
        None => work_alias(index) + ".transition_state"@,
        Some(function) => function + "("@ + work_alias(index) + ".transition_state)"@,
    }
}

fn final_sql(function: &Option<String>, index: usize) -> (sql: String)
    requires
        index < usize::MAX,
    ensures
        sql@ == final_value(sql::text_model(*function), index as int),
{
    match function {
        None => alias_of(index).concat(".transition_state"),
        Some(function) => {
            let mut sql = function.clone();
            sql.append("(");
            sql.append(alias_of(index).as_str());
            sql.append(".transition_state)");
            sql
        },
    }
}

/// The join of the work relation of one aggregate.
pub open spec fn work_join(work: Seq<char>, index: int) -> Seq<char> {
    text::rendered(WORK_JOIN_SQL@, seq![("work"@, work), ("alias"@, work_alias(index))])
}

fn work_join_sql(work: &str, index: usize) -> (sql: String)
    requires
        index < usize::MAX,
    ensures
        sql@ == work_join(work@, index as int),
{
    let holes = Holes::new().bind("work", work).bind("alias", alias_of(index).as_str());
    assert(holes@ =~= seq![("work"@, work@), ("alias"@, work_alias(index as int))]);
    render(WORK_JOIN_SQL, holes)
}

impl<'a> OutputSql<'a> {
    pub open spec fn wf(self) -> bool {
        self.works@.len() == self.finals@.len()
    }

    /// The values of the output row: the group keys, then the aggregates.
    pub open spec fn values(self) -> Seq<Seq<char>> {
        text::texts(self.group_values@) + Seq::new(
            self.finals@.len(),
            |index: int| final_value(sql::text_model(self.finals@[index]), index),
        )
    }

    /// The relations that the output row is computed from.
    pub open spec fn from(self) -> Seq<char> {
        self.dirty@ + " AS dirty"@ + (if self.group_values@.len() == 0 {
            ""@
        } else {
            text::rendered(REPRESENTATIVE_SQL@, seq![("bag"@, self.bag@)])
        }) + text::joined(
            Seq::new(self.works@.len(), |index: int| work_join(self.works@[index]@, index)),
            ""@,
        )
    }

    /// The output row of a group.
    pub open spec fn row(self) -> Seq<char> {
        text::rendered(
            OUTPUT_ROW_SQL@,
            seq![
                ("values"@, text::joined(self.values(), ","@)),
                ("output_type"@, self.output_type@),
                ("from"@, self.from()),
            ],
        )
    }

    /// Whether a group has an output row: a global group always does.
    pub open spec fn present(self) -> Seq<char> {
        if self.group_values@.len() == 0 {
            "true"@
        } else {
            text::rendered(PRESENT_SQL@, seq![("bag"@, self.bag@), ("dirty"@, self.dirty@)])
        }
    }

    /// The desired output of a group.
    pub open spec fn expression(self) -> ExpressionModel {
        ExpressionModel { present: self.present(), row: self.row(), key: self.output_key@ }
    }
}

/// The desired output of a group in SQL: whether it exists, its row and key.
#[derive(Clone, Debug, PartialEq, Eq)]
pub struct AggregateOutputExpression {
    pub present: String,
    pub row: String,
    pub key: String,
}

/// The desired output of a group as a mathematical value.
#[verifier::ext_equal]
pub struct ExpressionModel {
    pub present: Seq<char>,
    pub row: Seq<char>,
    pub key: Seq<char>,
}

impl View for AggregateOutputExpression {
    type V = ExpressionModel;

    open spec fn view(&self) -> ExpressionModel {
        ExpressionModel { present: self.present@, row: self.row@, key: self.key@ }
    }
}

fn output_values(sql: &OutputSql) -> (list: Vec<String>)
    ensures
        text::texts(list@) == sql.values(),
{
    let mut list: Vec<String> = Vec::new();
    let mut index: usize = 0;
    let ghost keys = text::texts(sql.group_values@);
    while index < sql.group_values.len()
        invariant
            index <= sql.group_values.len(),
            keys == text::texts(sql.group_values@),
            text::texts(list@) =~= keys.take(index as int),
        decreases sql.group_values.len() - index,
    {
        let ghost before = list@;
        list.push(sql.group_values[index].clone());
        assert(text::texts(list@) =~= text::texts(before).push(keys[index as int]));
        index = index + 1;
    }
    index = 0;
    assert(keys.take(keys.len() as int) =~= keys);
    while index < sql.finals.len()
        invariant
            index <= sql.finals.len(),
            keys == text::texts(sql.group_values@),
            text::texts(list@) =~= keys + Seq::new(
                index as nat,
                |k: int| final_value(sql::text_model(sql.finals@[k]), k),
            ),
        decreases sql.finals.len() - index,
    {
        let ghost before = list@;
        list.push(final_sql(&sql.finals[index], index));
        assert(text::texts(list@) =~= text::texts(before).push(
            final_value(sql::text_model(sql.finals@[index as int]), index as int),
        ));
        index = index + 1;
    }
    assert(text::texts(list@) =~= sql.values());
    list
}

fn from_sql(sql: &OutputSql) -> (text: String)
    ensures
        text@ == sql.from(),
{
    let mut text = sql.dirty.to_owned();
    text.append(" AS dirty");
    if !sql.group_values.is_empty() {
        let holes = Holes::new().bind("bag", sql.bag);
        assert(holes@ =~= seq![("bag"@, sql.bag@)]);
        text.append(render(REPRESENTATIVE_SQL, holes).as_str());
    } else {
        text.append("");
    }
    let joins = listed(
        sql.works.len(),
        |index: usize| -> (item: String)
            requires
                index < sql.works.len(),
            ensures
                item@ == work_join(sql.works@[index as int]@, index as int)
            { work_join_sql(sql.works[index].as_str(), index) },
    );
    assert(text::texts(joins@) =~= Seq::new(
        sql.works@.len(),
        |index: int| work_join(sql.works@[index]@, index),
    ));
    text.append(join(&joins, "").as_str());
    text
}

/// Builds the desired output of a group.
pub fn aggregate_output_expression(sql: &OutputSql) -> (expression: AggregateOutputExpression)
    requires
        sql.wf(),
    ensures
        expression@ == sql.expression(),
{
    let holes = Holes::new().bind("values", join(&output_values(sql), ",").as_str()).bind(
        "output_type",
        sql.output_type,
    ).bind("from", from_sql(sql).as_str());
    assert(holes@ =~= seq![
        ("values"@, text::joined(sql.values(), ","@)),
        ("output_type"@, sql.output_type@),
        ("from"@, sql.from()),
    ]);
    let row = render(OUTPUT_ROW_SQL, holes);
    let present = if sql.group_values.is_empty() {
        "true".to_owned()
    } else {
        let holes = Holes::new().bind("bag", sql.bag).bind("dirty", sql.dirty);
        assert(holes@ =~= seq![("bag"@, sql.bag@), ("dirty"@, sql.dirty@)]);
        render(PRESENT_SQL, holes)
    };
    AggregateOutputExpression { present, row, key: sql.output_key.to_owned() }
}

/// No desired output, for an emission that only publishes what is pending.
pub fn no_output() -> (expression: AggregateOutputExpression)
    ensures
        expression@ == (ExpressionModel { present: ""@, row: ""@, key: ""@ }),
{
    AggregateOutputExpression { present: "".to_owned(), row: "".to_owned(), key: "".to_owned() }
}

/// How the desired output of a group differs from the published one.
#[derive(Clone, Copy, Debug, PartialEq, Eq, Structural)]
pub enum OutputDecision {
    Unchanged,
    Insert,
    Delete,
    Replace,
}

/// The match between a group and its dirty entry.
pub const GROUP_IS_DIRTY_SQL: &'static str = "groups.group_state_id=dirty.group_state_id";

/// Asks what an emission does to a group.
pub open spec fn decision_query(
    groups: Seq<char>,
    dirty: Seq<char>,
    expression: ExpressionModel,
    group_queue_id: i64,
) -> StatementModel {
    StatementModel {
        sql: text::rendered(
            DECISION_SQL@,
            seq![
                ("groups"@, groups),
                ("dirty"@, dirty),
                ("predicate"@, GROUP_IS_DIRTY_SQL@),
                ("present"@, expression.present),
                ("row"@, expression.row),
                ("key"@, expression.key),
            ],
        ),
        arguments: seq![SqlModel::BigInt(Some(group_queue_id))],
    }
}

/// The statement that decides what an emission does to a group.
pub fn decision_statement(
    groups: &str,
    dirty: &str,
    expression: &AggregateOutputExpression,
    group_queue_id: i64,
) -> (statement: Statement)
    ensures
        statement@ == decision_query(groups@, dirty@, expression@, group_queue_id),
{
    let holes = Holes::new().bind("groups", groups).bind("dirty", dirty).bind(
        "predicate",
        GROUP_IS_DIRTY_SQL,
    ).bind("present", expression.present.as_str()).bind("row", expression.row.as_str()).bind(
        "key",
        expression.key.as_str(),
    );
    assert(holes@ =~= seq![
        ("groups"@, groups@),
        ("dirty"@, dirty@),
        ("predicate"@, GROUP_IS_DIRTY_SQL@),
        ("present"@, expression@.present),
        ("row"@, expression@.row),
        ("key"@, expression@.key),
    ]);
    Statement::new(render(DECISION_SQL, holes)).bigint(group_queue_id)
}

/// The decision that a text names.
pub open spec fn decision_named(name: Seq<char>) -> Option<OutputDecision> {
    if name == "unchanged"@ {
        Some(OutputDecision::Unchanged)
    } else if name == "insert"@ {
        Some(OutputDecision::Insert)
    } else if name == "delete"@ {
        Some(OutputDecision::Delete)
    } else if name == "replace"@ {
        Some(OutputDecision::Replace)
    } else {
        None
    }
}

pub fn parse_decision(name: &str) -> (decision: Option<OutputDecision>)
    ensures
        decision == decision_named(name@),
{
    if same_text(name, "unchanged") {
        Some(OutputDecision::Unchanged)
    } else if same_text(name, "insert") {
        Some(OutputDecision::Insert)
    } else if same_text(name, "delete") {
        Some(OutputDecision::Delete)
    } else if same_text(name, "replace") {
        Some(OutputDecision::Replace)
    } else {
        None
    }
}

/// The decision on a group.
pub open spec fn decided(
    rows: int,
    decision: Option<String>,
) -> Result<OutputDecision, Seq<char>> {
    if rows != 1 {
        Err("Aggregate emission has no unique group state"@)
    } else {
        match apply::present_text(decision, "Aggregate output decision"@) {
            Err(message) => Err(message),
            Ok(name) => match decision_named(name) {
                Some(decision) => Ok(decision),
                None => Err(
                    "Aggregate returned unknown output decision "@ + text::debug_form(name),
                ),
            },
        }
    }
}

/// Decodes the decision on a group.
pub fn decode_decision(rows: usize, decision: &Option<String>) -> (outcome: Result<
    OutputDecision,
    String,
>)
    ensures
        text::agrees(outcome, decided(rows as int, *decision)),
{
    require_summary(rows, "Aggregate emission has no unique group state")?;
    match decision {
        None => Err("database returned NULL ".to_owned().concat("Aggregate output decision")),
        Some(name) => match parse_decision(name.as_str()) {
            Some(decision) => Ok(decision),
            None => Err(
                "Aggregate returned unknown output decision ".to_owned().concat(
                    debug_text(name.as_str()).as_str(),
                ),
            ),
        },
    }
}

/// Clears what was pending for an unchanged group.
pub open spec fn unchanged_query(
    groups: Seq<char>,
    dirty: Seq<char>,
    group_queue_id: i64,
) -> StatementModel {
    StatementModel {
        sql: text::rendered(
            UNCHANGED_SQL@,
            seq![
                ("groups"@, groups),
                ("dirty"@, dirty),
                ("predicate"@, GROUP_IS_DIRTY_SQL@),
            ],
        ),
        arguments: seq![SqlModel::BigInt(Some(group_queue_id))],
    }
}

/// The statement that clears what was pending for an unchanged group.
pub fn unchanged_statement(groups: &str, dirty: &str, group_queue_id: i64) -> (statement: Statement)
    ensures
        statement@ == unchanged_query(groups@, dirty@, group_queue_id),
{
    let holes = Holes::new().bind("groups", groups).bind("dirty", dirty).bind(
        "predicate",
        GROUP_IS_DIRTY_SQL,
    );
    assert(holes@ =~= seq![
        ("groups"@, groups@),
        ("dirty"@, dirty@),
        ("predicate"@, GROUP_IS_DIRTY_SQL@),
    ]);
    Statement::new(render(UNCHANGED_SQL, holes)).bigint(group_queue_id)
}

/// Checks that a statement changed exactly one row.
pub fn require_aggregate_one(rows: usize, operation: &str) -> (outcome: Result<(), String>)
    ensures
        text::agrees(outcome, text::holds(rows == 1, "Aggregate failed to "@ + operation@)),
{
    if rows != 1 {
        return Err("Aggregate failed to ".to_owned().concat(operation));
    }
    Ok(())
}

/// Which row an emission publishes or retracts.
#[derive(Clone, Copy, Debug, PartialEq, Eq, Structural)]
pub enum EmitSource {
    /// The desired row is published.
    Desired,
    /// The published row is retracted.
    Published,
    /// The published row is retracted and the desired one is kept pending.
    ReplacementRetraction,
    /// The pending row is published.
    Pending,
}

impl EmitSource {
    /// The row that is emitted.
    pub open spec fn row(self) -> Seq<char> {
        match self {
            EmitSource::Desired => "desired.row_value"@,
            EmitSource::Published => "groups.published_output"@,
            EmitSource::ReplacementRetraction => "groups.published_output"@,
            EmitSource::Pending => "groups.pending_output"@,
        }
    }

    /// What the group remembers of it.
    pub open spec fn assignment(self) -> Seq<char> {
        match self {
            EmitSource::Desired => PUBLISH_DESIRED_SQL@,
            EmitSource::Published => RETRACT_PUBLISHED_SQL@,
            EmitSource::ReplacementRetraction => RETRACT_AND_KEEP_SQL@,
            EmitSource::Pending => PUBLISH_PENDING_SQL@,
        }
    }

    /// When there is such a row.
    pub open spec fn guard(self, expression: ExpressionModel) -> Seq<char> {
        match self {
            EmitSource::Desired => "("@ + expression.present + ")"@,
            EmitSource::Published => "groups.published_present"@,
            EmitSource::ReplacementRetraction => "groups.published_present"@,
            EmitSource::Pending => "groups.pending_present"@,
        }
    }

    /// Whether the desired row is computed for it.
    pub open spec fn needs_desired(self) -> bool {
        self is Desired || self is ReplacementRetraction
    }

    /// The weight of the emitted row.
    pub open spec fn weight(self) -> i64 {
        if self is Desired || self is Pending {
            1
        } else {
            (-1) as i64
        }
    }

    /// The source of the one row that a decision emits.
    pub open spec fn of(decision: OutputDecision) -> Option<EmitSource> {
        match decision {
            OutputDecision::Unchanged => None,
            OutputDecision::Insert => Some(EmitSource::Desired),
            OutputDecision::Delete => Some(EmitSource::Published),
            OutputDecision::Replace => Some(EmitSource::ReplacementRetraction),
        }
    }
}

/// The source of the one row that a decision emits.
pub fn emission_source(decision: OutputDecision) -> (source: Option<EmitSource>)
    ensures
        source == EmitSource::of(decision),
{
    match decision {
        OutputDecision::Unchanged => None,
        OutputDecision::Insert => Some(EmitSource::Desired),
        OutputDecision::Delete => Some(EmitSource::Published),
        OutputDecision::Replace => Some(EmitSource::ReplacementRetraction),
    }
}

/// What an emission reads and writes.
pub struct EmissionSql<'a> {
    pub groups: &'a str,
    pub dirty: &'a str,
    pub payload: &'a str,
    pub source: EmitSource,
    pub expression: &'a AggregateOutputExpression,
}

impl<'a> EmissionSql<'a> {
    /// The common table expression of the desired row.
    pub open spec fn desired(self) -> Seq<char> {
        if self.source.needs_desired() {
            text::rendered(
                DESIRED_ROW_SQL@,
                seq![("key"@, self.expression@.key), ("row"@, self.expression@.row)],
            )
        } else {
            ""@
        }
    }

    /// The holes of an emission.
    pub open spec fn holes(self) -> Seq<(Seq<char>, Seq<char>)> {
        seq![
            ("desired"@, self.desired()),
            ("row"@, self.source.row()),
            ("groups"@, self.groups@),
            ("dirty"@, self.dirty@),
            (
                "desired_from"@,
                if self.source.needs_desired() {
                    ",desired"@
                } else {
                    ""@
                },
            ),
            ("guard"@, self.source.guard(self.expression@)),
            ("payload"@, self.payload@),
            ("assignment"@, self.source.assignment()),
        ]
    }
}

/// Emits one row of a group.
pub open spec fn emission_query(
    sql: EmissionSql,
    group_queue_id: i64,
    output: OutputState,
) -> StatementModel {
    StatementModel {
        sql: text::rendered(EMISSION_SQL@, sql.holes()),
        arguments: seq![
            SqlModel::BigInt(Some(group_queue_id)),
            SqlModel::BigInt(Some(output.stream_id)),
            SqlModel::BigInt(Some(output.next_chunk_seq)),
            SqlModel::BigInt(Some(sql.source.weight())),
        ],
    }
}

/// The statement that emits one row of a group.
pub fn emission_statement(sql: &EmissionSql, group_queue_id: i64, output: &OutputState) -> (
    statement: Statement)
    ensures
        statement@ == emission_query(*sql, group_queue_id, *output),
{
    let needs_desired = sql.source == EmitSource::Desired || sql.source
        == EmitSource::ReplacementRetraction;
    let desired = if needs_desired {
        let holes = Holes::new().bind("key", sql.expression.key.as_str()).bind(
            "row",
            sql.expression.row.as_str(),
        );
        assert(holes@ =~= seq![("key"@, sql.expression@.key), ("row"@, sql.expression@.row)]);
        render(DESIRED_ROW_SQL, holes)
    } else {
        "".to_owned()
    };
    let desired_from = if needs_desired {
        ",desired"
    } else {
        ""
    };
    let row = match sql.source {
        EmitSource::Desired => "desired.row_value",
        EmitSource::Published => "groups.published_output",
        EmitSource::ReplacementRetraction => "groups.published_output",
        EmitSource::Pending => "groups.pending_output",
    };
    let assignment = match sql.source {
        EmitSource::Desired => PUBLISH_DESIRED_SQL,
        EmitSource::Published => RETRACT_PUBLISHED_SQL,
        EmitSource::ReplacementRetraction => RETRACT_AND_KEEP_SQL,
        EmitSource::Pending => PUBLISH_PENDING_SQL,
    };
    let guard = match sql.source {
        EmitSource::Desired => {
            let mut guard = "(".to_owned();
            guard.append(sql.expression.present.as_str());
            guard.append(")");
            guard
        },
        EmitSource::Published => "groups.published_present".to_owned(),
        EmitSource::ReplacementRetraction => "groups.published_present".to_owned(),
        EmitSource::Pending => "groups.pending_present".to_owned(),
    };
    let weight: i64 = if sql.source == EmitSource::Desired || sql.source == EmitSource::Pending {
        1
    } else {
        -1
    };
    let holes = Holes::new().bind("desired", desired.as_str()).bind("row", row).bind(
        "groups",
        sql.groups,
    ).bind("dirty", sql.dirty).bind("desired_from", desired_from).bind(
        "guard",
        guard.as_str(),
    ).bind("payload", sql.payload).bind("assignment", assignment);
    assert(holes@ =~= sql.holes());
    Statement::new(render(EMISSION_SQL, holes)).bigint(group_queue_id).bigint(
        output.stream_id,
    ).bigint(output.next_chunk_seq).bigint(weight)
}

/// The summary row of an emission as the database returned it.
#[derive(Clone, Debug, PartialEq, Eq)]
pub struct EmissionRow {
    pub bytes: Option<i64>,
    pub causal_lsn: Option<String>,
    pub inserted: Option<i64>,
    pub updated: Option<i64>,
}

impl EmissionRow {
    /// The columns of the first returned row, in order.
    pub open spec fn of(rows: Seq<Row>) -> EmissionRow {
        EmissionRow {
            bytes: session::bigint(rows, 1),
            causal_lsn: session::text(rows, 2),
            inserted: session::bigint(rows, 3),
            updated: session::bigint(rows, 4),
        }
    }

    pub fn read(rows: &Vec<Row>) -> (row: EmissionRow)
        ensures
            row == EmissionRow::of(rows@),
    {
        EmissionRow {
            bytes: session::first_bigint(rows, 1),
            causal_lsn: session::first_text(rows, 2),
            inserted: session::first_bigint(rows, 3),
            updated: session::first_bigint(rows, 4),
        }
    }
}

/// The causal position of an emission.
pub open spec fn emission_lsn(value: Option<String>) -> Result<u64, Seq<char>> {
    match apply::present_text(value, "Aggregate output LSN"@) {
        Err(message) => Err(message),
        Ok(value) => match postgres::lsn_value(value) {
            Some(lsn) => Ok(lsn as u64),
            None => Err("malformed LSN "@ + postgres::quoted(value)),
        },
    }
}

impl EmissionRow {
    /// The append of an emission: one row of some size, and one group changed.
    pub open spec fn append(self, output: OutputState) -> Result<OutputAppend, Seq<char>> {
        match text::four(
            text::checked(apply::counted(self.bytes, "Aggregate output bytes"@)),
            text::checked(emission_lsn(self.causal_lsn)),
            text::checked(apply::counted(self.inserted, "Aggregate payload inserts"@)),
            text::checked(apply::counted(self.updated, "Aggregate group updates"@)),
        ) {
            Err(message) => Err(message),
            Ok(()) => text::guarded(
                text::holds(
                    self.bytes->0 > 0 && self.inserted->0 == 1 && self.updated->0 == 1,
                    "Aggregate typed output append is inconsistent"@,
                ),
                OutputAppend {
                    target: OutputAppendTarget::New { sequence: output.next_chunk_seq },
                    rows: 1,
                    bytes: self.bytes->0 as u64,
                    lsn: emission_lsn(self.causal_lsn)->Ok_0,
                },
            ),
        }
    }
}

fn decode_lsn(value: &Option<String>) -> (outcome: Result<u64, String>)
    ensures
        text::agrees(outcome, emission_lsn(*value)),
{
    match value {
        None => Err("database returned NULL ".to_owned().concat("Aggregate output LSN")),
        Some(value) => parse_lsn(value.as_str()),
    }
}

/// The append of an emission.
pub open spec fn emitted(
    rows: int,
    row: EmissionRow,
    output: OutputState,
) -> Result<OutputAppend, Seq<char>> {
    if rows != 1 {
        Err("Aggregate emission did not produce one summary"@)
    } else {
        row.append(output)
    }
}

/// Decodes the summary of an emission.
pub fn decode_emission(rows: usize, row: &EmissionRow, output: &OutputState) -> (outcome: Result<
    OutputAppend,
    String,
>)
    ensures
        text::agrees(outcome, emitted(rows as int, *row, *output)),
{
    require_summary(rows, "Aggregate emission did not produce one summary")?;
    let bytes: u64 = required_count(row.bytes, "Aggregate output bytes")?;
    let lsn: u64 = decode_lsn(&row.causal_lsn)?;
    let inserted: u64 = required_count(row.inserted, "Aggregate payload inserts")?;
    let updated: u64 = required_count(row.updated, "Aggregate group updates")?;
    if bytes == 0 || inserted != 1 || updated != 1 {
        return fail("Aggregate typed output append is inconsistent");
    }
    Ok(
        OutputAppend {
            target: OutputAppendTarget::New { sequence: output.next_chunk_seq },
            rows: 1,
            bytes,
            lsn,
        },
    )
}

/// Discards the finished fold of one aggregate.
pub open spec fn discard_query(
    work: Seq<char>,
    dirty: Seq<char>,
    group_queue_id: i64,
) -> StatementModel {
    StatementModel {
        sql: text::rendered(DISCARD_SQL@, seq![("work"@, work), ("dirty"@, dirty)]),
        arguments: seq![SqlModel::BigInt(Some(group_queue_id))],
    }
}

/// The statement that discards the finished fold of one aggregate.
pub fn discard_statement(work: &str, dirty: &str, group_queue_id: i64) -> (statement: Statement)
    ensures
        statement@ == discard_query(work@, dirty@, group_queue_id),
{
    let holes = Holes::new().bind("work", work).bind("dirty", dirty);
    assert(holes@ =~= seq![("work"@, work@), ("dirty"@, dirty@)]);
    Statement::new(render(DISCARD_SQL, holes)).bigint(group_queue_id)
}

/// Takes a finished group off the queue.
pub open spec fn finish_query(dirty: Seq<char>, group_queue_id: i64) -> StatementModel {
    StatementModel {
        sql: text::rendered(FINISH_SQL@, seq![("dirty"@, dirty)]),
        arguments: seq![SqlModel::BigInt(Some(group_queue_id))],
    }
}

/// The statement that takes a finished group off the queue.
pub fn finish_statement(dirty: &str, group_queue_id: i64) -> (statement: Statement)
    ensures
        statement@ == finish_query(dirty@, group_queue_id),
{
    let holes = Holes::new().bind("dirty", dirty);
    assert(holes@ =~= seq![("dirty"@, dirty@)]);
    Statement::new(render(FINISH_SQL, holes)).bigint(group_queue_id)
}

/// The state of the group that left the queue.
pub open spec fn finished_state(
    rows: int,
    queue_id: Option<i64>,
    group_state_id: Option<i64>,
    group_queue_id: i64,
) -> Result<i64, Seq<char>> {
    if rows != 1 {
        Err("Aggregate did not remove one completed dirty group"@)
    } else {
        match database::required_value(queue_id, "Aggregate dirty deletion"@) {
            Err(message) => Err(message),
            Ok(removed) => if removed != group_queue_id {
                Err("Aggregate did not remove one completed dirty group"@)
            } else {
                database::required_value(
                    group_state_id,
                    "Aggregate completed group state"@,
                )
            },
        }
    }
}

/// The state of the group that left the queue, which is the one that was
/// asked for.
pub fn decode_finished(
    rows: usize,
    queue_id: Option<i64>,
    group_state_id: Option<i64>,
    group_queue_id: i64,
) -> (outcome: Result<i64, String>)
    ensures
        text::agrees(outcome, finished_state(rows as int, queue_id, group_state_id, group_queue_id)),
{
    require_summary(rows, "Aggregate did not remove one completed dirty group")?;
    let removed: i64 = required(queue_id, "Aggregate dirty deletion")?;
    if removed != group_queue_id {
        return fail("Aggregate did not remove one completed dirty group");
    }
    required(group_state_id, "Aggregate completed group state")
}

/// Removes a group that holds nothing any more.
pub open spec fn tombstone_query(
    groups: Seq<char>,
    bag: Seq<char>,
    group_state_id: i64,
) -> StatementModel {
    StatementModel {
        sql: text::rendered(TOMBSTONE_SQL@, seq![("groups"@, groups), ("bag"@, bag)]),
        arguments: seq![SqlModel::BigInt(Some(group_state_id))],
    }
}

/// The statement that removes a group that holds nothing any more.
pub fn tombstone_statement(groups: &str, bag: &str, group_state_id: i64) -> (statement: Statement)
    ensures
        statement@ == tombstone_query(groups@, bag@, group_state_id),
{
    let holes = Holes::new().bind("groups", groups).bind("bag", bag);
    assert(holes@ =~= seq![("groups"@, groups@), ("bag"@, bag@)]);
    Statement::new(render(TOMBSTONE_SQL, holes)).bigint(group_state_id)
}

/// The state rows of a finished group: its queue entry and at most one tombstone.
pub open spec fn rows_finished(tombstones: int) -> Result<u64, Seq<char>> {
    text::guarded(
        text::holds(
            tombstones <= 1,
            "Aggregate deleted multiple group tombstones"@,
        ),
        (1 + tombstones) as u64,
    )
}

/// The state rows that a finished group leaves behind it: its queue entry and
/// at most one tombstone.
pub fn finished_rows(tombstones: usize) -> (outcome: Result<u64, String>)
    ensures
        text::agrees(outcome, rows_finished(tombstones as int)),
{
    if tombstones > 1 {
        return fail("Aggregate deleted multiple group tombstones");
    }
    Ok(1 + tombstones as u64)
}

/// The next dirty group, which lies behind the finished one.
pub open spec fn next_dirty(
    rows: int,
    next: Option<i64>,
    group_queue_id: i64,
) -> Result<Option<i64>, Seq<char>> {
    text::guarded(
        text::both(
            text::holds(rows == 1, "Aggregate dirty queue returned no summary"@),
            text::holds(
                next matches Some(next) ==> next > group_queue_id,
                "Aggregate dirty queue did not advance"@,
            ),
        ),
        next,
    )
}

/// Decodes the next dirty group, which lies behind the finished one.
pub fn decode_next_dirty(rows: usize, next: Option<i64>, group_queue_id: i64) -> (outcome: Result<
    Option<i64>,
    String,
>)
    ensures
        text::agrees(outcome, next_dirty(rows as int, next, group_queue_id)),
{
    require_summary(rows, "Aggregate dirty queue returned no summary")?;
    if let Some(queue_id) = next {
        if queue_id <= group_queue_id {
            return fail("Aggregate dirty queue did not advance");
        }
    }
    Ok(next)
}

} // verus!
