//! The persisted form of an Aggregate continuation.

use vstd::prelude::*;

use crate::database::{self, required};
use crate::execution::aggregate::machine::{
    AfterDrain, AggregateContinuation, AggregatePhase, EmitLeg,
};
use crate::execution::continuation::{self, lock_one, Column};
use crate::execution::contract::InputPosition;
use crate::session::{self, CellKind, Row};
use crate::sql::{self, SqlModel, SqlValue, BOOLOID, INT2OID, INT4OID, INT8OID};
use crate::text::{self, fail, render, Holes};

verus! {

pub const APPLY_PHASE: i16 = 1;

pub const DRAIN_REBUILD_PHASE: i16 = 2;

pub const DRAIN_EMIT_PHASE: i16 = 3;

pub const FRONTIER_PHASE: i16 = 4;

/// The columns of the continuation relation.
pub open spec fn columns() -> Seq<Column> {
    seq![
        Column::required("singleton", BOOLOID),
        Column::required("phase", INT2OID),
        Column::required("input_stream_id", INT8OID),
        Column::nullable("input_chunk_seq", INT8OID),
        Column::nullable("input_row_ordinal", INT8OID),
        Column::nullable("group_queue_id", INT8OID),
        Column::nullable("aggregate_ordinal", INT4OID),
        Column::nullable("emit_leg", INT2OID),
        Column::nullable("after_kind", INT2OID),
        Column::nullable("after_chunk_seq", INT8OID),
        Column::nullable("after_row_ordinal", INT8OID),
    ]
}

pub fn continuation_columns() -> (list: Vec<Column>)
    ensures
        list@ == columns(),
{
    let list = vec![
        Column::required("singleton", BOOLOID),
        Column::required("phase", INT2OID),
        Column::required("input_stream_id", INT8OID),
        Column::nullable("input_chunk_seq", INT8OID),
        Column::nullable("input_row_ordinal", INT8OID),
        Column::nullable("group_queue_id", INT8OID),
        Column::nullable("aggregate_ordinal", INT4OID),
        Column::nullable("emit_leg", INT2OID),
        Column::nullable("after_kind", INT2OID),
        Column::nullable("after_chunk_seq", INT8OID),
        Column::nullable("after_row_ordinal", INT8OID),
    ];
    assert(list@ =~= columns());
    list
}

/// Locks the authority row and reads it in decoding order.
pub const LOAD_SQL: &'static str =
    "SELECT phase,input_stream_id,input_chunk_seq,input_row_ordinal,
                group_queue_id,aggregate_ordinal,emit_leg,
                after_kind,after_chunk_seq,after_row_ordinal
         FROM {relation} WHERE singleton FOR UPDATE";

pub fn load_query(relation: &str) -> (sql: String)
    ensures
        sql@ == text::rendered(LOAD_SQL@, seq![("relation"@, relation@)]),
{
    let holes = Holes::new().bind("relation", relation);
    assert(holes@ =~= seq![("relation"@, relation@)]);
    render(LOAD_SQL, holes)
}

/// A continuation and whether its row is already persisted.
#[derive(Clone, Copy, Debug, PartialEq, Eq, Structural)]
pub struct StoredAggregate {
    pub value: AggregateContinuation,
    pub persisted: bool,
}

/// The scalar fields of a persisted continuation.
#[derive(Clone, Copy, Debug, PartialEq, Eq, Structural)]
pub struct AggregateFields {
    pub phase: i16,
    pub input_stream_id: i64,
    pub input_chunk_seq: Option<i64>,
    pub input_row_ordinal: Option<i64>,
    pub group_queue_id: Option<i64>,
    pub aggregate_ordinal: Option<i32>,
    pub emit_leg: Option<i16>,
    pub after_kind: Option<i16>,
    pub after_chunk_seq: Option<i64>,
    pub after_row_ordinal: Option<i64>,
}

impl AggregateFields {
    /// No field of a drain is set.
    pub open spec fn idle(self) -> bool {
        self.group_queue_id is None && self.aggregate_ordinal is None && self.emit_leg is None
            && self.after_kind is None && self.after_chunk_seq is None
            && self.after_row_ordinal is None
    }

    /// The input cursor that the fields hold, when it is whole.
    pub open spec fn cursor(self) -> Result<Option<InputPosition>, Seq<char>> {
        match (self.input_chunk_seq, self.input_row_ordinal) {
            (Some(chunk_seq), Some(row_ordinal)) => match InputPosition::made(
                self.input_stream_id,
                chunk_seq,
                row_ordinal,
            ) {
                Ok(position) => Ok(Some(position)),
                Err(message) => Err(message),
            },
            (None, None) => Ok(None),
            _ => Err("Aggregate continuation has a partial input cursor"@),
        }
    }

    /// The drain target that the fields hold.
    pub open spec fn after(self) -> Result<AfterDrain, Seq<char>> {
        match (self.after_kind, self.after_chunk_seq, self.after_row_ordinal) {
            (Some(kind), Some(chunk_seq), Some(row_ordinal)) => if kind == 1 {
                match InputPosition::made(self.input_stream_id, chunk_seq, row_ordinal) {
                    Ok(position) => Ok(AfterDrain::Apply(position)),
                    Err(message) => Err(message),
                }
            } else if kind == 3 && row_ordinal == 0 {
                match InputPosition::made(self.input_stream_id, chunk_seq, 0) {
                    Ok(position) => Ok(AfterDrain::Frontier(position)),
                    Err(message) => Err(message),
                }
            } else {
                Err("Aggregate continuation has an invalid Drain target"@)
            },
            (Some(kind), None, None) => if kind == 2 {
                Ok(AfterDrain::Idle)
            } else {
                Err("Aggregate continuation has an invalid Drain target"@)
            },
            _ => Err("Aggregate continuation has an invalid Drain target"@),
        }
    }

    /// The phase that the fields hold beside a cursor.
    pub open spec fn stored_phase(self, cursor: Option<InputPosition>) -> Result<
        AggregatePhase,
        Seq<char>,
    > {
        if self.phase == APPLY_PHASE && cursor is Some && self.idle() {
            Ok(AggregatePhase::Apply)
        } else if self.phase == FRONTIER_PHASE && cursor is Some && self.idle() {
            Ok(AggregatePhase::Frontier)
        } else if self.phase == DRAIN_REBUILD_PHASE && cursor is None && self.group_queue_id is Some
            && self.aggregate_ordinal is Some && self.emit_leg is None {
            if self.aggregate_ordinal->0 < 0 {
                Err("Aggregate ordinal is negative"@)
            } else {
                match self.after() {
                    Ok(after) => Ok(
                        AggregatePhase::DrainRebuild {
                            group_queue_id: self.group_queue_id->0,
                            aggregate_ordinal: self.aggregate_ordinal->0 as u32,
                            after,
                        },
                    ),
                    Err(message) => Err(message),
                }
            }
        } else if self.phase == DRAIN_EMIT_PHASE && cursor is None && self.group_queue_id is Some
            && self.aggregate_ordinal is None && self.emit_leg is Some {
            if self.emit_leg->0 != 1 && self.emit_leg->0 != 2 {
                Err("Aggregate continuation has an invalid emit leg"@)
            } else {
                match self.after() {
                    Ok(after) => Ok(
                        AggregatePhase::DrainEmit {
                            group_queue_id: self.group_queue_id->0,
                            leg: if self.emit_leg->0 == 1 {
                                EmitLeg::Decide
                            } else {
                                EmitLeg::InsertPending
                            },
                            after,
                        },
                    ),
                    Err(message) => Err(message),
                }
            }
        } else {
            Err("Aggregate continuation fields do not encode one phase"@)
        }
    }

    /// The continuation that the fields hold.
    pub open spec fn continuation(self) -> Result<AggregateContinuation, Seq<char>> {
        match self.cursor() {
            Err(message) => Err(message),
            Ok(input) => match self.stored_phase(input) {
                Err(message) => Err(message),
                Ok(phase) => Ok(
                    AggregateContinuation { input_stream_id: self.input_stream_id, input, phase },
                ),
            },
        }
    }

    /// The fields with a drain target set.
    pub open spec fn with_after(self, after: AfterDrain) -> AggregateFields {
        match after {
            AfterDrain::Apply(input) => AggregateFields {
                after_kind: Some(1),
                after_chunk_seq: Some(input.chunk_seq),
                after_row_ordinal: Some(input.row_ordinal),
                ..self
            },
            AfterDrain::Idle => AggregateFields { after_kind: Some(2), ..self },
            AfterDrain::Frontier(frontier) => AggregateFields {
                after_kind: Some(3),
                after_chunk_seq: Some(frontier.chunk_seq),
                after_row_ordinal: Some(frontier.row_ordinal),
                ..self
            },
        }
    }

    /// The fields of a continuation outside a drain.
    pub open spec fn base(continuation: AggregateContinuation, phase: i16) -> AggregateFields {
        AggregateFields {
            phase,
            input_stream_id: continuation.input_stream_id,
            input_chunk_seq: match continuation.input {
                Some(input) => Some(input.chunk_seq),
                None => None,
            },
            input_row_ordinal: match continuation.input {
                Some(input) => Some(input.row_ordinal),
                None => None,
            },
            group_queue_id: None,
            aggregate_ordinal: None,
            emit_leg: None,
            after_kind: None,
            after_chunk_seq: None,
            after_row_ordinal: None,
        }
    }

    /// The fields that persist a continuation.
    pub open spec fn of(continuation: AggregateContinuation) -> Result<
        AggregateFields,
        Seq<char>,
    > {
        match continuation.phase {
            AggregatePhase::Apply => Ok(Self::base(continuation, APPLY_PHASE)),
            AggregatePhase::Frontier => Ok(Self::base(continuation, FRONTIER_PHASE)),
            AggregatePhase::DrainRebuild {
                group_queue_id,
                aggregate_ordinal,
                after,
            } => if aggregate_ordinal > i32::MAX {
                Err("Aggregate ordinal exceeds integer"@)
            } else {
                Ok(
                    (AggregateFields {
                        group_queue_id: Some(group_queue_id),
                        aggregate_ordinal: Some(aggregate_ordinal as i32),
                        ..Self::base(continuation, DRAIN_REBUILD_PHASE)
                    }).with_after(after),
                )
            },
            AggregatePhase::DrainEmit { group_queue_id, leg, after } => Ok(
                (AggregateFields {
                    group_queue_id: Some(group_queue_id),
                    emit_leg: Some(
                        if leg is Decide {
                            1
                        } else {
                            2
                        },
                    ),
                    ..Self::base(continuation, DRAIN_EMIT_PHASE)
                }).with_after(after),
            ),
        }
    }
}

fn decode_after_drain(fields: AggregateFields) -> (outcome: Result<AfterDrain, String>)
    ensures
        text::agrees(outcome, fields.after()),
{
    match (fields.after_kind, fields.after_chunk_seq, fields.after_row_ordinal) {
        (Some(1), Some(chunk_seq), Some(row_ordinal)) => Ok(
            AfterDrain::Apply(
                InputPosition::new(fields.input_stream_id, chunk_seq, row_ordinal)?,
            ),
        ),
        (Some(2), None, None) => Ok(AfterDrain::Idle),
        (Some(3), Some(chunk_seq), Some(0)) => Ok(
            AfterDrain::Frontier(InputPosition::new(fields.input_stream_id, chunk_seq, 0)?),
        ),
        _ => fail("Aggregate continuation has an invalid Drain target"),
    }
}

/// Decodes the persisted fields of a continuation.
pub fn decode_execute_fields(fields: AggregateFields) -> (outcome: Result<
    AggregateContinuation,
    String,
>)
    ensures
        text::agrees(outcome, fields.continuation()),
{
    let input = match (fields.input_chunk_seq, fields.input_row_ordinal) {
        (Some(chunk_seq), Some(row_ordinal)) => Some(
            InputPosition::new(fields.input_stream_id, chunk_seq, row_ordinal)?,
        ),
        (None, None) => None,
        _ => {
            return fail("Aggregate continuation has a partial input cursor");
        },
    };
    let idle = fields.group_queue_id.is_none() && fields.aggregate_ordinal.is_none()
        && fields.emit_leg.is_none() && fields.after_kind.is_none()
        && fields.after_chunk_seq.is_none() && fields.after_row_ordinal.is_none();
    let phase = if fields.phase == APPLY_PHASE && input.is_some() && idle {
        AggregatePhase::Apply
    } else if fields.phase == FRONTIER_PHASE && input.is_some() && idle {
        AggregatePhase::Frontier
    } else if fields.phase == DRAIN_REBUILD_PHASE && input.is_none()
        && fields.group_queue_id.is_some() && fields.aggregate_ordinal.is_some()
        && fields.emit_leg.is_none() {
        let ordinal: i32 = fields.aggregate_ordinal.unwrap();
        if ordinal < 0 {
            return fail("Aggregate ordinal is negative");
        }
        AggregatePhase::DrainRebuild {
            group_queue_id: fields.group_queue_id.unwrap(),
            aggregate_ordinal: ordinal as u32,
            after: decode_after_drain(fields)?,
        }
    } else if fields.phase == DRAIN_EMIT_PHASE && input.is_none()
        && fields.group_queue_id.is_some() && fields.aggregate_ordinal.is_none()
        && fields.emit_leg.is_some() {
        let leg = match fields.emit_leg {
            Some(1) => EmitLeg::Decide,
            Some(2) => EmitLeg::InsertPending,
            _ => {
                return fail("Aggregate continuation has an invalid emit leg");
            },
        };
        AggregatePhase::DrainEmit {
            group_queue_id: fields.group_queue_id.unwrap(),
            leg,
            after: decode_after_drain(fields)?,
        }
    } else {
        return fail("Aggregate continuation fields do not encode one phase");
    };
    Ok(AggregateContinuation { input_stream_id: fields.input_stream_id, input, phase })
}

fn encode_after_drain(fields: &mut AggregateFields, after: AfterDrain)
    ensures
        *final(fields) == old(fields).with_after(after),
{
    match after {
        AfterDrain::Apply(input) => {
            fields.after_kind = Some(1);
            fields.after_chunk_seq = Some(input.chunk_seq);
            fields.after_row_ordinal = Some(input.row_ordinal);
        },
        AfterDrain::Idle => {
            fields.after_kind = Some(2);
        },
        AfterDrain::Frontier(frontier) => {
            fields.after_kind = Some(3);
            fields.after_chunk_seq = Some(frontier.chunk_seq);
            fields.after_row_ordinal = Some(frontier.row_ordinal);
        },
    }
}

/// Encodes a continuation into its persisted fields.
pub fn encode_execute_fields(continuation: AggregateContinuation) -> (outcome: Result<
    AggregateFields,
    String,
>)
    ensures
        text::agrees(outcome, AggregateFields::of(continuation)),
{
    let (input_chunk_seq, input_row_ordinal): (Option<i64>, Option<i64>) =
        match continuation.input {
        Some(input) => (Some(input.chunk_seq), Some(input.row_ordinal)),
        None => (None, None),
    };
    let mut fields = AggregateFields {
        phase: match continuation.phase {
            AggregatePhase::Apply => APPLY_PHASE,
            AggregatePhase::DrainRebuild { .. } => DRAIN_REBUILD_PHASE,
            AggregatePhase::DrainEmit { .. } => DRAIN_EMIT_PHASE,
            AggregatePhase::Frontier => FRONTIER_PHASE,
        },
        input_stream_id: continuation.input_stream_id,
        input_chunk_seq,
        input_row_ordinal,
        group_queue_id: None,
        aggregate_ordinal: None,
        emit_leg: None,
        after_kind: None,
        after_chunk_seq: None,
        after_row_ordinal: None,
    };
    match continuation.phase {
        AggregatePhase::Apply => {},
        AggregatePhase::Frontier => {},
        AggregatePhase::DrainRebuild { group_queue_id, aggregate_ordinal, after } => {
            fields.group_queue_id = Some(group_queue_id);
            if aggregate_ordinal > i32::MAX as u32 {
                return fail("Aggregate ordinal exceeds integer");
            }
            fields.aggregate_ordinal = Some(aggregate_ordinal as i32);
            encode_after_drain(&mut fields, after);
        },
        AggregatePhase::DrainEmit { group_queue_id, leg, after } => {
            fields.group_queue_id = Some(group_queue_id);
            fields.emit_leg =
            Some(
                match leg {
                    EmitLeg::Decide => 1,
                    EmitLeg::InsertPending => 2,
                },
            );
            encode_after_drain(&mut fields, after);
        },
    }
    Ok(fields)
}

/// The statement arguments that carry the fields, in column order.
pub open spec fn field_arguments(fields: AggregateFields) -> Seq<SqlModel> {
    seq![
        SqlModel::SmallInt(Some(fields.phase)),
        SqlModel::BigInt(Some(fields.input_stream_id)),
        SqlModel::BigInt(fields.input_chunk_seq),
        SqlModel::BigInt(fields.input_row_ordinal),
        SqlModel::BigInt(fields.group_queue_id),
        SqlModel::Integer(fields.aggregate_ordinal),
        SqlModel::SmallInt(fields.emit_leg),
        SqlModel::SmallInt(fields.after_kind),
        SqlModel::BigInt(fields.after_chunk_seq),
        SqlModel::BigInt(fields.after_row_ordinal),
    ]
}

pub fn aggregate_field_arguments(fields: &AggregateFields) -> (arguments: Vec<SqlValue>)
    ensures
        sql::values(arguments@) == field_arguments(*fields),
{
    let arguments = vec![
        SqlValue::SmallInt(Some(fields.phase)),
        SqlValue::BigInt(Some(fields.input_stream_id)),
        SqlValue::BigInt(fields.input_chunk_seq),
        SqlValue::BigInt(fields.input_row_ordinal),
        SqlValue::BigInt(fields.group_queue_id),
        SqlValue::Integer(fields.aggregate_ordinal),
        SqlValue::SmallInt(fields.emit_leg),
        SqlValue::SmallInt(fields.after_kind),
        SqlValue::BigInt(fields.after_chunk_seq),
        SqlValue::BigInt(fields.after_row_ordinal),
    ];
    assert(sql::values(arguments@) =~= field_arguments(*fields));
    arguments
}

/// The authority row as the database returned it.
#[derive(Clone, Copy, Debug, PartialEq, Eq, Structural)]
pub struct AggregateRow {
    pub phase: Option<i16>,
    pub input_stream_id: Option<i64>,
    pub input_chunk_seq: Option<i64>,
    pub input_row_ordinal: Option<i64>,
    pub group_queue_id: Option<i64>,
    pub aggregate_ordinal: Option<i32>,
    pub emit_leg: Option<i16>,
    pub after_kind: Option<i16>,
    pub after_chunk_seq: Option<i64>,
    pub after_row_ordinal: Option<i64>,
}

impl AggregateRow {
    /// The types of the columns, in order.
    pub open spec fn kinds() -> Seq<CellKind> {
        seq![
            CellKind::SmallInt,
            CellKind::BigInt,
            CellKind::BigInt,
            CellKind::BigInt,
            CellKind::BigInt,
            CellKind::Integer,
            CellKind::SmallInt,
            CellKind::SmallInt,
            CellKind::BigInt,
            CellKind::BigInt,
        ]
    }

    pub fn column_kinds() -> (kinds: Vec<CellKind>)
        ensures
            kinds@ == AggregateRow::kinds(),
    {
        vec![
            CellKind::SmallInt,
            CellKind::BigInt,
            CellKind::BigInt,
            CellKind::BigInt,
            CellKind::BigInt,
            CellKind::Integer,
            CellKind::SmallInt,
            CellKind::SmallInt,
            CellKind::BigInt,
            CellKind::BigInt,
        ]
    }

    /// The columns of the first returned row, in order.
    pub open spec fn of(rows: Seq<Row>) -> AggregateRow {
        AggregateRow {
            phase: session::smallint(rows, 1),
            input_stream_id: session::bigint(rows, 2),
            input_chunk_seq: session::bigint(rows, 3),
            input_row_ordinal: session::bigint(rows, 4),
            group_queue_id: session::bigint(rows, 5),
            aggregate_ordinal: session::integer(rows, 6),
            emit_leg: session::smallint(rows, 7),
            after_kind: session::smallint(rows, 8),
            after_chunk_seq: session::bigint(rows, 9),
            after_row_ordinal: session::bigint(rows, 10),
        }
    }

    pub fn read(rows: &Vec<Row>) -> (row: AggregateRow)
        ensures
            row == AggregateRow::of(rows@),
    {
        AggregateRow {
            phase: session::first_smallint(rows, 1),
            input_stream_id: session::first_bigint(rows, 2),
            input_chunk_seq: session::first_bigint(rows, 3),
            input_row_ordinal: session::first_bigint(rows, 4),
            group_queue_id: session::first_bigint(rows, 5),
            aggregate_ordinal: session::first_integer(rows, 6),
            emit_leg: session::first_smallint(rows, 7),
            after_kind: session::first_smallint(rows, 8),
            after_chunk_seq: session::first_bigint(rows, 9),
            after_row_ordinal: session::first_bigint(rows, 10),
        }
    }
}

impl AggregateRow {
    pub open spec fn present(self) -> Result<(), Seq<char>> {
        text::both(
            text::checked(database::required_value(self.phase, "Aggregate phase"@)),
            text::checked(
                database::required_value(self.input_stream_id, "Aggregate input stream"@),
            ),
        )
    }

    /// The fields of a row whose required columns are set.
    pub open spec fn fields(self) -> AggregateFields {
        AggregateFields {
            phase: self.phase->0,
            input_stream_id: self.input_stream_id->0,
            input_chunk_seq: self.input_chunk_seq,
            input_row_ordinal: self.input_row_ordinal,
            group_queue_id: self.group_queue_id,
            aggregate_ordinal: self.aggregate_ordinal,
            emit_leg: self.emit_leg,
            after_kind: self.after_kind,
            after_chunk_seq: self.after_chunk_seq,
            after_row_ordinal: self.after_row_ordinal,
        }
    }

    /// The continuation that the row persists.
    pub open spec fn stored(self) -> Result<Option<StoredAggregate>, Seq<char>> {
        match self.present() {
            Err(message) => Err(message),
            Ok(()) => match self.fields().continuation() {
                Err(message) => Err(message),
                Ok(value) => Ok(Some(StoredAggregate { value, persisted: true })),
            },
        }
    }
}

/// The stored continuation, if there is one.
pub open spec fn loaded(
    count: usize,
    row: AggregateRow,
) -> Result<Option<StoredAggregate>, Seq<char>> {
    match continuation::authority(count, "Aggregate"@) {
        Err(message) => Err(message),
        Ok(false) => Ok(None),
        Ok(true) => row.stored(),
    }
}

/// Loads the continuation of a stage: none, or the one that is persisted.
pub fn load_execute_continuation(count: usize, row: &AggregateRow) -> (outcome: Result<
    Option<StoredAggregate>,
    String,
>)
    ensures
        text::agrees(outcome, loaded(count, *row)),
{
    if !lock_one(count, "Aggregate")? {
        return Ok(None);
    }
    let fields = AggregateFields {
        phase: required(row.phase, "Aggregate phase")?,
        input_stream_id: required(row.input_stream_id, "Aggregate input stream")?,
        input_chunk_seq: row.input_chunk_seq,
        input_row_ordinal: row.input_row_ordinal,
        group_queue_id: row.group_queue_id,
        aggregate_ordinal: row.aggregate_ordinal,
        emit_leg: row.emit_leg,
        after_kind: row.after_kind,
        after_chunk_seq: row.after_chunk_seq,
        after_row_ordinal: row.after_row_ordinal,
    };
    Ok(Some(StoredAggregate { value: decode_execute_fields(fields)?, persisted: true }))
}

} // verus!
