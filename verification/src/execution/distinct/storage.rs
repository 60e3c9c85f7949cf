//! The persisted form of a Distinct continuation.

use vstd::prelude::*;

use crate::database::{self, required};
use crate::execution::continuation::Column;
use crate::execution::contract::InputPosition;
use crate::execution::distinct::machine::{DistinctContinuation, DistinctPhase};
use crate::session::{self, Row};
use crate::sql::{self, SqlModel, SqlValue, BOOLOID, INT2OID, INT8OID};
use crate::text::{self, fail};

verus! {

/// The columns of the continuation relation.
pub open spec fn columns() -> Seq<Column> {
    seq![
        Column::required("singleton", BOOLOID),
        Column::required("phase", INT2OID),
        Column::required("input_stream_id", INT8OID),
        Column::required("input_chunk_seq", INT8OID),
        Column::required("next_row_ordinal", INT8OID),
    ]
}

pub fn continuation_columns() -> (list: Vec<Column>)
    ensures
        list@ == columns(),
{
    let list = vec![
        Column::required("singleton", BOOLOID),
        Column::required("phase", INT2OID),
        Column::required("input_stream_id", INT8OID),
        Column::required("input_chunk_seq", INT8OID),
        Column::required("next_row_ordinal", INT8OID),
    ];
    assert(list@ =~= columns());
    list
}

/// The columns that a stored continuation is read from, in decoding order.
pub const CONTINUATION_SELECT: &'static str =
    "phase,input_stream_id,input_chunk_seq,next_row_ordinal";

/// A continuation and whether its row is already persisted.
#[derive(Clone, Copy, Debug, PartialEq, Eq, Structural)]
pub struct StoredContinuation {
    pub value: DistinctContinuation,
    pub persisted: bool,
}

/// A locked continuation row as the database returned it.
#[derive(Clone, Copy, Debug, PartialEq, Eq, Structural)]
pub struct ContinuationRow {
    pub phase: Option<i16>,
    pub input_stream_id: Option<i64>,
    pub input_chunk_seq: Option<i64>,
    pub next_row_ordinal: Option<i64>,
}

impl ContinuationRow {
    /// The columns of the first returned row, in order.
    pub open spec fn of(rows: Seq<Row>) -> ContinuationRow {
        ContinuationRow {
            phase: session::smallint(rows, 1),
            input_stream_id: session::bigint(rows, 2),
            input_chunk_seq: session::bigint(rows, 3),
            next_row_ordinal: session::bigint(rows, 4),
        }
    }

    pub fn read(rows: &Vec<Row>) -> (row: ContinuationRow)
        ensures
            row == ContinuationRow::of(rows@),
    {
        ContinuationRow {
            phase: session::first_smallint(rows, 1),
            input_stream_id: session::first_bigint(rows, 2),
            input_chunk_seq: session::first_bigint(rows, 3),
            next_row_ordinal: session::first_bigint(rows, 4),
        }
    }
}

/// The persisted number of a phase. A frontier is never persisted.
pub open spec fn phase_number(phase: DistinctPhase) -> Result<i16, Seq<char>> {
    match phase {
        DistinctPhase::Apply => Ok(1),
        DistinctPhase::Drain => Ok(2),
        DistinctPhase::Frontier => Err("Distinct frontier cannot be persisted"@),
    }
}

pub fn phase_code(phase: DistinctPhase) -> (outcome: Result<i16, String>)
    ensures
        text::agrees(outcome, phase_number(phase)),
{
    match phase {
        DistinctPhase::Apply => Ok(1),
        DistinctPhase::Drain => Ok(2),
        DistinctPhase::Frontier => fail("Distinct frontier cannot be persisted"),
    }
}

pub open spec fn phase_decoded(number: i16) -> Result<DistinctPhase, Seq<char>> {
    if number == 1 {
        Ok(DistinctPhase::Apply)
    } else if number == 2 {
        Ok(DistinctPhase::Drain)
    } else {
        Err("Distinct continuation has an invalid phase"@)
    }
}

impl ContinuationRow {
    /// The position that the row holds.
    pub open spec fn position(self) -> Result<InputPosition, Seq<char>> {
        match (
            database::required_value(
                self.input_stream_id,
                "Distinct continuation stream"@,
            ),
            database::required_value(
                self.input_chunk_seq,
                "Distinct continuation chunk"@,
            ),
            database::required_value(self.next_row_ordinal, "Distinct continuation row"@),
        ) {
            (Err(message), _, _) => Err(message),
            (_, Err(message), _) => Err(message),
            (_, _, Err(message)) => Err(message),
            (Ok(stream_id), Ok(chunk_seq), Ok(row_ordinal)) => InputPosition::made(
                stream_id,
                chunk_seq,
                row_ordinal,
            ),
        }
    }

    /// The continuation that the row holds, if it is at the input cursor.
    pub open spec fn continuation(self, stream_id: i64, chunk_seq: i64) -> Result<
        DistinctContinuation,
        Seq<char>,
    > {
        match database::required_value(
            self.phase,
            "Distinct continuation phase"@,
        ) {
            Err(message) => Err(message),
            Ok(number) => match (phase_decoded(number), self.position()) {
                (Err(message), _) => Err(message),
                (_, Err(message)) => Err(message),
                (Ok(phase), Ok(input)) => text::guarded(
                    text::holds(
                        input.stream_id == stream_id && input.chunk_seq == chunk_seq,
                        "Distinct continuation is not at its input cursor"@,
                    ),
                    DistinctContinuation { input, phase },
                ),
            },
        }
    }
}

fn decode_row(row: ContinuationRow, stream_id: i64, chunk_seq: i64) -> (outcome: Result<
    DistinctContinuation,
    String,
>)
    ensures
        text::agrees(outcome, row.continuation(stream_id, chunk_seq)),
{
    let phase = match required(row.phase, "Distinct continuation phase")? {
        1 => DistinctPhase::Apply,
        2 => DistinctPhase::Drain,
        _ => {
            return fail("Distinct continuation has an invalid phase");
        },
    };
    let position = InputPosition::new(
        required(row.input_stream_id, "Distinct continuation stream")?,
        required(row.input_chunk_seq, "Distinct continuation chunk")?,
        required(row.next_row_ordinal, "Distinct continuation row")?,
    )?;
    if position.stream_id != stream_id || position.chunk_seq != chunk_seq {
        return fail("Distinct continuation is not at its input cursor");
    }
    Ok(DistinctContinuation { input: position, phase })
}

/// The stored continuation, or a fresh one at the start of the input chunk.
pub open spec fn loaded(row: Option<ContinuationRow>, stream_id: i64, chunk_seq: i64) -> Result<
    StoredContinuation,
    Seq<char>,
> {
    match row {
        Some(row) => match row.continuation(stream_id, chunk_seq) {
            Ok(value) => Ok(StoredContinuation { value, persisted: true }),
            Err(message) => Err(message),
        },
        None => match InputPosition::made(stream_id, chunk_seq, 0) {
            Ok(input) => Ok(
                StoredContinuation {
                    value: DistinctContinuation { input, phase: DistinctPhase::Apply },
                    persisted: false,
                },
            ),
            Err(message) => Err(message),
        },
    }
}

/// Decodes the locked continuation row, if there is one.
pub fn load_continuation(
    row: Option<ContinuationRow>,
    stream_id: i64,
    chunk_seq: i64,
) -> (outcome: Result<StoredContinuation, String>)
    ensures
        text::agrees(outcome, loaded(row, stream_id, chunk_seq)),
{
    match row {
        Some(row) => {
            let value = decode_row(row, stream_id, chunk_seq)?;
            Ok(StoredContinuation { value, persisted: true })
        },
        None => {
            let input = InputPosition::new(stream_id, chunk_seq, 0)?;
            Ok(
                StoredContinuation {
                    value: DistinctContinuation { input, phase: DistinctPhase::Apply },
                    persisted: false,
                },
            )
        },
    }
}

/// The statement arguments that carry a continuation, in column order.
pub open spec fn arguments_of(continuation: DistinctContinuation) -> Result<
    Seq<SqlModel>,
    Seq<char>,
> {
    match phase_number(continuation.phase) {
        Err(message) => Err(message),
        Ok(phase) => Ok(
            seq![
                SqlModel::SmallInt(Some(phase)),
                SqlModel::BigInt(Some(continuation.input.stream_id)),
                SqlModel::BigInt(Some(continuation.input.chunk_seq)),
                SqlModel::BigInt(Some(continuation.input.row_ordinal)),
            ],
        ),
    }
}

pub fn continuation_arguments(continuation: DistinctContinuation) -> (outcome: Result<
    Vec<SqlValue>,
    String,
>)
    ensures
        match (outcome, arguments_of(continuation)) {
            (Ok(arguments), Ok(expected)) => sql::values(arguments@) == expected,
            (Err(error), Err(message)) => error@ == message,
            _ => false,
        },
{
    let phase: i16 = phase_code(continuation.phase)?;
    let arguments = vec![
        SqlValue::SmallInt(Some(phase)),
        SqlValue::BigInt(Some(continuation.input.stream_id)),
        SqlValue::BigInt(Some(continuation.input.chunk_seq)),
        SqlValue::BigInt(Some(continuation.input.row_ordinal)),
    ];
    assert(sql::values(arguments@) =~= arguments_of(continuation)->Ok_0);
    Ok(arguments)
}

} // verus!
