//! The persisted form of the cursors of a linear stage.

use vstd::prelude::*;

use crate::database::{self, required};
use crate::execution::continuation::{self, replace_cas, Column, Replacement};
use crate::execution::linear::machine::{
    validate_scan_continuation, validate_transform_continuation, ScanContinuation, ScanPhase,
    TransformContinuation,
};
use crate::postgres::{self, format_lsn, parse_lsn};
use crate::session::{self, CellKind, Row};
use crate::sql::{self, SqlModel, SqlValue, BOOLOID, INT2OID, INT8OID, PG_LSNOID};
use crate::text;

verus! {

/// The columns of a Scan continuation relation.
pub open spec fn scan_abi() -> Seq<Column> {
    seq![
        Column::required("singleton", BOOLOID),
        Column::required("phase", INT2OID),
        Column::required("input_stream_id", INT8OID),
        Column::nullable("input_chunk_seq", INT8OID),
        Column::nullable("next_row_ordinal", INT8OID),
        Column::nullable("next_bootstrap_seq", INT8OID),
        Column::nullable_as("pending_frontier_lsn", PG_LSNOID, "pg_lsn"),
    ]
}

pub fn scan_columns() -> (list: Vec<Column>)
    ensures
        list@ == scan_abi(),
{
    let list = vec![
        Column::required("singleton", BOOLOID),
        Column::required("phase", INT2OID),
        Column::required("input_stream_id", INT8OID),
        Column::nullable("input_chunk_seq", INT8OID),
        Column::nullable("next_row_ordinal", INT8OID),
        Column::nullable("next_bootstrap_seq", INT8OID),
        Column::nullable_as("pending_frontier_lsn", PG_LSNOID, "pg_lsn"),
    ];
    assert(list@ =~= scan_abi());
    list
}

/// The columns of a Filter or Project continuation relation.
pub open spec fn transform_abi() -> Seq<Column> {
    seq![
        Column::required("singleton", BOOLOID),
        Column::required("input_stream_id", INT8OID),
        Column::required("input_chunk_seq", INT8OID),
        Column::required("next_row_ordinal", INT8OID),
    ]
}

pub fn transform_columns() -> (list: Vec<Column>)
    ensures
        list@ == transform_abi(),
{
    let list = vec![
        Column::required("singleton", BOOLOID),
        Column::required("input_stream_id", INT8OID),
        Column::required("input_chunk_seq", INT8OID),
        Column::required("next_row_ordinal", INT8OID),
    ];
    assert(list@ =~= transform_abi());
    list
}

/// The columns that a stored Scan continuation is read from.
pub const SCAN_SELECT: &'static str =
    "phase,input_stream_id,input_chunk_seq,next_row_ordinal,next_bootstrap_seq,pending_frontier_lsn::text";

/// The columns that a stored Filter or Project continuation is read from.
pub const TRANSFORM_SELECT: &'static str = "input_stream_id,input_chunk_seq,next_row_ordinal";

/// A locked Scan continuation row as the database returned it.
#[derive(Clone, Debug, PartialEq, Eq)]
pub struct ScanRow {
    pub phase: Option<i16>,
    pub input_stream_id: Option<i64>,
    pub input_chunk_seq: Option<i64>,
    pub next_row_ordinal: Option<i64>,
    pub next_bootstrap_seq: Option<i64>,
    pub pending_frontier_lsn: Option<String>,
}

impl ScanRow {
    /// The types of the columns, in order.
    pub open spec fn kinds() -> Seq<CellKind> {
        seq![
            CellKind::SmallInt,
            CellKind::BigInt,
            CellKind::BigInt,
            CellKind::BigInt,
            CellKind::BigInt,
            CellKind::Text,
        ]
    }

    pub fn column_kinds() -> (kinds: Vec<CellKind>)
        ensures
            kinds@ == ScanRow::kinds(),
    {
        vec![
            CellKind::SmallInt,
            CellKind::BigInt,
            CellKind::BigInt,
            CellKind::BigInt,
            CellKind::BigInt,
            CellKind::Text,
        ]
    }

    /// The columns of the first returned row, in order.
    pub open spec fn of(rows: Seq<Row>) -> ScanRow {
        ScanRow {
            phase: session::smallint(rows, 1),
            input_stream_id: session::bigint(rows, 2),
            input_chunk_seq: session::bigint(rows, 3),
            next_row_ordinal: session::bigint(rows, 4),
            next_bootstrap_seq: session::bigint(rows, 5),
            pending_frontier_lsn: session::text(rows, 6),
        }
    }

    pub fn read(rows: &Vec<Row>) -> (row: ScanRow)
        ensures
            row == ScanRow::of(rows@),
    {
        ScanRow {
            phase: session::first_smallint(rows, 1),
            input_stream_id: session::first_bigint(rows, 2),
            input_chunk_seq: session::first_bigint(rows, 3),
            next_row_ordinal: session::first_bigint(rows, 4),
            next_bootstrap_seq: session::first_bigint(rows, 5),
            pending_frontier_lsn: session::first_text(rows, 6),
        }
    }
}

/// The LSN of an optional text column.
pub open spec fn optional_lsn(value: Option<Seq<char>>) -> Result<Option<u64>, Seq<char>> {
    match value {
        None => Ok(None),
        Some(text) => match postgres::lsn_value(text) {
            Some(lsn) => Ok(Some(lsn as u64)),
            None => Err(
                "invalid Scan continuation LSN: malformed LSN "@ + postgres::quoted(text),
            ),
        },
    }
}

impl ScanRow {
    /// The continuation that the row holds.
    pub open spec fn continuation(self) -> Result<ScanContinuation, Seq<char>> {
        match optional_lsn(sql::text_model(self.pending_frontier_lsn)) {
            Err(message) => Err(message),
            Ok(pending_frontier_lsn) => match database::required_value(
                self.phase,
                "Scan phase"@,
            ) {
                Err(message) => Err(message),
                Ok(raw) => match (
                    ScanPhase::decoded(raw),
                    database::required_value(self.input_stream_id, "Scan input stream"@),
                ) {
                    (Err(message), _) => Err(message),
                    (_, Err(message)) => Err(message),
                    (Ok(phase), Ok(input_stream_id)) => Ok(
                        ScanContinuation {
                            phase,
                            input_stream_id,
                            input_chunk_seq: self.input_chunk_seq,
                            next_row_ordinal: self.next_row_ordinal,
                            next_bootstrap_seq: self.next_bootstrap_seq,
                            pending_frontier_lsn,
                        },
                    ),
                },
            },
        }
    }
}

fn decode_lsn(value: &Option<String>) -> (outcome: Result<Option<u64>, String>)
    ensures
        text::agrees(outcome, optional_lsn(sql::text_model(*value))),
{
    match value {
        None => Ok(None),
        Some(lsn) => match parse_lsn(lsn.as_str()) {
            Ok(lsn) => Ok(Some(lsn)),
            Err(error) => {
                let message = "invalid Scan continuation LSN: ".to_owned().concat(error.as_str());
                proof {
                    reveal_strlit("invalid Scan continuation LSN: ");
                    reveal_strlit("malformed LSN ");
                    reveal_strlit("invalid Scan continuation LSN: malformed LSN ");
                    assert(message@ =~= "invalid Scan continuation LSN: malformed LSN "@
                        + postgres::quoted(lsn@));
                }
                Err(message)
            },
        },
    }
}

/// Decodes a locked Scan continuation row.
pub fn load_scan_continuation(row: &ScanRow) -> (outcome: Result<ScanContinuation, String>)
    ensures
        text::agrees(outcome, row.continuation()),
{
    let pending_frontier_lsn = decode_lsn(&row.pending_frontier_lsn)?;
    let phase = ScanPhase::decode(required(row.phase, "Scan phase")?)?;
    let input_stream_id: i64 = required(row.input_stream_id, "Scan input stream")?;
    Ok(
        ScanContinuation {
            phase,
            input_stream_id,
            input_chunk_seq: row.input_chunk_seq,
            next_row_ordinal: row.next_row_ordinal,
            next_bootstrap_seq: row.next_bootstrap_seq,
            pending_frontier_lsn,
        },
    )
}

/// A locked Filter or Project continuation row as the database returned it.
#[derive(Clone, Copy, Debug, PartialEq, Eq, Structural)]
pub struct TransformRow {
    pub input_stream_id: Option<i64>,
    pub input_chunk_seq: Option<i64>,
    pub next_row_ordinal: Option<i64>,
}

impl TransformRow {
    /// The columns of the first returned row, in order.
    pub open spec fn of(rows: Seq<Row>) -> TransformRow {
        TransformRow {
            input_stream_id: session::bigint(rows, 1),
            input_chunk_seq: session::bigint(rows, 2),
            next_row_ordinal: session::bigint(rows, 3),
        }
    }

    pub fn read(rows: &Vec<Row>) -> (row: TransformRow)
        ensures
            row == TransformRow::of(rows@),
    {
        TransformRow {
            input_stream_id: session::first_bigint(rows, 1),
            input_chunk_seq: session::first_bigint(rows, 2),
            next_row_ordinal: session::first_bigint(rows, 3),
        }
    }
}

impl TransformRow {
    /// The continuation that the row holds.
    pub open spec fn continuation(self) -> Result<TransformContinuation, Seq<char>> {
        text::guarded(
            text::three(
                text::checked(
                    database::required_value(self.input_stream_id, "linear input stream"@),
                ),
                text::checked(
                    database::required_value(self.input_chunk_seq, "linear input chunk"@),
                ),
                text::checked(
                    database::required_value(self.next_row_ordinal, "linear row cursor"@),
                ),
            ),
            TransformContinuation {
                input_stream_id: self.input_stream_id->0,
                input_chunk_seq: self.input_chunk_seq->0,
                next_row_ordinal: self.next_row_ordinal->0,
            },
        )
    }
}

/// Decodes a locked Filter or Project continuation row.
pub fn load_transform_continuation(row: &TransformRow) -> (outcome: Result<
    TransformContinuation,
    String,
>)
    ensures
        text::agrees(outcome, row.continuation()),
{
    Ok(
        TransformContinuation {
            input_stream_id: required(row.input_stream_id, "linear input stream")?,
            input_chunk_seq: required(row.input_chunk_seq, "linear input chunk")?,
            next_row_ordinal: required(row.next_row_ordinal, "linear row cursor")?,
        },
    )
}

/// The statement arguments that carry a Scan continuation, in column order.
pub open spec fn scan_fields(value: ScanContinuation) -> Seq<SqlModel> {
    seq![
        SqlModel::SmallInt(Some(value.phase.number())),
        SqlModel::BigInt(Some(value.input_stream_id)),
        SqlModel::BigInt(value.input_chunk_seq),
        SqlModel::BigInt(value.next_row_ordinal),
        SqlModel::BigInt(value.next_bootstrap_seq),
        SqlModel::Text(
            match value.pending_frontier_lsn {
                Some(lsn) => Some(postgres::lsn_text(lsn)),
                None => None,
            },
        ),
    ]
}

pub fn scan_arguments(value: &ScanContinuation) -> (arguments: Vec<SqlValue>)
    ensures
        sql::values(arguments@) == scan_fields(*value),
{
    let frontier = match value.pending_frontier_lsn {
        Some(lsn) => Some(format_lsn(lsn)),
        None => None,
    };
    let arguments = vec![
        SqlValue::SmallInt(Some(value.phase.code())),
        SqlValue::BigInt(Some(value.input_stream_id)),
        SqlValue::BigInt(value.input_chunk_seq),
        SqlValue::BigInt(value.next_row_ordinal),
        SqlValue::BigInt(value.next_bootstrap_seq),
        SqlValue::Text(frontier),
    ];
    assert(sql::values(arguments@) =~= scan_fields(*value));
    arguments
}

/// The statement arguments that carry a Filter or Project continuation.
pub open spec fn transform_fields(value: TransformContinuation) -> Seq<SqlModel> {
    seq![
        SqlModel::BigInt(Some(value.input_stream_id)),
        SqlModel::BigInt(Some(value.input_chunk_seq)),
        SqlModel::BigInt(Some(value.next_row_ordinal)),
    ]
}

pub fn transform_arguments(value: TransformContinuation) -> (arguments: Vec<SqlValue>)
    ensures
        sql::values(arguments@) == transform_fields(value),
{
    let arguments = vec![
        SqlValue::BigInt(Some(value.input_stream_id)),
        SqlValue::BigInt(Some(value.input_chunk_seq)),
        SqlValue::BigInt(Some(value.next_row_ordinal)),
    ];
    assert(sql::values(arguments@) =~= transform_fields(value));
    arguments
}

/// The fields of an optional Scan continuation.
pub open spec fn optional_scan_fields(value: Option<ScanContinuation>) -> Option<Seq<SqlModel>> {
    match value {
        Some(value) => Some(scan_fields(value)),
        None => None,
    }
}

/// Plans the replacement of a Scan continuation. A successor that does not
/// have the fields of its phase is refused.
pub fn replace_scan_continuation(
    relation: &str,
    previous: Option<ScanContinuation>,
    next: Option<ScanContinuation>,
) -> (outcome: Result<Replacement, String>)
    ensures
        match outcome {
            Ok(replacement) => {
                &&& next matches Some(next) ==> next.sound() is Ok
                &&& continuation::replaces(
                    replacement,
                    relation@,
                    scan_abi(),
                    optional_scan_fields(previous),
                    optional_scan_fields(next),
                )
            },
            Err(error) => next matches Some(next) && next.sound() == Err::<(), Seq<char>>(error@),
        },
{
    if let Some(next) = next {
        validate_scan_continuation(&next)?;
    }
    let before = match previous {
        Some(previous) => Some(scan_arguments(&previous)),
        None => None,
    };
    let after = match next {
        Some(next) => Some(scan_arguments(&next)),
        None => None,
    };
    replace_cas(relation, &scan_columns(), before, after, "Scan")
}

/// The fields of an optional Filter or Project continuation.
pub open spec fn optional_transform_fields(value: Option<TransformContinuation>) -> Option<
    Seq<SqlModel>,
> {
    match value {
        Some(value) => Some(transform_fields(value)),
        None => None,
    }
}

/// Plans the replacement of a Filter or Project continuation. An invalid
/// successor is refused.
pub fn replace_transform_continuation(
    relation: &str,
    previous: Option<TransformContinuation>,
    next: TransformContinuation,
) -> (outcome: Result<Replacement, String>)
    ensures
        match outcome {
            Ok(replacement) => {
                &&& next.sound() is Ok
                &&& continuation::replaces(
                    replacement,
                    relation@,
                    transform_abi(),
                    optional_transform_fields(previous),
                    Some(transform_fields(next)),
                )
            },
            Err(error) => next.sound() == Err::<(), Seq<char>>(error@),
        },
{
    validate_transform_continuation(&next)?;
    let before = match previous {
        Some(previous) => Some(transform_arguments(previous)),
        None => None,
    };
    replace_cas(
        relation,
        &transform_columns(),
        before,
        Some(transform_arguments(next)),
        "linear",
    )
}

} // verus!
