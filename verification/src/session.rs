//! The conversation of a step with its transaction: what it asks for, the rows
//! that come back, and how far it has come.

use vstd::prelude::*;

use crate::execution::contract::OutputFacts;
use crate::execution::stream::{ChunkMeta, OutputAppendTarget};
use crate::planner::WorkUsage;
use crate::sql::{Statement, StatementModel};
use crate::text::{self, fail};

verus! {

/// One scalar of a returned row.
#[derive(Clone, Debug, PartialEq, Eq)]
pub enum Cell {
    Null,
    Boolean(bool),
    SmallInt(i16),
    Integer(i32),
    BigInt(i64),
    Text(String),
    Oid(u32),
}

/// The type of a column.
#[derive(Clone, Copy, Debug, PartialEq, Eq, Structural)]
pub enum CellKind {
    Boolean,
    SmallInt,
    Integer,
    BigInt,
    Text,
    Oid,
}

impl Cell {
    /// Whether a scalar can stand in a column of a type: it is NULL or of it.
    pub open spec fn fits(self, kind: CellKind) -> bool {
        match self {
            Cell::Null => true,
            Cell::Boolean(_) => kind is Boolean,
            Cell::SmallInt(_) => kind is SmallInt,
            Cell::Integer(_) => kind is Integer,
            Cell::BigInt(_) => kind is BigInt,
            Cell::Text(_) => kind is Text,
            Cell::Oid(_) => kind is Oid,
        }
    }

    pub fn stands_in(&self, kind: CellKind) -> (stands: bool)
        ensures
            stands == self.fits(kind),
    {
        match self {
            Cell::Null => true,
            Cell::Boolean(_) => kind == CellKind::Boolean,
            Cell::SmallInt(_) => kind == CellKind::SmallInt,
            Cell::Integer(_) => kind == CellKind::Integer,
            Cell::BigInt(_) => kind == CellKind::BigInt,
            Cell::Text(_) => kind == CellKind::Text,
            Cell::Oid(_) => kind == CellKind::Oid,
        }
    }
}

/// One returned row.
#[derive(Clone, Debug, PartialEq, Eq)]
pub struct Row {
    pub cells: Vec<Cell>,
}

impl Row {
    /// A column by its number, which counts from one; a column that is not
    /// there is NULL.
    pub open spec fn cell(self, column: int) -> Cell {
        if 0 < column <= self.cells.len() {
            self.cells[column - 1]
        } else {
            Cell::Null
        }
    }

    /// The `boolean` of a column. A column of another type reads as NULL.
    pub open spec fn boolean(self, column: int) -> Option<bool> {
        match self.cell(column) {
            Cell::Boolean(value) => Some(value),
            _ => None,
        }
    }

    /// The `smallint` of a column.
    pub open spec fn smallint(self, column: int) -> Option<i16> {
        match self.cell(column) {
            Cell::SmallInt(value) => Some(value),
            _ => None,
        }
    }

    /// The `integer` of a column.
    pub open spec fn integer(self, column: int) -> Option<i32> {
        match self.cell(column) {
            Cell::Integer(value) => Some(value),
            _ => None,
        }
    }

    /// The `bigint` of a column.
    pub open spec fn bigint(self, column: int) -> Option<i64> {
        match self.cell(column) {
            Cell::BigInt(value) => Some(value),
            _ => None,
        }
    }

    /// The `text` of a column.
    pub open spec fn text(self, column: int) -> Option<String> {
        match self.cell(column) {
            Cell::Text(value) => Some(value),
            _ => None,
        }
    }

    /// The `oid` of a column.
    pub open spec fn oid(self, column: int) -> Option<u32> {
        match self.cell(column) {
            Cell::Oid(value) => Some(value),
            _ => None,
        }
    }

    pub fn get_boolean(&self, column: usize) -> (value: Option<bool>)
        ensures
            value == self.boolean(column as int),
    {
        if column == 0 || column > self.cells.len() {
            return None;
        }
        match &self.cells[column - 1] {
            Cell::Boolean(value) => Some(*value),
            _ => None,
        }
    }

    pub fn get_smallint(&self, column: usize) -> (value: Option<i16>)
        ensures
            value == self.smallint(column as int),
    {
        if column == 0 || column > self.cells.len() {
            return None;
        }
        match &self.cells[column - 1] {
            Cell::SmallInt(value) => Some(*value),
            _ => None,
        }
    }

    pub fn get_integer(&self, column: usize) -> (value: Option<i32>)
        ensures
            value == self.integer(column as int),
    {
        if column == 0 || column > self.cells.len() {
            return None;
        }
        match &self.cells[column - 1] {
            Cell::Integer(value) => Some(*value),
            _ => None,
        }
    }

    pub fn get_bigint(&self, column: usize) -> (value: Option<i64>)
        ensures
            value == self.bigint(column as int),
    {
        if column == 0 || column > self.cells.len() {
            return None;
        }
        match &self.cells[column - 1] {
            Cell::BigInt(value) => Some(*value),
            _ => None,
        }
    }

    pub fn get_text(&self, column: usize) -> (value: Option<String>)
        ensures
            value == self.text(column as int),
    {
        if column == 0 || column > self.cells.len() {
            return None;
        }
        match &self.cells[column - 1] {
            Cell::Text(value) => Some(value.clone()),
            _ => None,
        }
    }

    pub fn get_oid(&self, column: usize) -> (value: Option<u32>)
        ensures
            value == self.oid(column as int),
    {
        if column == 0 || column > self.cells.len() {
            return None;
        }
        match &self.cells[column - 1] {
            Cell::Oid(value) => Some(*value),
            _ => None,
        }
    }
}

/// A reply of one row or more that came back without one.
pub const EMPTY: &'static str = "a statement that always answers returned no row";

/// A reply whose columns are not those that were asked for.
pub const MISTYPED: &'static str = "a statement returned a column of another type";

impl Row {
    /// Whether a row has columns of these types, in this order.
    pub open spec fn fits(self, kinds: Seq<CellKind>) -> bool {
        &&& kinds.len() <= self.cells.len()
        &&& forall|index: int|
            0 <= index < kinds.len() ==> (#[trigger] self.cells[index]).fits(kinds[index])
    }

    pub fn stands_in(&self, kinds: &Vec<CellKind>) -> (stands: bool)
        ensures
            stands == self.fits(kinds@),
    {
        if kinds.len() > self.cells.len() {
            return false;
        }
        let mut index: usize = 0;
        while index < kinds.len()
            invariant
                index <= kinds.len() <= self.cells.len(),
                forall|before: int|
                    0 <= before < index ==> (#[trigger] self.cells[before]).fits(kinds[before]),
            decreases kinds.len() - index,
        {
            if !self.cells[index].stands_in(kinds[index]) {
                assert(!self.cells[index as int].fits(kinds[index as int]));
                return false;
            }
            index = index + 1;
        }
        true
    }
}

/// Whether the row of a reply of one row has columns of these types.
pub open spec fn columns(rows: Seq<Row>, kinds: Seq<CellKind>) -> Result<(), Seq<char>> {
    text::holds(rows.len() == 1 ==> rows[0].fits(kinds), MISTYPED@)
}

pub fn require_columns(rows: &Vec<Row>, kinds: &Vec<CellKind>) -> (outcome: Result<(), String>)
    ensures
        text::agrees(outcome, columns(rows@, kinds@)),
{
    if rows.len() == 1 && !rows[0].stands_in(kinds) {
        return fail(MISTYPED);
    }
    Ok(())
}

/// Whether the row of a reply of one row begins with a `bigint`.
pub open spec fn bigint_column(rows: Seq<Row>) -> Result<(), Seq<char>> {
    columns(rows, seq![CellKind::BigInt])
}

pub fn require_bigint_column(rows: &Vec<Row>) -> (outcome: Result<(), String>)
    ensures
        text::agrees(outcome, bigint_column(rows@)),
{
    let kinds = vec![CellKind::BigInt];
    assert(kinds@ =~= seq![CellKind::BigInt]);
    require_columns(rows, &kinds)
}

/// Whether every row of a reply has columns of these types.
pub open spec fn all_columns(rows: Seq<Row>, kinds: Seq<CellKind>) -> Result<(), Seq<char>> {
    text::holds(
        forall|index: int| 0 <= index < rows.len() ==> (#[trigger] rows[index]).fits(kinds),
        MISTYPED@,
    )
}

pub fn require_all_columns(rows: &Vec<Row>, kinds: &Vec<CellKind>) -> (outcome: Result<(), String>)
    ensures
        text::agrees(outcome, all_columns(rows@, kinds@)),
{
    let mut index: usize = 0;
    while index < rows.len()
        invariant
            index <= rows.len(),
            forall|before: int| 0 <= before < index ==> (#[trigger] rows[before]).fits(kinds@),
        decreases rows.len() - index,
    {
        if !rows[index].stands_in(kinds) {
            assert(!rows[index as int].fits(kinds@));
            return fail(MISTYPED);
        }
        index = index + 1;
    }
    Ok(())
}

/// Whether the first row of a reply has a column of a type.
pub open spec fn answered(rows: Seq<Row>, column: int, kind: CellKind) -> Result<(), Seq<char>> {
    text::both(
        text::holds(rows.len() > 0, EMPTY@),
        text::holds(
            0 < column <= rows[0].cells.len() && rows[0].cells[column - 1].fits(kind),
            MISTYPED@,
        ),
    )
}

fn require_answer(rows: &Vec<Row>, column: usize, kind: CellKind) -> (outcome: Result<(), String>)
    ensures
        text::agrees(outcome, answered(rows@, column as int, kind)),
{
    if rows.len() == 0 {
        return fail(EMPTY);
    }
    if column == 0 || column > rows[0].cells.len() || !rows[0].cells[column - 1].stands_in(kind) {
        return fail(MISTYPED);
    }
    Ok(())
}

/// The `boolean` that a statement answers, or NULL.
pub open spec fn boolean_answer(rows: Seq<Row>, column: int) -> Result<Option<bool>, Seq<char>> {
    text::guarded(answered(rows, column, CellKind::Boolean), boolean(rows, column))
}

/// The `integer` that a statement answers, or NULL.
pub open spec fn integer_answer(rows: Seq<Row>, column: int) -> Result<Option<i32>, Seq<char>> {
    text::guarded(answered(rows, column, CellKind::Integer), integer(rows, column))
}

/// The `bigint` that a statement answers, or NULL.
pub open spec fn bigint_answer(rows: Seq<Row>, column: int) -> Result<Option<i64>, Seq<char>> {
    text::guarded(answered(rows, column, CellKind::BigInt), bigint(rows, column))
}

pub fn answered_boolean(rows: &Vec<Row>, column: usize) -> (outcome: Result<Option<bool>, String>)
    ensures
        text::agrees(outcome, boolean_answer(rows@, column as int)),
{
    require_answer(rows, column, CellKind::Boolean)?;
    Ok(first_boolean(rows, column))
}

pub fn answered_integer(rows: &Vec<Row>, column: usize) -> (outcome: Result<Option<i32>, String>)
    ensures
        text::agrees(outcome, integer_answer(rows@, column as int)),
{
    require_answer(rows, column, CellKind::Integer)?;
    Ok(first_integer(rows, column))
}

pub fn answered_bigint(rows: &Vec<Row>, column: usize) -> (outcome: Result<Option<i64>, String>)
    ensures
        text::agrees(outcome, bigint_answer(rows@, column as int)),
{
    require_answer(rows, column, CellKind::BigInt)?;
    Ok(first_bigint(rows, column))
}

/// A column of the first returned row. Where no row came back, and where the
/// column is of another type, it reads as NULL: what takes NULL for a value
/// checks the rows and their columns first, and what does not refuses it.
pub open spec fn boolean(rows: Seq<Row>, column: int) -> Option<bool> {
    if rows.len() > 0 {
        rows[0].boolean(column)
    } else {
        None
    }
}

pub open spec fn smallint(rows: Seq<Row>, column: int) -> Option<i16> {
    if rows.len() > 0 {
        rows[0].smallint(column)
    } else {
        None
    }
}

pub open spec fn integer(rows: Seq<Row>, column: int) -> Option<i32> {
    if rows.len() > 0 {
        rows[0].integer(column)
    } else {
        None
    }
}

pub open spec fn bigint(rows: Seq<Row>, column: int) -> Option<i64> {
    if rows.len() > 0 {
        rows[0].bigint(column)
    } else {
        None
    }
}

pub open spec fn text(rows: Seq<Row>, column: int) -> Option<String> {
    if rows.len() > 0 {
        rows[0].text(column)
    } else {
        None
    }
}

pub open spec fn oid(rows: Seq<Row>, column: int) -> Option<u32> {
    if rows.len() > 0 {
        rows[0].oid(column)
    } else {
        None
    }
}

pub fn first_boolean(rows: &Vec<Row>, column: usize) -> (value: Option<bool>)
    ensures
        value == boolean(rows@, column as int),
{
    if rows.len() > 0 {
        rows[0].get_boolean(column)
    } else {
        None
    }
}

pub fn first_smallint(rows: &Vec<Row>, column: usize) -> (value: Option<i16>)
    ensures
        value == smallint(rows@, column as int),
{
    if rows.len() > 0 {
        rows[0].get_smallint(column)
    } else {
        None
    }
}

pub fn first_integer(rows: &Vec<Row>, column: usize) -> (value: Option<i32>)
    ensures
        value == integer(rows@, column as int),
{
    if rows.len() > 0 {
        rows[0].get_integer(column)
    } else {
        None
    }
}

pub fn first_bigint(rows: &Vec<Row>, column: usize) -> (value: Option<i64>)
    ensures
        value == bigint(rows@, column as int),
{
    if rows.len() > 0 {
        rows[0].get_bigint(column)
    } else {
        None
    }
}

pub fn first_text(rows: &Vec<Row>, column: usize) -> (value: Option<String>)
    ensures
        value == text(rows@, column as int),
{
    if rows.len() > 0 {
        rows[0].get_text(column)
    } else {
        None
    }
}

pub fn first_oid(rows: &Vec<Row>, column: usize) -> (value: Option<u32>)
    ensures
        value == oid(rows@, column as int),
{
    if rows.len() > 0 {
        rows[0].get_oid(column)
    } else {
        None
    }
}

/// What a step asks of its transaction.
#[derive(Clone, Debug, PartialEq, Eq)]
pub enum Request {
    /// Rows of a statement that only reads.
    Read(Statement),
    /// Rows of a statement that only reads, and none where it fails.
    Probe(Statement),
    /// Rows of a statement that changes rows.
    Write(Statement),
    /// Rows of a query that locks what it returns.
    Lock(Statement),
    /// Checks that a stored continuation agrees with the catalog of the stage.
    Authority { present: bool },
    /// The chunk at the consumer cursor of an input.
    Next { port: u16 },
    /// A chunk of an input by its sequence number.
    Chunk { port: u16, sequence: i64 },
    /// Checks the stored rows of a chunk against its summary.
    Measure { port: u16, chunk: ChunkMeta },
    /// The chunk that so many output rows and bytes go to.
    Target { rows: u64, bytes: u64 },
    /// Whether admitted work makes a drain due.
    Admit { usage: WorkUsage },
    /// A frontier on the output.
    Frontier { lsn: u64 },
}

/// A request as a mathematical value.
#[verifier::ext_equal]
pub enum RequestModel {
    Read(StatementModel),
    Probe(StatementModel),
    Write(StatementModel),
    Lock(StatementModel),
    Authority { present: bool },
    Next { port: u16 },
    Chunk { port: u16, sequence: i64 },
    Measure { port: u16, chunk: ChunkMeta },
    Target { rows: u64, bytes: u64 },
    Admit { usage: WorkUsage },
    Frontier { lsn: u64 },
}

impl View for Request {
    type V = RequestModel;

    open spec fn view(&self) -> RequestModel {
        match self {
            Request::Read(statement) => RequestModel::Read(statement@),
            Request::Probe(statement) => RequestModel::Probe(statement@),
            Request::Write(statement) => RequestModel::Write(statement@),
            Request::Lock(statement) => RequestModel::Lock(statement@),
            Request::Authority { present } => RequestModel::Authority { present: *present },
            Request::Next { port } => RequestModel::Next { port: *port },
            Request::Chunk { port, sequence } => RequestModel::Chunk {
                port: *port,
                sequence: *sequence,
            },
            Request::Measure { port, chunk } => RequestModel::Measure {
                port: *port,
                chunk: *chunk,
            },
            Request::Target { rows, bytes } => RequestModel::Target { rows: *rows, bytes: *bytes },
            Request::Admit { usage } => RequestModel::Admit { usage: *usage },
            Request::Frontier { lsn } => RequestModel::Frontier { lsn: *lsn },
        }
    }
}

/// The answer to a request.
#[derive(Clone, Debug, PartialEq, Eq)]
pub enum Reply {
    Rows(Vec<Row>),
    /// A check that held.
    Checked,
    Chunk(Option<ChunkMeta>),
    Target(OutputAppendTarget),
    Drain(bool),
    Output(OutputFacts),
}

impl Reply {
    /// A chunk that came back has a sequence number behind it.
    pub open spec fn bounded(self) -> bool {
        self matches Reply::Chunk(Some(chunk)) ==> chunk.sequence < i64::MAX
    }
}

pub const MISPLACED: &'static str = "a step was answered with another kind of reply";

/// How far a step has come: it waits for an answer, or it is done.
#[derive(Clone, Debug, PartialEq, Eq)]
pub enum Progress<S, C> {
    Ask { state: S, request: Request },
    Done(C),
}

/// Progress as a mathematical value.
#[verifier::ext_equal]
pub enum ProgressModel<S, C> {
    Ask { state: S, request: RequestModel },
    Done(C),
}

impl<S, C> View for Progress<S, C> {
    type V = ProgressModel<S, C>;

    open spec fn view(&self) -> ProgressModel<S, C> {
        match self {
            Progress::Ask { state, request } => ProgressModel::Ask {
                state: *state,
                request: request@,
            },
            Progress::Done(outcome) => ProgressModel::Done(*outcome),
        }
    }
}

/// A cell is read under its own type and no other, by its place among the
/// columns; a cell that is null, or beyond the last column, is read as nothing.
pub proof fn cells_are_read_by_their_types(row: Row, column: int)
    ensures
        0 < column <= row.cells@.len() ==> match row.cells@[column - 1] {
            Cell::Boolean(value) => row.boolean(column) == Some(value),
            Cell::SmallInt(value) => row.smallint(column) == Some(value),
            Cell::Integer(value) => row.integer(column) == Some(value),
            Cell::BigInt(value) => row.bigint(column) == Some(value),
            Cell::Text(value) => row.text(column) == Some(value),
            Cell::Oid(value) => row.oid(column) == Some(value),
            Cell::Null => true,
        },
        row.boolean(column) matches Some(value) ==> 0 < column <= row.cells@.len()
            && row.cells@[column - 1] == Cell::Boolean(value),
        row.smallint(column) matches Some(value) ==> 0 < column <= row.cells@.len()
            && row.cells@[column - 1] == Cell::SmallInt(value),
        row.integer(column) matches Some(value) ==> 0 < column <= row.cells@.len()
            && row.cells@[column - 1] == Cell::Integer(value),
        row.bigint(column) matches Some(value) ==> 0 < column <= row.cells@.len()
            && row.cells@[column - 1] == Cell::BigInt(value),
        row.text(column) matches Some(value) ==> 0 < column <= row.cells@.len()
            && row.cells@[column - 1] == Cell::Text(value),
        row.oid(column) matches Some(value) ==> 0 < column <= row.cells@.len()
            && row.cells@[column - 1] == Cell::Oid(value),
{
}

/// The first row answers a statement, and there is no answer without a row.
pub proof fn first_row_answers(rows: Seq<Row>, column: int)
    ensures
        rows.len() > 0 ==> {
            &&& boolean(rows, column) == rows.first().boolean(column)
            &&& smallint(rows, column) == rows.first().smallint(column)
            &&& integer(rows, column) == rows.first().integer(column)
            &&& bigint(rows, column) == rows.first().bigint(column)
            &&& text(rows, column) == rows.first().text(column)
            &&& oid(rows, column) == rows.first().oid(column)
        },
        rows.len() == 0 ==> {
            &&& boolean(rows, column) is None && smallint(rows, column) is None
            &&& integer(rows, column) is None && bigint(rows, column) is None
            &&& text(rows, column) is None && oid(rows, column) is None
            &&& boolean_answer(rows, column) is Err && integer_answer(rows, column) is Err
            &&& bigint_answer(rows, column) is Err
        },
        bigint_answer(rows, column) matches Ok(answer) ==> answer == bigint(rows, column),
        boolean_answer(rows, column) matches Ok(answer) ==> answer == boolean(rows, column),
        integer_answer(rows, column) matches Ok(answer) ==> answer == integer(rows, column),
        bigint(rows, column) is Some ==> bigint_answer(rows, column) is Ok,
        boolean(rows, column) is Some ==> boolean_answer(rows, column) is Ok,
        integer(rows, column) is Some ==> integer_answer(rows, column) is Ok,
{
}

} // verus!
