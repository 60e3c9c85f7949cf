//! Common authority plumbing for operator-local typed continuations.
//!
//! A continuation relation remains an operator-owned, typed table. This module
//! deliberately knows nothing about its phase enum or state fields: it only
//! enforces the common one-row ABI and makes the optimistic delete/insert
//! replacement used by every resumable kernel.

use vstd::prelude::*;

use crate::session::{Progress, ProgressModel, Reply, Request, RequestModel, MISPLACED};
use crate::sql::{self, SqlModel, SqlValue, Statement, StatementModel};
use crate::text::{self, fail, join, same_text, unsigned_text};

verus! {

/// One attribute of a relation or composite type, as the catalog has it.
#[derive(Clone, Debug, PartialEq, Eq)]
pub struct Attribute {
    pub name: String,
    pub number: i16,
    pub type_oid: u32,
    pub typmod: i32,
    pub collation_oid: u32,
    pub not_null: bool,
}

/// One physical continuation column, including the singleton authority row.
#[derive(Clone, Copy, Debug, PartialEq, Eq)]
pub struct Column {
    pub name: &'static str,
    pub type_oid: u32,
    pub not_null: bool,
    /// A trusted, static SQL type name for scalar representations such as a
    /// lossless numeric transported as text.
    pub parameter_cast: Option<&'static str>,
}

impl Column {
    #[verifier::allow_in_spec]
    pub fn required(name: &'static str, type_oid: u32) -> (column: Self)
        returns
            (Column { name, type_oid, not_null: true, parameter_cast: None }),
    {
        Self { name, type_oid, not_null: true, parameter_cast: None }
    }

    #[verifier::allow_in_spec]
    pub fn nullable(name: &'static str, type_oid: u32) -> (column: Self)
        returns
            (Column { name, type_oid, not_null: false, parameter_cast: None }),
    {
        Self { name, type_oid, not_null: false, parameter_cast: None }
    }

    #[verifier::allow_in_spec]
    pub fn nullable_as(
        name: &'static str,
        type_oid: u32,
        parameter_cast: &'static str,
    ) -> (column: Self)
        returns
            (Column { name, type_oid, not_null: false, parameter_cast: Some(parameter_cast) }),
    {
        Self { name, type_oid, not_null: false, parameter_cast: Some(parameter_cast) }
    }

    /// Whether a catalog attribute is exactly this column.
    pub open spec fn is(self, attribute: Attribute) -> bool {
        attribute.name@ == self.name@ && attribute.type_oid == self.type_oid && attribute.not_null
            == self.not_null
    }
}

/// Whether a relation has exactly the columns of a continuation.
pub open spec fn same_columns(attributes: Seq<Attribute>, columns: Seq<Column>) -> bool {
    &&& attributes.len() == columns.len()
    &&& forall|index: int|
        0 <= index < columns.len() ==> (#[trigger] columns[index]).is(attributes[index])
}

/// Checks the exact typed ABI; accepting a merely compatible relation would
/// make a stale catalog row authoritative after a migration.
pub fn validate_abi(
    attributes: &Vec<Attribute>,
    columns: &Vec<Column>,
    owner: &str,
) -> (outcome: Result<(), String>)
    ensures
        text::agrees(
            outcome,
            text::holds(
                same_columns(attributes@, columns@),
                owner@ + " continuation relation has an invalid ABI"@,
            ),
        ),
{
    let mut same = attributes.len() == columns.len();
    let mut index: usize = 0;
    while same && index < columns.len()
        invariant
            index <= columns.len(),
            same ==> attributes.len() == columns.len(),
            same ==> forall|k: int|
                0 <= k < index ==> (#[trigger] columns@[k]).is(attributes@[k]),
            !same ==> !same_columns(attributes@, columns@),
        decreases columns.len() - index,
    {
        let column = columns[index];
        let attribute = &attributes[index];
        if !same_text(attribute.name.as_str(), column.name) || attribute.type_oid
            != column.type_oid || attribute.not_null != column.not_null {
            assert(!columns@[index as int].is(attributes@[index as int]));
            same = false;
        }
        index = index + 1;
    }
    if !same {
        return Err(owner.to_owned().concat(" continuation relation has an invalid ABI"));
    }
    Ok(())
}

/// The query that locks the optional single authority row.
pub open spec fn lock_sql(relation: Seq<char>, select: Seq<char>) -> Seq<char> {
    "SELECT "@ + select + " FROM "@ + relation + " WHERE singleton FOR UPDATE"@
}

pub fn lock_query(relation: &str, select: &str) -> (query: String)
    ensures
        query@ == lock_sql(relation@, select@),
{
    let mut query = "SELECT ".to_owned();
    query.append(select);
    query.append(" FROM ");
    query.append(relation);
    query.append(" WHERE singleton FOR UPDATE");
    query
}

/// Whether the locked authority row exists; more than one row is an error.
pub open spec fn authority(count: usize, owner: Seq<char>) -> Result<bool, Seq<char>> {
    if count <= 1 {
        Ok(count == 1)
    } else {
        Err(
            owner + " continuation relation contains "@ + text::decimal(count as int)
                + " rows"@,
        )
    }
}

/// Decides from the number of locked rows whether one is to be decoded.
pub fn lock_one(count: usize, owner: &str) -> (outcome: Result<bool, String>)
    ensures
        text::agrees(outcome, authority(count, owner@)),
{
    if count <= 1 {
        return Ok(count == 1);
    }
    let mut message = owner.to_owned();
    message.append(" continuation relation contains ");
    message.append(unsigned_text(count as u64).as_str());
    message.append(" rows");
    Err(message)
}

/// The statement that clears a locked authority row.
pub open spec fn clear_sql(relation: Seq<char>) -> Seq<char> {
    "DELETE FROM "@ + relation + " WHERE singleton RETURNING singleton"@
}

pub fn clear_query(relation: &str) -> (query: String)
    ensures
        query@ == clear_sql(relation@),
{
    let mut query = "DELETE FROM ".to_owned();
    query.append(relation);
    query.append(" WHERE singleton RETURNING singleton");
    query
}

/// What one statement of a replacement must do: return exactly one row.
pub open spec fn one_replaced(count: usize, owner: Seq<char>, failure: Seq<char>) -> Result<
    (),
    Seq<char>,
> {
    text::holds(count == 1, owner + failure)
}

fn require_replaced(count: usize, owner: &str, failure: &str) -> (outcome: Result<(), String>)
    ensures
        text::agrees(outcome, one_replaced(count, owner@, failure@)),
{
    if count != 1 {
        return Err(owner.to_owned().concat(failure));
    }
    Ok(())
}

/// Checks the clear of a locked authority row.
pub fn clear_locked(count: usize, owner: &str) -> (outcome: Result<(), String>)
    ensures
        text::agrees(outcome, one_replaced(count, owner@, " continuation clear failed"@)),
{
    require_replaced(count, owner, " continuation clear failed")
}

/// Checks the compare-and-set deletion of the old authority row.
pub fn deleted_old(count: usize, owner: &str) -> (outcome: Result<(), String>)
    ensures
        text::agrees(
            outcome,
            one_replaced(count, owner@, " continuation compare-and-set failed"@),
        ),
{
    require_replaced(count, owner, " continuation compare-and-set failed")
}

/// Checks the insertion of the next authority row.
pub fn inserted_next(count: usize, owner: &str) -> (outcome: Result<(), String>)
    ensures
        text::agrees(outcome, one_replaced(count, owner@, " continuation insert failed"@)),
{
    require_replaced(count, owner, " continuation insert failed")
}

/// A column's parameter: its number, and its cast where it has one.
pub open spec fn parameter(index: int, column: Column) -> Seq<char> {
    match column.parameter_cast {
        Some(cast) => "$"@ + text::decimal(index) + "::"@ + cast@,
        None => "$"@ + text::decimal(index),
    }
}

pub fn parameter_sql(index: usize, column: &Column) -> (sql: String)
    ensures
        sql@ == parameter(index as int, *column),
{
    let mut sql = "$".to_owned();
    sql.append(unsigned_text(index as u64).as_str());
    if let Some(cast) = column.parameter_cast {
        sql.append("::");
        sql.append(cast);
    }
    sql
}

/// The parameters of the columns behind the singleton.
pub open spec fn parameters(columns: Seq<Column>) -> Seq<Seq<char>> {
    Seq::new(
        (columns.len() - 1) as nat,
        |index: int| parameter(index + 1, columns[index + 1]),
    )
}

/// One null-safe comparison per column behind the singleton.
pub open spec fn comparisons(columns: Seq<Column>) -> Seq<Seq<char>> {
    Seq::new(
        (columns.len() - 1) as nat,
        |index: int|
            columns[index + 1].name@ + " IS NOT DISTINCT FROM "@ + parameter(
                index + 1,
                columns[index + 1],
            ),
    )
}

pub open spec fn column_names(columns: Seq<Column>) -> Seq<Seq<char>> {
    Seq::new(columns.len(), |index: int| columns[index].name@)
}

/// The statement that deletes exactly the expected authority row.
pub open spec fn delete_sql(relation: Seq<char>, columns: Seq<Column>) -> Seq<char> {
    "DELETE FROM "@ + relation + " WHERE singleton AND "@ + text::joined(
        comparisons(columns),
        " AND "@,
    ) + " RETURNING singleton"@
}

/// The statement that inserts the next authority row.
pub open spec fn insert_sql(relation: Seq<char>, columns: Seq<Column>) -> Seq<char> {
    "INSERT INTO "@ + relation + "("@ + text::joined(column_names(columns), ","@)
        + ") VALUES(true,"@ + text::joined(parameters(columns), ","@) + ") RETURNING singleton"@
}

fn delete_query(relation: &str, columns: &Vec<Column>) -> (query: String)
    requires
        columns.len() > 0,
    ensures
        query@ == delete_sql(relation@, columns@),
{
    let mut list: Vec<String> = Vec::new();
    let mut index: usize = 1;
    while index < columns.len()
        invariant
            1 <= index <= columns.len(),
            list.len() == index - 1,
            forall|k: int|
                0 <= k < index - 1 ==> #[trigger] list@[k]@ == comparisons(columns@)[k],
        decreases columns.len() - index,
    {
        let mut comparison = columns[index].name.to_owned();
        comparison.append(" IS NOT DISTINCT FROM ");
        comparison.append(parameter_sql(index, &columns[index]).as_str());
        list.push(comparison);
        index = index + 1;
    }
    assert(text::texts(list@) =~= comparisons(columns@));
    let mut query = "DELETE FROM ".to_owned();
    query.append(relation);
    query.append(" WHERE singleton AND ");
    query.append(join(&list, " AND ").as_str());
    query.append(" RETURNING singleton");
    query
}

fn insert_query(relation: &str, columns: &Vec<Column>) -> (query: String)
    requires
        columns.len() > 0,
    ensures
        query@ == insert_sql(relation@, columns@),
{
    let mut names: Vec<String> = Vec::new();
    let mut list: Vec<String> = Vec::new();
    names.push(columns[0].name.to_owned());
    let mut index: usize = 1;
    while index < columns.len()
        invariant
            1 <= index <= columns.len(),
            names.len() == index,
            list.len() == index - 1,
            forall|k: int| 0 <= k < index ==> #[trigger] names@[k]@ == columns@[k].name@,
            forall|k: int|
                0 <= k < index - 1 ==> #[trigger] list@[k]@ == parameters(columns@)[k],
        decreases columns.len() - index,
    {
        names.push(columns[index].name.to_owned());
        list.push(parameter_sql(index, &columns[index]));
        index = index + 1;
    }
    assert(text::texts(names@) =~= column_names(columns@));
    assert(text::texts(list@) =~= parameters(columns@));
    let mut query = "INSERT INTO ".to_owned();
    query.append(relation);
    query.append("(");
    query.append(join(&names, ",").as_str());
    query.append(") VALUES(true,");
    query.append(join(&list, ",").as_str());
    query.append(") RETURNING singleton");
    query
}

/// The statements that replace the authority row, in order.
pub struct Replacement {
    /// Deletes exactly the row that the caller locked, if there was one.
    pub delete: Option<Statement>,
    /// Inserts the successor, if the stage has more to do.
    pub insert: Option<Statement>,
}

/// Whether the field lists of a replacement match the columns.
pub open spec fn fields_match(
    columns: Seq<Column>,
    before: Option<Seq<SqlModel>>,
    next: Option<Seq<SqlModel>>,
    owner: Seq<char>,
) -> Result<(), Seq<char>> {
    text::both(
        text::holds(columns.len() > 0, "continuation schema omitted singleton"@),
        text::holds(
            (before matches Some(values) ==> values.len() == columns.len() - 1) && (
            next matches Some(values) ==> values.len() == columns.len() - 1),
            owner + " continuation field count disagrees with its ABI"@,
        ),
    )
}

/// The fields of an optional authority row.
pub open spec fn optional_fields(fields: Option<Vec<SqlValue>>) -> Option<Seq<SqlModel>> {
    match fields {
        Some(values) => Some(sql::values(values@)),
        None => None,
    }
}

/// Whether a replacement deletes exactly the row with the fields `before` and
/// inserts exactly a row with the fields `next`.
pub open spec fn replaces(
    replacement: Replacement,
    relation: Seq<char>,
    columns: Seq<Column>,
    before: Option<Seq<SqlModel>>,
    next: Option<Seq<SqlModel>>,
) -> bool {
    &&& match (replacement.delete, before) {
        (Some(statement), Some(fields)) => statement@ == (StatementModel {
            sql: delete_sql(relation, columns),
            arguments: fields,
        }),
        (None, None) => true,
        _ => false,
    }
    &&& match (replacement.insert, next) {
        (Some(statement), Some(fields)) => statement@ == (StatementModel {
            sql: insert_sql(relation, columns),
            arguments: fields,
        }),
        (None, None) => true,
        _ => false,
    }
}

/// Plans the atomic replacement of the one authoritative continuation row.
///
/// `columns` includes `singleton` as its first entry; `before` and `next`
/// carry exactly the remaining values in that order. The old row is compared
/// field by field so a stale worker can never erase a successor committed by
/// another transaction.
pub fn replace_cas(
    relation: &str,
    columns: &Vec<Column>,
    before: Option<Vec<SqlValue>>,
    next: Option<Vec<SqlValue>>,
    owner: &str,
) -> (outcome: Result<Replacement, String>)
    ensures
        match (
            outcome,
            fields_match(columns@, optional_fields(before), optional_fields(next), owner@),
        ) {
            (Ok(replacement), Ok(())) => replaces(
                replacement,
                relation@,
                columns@,
                optional_fields(before),
                optional_fields(next),
            ),
            (Err(error), Err(message)) => error@ == message,
            _ => false,
        },
{
    if columns.is_empty() {
        return fail("continuation schema omitted singleton");
    }
    let mut delete: Option<Statement> = None;
    let mut insert: Option<Statement> = None;
    let mut fits = true;
    if let Some(values) = before {
        fits = fits && values.len() == columns.len() - 1;
        delete = Some(Statement { sql: delete_query(relation, columns), arguments: values });
    }
    if let Some(values) = next {
        fits = fits && values.len() == columns.len() - 1;
        insert = Some(Statement { sql: insert_query(relation, columns), arguments: values });
    }
    if !fits {
        return Err(owner.to_owned().concat(" continuation field count disagrees with its ABI"));
    }
    Ok(Replacement { delete, insert })
}

/// The statement that a replacement waits for.
#[derive(Clone, Debug, PartialEq, Eq)]
pub enum ReplaceState {
    Deleting { insert: Option<Statement> },
    Inserting,
}

/// The successor goes in behind the row that left; the end says whether there
/// is one.
pub open spec fn inserts(insert: Option<Statement>) -> ProgressModel<ReplaceState, bool> {
    match insert {
        Some(statement) => ProgressModel::Ask {
            state: ReplaceState::Inserting,
            request: RequestModel::Write(statement@),
        },
        None => ProgressModel::Done(false),
    }
}

/// The first request of a replacement.
pub open spec fn replacing(replacement: Replacement) -> ProgressModel<ReplaceState, bool> {
    match replacement.delete {
        Some(statement) => ProgressModel::Ask {
            state: ReplaceState::Deleting { insert: replacement.insert },
            request: RequestModel::Write(statement@),
        },
        None => inserts(replacement.insert),
    }
}

/// What a replacement does with a reply.
pub open spec fn resumes_replace(state: ReplaceState, reply: Reply, owner: Seq<char>) -> Result<
    ProgressModel<ReplaceState, bool>,
    Seq<char>,
> {
    match (state, reply) {
        (ReplaceState::Deleting { insert }, Reply::Rows(rows)) => text::guarded(
            one_replaced(
                rows@.len() as usize,
                owner,
                " continuation compare-and-set failed"@,
            ),
            inserts(insert),
        ),
        (ReplaceState::Inserting, Reply::Rows(rows)) => text::guarded(
            one_replaced(rows@.len() as usize, owner, " continuation insert failed"@),
            ProgressModel::Done(true),
        ),
        _ => Err(MISPLACED@),
    }
}

fn insert_next(next: Option<Statement>) -> (progress: Progress<ReplaceState, bool>)
    ensures
        progress@ == inserts(next),
{
    match next {
        Some(statement) => Progress::Ask {
            state: ReplaceState::Inserting,
            request: Request::Write(statement),
        },
        None => Progress::Done(false),
    }
}

/// Opens a replacement.
pub fn open_replace(replacement: Replacement) -> (progress: Progress<ReplaceState, bool>)
    ensures
        progress@ == replacing(replacement),
{
    match replacement.delete {
        Some(statement) => Progress::Ask {
            state: ReplaceState::Deleting { insert: replacement.insert },
            request: Request::Write(statement),
        },
        None => insert_next(replacement.insert),
    }
}

/// Goes on with the reply to the last request.
pub fn resume_replace(state: ReplaceState, reply: Reply, owner: &str) -> (outcome: Result<
    Progress<ReplaceState, bool>,
    String,
>)
    ensures
        text::agrees_view(outcome, resumes_replace(state, reply, owner@)),
{
    let rows = match reply {
        Reply::Rows(rows) => rows,
        _ => return fail(MISPLACED),
    };
    match state {
        ReplaceState::Deleting { insert } => {
            deleted_old(rows.len(), owner)?;
            Ok(insert_next(insert))
        },
        ReplaceState::Inserting => {
            inserted_next(rows.len(), owner)?;
            Ok(Progress::Done(true))
        },
    }
}

} // verus!
