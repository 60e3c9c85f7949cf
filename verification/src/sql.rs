//! Statements for PostgreSQL as plain values: SQL text and typed arguments.

use vstd::prelude::*;

verus! {

/// Catalog identifiers of the PostgreSQL types that the control plane names.
pub const BOOLOID: u32 = 16;

pub const BYTEAOID: u32 = 17;

pub const INT8OID: u32 = 20;

pub const INT2OID: u32 = 21;

pub const INT4OID: u32 = 23;

pub const TEXTOID: u32 = 25;

pub const OIDOID: u32 = 26;

pub const OIDARRAYOID: u32 = 1028;

pub const NUMERICOID: u32 = 1700;

pub const PG_LSNOID: u32 = 3220;

/// The OID that names no catalog row.
pub const INVALID_OID: u32 = 0;

/// One typed argument of a statement; `None` is SQL NULL.
#[derive(Clone, Debug, PartialEq, Eq)]
pub enum SqlValue {
    Boolean(Option<bool>),
    SmallInt(Option<i16>),
    Integer(Option<i32>),
    BigInt(Option<i64>),
    Text(Option<String>),
    Oid(u32),
    OidArray(Vec<u32>),
}

/// One typed argument as a mathematical value.
#[verifier::ext_equal]
pub enum SqlModel {
    Boolean(Option<bool>),
    SmallInt(Option<i16>),
    Integer(Option<i32>),
    BigInt(Option<i64>),
    Text(Option<Seq<char>>),
    Oid(u32),
    OidArray(Seq<u32>),
}

impl View for SqlValue {
    type V = SqlModel;

    open spec fn view(&self) -> SqlModel {
        match self {
            SqlValue::Boolean(value) => SqlModel::Boolean(*value),
            SqlValue::SmallInt(value) => SqlModel::SmallInt(*value),
            SqlValue::Integer(value) => SqlModel::Integer(*value),
            SqlValue::BigInt(value) => SqlModel::BigInt(*value),
            SqlValue::Text(value) => SqlModel::Text(text_model(*value)),
            SqlValue::Oid(value) => SqlModel::Oid(*value),
            SqlValue::OidArray(value) => SqlModel::OidArray(value@),
        }
    }
}

/// The characters of an optional text.
pub open spec fn text_model(value: Option<String>) -> Option<Seq<char>> {
    match value {
        Some(text) => Some(text@),
        None => None,
    }
}

/// The catalog type of an argument.
pub open spec fn type_of(value: SqlModel) -> u32 {
    match value {
        SqlModel::Boolean(_) => BOOLOID,
        SqlModel::SmallInt(_) => INT2OID,
        SqlModel::Integer(_) => INT4OID,
        SqlModel::BigInt(_) => INT8OID,
        SqlModel::Text(_) => TEXTOID,
        SqlModel::Oid(_) => OIDOID,
        SqlModel::OidArray(_) => OIDARRAYOID,
    }
}

impl SqlValue {
    /// The catalog type that the argument is passed as.
    pub fn type_oid(&self) -> (oid: u32)
        ensures
            oid == type_of(self@),
    {
        match self {
            SqlValue::Boolean(_) => BOOLOID,
            SqlValue::SmallInt(_) => INT2OID,
            SqlValue::Integer(_) => INT4OID,
            SqlValue::BigInt(_) => INT8OID,
            SqlValue::Text(_) => TEXTOID,
            SqlValue::Oid(_) => OIDOID,
            SqlValue::OidArray(_) => OIDARRAYOID,
        }
    }
}

/// The arguments of a statement in order.
pub open spec fn values(arguments: Seq<SqlValue>) -> Seq<SqlModel> {
    Seq::new(arguments.len(), |index: int| arguments[index]@)
}

/// A statement as a mathematical value.
#[verifier::ext_equal]
pub struct StatementModel {
    pub sql: Seq<char>,
    pub arguments: Seq<SqlModel>,
}

/// A number as an argument.
pub open spec fn number(value: int) -> SqlModel {
    SqlModel::BigInt(Some(value as i64))
}

impl StatementModel {
    /// What the statement reads where it writes `$1`, `$2`, ...
    pub open spec fn told(self, place: int) -> SqlModel
        recommends
            1 <= place <= self.arguments.len(),
    {
        self.arguments[place - 1]
    }
}

/// One SQL statement and its arguments `$1`, `$2`, ...
#[derive(Clone, Debug, PartialEq, Eq)]
pub struct Statement {
    pub sql: String,
    pub arguments: Vec<SqlValue>,
}

impl View for Statement {
    type V = StatementModel;

    open spec fn view(&self) -> StatementModel {
        StatementModel { sql: self.sql@, arguments: values(self.arguments@) }
    }
}

impl Statement {
    /// A statement without arguments.
    pub fn new(sql: String) -> (statement: Statement)
        ensures
            statement@ == (StatementModel { sql: sql@, arguments: Seq::empty() }),
    {
        let statement = Statement { sql, arguments: Vec::new() };
        assert(values(statement.arguments@) =~= Seq::empty());
        statement
    }

    /// The statement with one more argument.
    pub fn with(self, value: SqlValue) -> (statement: Statement)
        ensures
            statement@ == (StatementModel {
                sql: self@.sql,
                arguments: self@.arguments.push(value@),
            }),
    {
        let ghost before = self@.arguments;
        let mut statement = self;
        statement.arguments.push(value);
        assert(values(statement.arguments@) =~= before.push(value@));
        statement
    }

    /// The statement with one more `bigint` argument.
    pub fn bigint(self, value: i64) -> (statement: Statement)
        ensures
            statement@ == (StatementModel {
                sql: self@.sql,
                arguments: self@.arguments.push(SqlModel::BigInt(Some(value))),
            }),
    {
        self.with(SqlValue::BigInt(Some(value)))
    }

    /// The statement with one more `text` argument.
    pub fn text(self, value: &str) -> (statement: Statement)
        ensures
            statement@ == (StatementModel {
                sql: self@.sql,
                arguments: self@.arguments.push(SqlModel::Text(Some(value@))),
            }),
    {
        self.with(SqlValue::Text(Some(value.to_owned())))
    }

    /// The statement with one more `oid` argument.
    pub fn oid(self, value: u32) -> (statement: Statement)
        ensures
            statement@ == (StatementModel {
                sql: self@.sql,
                arguments: self@.arguments.push(SqlModel::Oid(value)),
            }),
    {
        self.with(SqlValue::Oid(value))
    }

    /// The statement with one more `boolean` argument.
    pub fn boolean(self, value: bool) -> (statement: Statement)
        ensures
            statement@ == (StatementModel {
                sql: self@.sql,
                arguments: self@.arguments.push(SqlModel::Boolean(Some(value))),
            }),
    {
        self.with(SqlValue::Boolean(Some(value)))
    }
}

} // verus!
