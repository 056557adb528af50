//! The column type each SQL dialect gives a field type by default. A field
//! type a dialect has no column type for is refused, never given a column
//! type of another kind.

use vstd::prelude::*;
use crate::error::Error;
use crate::field_type::{names_model, FieldType, FieldTypeModel};
use crate::model::ErrorModel;

verus! {

/// The SQL dialects.
#[derive(Clone, Copy, Debug, PartialEq, Eq, Structural)]
pub enum SQLDialect {
    SQLite,
    MySQL,
    PostgreSQL,
    MSSQL,
}

/// The members of a database enum.
#[derive(Debug, PartialEq, Eq)]
pub struct DbEnum {
    pub choices: Vec<String>,
}

/// A column type.
#[allow(inconsistent_fields)]
#[derive(Debug, PartialEq, Eq)]
pub enum DatabaseType {
    Bool,
    TinyInt { m: Option<u8>, u: bool },
    Int { m: Option<u8>, u: bool },
    BigInt { m: Option<u8>, u: bool },
    Decimal { m: Option<u8>, d: Option<u8> },
    Float { m: Option<u8>, d: Option<u8> },
    Double { m: Option<u8>, d: Option<u8> },
    Real,
    Date,
    DateTime(u8),
    Timestamp { p: u8, z: bool },
    VarChar { m: u16, n: Option<String>, c: Option<String> },
    Text { m: Option<u8>, n: Option<String>, c: Option<String> },
    Enum(DbEnum),
    Vec(Box<DatabaseType>),
}

/// What a [`DatabaseType`] is.
#[allow(inconsistent_fields)]
pub enum DatabaseTypeModel {
    Bool,
    TinyInt { m: Option<u8>, u: bool },
    Int { m: Option<u8>, u: bool },
    BigInt { m: Option<u8>, u: bool },
    Decimal { m: Option<u8>, d: Option<u8> },
    Float { m: Option<u8>, d: Option<u8> },
    Double { m: Option<u8>, d: Option<u8> },
    Real,
    Date,
    DateTime(u8),
    Timestamp { p: u8, z: bool },
    VarChar { m: u16, n: Option<Seq<char>>, c: Option<Seq<char>> },
    Text { m: Option<u8>, n: Option<Seq<char>>, c: Option<Seq<char>> },
    Enum(Seq<Seq<char>>),
    Vec(Box<DatabaseTypeModel>),
}

pub open spec fn name_model(name: Option<String>) -> Option<Seq<char>> {
    match name {
        Some(text) => Some(text@),
        None => None,
    }
}

pub open spec fn database_type_model(t: DatabaseType) -> DatabaseTypeModel
    decreases t,
{
    match t {
        DatabaseType::Bool => DatabaseTypeModel::Bool,
        DatabaseType::TinyInt { m, u } => DatabaseTypeModel::TinyInt { m, u },
        DatabaseType::Int { m, u } => DatabaseTypeModel::Int { m, u },
        DatabaseType::BigInt { m, u } => DatabaseTypeModel::BigInt { m, u },
        DatabaseType::Decimal { m, d } => DatabaseTypeModel::Decimal { m, d },
        DatabaseType::Float { m, d } => DatabaseTypeModel::Float { m, d },
        DatabaseType::Double { m, d } => DatabaseTypeModel::Double { m, d },
        DatabaseType::Real => DatabaseTypeModel::Real,
        DatabaseType::Date => DatabaseTypeModel::Date,
        DatabaseType::DateTime(p) => DatabaseTypeModel::DateTime(p),
        DatabaseType::Timestamp { p, z } => DatabaseTypeModel::Timestamp { p, z },
        DatabaseType::VarChar { m, n, c } => DatabaseTypeModel::VarChar {
            m,
            n: name_model(n),
            c: name_model(c),
        },
        DatabaseType::Text { m, n, c } => DatabaseTypeModel::Text {
            m,
            n: name_model(n),
            c: name_model(c),
        },
        DatabaseType::Enum(e) => DatabaseTypeModel::Enum(names_model(e.choices@)),
        DatabaseType::Vec(inner) => DatabaseTypeModel::Vec(Box::new(database_type_model(*inner))),
    }
}

impl View for DatabaseType {
    type V = DatabaseTypeModel;

    open spec fn view(&self) -> DatabaseTypeModel {
        database_type_model(*self)
    }
}

/// A text column without a length, a national character set or a collation.
pub open spec fn plain_text() -> DatabaseTypeModel {
    DatabaseTypeModel::Text { m: None, n: None, c: None }
}

/// The column type MySQL gives a field type, where it has one.
pub open spec fn mysql_type(field_type: FieldTypeModel) -> Option<DatabaseTypeModel> {
    match field_type {
        FieldTypeModel::Bool => Some(DatabaseTypeModel::TinyInt { m: Some(1), u: false }),
        FieldTypeModel::I32 => Some(DatabaseTypeModel::Int { m: None, u: false }),
        FieldTypeModel::I64 => Some(DatabaseTypeModel::BigInt { m: None, u: false }),
        FieldTypeModel::F32 => Some(DatabaseTypeModel::Float { m: None, d: None }),
        FieldTypeModel::F64 => Some(DatabaseTypeModel::Double { m: None, d: None }),
        FieldTypeModel::String => Some(DatabaseTypeModel::VarChar { m: 191, n: None, c: None }),
        FieldTypeModel::Date => Some(DatabaseTypeModel::Date),
        FieldTypeModel::DateTime => Some(DatabaseTypeModel::DateTime(3)),
        FieldTypeModel::Enum(definition) => Some(DatabaseTypeModel::Enum(definition.choices)),
        FieldTypeModel::Decimal => Some(DatabaseTypeModel::Decimal { m: Some(65), d: Some(30) }),
        _ => None,
    }
}

/// The column type PostgreSQL gives a field type, where it has one. A
/// sequence becomes an array of the column type of its elements.
pub open spec fn postgresql_type(field_type: FieldTypeModel) -> Option<DatabaseTypeModel>
    decreases field_type,
{
    match field_type {
        FieldTypeModel::Bool => Some(DatabaseTypeModel::Bool),
        FieldTypeModel::I32 => Some(DatabaseTypeModel::Int { m: None, u: false }),
        FieldTypeModel::I64 => Some(DatabaseTypeModel::BigInt { m: None, u: false }),
        FieldTypeModel::F32 => Some(DatabaseTypeModel::Real),
        FieldTypeModel::F64 => Some(DatabaseTypeModel::Double { m: None, d: None }),
        FieldTypeModel::String => Some(plain_text()),
        FieldTypeModel::Date => Some(DatabaseTypeModel::Date),
        FieldTypeModel::DateTime => Some(DatabaseTypeModel::Timestamp { p: 3, z: false }),
        FieldTypeModel::Decimal => Some(DatabaseTypeModel::Decimal { m: Some(65), d: Some(30) }),
        FieldTypeModel::Enum(_) => Some(plain_text()),
        FieldTypeModel::Vec(inner) => match postgresql_type(inner.field_type) {
            Some(element) => Some(DatabaseTypeModel::Vec(Box::new(element))),
            None => None,
        },
        _ => None,
    }
}

/// The column type SQLite gives a field type, where it has one.
pub open spec fn sqlite_type(field_type: FieldTypeModel) -> Option<DatabaseTypeModel> {
    match field_type {
        FieldTypeModel::Bool => Some(DatabaseTypeModel::Int { m: None, u: false }),
        FieldTypeModel::I32 => Some(DatabaseTypeModel::Int { m: None, u: false }),
        FieldTypeModel::I64 => Some(DatabaseTypeModel::Int { m: None, u: false }),
        FieldTypeModel::F32 => Some(DatabaseTypeModel::Real),
        FieldTypeModel::F64 => Some(DatabaseTypeModel::Real),
        FieldTypeModel::String => Some(plain_text()),
        FieldTypeModel::Date => Some(plain_text()),
        FieldTypeModel::DateTime => Some(plain_text()),
        FieldTypeModel::Decimal => Some(DatabaseTypeModel::Decimal { m: None, d: None }),
        FieldTypeModel::Enum(_) => Some(plain_text()),
        _ => None,
    }
}

/// The column type a dialect gives a field type, where it has one. SQL Server
/// has none for any.
pub open spec fn column_type(field_type: FieldTypeModel, dialect: SQLDialect) -> Option<
    DatabaseTypeModel,
> {
    match dialect {
        SQLDialect::SQLite => sqlite_type(field_type),
        SQLDialect::MySQL => mysql_type(field_type),
        SQLDialect::PostgreSQL => postgresql_type(field_type),
        SQLDialect::MSSQL => None,
    }
}

/// The failure that refuses a field type.
pub open spec fn unhandled() -> ErrorModel {
    ErrorModel::internal(Seq::empty(), "Unhandled."@)
}

/// Whether a result is the column type `expected`, or the refusal where there
/// is none.
pub open spec fn answers(result: Result<DatabaseType, Error>, expected: Option<DatabaseTypeModel>)
    -> bool {
    match result {
        Ok(t) => expected == Some(t@),
        Err(e) => expected is None && e@ == unhandled(),
    }
}

fn refuse() -> (result: Result<DatabaseType, Error>)
    ensures
        answers(result, None),
{
    let e = Error::internal_server_error(Vec::new(), "Unhandled.");
    assert(e@.path =~= Seq::empty());
    Err(e)
}

fn text_column() -> (t: DatabaseType)
    ensures
        t@ == plain_text(),
{
    DatabaseType::Text { m: None, n: None, c: None }
}

fn clone_names(names: &Vec<String>) -> (out: Vec<String>)
    ensures
        names_model(out@) == names_model(names@),
{
    let mut out: Vec<String> = Vec::new();
    let mut i: usize = 0;
    while i < names.len()
        invariant
            i <= names.len(),
            out@.len() == i,
            forall|j: int| 0 <= j < i ==> out@[j]@ == names@[j]@,
        decreases names.len() - i,
    {
        out.push(names[i].clone());
        i += 1;
    }
    out
}

/// A type that has a column type in each dialect that supports it.
pub trait ToDatabaseType {
    /// What the type is to the dialects.
    spec fn field_type(&self) -> FieldTypeModel;

    /// The column type the dialect gives this type, or the refusal.
    fn to_database_type(&self, dialect: SQLDialect) -> (result: Result<DatabaseType, Error>)
        ensures
            answers(result, column_type(self.field_type(), dialect)),
    ;
}

impl ToDatabaseType for FieldType {
    open spec fn field_type(&self) -> FieldTypeModel {
        self@
    }

    fn to_database_type(&self, dialect: SQLDialect) -> (result: Result<DatabaseType, Error>) {
        match dialect {
            SQLDialect::SQLite => default_database_type_sqlite(self),
            SQLDialect::MySQL => default_database_type_mysql(self),
            SQLDialect::PostgreSQL => default_database_type_postgresql(self),
            SQLDialect::MSSQL => default_database_type_mssql(self),
        }
    }
}

/// SQL Server: every field type is refused.
pub fn default_database_type_mssql(field_type: &FieldType) -> (result: Result<DatabaseType, Error>)
    ensures
        answers(result, None),
{
    refuse()
}

/// MySQL's column type for a field type, or the refusal.
pub fn default_database_type_mysql(field_type: &FieldType) -> (result: Result<DatabaseType, Error>)
    ensures
        answers(result, mysql_type(field_type@)),
{
    match field_type {
        FieldType::Bool => Ok(DatabaseType::TinyInt { m: Some(1), u: false }),
        FieldType::I32 => Ok(DatabaseType::Int { m: None, u: false }),
        FieldType::I64 => Ok(DatabaseType::BigInt { m: None, u: false }),
        FieldType::F32 => Ok(DatabaseType::Float { m: None, d: None }),
        FieldType::F64 => Ok(DatabaseType::Double { m: None, d: None }),
        FieldType::String => Ok(DatabaseType::VarChar { m: 191, n: None, c: None }),
        FieldType::Date => Ok(DatabaseType::Date),
        FieldType::DateTime => Ok(DatabaseType::DateTime(3)),
        FieldType::Enum(definition) => Ok(
            DatabaseType::Enum(DbEnum { choices: clone_names(&definition.choices) }),
        ),
        FieldType::Decimal => Ok(DatabaseType::Decimal { m: Some(65), d: Some(30) }),
        FieldType::Vec(_) => refuse(),
        FieldType::HashMap(_) => refuse(),
        FieldType::BTreeMap(_) => refuse(),
        FieldType::Object(_) => refuse(),
        _ => refuse(),
    }
}

/// PostgreSQL's column type for a field type, or the refusal.
pub fn default_database_type_postgresql(field_type: &FieldType) -> (result: Result<
    DatabaseType,
    Error,
>)
    ensures
        answers(result, postgresql_type(field_type@)),
    decreases field_type,
{
    match field_type {
        FieldType::Bool => Ok(DatabaseType::Bool),
        FieldType::I32 => Ok(DatabaseType::Int { m: None, u: false }),
        FieldType::I64 => Ok(DatabaseType::BigInt { m: None, u: false }),
        FieldType::F32 => Ok(DatabaseType::Real),
        FieldType::F64 => Ok(DatabaseType::Double { m: None, d: None }),
        FieldType::String => Ok(text_column()),
        FieldType::Date => Ok(DatabaseType::Date),
        FieldType::DateTime => Ok(DatabaseType::Timestamp { p: 3, z: false }),
        FieldType::Decimal => Ok(DatabaseType::Decimal { m: Some(65), d: Some(30) }),
        FieldType::Enum(_) => Ok(text_column()),
        FieldType::Vec(inner) => match default_database_type_postgresql(inner.field_type()) {
            Ok(element) => Ok(DatabaseType::Vec(Box::new(element))),
            Err(e) => Err(e),
        },
        FieldType::HashMap(_) => refuse(),
        FieldType::BTreeMap(_) => refuse(),
        FieldType::Object(_) => refuse(),
        _ => refuse(),
    }
}

/// SQLite's column type for a field type, or the refusal.
pub fn default_database_type_sqlite(field_type: &FieldType) -> (result: Result<DatabaseType, Error>)
    ensures
        answers(result, sqlite_type(field_type@)),
{
    match field_type {
        FieldType::Bool => Ok(DatabaseType::Int { m: None, u: false }),
        FieldType::I32 => Ok(DatabaseType::Int { m: None, u: false }),
        FieldType::I64 => Ok(DatabaseType::Int { m: None, u: false }),
        FieldType::F32 => Ok(DatabaseType::Real),
        FieldType::F64 => Ok(DatabaseType::Real),
        FieldType::String => Ok(text_column()),
        FieldType::Date => Ok(text_column()),
        FieldType::DateTime => Ok(text_column()),
        FieldType::Decimal => Ok(DatabaseType::Decimal { m: None, d: None }),
        FieldType::Enum(_) => Ok(text_column()),
        FieldType::Vec(_) => refuse(),
        FieldType::HashMap(_) => refuse(),
        FieldType::BTreeMap(_) => refuse(),
        FieldType::Object(_) => refuse(),
        _ => refuse(),
    }
}

} // verus!
