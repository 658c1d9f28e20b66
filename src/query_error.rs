//! The explanations shown when running a query fails.
use vstd::prelude::*;

use crate::column::ColumnType;
use crate::text::{int_text, owned, usize_text};

verus! {

/// The storage type of an SQL value.
#[derive(Debug, Clone, Copy, PartialEq, Eq, Structural)]
pub enum SqlType {
    Null,
    Integer,
    Real,
    Text,
    Blob,
}

/// Why the database refused to run a query, or to hand out its results.
#[derive(Debug)]
pub enum SqlError {
    /// A result value could not be converted to the declared type.
    FromSqlConversionFailure(usize, SqlType),
    /// A result column holds values of another type than declared: the
    /// column's position, its name, and the type asked for.
    InvalidColumnType(usize, String, SqlType),
    /// The query takes no parameter of this name.
    InvalidParameterName(String),
    /// The query has fewer columns than were declared.
    InvalidColumnIndex(usize),
    /// The query is not valid SQL.
    InvalidQuery,
    /// The query holds more than one statement.
    MultipleStatement,
    /// Any other failure.
    Other,
}

/// A failure of the database with what the query declared about the column
/// that was being read, if any.
#[derive(Debug)]
pub struct ExecQueryErrConv {
    pub err: SqlError,
    pub given_type: ColumnType,
    pub failed_name: String,
}

/// The name under which the query's declarations show a type that the
/// database asked for.
pub open spec fn expected_name(t: SqlType) -> Seq<char> {
    if t == SqlType::Integer {
        "Number"@
    } else {
        "String/Text"@
    }
}

/// The explanation of a mismatch between a declared column and what the
/// database holds.
pub open spec fn mismatch_text(
    column_name: Seq<char>,
    column_idx: usize,
    sql_column_name: Seq<char>,
    given_type: ColumnType,
    expected_type: SqlType,
) -> Seq<char> {
    "Mismatch between the output type '"@ + column_name + "' (at "@ + int_text(column_idx as int)
        + ") and the query column type for '"@ + sql_column_name + "': column type: `"@
        + given_type.spec_name() + "` <-> query type `"@ + expected_name(expected_type) + "`"@
}

/// The explanation shown for a failure.
pub open spec fn explanation(e: ExecQueryErrConv) -> Seq<char> {
    match e.err {
        SqlError::FromSqlConversionFailure(idx, t) => mismatch_text(
            e.failed_name@,
            idx,
            "<unknown>"@,
            e.given_type,
            t,
        ),
        SqlError::InvalidColumnType(idx, name, t) => mismatch_text(
            e.failed_name@,
            idx,
            name@,
            e.given_type,
            t,
        ),
        SqlError::InvalidParameterName(param) => "The query did not expected to receive a parameter '"@
            + param@ + "'."@,
        SqlError::InvalidColumnIndex(_) => "The query has less columns than the amount of given output types."@,
        SqlError::InvalidQuery => "The Query is invalid."@,
        SqlError::MultipleStatement => "The query contains multiple statements. Only one is allowed"@,
        SqlError::Other => "Unknown error"@,
    }
}

impl ExecQueryErrConv {
    /// A failure while reading the declared column `failed_name` of type
    /// `given_type`.
    pub fn new(err: SqlError, given_type: ColumnType, failed_name: &str) -> (r: ExecQueryErrConv)
        ensures
            r.err == err,
            r.given_type == given_type,
            r.failed_name@ == failed_name@,
    {
        ExecQueryErrConv { err, given_type, failed_name: owned(failed_name) }
    }

    /// A failure that concerns no declared column.
    pub fn empty(err: SqlError) -> (r: ExecQueryErrConv)
        ensures
            r.err == err,
            r.given_type == ColumnType::String,
            r.failed_name@.len() == 0,
    {
        ExecQueryErrConv { err, given_type: ColumnType::String, failed_name: String::new() }
    }

    /// The explanation shown for the failure.
    pub fn message(self) -> (r: String)
        ensures
            r@ == explanation(self),
    {
        match self.err {
            SqlError::FromSqlConversionFailure(idx, t) => {
                let unknown = owned("<unknown>");
                mismatch(&self.failed_name, idx, &unknown, self.given_type, t)
            },
            SqlError::InvalidColumnType(idx, name, t) => {
                mismatch(&self.failed_name, idx, &name, self.given_type, t)
            },
            SqlError::InvalidParameterName(param) => {
                let mut s = owned("The query did not expected to receive a parameter '");
                s.append(param.as_str());
                s.append("'.");
                s
            },
            SqlError::InvalidColumnIndex(_) => owned(
                "The query has less columns than the amount of given output types.",
            ),
            SqlError::InvalidQuery => owned("The Query is invalid."),
            SqlError::MultipleStatement => owned(
                "The query contains multiple statements. Only one is allowed",
            ),
            SqlError::Other => owned("Unknown error"),
        }
    }
}

/// The explanation of a mismatch between a declared column and what the
/// database holds.
fn mismatch(
    column_name: &String,
    column_idx: usize,
    sql_column_name: &String,
    given_type: ColumnType,
    expected_type: SqlType,
) -> (r: String)
    ensures
        r@ == mismatch_text(column_name@, column_idx, sql_column_name@, given_type, expected_type),
{
    let expected = if expected_type == SqlType::Integer {
        "Number"
    } else {
        "String/Text"
    };
    let mut s = owned("Mismatch between the output type '");
    s.append(column_name.as_str());
    s.append("' (at ");
    let idx = usize_text(column_idx);
    s.append(idx.as_str());
    s.append(") and the query column type for '");
    s.append(sql_column_name.as_str());
    s.append("': column type: `");
    s.append(given_type.as_str());
    s.append("` <-> query type `");
    s.append(expected);
    s.append("`");
    s
}

} // verus!
