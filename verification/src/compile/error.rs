//! What can go wrong while the database is compiled.

use vstd::prelude::*;

verus! {

/// An error of the database compiler. None is recovered from: the run ends
/// with the first.
#[derive(Debug)]
pub enum Error {
    /// A live column has a type that the model cannot express; the fields
    /// are the table and the column.
    UnsupportedType(String, String),
    /// The catalog could not be read; the fields are the table that was
    /// asked for and what the driver reported.
    Introspection(String, String),
    /// The batch could not be applied; the fields are the number of
    /// statements that ran before the failure, where the driver tells it,
    /// and what the driver reported.
    Execution(Option<usize>, String),
}

/// The value of an [`Error`].
pub enum ErrorValue {
    UnsupportedType(Seq<char>, Seq<char>),
    Introspection(Seq<char>, Seq<char>),
    Execution(Option<usize>, Seq<char>),
}

impl ErrorValue {
    /// The message of the error. An unsupported type is reported with its
    /// table and its column, a dot between them; a failure of the database
    /// with what the driver reported.
    pub open spec fn message(self) -> Seq<char> {
        match self {
            ErrorValue::UnsupportedType(table, column) => "database has unsupported type in "@
                + table + "."@ + column,
            ErrorValue::Introspection(_, cause) => "database error: "@ + cause,
            ErrorValue::Execution(_, cause) => "database error: "@ + cause,
        }
    }
}

impl View for Error {
    type V = ErrorValue;

    open spec fn view(&self) -> ErrorValue {
        match self {
            Error::UnsupportedType(table, column) => ErrorValue::UnsupportedType(table@, column@),
            Error::Introspection(table, cause) => ErrorValue::Introspection(table@, cause@),
            Error::Execution(executed, cause) => ErrorValue::Execution(*executed, cause@),
        }
    }
}

impl Error {
    /// The message of the error.
    pub fn to_string(&self) -> (s: String)
        ensures
            s@ == self@.message(),
    {
        let mut s = String::new();
        match self {
            Error::UnsupportedType(table, column) => {
                s.append("database has unsupported type in ");
                s.append(table.as_str());
                s.append(".");
                s.append(column.as_str());
            },
            Error::Introspection(_, cause) => {
                s.append("database error: ");
                s.append(cause.as_str());
            },
            Error::Execution(_, cause) => {
                s.append("database error: ");
                s.append(cause.as_str());
            },
        }
        assert(s@ =~= self@.message());
        s
    }
}

} // verus!
