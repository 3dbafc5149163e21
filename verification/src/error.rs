//! What a command can fail with.

use vstd::prelude::*;
use vstd::string::StringExecFns;

verus! {

/// A failure of the relational store.
#[derive(Clone, Debug, PartialEq, Eq)]
pub enum SqlFailure {
    /// A query that must yield one row found none.
    RowNotFound,
    /// A table has no identifier left for a further row.
    Full,
    /// Any other failure, with the store's own words.
    Other(String),
}

/// What a command can fail with.
#[derive(Clone, Debug, PartialEq, Eq)]
pub enum Error {
    /// The store failed or a single-row query found no row.
    Sql(SqlFailure),
    /// The schema could not be set up.
    Migration(String),
    /// The command ran before the store was opened.
    DatabaseNotLoaded,
    /// Market data could not be fetched or decoded.
    Network(String),
}

/// The text that stands for `e` when it is handed to the caller.
pub open spec fn message_of(e: Error) -> Seq<char> {
    match e {
        Error::Sql(SqlFailure::RowNotFound) => "no rows returned by a query that expected to return at least one row"@,
        Error::Sql(SqlFailure::Full) => "database or disk is full"@,
        Error::Sql(SqlFailure::Other(text)) => text@,
        Error::Migration(text) => text@,
        Error::DatabaseNotLoaded => "Database not loaded"@,
        Error::Network(text) => text@,
    }
}

impl Error {
    /// The text that stands for this error when it is handed to the caller.
    pub fn message(&self) -> (text: String)
        ensures
            text@ == message_of(*self),
    {
        match self {
            Error::Sql(SqlFailure::RowNotFound) => String::from_str(
                "no rows returned by a query that expected to return at least one row",
            ),
            Error::Sql(SqlFailure::Full) => String::from_str("database or disk is full"),
            Error::Sql(SqlFailure::Other(text)) => text.clone(),
            Error::Migration(text) => text.clone(),
            Error::DatabaseNotLoaded => String::from_str("Database not loaded"),
            Error::Network(text) => text.clone(),
        }
    }
}

} // verus!
