//! Sqlite storage layer.
//!
//! The store is one table, `potency(key, value)`: the key is the cache key of
//! a call, the value the JSON text of what the call returned. Talking to the
//! database is left to the caller; here is what is said to it, statement by
//! statement, and what is made of its answers.

use vstd::prelude::*;
use vstd::string::*;
use vstd::std_specs::convert::FromSpecImpl;

use crate::json::{JsonError, JsonSerialized};

verus! {

/// `sqlite::Error`, what the database's calls fail with.
#[verifier::external_type_specification]
#[verifier::external_body]
pub struct ExDatabaseFailure(sqlite::Error);

/// What the sqlite store fails with.
#[derive(Debug)]
#[allow(inconsistent_fields)]
pub enum SqliteError {
    /// A value could not be written as JSON, or a row could not be read as
    /// JSON.
    Json { source: JsonError },
    /// The database refused or failed.
    Sqlite { source: sqlite::Error },
}

impl SqliteError {
    /// The error's message: which of the two went wrong, then the source's
    /// own message, or the source as the database displays it.
    pub fn message(&self) -> (text: String)
        ensures
            match *self {
                SqliteError::Json { source } => exists|shown: String| #[trigger]
                    to_string_from_display_ensures(&source.source(), shown) && text@
                        == "Json storage error: "@ + (source.preamble() + shown@),
                SqliteError::Sqlite { source } => exists|shown: String| #[trigger]
                    to_string_from_display_ensures(&source, shown) && text@ == "Sqlite error: "@
                        + shown@,
            },
    {
        match self {
            SqliteError::Json { source } => {
                let shown = source.message();
                String::from_str("Json storage error: ").concat(shown.as_str())
            },
            SqliteError::Sqlite { source } => {
                let shown = source.to_string();
                assert(to_string_from_display_ensures(source, shown));
                String::from_str("Sqlite error: ").concat(shown.as_str())
            },
        }
    }
}

impl From<JsonError> for SqliteError {
    fn from(source: JsonError) -> (error: Self) {
        SqliteError::Json { source }
    }
}

impl FromSpecImpl<JsonError> for SqliteError {
    open spec fn obeys_from_spec() -> bool {
        true
    }

    open spec fn from_spec(source: JsonError) -> Self {
        SqliteError::Json { source }
    }
}

impl From<sqlite::Error> for SqliteError {
    fn from(source: sqlite::Error) -> (error: Self) {
        SqliteError::Sqlite { source }
    }
}

impl FromSpecImpl<sqlite::Error> for SqliteError {
    open spec fn obeys_from_spec() -> bool {
        true
    }

    open spec fn from_spec(source: sqlite::Error) -> Self {
        SqliteError::Sqlite { source }
    }
}

/// Creates the table if it is not there yet; harmless when it is.
pub const CREATE_TABLE: &'static str =
    "CREATE TABLE IF NOT EXISTS potency(key TEXT PRIMARY KEY NOT NULL, value TEXT NOT NULL)";

/// Selects the value stored under `:key`.
pub const SELECT_VALUE: &'static str = "SELECT value FROM potency WHERE key = :key";

/// Inserts `:value` under `:key`. The key is the table's primary key, so the
/// database refuses the insert when the key is already there.
pub const INSERT_ENTRY: &'static str = "INSERT INTO potency (key, value) VALUES (:key, :value)";

/// What a fetch comes to when the select gave `row`: nothing where there was
/// no row, else the value whose JSON text the row holds, or the failure to
/// read it.
pub open spec fn fetched_from(row: Option<Seq<char>>) -> Result<
    Option<JsonSerialized>,
    SqliteError,
> {
    match row {
        None => Ok(None),
        Some(text) => match JsonSerialized::parsed(text) {
            Ok(value) => Ok(Some(value)),
            Err(source) => Err(SqliteError::Json { source }),
        },
    }
}

/// Makes of the select's answer what the fetch returns.
pub fn read_row(row: Option<String>) -> (fetched: Result<Option<JsonSerialized>, SqliteError>)
    ensures
        fetched == fetched_from(
            match row {
                Some(text) => Some(text@),
                None => None,
            },
        ),
{
    match row {
        None => Ok(None),
        Some(text) => match JsonSerialized::parse(text.as_str()) {
            Ok(value) => Ok(Some(value)),
            Err(source) => Err(SqliteError::Json { source }),
        },
    }
}

/// A statement for the database, with the texts to bind to its parameters.
pub struct Bound {
    /// The statement.
    pub statement: &'static str,
    /// The name of each parameter with the text to bind to it.
    pub parameters: Vec<(&'static str, String)>,
}

impl Bound {
    /// The name of each parameter with the text bound to it, in order.
    pub open spec fn bindings(self) -> Seq<(Seq<char>, Seq<char>)> {
        Seq::new(
            self.parameters@.len(),
            |i: int| (self.parameters@[i].0@, self.parameters@[i].1@),
        )
    }
}

/// The select that fetches the entry under `key`: [`SELECT_VALUE`] with
/// `key` bound to `:key`.
pub fn select(key: &str) -> (bound: Bound)
    ensures
        bound.statement@ == SELECT_VALUE@,
        bound.bindings() == seq![(":key"@, key@)],
{
    let mut parameters: Vec<(&'static str, String)> = Vec::new();
    parameters.push((":key", String::from_str(key)));
    let bound = Bound { statement: SELECT_VALUE, parameters };
    assert(bound.bindings() =~= seq![(":key"@, key@)]);
    bound
}

/// The insert that stores `value` under `key`: [`INSERT_ENTRY`] with `key`
/// bound to `:key` and the JSON text of `value` bound to `:value`. Fails, and
/// says nothing to the database, when the value has no JSON text.
pub fn insert(key: &str, value: &JsonSerialized) -> (bound: Result<Bound, SqliteError>)
    ensures
        match bound {
            Ok(bound) => {
                &&& bound.statement@ == INSERT_ENTRY@
                &&& value.text() matches Ok(text) && bound.bindings() == seq![
                    (":key"@, key@),
                    (":value"@, text),
                ]
            },
            Err(error) => value.text() matches Err(source) && error == (SqliteError::Json {
                source,
            }),
        },
{
    match value.to_text() {
        Ok(text) => {
            let mut parameters: Vec<(&'static str, String)> = Vec::new();
            parameters.push((":key", String::from_str(key)));
            parameters.push((":value", text));
            let bound = Bound { statement: INSERT_ENTRY, parameters };
            assert(bound.bindings() =~= seq![(":key"@, key@), (":value"@, text@)]);
            Ok(bound)
        },
        Err(source) => Err(SqliteError::Json { source }),
    }
}

} // verus!
