//! Library-specific errors and the schema migration decision taken when the
//! database is opened.
use vstd::prelude::*;

use crate::error::CoreError;
use crate::library::schema::CURRENT_VERSION;
use crate::text::{concat2, i64_text, int_text};
use crate::types::{uuid_text, TrackId};

verus! {

/// An error from `rusqlite`.
#[verifier::external_type_specification]
#[verifier::external_body]
pub struct ExSqliteError(rusqlite::Error);

/// Library-specific errors.  Wrapped into `CoreError::Database`.
#[derive(Debug)]
pub enum LibraryError {
    Sqlite(rusqlite::Error),
    UnsupportedSchema { found: i64, supported: i64 },
    NotFound(TrackId),
}

/// `Display` for `rusqlite::Error`.  Nothing is stated of the text: it comes
/// from SQLite.
#[verifier::external_body]
fn sqlite_error_text(e: &rusqlite::Error) -> String {
    e.to_string()
}

/// The message of a library error whose text is the library's own.
pub open spec fn library_message(e: LibraryError) -> Seq<char> {
    match e {
        LibraryError::UnsupportedSchema { found, supported } => "schema version "@ + int_text(
            found as int,
        ) + " is newer than supported "@ + int_text(supported as int),
        LibraryError::NotFound(id) => "track not found: "@ + uuid_text(id@),
        LibraryError::Sqlite(_) => Seq::empty(),
    }
}

impl LibraryError {
    /// The human-readable message of this error.
    pub fn message(&self) -> (res: String)
        ensures
            !(self is Sqlite) ==> res@ == library_message(*self),
            self is Sqlite ==> exists|t: Seq<char>| res@ == "sqlite error: "@ + t,
    {
        match self {
            LibraryError::Sqlite(e) => {
                proof {
                    reveal_strlit("sqlite error: ");
                }
                concat2("sqlite error: ", sqlite_error_text(e).as_str())
            },
            LibraryError::UnsupportedSchema { found, supported } => {
                let a = concat2("schema version ", i64_text(*found).as_str());
                let b = concat2(a.as_str(), " is newer than supported ");
                concat2(b.as_str(), i64_text(*supported).as_str())
            },
            LibraryError::NotFound(id) => concat2("track not found: ", id.to_string().as_str()),
        }
    }
}

impl vstd::std_specs::convert::FromSpecImpl<LibraryError> for CoreError {
    open spec fn obeys_from_spec() -> bool {
        false
    }

    open spec fn from_spec(v: LibraryError) -> CoreError {
        CoreError::Database(arbitrary())
    }
}

impl From<LibraryError> for CoreError {
    /// A library error becomes a database error carrying its message.
    fn from(e: LibraryError) -> (res: CoreError)
        ensures
            res is Database,
            !(e is Sqlite) ==> (res matches CoreError::Database(m) && m@ == library_message(e)),
            e is Sqlite ==> (res matches CoreError::Database(m) && exists|t: Seq<char>|
                m@ == "sqlite error: "@ + t),
    {
        CoreError::Database(e.message())
    }
}

/// What opening the database does about the schema version.
#[derive(Debug, Clone, Copy, PartialEq, Eq, Structural)]
pub enum SchemaStep {
    /// First run: record the given version.
    RecordVersion(i64),
    /// The stored version is supported; nothing to migrate.
    UpToDate(i64),
}

/// Decide the migration for the stored schema version (`None` on a fresh
/// database): record the current version, accept a version up to the
/// current one, or refuse a newer one.
pub fn migration_step(found: Option<i64>) -> (res: Result<SchemaStep, LibraryError>)
    ensures
        found is None ==> res == Ok::<SchemaStep, LibraryError>(
            SchemaStep::RecordVersion(CURRENT_VERSION),
        ),
        found matches Some(v) ==> (v > CURRENT_VERSION ==> (res matches Err(
            LibraryError::UnsupportedSchema { found: f, supported: s },
        ) && f == v && s == CURRENT_VERSION)),
        found matches Some(v) ==> (v <= CURRENT_VERSION ==> res == Ok::<SchemaStep, LibraryError>(
            SchemaStep::UpToDate(v),
        )),
{
    match found {
        None => Ok(SchemaStep::RecordVersion(CURRENT_VERSION)),
        Some(v) => {
            if v > CURRENT_VERSION {
                Err(LibraryError::UnsupportedSchema { found: v, supported: CURRENT_VERSION })
            } else {
                Ok(SchemaStep::UpToDate(v))
            }
        },
    }
}

} // verus!
