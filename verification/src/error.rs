//! Project-wide error type.
//!
//! Each part of the library wraps its own domain errors into a variant here
//! so the application layer can handle them uniformly.
use vstd::prelude::*;

use crate::text::{concat2, owned};

verus! {

/// An I/O error from std.
#[verifier::external_type_specification]
#[verifier::external_body]
pub struct ExIoError(std::io::Error);

/// A TOML deserialisation error from `toml`.
#[verifier::external_type_specification]
#[verifier::external_body]
pub struct ExTomlError(toml::de::Error);

/// A JSON error from `serde_json`.
#[verifier::external_type_specification]
#[verifier::external_body]
pub struct ExJsonError(serde_json::Error);

/// All errors that can occur inside PhraseDJ.
#[derive(Debug)]
pub enum CoreError {
    /// A settings file could not be read or parsed.
    Settings(String),
    /// A required file was not found on disk.
    FileNotFound { path: String },
    /// An I/O operation failed.
    Io(std::io::Error),
    /// A TOML deserialisation error.
    Toml(toml::de::Error),
    /// A JSON error (used for macro/schema files).
    Json(serde_json::Error),
    /// A SQLite database error.
    Database(String),
    /// An error from an external library, wrapped as a string to avoid
    /// leaking the dependency into the public API.
    Other(String),
}

/// `Display` for `std::io::Error`.  Nothing is stated of the text: it comes
/// from the operating system.
#[verifier::external_body]
fn io_error_text(e: &std::io::Error) -> String {
    e.to_string()
}

/// `Display` for `toml::de::Error`.  Nothing is stated of the text: it is the
/// parser's own diagnostic.
#[verifier::external_body]
fn toml_error_text(e: &toml::de::Error) -> String {
    e.to_string()
}

/// `Display` for `serde_json::Error`.  Nothing is stated of the text: it is
/// the parser's own diagnostic.
#[verifier::external_body]
fn json_error_text(e: &serde_json::Error) -> String {
    e.to_string()
}

impl CoreError {
    /// Convenience constructor for `CoreError::Other`.
    pub fn other<M: Into<String>>(msg: M) -> (res: Self)
        ensures
            res is Other,
            <M as vstd::std_specs::convert::IntoSpec<String>>::obeys_into_spec() ==> res == CoreError::Other(<M as vstd::std_specs::convert::IntoSpec<String>>::into_spec(msg)),
    {
        CoreError::Other(msg.into())
    }

    /// The human-readable message of this error.  For the variants that
    /// carry text of the library's own, the message is that text behind a
    /// fixed prefix; `Other` is its text alone.  The I/O, TOML and JSON
    /// variants show their fixed prefix followed by the wrapped error's own
    /// text, which comes from outside the library and is not stated.
    pub fn message(&self) -> (res: String)
        ensures
            self matches CoreError::Settings(m) ==> res@ == "settings error: "@ + m@,
            self matches CoreError::FileNotFound { path } ==> res@ == "file not found: "@ + path@,
            self matches CoreError::Database(m) ==> res@ == "database error: "@ + m@,
            self matches CoreError::Other(m) ==> res@ == m@,
            self is Io ==> exists|t: Seq<char>| res@ == "I/O error: "@ + t,
            self is Toml ==> exists|t: Seq<char>| res@ == "TOML parse error: "@ + t,
            self is Json ==> exists|t: Seq<char>| res@ == "JSON error: "@ + t,
    {
        match self {
            CoreError::Settings(m) => concat2("settings error: ", m.as_str()),
            CoreError::FileNotFound { path } => concat2("file not found: ", path.as_str()),
            CoreError::Io(e) => concat2("I/O error: ", io_error_text(e).as_str()),
            CoreError::Toml(e) => concat2("TOML parse error: ", toml_error_text(e).as_str()),
            CoreError::Json(e) => concat2("JSON error: ", json_error_text(e).as_str()),
            CoreError::Database(m) => concat2("database error: ", m.as_str()),
            CoreError::Other(m) => owned(m.as_str()),
        }
    }
}

impl vstd::std_specs::convert::FromSpecImpl<std::io::Error> for CoreError {
    open spec fn obeys_from_spec() -> bool {
        true
    }

    open spec fn from_spec(v: std::io::Error) -> CoreError {
        CoreError::Io(v)
    }
}

impl From<std::io::Error> for CoreError {
    /// An I/O error is wrapped as `CoreError::Io`.
    fn from(e: std::io::Error) -> (res: CoreError) {
        CoreError::Io(e)
    }
}

impl vstd::std_specs::convert::FromSpecImpl<toml::de::Error> for CoreError {
    open spec fn obeys_from_spec() -> bool {
        true
    }

    open spec fn from_spec(v: toml::de::Error) -> CoreError {
        CoreError::Toml(v)
    }
}

impl From<toml::de::Error> for CoreError {
    /// A TOML parse error is wrapped as `CoreError::Toml`.
    fn from(e: toml::de::Error) -> (res: CoreError) {
        CoreError::Toml(e)
    }
}

impl vstd::std_specs::convert::FromSpecImpl<serde_json::Error> for CoreError {
    open spec fn obeys_from_spec() -> bool {
        true
    }

    open spec fn from_spec(v: serde_json::Error) -> CoreError {
        CoreError::Json(v)
    }
}

impl From<serde_json::Error> for CoreError {
    /// A JSON error is wrapped as `CoreError::Json`.
    fn from(e: serde_json::Error) -> (res: CoreError) {
        CoreError::Json(e)
    }
}

/// The canonical result alias used across the library.
pub type Result<T> = std::result::Result<T, CoreError>;

} // verus!
