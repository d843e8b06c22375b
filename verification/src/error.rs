//! The failures that the tool reports.

use vstd::prelude::*;
use vstd::string::*;

verus! {

/// Why a request of the user could not be carried out.
#[derive(Debug, PartialEq, Eq)]
pub enum UnlockError {
    /// The settings store could not be opened, queried or updated, or it
    /// holds no row for the settings. Carries the store's own words.
    Store(String),
    /// The stored value is not the JSON that the tool expects. Carries the
    /// parser's words, or the library's where a member is missing.
    Parse(String),
    /// The installation is not recorded in the registry.
    Registry,
    /// No file lies at the path that was given. Carries that path.
    FileNotFound(String),
}

/// The kind of a failure, without the words that come with it.
#[derive(Clone, Copy, PartialEq, Eq, Structural, Debug)]
pub enum ErrorKind {
    /// The settings store could not be read or written.
    Store,
    /// The stored value is not the JSON that the tool expects.
    Parse,
    /// The installation is not recorded in the registry.
    Registry,
    /// No file lies at the path that was given.
    FileNotFound,
}

/// What is shown in front of a store's own message.
pub const STORE_PREFIX: &'static str = "Database error: ";

/// What is shown in front of a parser's message.
pub const PARSE_PREFIX: &'static str = "JSON error: ";

/// What is shown in front of the path of a file that is not there.
pub const NOT_FOUND_PREFIX: &'static str = "File not found or inaccessible: ";

/// What is shown when the registry knows no installation.
pub const REGISTRY_MESSAGE: &'static str =
    "Registry error: Could not access the registry key or value.";

impl UnlockError {
    /// The kind of this failure.
    pub open spec fn kind_of(self) -> ErrorKind {
        match self {
            UnlockError::Store(_) => ErrorKind::Store,
            UnlockError::Parse(_) => ErrorKind::Parse,
            UnlockError::Registry => ErrorKind::Registry,
            UnlockError::FileNotFound(_) => ErrorKind::FileNotFound,
        }
    }

    /// The kind of this failure.
    pub fn kind(&self) -> (kind: ErrorKind)
        ensures
            kind == self.kind_of(),
    {
        match self {
            UnlockError::Store(_) => ErrorKind::Store,
            UnlockError::Parse(_) => ErrorKind::Parse,
            UnlockError::Registry => ErrorKind::Registry,
            UnlockError::FileNotFound(_) => ErrorKind::FileNotFound,
        }
    }

    /// The text of the message that stands for this failure.
    pub open spec fn message_text(self) -> Seq<char> {
        match self {
            UnlockError::Store(detail) => STORE_PREFIX@ + detail@,
            UnlockError::Parse(detail) => PARSE_PREFIX@ + detail@,
            UnlockError::Registry => REGISTRY_MESSAGE@,
            UnlockError::FileNotFound(path) => NOT_FOUND_PREFIX@ + path@,
        }
    }

    /// The message that is shown to the user for this failure.
    pub fn message(&self) -> (text: String)
        ensures
            text@ == self.message_text(),
    {
        match self {
            UnlockError::Store(detail) => String::from_str(STORE_PREFIX).concat(detail.as_str()),
            UnlockError::Parse(detail) => String::from_str(PARSE_PREFIX).concat(detail.as_str()),
            UnlockError::Registry => String::from_str(REGISTRY_MESSAGE),
            UnlockError::FileNotFound(path) => String::from_str(NOT_FOUND_PREFIX).concat(
                path.as_str(),
            ),
        }
    }
}

} // verus!
