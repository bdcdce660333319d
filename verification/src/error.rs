//! What can go wrong while a store is opened or written.

use vstd::prelude::*;
use vstd::string::StringExecFns;

verus! {

/// The three families of failure.
#[derive(Debug, Clone, Copy, PartialEq, Eq, Structural)]
pub enum ErrorKind {
    /// The backing file could not be read or written.
    Io,
    /// The backing file holds something that is not a persisted state.
    Decode,
    /// The state could not be rendered as text.
    Encode,
}

/// A failure, with the cause as the failing operation worded it.
#[derive(Debug, PartialEq, Eq)]
pub enum DbError {
    /// Reading the file at `path` failed.
    Read { path: String, cause: String },
    /// The bytes of the file at `path` are not valid UTF-8.
    Text { path: String, cause: String },
    /// The text of the file at `path` is not a well-formed state.
    Parse { path: String, cause: String },
    /// The state could not be rendered as text.
    Encode { cause: String },
    /// Writing the file failed.
    Write { cause: String },
}

/// Mathematical content of a [`DbError`].
pub enum DbErrorView {
    Read { path: Seq<char>, cause: Seq<char> },
    Text { path: Seq<char>, cause: Seq<char> },
    Parse { path: Seq<char>, cause: Seq<char> },
    Encode { cause: Seq<char> },
    Write { cause: Seq<char> },
}

impl DbErrorView {
    /// The family the failure belongs to.
    pub open spec fn kind(self) -> ErrorKind {
        match self {
            DbErrorView::Read { .. } => ErrorKind::Io,
            DbErrorView::Text { .. } => ErrorKind::Decode,
            DbErrorView::Parse { .. } => ErrorKind::Decode,
            DbErrorView::Encode { .. } => ErrorKind::Encode,
            DbErrorView::Write { .. } => ErrorKind::Io,
        }
    }

    /// The line shown for the failure. A failure tied to reading the file
    /// names the path before the cause; the others are the cause alone.
    pub open spec fn message(self) -> Seq<char> {
        match self {
            DbErrorView::Read { path, cause } => "error reading file "@ + path + ": "@ + cause,
            DbErrorView::Text { path, cause } => "error parsing text in file "@ + path + ": "@
                + cause,
            DbErrorView::Parse { path, cause } => "error parsing ron in file "@ + path + ": "@
                + cause,
            DbErrorView::Encode { cause } => cause,
            DbErrorView::Write { cause } => cause,
        }
    }
}

impl View for DbError {
    type V = DbErrorView;

    open spec fn view(&self) -> DbErrorView {
        match self {
            DbError::Read { path, cause } => DbErrorView::Read { path: path@, cause: cause@ },
            DbError::Text { path, cause } => DbErrorView::Text { path: path@, cause: cause@ },
            DbError::Parse { path, cause } => DbErrorView::Parse { path: path@, cause: cause@ },
            DbError::Encode { cause } => DbErrorView::Encode { cause: cause@ },
            DbError::Write { cause } => DbErrorView::Write { cause: cause@ },
        }
    }
}

/// `prefix`, then `path`, a colon and a space, then `cause`.
fn located(prefix: &str, path: &String, cause: &String) -> (line: String)
    ensures
        line@ == prefix@ + path@ + ": "@ + cause@,
{
    let mut line: String = prefix.to_owned();
    line.append(path.as_str());
    line.append(": ");
    line.append(cause.as_str());
    line
}

impl DbError {
    /// The family the failure belongs to.
    pub fn kind(&self) -> (kind: ErrorKind)
        ensures
            kind == self@.kind(),
    {
        match self {
            DbError::Read { .. } => ErrorKind::Io,
            DbError::Text { .. } => ErrorKind::Decode,
            DbError::Parse { .. } => ErrorKind::Decode,
            DbError::Encode { .. } => ErrorKind::Encode,
            DbError::Write { .. } => ErrorKind::Io,
        }
    }

    /// The line shown for the failure.
    pub fn message(&self) -> (line: String)
        ensures
            line@ == self@.message(),
    {
        match self {
            DbError::Read { path, cause } => located("error reading file ", path, cause),
            DbError::Text { path, cause } => located("error parsing text in file ", path, cause),
            DbError::Parse { path, cause } => located("error parsing ron in file ", path, cause),
            DbError::Encode { cause } => cause.clone(),
            DbError::Write { cause } => cause.clone(),
        }
    }
}

} // verus!
