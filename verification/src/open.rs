//! Opening a store, one step at a time.
//!
//! An existing file is read, its bytes are taken as UTF-8 text, and the text
//! is parsed into a state. A missing file is created: the empty state is
//! rendered as text and written. Reading, parsing, rendering and writing are
//! carried out by the caller, who reports each outcome to the stage it
//! holds; what follows from an outcome is decided here. A stage can only be
//! obtained from the stage before it, so a store comes out of an existing
//! file only by way of a state that was parsed from it.

use vstd::prelude::*;
use vstd::utf8::{decode_utf8, valid_utf8};
use std::time::SystemTime;
use crate::db::{DatabaseThing, DatabaseThingView};
use crate::error::{DbError, DbErrorView};
use crate::outcome::result_view;
use crate::state::{StoreState, StoreStateView};
use crate::text::{text_from_utf8, utf8_rejection};

verus! {

/// An open attempt whose file is being read.
#[derive(Debug)]
pub struct Loading {
    filename: String,
}

/// Mathematical content of a [`Loading`].
pub struct LoadingView {
    pub filename: Seq<char>,
}

/// An open attempt whose text is being parsed.
#[derive(Debug)]
pub struct Parsing {
    filename: String,
    text: String,
}

/// Mathematical content of a [`Parsing`].
pub struct ParsingView {
    pub filename: Seq<char>,
    pub text: Seq<char>,
}

/// An open attempt whose initial state is being rendered as text.
#[derive(Debug)]
pub struct Creating {
    filename: String,
    data: StoreState,
}

/// Mathematical content of a [`Creating`].
pub struct CreatingView {
    pub filename: Seq<char>,
    pub data: StoreStateView,
}

/// An open attempt whose initial text is being written to the new file.
#[derive(Debug)]
pub struct Storing {
    filename: String,
    data: StoreState,
    text: String,
}

/// Mathematical content of a [`Storing`].
pub struct StoringView {
    pub filename: Seq<char>,
    pub data: StoreStateView,
    pub text: Seq<char>,
}

/// How an open attempt starts.
#[derive(Debug)]
pub enum Opening {
    /// The file exists: read it.
    Existing(Loading),
    /// The file is missing: create it.
    Missing(Creating),
}

/// Mathematical content of an [`Opening`].
pub enum OpeningView {
    Existing(LoadingView),
    Missing(CreatingView),
}

impl OpeningView {
    /// The first stage of opening `filename`: loading if the file exists,
    /// creating it with the empty state if it does not.
    pub open spec fn begin(filename: Seq<char>, exists: bool) -> OpeningView {
        if exists {
            OpeningView::Existing(LoadingView { filename })
        } else {
            OpeningView::Missing(
                CreatingView { filename, data: StoreStateView::empty() },
            )
        }
    }
}

impl LoadingView {
    /// The stage that follows reading. A read failure ends the attempt, and
    /// so do bytes that are not valid UTF-8; valid bytes are to be parsed as
    /// the text they encode.
    pub open spec fn loaded(self, outcome: Result<Seq<u8>, Seq<char>>) -> Result<
        ParsingView,
        DbErrorView,
    > {
        match outcome {
            Err(cause) => Err(DbErrorView::Read { path: self.filename, cause }),
            Ok(bytes) => if valid_utf8(bytes) {
                Ok(ParsingView { filename: self.filename, text: decode_utf8(bytes) })
            } else {
                Err(DbErrorView::Text { path: self.filename, cause: utf8_rejection(bytes) })
            },
        }
    }
}

impl ParsingView {
    /// The end of opening an existing file: a store over exactly the parsed
    /// state, or the parse failure.
    pub open spec fn decoded(self, outcome: Result<StoreStateView, Seq<char>>) -> Result<
        DatabaseThingView,
        DbErrorView,
    > {
        match outcome {
            Ok(data) => Ok(DatabaseThingView { filename: self.filename, data }),
            Err(cause) => Err(DbErrorView::Parse { path: self.filename, cause }),
        }
    }
}

impl CreatingView {
    /// The stage that follows rendering the initial state: its text is to be
    /// written; a rendering failure ends the attempt.
    pub open spec fn encoded(self, outcome: Result<Seq<char>, Seq<char>>) -> Result<
        StoringView,
        DbErrorView,
    > {
        match outcome {
            Ok(text) => Ok(StoringView { filename: self.filename, data: self.data, text }),
            Err(cause) => Err(DbErrorView::Encode { cause }),
        }
    }
}

impl StoringView {
    /// The end of creating a file: a store over the initial state once the
    /// file is written; a write failure ends the attempt.
    pub open spec fn written(self, outcome: Result<(), Seq<char>>) -> Result<
        DatabaseThingView,
        DbErrorView,
    > {
        match outcome {
            Ok(_) => Ok(DatabaseThingView { filename: self.filename, data: self.data }),
            Err(cause) => Err(DbErrorView::Write { cause }),
        }
    }
}

/// Opening an existing file from start to end: what was read is taken as
/// text, and the text is handed to `parse`, which stands for the parser
/// that the caller runs.
pub open spec fn open_existing(
    filename: Seq<char>,
    read: Result<Seq<u8>, Seq<char>>,
    parse: spec_fn(Seq<char>) -> Result<StoreStateView, Seq<char>>,
) -> Result<DatabaseThingView, DbErrorView> {
    match (LoadingView { filename }).loaded(read) {
        Err(failure) => Err(failure),
        Ok(parsing) => parsing.decoded(parse(parsing.text)),
    }
}

/// Creating a missing file from start to end: `rendered` is the outcome of
/// rendering the empty state, and `written` that of writing the text, which
/// is consulted only if there is a text to write.
pub open spec fn open_missing(
    filename: Seq<char>,
    rendered: Result<Seq<char>, Seq<char>>,
    written: Result<(), Seq<char>>,
) -> Result<DatabaseThingView, DbErrorView> {
    match (CreatingView { filename, data: StoreStateView::empty() }).encoded(rendered) {
        Err(failure) => Err(failure),
        Ok(storing) => storing.written(written),
    }
}

impl View for Loading {
    type V = LoadingView;

    closed spec fn view(&self) -> LoadingView {
        LoadingView { filename: self.filename@ }
    }
}

impl View for Parsing {
    type V = ParsingView;

    closed spec fn view(&self) -> ParsingView {
        ParsingView { filename: self.filename@, text: self.text@ }
    }
}

impl View for Creating {
    type V = CreatingView;

    closed spec fn view(&self) -> CreatingView {
        CreatingView { filename: self.filename@, data: self.data@ }
    }
}

impl View for Storing {
    type V = StoringView;

    closed spec fn view(&self) -> StoringView {
        StoringView { filename: self.filename@, data: self.data@, text: self.text@ }
    }
}

impl View for Opening {
    type V = OpeningView;

    open spec fn view(&self) -> OpeningView {
        match self {
            Opening::Existing(loading) => OpeningView::Existing(loading@),
            Opening::Missing(creating) => OpeningView::Missing(creating@),
        }
    }
}

impl Opening {
    /// The first stage of opening `filename`, given whether the file exists.
    pub(crate) fn begin(filename: &str, exists: bool) -> (opening: Opening)
        ensures
            opening@ == OpeningView::begin(filename@, exists),
    {
        if exists {
            Opening::Existing(Loading { filename: filename.to_owned() })
        } else {
            Opening::Missing(
                Creating { filename: filename.to_owned(), data: StoreState::new() },
            )
        }
    }
}

impl Loading {
    /// The file to read.
    pub fn filename(&self) -> (filename: &String)
        ensures
            filename@ == self@.filename,
    {
        &self.filename
    }

    /// Takes the outcome of reading the file: its bytes, or the cause for
    /// which reading failed.
    pub fn loaded(self, outcome: Result<Vec<u8>, String>) -> (next: Result<Parsing, DbError>)
        ensures
            result_view(next) == self@.loaded(result_view(outcome)),
    {
        match outcome {
            Err(cause) => Err(DbError::Read { path: self.filename, cause }),
            Ok(bytes) => match text_from_utf8(bytes) {
                Ok(text) => Ok(Parsing { filename: self.filename, text }),
                Err(cause) => Err(DbError::Text { path: self.filename, cause }),
            },
        }
    }
}

impl Parsing {
    /// The text to parse.
    pub fn text(&self) -> (text: &String)
        ensures
            text@ == self@.text,
    {
        &self.text
    }

    /// Takes the outcome of parsing the text, at the moment `now`: the
    /// state, or the cause for which parsing failed.
    pub fn decoded_at(self, outcome: Result<StoreState, String>, now: SystemTime) -> (db:
        Result<DatabaseThing, DbError>)
        ensures
            result_view(db) == self@.decoded(result_view(outcome)),
            db is Ok ==> db->Ok_0.flushed_at() == now,
    {
        match outcome {
            Ok(data) => Ok(DatabaseThing::assemble(self.filename, data, now)),
            Err(cause) => Err(DbError::Parse { path: self.filename, cause }),
        }
    }

    /// Takes the outcome of parsing the text: the state, or the cause for
    /// which parsing failed. A store that comes out records the current
    /// time as the moment it was last touched.
    pub fn decoded(self, outcome: Result<StoreState, String>) -> (db: Result<
        DatabaseThing,
        DbError,
    >)
        ensures
            result_view(db) == self@.decoded(result_view(outcome)),
    {
        let now = SystemTime::now();
        self.decoded_at(outcome, now)
    }
}

impl Creating {
    /// The state to render: the empty state.
    pub fn data(&self) -> (data: &StoreState)
        ensures
            data@ == self@.data,
    {
        &self.data
    }

    /// Takes the outcome of rendering the initial state: the text, or the
    /// cause for which rendering failed.
    pub fn encoded(self, outcome: Result<String, String>) -> (next: Result<Storing, DbError>)
        ensures
            result_view(next) == self@.encoded(result_view(outcome)),
    {
        match outcome {
            Ok(text) => Ok(Storing { filename: self.filename, data: self.data, text }),
            Err(cause) => Err(DbError::Encode { cause }),
        }
    }
}

impl Storing {
    /// The file to create.
    pub fn filename(&self) -> (filename: &String)
        ensures
            filename@ == self@.filename,
    {
        &self.filename
    }

    /// The text to write into the new file.
    pub fn text(&self) -> (text: &String)
        ensures
            text@ == self@.text,
    {
        &self.text
    }

    /// Takes the outcome of writing the new file, at the moment `now`:
    /// nothing, or the cause for which writing failed.
    pub fn written_at(self, outcome: Result<(), String>, now: SystemTime) -> (db: Result<
        DatabaseThing,
        DbError,
    >)
        ensures
            result_view(db) == self@.written(result_view(outcome)),
            db is Ok ==> db->Ok_0.flushed_at() == now,
    {
        match outcome {
            Ok(_) => Ok(DatabaseThing::assemble(self.filename, self.data, now)),
            Err(cause) => Err(DbError::Write { cause }),
        }
    }

    /// Takes the outcome of writing the new file: nothing, or the cause for
    /// which writing failed. A store that comes out records the current
    /// time as the moment it was last touched.
    pub fn written(self, outcome: Result<(), String>) -> (db: Result<DatabaseThing, DbError>)
        ensures
            result_view(db) == self@.written(result_view(outcome)),
    {
        let now = SystemTime::now();
        self.written_at(outcome, now)
    }
}

} // verus!
