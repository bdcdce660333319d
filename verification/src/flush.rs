//! Writing the state to the backing file, one step at a time.
//!
//! A flush renders the state as text and then replaces the file's content
//! with that text. Neither step is carried out here: the caller renders and
//! writes, and reports each outcome to the stage it holds. A flush never
//! fails towards its caller: all that comes out of a failed step is a line
//! to be logged.

use vstd::prelude::*;
use vstd::string::StringExecFns;
use crate::outcome::{option_view, result_view};

verus! {

/// The line that reports a flush failing for `cause`.
pub open spec fn failure_line(cause: Seq<char>) -> Seq<char> {
    "error when writing database file: "@ + cause
}

/// The line that reports a flush failing for `cause`.
fn report(cause: &String) -> (line: String)
    ensures
        line@ == failure_line(cause@),
{
    let mut line: String = "error when writing database file: ".to_owned();
    line.append(cause.as_str());
    line
}

/// A flush whose state is being rendered as text.
#[derive(Debug)]
pub struct Flushing {
    filename: String,
}

/// Mathematical content of a [`Flushing`].
pub struct FlushingView {
    pub filename: Seq<char>,
}

/// A flush whose text is being written to the backing file.
#[derive(Debug)]
pub struct Writing {
    filename: String,
    text: String,
}

/// Mathematical content of a [`Writing`].
pub struct WritingView {
    pub filename: Seq<char>,
    pub text: Seq<char>,
}

/// What a flush does once rendering has ended.
#[derive(Debug)]
pub enum Flush {
    /// Write the text to the backing file.
    Write(Writing),
    /// Give up, logging this line.
    Failed(String),
}

/// Mathematical content of a [`Flush`].
pub enum FlushView {
    Write(WritingView),
    Failed(Seq<char>),
}

impl FlushingView {
    /// The step that follows rendering: the rendered text is to be written
    /// to the same file; a rendering failure ends the flush with a line to
    /// log, and nothing is written.
    pub open spec fn encoded(self, outcome: Result<Seq<char>, Seq<char>>) -> FlushView {
        match outcome {
            Ok(text) => FlushView::Write(WritingView { filename: self.filename, text }),
            Err(cause) => FlushView::Failed(failure_line(cause)),
        }
    }
}

impl WritingView {
    /// The line to log once writing has ended: none after a successful
    /// write, the report of the failure otherwise.
    pub open spec fn written(self, outcome: Result<(), Seq<char>>) -> Option<Seq<char>> {
        match outcome {
            Ok(_) => None,
            Err(cause) => Some(failure_line(cause)),
        }
    }
}

impl View for Flushing {
    type V = FlushingView;

    closed spec fn view(&self) -> FlushingView {
        FlushingView { filename: self.filename@ }
    }
}

impl View for Writing {
    type V = WritingView;

    closed spec fn view(&self) -> WritingView {
        WritingView { filename: self.filename@, text: self.text@ }
    }
}

impl View for Flush {
    type V = FlushView;

    open spec fn view(&self) -> FlushView {
        match self {
            Flush::Write(writing) => FlushView::Write(writing@),
            Flush::Failed(line) => FlushView::Failed(line@),
        }
    }
}

impl Flushing {
    /// A flush of the state kept in `filename`.
    pub(crate) fn begin(filename: &String) -> (flushing: Flushing)
        ensures
            flushing@.filename == filename@,
    {
        Flushing { filename: filename.clone() }
    }

    /// The file that the flush will write.
    pub fn filename(&self) -> (filename: &String)
        ensures
            filename@ == self@.filename,
    {
        &self.filename
    }

    /// Takes the outcome of rendering the state: the text, or the cause for
    /// which rendering failed.
    pub fn encoded(self, outcome: Result<String, String>) -> (next: Flush)
        ensures
            next@ == self@.encoded(result_view(outcome)),
    {
        match outcome {
            Ok(text) => Flush::Write(Writing { filename: self.filename, text }),
            Err(cause) => Flush::Failed(report(&cause)),
        }
    }
}

impl Writing {
    /// The file to write.
    pub fn filename(&self) -> (filename: &String)
        ensures
            filename@ == self@.filename,
    {
        &self.filename
    }

    /// The text that is to replace the file's content.
    pub fn text(&self) -> (text: &String)
        ensures
            text@ == self@.text,
    {
        &self.text
    }

    /// Takes the outcome of writing the file: nothing, or the cause for
    /// which writing failed. Returns the line to log, if any.
    pub fn written(self, outcome: Result<(), String>) -> (line: Option<String>)
        ensures
            option_view(line) == self@.written(result_view(outcome)),
    {
        match outcome {
            Ok(_) => None,
            Err(cause) => Some(report(&cause)),
        }
    }
}

} // verus!
