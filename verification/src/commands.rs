//! What the file commands report to the front end.
//!
//! Reading and writing happen in the shell. A failure there never crosses
//! the command boundary as a fault: it is handed to these functions as a
//! message and comes back inside the result record.

use crate::text::opt_text;
use vstd::prelude::*;

verus! {

/// A file's path together with its text.
#[derive(Debug, PartialEq, Eq)]
pub struct FileContent {
    pub path: String,
    pub content: String,
}

/// Mathematical model of a [`FileContent`].
pub struct FileContentModel {
    pub path: Seq<char>,
    pub content: Seq<char>,
}

impl View for FileContent {
    type V = FileContentModel;

    open spec fn view(&self) -> FileContentModel {
        FileContentModel { path: self.path@, content: self.content@ }
    }
}

/// The outcome of reading or writing a file.
#[derive(Debug, PartialEq, Eq)]
pub struct FileResult {
    pub success: bool,
    pub content: Option<String>,
    pub error: Option<String>,
}

/// Mathematical model of a [`FileResult`].
pub struct FileResultModel {
    pub success: bool,
    pub content: Option<Seq<char>>,
    pub error: Option<Seq<char>>,
}

impl View for FileResult {
    type V = FileResultModel;

    open spec fn view(&self) -> FileResultModel {
        FileResultModel {
            success: self.success,
            content: opt_text(self.content),
            error: opt_text(self.error),
        }
    }
}

impl FileResult {
    /// Content comes only with success, an error message always and only
    /// with failure.
    pub open spec fn well_formed(&self) -> bool {
        if self.success {
            self.error is None
        } else {
            self.content is None && self.error is Some
        }
    }
}

/// The acknowledgement of a "new file" request.
#[derive(Clone, Copy, Debug, PartialEq, Eq)]
pub struct NewFileResult {
    pub success: bool,
}

/// What a read reports: the text on success, the message on failure.
pub open spec fn read_report(outcome: Result<String, String>) -> FileResultModel {
    match outcome {
        Ok(text) => FileResultModel { success: true, content: Some(text@), error: None },
        Err(message) => FileResultModel { success: false, content: None, error: Some(message@) },
    }
}

/// What a write reports: bare success, or the message on failure.
pub open spec fn write_report(outcome: Result<(), String>) -> FileResultModel {
    match outcome {
        Ok(_) => FileResultModel { success: true, content: None, error: None },
        Err(message) => FileResultModel { success: false, content: None, error: Some(message@) },
    }
}

/// The greeting for `name`.
pub open spec fn greeting(name: Seq<char>) -> Seq<char> {
    "Hello, "@ + name + "! You've been greeted from Rust!"@
}

/// Greets `name`.
pub fn greet(name: &str) -> (message: String)
    ensures
        message@ == greeting(name@),
{
    let mut message = "Hello, ".to_owned();
    message.append(name);
    message.append("! You've been greeted from Rust!");
    message
}

/// Reports the outcome of reading a file: `Ok` with the file's text, or
/// `Err` with the system's message.
pub fn read_file(outcome: Result<String, String>) -> (result: FileResult)
    ensures
        result@ == read_report(outcome),
        result.well_formed(),
{
    match outcome {
        Ok(text) => FileResult { success: true, content: Some(text), error: None },
        Err(message) => FileResult { success: false, content: None, error: Some(message) },
    }
}

/// Reports the outcome of writing a file: `Ok`, or `Err` with the system's
/// message.
pub fn write_file(outcome: Result<(), String>) -> (result: FileResult)
    ensures
        result@ == write_report(outcome),
        result.well_formed(),
{
    match outcome {
        Ok(_) => FileResult { success: true, content: None, error: None },
        Err(message) => FileResult { success: false, content: None, error: Some(message) },
    }
}

/// Acknowledges a "new file" request. Nothing is read or written: the
/// front end clears its own state on this answer.
pub fn new_file() -> (result: NewFileResult)
    ensures
        result.success,
{
    NewFileResult { success: true }
}

/// The status with which the application leaves: success.
pub fn exit_app() -> (status: i32)
    ensures
        status == 0,
{
    0
}

/// A read that failed with a message reports failure, no content, and that
/// message as its error, which is therefore not empty.
pub proof fn lemma_failed_read_reports_message(outcome: Result<String, String>)
    requires
        outcome is Err,
        outcome->Err_0@.len() > 0,
    ensures
        !read_report(outcome).success,
        read_report(outcome).content is None,
        read_report(outcome).error == Some(outcome->Err_0@),
        read_report(outcome).error->Some_0.len() > 0,
{
}

/// A write that failed with a message reports failure and that message as
/// its error, which is therefore not empty.
pub proof fn lemma_failed_write_reports_message(outcome: Result<(), String>)
    requires
        outcome is Err,
        outcome->Err_0@.len() > 0,
    ensures
        !write_report(outcome).success,
        write_report(outcome).content is None,
        write_report(outcome).error == Some(outcome->Err_0@),
        write_report(outcome).error->Some_0.len() > 0,
{
}

/// A read that succeeded reports exactly the text it was given, and no error.
pub proof fn lemma_successful_read_reports_text(outcome: Result<String, String>)
    requires
        outcome is Ok,
    ensures
        read_report(outcome).success,
        read_report(outcome).content == Some(outcome->Ok_0@),
        read_report(outcome).error is None,
{
}

} // verus!
