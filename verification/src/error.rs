//! The errors that operations report.

use vstd::prelude::*;
use vstd::string::StringExecFns;

verus! {

/// What went wrong.
#[derive(Clone, Copy, Debug, PartialEq, Eq, Structural)]
pub enum ErrorKind {
    /// A required program or model file is absent.
    ToolNotFound,
    /// The operating system could not start the program.
    ToolLaunchFailed,
    /// The program ran and reported failure.
    ToolExitedNonZero,
    /// The metadata has an unexpected shape.
    MalformedMetadata,
    /// The item has no captions to fetch.
    NoCaptionsAvailable,
    /// The recognizer reported success but left no transcript.
    TranscriptFileMissing,
    /// The file to work on does not exist.
    InputFileMissing,
}

/// An error with the message that is shown to the user.
#[derive(Debug)]
pub struct ToolError {
    pub kind: ErrorKind,
    pub message: String,
}

/// An error as plain values.
pub struct ErrorText {
    pub kind: ErrorKind,
    pub message: Seq<char>,
}

impl View for ToolError {
    type V = ErrorText;

    open spec fn view(&self) -> ErrorText {
        ErrorText { kind: self.kind, message: self.message@ }
    }
}

/// The outcome of an operation that yields text, as plain values.
pub open spec fn outcome_text(r: Result<String, ToolError>) -> Result<Seq<char>, ErrorText> {
    match r {
        Ok(text) => Ok(text@),
        Err(e) => Err(e@),
    }
}

/// The error of kind `kind` whose message is `prefix` followed by `detail`.
pub fn failure(kind: ErrorKind, prefix: &str, detail: &str) -> (e: ToolError)
    ensures
        e@ == (ErrorText { kind, message: prefix@ + detail@ }),
{
    ToolError { kind, message: String::from_str(prefix).concat(detail) }
}

} // verus!
