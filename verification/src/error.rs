//! The error type shared by every component of the crate.

use vstd::prelude::*;

verus! {

/// What went wrong, by category. The categories drive control flow: a
/// download failure becomes a popup, while a search failure ends the run.
#[derive(Clone, Copy, Debug, PartialEq, Eq, Structural)]
pub enum PRZZIErrorKind {
    /// Neither a query nor a download link was given, or both were.
    Config,
    /// Transport failure while talking to the search index.
    Network,
    /// The index's response was not valid JSON or lacked a `data` array.
    Decode,
    /// A search record was missing a required field or held an unusable one.
    MalformedResult,
    /// Transport failure while talking to the mirror or the download host.
    Fetch,
    /// The mirror page had no recognizable download button, or the payload
    /// fetched from it was not a PDF.
    ResolutionFailed,
    /// The resolved PDF could not be written to disk.
    Io,
    /// The terminal driver failed while entering or leaving raw mode.
    Terminal,
}

/// An error: a category plus a human-readable message.
pub struct PRZZIError {
    pub kind: PRZZIErrorKind,
    pub msg: String,
}

impl PRZZIError {
    /// Builds an error of the given category.
    pub fn new(kind: PRZZIErrorKind, msg: String) -> (r: Self)
        ensures
            r.kind == kind,
            r.msg == msg,
    {
        PRZZIError { kind, msg }
    }

    /// The message, for display outside the alternate screen.
    pub fn message(&self) -> (r: &String)
        ensures
            r == &self.msg,
    {
        &self.msg
    }
}

} // verus!
