//! What a step of a session reports: a status, or the one error.

use vstd::prelude::*;

verus! {

/// The error of a brotli stream: the engine reported a failure.
///
/// It carries nothing else. Malformed input, a metadata block that is too
/// large and an output region that is too small all end here.
#[derive(Debug, Clone, PartialEq, Eq, Structural)]
pub struct Error;

/// Whether an operation of a compression session is complete.
///
/// This says nothing of the stream as a whole: see `Compress::compress`.
#[derive(Debug, Clone, Copy, PartialEq, Eq, Structural)]
pub enum CoStatus {
    /// The operation completed.
    Finished,
    /// The operation has more work to do and must be called again with the
    /// same input.
    Unfinished,
}

/// How a step of a decompression session ended.
#[derive(Debug, Clone, Copy, PartialEq, Eq, Structural)]
pub enum DeStatus {
    /// The stream ended cleanly.
    Finished,
    /// All input was used and the stream is not complete.
    NeedInput,
    /// The output region was filled before the engine was done.
    NeedOutput,
}

impl Error {
    /// The fixed description of the error.
    pub fn description(&self) -> (s: &'static str)
        ensures
            s@ == "codec error"@,
    {
        "codec error"
    }
}

} // verus!
