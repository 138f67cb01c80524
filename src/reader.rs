use vstd::prelude::*;

verus! {

/// How a failed read is reported to the caller.
#[derive(Clone, Copy, Debug, PartialEq, Eq, Structural)]
pub enum FailureKind {
    /// Nothing exists at the given path.
    NotFound,
    /// Any other failure: permissions, a device error, text that does not decode.
    OtherIO,
}

/// What the operating system said when opening or reading failed.
#[derive(Debug)]
pub struct IoFailure {
    /// The failure was that no file exists at the path.
    pub not_found: bool,
    /// A human-readable description of the cause.
    pub cause: String,
}

/// The outcome of reading a whole file as text.
#[derive(Debug, PartialEq, Eq)]
pub enum ReadResult {
    /// The full contents of the file.
    Success(String),
    /// The read failed; the kind tells a missing file from any other failure.
    Failure(FailureKind, String),
}

/// The kind under which a failure is reported.
pub open spec fn kind_of(not_found: bool) -> FailureKind {
    if not_found {
        FailureKind::NotFound
    } else {
        FailureKind::OtherIO
    }
}

/// Classifies an operating-system failure: a missing file is `NotFound`, anything else `OtherIO`.
pub fn failure_kind(not_found: bool) -> (k: FailureKind)
    ensures
        k == kind_of(not_found),
{
    if not_found {
        FailureKind::NotFound
    } else {
        FailureKind::OtherIO
    }
}

/// Wraps the result of an open-then-read attempt into the outcome handed to the caller:
/// the text on success, and on failure its kind and cause, unchanged.
pub fn read_result(r: Result<String, IoFailure>) -> (out: ReadResult)
    ensures
        match r {
            Ok(text) => out matches ReadResult::Success(t) && t@ == text@,
            Err(e) => out matches ReadResult::Failure(k, c) && k == kind_of(e.not_found) && c@
                == e.cause@,
        },
{
    match r {
        Ok(text) => ReadResult::Success(text),
        Err(e) => ReadResult::Failure(failure_kind(e.not_found), e.cause),
    }
}

} // verus!
