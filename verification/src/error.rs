use vstd::prelude::*;

use crate::state::ProfilerState;

verus! {

/// Closed taxonomy of the failures a profiler operation can report.
///
/// Every foreign-boundary and filesystem failure is converted into one of
/// these variants at the point of detection and returned to the caller;
/// nothing is swallowed or retried, and callers consume the variants by
/// pattern matching.
#[derive(Debug)]
pub enum Error {
    /// The supplied path or reason bytes contain an embedded nul and so
    /// cannot be passed to the native API as a nul-terminated buffer.
    NulByteInContent,
    /// The supplied bytes are not well-formed UTF-8 and cannot be rendered
    /// as a diagnostic path string.
    NonUtf8Content,
    /// The output path could not be created or opened for writing; carries
    /// the text of the underlying filesystem error.
    IoFailure(String),
    /// The requested operation is illegal in the handle's current state;
    /// carries that state.
    InvalidState(ProfilerState),
    /// The native library reported failure through its return code.
    InternalFailure,
}

} // verus!
