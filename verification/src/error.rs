//! Error taxonomy of the judge.

use vstd::prelude::*;

verus! {

/// Everything that can go wrong while judging, independent of where it
/// surfaces: configuration ingestion, validation, or the privileged
/// syscalls around the sandboxed child.
#[derive(Debug, Clone, PartialEq, Eq)]
pub enum Error {
    /// Failure reading the configuration file or writing the verdict.
    IOError(String),
    /// Malformed configuration document.
    JsonError(String),
    /// `lang` is not in the recognized set; carries the offending value.
    InvalidLanguage(String),
    /// A required path does not exist at validation time; carries the path.
    InvalidFilePath(String),
    /// A numeric limit is zero; carries the limit's name.
    InvalidLimit(String),
    /// The caller is not root.
    PermissionDenied,
    /// A privileged syscall failed; carries the errno value.
    KernelError(i32),
    /// Free-form wrapper for contextual failures.
    Message(String),
}

} // verus!
