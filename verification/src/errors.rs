//! Common error types of the storage layer.
//!
//! Operating-system error codes are classified into these kinds at the lowest
//! layer and surfaced to callers as typed failures; the sources themselves
//! are not carried along.

use vstd::prelude::*;

verus! {

/// Errors raised by validated constructions of this library.
#[derive(Debug, Clone, Copy, PartialEq, Eq, Structural)]
pub enum LuxorError {
    /// `value` is not aligned to `alignment` bytes.
    AlignmentError { value: u64, alignment: u64 },
}

/// Generic error type for I/O related failures.
#[derive(Debug, Clone, Copy, PartialEq, Eq, Structural)]
pub enum IOError {
    /// The caller lacks the permissions for the operation.
    AccessDeniedError,
    /// The named file does not exist.
    FileNotFoundError,
    /// The calling thread was interrupted by a signal. This condition is
    /// non-fatal: the interrupted operation may simply be retried.
    Interrupted,
    /// A parameter of the operation was rejected by the operating system.
    InvalidInput,
    /// Any other I/O failure.
    Generic,
}

} // verus!
