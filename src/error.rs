//! The errors that statement execution reports to its caller.
use crate::handles::NativeError;
use vstd::prelude::*;

verus! {

/// An operational error, returned as a value to the immediate caller.
#[derive(Clone, Copy, Debug, PartialEq, Eq, Structural)]
pub enum Error {
    /// The native layer could not allocate a statement handle.
    AllocationFailed(NativeError),
    /// The native layer reported an error while executing the statement.
    ExecutionFailed(NativeError),
}

} // verus!
