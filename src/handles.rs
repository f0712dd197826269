//! Native handles and the native layer's answers, as plain values.
use vstd::prelude::*;

verus! {

/// Identifies a native connection handle.
#[derive(Clone, Copy, Debug, PartialEq, Eq, Structural)]
pub struct ConnectionHandle {
    pub raw: u64,
}

/// Identifies a native statement handle.
#[derive(Clone, Copy, Debug, PartialEq, Eq, Structural)]
pub struct StatementHandle {
    pub raw: u64,
}

/// The diagnostic that the native layer attaches to a failed operation.
#[derive(Clone, Copy, Debug, PartialEq, Eq, Structural)]
pub struct NativeError {
    pub native_code: i32,
}

/// The three-way outcome of a native operation.
#[derive(Clone, Copy, Debug, PartialEq, Eq, Structural)]
pub enum SqlReturn {
    /// The operation succeeded.
    Success,
    /// The operation succeeded and produced no data.
    NoData,
    /// The operation failed with the given diagnostic.
    Error(NativeError),
}

} // verus!
