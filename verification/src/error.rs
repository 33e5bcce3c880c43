use vstd::prelude::*;

verus! {

/// Why a ledger operation was refused. Every error is terminal for the
/// attempted operation and leaves all records unchanged.
#[derive(Clone, Copy, Debug, PartialEq, Eq, Structural)]
pub enum ErrorCode {
    /// The creation address already holds a record.
    AlreadyExists,
    /// A string exceeds the bounded capacity reserved for it.
    InvalidInput,
    /// The caller's identity does not match the record's stored authority.
    Unauthorized,
    /// The history buffer is already at its reserved maximum.
    CapacityExceeded,
}

} // verus!
