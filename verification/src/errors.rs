//! Errors arising from the ledger and its actor protocol.

use vstd::prelude::*;

verus! {

/// The closed set of failures a caller can observe. Each carries only what
/// explains the failure, so callers can branch on the kind.
#[derive(Debug)]
pub enum Error {
    /// A text-encoded binary payload was malformed. Detected before any
    /// state change; a failing multi-transaction append is discarded whole.
    Decode { source: base64::DecodeError },
    /// A supplied index names no existing entity. The message states which
    /// index was out of range.
    OutOfBounds { message: String },
    /// The actor is shutting down; the operation was not performed.
    Terminated,
}

} // verus!
