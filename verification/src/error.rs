//! The categories under which an instruction is rejected.

use vstd::prelude::*;

verus! {

/// Why an instruction was rejected. Every rejection aborts the whole
/// execution unit; nothing is retried.
#[derive(Clone, Copy, Debug, PartialEq, Eq, Structural)]
pub enum CustodyError {
    /// A payload, a persisted record or a signature record that is too short
    /// or carries a value that is not allowed (a zero amount).
    MalformedInput,
    /// A missing signature, a wrong owner or service identity, a derived
    /// address that disagrees, or persisted terms that disagree with the
    /// accounts supplied.
    Unauthorized,
    /// A vault that is funded when it must be empty, or empty when it must
    /// be funded, or an authorization that has expired.
    PreconditionFailed,
    /// An account list of the wrong length, or a foreign account whose data
    /// ends before the field that is read from it.
    NotFound,
}

} // verus!
