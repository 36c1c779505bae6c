//! The conditions under which a ledger operation declines to act.

use vstd::prelude::*;

verus! {

/// Why an operation was refused. Every refusal leaves the ledger as it was.
#[derive(Clone, Copy, Debug, PartialEq, Eq, Structural)]
pub enum Error {
    /// A required text field was empty.
    InvalidInput,
    /// The referenced post does not exist.
    NotFound,
    /// The caller has no username, or is not the owner of the record.
    Unauthorized,
    /// The username already belongs to some caller.
    AlreadyClaimed,
    /// The caller already holds a username.
    AlreadyRegistered,
    /// The registry holds no username yet.
    Empty,
    /// The counter of identifiers could not be opened or advanced.
    CounterUnavailable,
}

} // verus!
