//! The errors that ending or constructing a transaction handle can give.

use vstd::prelude::*;

verus! {

/// What the store said when it refused a request or failed a transaction: the
/// name of the exception it raised and the message that came with it.
#[derive(Debug, Clone, PartialEq, Eq)]
pub struct NativeError {
    pub name: String,
    pub message: String,
}

/// The store ended the transaction otherwise than the caller asked.
#[derive(Debug, Clone, Copy, PartialEq, Eq)]
pub enum IntentMismatchError {
    /// A commit was asked for and the store aborted the transaction.
    TransactionAborted,
    /// An abort was asked for and the store committed the transaction.
    TransactionCommitted,
}

/// No transaction handle could be made from an upgrade event.
#[derive(Debug, Clone, Copy, PartialEq, Eq)]
pub enum ConstructionError {
    /// The event has no target.
    NoEventTarget,
    /// The event's target is not a request to open a database.
    DynCast,
    /// The request that the event targets carries no transaction.
    TransactionNotFound,
}

/// Every error that this crate reports.
#[derive(Debug, Clone, PartialEq, Eq)]
pub enum Error {
    /// The store rejected the commit or abort request at once.
    NativeInvocation(NativeError),
    /// The store reported an error as the transaction's end.
    Store(NativeError),
    /// The transaction ended otherwise than asked.
    IntentMismatch(IntentMismatchError),
    /// The handle could not be constructed.
    Construction(ConstructionError),
}

} // verus!
