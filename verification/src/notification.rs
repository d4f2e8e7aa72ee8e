//! How a transaction ended, and what that means to a caller who asked for one
//! of the two endings.

use vstd::prelude::*;
use crate::error::{Error, IntentMismatchError};

verus! {

/// The ending that a caller asks for. It also names the request that asks the
/// store for it.
#[derive(Debug, Clone, Copy, PartialEq, Eq, Structural)]
pub enum Intent {
    /// Keep what the transaction did.
    Commit,
    /// Discard what the transaction did.
    Abort,
}

/// The one notification with which the store ends a transaction.
#[derive(Debug, Clone, PartialEq, Eq)]
pub enum TerminalNotification {
    /// The transaction committed.
    Committed,
    /// The transaction failed with an error.
    Errored(Error),
    /// The transaction aborted.
    Aborted,
}

impl From<Error> for TerminalNotification {
    fn from(error: Error) -> (notification: Self) {
        TerminalNotification::Errored(error)
    }
}

impl vstd::std_specs::convert::FromSpecImpl<Error> for TerminalNotification {
    open spec fn obeys_from_spec() -> bool {
        true
    }

    open spec fn from_spec(error: Error) -> Self {
        TerminalNotification::Errored(error)
    }
}

/// What a caller with the given intent is told when the transaction ended with
/// the given notification: success where the two agree, the store's own error
/// unchanged, and otherwise the error that names the ending that was not asked
/// for.
pub open spec fn outcome(intent: Intent, notification: TerminalNotification) -> Result<(), Error> {
    match (intent, notification) {
        (Intent::Commit, TerminalNotification::Committed) => Ok(()),
        (Intent::Abort, TerminalNotification::Aborted) => Ok(()),
        (_, TerminalNotification::Errored(error)) => Err(error),
        (Intent::Commit, TerminalNotification::Aborted) => Err(
            Error::IntentMismatch(IntentMismatchError::TransactionAborted),
        ),
        (Intent::Abort, TerminalNotification::Committed) => Err(
            Error::IntentMismatch(IntentMismatchError::TransactionCommitted),
        ),
    }
}

/// Tells a caller with the given intent how the transaction ended.
///
/// No pair of arguments is refused: an ending that the caller did not ask for
/// is reported as an error of its own kind, never as success and never as an
/// error of the store.
pub fn classify(intent: Intent, notification: TerminalNotification) -> (told: Result<(), Error>)
    ensures
        told == outcome(intent, notification),
{
    match notification {
        TerminalNotification::Errored(error) => Err(error),
        TerminalNotification::Committed => match intent {
            Intent::Commit => Ok(()),
            Intent::Abort => Err(Error::IntentMismatch(IntentMismatchError::TransactionCommitted)),
        },
        TerminalNotification::Aborted => match intent {
            Intent::Commit => Err(Error::IntentMismatch(IntentMismatchError::TransactionAborted)),
            Intent::Abort => Ok(()),
        },
    }
}

} // verus!
