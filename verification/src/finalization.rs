//! The steps between asking for an ending and being told how it went.
//!
//! Each step is a value that the next step consumes, so none can be taken
//! twice and none out of turn.

use vstd::prelude::*;
use crate::error::{Error, NativeError};
use crate::notification::{classify, outcome, Intent, TerminalNotification};

verus! {

/// An ending that was asked for and whose request has yet to go to the store.
#[derive(Debug, PartialEq, Eq)]
#[must_use]
pub struct Finalizing {
    intent: Intent,
}

/// An ending whose request the store has accepted and whose notification has
/// yet to come.
#[derive(Debug, PartialEq, Eq)]
#[must_use]
pub struct Awaiting {
    intent: Intent,
}

impl View for Finalizing {
    type V = Intent;

    closed spec fn view(&self) -> Intent {
        self.intent
    }
}

impl View for Awaiting {
    type V = Intent;

    closed spec fn view(&self) -> Intent {
        self.intent
    }
}

/// How an ending goes on once the store has answered its request with `sent`.
///
/// Where the store accepted the request, the notification is awaited, for the
/// ending that was asked for. Where it rejected the request, the rejection is
/// the outcome.
pub open spec fn answered(intent: Intent, sent: Result<(), NativeError>) -> Result<Intent, Error> {
    match sent {
        Ok(_) => Ok(intent),
        Err(rejection) => Err(Error::NativeInvocation(rejection)),
    }
}

/// The ending that a finalization, if there is one, was asked for.
pub open spec fn intent_of(pending: Option<Finalizing>) -> Option<Intent> {
    match pending {
        Some(finalizing) => Some(finalizing@),
        None => None,
    }
}

/// The ending whose notification is awaited, or the error that came instead.
pub open spec fn awaited(next: Result<Awaiting, Error>) -> Result<Intent, Error> {
    match next {
        Ok(waiting) => Ok(waiting@),
        Err(error) => Err(error),
    }
}

impl Finalizing {
    pub(crate) fn new(intent: Intent) -> (pending: Self)
        ensures
            pending@ == intent,
    {
        Finalizing { intent }
    }

    /// The ending that was asked for, which is also the request to send to the
    /// store.
    pub fn intent(&self) -> (intent: Intent)
        ensures
            intent == self@,
    {
        self.intent
    }

    /// Takes what the store answered to the request.
    ///
    /// Where the store accepted it, the notification is to be awaited. Where
    /// the store rejected it, the rejection is the outcome and nothing is
    /// awaited.
    pub fn requested(self, sent: Result<(), NativeError>) -> (next: Result<Awaiting, Error>)
        ensures
            awaited(next) == answered(self@, sent),
    {
        match sent {
            Ok(_) => Ok(Awaiting { intent: self.intent }),
            Err(rejection) => Err(Error::NativeInvocation(rejection)),
        }
    }
}

impl Awaiting {
    /// The ending that was asked for.
    pub fn intent(&self) -> (intent: Intent)
        ensures
            intent == self@,
    {
        self.intent
    }

    /// Takes the notification with which the store ended the transaction, and
    /// gives the outcome for the caller.
    pub fn notified(self, notification: TerminalNotification) -> (told: Result<(), Error>)
        ensures
            told == outcome(self@, notification),
    {
        classify(self.intent, notification)
    }
}

} // verus!
