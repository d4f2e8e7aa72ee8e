//! The transaction handle.

use vstd::prelude::*;
use crate::error::{ConstructionError, Error};
use crate::event::{EventTarget, VersionChangeEvent};
use crate::finalization::{intent_of, Finalizing};
use crate::notification::Intent;
use crate::state::{Cleanup, State};

verus! {

/// What letting go of a [`Transaction`] does to a transaction that was neither
/// committed nor aborted.
///
/// The default is to abort. The store on its own would commit.
#[derive(Debug, Copy, Clone, PartialEq, Eq, Structural)]
pub enum OnTransactionDrop {
    /// Abort the transaction. This is the default.
    Abort,
    /// Leave the transaction to the store, which commits it.
    Commit,
}

impl Default for OnTransactionDrop {
    fn default() -> (on_drop: Self)
        ensures
            on_drop == OnTransactionDrop::Abort,
    {
        OnTransactionDrop::Abort
    }
}

/// A handle to one transaction of the store. `N` is the store's own reference
/// to the transaction, which the handle keeps and never looks into.
///
/// The handle is the only way to end the transaction: by [`commit`], by
/// [`abort`], or by [`drop`], which applies the policy set with [`on_drop`].
/// At most one of them ever sends a request to the store.
///
/// [`commit`]: Transaction::commit
/// [`abort`]: Transaction::abort
/// [`drop`]: Transaction::drop
/// [`on_drop`]: Transaction::on_drop
#[derive(Debug)]
#[must_use]
pub struct Transaction<N> {
    native: N,
    listening: bool,
    done: bool,
    on_drop: OnTransactionDrop,
}

impl<N> View for Transaction<N> {
    type V = State;

    closed spec fn view(&self) -> State {
        State { done: self.done, on_drop: self.on_drop, listening: self.listening }
    }
}

impl<N> Transaction<N> {
    /// The store's reference to the transaction.
    pub closed spec fn native(&self) -> N {
        self.native
    }

    /// Makes the handle of a transaction that the store has just begun.
    pub fn new(native: N) -> (tx: Self)
        ensures
            tx@ == State::fresh(),
            tx.native() == native,
    {
        Transaction { native, listening: true, done: false, on_drop: OnTransactionDrop::default() }
    }

    /// Makes the handle of the transaction that runs a schema upgrade, from
    /// the event that announces the upgrade.
    ///
    /// This fails where the event has no target, where the target is not a
    /// request to open a database, and where that request has no transaction.
    pub fn from_raw_version_change_event(event: VersionChangeEvent<N>) -> (made: Result<Self, Error>)
        ensures
            (match event.target {
                None => made == Err::<Self, Error>(
                    Error::Construction(ConstructionError::NoEventTarget),
                ),
                Some(EventTarget::Other) => made == Err::<Self, Error>(
                    Error::Construction(ConstructionError::DynCast),
                ),
                Some(EventTarget::OpenDbRequest { transaction: None }) => made == Err::<Self, Error>(
                    Error::Construction(ConstructionError::TransactionNotFound),
                ),
                Some(EventTarget::OpenDbRequest { transaction: Some(native) }) => {
                    &&& made matches Ok(tx)
                    &&& tx@ == State::fresh()
                    &&& tx.native() == native
                },
            }),
    {
        let inner = match event.target {
            Some(target) => match target {
                EventTarget::OpenDbRequest { transaction } => match transaction {
                    Some(native) => Ok(native),
                    None => Err(Error::Construction(ConstructionError::TransactionNotFound)),
                },
                EventTarget::Other => Err(Error::Construction(ConstructionError::DynCast)),
            },
            None => Err(Error::Construction(ConstructionError::NoEventTarget)),
        };
        match inner {
            Ok(native) => Ok(Self::new(native)),
            Err(error) => Err(error),
        }
    }

    /// Sets what letting go of the handle does to a transaction that is not
    /// finalized.
    pub fn on_drop(&mut self, on_drop: OnTransactionDrop)
        ensures
            final(self)@ == old(self)@.with_policy(on_drop),
            final(self).native() == old(self).native(),
    {
        self.on_drop = on_drop;
    }

    /// Asks for the transaction to be rolled back.
    ///
    /// The handle is finalized from here on. Unless it was so before, the
    /// result is the abort to send to the store and to see through; a handle
    /// that was finalized before gives `None`, and nothing is to be sent.
    pub fn abort(&mut self) -> (pending: Option<Finalizing>)
        ensures
            final(self)@ == old(self)@.finalized(),
            final(self).native() == old(self).native(),
            intent_of(pending) == old(self)@.issues(Intent::Abort),
    {
        self.finalize(Intent::Abort)
    }

    /// Asks for the transaction to be committed.
    ///
    /// The handle is finalized from here on. Unless it was so before, the
    /// result is the commit to send to the store and to see through; a handle
    /// that was finalized before gives `None`, and nothing is to be sent.
    pub fn commit(&mut self) -> (pending: Option<Finalizing>)
        ensures
            final(self)@ == old(self)@.finalized(),
            final(self).native() == old(self).native(),
            intent_of(pending) == old(self)@.issues(Intent::Commit),
    {
        self.finalize(Intent::Commit)
    }

    fn finalize(&mut self, intent: Intent) -> (pending: Option<Finalizing>)
        ensures
            final(self)@ == old(self)@.finalized(),
            final(self).native() == old(self).native(),
            intent_of(pending) == old(self)@.issues(intent),
    {
        let was_done = self.done;
        self.done = true;
        if was_done {
            None
        } else {
            Some(Finalizing::new(intent))
        }
    }

    /// The store's reference to the transaction.
    pub fn as_sys(&self) -> (native: &N)
        ensures
            *native == self.native(),
    {
        &self.native
    }

    /// Lets go of the handle, and says what is left to do with the store.
    ///
    /// The handle is finalized from here on and its subscription counts as
    /// torn down, so that letting go of it once more leaves nothing to do.
    pub fn drop(&mut self) -> (cleanup: Cleanup)
        ensures
            cleanup == old(self)@.cleanup(),
            final(self)@ == old(self)@.dropped(),
            final(self).native() == old(self).native(),
    {
        let free_listeners = self.listening;
        let request = match (self.done, self.on_drop) {
            (false, OnTransactionDrop::Abort) => Some(Intent::Abort),
            _ => None,
        };
        self.listening = false;
        self.done = true;
        Cleanup { free_listeners, request }
    }
}

} // verus!
