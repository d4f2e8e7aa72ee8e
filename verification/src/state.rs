//! The protocol state of a transaction handle, and what each step does to it.
//!
//! Everything here is mathematics: the handle in `transaction` is proved to
//! follow it step by step.

use vstd::prelude::*;
use crate::notification::Intent;
use crate::transaction::OnTransactionDrop;

verus! {

/// What the protocol knows of a handle.
pub struct State {
    /// Whether the handle has been finalized: by a commit, by an abort, or by
    /// being let go of. Once true it stays true.
    pub done: bool,
    /// What letting go of the handle does to a transaction that is not
    /// finalized.
    pub on_drop: OnTransactionDrop,
    /// Whether the subscription to the store's notifications is still in
    /// place.
    pub listening: bool,
}

/// What is left to do with the store when a handle is let go of.
#[derive(Debug, Clone, Copy, PartialEq, Eq)]
pub struct Cleanup {
    /// Whether the subscription to the store's notifications is to be torn
    /// down.
    pub free_listeners: bool,
    /// The request to send to the store, if any. Its answer is of no interest.
    pub request: Option<Intent>,
}

impl State {
    /// The state of a new handle: not finalized, aborting when let go of,
    /// subscribed.
    pub open spec fn fresh() -> State {
        State { done: false, on_drop: OnTransactionDrop::Abort, listening: true }
    }

    /// The state after the policy for letting go was set.
    pub open spec fn with_policy(self, on_drop: OnTransactionDrop) -> State {
        State { on_drop, ..self }
    }

    /// The request that goes to the store when the caller asks for an ending:
    /// the one that asks for it, unless the handle is finalized already.
    pub open spec fn issues(self, intent: Intent) -> Option<Intent> {
        if self.done {
            None
        } else {
            Some(intent)
        }
    }

    /// The state after the caller asked for an ending.
    pub open spec fn finalized(self) -> State {
        State { done: true, ..self }
    }

    /// What is left to do when the handle is let go of in this state.
    ///
    /// The subscription is torn down if it is still in place. A transaction
    /// that is not finalized is aborted where the policy says so. Where the
    /// policy is to commit, nothing is sent: the store ends a transaction by
    /// itself once its requests have run out.
    pub open spec fn cleanup(self) -> Cleanup {
        Cleanup {
            free_listeners: self.listening,
            request: if !self.done && self.on_drop == OnTransactionDrop::Abort {
                Some(Intent::Abort)
            } else {
                None
            },
        }
    }

    /// The state after the handle was let go of.
    pub open spec fn dropped(self) -> State {
        State { done: true, listening: false, ..self }
    }
}

} // verus!
