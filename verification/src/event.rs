//! What the protocol reads of the event that announces a schema upgrade.

use vstd::prelude::*;

verus! {

/// What an event's target turned out to be.
#[derive(Debug, Clone, PartialEq, Eq)]
pub enum EventTarget<N> {
    /// A request to open a database, with the transaction that runs the
    /// upgrade, if the request has one.
    OpenDbRequest { transaction: Option<N> },
    /// Anything else.
    Other,
}

/// The event with which the store announces a schema upgrade. `N` is the
/// store's own reference to a transaction.
#[derive(Debug, Clone, PartialEq, Eq)]
pub struct VersionChangeEvent<N> {
    /// The object that the event was sent to, if it has one.
    pub target: Option<EventTarget<N>>,
}

} // verus!
