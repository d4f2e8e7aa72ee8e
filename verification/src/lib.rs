//! The completion protocol of a transaction on an asynchronous, event-driven
//! object store, as a verified state machine.
//!
//! A caller that holds a [`Transaction`] ends it by committing, by aborting or
//! by letting go of it. This crate decides, for each of these, which request
//! goes to the store, whether the store's answer is awaited, and what the
//! caller is told. It performs no request itself: whoever drives the store
//! carries out what the functions here return, and reports back what the store
//! said.

pub mod error;
pub mod event;
pub mod finalization;
pub mod lifetime;
pub mod notification;
pub mod receiver;
pub mod state;
pub mod transaction;

pub use error::{ConstructionError, Error, IntentMismatchError, NativeError};
pub use event::{EventTarget, VersionChangeEvent};
pub use finalization::{Awaiting, Finalizing};
pub use notification::{classify, Intent, TerminalNotification};
pub use receiver::{NotificationReceiver, Signal};
pub use state::{Cleanup, State};
pub use transaction::{OnTransactionDrop, Transaction};
