//! A verified core for a promise-style front end to a versioned, callback-driven
//! object-store database that a host environment provides ("the engine").
//!
//! The crate performs no input or output. Every handle is a plain record of what
//! the engine has reported, every operation is a decision: which engine call to
//! make next, what an awaiting caller is given once the engine has answered, and
//! which error a request is refused with before the engine is ever contacted.
//! The code that owns the engine's handles and callbacks drives these decisions
//! and feeds the engine's answers back in.

pub mod db;
pub mod error;
pub mod host;
pub mod key_path;
pub mod names;
pub mod object_store;
pub mod order;
pub mod poll;
pub mod request;
pub mod transaction;

pub use crate::db::{DatabaseView, DbDuringUpgrade, IndexedDb};
pub use crate::error::{Error, SchemaError, SchemaErrorView};
pub use crate::host::{HostElement, HostElementView, HostValue, HostValueView};
pub use crate::key_path::{KeyPath, KeyPathView};
pub use crate::object_store::{ObjectStore, ObjectStoreDuringUpgrade, TransactionObjectStore};
pub use crate::poll::Poll;
pub use crate::request::{IdbOpenDbRequest, IndexedDbRequest, RequestStatus};
pub use crate::transaction::{
    Transaction, TransactionEvent, TransactionFuture, TransactionMode, TransactionState,
};
