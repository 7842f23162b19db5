//! The failures that the front end hands to its callers.

use vstd::prelude::*;
use vstd::string::StringExecFns;
use crate::host::{HostValue, HostValueView};

verus! {

/// A failure that comes from the engine, or from the end of a transaction.
#[derive(Debug)]
pub enum Error<E> {
    /// The engine refused a call at once; it carries what the engine threw.
    EngineRejected(E),
    /// A request was accepted and failed later; it carries the engine's error.
    RequestFailed(E),
    /// The transaction was aborted.
    TransactionAborted,
}

/// A request that the front end refuses by a look at the names of the object
/// stores, before the engine is contacted.
#[derive(Debug)]
pub enum SchemaError {
    /// An object store of this name is there already.
    AlreadyExists(String),
    /// No object store of this name takes part.
    UnknownStore(String),
}

/// The mathematical content of a [`SchemaError`].
pub enum SchemaErrorView {
    AlreadyExists(Seq<char>),
    UnknownStore(Seq<char>),
}

impl View for SchemaError {
    type V = SchemaErrorView;

    open spec fn view(&self) -> SchemaErrorView {
        match *self {
            SchemaError::AlreadyExists(name) => SchemaErrorView::AlreadyExists(name@),
            SchemaError::UnknownStore(name) => SchemaErrorView::UnknownStore(name@),
        }
    }
}

impl SchemaErrorView {
    /// The name of the object store that the request was about.
    pub open spec fn store(self) -> Seq<char> {
        match self {
            SchemaErrorView::AlreadyExists(name) => name,
            SchemaErrorView::UnknownStore(name) => name,
        }
    }

    /// The text that describes the failure: the store's name in double quotes,
    /// between a lead and a tail that depend on the kind of failure.
    pub open spec fn message(self) -> Seq<char> {
        match self {
            SchemaErrorView::AlreadyExists(name) => "an object store called \""@ + name
                + "\" already exists"@,
            SchemaErrorView::UnknownStore(name) => "an object store called \""@ + name
                + "\" does not take part"@,
        }
    }
}

impl SchemaError {
    /// The name of the object store that the request was about.
    pub fn store(&self) -> (name: &str)
        ensures
            name@ == self@.store(),
    {
        match self {
            SchemaError::AlreadyExists(name) => name.as_str(),
            SchemaError::UnknownStore(name) => name.as_str(),
        }
    }

    /// The text that describes the failure.
    pub fn message(&self) -> (text: String)
        ensures
            text@ == self@.message(),
    {
        let lead = String::from_str("an object store called \"");
        match self {
            SchemaError::AlreadyExists(name) => lead.concat(name.as_str()).concat(
                "\" already exists",
            ),
            SchemaError::UnknownStore(name) => lead.concat(name.as_str()).concat(
                "\" does not take part",
            ),
        }
    }

    /// The failure as the host sees it: a string that holds the message.
    pub fn into_host<T>(self) -> (value: HostValue<T>)
        ensures
            value@ == HostValueView::<T>::Text(self@.message()),
    {
        HostValue::Text(self.message())
    }
}

/// The host value that stands for a failure: the engine's own error where
/// there is one, and `undefined` as the mark of an aborted transaction.
pub open spec fn host_error<T>(error: Error<HostValue<T>>) -> HostValue<T> {
    match error {
        Error::EngineRejected(e) => e,
        Error::RequestFailed(e) => e,
        Error::TransactionAborted => HostValue::Undefined,
    }
}

impl<E> Error<E> {
    /// What the front end makes of the engine's answer to a call that is
    /// answered at once: what the engine hands out is handed on, and what it
    /// throws is the failure `EngineRejected`.
    pub fn accepted<H>(answer: Result<H, E>) -> (accepted: Result<H, Error<E>>)
        ensures
            accepted == match answer {
                Ok(handle) => Ok::<H, Error<E>>(handle),
                Err(e) => Err(Error::EngineRejected(e)),
            },
    {
        match answer {
            Ok(handle) => Ok(handle),
            Err(e) => Err(Error::EngineRejected(e)),
        }
    }
}

impl<T> Error<HostValue<T>> {
    /// The failure as the host sees it.
    pub fn into_host(self) -> (value: HostValue<T>)
        ensures
            value == host_error(self),
    {
        match self {
            Error::EngineRejected(e) => e,
            Error::RequestFailed(e) => e,
            Error::TransactionAborted => HostValue::Undefined,
        }
    }
}

} // verus!
