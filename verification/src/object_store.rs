//! Object stores, and the scopes in which a handle to one is valid.

use vstd::prelude::*;
use crate::db::{DatabaseView, DbDuringUpgrade};
use crate::error::{Error, SchemaError, SchemaErrorView};
use crate::host::HostValue;
use crate::key_path::{KeyPath, KeyPathView};
use crate::transaction::Transaction;

verus! {

/// The mathematical content of an object store's handle.
pub struct ObjectStoreView {
    pub name: Seq<char>,
    pub key_path: KeyPathView,
    pub auto_increment: bool,
}

/// What `get` yields for the awaited outcome of the engine's request.
pub open spec fn get_outcome<T, E>(awaited: Result<HostValue<T>, Error<E>>) -> Result<
    Option<HostValue<T>>,
    Error<E>,
> {
    match awaited {
        Ok(object) => if object@.is_nullish() {
            Ok(None)
        } else {
            Ok(Some(object))
        },
        Err(e) => Err(e),
    }
}

/// What `add` yields for the awaited outcome of the engine's request.
pub open spec fn add_outcome<V, E>(awaited: Result<V, Error<E>>) -> Result<(), Error<E>> {
    match awaited {
        Ok(_) => Ok(()),
        Err(e) => Err(e),
    }
}

/// Base object store that gathers all the common object store functionality.
#[derive(Debug)]
pub struct ObjectStore {
    name: String,
    key_path: KeyPath,
    auto_increment: bool,
}

impl View for ObjectStore {
    type V = ObjectStoreView;

    closed spec fn view(&self) -> ObjectStoreView {
        ObjectStoreView {
            name: self.name@,
            key_path: self.key_path@,
            auto_increment: self.auto_increment,
        }
    }
}

impl ObjectStore {
    /// The handle to the store of this name, with the key path and the flag
    /// that the engine reports of it.
    pub fn new(name: String, key_path: KeyPath, auto_increment: bool) -> (store: ObjectStore)
        ensures
            store@ == (ObjectStoreView { name: name@, key_path: key_path@, auto_increment }),
    {
        ObjectStore { name, key_path, auto_increment }
    }

    /// The name of the object store.
    pub fn name(&self) -> (name: String)
        ensures
            name@ == self@.name,
    {
        self.name.clone()
    }

    /// The key path of the object store. No key path means keys are stored
    /// out of line.
    pub fn key_path(&self) -> (key_path: KeyPath)
        ensures
            key_path@ == self@.key_path,
    {
        self.key_path.clone()
    }

    /// Get the value with the given key: what the caller is given for the
    /// awaited outcome of the engine's `get`.
    ///
    /// A key that the store does not hold makes the engine answer with an
    /// empty value, and `null` or `undefined` is answered with `None`. Any
    /// other value is handed on as it is, for the decoder. A failure is handed
    /// on as it is.
    pub fn get<T, E>(&self, awaited: Result<HostValue<T>, Error<E>>) -> (found: Result<
        Option<HostValue<T>>,
        Error<E>,
    >)
        ensures
            found == get_outcome(awaited),
    {
        match awaited {
            Ok(object) => if object.is_nullish() {
                Ok(None)
            } else {
                Ok(Some(object))
            },
            Err(e) => Err(e),
        }
    }

    /// Store the given value under the given key: what the caller is given
    /// for the awaited outcome of the engine's `add`.
    ///
    /// The key that the engine reports for the new record is dropped. A
    /// failure is handed on as it is.
    pub fn add<V, E>(&self, awaited: Result<V, Error<E>>) -> (added: Result<(), Error<E>>)
        ensures
            added == add_outcome(awaited),
    {
        match awaited {
            Ok(_) => Ok(()),
            Err(e) => Err(e),
        }
    }

    /// Whether the engine numbers the records of this store by itself.
    pub fn auto_increment(&self) -> (auto_increment: bool)
        ensures
            auto_increment == self@.auto_increment,
    {
        self.auto_increment
    }
}

/// An object store that was created during an upgrade.
///
/// Object stores can only be created and deleted during database upgrades.
#[derive(Debug)]
pub struct ObjectStoreDuringUpgrade<'a> {
    /// The store itself.
    pub inner: ObjectStore,
    /// The upgrade that made the store, held for as long as the handle lives.
    pub db: &'a mut DbDuringUpgrade,
}

impl<'a> View for ObjectStoreDuringUpgrade<'a> {
    type V = ObjectStoreView;

    open spec fn view(&self) -> ObjectStoreView {
        self.inner@
    }
}

impl<'a> ObjectStoreDuringUpgrade<'a> {
    /// Ties a store to the upgrade that made it.
    pub(crate) fn bind(inner: ObjectStore, db: &'a mut DbDuringUpgrade) -> (store:
        ObjectStoreDuringUpgrade<'a>)
        ensures
            store@ == inner@,
            *store.db == *old(db),
            *final(store.db) == *final(db),
    {
        ObjectStoreDuringUpgrade { inner, db }
    }

    /// What becomes of the new store once the engine has answered the request
    /// to create it.
    ///
    /// If the engine made the store, the handle stays as it is and goes with
    /// what the engine handed out. If the engine refused, the name leaves the
    /// database again, and the failure is `EngineRejected` with what the
    /// engine threw.
    ///
    /// The database must hold the store's name, as it does from the creation
    /// of the store on.
    pub fn confirm<H, E>(self, answer: Result<H, E>) -> (confirmed: Result<
        (ObjectStoreDuringUpgrade<'a>, H),
        Error<E>,
    >)
        requires
            self.db@.stores.contains(self@.name),
        ensures
            match answer {
                Ok(handle) => confirmed == Ok::<(ObjectStoreDuringUpgrade<'a>, H), Error<E>>(
                    (self, handle),
                ),
                Err(e) => {
                    &&& confirmed == Err::<(ObjectStoreDuringUpgrade<'a>, H), Error<E>>(
                        Error::EngineRejected(e),
                    )
                    &&& old(self.db)@.delete_object_store(self@.name) == Ok::<
                        DatabaseView,
                        SchemaErrorView,
                    >(final(self.db)@)
                    &&& !final(self.db)@.stores.contains(self@.name)
                },
            },
    {
        match answer {
            Ok(handle) => Ok((self, handle)),
            Err(e) => {
                let _ = self.delete();
                Err(Error::EngineRejected(e))
            },
        }
    }

    /// Delete this object store.
    pub fn delete(self) -> (deleted: Result<(), SchemaError>)
        ensures
            match deleted {
                Ok(()) => {
                    &&& old(self.db)@.delete_object_store(self@.name) == Ok::<
                        DatabaseView,
                        SchemaErrorView,
                    >(final(self.db)@)
                    &&& !final(self.db)@.stores.contains(self@.name)
                    &&& final(self.db)@.wf()
                },
                Err(e) => {
                    &&& old(self.db)@.delete_object_store(self@.name) == Err::<
                        DatabaseView,
                        SchemaErrorView,
                    >(e@)
                    &&& final(self.db)@ == old(self.db)@
                },
            },
    {
        let ObjectStoreDuringUpgrade { inner, db } = self;
        let name = inner.name();
        db.delete_object_store(name.as_str())
    }
}

/// An object store that is bound to a transaction.
#[derive(Debug)]
pub struct TransactionObjectStore<'a> {
    /// The store itself.
    pub inner: ObjectStore,
    /// The transaction in which the store is read and written.
    pub transaction: &'a Transaction<'a>,
}

impl<'a> View for TransactionObjectStore<'a> {
    type V = ObjectStoreView;

    open spec fn view(&self) -> ObjectStoreView {
        self.inner@
    }
}

impl<'a> std::ops::Deref for ObjectStoreDuringUpgrade<'a> {
    type Target = ObjectStore;

    fn deref(&self) -> (store: &ObjectStore)
        ensures
            store@ == self@,
    {
        &self.inner
    }
}

impl<'a> std::ops::Deref for TransactionObjectStore<'a> {
    type Target = ObjectStore;

    fn deref(&self) -> (store: &ObjectStore)
        ensures
            store@ == self@,
    {
        &self.inner
    }
}

} // verus!
