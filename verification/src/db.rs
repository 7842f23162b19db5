//! The database as it is after `open`, and as it is inside an upgrade.

use vstd::prelude::*;
use crate::error::{SchemaError, SchemaErrorView};
use crate::key_path::KeyPath;
use crate::names::{all_distinct, clone_names, position};
use crate::object_store::{ObjectStore, ObjectStoreDuringUpgrade, ObjectStoreView};
use crate::request::{IdbOpenDbRequest, OpenRequestView};
use crate::transaction::{Transaction, TransactionMode, TransactionView};

verus! {

/// The mathematical content of a database handle: what identifies the
/// database, and the names of its object stores in the engine's order.
pub struct DatabaseView {
    pub name: Seq<char>,
    pub version: nat,
    pub stores: Seq<Seq<char>>,
}

/// Whether a number is a version that a database can have: positive, and
/// below two to the power of 32.
pub open spec fn valid_version(version: nat) -> bool {
    1 <= version < 0x1_0000_0000
}

impl DatabaseView {
    /// Whether this can be the content of a database handle.
    pub open spec fn wf(self) -> bool {
        &&& valid_version(self.version)
        &&& self.stores.no_duplicates()
    }

    /// The database after the request to create an object store: a name that
    /// is taken is refused, any other is entered behind the names that are
    /// there.
    pub open spec fn create_object_store(self, name: Seq<char>) -> Result<
        DatabaseView,
        SchemaErrorView,
    > {
        if self.stores.contains(name) {
            Err(SchemaErrorView::AlreadyExists(name))
        } else {
            Ok(DatabaseView { stores: self.stores.push(name), ..self })
        }
    }

    /// The database after the request to delete an object store: a name that
    /// no store has is refused, any other leaves the inventory and the rest
    /// keeps its order.
    pub open spec fn delete_object_store(self, name: Seq<char>) -> Result<
        DatabaseView,
        SchemaErrorView,
    > {
        if self.stores.contains(name) {
            Ok(DatabaseView { stores: self.stores.remove_value(name), ..self })
        } else {
            Err(SchemaErrorView::UnknownStore(name))
        }
    }
}

/// An object store whose name is free can be created, the database then has
/// it, and the same name is refused with `AlreadyExists` from then on.
pub proof fn lemma_create_then_create_again(db: DatabaseView, name: Seq<char>)
    requires
        !db.stores.contains(name),
    ensures
        db.create_object_store(name) is Ok,
        db.create_object_store(name)->Ok_0.stores.contains(name),
        db.create_object_store(name)->Ok_0.create_object_store(name) == Err::<
            DatabaseView,
            SchemaErrorView,
        >(SchemaErrorView::AlreadyExists(name)),
{
    let after = db.stores.push(name);
    assert(after[after.len() - 1] == name);
}

/// Creating an object store keeps every store that was there, in its place,
/// and keeps the database well formed.
pub proof fn lemma_create_keeps_the_rest(db: DatabaseView, name: Seq<char>, other: Seq<char>)
    requires
        db.wf(),
        db.create_object_store(name) is Ok,
    ensures
        db.create_object_store(name)->Ok_0.wf(),
        db.create_object_store(name)->Ok_0.name == db.name,
        db.create_object_store(name)->Ok_0.version == db.version,
        db.stores.contains(other) ==> db.create_object_store(name)->Ok_0.stores.contains(other),
{
    let after = db.stores.push(name);
    if db.stores.contains(other) {
        let i = choose|i: int| 0 <= i < db.stores.len() && db.stores[i] == other;
        assert(after[i] == other);
    }
}

/// A store that is created and deleted at once leaves the database as it
/// was.
pub proof fn lemma_create_then_delete_restores(db: DatabaseView, name: Seq<char>)
    requires
        !db.stores.contains(name),
    ensures
        db.create_object_store(name) is Ok,
        db.create_object_store(name)->Ok_0.delete_object_store(name) == Ok::<
            DatabaseView,
            SchemaErrorView,
        >(db),
{
    let after = db.stores.push(name);
    assert(after[after.len() - 1] == name);
    after.index_of_first_ensures(name);
    let at = after.index_of_first(name)->Some_0;
    if at < db.stores.len() {
        assert(db.stores[at] == name);
    }
    assert(after.remove(at) =~= db.stores);
}

/// Deleting an object store takes its name out of the database, keeps every
/// other store, and keeps the database well formed. A store that was created
/// and deleted again can be created once more.
pub proof fn lemma_delete_takes_the_name_out(db: DatabaseView, name: Seq<char>, other: Seq<char>)
    requires
        db.wf(),
        db.stores.contains(name),
    ensures
        db.delete_object_store(name) is Ok,
        db.delete_object_store(name)->Ok_0.wf(),
        !db.delete_object_store(name)->Ok_0.stores.contains(name),
        other != name ==> (db.delete_object_store(name)->Ok_0.stores.contains(other)
            <==> db.stores.contains(other)),
        db.delete_object_store(name)->Ok_0.create_object_store(name) is Ok,
{
    db.stores.index_of_first_ensures(name);
    let at = db.stores.index_of_first(name)->Some_0;
    let after = db.stores.remove(at);
    db.stores.remove_ensures(at);
    assert(after == db.stores.remove_value(name));
    if other != name {
        if db.stores.contains(other) {
            let i = choose|i: int| 0 <= i < db.stores.len() && db.stores[i] == other;
            if i < at {
                assert(after[i] == other);
            } else {
                assert(after[i - 1] == other);
            }
        }
        if after.contains(other) {
            let j = choose|j: int| 0 <= j < after.len() && after[j] == other;
            if j < at {
                assert(db.stores[j] == other);
            } else {
                assert(db.stores[j + 1] == other);
            }
        }
    }
}

/// A handle to the opened database.
#[derive(Debug)]
pub struct IndexedDb {
    name: String,
    version: u64,
    store_names: Vec<String>,
}

impl View for IndexedDb {
    type V = DatabaseView;

    closed spec fn view(&self) -> DatabaseView {
        DatabaseView {
            name: self.name@,
            version: self.version as nat,
            stores: self.store_names.deep_view(),
        }
    }
}

impl Clone for IndexedDb {
    fn clone(&self) -> (copy: IndexedDb)
        ensures
            copy@ == self@,
    {
        proof {
            use_type_invariant(self);
        }
        IndexedDb {
            name: self.name.clone(),
            version: self.version,
            store_names: clone_names(&self.store_names),
        }
    }
}

impl IndexedDb {
    #[verifier::type_invariant]
    spec fn well_formed(&self) -> bool {
        self@.wf()
    }

    /// The handle for a database of which the engine reports this name, this
    /// version and these object stores.
    ///
    /// There is none where the version is no valid one, or where a name
    /// stands twice among the stores.
    pub fn new(name: String, version: u64, store_names: Vec<String>) -> (db: Option<IndexedDb>)
        ensures
            match db {
                Some(db) => db@.wf() && db@ == (DatabaseView {
                    name: name@,
                    version: version as nat,
                    stores: store_names.deep_view(),
                }),
                None => !valid_version(version as nat) || !store_names.deep_view().no_duplicates(),
            },
    {
        if version < 1 || version >= 0x1_0000_0000 {
            return None;
        }
        if !all_distinct(&store_names) {
            return None;
        }
        Some(IndexedDb { name, version, store_names })
    }

    /// Open a database with the given name.
    ///
    /// This makes the adapter for the request; the engine is asked with the
    /// name and the version that the adapter carries. If the database is older
    /// than `version`, or not there yet, the engine calls for an upgrade:
    /// `on_upgrade_needed` is the callback that it is given for that.
    ///
    /// The version must not be 0.
    pub fn open<C, U>(name: &str, version: u32, on_upgrade_needed: U) -> (request:
        IdbOpenDbRequest<C, U>)
        requires
            version >= 1,
        ensures
            request@ == (OpenRequestView::<C, U> {
                name: name@,
                version: version as nat,
                onsuccess: None,
                onerror: None,
                onupgradeneeded: Some(on_upgrade_needed),
            }),
    {
        IdbOpenDbRequest::new(name, version, on_upgrade_needed)
    }

    /// The name of this database.
    pub fn name(&self) -> (name: String)
        ensures
            name@ == self@.name,
    {
        self.name.clone()
    }

    /// The current version of the database.
    pub fn version(&self) -> (version: u64)
        ensures
            version == self@.version,
            valid_version(version as nat),
    {
        proof {
            use_type_invariant(self);
        }
        self.version
    }

    /// Start a database transaction.
    ///
    /// All object stores that the database has at the time of the call take
    /// part in it.
    pub fn transaction(&self, mode: TransactionMode) -> (transaction: Transaction<'_>)
        ensures
            transaction@ == (TransactionView { stores: self@.stores, mode }),
    {
        Transaction::over(self, mode)
    }

    /// The names of the object stores in this database, in the engine's order.
    pub fn object_store_names(&self) -> (names: Vec<String>)
        ensures
            names.deep_view() == self@.stores,
            names.deep_view().no_duplicates(),
    {
        proof {
            use_type_invariant(self);
        }
        clone_names(&self.store_names)
    }
}

/// A handle on the database during an upgrade: the one place where object
/// stores are created and deleted.
#[derive(Debug)]
pub struct DbDuringUpgrade {
    db: IndexedDb,
}

impl View for DbDuringUpgrade {
    type V = DatabaseView;

    closed spec fn view(&self) -> DatabaseView {
        self.db@
    }
}

impl DbDuringUpgrade {
    /// The upgrade handle on a database.
    pub fn from_raw_unchecked(raw: IndexedDb) -> (upgrade: DbDuringUpgrade)
        ensures
            upgrade@ == raw@,
            upgrade@.wf(),
    {
        proof {
            use_type_invariant(&raw);
        }
        DbDuringUpgrade { db: raw }
    }

    /// The upgrade handle for the event with which the engine calls for an
    /// upgrade. `result` is what the request holds as its result at that time:
    /// the database that is being opened, at its new version.
    ///
    /// The engine fills the result before it calls, and it calls only for a
    /// database that is older than the version that was asked for: there must
    /// be a result, and its version must be above `old_version`.
    pub fn upgrade_needed(old_version: u32, result: Option<IndexedDb>) -> (upgrade:
        DbDuringUpgrade)
        requires
            result matches Some(db) && old_version < db@.version,
        ensures
            upgrade@ == result->Some_0@,
            upgrade@.wf(),
            old_version < upgrade@.version,
    {
        DbDuringUpgrade::from_raw_unchecked(result.unwrap())
    }

    /// The database as it is now, for the handle that outlives the upgrade.
    pub fn into_inner(self) -> (db: IndexedDb)
        ensures
            db@ == self@,
    {
        self.db
    }

    /// The name of this database.
    pub fn name(&self) -> (name: String)
        ensures
            name@ == self@.name,
    {
        self.db.name()
    }

    /// The current version of the database.
    pub fn version(&self) -> (version: u64)
        ensures
            version == self@.version,
            valid_version(version as nat),
    {
        self.db.version()
    }

    /// Is there already a store with the given name?
    pub fn store_exists(&self, name: &str) -> (exists: bool)
        ensures
            exists == self@.stores.contains(name@),
    {
        position(&self.db.store_names, name).is_some()
    }

    /// Create a new object store.
    ///
    /// A name that is taken is refused with `AlreadyExists` and leaves the
    /// database as it is. Any other name is entered behind the names that are
    /// there, and the handle to the new store carries the name, the key path
    /// and the flag that the engine is to be asked with.
    pub fn create_object_store<'a>(
        &'a mut self,
        name: &str,
        key_path: KeyPath,
        auto_increment: bool,
    ) -> (created: Result<ObjectStoreDuringUpgrade<'a>, SchemaError>)
        ensures
            match created {
                Ok(store) => {
                    &&& old(self)@.create_object_store(name@) == Ok::<
                        DatabaseView,
                        SchemaErrorView,
                    >(store.db@)
                    &&& store@ == (ObjectStoreView {
                        name: name@,
                        key_path: key_path@,
                        auto_increment,
                    })
                    &&& store.db@.wf()
                    &&& store.db@.stores.contains(name@)
                    &&& final(self)@ == final(store.db)@
                },
                Err(e) => {
                    &&& old(self)@.create_object_store(name@) == Err::<
                        DatabaseView,
                        SchemaErrorView,
                    >(e@)
                    &&& final(self)@ == old(self)@
                },
            },
    {
        proof {
            use_type_invariant(&self.db);
        }
        if self.store_exists(name) {
            return Err(SchemaError::AlreadyExists(name.to_owned()));
        }
        let ghost before = self.db.store_names.deep_view();
        let mut store_names = clone_names(&self.db.store_names);
        store_names.push(name.to_owned());
        proof {
            assert(store_names.deep_view() =~= before.push(name@));
            assert(store_names.deep_view().no_duplicates());
            assert(store_names.deep_view().last() == name@);
        }
        self.db = IndexedDb { name: self.db.name.clone(), version: self.db.version, store_names };
        let inner = ObjectStore::new(name.to_owned(), key_path, auto_increment);
        Ok(ObjectStoreDuringUpgrade::bind(inner, self))
    }

    /// Deletes an object store.
    ///
    /// A name that no store has is refused with `UnknownStore` and leaves the
    /// database as it is. Otherwise the name leaves the inventory and the
    /// others keep their order.
    pub fn delete_object_store(&mut self, name: &str) -> (deleted: Result<(), SchemaError>)
        ensures
            match deleted {
                Ok(()) => {
                    &&& old(self)@.delete_object_store(name@) == Ok::<
                        DatabaseView,
                        SchemaErrorView,
                    >(final(self)@)
                    &&& !final(self)@.stores.contains(name@)
                    &&& final(self)@.wf()
                },
                Err(e) => {
                    &&& old(self)@.delete_object_store(name@) == Err::<
                        DatabaseView,
                        SchemaErrorView,
                    >(e@)
                    &&& final(self)@ == old(self)@
                },
            },
    {
        proof {
            use_type_invariant(&self.db);
        }
        match position(&self.db.store_names, name) {
            None => Err(SchemaError::UnknownStore(name.to_owned())),
            Some(at) => {
                let ghost before = self.db.store_names.deep_view();
                let mut store_names = clone_names(&self.db.store_names);
                let _ = store_names.remove(at);
                proof {
                    assert(before.index_of_first(name@) == Some(at as int)) by {
                        before.index_of_first_ensures(name@);
                    }
                    assert(store_names.deep_view() =~= before.remove(at as int));
                    assert(before.remove_value(name@) == before.remove(at as int));
                    before.remove_ensures(at as int);
                    assert(store_names.deep_view().no_duplicates());
                    assert(!store_names.deep_view().contains(name@));
                }
                self.db = IndexedDb {
                    name: self.db.name.clone(),
                    version: self.db.version,
                    store_names,
                };
                Ok(())
            },
        }
    }
}

} // verus!

