//! The adapters that turn one request to the engine into something to await.
//!
//! An adapter owns the callbacks that it has registered with the engine. While
//! the request is pending, every poll registers a fresh pair that is bound to
//! the caller of that poll, and the pair before it is given up.

use vstd::pervasive::unreached;
use vstd::prelude::*;
use crate::db::{valid_version, IndexedDb};
use crate::error::Error;
use crate::poll::Poll;

verus! {

/// What the engine shows of a request at the time of a poll.
#[derive(Debug)]
pub enum RequestStatus<V, E> {
    /// The engine refused the call that was to make the request, with this
    /// error.
    Rejected(E),
    /// The request is under way.
    Pending,
    /// The request is done; the two slots hold what it left.
    Done { result: Option<V>, error: Option<E> },
    /// The engine reports a state of readiness that it does not document.
    Unknown,
}

/// What a poll yields for a request in a given state. There is no answer where
/// the state is one that the engine cannot be in: an undocumented state of
/// readiness, or a request that is done and left neither a result nor an error.
pub open spec fn request_outcome<V, E>(status: RequestStatus<V, E>) -> Option<
    Poll<Result<V, Error<E>>>,
> {
    match status {
        RequestStatus::Rejected(e) => Some(Poll::Ready(Err(Error::EngineRejected(e)))),
        RequestStatus::Pending => Some(Poll::Pending),
        RequestStatus::Done { result: Some(v), error: _ } => Some(Poll::Ready(Ok(v))),
        RequestStatus::Done { result: None, error: Some(e) } => Some(
            Poll::Ready(Err(Error::RequestFailed(e))),
        ),
        RequestStatus::Done { result: None, error: None } => None,
        RequestStatus::Unknown => None,
    }
}

impl<V, E> RequestStatus<V, E> {
    /// Whether the engine can be in this state.
    pub fn is_possible(&self) -> (possible: bool)
        ensures
            possible == request_outcome(*self) is Some,
    {
        match self {
            RequestStatus::Done { result: None, error: None } => false,
            RequestStatus::Unknown => false,
            _ => true,
        }
    }
}

/// The callbacks that an adapter holds for one request.
pub struct RequestSlots<C> {
    pub onsuccess: Option<C>,
    pub onerror: Option<C>,
}

/// The adapter for a single request.
pub struct IndexedDbRequest<C> {
    onsuccess: Option<C>,
    onerror: Option<C>,
}

impl<C> View for IndexedDbRequest<C> {
    type V = RequestSlots<C>;

    closed spec fn view(&self) -> RequestSlots<C> {
        RequestSlots { onsuccess: self.onsuccess, onerror: self.onerror }
    }
}

impl<C> IndexedDbRequest<C> {
    /// An adapter that has registered nothing yet.
    pub fn new() -> (request: IndexedDbRequest<C>)
        ensures
            request@ == (RequestSlots::<C> { onsuccess: None, onerror: None }),
    {
        IndexedDbRequest { onsuccess: None, onerror: None }
    }

    /// The callback that is registered for success.
    pub fn onsuccess(&self) -> (callback: Option<&C>)
        ensures
            callback == match self@.onsuccess {
                Some(c) => Some(&c),
                None => None,
            },
    {
        self.onsuccess.as_ref()
    }

    /// The callback that is registered for failure.
    pub fn onerror(&self) -> (callback: Option<&C>)
        ensures
            callback == match self@.onerror {
                Some(c) => Some(&c),
                None => None,
            },
    {
        self.onerror.as_ref()
    }

    /// Puts a callback in the slot for success, or empties the slot. What the
    /// slot held is handed back: the adapter has given it up.
    pub fn set_onsuccess(&mut self, closure: Option<C>) -> (released: Option<C>)
        ensures
            final(self)@ == (RequestSlots { onsuccess: closure, ..old(self)@ }),
            released == old(self)@.onsuccess,
    {
        let mut slot = closure;
        std::mem::swap(&mut self.onsuccess, &mut slot);
        slot
    }

    /// Puts a callback in the slot for failure, or empties the slot. What the
    /// slot held is handed back: the adapter has given it up.
    pub fn set_onerror(&mut self, closure: Option<C>) -> (released: Option<C>)
        ensures
            final(self)@ == (RequestSlots { onerror: closure, ..old(self)@ }),
            released == old(self)@.onerror,
    {
        let mut slot = closure;
        std::mem::swap(&mut self.onerror, &mut slot);
        slot
    }

    /// Gives up both callbacks, as the end of the adapter does.
    pub fn release(&mut self)
        ensures
            final(self)@ == (RequestSlots::<C> { onsuccess: None, onerror: None }),
    {
        self.onsuccess = None;
        self.onerror = None;
    }

    /// One poll of the request.
    ///
    /// While the request is pending, a fresh callback from `waker` is put in
    /// each slot and the caller is told to wait. In every other state the slots
    /// stay as they are and the caller is given the outcome: the result of a
    /// request that is done, its error, or the error that the engine refused
    /// the request with.
    ///
    /// The state must be one that the engine can be in.
    pub fn poll<V, E, F: Fn() -> C>(&mut self, status: RequestStatus<V, E>, waker: F) -> (out:
        Poll<Result<V, Error<E>>>)
        requires
            request_outcome(status) is Some,
            status is Pending ==> waker.requires(()),
        ensures
            request_outcome(status) == Some(out),
            status is Pending ==> {
                &&& final(self)@.onsuccess is Some
                &&& final(self)@.onerror is Some
                &&& waker.ensures((), final(self)@.onsuccess->0)
                &&& waker.ensures((), final(self)@.onerror->0)
            },
            !(status is Pending) ==> final(self)@ == old(self)@,
    {
        match status {
            RequestStatus::Rejected(e) => Poll::Ready(Err(Error::EngineRejected(e))),
            RequestStatus::Pending => {
                let onsuccess = waker();
                let _ = self.set_onsuccess(Some(onsuccess));
                let onerror = waker();
                let _ = self.set_onerror(Some(onerror));
                Poll::Pending
            },
            RequestStatus::Done { result, error } => match result {
                Some(v) => Poll::Ready(Ok(v)),
                None => Poll::Ready(Err(Error::RequestFailed(error.unwrap()))),
            },
            RequestStatus::Unknown => unreached(),
        }
    }
}

/// What an adapter for the opening of a database holds: the name and the
/// version that were asked for, and the callbacks.
pub struct OpenRequestView<C, U> {
    pub name: Seq<char>,
    pub version: nat,
    pub onsuccess: Option<C>,
    pub onerror: Option<C>,
    pub onupgradeneeded: Option<U>,
}

impl<C, U> OpenRequestView<C, U> {
    /// Whether a database is the one that was asked for.
    pub open spec fn answered_by(self, db: crate::db::DatabaseView) -> bool {
        db.name == self.name && db.version == self.version
    }

    /// Whether the engine can show this state of the request. A request that
    /// is done with a result is done with the database that was asked for.
    pub open spec fn admits<E>(self, status: RequestStatus<IndexedDb, E>) -> bool {
        &&& request_outcome(status) is Some
        &&& match status {
            RequestStatus::Done { result: Some(db), error: _ } => self.answered_by(db@),
            _ => true,
        }
    }
}

/// The adapter for the request that opens a database. The user works with it
/// through the function that is handed to `open`.
pub struct IdbOpenDbRequest<C, U> {
    name: String,
    version: u32,
    onsuccess: Option<C>,
    onerror: Option<C>,
    onupgradeneeded: Option<U>,
}

impl<C, U> View for IdbOpenDbRequest<C, U> {
    type V = OpenRequestView<C, U>;

    closed spec fn view(&self) -> OpenRequestView<C, U> {
        OpenRequestView {
            name: self.name@,
            version: self.version as nat,
            onsuccess: self.onsuccess,
            onerror: self.onerror,
            onupgradeneeded: self.onupgradeneeded,
        }
    }
}

impl<C, U> IdbOpenDbRequest<C, U> {
    #[verifier::type_invariant]
    spec fn well_formed(&self) -> bool {
        valid_version(self.version as nat)
    }

    /// The adapter for the request to open the database of this name at this
    /// version. The callback for the upgrade is registered from the start, the
    /// other two slots are empty.
    ///
    /// The version must not be 0.
    pub fn new(name: &str, version: u32, upgrade_callback: U) -> (request: IdbOpenDbRequest<C, U>)
        requires
            version >= 1,
        ensures
            request@ == (OpenRequestView::<C, U> {
                name: name@,
                version: version as nat,
                onsuccess: None,
                onerror: None,
                onupgradeneeded: Some(upgrade_callback),
            }),
    {
        IdbOpenDbRequest {
            name: name.to_owned(),
            version,
            onsuccess: None,
            onerror: None,
            onupgradeneeded: Some(upgrade_callback),
        }
    }

    /// The name of the database that was asked for.
    pub fn name(&self) -> (name: &str)
        ensures
            name@ == self@.name,
    {
        self.name.as_str()
    }

    /// The version that was asked for: never 0.
    pub fn version(&self) -> (version: u32)
        ensures
            version == self@.version,
            version >= 1,
    {
        proof {
            use_type_invariant(self);
        }
        self.version
    }

    /// Whether a database is the one that was asked for.
    pub fn answered_by(&self, db: &IndexedDb) -> (answered: bool)
        ensures
            answered == self@.answered_by(db@),
    {
        let name = db.name();
        let version = db.version();
        name == self.name && version == self.version as u64
    }

    /// The callback that is registered for success.
    pub fn onsuccess(&self) -> (callback: Option<&C>)
        ensures
            callback == match self@.onsuccess {
                Some(c) => Some(&c),
                None => None,
            },
    {
        self.onsuccess.as_ref()
    }

    /// The callback that is registered for failure.
    pub fn onerror(&self) -> (callback: Option<&C>)
        ensures
            callback == match self@.onerror {
                Some(c) => Some(&c),
                None => None,
            },
    {
        self.onerror.as_ref()
    }

    /// The callback that is registered for the upgrade.
    pub fn onupgradeneeded(&self) -> (callback: Option<&U>)
        ensures
            callback == match self@.onupgradeneeded {
                Some(c) => Some(&c),
                None => None,
            },
    {
        self.onupgradeneeded.as_ref()
    }

    /// Puts a callback in the slot for success, or empties the slot. What the
    /// slot held is handed back: the adapter has given it up.
    pub fn set_onsuccess(&mut self, closure: Option<C>) -> (released: Option<C>)
        ensures
            final(self)@ == (OpenRequestView { onsuccess: closure, ..old(self)@ }),
            released == old(self)@.onsuccess,
    {
        proof {
            use_type_invariant(&*self);
        }
        let mut slot = closure;
        std::mem::swap(&mut self.onsuccess, &mut slot);
        slot
    }

    /// Puts a callback in the slot for failure, or empties the slot. What the
    /// slot held is handed back: the adapter has given it up.
    pub fn set_onerror(&mut self, closure: Option<C>) -> (released: Option<C>)
        ensures
            final(self)@ == (OpenRequestView { onerror: closure, ..old(self)@ }),
            released == old(self)@.onerror,
    {
        proof {
            use_type_invariant(&*self);
        }
        let mut slot = closure;
        std::mem::swap(&mut self.onerror, &mut slot);
        slot
    }

    /// Puts a callback in the slot for the upgrade, or empties the slot. What
    /// the slot held is handed back: the adapter has given it up.
    pub fn set_onupgradeneeded(&mut self, closure: Option<U>) -> (released: Option<U>)
        ensures
            final(self)@ == (OpenRequestView { onupgradeneeded: closure, ..old(self)@ }),
            released == old(self)@.onupgradeneeded,
    {
        proof {
            use_type_invariant(&*self);
        }
        let mut slot = closure;
        std::mem::swap(&mut self.onupgradeneeded, &mut slot);
        slot
    }

    /// Gives up all callbacks, as the end of the adapter does.
    pub fn release(&mut self)
        ensures
            final(self)@ == (OpenRequestView::<C, U> {
                onsuccess: None,
                onerror: None,
                onupgradeneeded: None,
                ..old(self)@
            }),
    {
        proof {
            use_type_invariant(&*self);
        }
        self.onsuccess = None;
        self.onerror = None;
        self.onupgradeneeded = None;
    }

    /// One poll of the request.
    ///
    /// It goes as the poll of any request does, and a request that has
    /// succeeded yields the handle to the database. That database has the
    /// version that was asked for.
    ///
    /// The state must be one that the engine can show of this request.
    pub fn poll<E, F: Fn() -> C>(&mut self, status: RequestStatus<IndexedDb, E>, waker: F) -> (out:
        Poll<Result<IndexedDb, Error<E>>>)
        requires
            old(self)@.admits(status),
            status is Pending ==> waker.requires(()),
        ensures
            request_outcome(status) == Some(out),
            out matches Poll::Ready(Ok(db)) ==> db@.version == old(self)@.version && db@.name
                == old(self)@.name && db@.version >= 1,
            final(self)@.name == old(self)@.name,
            final(self)@.version == old(self)@.version,
            final(self)@.onupgradeneeded == old(self)@.onupgradeneeded,
            status is Pending ==> {
                &&& final(self)@.onsuccess is Some
                &&& final(self)@.onerror is Some
                &&& waker.ensures((), final(self)@.onsuccess->0)
                &&& waker.ensures((), final(self)@.onerror->0)
            },
            !(status is Pending) ==> final(self)@ == old(self)@,
    {
        proof {
            use_type_invariant(&*self);
        }
        match status {
            RequestStatus::Rejected(e) => Poll::Ready(Err(Error::EngineRejected(e))),
            RequestStatus::Pending => {
                let onsuccess = waker();
                let _ = self.set_onsuccess(Some(onsuccess));
                let onerror = waker();
                let _ = self.set_onerror(Some(onerror));
                Poll::Pending
            },
            RequestStatus::Done { result, error } => match result {
                Some(db) => Poll::Ready(Ok(db)),
                None => Poll::Ready(Err(Error::RequestFailed(error.unwrap()))),
            },
            RequestStatus::Unknown => unreached(),
        }
    }
}

} // verus!
