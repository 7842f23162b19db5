//! Transactions: the window in which object stores are read and written, and
//! the way to its end.

use vstd::prelude::*;
use crate::db::IndexedDb;
use crate::error::{Error, SchemaError, SchemaErrorView};
use crate::key_path::KeyPath;
use crate::names::position;
use crate::object_store::{ObjectStore, ObjectStoreView, TransactionObjectStore};
use crate::poll::Poll;

verus! {

/// The mode the transaction should be opened in.
#[derive(Debug, Clone, Copy, PartialEq, Eq, Structural)]
pub enum TransactionMode {
    /// The transaction will be opened only for reading.
    Readonly,
    /// The transaction will be opened for reading and writing.
    ReadWrite,
}

/// State a transaction can be in.
#[derive(Debug, Clone, Copy, PartialEq, Eq, Structural)]
pub enum TransactionState {
    /// The transaction is open.
    Pending,
    /// The transaction went through.
    Completed,
    /// The transaction failed.
    Error,
    /// The transaction was aborted.
    Aborted,
}

/// What the engine tells of a transaction when it ends.
#[derive(Debug, Clone, Copy, PartialEq, Eq, Structural)]
pub enum TransactionEvent {
    /// The transaction went through.
    Complete,
    /// The transaction failed.
    Error,
    /// The transaction was aborted.
    Abort,
}

impl TransactionEvent {
    /// The state that this event ends an open transaction in.
    pub open spec fn terminal(self) -> TransactionState {
        match self {
            TransactionEvent::Complete => TransactionState::Completed,
            TransactionEvent::Error => TransactionState::Error,
            TransactionEvent::Abort => TransactionState::Aborted,
        }
    }
}

impl TransactionState {
    /// Whether the transaction has ended.
    pub open spec fn is_terminal(self) -> bool {
        !(self is Pending)
    }

    /// The state after an event: an open transaction ends as the event says,
    /// and a transaction that has ended stays as it is.
    pub open spec fn after(self, event: TransactionEvent) -> TransactionState {
        if self is Pending {
            event.terminal()
        } else {
            self
        }
    }

    /// The state after a run of events, taken in their order.
    pub open spec fn after_all(self, events: Seq<TransactionEvent>) -> TransactionState
        decreases events.len(),
    {
        if events.len() == 0 {
            self
        } else {
            self.after(events.first()).after_all(events.drop_first())
        }
    }

    /// Whether the transaction has ended.
    pub fn has_ended(self) -> (ended: bool)
        ensures
            ended == self.is_terminal(),
    {
        match self {
            TransactionState::Pending => false,
            _ => true,
        }
    }

    /// The state after an event.
    pub fn on_event(self, event: TransactionEvent) -> (next: TransactionState)
        ensures
            next == self.after(event),
    {
        match self {
            TransactionState::Pending => match event {
                TransactionEvent::Complete => TransactionState::Completed,
                TransactionEvent::Error => TransactionState::Error,
                TransactionEvent::Abort => TransactionState::Aborted,
            },
            ended => ended,
        }
    }
}

/// A transaction that has ended never changes again, whatever the engine
/// tells of it afterwards.
pub proof fn lemma_terminal_state_is_final(state: TransactionState, events: Seq<TransactionEvent>)
    requires
        state.is_terminal(),
    ensures
        state.after_all(events) == state,
    decreases events.len(),
{
    if events.len() > 0 {
        lemma_terminal_state_is_final(state, events.drop_first());
    }
}

/// Of all that the engine tells of an open transaction, the first event
/// decides how it ends.
pub proof fn lemma_first_event_wins(events: Seq<TransactionEvent>)
    requires
        events.len() > 0,
    ensures
        TransactionState::Pending.after_all(events) == events.first().terminal(),
{
    lemma_terminal_state_is_final(events.first().terminal(), events.drop_first());
}

/// What a poll yields for a transaction in a given state; `error` is what the
/// engine holds as the transaction's error at that time.
pub open spec fn transaction_outcome<E>(state: TransactionState, error: E) -> Poll<
    Result<(), Error<E>>,
> {
    match state {
        TransactionState::Pending => Poll::Pending,
        TransactionState::Completed => Poll::Ready(Ok(())),
        TransactionState::Error => Poll::Ready(Err(Error::RequestFailed(error))),
        TransactionState::Aborted => Poll::Ready(Err(Error::TransactionAborted)),
    }
}

/// Whoever waits for the end of a transaction is given the same answer once it
/// has ended, however many events the engine adds.
pub proof fn lemma_same_terminal_for_all<E>(
    state: TransactionState,
    events: Seq<TransactionEvent>,
    error: E,
)
    requires
        state.is_terminal(),
    ensures
        transaction_outcome(state.after_all(events), error) == transaction_outcome(state, error),
        !(transaction_outcome(state, error) is Pending),
{
    lemma_terminal_state_is_final(state, events);
}

/// The mathematical content of a transaction's handle: the names of the
/// object stores that take part, and the mode.
pub struct TransactionView {
    pub stores: Seq<Seq<char>>,
    pub mode: TransactionMode,
}

/// Struct representing a transaction of the engine.
#[derive(Debug)]
pub struct Transaction<'a> {
    db: &'a IndexedDb,
    mode: TransactionMode,
}

impl<'a> View for Transaction<'a> {
    type V = TransactionView;

    closed spec fn view(&self) -> TransactionView {
        TransactionView { stores: self.db@.stores, mode: self.mode }
    }
}

impl<'a> Clone for Transaction<'a> {
    fn clone(&self) -> (copy: Transaction<'a>)
        ensures
            copy@ == self@,
    {
        Transaction { db: self.db, mode: self.mode }
    }
}

impl<'a> Transaction<'a> {
    /// A transaction in which all object stores of the database take part.
    pub(crate) fn over(db: &'a IndexedDb, mode: TransactionMode) -> (transaction: Transaction<'a>)
        ensures
            transaction@ == (TransactionView { stores: db@.stores, mode }),
    {
        Transaction { db, mode }
    }

    /// The mode that the transaction is opened in.
    pub fn mode(&self) -> (mode: TransactionMode)
        ensures
            mode == self@.mode,
    {
        self.mode
    }

    /// The names of the object stores that take part, in the engine's order.
    pub fn store_names(&self) -> (names: Vec<String>)
        ensures
            names.deep_view() == self@.stores,
    {
        self.db.object_store_names()
    }

    /// Get the object store with the given name.
    ///
    /// A store that does not take part in the transaction is refused with
    /// `UnknownStore`. For one that does, the handle carries the name, and the
    /// key path and the flag that the engine reports of the store.
    pub fn object_store<'s>(&'s self, name: &str, key_path: KeyPath, auto_increment: bool) -> (found:
        Result<TransactionObjectStore<'s>, SchemaError>)
        ensures
            match found {
                Ok(store) => {
                    &&& self@.stores.contains(name@)
                    &&& store@ == (ObjectStoreView {
                        name: name@,
                        key_path: key_path@,
                        auto_increment,
                    })
                    &&& store.transaction@ == self@
                },
                Err(e) => {
                    &&& !self@.stores.contains(name@)
                    &&& e@ == SchemaErrorView::UnknownStore(name@)
                },
            },
    {
        let names = self.db.object_store_names();
        match position(&names, name) {
            None => Err(SchemaError::UnknownStore(name.to_owned())),
            Some(_) => {
                let inner = ObjectStore::new(name.to_owned(), key_path, auto_increment);
                Ok(TransactionObjectStore { inner, transaction: self })
            },
        }
    }

    /// Wait for the transaction to be done.
    pub fn done<C>(self) -> (future: TransactionFuture<C>)
        ensures
            future@ == TransactionSlots::<C>::empty(false),
    {
        TransactionFuture::new(false)
    }

    /// Abort the transaction cancelling all the writes that were done using
    /// this transaction.
    pub fn abort<C>(self) -> (future: TransactionFuture<C>)
        ensures
            future@ == TransactionSlots::<C>::empty(true),
    {
        TransactionFuture::new(true)
    }
}

/// The callbacks that the wait for the end of a transaction holds, and
/// whether the engine is to be asked to abort.
pub struct TransactionSlots<C> {
    pub on_completed: Option<C>,
    pub on_error: Option<C>,
    pub on_abort: Option<C>,
    pub cancels: bool,
}

impl<C> TransactionSlots<C> {
    /// No callback in any slot.
    pub open spec fn empty(cancels: bool) -> TransactionSlots<C> {
        TransactionSlots { on_completed: None, on_error: None, on_abort: None, cancels }
    }
}

/// The wait for a transaction to be done or aborted.
pub struct TransactionFuture<C> {
    on_completed: Option<C>,
    on_error: Option<C>,
    on_abort: Option<C>,
    cancels: bool,
}

impl<C> View for TransactionFuture<C> {
    type V = TransactionSlots<C>;

    closed spec fn view(&self) -> TransactionSlots<C> {
        TransactionSlots {
            on_completed: self.on_completed,
            on_error: self.on_error,
            on_abort: self.on_abort,
            cancels: self.cancels,
        }
    }
}

impl<C> TransactionFuture<C> {
    /// A wait that has registered nothing yet.
    pub fn new(cancels: bool) -> (future: TransactionFuture<C>)
        ensures
            future@ == TransactionSlots::<C>::empty(cancels),
    {
        TransactionFuture { on_completed: None, on_error: None, on_abort: None, cancels }
    }

    /// Whether the engine is to be asked to abort the transaction.
    pub fn cancels(&self) -> (cancels: bool)
        ensures
            cancels == self@.cancels,
    {
        self.cancels
    }

    /// The callback that is registered for the event `complete`.
    pub fn on_completed(&self) -> (callback: Option<&C>)
        ensures
            callback == match self@.on_completed {
                Some(c) => Some(&c),
                None => None,
            },
    {
        self.on_completed.as_ref()
    }

    /// The callback that is registered for the event `error`.
    pub fn on_error(&self) -> (callback: Option<&C>)
        ensures
            callback == match self@.on_error {
                Some(c) => Some(&c),
                None => None,
            },
    {
        self.on_error.as_ref()
    }

    /// The callback that is registered for the event `abort`.
    pub fn on_abort(&self) -> (callback: Option<&C>)
        ensures
            callback == match self@.on_abort {
                Some(c) => Some(&c),
                None => None,
            },
    {
        self.on_abort.as_ref()
    }

    /// Puts a callback in the slot for `complete`, or empties the slot. What
    /// the slot held is handed back.
    pub fn set_on_complete(&mut self, closure: Option<C>) -> (released: Option<C>)
        ensures
            final(self)@ == (TransactionSlots { on_completed: closure, ..old(self)@ }),
            released == old(self)@.on_completed,
    {
        let mut slot = closure;
        std::mem::swap(&mut self.on_completed, &mut slot);
        slot
    }

    /// Puts a callback in the slot for `error`, or empties the slot. What the
    /// slot held is handed back.
    pub fn set_on_error(&mut self, closure: Option<C>) -> (released: Option<C>)
        ensures
            final(self)@ == (TransactionSlots { on_error: closure, ..old(self)@ }),
            released == old(self)@.on_error,
    {
        let mut slot = closure;
        std::mem::swap(&mut self.on_error, &mut slot);
        slot
    }

    /// Puts a callback in the slot for `abort`, or empties the slot. What the
    /// slot held is handed back.
    pub fn set_on_abort(&mut self, closure: Option<C>) -> (released: Option<C>)
        ensures
            final(self)@ == (TransactionSlots { on_abort: closure, ..old(self)@ }),
            released == old(self)@.on_abort,
    {
        let mut slot = closure;
        std::mem::swap(&mut self.on_abort, &mut slot);
        slot
    }

    /// Gives up all callbacks, as the end of the wait does.
    pub fn release(&mut self)
        ensures
            final(self)@ == TransactionSlots::<C>::empty(old(self)@.cancels),
    {
        self.on_completed = None;
        self.on_error = None;
        self.on_abort = None;
    }

    /// One poll of the transaction.
    ///
    /// While the transaction is open, a fresh callback from `waker` is put in
    /// the slot of each of the three events, made for that event, and the
    /// caller is told to wait. Once the transaction has ended the slots stay
    /// as they are and the caller is given the outcome.
    pub fn poll<E, F: Fn(TransactionEvent) -> C>(
        &mut self,
        state: TransactionState,
        error: E,
        waker: F,
    ) -> (out: Poll<Result<(), Error<E>>>)
        requires
            state is Pending ==> forall|event: TransactionEvent| waker.requires((event,)),
        ensures
            out == transaction_outcome(state, error),
            final(self)@.cancels == old(self)@.cancels,
            state is Pending ==> {
                &&& final(self)@.on_completed is Some
                &&& final(self)@.on_error is Some
                &&& final(self)@.on_abort is Some
                &&& waker.ensures((TransactionEvent::Complete,), final(self)@.on_completed->0)
                &&& waker.ensures((TransactionEvent::Error,), final(self)@.on_error->0)
                &&& waker.ensures((TransactionEvent::Abort,), final(self)@.on_abort->0)
            },
            state.is_terminal() ==> final(self)@ == old(self)@,
    {
        match state {
            TransactionState::Pending => {
                let on_complete = waker(TransactionEvent::Complete);
                let _ = self.set_on_complete(Some(on_complete));
                let on_error = waker(TransactionEvent::Error);
                let _ = self.set_on_error(Some(on_error));
                let on_abort = waker(TransactionEvent::Abort);
                let _ = self.set_on_abort(Some(on_abort));
                Poll::Pending
            },
            TransactionState::Completed => Poll::Ready(Ok(())),
            TransactionState::Error => Poll::Ready(Err(Error::RequestFailed(error))),
            TransactionState::Aborted => Poll::Ready(Err(Error::TransactionAborted)),
        }
    }
}

} // verus!
