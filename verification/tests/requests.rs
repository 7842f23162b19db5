use indexeddb::{
    Error, HostValue, IdbOpenDbRequest, IndexedDb, IndexedDbRequest, KeyPath, ObjectStore, Poll,
    RequestStatus,
};
use std::cell::Cell;
use std::rc::Rc;

fn text(s: &str) -> String {
    s.to_string()
}

type Status = RequestStatus<u32, String>;

#[test]
fn new_request_holds_no_callbacks() {
    let request: IndexedDbRequest<u8> = IndexedDbRequest::new();
    assert!(request.onsuccess().is_none());
    assert!(request.onerror().is_none());
}

#[test]
fn pending_request_registers_both_callbacks() {
    let mut request: IndexedDbRequest<u32> = IndexedDbRequest::new();
    let made = Cell::new(0u32);
    let out = request.poll(Status::Pending, || {
        made.set(made.get() + 1);
        made.get()
    });
    assert!(matches!(out, Poll::Pending));
    assert_eq!(made.get(), 2);
    assert_eq!(request.onsuccess(), Some(&1));
    assert_eq!(request.onerror(), Some(&2));
}

#[test]
fn repeated_polling_overwrites_the_callbacks() {
    let mut request: IndexedDbRequest<u32> = IndexedDbRequest::new();
    let made = Cell::new(0u32);
    for round in 1..=3u32 {
        let out = request.poll(Status::Pending, || {
            made.set(made.get() + 1);
            made.get()
        });
        assert!(matches!(out, Poll::Pending));
        assert_eq!(request.onsuccess(), Some(&(2 * round - 1)));
        assert_eq!(request.onerror(), Some(&(2 * round)));
    }
    assert_eq!(made.get(), 6);
}

#[test]
fn setting_a_slot_hands_back_what_it_held() {
    let mut request: IndexedDbRequest<&str> = IndexedDbRequest::new();
    assert_eq!(request.set_onsuccess(Some("first")), None);
    assert_eq!(request.set_onsuccess(Some("second")), Some("first"));
    assert_eq!(request.onsuccess(), Some(&"second"));
    assert_eq!(request.onerror(), None);
    assert_eq!(request.set_onerror(Some("e1")), None);
    assert_eq!(request.set_onerror(None), Some("e1"));
    assert_eq!(request.onerror(), None);
    assert_eq!(request.onsuccess(), Some(&"second"));
}

#[test]
fn done_request_with_a_result_is_ready() {
    let mut request: IndexedDbRequest<u32> = IndexedDbRequest::new();
    let out = request.poll(Status::Done { result: Some(42), error: None }, || 0);
    assert!(matches!(out, Poll::Ready(Ok(42))));
    assert!(request.onsuccess().is_none());
    assert!(request.onerror().is_none());
}

#[test]
fn done_request_prefers_the_result_over_the_error() {
    let mut request: IndexedDbRequest<u32> = IndexedDbRequest::new();
    let out = request.poll(Status::Done { result: Some(1), error: Some(text("late")) }, || 0);
    assert!(matches!(out, Poll::Ready(Ok(1))));
}

#[test]
fn done_request_without_a_result_fails_with_the_error() {
    let mut request: IndexedDbRequest<u32> = IndexedDbRequest::new();
    let out = request.poll(Status::Done { result: None, error: Some(text("quota")) }, || 0);
    match out {
        Poll::Ready(Err(Error::RequestFailed(e))) => assert_eq!(e, "quota"),
        _ => panic!("expected RequestFailed"),
    }
}

#[test]
fn rejected_request_fails_at_once() {
    let mut request: IndexedDbRequest<u32> = IndexedDbRequest::new();
    let out = request.poll(Status::Rejected(text("inactive")), || 0);
    match out {
        Poll::Ready(Err(Error::EngineRejected(e))) => assert_eq!(e, "inactive"),
        _ => panic!("expected EngineRejected"),
    }
}

#[test]
fn done_keeps_the_callbacks_of_the_last_pending_poll() {
    let mut request: IndexedDbRequest<u32> = IndexedDbRequest::new();
    let _ = request.poll(Status::Pending, || 5);
    let out = request.poll(Status::Done { result: Some(9), error: None }, || 6);
    assert!(matches!(out, Poll::Ready(Ok(9))));
    assert_eq!(request.onsuccess(), Some(&5));
    assert_eq!(request.onerror(), Some(&5));
}

#[test]
fn release_empties_both_slots() {
    let mut request: IndexedDbRequest<u32> = IndexedDbRequest::new();
    let _ = request.poll(Status::Pending, || 5);
    assert!(request.onsuccess().is_some());
    request.release();
    assert!(request.onsuccess().is_none());
    assert!(request.onerror().is_none());
}

#[test]
fn impossible_states_are_told_apart() {
    assert!(Status::Pending.is_possible());
    assert!(Status::Rejected(text("e")).is_possible());
    assert!(Status::Done { result: Some(1), error: None }.is_possible());
    assert!(Status::Done { result: None, error: Some(text("e")) }.is_possible());
    assert!(Status::Done { result: Some(1), error: Some(text("e")) }.is_possible());
    assert!(!Status::Done { result: None, error: None }.is_possible());
    assert!(!Status::Unknown.is_possible());
}

type OpenStatus = RequestStatus<IndexedDb, String>;

#[test]
fn open_registers_the_upgrade_callback() {
    let request: IdbOpenDbRequest<u32, &str> = IndexedDb::open("test", 1, "upgrade");
    assert_eq!(request.name(), "test");
    assert_eq!(request.version(), 1);
    assert_eq!(request.onupgradeneeded(), Some(&"upgrade"));
    assert!(request.onsuccess().is_none());
    assert!(request.onerror().is_none());
    let request: IdbOpenDbRequest<u32, &str> = IdbOpenDbRequest::new("other", 4_000_000_000, "u");
    assert_eq!(request.name(), "other");
    assert_eq!(request.version(), 4_000_000_000);
}

#[test]
fn open_yields_the_database_at_the_requested_version() {
    for version in [1u32, 2, 77, u32::MAX] {
        let mut request: IdbOpenDbRequest<u32, ()> = IndexedDb::open("test", version, ());
        let db = IndexedDb::new(text("test"), version as u64, vec![]).unwrap();
        assert!(request.answered_by(&db));
        let out = request.poll(OpenStatus::Done { result: Some(db), error: None }, || 0);
        match out {
            Poll::Ready(Ok(db)) => {
                assert_eq!(db.version(), version as u64);
                assert_eq!(db.name(), "test");
                assert_eq!(db.object_store_names(), Vec::<String>::new());
            }
            _ => panic!("expected the database"),
        }
    }
}

#[test]
fn open_tells_another_database_apart() {
    let request: IdbOpenDbRequest<u32, ()> = IndexedDb::open("test", 2, ());
    assert!(!request.answered_by(&IndexedDb::new(text("test"), 1, vec![]).unwrap()));
    assert!(!request.answered_by(&IndexedDb::new(text("test"), 3, vec![]).unwrap()));
    assert!(!request.answered_by(&IndexedDb::new(text("tes"), 2, vec![]).unwrap()));
    assert!(request.answered_by(&IndexedDb::new(text("test"), 2, vec![text("s")]).unwrap()));
}

#[test]
fn pending_open_registers_callbacks_and_keeps_the_upgrade_callback() {
    let mut request: IdbOpenDbRequest<u32, &str> = IndexedDb::open("test", 1, "upgrade");
    let made = Cell::new(10u32);
    let out = request.poll(OpenStatus::Pending, || {
        made.set(made.get() + 1);
        made.get()
    });
    assert!(matches!(out, Poll::Pending));
    assert_eq!(request.onsuccess(), Some(&11));
    assert_eq!(request.onerror(), Some(&12));
    assert_eq!(request.onupgradeneeded(), Some(&"upgrade"));
    let out = request.poll(OpenStatus::Pending, || 20);
    assert!(matches!(out, Poll::Pending));
    assert_eq!(request.onsuccess(), Some(&20));
    assert_eq!(request.onerror(), Some(&20));
    assert_eq!(request.onupgradeneeded(), Some(&"upgrade"));
}

#[test]
fn failed_open_leaves_no_database() {
    let mut request: IdbOpenDbRequest<u32, ()> = IndexedDb::open("test", 1, ());
    let out = request.poll(OpenStatus::Done { result: None, error: Some(text("version")) }, || 0);
    match out {
        Poll::Ready(Err(Error::RequestFailed(e))) => assert_eq!(e, "version"),
        _ => panic!("expected RequestFailed"),
    }
    let out = request.poll(OpenStatus::Rejected(text("origin")), || 0);
    match out {
        Poll::Ready(Err(Error::EngineRejected(e))) => assert_eq!(e, "origin"),
        _ => panic!("expected EngineRejected"),
    }
}

#[test]
fn open_slots_can_be_set_and_released() {
    let mut request: IdbOpenDbRequest<u32, &str> = IndexedDb::open("test", 1, "upgrade");
    assert_eq!(request.set_onsuccess(Some(1)), None);
    assert_eq!(request.set_onsuccess(Some(2)), Some(1));
    assert_eq!(request.set_onerror(Some(3)), None);
    assert_eq!(request.set_onupgradeneeded(Some("again")), Some("upgrade"));
    assert_eq!(request.onsuccess(), Some(&2));
    assert_eq!(request.onerror(), Some(&3));
    assert_eq!(request.onupgradeneeded(), Some(&"again"));
    request.release();
    assert!(request.onsuccess().is_none());
    assert!(request.onerror().is_none());
    assert!(request.onupgradeneeded().is_none());
    assert_eq!(request.name(), "test");
    assert_eq!(request.version(), 1);
}

fn store() -> ObjectStore {
    ObjectStore::new(text("test"), KeyPath::OutOfLine, false)
}

#[test]
fn get_of_a_missing_key_is_none() {
    let found = store().get::<u32, String>(Ok(HostValue::Undefined));
    assert!(matches!(found, Ok(None)));
    let found = store().get::<u32, String>(Ok(HostValue::Null));
    assert!(matches!(found, Ok(None)));
}

#[test]
fn get_hands_the_value_on() {
    let found = store().get::<u32, String>(Ok(HostValue::Text(text("world"))));
    match found {
        Ok(Some(HostValue::Text(s))) => assert_eq!(s, "world"),
        _ => panic!("expected the value"),
    }
    let found = store().get::<u32, String>(Ok(HostValue::Other(17)));
    assert!(matches!(found, Ok(Some(HostValue::Other(17)))));
    let found = store().get::<u32, String>(Ok(HostValue::Array(vec![])));
    assert!(matches!(found, Ok(Some(HostValue::Array(_)))));
}

#[test]
fn get_hands_a_failure_on() {
    let found = store().get::<u32, String>(Err(Error::RequestFailed(text("boom"))));
    match found {
        Err(Error::RequestFailed(e)) => assert_eq!(e, "boom"),
        _ => panic!("expected RequestFailed"),
    }
    let found = store().get::<u32, String>(Err(Error::EngineRejected(text("inactive"))));
    match found {
        Err(Error::EngineRejected(e)) => assert_eq!(e, "inactive"),
        _ => panic!("expected EngineRejected"),
    }
}

#[test]
fn add_drops_the_produced_key() {
    let added = store().add::<HostValue<u32>, String>(Ok(HostValue::Text(text("Hello"))));
    assert!(matches!(added, Ok(())));
    let added = store().add::<u32, String>(Ok(5));
    assert!(matches!(added, Ok(())));
}

#[test]
fn add_hands_a_failure_on() {
    let added = store().add::<u32, String>(Err(Error::RequestFailed(text("constraint"))));
    match added {
        Err(Error::RequestFailed(e)) => assert_eq!(e, "constraint"),
        _ => panic!("expected RequestFailed"),
    }
    let added = store().add::<u32, String>(Err(Error::EngineRejected(text("inactive"))));
    assert!(matches!(added, Err(Error::EngineRejected(_))));
}

#[test]
fn write_then_read_through_the_adapters() {
    // The engine settles the `add` with the key, and the later `get` with the value.
    let mut add_request: IndexedDbRequest<u32> = IndexedDbRequest::new();
    let pending = add_request.poll(RequestStatus::<HostValue<u32>, String>::Pending, || 1);
    assert!(matches!(pending, Poll::Pending));
    let settled = add_request.poll(
        RequestStatus::<HostValue<u32>, String>::Done {
            result: Some(HostValue::Text(text("Hello"))),
            error: None,
        },
        || 1,
    );
    let awaited = match settled {
        Poll::Ready(r) => r,
        Poll::Pending => panic!("expected a settled request"),
    };
    assert!(matches!(store().add(awaited), Ok(())));

    let mut get_request: IndexedDbRequest<u32> = IndexedDbRequest::new();
    let settled = get_request.poll(
        RequestStatus::<HostValue<u32>, String>::Done {
            result: Some(HostValue::Text(text("world"))),
            error: None,
        },
        || 1,
    );
    let awaited = match settled {
        Poll::Ready(r) => r,
        Poll::Pending => panic!("expected a settled request"),
    };
    match store().get(awaited) {
        Ok(Some(HostValue::Text(s))) => assert_eq!(s, "world"),
        _ => panic!("expected the value"),
    }
}

#[test]
fn error_as_host_value() {
    let e: Error<HostValue<u32>> = Error::TransactionAborted;
    assert!(matches!(e.into_host(), HostValue::Undefined));
    let e: Error<HostValue<u32>> = Error::RequestFailed(HostValue::Other(3));
    assert!(matches!(e.into_host(), HostValue::Other(3)));
    let e: Error<HostValue<u32>> = Error::EngineRejected(HostValue::Text(text("no")));
    match e.into_host() {
        HostValue::Text(s) => assert_eq!(s, "no"),
        _ => panic!("expected the engine's error"),
    }
}

#[test]
fn repeated_polling_does_not_keep_earlier_callbacks() {
    let first = Rc::new(());
    let second = Rc::new(());
    let mut request: IndexedDbRequest<Rc<()>> = IndexedDbRequest::new();
    let _ = request.poll(Status::Pending, || first.clone());
    assert_eq!(Rc::strong_count(&first), 3);
    let _ = request.poll(Status::Pending, || second.clone());
    assert_eq!(Rc::strong_count(&first), 1);
    assert_eq!(Rc::strong_count(&second), 3);
    let _ = request.poll(Status::Pending, || second.clone());
    assert_eq!(Rc::strong_count(&second), 3);
}

#[test]
fn dropping_an_unfinished_request_gives_up_its_callbacks() {
    let callback = Rc::new(());
    let mut request: IndexedDbRequest<Rc<()>> = IndexedDbRequest::new();
    let out = request.poll(Status::Pending, || callback.clone());
    assert!(matches!(out, Poll::Pending));
    assert_eq!(Rc::strong_count(&callback), 3);
    drop(request);
    assert_eq!(Rc::strong_count(&callback), 1);

    let upgrade = Rc::new(());
    let mut open: IdbOpenDbRequest<Rc<()>, Rc<()>> = IndexedDb::open("test", 1, upgrade.clone());
    let _ = open.poll(OpenStatus::Pending, || callback.clone());
    assert_eq!(Rc::strong_count(&callback), 3);
    assert_eq!(Rc::strong_count(&upgrade), 2);
    drop(open);
    assert_eq!(Rc::strong_count(&callback), 1);
    assert_eq!(Rc::strong_count(&upgrade), 1);
}

#[test]
fn releasing_a_request_gives_up_its_callbacks() {
    let callback = Rc::new(());
    let mut request: IndexedDbRequest<Rc<()>> = IndexedDbRequest::new();
    let _ = request.poll(Status::Pending, || callback.clone());
    request.release();
    assert_eq!(Rc::strong_count(&callback), 1);
}

#[test]
fn engine_answer_at_once() {
    assert!(matches!(Error::<String>::accepted(Ok(5u8)), Ok(5)));
    match Error::accepted::<u8>(Err(text("origin"))) {
        Err(Error::EngineRejected(e)) => assert_eq!(e, "origin"),
        _ => panic!("expected EngineRejected"),
    }
}

#[test]
fn open() {
    let mut request: IdbOpenDbRequest<u32, ()> = IndexedDb::open("test", 1, ());
    let first = request.poll(OpenStatus::Pending, || 1);
    assert!(matches!(first, Poll::Pending));
    let reported = IndexedDb::new(text("test"), 1, vec![]).unwrap();
    let second = request.poll(OpenStatus::Done { result: Some(reported), error: None }, || 1);
    let db = match second {
        Poll::Ready(Ok(db)) => db,
        _ => panic!("Failed to open empty indexed db"),
    };

    assert_eq!(db.name(), "test");
    assert_eq!(db.version(), 1);
}
