use authorization::session::{SessionStore, StoreCommand, StoreReply};

#[test]
fn put_then_get_finds_the_value() {
    let mut store = SessionStore::new();
    store.put("k".to_string(), "gym:1".to_string(), 10, 100);
    assert_eq!(store.get("k", 100), Some("gym:1".to_string()));
    assert_eq!(store.get("k", 109), Some("gym:1".to_string()));
}

#[test]
fn record_lapses_when_its_seconds_are_over() {
    let mut store = SessionStore::new();
    store.put("k".to_string(), "gym:1".to_string(), 10, 100);
    assert_eq!(store.get("k", 110), None);
    assert_eq!(store.get("k", 5000), None);
}

#[test]
fn delete_of_an_absent_key_is_no_error() {
    let mut store = SessionStore::new();
    let reply = store.execute(StoreCommand::Delete { key: "nobody".to_string() }, 0);
    assert!(matches!(reply, StoreReply::Deleted));
    let again = store.execute(StoreCommand::Delete { key: "nobody".to_string() }, 0);
    assert!(matches!(again, StoreReply::Deleted));
}

#[test]
fn put_replaces_what_was_recorded() {
    let mut store = SessionStore::new();
    store.put("k".to_string(), "gym:1".to_string(), 10, 100);
    store.put("k".to_string(), "gym:2".to_string(), 50, 105);
    assert_eq!(store.get("k", 120), Some("gym:2".to_string()));
    assert_eq!(store.get("k", 155), None);
}

#[test]
fn keys_do_not_disturb_each_other() {
    let mut store = SessionStore::new();
    store.put("a".to_string(), "1".to_string(), 10, 0);
    store.put("b".to_string(), "2".to_string(), 10, 0);
    store.put("c".to_string(), "3".to_string(), 10, 0);
    store.delete("b");
    assert_eq!(store.get("a", 1), Some("1".to_string()));
    assert_eq!(store.get("b", 1), None);
    assert_eq!(store.get("c", 1), Some("3".to_string()));
    store.delete("a");
    assert_eq!(store.get("c", 1), Some("3".to_string()));
    assert_eq!(store.get("a", 1), None);
}

#[test]
fn execute_answers_each_command() {
    let mut store = SessionStore::new();
    let put = StoreCommand::Put { key: "k".to_string(), value: "v".to_string(), seconds: 5 };
    assert!(matches!(store.execute(put, 0), StoreReply::Stored));
    match store.execute(StoreCommand::Get { key: "k".to_string() }, 4) {
        StoreReply::Found(v) => assert_eq!(v, "v"),
        other => panic!("unexpected {:?}", other),
    }
    assert!(matches!(
        store.execute(StoreCommand::Get { key: "k".to_string() }, 5),
        StoreReply::Missing
    ));
    assert!(matches!(
        store.execute(StoreCommand::Get { key: "other".to_string() }, 0),
        StoreReply::Missing
    ));
    assert!(matches!(
        store.execute(StoreCommand::Delete { key: "k".to_string() }, 1),
        StoreReply::Deleted
    ));
    assert!(matches!(
        store.execute(StoreCommand::Get { key: "k".to_string() }, 1),
        StoreReply::Missing
    ));
}

#[test]
fn record_that_never_lapses_within_the_clock_range() {
    let mut store = SessionStore::new();
    store.put("k".to_string(), "v".to_string(), u64::MAX, i64::MAX);
    assert_eq!(store.get("k", i64::MAX), Some("v".to_string()));
    store.put("z".to_string(), "v".to_string(), 0, 7);
    assert_eq!(store.get("z", 7), None);
}

#[test]
fn store_out_of_reach_answers_unavailable_and_keeps_its_records() {
    let mut store = SessionStore::new();
    store.put("k".to_string(), "v".to_string(), 10, 0);
    store.set_reachable(false);
    for command in [
        StoreCommand::Get { key: "k".to_string() },
        StoreCommand::Delete { key: "k".to_string() },
        StoreCommand::Put { key: "k".to_string(), value: "w".to_string(), seconds: 10 },
    ] {
        match store.execute(command, 1) {
            StoreReply::Unavailable(reason) => assert_eq!(reason, "session store is unreachable"),
            other => panic!("unexpected {:?}", other),
        }
    }
    assert!(matches!(store.ask("k", 1), StoreReply::Unavailable(_)));
    store.set_reachable(true);
    match store.ask("k", 1) {
        StoreReply::Found(v) => assert_eq!(v, "v"),
        other => panic!("unexpected {:?}", other),
    }
    assert!(matches!(store.ask("k", 10), StoreReply::Missing));
}
