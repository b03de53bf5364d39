use ultra_core::memory::{new_record, new_record_at, InMemoryStore, MemoryQuery, MemoryRecord, MemoryStore};

fn record(id: &str, session: &str, content: &str, source: &str, at: u64) -> MemoryRecord {
    MemoryRecord {
        id: id.to_owned(),
        session_id: session.to_owned(),
        content: content.to_owned(),
        source: source.to_owned(),
        created_at_unix: at,
    }
}

#[test]
fn memory_store_filters_by_session_and_source() {
    let mut store = InMemoryStore::new();
    store.put(MemoryRecord {
        id: "1".to_owned(),
        session_id: "session-a".to_owned(),
        content: "alpha".to_owned(),
        source: "chat".to_owned(),
        created_at_unix: 1,
    });
    store.put(MemoryRecord {
        id: "2".to_owned(),
        session_id: "session-b".to_owned(),
        content: "beta".to_owned(),
        source: "skill".to_owned(),
        created_at_unix: 2,
    });

    let records = store.query(&MemoryQuery {
        session_id: Some("session-a".to_owned()),
        source: Some("chat".to_owned()),
        limit: 10,
    });

    assert_eq!(records.len(), 1);
    assert_eq!(records[0].id, "1");
}

#[test]
fn memory_store_delete_removes_record() {
    let mut store = InMemoryStore::new();
    store.put(MemoryRecord {
        id: "x".to_owned(),
        session_id: "session-a".to_owned(),
        content: "to-remove".to_owned(),
        source: "chat".to_owned(),
        created_at_unix: 1,
    });

    assert!(store.delete("x"));
    assert!(store.query(&MemoryQuery::default()).is_empty());
}

#[test]
fn query_is_newest_first_and_bounded_by_limit() {
    let mut store = InMemoryStore::new();
    store.put(record("old", "s", "a", "chat", 10));
    store.put(record("new", "s", "b", "chat", 30));
    store.put(record("mid", "s", "c", "chat", 20));
    let all = store.query(&MemoryQuery { session_id: None, source: None, limit: 10 });
    let ids: Vec<&str> = all.iter().map(|r| r.id.as_str()).collect();
    assert_eq!(ids, vec!["new", "mid", "old"]);
    let top = store.query(&MemoryQuery { session_id: None, source: None, limit: 2 });
    let ids: Vec<&str> = top.iter().map(|r| r.id.as_str()).collect();
    assert_eq!(ids, vec!["new", "mid"]);
    let none = store.query(&MemoryQuery { session_id: None, source: None, limit: 0 });
    assert!(none.is_empty());
}

#[test]
fn put_with_same_id_replaces() {
    let mut store = InMemoryStore::new();
    store.put(record("k", "s", "first", "chat", 1));
    store.put(record("k", "s", "second", "chat", 2));
    let all = store.query(&MemoryQuery::default());
    assert_eq!(all.len(), 1);
    assert_eq!(all[0].content, "second");
}

#[test]
fn delete_of_missing_id_reports_false() {
    let mut store = InMemoryStore::new();
    store.put(record("k", "s", "c", "chat", 1));
    assert!(!store.delete("other"));
    assert_eq!(store.query(&MemoryQuery::default()).len(), 1);
}

#[test]
fn default_query_limit_is_twenty() {
    let q = MemoryQuery::default();
    assert_eq!(q.limit, 20);
    assert!(q.session_id.is_none());
    assert!(q.source.is_none());
    let mut store = InMemoryStore::new();
    for i in 0..25u64 {
        store.put(record(&format!("r{i}"), "s", "c", "chat", i));
    }
    let got = store.query(&q);
    assert_eq!(got.len(), 20);
    assert_eq!(got[0].id, "r24");
    assert_eq!(got[19].id, "r5");
}

#[test]
fn new_record_copies_its_fields() {
    let r = new_record("id-1", "sess", "hello", "chat");
    assert_eq!(r.id, "id-1");
    assert_eq!(r.session_id, "sess");
    assert_eq!(r.content, "hello");
    assert_eq!(r.source, "chat");
    assert!(r.created_at_unix > 0);
}

#[test]
fn new_record_at_stamps_the_given_time() {
    let r = new_record_at("id-2", "s", "c", "src", 1234);
    assert_eq!(r.id, "id-2");
    assert_eq!(r.session_id, "s");
    assert_eq!(r.content, "c");
    assert_eq!(r.source, "src");
    assert_eq!(r.created_at_unix, 1234);
}
