use mini_view_server::registry::SessionRegistry;
use mini_view_server::session::Session;
use mini_view_server::store::{InMemorySessionStore, StoreError};

fn row(id: &str, ts: i64) -> Session {
    Session { hash_id: id.to_string(), created_ts: ts, updated_ts: ts }
}

#[test]
fn created_rows_can_be_read_back() {
    let mut store = InMemorySessionStore::new();
    assert!(store.create(&row("AAAAAAAAAAAAAAAA", 10)).is_ok());
    let got = store.read_by_id(&"AAAAAAAAAAAAAAAA".to_string()).unwrap();
    assert_eq!(got.hash_id, "AAAAAAAAAAAAAAAA");
    assert_eq!(got.created_ts, 10);
    assert_eq!(got.updated_ts, 10);
}

#[test]
fn missing_rows_read_as_none() {
    let store = InMemorySessionStore::new();
    assert!(store.read_by_id(&"AAAAAAAAAAAAAAAA".to_string()).is_none());
}

#[test]
fn duplicate_create_is_an_error() {
    let mut store = InMemorySessionStore::new();
    assert!(store.create(&row("AAAAAAAAAAAAAAAA", 10)).is_ok());
    assert_eq!(store.create(&row("AAAAAAAAAAAAAAAA", 20)), Err(StoreError::DuplicateId));
    assert_eq!(store.len(), 1);
    assert_eq!(store.read_by_id(&"AAAAAAAAAAAAAAAA".to_string()).unwrap().created_ts, 10);
}

#[test]
fn update_timestamp_touches_only_updated_ts() {
    let mut store = InMemorySessionStore::new();
    store.create(&row("AAAAAAAAAAAAAAAA", 10)).unwrap();
    assert!(store.update_timestamp(&"AAAAAAAAAAAAAAAA".to_string(), 99));
    let got = store.read_by_id(&"AAAAAAAAAAAAAAAA".to_string()).unwrap();
    assert_eq!(got.created_ts, 10);
    assert_eq!(got.updated_ts, 99);
}

#[test]
fn update_timestamp_of_a_missing_row_is_no_error() {
    let mut store = InMemorySessionStore::new();
    assert!(!store.update_timestamp(&"AAAAAAAAAAAAAAAA".to_string(), 99));
    assert_eq!(store.len(), 0);
}

#[test]
fn delete_where_removes_exactly_the_stale_rows() {
    let mut store = InMemorySessionStore::new();
    store.create(&row("AAAAAAAAAAAAAAAA", 10)).unwrap();
    store.create(&row("BBBBBBBBBBBBBBBB", 50)).unwrap();
    store.create(&row("CCCCCCCCCCCCCCCC", 70)).unwrap();
    store.delete_where(50);
    assert_eq!(store.len(), 2);
    assert!(store.read_by_id(&"AAAAAAAAAAAAAAAA".to_string()).is_none());
    assert!(store.read_by_id(&"BBBBBBBBBBBBBBBB".to_string()).is_some());
    assert!(store.read_by_id(&"CCCCCCCCCCCCCCCC".to_string()).is_some());
}

#[test]
fn list_all_returns_every_row() {
    let mut store = InMemorySessionStore::new();
    store.create(&row("AAAAAAAAAAAAAAAA", 10)).unwrap();
    store.create(&row("BBBBBBBBBBBBBBBB", 50)).unwrap();
    let all = store.list_all();
    assert_eq!(all.len(), 2);
    let ids: Vec<String> = all.iter().map(|s| s.hash_id.clone()).collect();
    assert!(ids.contains(&"AAAAAAAAAAAAAAAA".to_string()));
    assert!(ids.contains(&"BBBBBBBBBBBBBBBB".to_string()));
}

#[test]
fn a_sweep_refreshes_live_sessions_and_purges_stale_rows() {
    let mut store = InMemorySessionStore::new();
    let mut reg: SessionRegistry<u32> = SessionRegistry::new();

    store.create(&row("AAAAAAAAAAAAAAAA", 0)).unwrap();
    store.create(&row("BBBBBBBBBBBBBBBB", 0)).unwrap();
    store.create(&row("GGGGGGGGGGGGGGGG", 0)).unwrap();
    reg.register("AAAAAAAAAAAAAAAA".to_string(), 1);
    reg.register("BBBBBBBBBBBBBBBB".to_string(), 2);

    let now = 1_000;
    let plan = reg.sweep_plan(now, 180);
    assert_eq!(plan.refresh_ids.len(), 2);
    let mut refreshes = 0;
    for id in &plan.refresh_ids {
        if store.update_timestamp(id, now) {
            refreshes += 1;
        }
    }
    assert_eq!(refreshes, 2);
    store.delete_where(plan.stale_before);

    assert_eq!(store.len(), 2);
    assert!(store.read_by_id(&"GGGGGGGGGGGGGGGG".to_string()).is_none());
    assert_eq!(store.read_by_id(&"AAAAAAAAAAAAAAAA".to_string()).unwrap().updated_ts, now);
    assert_eq!(store.read_by_id(&"BBBBBBBBBBBBBBBB".to_string()).unwrap().updated_ts, now);
}
