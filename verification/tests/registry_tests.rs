use mini_view_server::protocol::ViewMode;
use mini_view_server::registry::{resolve_connect_id, SessionRegistry};
use mini_view_server::session::is_valid_hash_char;
use mini_view_server::store::InMemorySessionStore;

#[test]
fn connect_then_disconnect_bounds_the_entry() {
    let mut reg: SessionRegistry<u32> = SessionRegistry::new();
    let id = "ABCDEFGHIJKLMNOP".to_string();
    assert!(!reg.contains(&id));
    reg.register(id.clone(), 7);
    assert!(reg.contains(&id));
    assert_eq!(reg.lookup(&id), Some(&7));
    reg.disconnect(&id);
    assert!(!reg.contains(&id));
    assert_eq!(reg.lookup(&id), None);
}

#[test]
fn change_view_delivers_exactly_one_message_while_registered() {
    let mut reg: SessionRegistry<u32> = SessionRegistry::new();
    let id = "ABCDEFGHIJKLMNOP".to_string();
    reg.register(id.clone(), 1);
    assert_eq!(
        reg.change_view(&id, ViewMode::Clock),
        Some("CmdChangeView Clock".to_string())
    );
    assert_eq!(
        reg.change_view(&id, ViewMode::Note),
        Some("CmdChangeView Note".to_string())
    );
    reg.disconnect(&id);
    assert_eq!(reg.change_view(&id, ViewMode::Clock), None);
}

#[test]
fn change_view_for_unknown_id_is_a_silent_no_op() {
    let reg: SessionRegistry<u32> = SessionRegistry::new();
    assert_eq!(reg.change_view(&"nobody".to_string(), ViewMode::Note), None);
}

#[test]
fn disconnect_is_idempotent_and_never_errors() {
    let mut reg: SessionRegistry<u32> = SessionRegistry::new();
    let id = "ABCDEFGHIJKLMNOP".to_string();
    reg.disconnect(&id);
    reg.register(id.clone(), 3);
    reg.disconnect(&id);
    reg.disconnect(&id);
    assert!(!reg.contains(&id));
}

#[test]
fn reconnect_replaces_the_prior_handle() {
    let mut reg: SessionRegistry<u32> = SessionRegistry::new();
    let id = "ABCDEFGHIJKLMNOP".to_string();
    reg.register(id.clone(), 1);
    reg.register(id.clone(), 2);
    assert_eq!(reg.lookup(&id), Some(&2));
    assert_eq!(reg.list_sessions().len(), 1);
}

#[test]
fn list_sessions_snapshots_every_registered_id() {
    let mut reg: SessionRegistry<u32> = SessionRegistry::new();
    reg.register("AAAAAAAAAAAAAAAA".to_string(), 1);
    reg.register("BBBBBBBBBBBBBBBB".to_string(), 2);
    reg.register("CCCCCCCCCCCCCCCC".to_string(), 3);
    let ids = reg.list_sessions();
    assert_eq!(ids.len(), 3);
    assert!(ids.contains(&"AAAAAAAAAAAAAAAA".to_string()));
    assert!(ids.contains(&"BBBBBBBBBBBBBBBB".to_string()));
    assert!(ids.contains(&"CCCCCCCCCCCCCCCC".to_string()));
}

#[test]
fn sweep_plan_refreshes_each_entry_once_and_deletes_once() {
    let mut reg: SessionRegistry<u32> = SessionRegistry::new();
    reg.register("AAAAAAAAAAAAAAAA".to_string(), 1);
    reg.register("BBBBBBBBBBBBBBBB".to_string(), 2);
    reg.register("CCCCCCCCCCCCCCCC".to_string(), 3);
    let plan = reg.sweep_plan(1_000, 180);
    assert_eq!(plan.refresh_ids.len(), 3);
    assert_eq!(plan.stale_before, 820);
    let mut sorted = plan.refresh_ids.clone();
    sorted.sort();
    sorted.dedup();
    assert_eq!(sorted.len(), 3);
}

#[test]
fn sweep_plan_of_empty_registry_still_deletes_once() {
    let reg: SessionRegistry<u32> = SessionRegistry::new();
    let plan = reg.sweep_plan(500, 100);
    assert!(plan.refresh_ids.is_empty());
    assert_eq!(plan.stale_before, 400);
}

#[test]
fn resolve_keeps_a_nonempty_id() {
    let id = "ABCDEFGHIJKLMNOP".to_string();
    assert_eq!(resolve_connect_id(&id), id);
}

#[test]
fn resolve_mints_a_fresh_id_for_an_empty_one() {
    let r = resolve_connect_id(&"".to_string());
    assert_eq!(r.chars().count(), 16);
    assert!(r.chars().all(is_valid_hash_char));
}

#[test]
fn connect_finish_reports_the_row_to_create() {
    let mut reg: SessionRegistry<u32> = SessionRegistry::new();
    let id = "ABCDEFGHIJKLMNOP".to_string();
    let row = reg.connect_finish(id.clone(), 9, false, 77);
    let row = row.expect("a missing row must be created");
    assert_eq!(row.hash_id, id);
    assert_eq!(row.created_ts, 77);
    assert_eq!(row.updated_ts, 77);
    assert!(reg.contains(&id));

    let none = reg.connect_finish(id.clone(), 10, true, 88);
    assert!(none.is_none());
    assert_eq!(reg.lookup(&id), Some(&10));
}

#[test]
fn empty_connect_against_empty_store_creates_and_lists_one_session() {
    let mut store = InMemorySessionStore::new();
    let mut reg: SessionRegistry<u32> = SessionRegistry::new();
    let now = 1_700_000_000;

    let resolved = resolve_connect_id(&"".to_string());
    assert_eq!(resolved.chars().count(), 16);
    assert!(resolved.chars().all(is_valid_hash_char));

    let row_exists = store.read_by_id(&resolved).is_some();
    assert!(!row_exists);
    let row = reg.connect_finish(resolved.clone(), 1, row_exists, now);
    let row = row.expect("the store had no row");
    assert!(store.create(&row).is_ok());
    assert_eq!(store.len(), 1);

    let listed = reg.list_sessions();
    assert_eq!(listed, vec![resolved.clone()]);

    reg.disconnect(&resolved);
    assert!(reg.list_sessions().is_empty());
}

#[test]
fn each_completed_connect_counts_one_visitor() {
    let mut reg: SessionRegistry<u32> = SessionRegistry::new();
    assert_eq!(reg.visitor_count(), 0);
    reg.connect_finish("AAAAAAAAAAAAAAAA".to_string(), 1, false, 0);
    reg.connect_finish("BBBBBBBBBBBBBBBB".to_string(), 2, true, 0);
    reg.connect_finish("AAAAAAAAAAAAAAAA".to_string(), 3, true, 0);
    assert_eq!(reg.visitor_count(), 3);
    reg.disconnect(&"AAAAAAAAAAAAAAAA".to_string());
    assert_eq!(reg.visitor_count(), 3);
}

#[test]
fn visitor_broadcast_names_the_count() {
    assert_eq!(mini_view_server::registry::visitor_message(0), "Total visitors 0");
    assert_eq!(mini_view_server::registry::visitor_message(42), "Total visitors 42");
}

#[test]
fn development_sweep_interval_is_fifteen_seconds() {
    assert_eq!(mini_view_server::registry::SWEEP_INTERVAL_SEC, 15);
}
