use places::{
    memory_name, ConnectionType, DeliveryRecord, ErrorKind, Lookup, PlacesApi, PlacesDb, Registry,
    Resolved, SyncState, SyncStore,
};

fn created(r: Result<Resolved, ErrorKind>) -> PlacesApi {
    match r.expect("should get an API") {
        Resolved::Created(api) => api,
        Resolved::Existing(id) => panic!("expected a new broker, found live broker {}", id),
    }
}

fn existing(r: Result<Resolved, ErrorKind>) -> usize {
    match r.expect("should get an API") {
        Resolved::Existing(id) => id,
        Resolved::Created(api) => panic!("expected a live broker, built broker {}", api.id()),
    }
}

struct RecordingStore {
    calls: usize,
    seen_types: Vec<ConnectionType>,
    seen_cached: Vec<Option<String>>,
}

impl SyncStore for RecordingStore {
    type Report = usize;

    fn sync(&mut self, conn: &PlacesDb, state: &mut SyncState) -> Result<usize, ErrorKind> {
        self.calls += 1;
        self.seen_types.push(conn.conn_type());
        self.seen_cached.push(state.client_info.clone());
        state.client_info = Some(format!("client-{}", self.calls));
        Ok(self.calls)
    }
}

#[test]
fn connection_type_round_trip() {
    for t in [ConnectionType::ReadOnly, ConnectionType::ReadWrite, ConnectionType::Sync] {
        assert_eq!(ConnectionType::from_primitive(t.to_primitive()), Some(t));
    }
    assert_eq!(ConnectionType::ReadOnly.to_primitive(), 1);
    assert_eq!(ConnectionType::ReadWrite.to_primitive(), 2);
    assert_eq!(ConnectionType::Sync.to_primitive(), 3);
    assert_eq!(ConnectionType::from_primitive(1), Some(ConnectionType::ReadOnly));
    assert_eq!(ConnectionType::from_primitive(2), Some(ConnectionType::ReadWrite));
    assert_eq!(ConnectionType::from_primitive(3), Some(ConnectionType::Sync));
    assert_eq!(ConnectionType::from_primitive(0), None);
    assert_eq!(ConnectionType::from_primitive(4), None);
    assert_eq!(ConnectionType::from_primitive(255), None);
}

#[test]
fn open_flags_per_type() {
    assert_eq!(ConnectionType::ReadOnly.rusqlite_flags(), 0x8000 | 0x40 | 0x1);
    assert_eq!(ConnectionType::ReadWrite.rusqlite_flags(), 0x8000 | 0x40 | 0x4 | 0x2);
    assert_eq!(ConnectionType::Sync.rusqlite_flags(), 0x8000 | 0x40 | 0x2);
}

#[test]
fn memory_name_is_shared_cache_uri() {
    let mut registry = Registry::new();
    let api = created(PlacesApi::new_memory(&mut registry, "named", None));
    assert_eq!(api.db_name().as_str(), "file:named?mode=memory&cache=shared");
    assert!(registry.is_live(&"file:named?mode=memory&cache=shared".to_string()));
}

#[test]
fn resolve_while_live_gives_same_broker() {
    let mut registry = Registry::new();
    let api = created(PlacesApi::new_memory(&mut registry, "same-broker", None));
    let id = existing(PlacesApi::new_memory(&mut registry, "same-broker", None));
    assert_eq!(id, api.id());
    let id2 = existing(PlacesApi::new_memory(&mut registry, "same-broker", Some("other")));
    assert_eq!(id2, api.id());
}

#[test]
fn resolve_after_last_release_builds_new_broker() {
    let mut registry = Registry::new();
    let name = "file:rebuilt?mode=memory&cache=shared".to_string();
    let first = created(PlacesApi::new_memory(&mut registry, "rebuilt", None));
    existing(PlacesApi::new_memory(&mut registry, "rebuilt", None));
    assert!(!registry.release(&name));
    assert!(registry.is_live(&name));
    assert!(registry.release(&name));
    assert!(!registry.is_live(&name));
    let first_id = first.id();
    drop(first);
    let second = created(PlacesApi::new_memory(&mut registry, "rebuilt", None));
    assert_ne!(second.id(), first_id);
    assert_eq!(second.id(), 2);
    assert!(registry.is_live(&name));
}

#[test]
fn id_counter_moves_on_every_resolution() {
    let mut registry = Registry::new();
    let a = created(PlacesApi::new_memory(&mut registry, "counter-a", None));
    assert_eq!(a.id(), 0);
    assert_eq!(existing(PlacesApi::new_memory(&mut registry, "counter-a", None)), 0);
    let b = created(PlacesApi::new_memory(&mut registry, "counter-b", None));
    assert_eq!(b.id(), 2);
}

#[test]
fn sync_connection_once_at_a_time() {
    let mut api = created(PlacesApi::new_memory(&mut Registry::new(), "sync-once", None));
    let first = api.open_sync_connection().expect("should get sync connection");
    assert_eq!(first.deref().conn_type(), ConnectionType::Sync);
    assert_eq!(first.deref().api_id(), api.id());
    match api.open_sync_connection() {
        Err(ErrorKind::ConnectionAlreadyOpen) => {}
        other => panic!("Expected ConnectionAlreadyOpen, got {:?}", other),
    }
    api.release_sync_connection(first).expect("should release");
    let again = api.open_sync_connection().expect("should get sync connection again");
    api.release_sync_connection(again).expect("should release again");
}

#[test]
fn sync_connection_released_to_wrong_broker() {
    let mut registry = Registry::new();
    let mut api = created(PlacesApi::new_memory(&mut registry, "sync-wrong-1", None));
    let mut other = created(PlacesApi::new_memory(&mut registry, "sync-wrong-2", None));
    let conn = other.open_sync_connection().expect("should get sync connection");
    let held = api.open_sync_connection().expect("should get sync connection");
    match api.release_sync_connection(conn) {
        Err(ErrorKind::WrongApiForClose) => {}
        e => panic!("Expected error WrongApiForClose, got {:?}", e),
    }
    // The broker's own sync connection is still out.
    assert!(matches!(api.open_sync_connection(), Err(ErrorKind::ConnectionAlreadyOpen)));
    api.release_sync_connection(held).expect("should release");
}

#[test]
fn foreign_close_leaves_slot_unchanged() {
    let mut registry = Registry::new();
    let mut api = created(PlacesApi::new_memory(&mut registry, "foreign-1", None));
    let mut other = created(PlacesApi::new_memory(&mut registry, "foreign-2", None));
    let foreign = other.open_connection(ConnectionType::ReadOnly).expect("should get reader");
    match api.close_connection(foreign) {
        Err(ErrorKind::WrongApiForClose) => {}
        e => panic!("Expected error WrongApiForClose, got {:?}", e),
    }
    // The writer is still in place: the first checkout succeeds, the second does not.
    let w = api.open_connection(ConnectionType::ReadWrite).expect("should get writer");
    assert!(matches!(
        api.open_connection(ConnectionType::ReadWrite),
        Err(ErrorKind::ConnectionAlreadyOpen)
    ));
    api.close_connection(w).expect("should close");
}

#[test]
fn readers_are_unbounded_and_close_freely() {
    let mut api = created(PlacesApi::new_memory(&mut Registry::new(), "many-readers", None));
    let r1 = api.open_connection(ConnectionType::ReadOnly).expect("reader 1");
    let r2 = api.open_connection(ConnectionType::ReadOnly).expect("reader 2");
    let r3 = api.open_connection(ConnectionType::ReadOnly).expect("reader 3");
    assert_eq!(r1.conn_type(), ConnectionType::ReadOnly);
    assert_eq!(r2.api_id(), api.id());
    api.close_connection(r1).expect("close reader 1");
    api.close_connection(r2).expect("close reader 2");
    api.close_connection(r3).expect("close reader 3");
    // Closing readers put nothing in the write slot twice.
    let w = api.open_connection(ConnectionType::ReadWrite).expect("writer");
    assert!(api.open_connection(ConnectionType::ReadWrite).is_err());
    api.close_connection(w).expect("close writer");
}

#[test]
fn scenario_in_memory_t1() {
    let mut api = created(PlacesApi::new_memory(&mut Registry::new(), "t1", None));
    let a = api.open_connection(ConnectionType::ReadWrite).expect("should get writer");
    a.conn()
        .execute_batch("CREATE TABLE t(v INTEGER); INSERT INTO t VALUES (999)")
        .expect("should insert");
    let b = api.open_connection(ConnectionType::ReadOnly).expect("should get reader");
    let v: i64 = b
        .conn()
        .query_row("SELECT v FROM t", [], |row| row.get(0))
        .expect("should get value");
    assert_eq!(v, 999);
}

#[test]
fn scenario_file_db1() {
    let mut registry = Registry::new();
    let path = "/tmp/places-broker-scenario-db1.sqlite";
    let mut api = created(PlacesApi::new(&mut registry, path, None));
    let a = api.open_connection(ConnectionType::ReadWrite).expect("A should open");
    assert!(matches!(
        api.open_connection(ConnectionType::ReadWrite),
        Err(ErrorKind::ConnectionAlreadyOpen)
    ));
    api.close_connection(a).expect("close of A");
    let b = api.open_connection(ConnectionType::ReadWrite).expect("B should open");
    assert_eq!(b.conn_type(), ConnectionType::ReadWrite);
}

#[test]
fn storage_error_is_passed_on_and_nothing_registered() {
    let mut registry = Registry::new();
    let path = "/nonexistent-places-dir/sub/db.sqlite";
    match PlacesApi::new(&mut registry, path, None) {
        Err(ErrorKind::Sql(_)) => {}
        Err(e) => panic!("Expected a storage error, got {:?}", e),
        Ok(_) => panic!("Expected a storage error"),
    }
    assert!(!registry.is_live(&path.to_string()));
}

#[test]
fn sync_caches_client_info_and_releases_connection() {
    let mut api = created(PlacesApi::new_memory(&mut Registry::new(), "sync-cache", Some("k")));
    let mut store = RecordingStore { calls: 0, seen_types: Vec::new(), seen_cached: Vec::new() };
    assert_eq!(api.sync(&mut store).expect("first sync"), 1);
    assert_eq!(api.sync(&mut store).expect("second sync"), 2);
    assert_eq!(store.seen_types, vec![ConnectionType::Sync, ConnectionType::Sync]);
    assert_eq!(store.seen_cached, vec![None, Some("client-1".to_string())]);
    // The sync connection came back each time.
    let conn = api.open_sync_connection().expect("sync connection is free");
    assert!(matches!(api.sync(&mut store), Err(ErrorKind::ConnectionAlreadyOpen)));
    assert_eq!(store.calls, 2);
    api.release_sync_connection(conn).expect("release");
}

#[test]
fn coordination_lock_is_shared() {
    let mut api = created(PlacesApi::new_memory(&mut Registry::new(), "coop-lock", None));
    let w = api.open_connection(ConnectionType::ReadWrite).expect("writer");
    let r = api.open_connection(ConnectionType::ReadOnly).expect("reader");
    assert!(std::sync::Arc::ptr_eq(api.coop_tx_lock(), w.coop_tx_lock()));
    assert!(std::sync::Arc::ptr_eq(w.coop_tx_lock(), r.coop_tx_lock()));
    let _guard = r.coop_tx_lock().lock().expect("lock");
    assert!(w.coop_tx_lock().try_lock().is_err());
}

#[test]
fn delivery_record_default_is_empty() {
    let d = DeliveryRecord::default();
    assert_eq!(d.channel_id, "");
    assert_eq!(d.service_name, "");
    assert!(!d.is_system);
    assert_eq!(d.quota, None);
    assert_eq!(d.last_recvd, None);
    assert_eq!(d.recv_count, None);
    assert_eq!(d.recipient_info, None);
}

#[test]
fn writer_handed_back_is_the_same_connection() {
    let mut api = created(PlacesApi::new_memory(&mut Registry::new(), "same-writer", None));
    let w = api.open_connection(ConnectionType::ReadWrite).expect("writer");
    // A temporary table is visible on its own connection only.
    w.conn().execute_batch("CREATE TEMP TABLE marker(x INTEGER)").expect("temp table");
    api.close_connection(w).expect("close writer");
    let again = api.open_connection(ConnectionType::ReadWrite).expect("writer again");
    let n: i64 = again
        .conn()
        .query_row("SELECT count(*) FROM temp.marker", [], |row| row.get(0))
        .expect("marker is there");
    assert_eq!(n, 0);
    let reader = api.open_reader().expect("reader");
    assert!(reader.conn().query_row("SELECT count(*) FROM temp.marker", [], |row| row.get::<_, i64>(0)).is_err());
}

#[test]
fn connections_carry_the_broker_name() {
    let mut api = created(PlacesApi::new_memory(&mut Registry::new(), "carry-name", None));
    let expected = "file:carry-name?mode=memory&cache=shared";
    let r = api.open_reader().expect("reader");
    assert_eq!(r.db_name().as_str(), expected);
    assert_eq!(r.conn_type(), ConnectionType::ReadOnly);
    let w = api.open_connection(ConnectionType::ReadWrite).expect("writer");
    assert_eq!(w.db_name().as_str(), expected);
    let s = api.open_sync_connection().expect("sync");
    assert_eq!(s.deref().db_name().as_str(), expected);
    api.release_sync_connection(s).expect("release");
}

#[test]
fn memory_name_formats_shared_cache_uri() {
    assert_eq!(memory_name("abc"), "file:abc?mode=memory&cache=shared");
    assert_eq!(memory_name(""), "file:?mode=memory&cache=shared");
}

#[test]
fn close_from_other_registry_with_same_id_refused() {
    let mut api = created(PlacesApi::new_memory(&mut Registry::new(), "same-id-1", None));
    let mut other = created(PlacesApi::new_memory(&mut Registry::new(), "same-id-2", None));
    assert_eq!(api.id(), other.id());
    let _w = api.open_connection(ConnectionType::ReadWrite).expect("writer");
    let foreign = other.open_connection(ConnectionType::ReadWrite).expect("other writer");
    match api.close_connection(foreign) {
        Err(ErrorKind::WrongApiForClose) => {}
        e => panic!("Expected error WrongApiForClose, got {:?}", e),
    }
    assert!(!api.has_writer());
}

#[test]
fn begin_and_finish_sync_keep_the_cache() {
    let mut api = created(PlacesApi::new_memory(&mut Registry::new(), "begin-finish", None));
    let (conn, mut state) = api.begin_sync().expect("begin");
    assert_eq!(state.client_info, None);
    assert_eq!(conn.deref().conn_type(), ConnectionType::Sync);
    assert!(matches!(api.begin_sync(), Err(ErrorKind::ConnectionAlreadyOpen)));
    state.client_info = Some("meta".to_string());
    let r: Result<u32, ErrorKind> = api.finish_sync(conn, state, Ok(7));
    assert!(matches!(r, Ok(7)));
    let (conn, state) = api.begin_sync().expect("begin again");
    assert_eq!(state.client_info, Some("meta".to_string()));
    let r: Result<u32, ErrorKind> = api.finish_sync(conn, state, Err(ErrorKind::WrongApiForClose));
    assert!(matches!(r, Err(ErrorKind::WrongApiForClose)));
    let conn = api.open_sync_connection().expect("sync connection is free");
    api.release_sync_connection(conn).expect("release");
}

#[test]
fn build_then_register() {
    let mut registry = Registry::new();
    let name = memory_name("build-register");
    let id = match registry.lookup(&name) {
        Lookup::Vacant(id) => id,
        Lookup::Live(id) => panic!("nothing is live yet, found {}", id),
    };
    let api = PlacesApi::build(name.clone(), None, id).expect("build");
    assert_eq!(api.id(), id);
    assert!(api.has_writer());
    assert!(!registry.holds_id(id));
    registry.register(name.clone(), id);
    assert!(registry.is_live(&name));
    assert!(registry.holds_id(id));
    assert_eq!(registry.lookup(&name), Lookup::Live(id));
}

#[test]
fn live_brokers_have_distinct_ids() {
    let mut registry = Registry::new();
    let a = created(PlacesApi::new_memory(&mut registry, "distinct-a", None));
    let b = created(PlacesApi::new_memory(&mut registry, "distinct-b", None));
    assert_ne!(a.id(), b.id());
}

#[test]
fn reader_source_opens_readers_of_the_broker() {
    let mut api = created(PlacesApi::new_memory(&mut Registry::new(), "reader-source", None));
    let w = api.open_connection(ConnectionType::ReadWrite).expect("writer");
    w.conn()
        .execute_batch("CREATE TABLE t(v INTEGER); INSERT INTO t VALUES (5)")
        .expect("insert");
    let source = api.reader_source();
    let reader = source.open_reader().expect("reader");
    assert_eq!(reader.conn_type(), ConnectionType::ReadOnly);
    assert_eq!(reader.api_id(), api.id());
    let r = reader.conn().query_row("SELECT v FROM t", [], |row| row.get::<_, i64>(0)).expect("value");
    assert_eq!(r, 5);
}
