use d5::{
    basic_auth_header, delete_record, derive_key, read_record, response_for, write_record,
    AccessPolicy, RecordStore, ServiceError,
};

#[test]
fn fresh_store_reads_not_found() {
    let store = RecordStore::new();
    assert_eq!(read_record(&store, "bob:pw"), Err(ServiceError::NotFound));
    assert_eq!(store.len(), 0);
}

#[test]
fn write_then_read_returns_value() {
    let mut store = RecordStore::new();
    let policy = AccessPolicy::open();
    assert_eq!(write_record(&mut store, &policy, "bob:pw", "10.0.0.1"), Ok("10.0.0.1".to_string()));
    assert_eq!(read_record(&store, "bob:pw"), Ok("10.0.0.1".to_string()));
}

#[test]
fn last_write_wins() {
    let mut store = RecordStore::new();
    let policy = AccessPolicy::open();
    write_record(&mut store, &policy, "bob:pw", "10.0.0.1").unwrap();
    write_record(&mut store, &policy, "bob:pw", "10.0.0.2").unwrap();
    assert_eq!(read_record(&store, "bob:pw"), Ok("10.0.0.2".to_string()));
    assert_eq!(store.len(), 1);
}

#[test]
fn keys_are_kept_apart() {
    let mut store = RecordStore::new();
    let policy = AccessPolicy::open();
    write_record(&mut store, &policy, "a:1", "1.1.1.1").unwrap();
    write_record(&mut store, &policy, "b:2", "2.2.2.2").unwrap();
    assert_eq!(read_record(&store, "a:1"), Ok("1.1.1.1".to_string()));
    assert_eq!(read_record(&store, "b:2"), Ok("2.2.2.2".to_string()));
    delete_record(&mut store, "a:1").unwrap();
    assert_eq!(read_record(&store, "a:1"), Err(ServiceError::NotFound));
    assert_eq!(read_record(&store, "b:2"), Ok("2.2.2.2".to_string()));
    assert_eq!(store.len(), 1);
}

#[test]
fn delete_existing_then_absent() {
    let mut store = RecordStore::new();
    let policy = AccessPolicy::open();
    write_record(&mut store, &policy, "bob:pw", "10.0.0.1").unwrap();
    assert_eq!(delete_record(&mut store, "bob:pw"), Ok("IP deleted".to_string()));
    assert_eq!(read_record(&store, "bob:pw"), Err(ServiceError::NotFound));
    assert_eq!(delete_record(&mut store, "bob:pw"), Err(ServiceError::NotFound));
    assert_eq!(store.len(), 0);
}

#[test]
fn delete_absent_leaves_store_unchanged() {
    let mut store = RecordStore::new();
    let policy = AccessPolicy::open();
    write_record(&mut store, &policy, "a:1", "1.1.1.1").unwrap();
    assert_eq!(delete_record(&mut store, "b:2"), Err(ServiceError::NotFound));
    assert_eq!(store.len(), 1);
    assert_eq!(read_record(&store, "a:1"), Ok("1.1.1.1".to_string()));
}

#[test]
fn end_to_end_alice() {
    let mut store = RecordStore::new();
    let policy = AccessPolicy::open();
    assert_eq!(
        write_record(&mut store, &policy, "alice:secret", "203.0.113.5"),
        Ok("203.0.113.5".to_string())
    );
    assert_eq!(read_record(&store, "alice:secret"), Ok("203.0.113.5".to_string()));
    assert_eq!(delete_record(&mut store, "alice:secret"), Ok("IP deleted".to_string()));
    assert_eq!(read_record(&store, "alice:secret"), Err(ServiceError::NotFound));
}

#[test]
fn end_to_end_unauthorized() {
    let mut store = RecordStore::new();
    let policy = AccessPolicy::single_user("admin:pw");
    let eve = basic_auth_header("eve:pw");
    assert_eq!(write_record(&mut store, &policy, &eve, "198.51.100.7"), Err(ServiceError::Unauthorized));
    assert_eq!(store.len(), 0);
    assert_eq!(read_record(&store, &eve), Err(ServiceError::NotFound));
}

#[test]
fn single_user_admin_may_write() {
    let mut store = RecordStore::new();
    let policy = AccessPolicy::single_user("admin:pw");
    let admin = basic_auth_header("admin:pw");
    assert_eq!(write_record(&mut store, &policy, &admin, "192.0.2.1"), Ok("192.0.2.1".to_string()));
    assert_eq!(read_record(&store, &admin), Ok("192.0.2.1".to_string()));
    assert_eq!(write_record(&mut store, &policy, "admin:pw", "192.0.2.2"), Err(ServiceError::Unauthorized));
    assert_eq!(read_record(&store, &admin), Ok("192.0.2.1".to_string()));
}

#[test]
fn single_user_gates_writes_only() {
    let mut store = RecordStore::new();
    let open = AccessPolicy::open();
    write_record(&mut store, &open, "Basic ZXZlOnB3", "1.2.3.4").unwrap();
    let policy = AccessPolicy::single_user("admin:pw");
    assert!(!policy.permits(&"Basic ZXZlOnB3".to_string()));
    assert_eq!(read_record(&store, "Basic ZXZlOnB3"), Ok("1.2.3.4".to_string()));
    assert_eq!(delete_record(&mut store, "Basic ZXZlOnB3"), Ok("IP deleted".to_string()));
}

#[test]
fn basic_header_encodes_credential() {
    assert_eq!(basic_auth_header("admin:pw"), "Basic YWRtaW46cHc=");
    assert_eq!(basic_auth_header("alice:secret"), "Basic YWxpY2U6c2VjcmV0");
    assert_eq!(basic_auth_header("ab"), "Basic YWI=");
    assert_eq!(basic_auth_header(""), "Basic ");
}

#[test]
fn policy_permits() {
    let open = AccessPolicy::open();
    assert!(open.permits(&"anything".to_string()));
    let single = AccessPolicy::single_user("admin:pw");
    assert!(single.permits(&"Basic YWRtaW46cHc=".to_string()));
    assert!(!single.permits(&"Basic ZXZlOnB3".to_string()));
}

#[test]
fn key_derivation_is_deterministic_and_distinct() {
    assert_eq!(derive_key("alice:secret"), derive_key("alice:secret"));
    assert_eq!(derive_key("alice:secret"), "alice:secret");
    assert_ne!(derive_key("alice:secret"), derive_key("alice:secreT"));
}

#[test]
fn serialized_writes_leave_one_whole_value() {
    let policy = AccessPolicy::open();
    let mut ab = RecordStore::new();
    write_record(&mut ab, &policy, "k:1", "A").unwrap();
    write_record(&mut ab, &policy, "k:1", "B").unwrap();
    assert_eq!(read_record(&ab, "k:1"), Ok("B".to_string()));
    let mut ba = RecordStore::new();
    write_record(&mut ba, &policy, "k:1", "B").unwrap();
    write_record(&mut ba, &policy, "k:1", "A").unwrap();
    assert_eq!(read_record(&ba, "k:1"), Ok("A".to_string()));
    assert_eq!(ab.len(), 1);
    assert_eq!(ba.len(), 1);
}

#[test]
fn store_get_put_remove() {
    let mut store = RecordStore::new();
    let k = "key".to_string();
    assert_eq!(store.get(&k), None);
    store.put(k.clone(), "v1".to_string());
    store.put(k.clone(), "v2".to_string());
    assert_eq!(store.get(&k), Some("v2".to_string()));
    assert_eq!(store.remove(&k), Some("v2".to_string()));
    assert_eq!(store.remove(&k), None);
    assert_eq!(store.get(&k), None);
}

#[test]
fn store_remove_middle_keeps_others() {
    let mut store = RecordStore::new();
    for (k, v) in [("a", "1"), ("b", "2"), ("c", "3")] {
        store.put(k.to_string(), v.to_string());
    }
    assert_eq!(store.remove(&"a".to_string()), Some("1".to_string()));
    assert_eq!(store.get(&"b".to_string()), Some("2".to_string()));
    assert_eq!(store.get(&"c".to_string()), Some("3".to_string()));
    assert_eq!(store.len(), 2);
}

#[test]
fn error_messages_and_statuses() {
    assert_eq!(ServiceError::Db.message(), "Internal server error.\n");
    assert_eq!(ServiceError::NotFound.message(), "No IP found for that username–password pair.\n");
    assert_eq!(ServiceError::Unauthorized.message(), "Unauthorized request.\n");
    assert_eq!(ServiceError::Db.status(), 500);
    assert_eq!(ServiceError::NotFound.status(), 404);
    assert_eq!(ServiceError::Unauthorized.status(), 401);
}

#[test]
fn responses() {
    assert_eq!(response_for(&Ok("1.2.3.4".to_string())), (200, "1.2.3.4".to_string()));
    assert_eq!(
        response_for(&Err(ServiceError::NotFound)),
        (404, "No IP found for that username–password pair.\n".to_string())
    );
    assert_eq!(response_for(&Err(ServiceError::Unauthorized)), (401, "Unauthorized request.\n".to_string()));
    assert_eq!(response_for(&Err(ServiceError::Db)), (500, "Internal server error.\n".to_string()));
}
