use echo_server::clients::{Client, ClientStore};
use echo_server::error::StoreError;
use echo_server::notifications::NotificationStore;
use echo_server::providers::ProviderKind;

fn noop_client(token: &str) -> Client {
    Client {
        tenant_id: String::from("test"),
        push_type: ProviderKind::Noop,
        token: String::from(token),
        always_raw: false,
    }
}

#[test]
fn test_registration() {
    let mut store = ClientStore::new();
    let r = store.create_client("test", "client-1", noop_client("1234567890"));
    assert!(r.is_ok());
    let fetched = store.get_client("test", "client-1").expect("Call failed");
    assert_eq!(fetched.token, "1234567890");
    assert!(matches!(fetched.push_type, ProviderKind::Noop));

    // Re-registering the same client id under a new token rewrites the row.
    let r = store.create_client("test", "client-1", noop_client("new_token"));
    assert!(r.is_ok());
    let fetched = store.get_client("test", "client-1").expect("Call failed");
    assert_eq!(fetched.token, "new_token");
}

#[test]
fn test_deregistration() {
    let mut store = ClientStore::new();
    let mut notifications = NotificationStore::new();
    let r = store.create_client("test", "client-2", noop_client("1234567890"));
    assert!(r.is_ok(), "Failed to register client");
    let r = store.delete_client(&mut notifications, "test", "client-2");
    assert!(r.is_ok(), "Failed to unregister client");
    assert!(matches!(
        store.get_client("test", "client-2"),
        Err(StoreError::NotFound(_, _))
    ));
}

#[test]
fn token_rotation_keeps_one_row() {
    let mut store = ClientStore::new();
    store.create_client("t", "a", noop_client("t1")).unwrap();
    store.create_client("t", "a", noop_client("t2")).unwrap();
    // Exactly one row: id "a" now carries token "t2".
    let fetched = store.get_client("t", "a").unwrap();
    assert_eq!(fetched.token, "t2");
}

#[test]
fn id_rotation_keeps_one_row() {
    let mut store = ClientStore::new();
    store.create_client("t", "a", noop_client("t1")).unwrap();
    store.create_client("t", "b", noop_client("t1")).unwrap();
    // Exactly one row: token "t1" now belongs to id "b", and "a" is gone.
    let fetched = store.get_client("t", "b").unwrap();
    assert_eq!(fetched.token, "t1");
    assert!(matches!(
        store.get_client("t", "a"),
        Err(StoreError::NotFound(_, _))
    ));
}

#[test]
fn exact_reregistration_is_a_noop() {
    let mut store = ClientStore::new();
    store.create_client("t", "a", noop_client("t1")).unwrap();
    let mut again = noop_client("t1");
    again.push_type = ProviderKind::Fcm;
    store.create_client("t", "a", again).unwrap();
    // Exact match on id and token changes nothing, not even the kind.
    let fetched = store.get_client("t", "a").unwrap();
    assert!(matches!(fetched.push_type, ProviderKind::Noop));
}

#[test]
fn conflicting_registration_is_refused() {
    let mut store = ClientStore::new();
    store.create_client("t", "a", noop_client("t1")).unwrap();
    store.create_client("t", "b", noop_client("t2")).unwrap();
    // "a" exists and "t2" belongs to the distinct row "b": refused.
    let r = store.create_client("t", "a", noop_client("t2"));
    assert!(matches!(r, Err(StoreError::Backend)));
    // Nothing changed.
    assert_eq!(store.get_client("t", "a").unwrap().token, "t1");
    assert_eq!(store.get_client("t", "b").unwrap().token, "t2");
}

#[test]
fn tenants_are_isolated() {
    let mut store = ClientStore::new();
    store.create_client("t1", "a", noop_client("tok")).unwrap();
    // The same id and token in another tenant is a fresh, unrelated row.
    store.create_client("t2", "a", noop_client("tok")).unwrap();
    assert_eq!(store.get_client("t1", "a").unwrap().token, "tok");
    assert_eq!(store.get_client("t2", "a").unwrap().token, "tok");
    let mut notifications = NotificationStore::new();
    store.delete_client(&mut notifications, "t1", "a").unwrap();
    assert!(store.get_client("t1", "a").is_err());
    assert!(store.get_client("t2", "a").is_ok());
}
