use echo_server::clients::{Client, ClientStore};
use echo_server::dispatch::{duplicate_response, PushOutcome};
use echo_server::error::Error;
use echo_server::notifications::NotificationStore;
use echo_server::payload::{MessagePayload, PushMessageBody};
use echo_server::providers::{Provider, ProviderKind};
use echo_server::response::ResponseStatus;
use echo_server::state::{new_state, AppState, Config, Metrics};
use echo_server::tenants::{Tenant, TenantStore};

fn config() -> Config {
    Config {
        public_url: String::from("https://relay.example"),
        relay_public_key: String::from("SECRET-REDACTED"),
        validate_signatures: false,
        supported_providers: vec![ProviderKind::Noop, ProviderKind::Fcm],
    }
}

fn tenant(id: &str, fcm: bool) -> Tenant {
    Tenant {
        id: String::from(id),
        apns_topic: None,
        apns_type: None,
        apns_certificate: None,
        fcm_api_key: if fcm { Some(String::from("fcm-key")) } else { None },
        noop_enabled: true,
        suspended: false,
        suspended_reason: None,
    }
}

fn client(kind: ProviderKind, token: &str) -> Client {
    Client {
        tenant_id: String::from("test"),
        push_type: kind,
        token: String::from(token),
        always_raw: false,
    }
}

fn body(id: &str) -> PushMessageBody {
    PushMessageBody {
        id: String::from(id),
        payload: MessagePayload {
            topic: None,
            flags: 0,
            blob: String::from("blob"),
        },
    }
}

fn state_with(tenant_id: &str, fcm: bool) -> AppState {
    let mut tenants = TenantStore::new();
    tenants.upsert_tenant(tenant(tenant_id, fcm));
    let mut s = new_state(
        config(),
        ClientStore::new(),
        NotificationStore::new(),
        tenants,
    )
    .expect("state");
    s.set_metrics(Metrics::new());
    s
}

#[test]
fn idempotent_delivery_sends_once() {
    let mut s = state_with("test", false);
    s.handle_register("test", "dev", client(ProviderKind::Noop, "tok"))
        .unwrap();
    // First submission: exactly one send is asked of the caller.
    let first = s.handle_push("test", "dev", &body("n1")).unwrap();
    assert!(matches!(first, PushOutcome::Deliver { .. }));
    // Second submission of the same id: success, but no send.
    let second = s.handle_push("test", "dev", &body("n1")).unwrap();
    assert!(matches!(second, PushOutcome::Duplicate));
    let resp = duplicate_response();
    assert!(matches!(resp.status, ResponseStatus::Success));
    assert_eq!(resp.status_code, 200);
}

#[test]
fn duplicate_record_reports_longer_history() {
    let mut store = NotificationStore::new();
    let p = MessagePayload {
        topic: None,
        flags: 0,
        blob: String::from("b"),
    };
    let first = store
        .create_or_update_notification("n1", "test", "dev", &p)
        .unwrap();
    assert_eq!(first.previous_payloads.len(), 1);
    // A racing redelivery that reached the atomic record step sees length 2.
    let second = store
        .create_or_update_notification("n1", "test", "dev", &p)
        .unwrap();
    assert_eq!(second.previous_payloads.len(), 2);
}

#[test]
fn unknown_client_creates_no_record() {
    let mut s = state_with("test", false);
    let r = s.handle_push("test", "ghost", &body("n1"));
    assert!(matches!(r, Err(Error::ClientNotFound)));
    assert!(s.notification_store.get_notification("n1", "test").is_err());
}

#[test]
fn deregistration_cascades_and_later_delivery_fails() {
    let mut s = state_with("test", false);
    s.handle_register("test", "dev", client(ProviderKind::Noop, "tok"))
        .unwrap();
    let r = s.handle_push("test", "dev", &body("n1")).unwrap();
    assert!(matches!(r, PushOutcome::Deliver { .. }));
    assert!(s.notification_store.get_notification("n1", "test").is_ok());

    let resp = s.handle_delete("test", "dev");
    assert_eq!(resp.status_code, 200);
    assert!(s.client_store.get_client("test", "dev").is_err());
    assert!(s.notification_store.get_notification("n1", "test").is_err());

    let r = s.handle_push("test", "dev", &body("n2"));
    assert!(matches!(r, Err(Error::ClientNotFound)));
}

#[test]
fn provider_routing_matches_client_kind() {
    let mut s = state_with("test", true);
    s.handle_register("test", "dev", client(ProviderKind::Fcm, "tok"))
        .unwrap();
    match s.handle_push("test", "dev", &body("n1")).unwrap() {
        PushOutcome::Deliver { provider, device_token, .. } => {
            assert!(matches!(provider, Provider::Fcm(_)));
            assert_eq!(device_token, "tok");
        }
        PushOutcome::Duplicate => panic!("first delivery must dispatch"),
    }
}

#[test]
fn vendor_not_enabled_is_provider_not_found() {
    let mut s = state_with("test", false);
    s.handle_register("test", "dev", client(ProviderKind::Apns, "tok"))
        .unwrap();
    let r = s.handle_push("test", "dev", &body("n1"));
    assert!(matches!(r, Err(Error::ProviderNotFound)));
}

#[test]
fn unknown_tenant_is_reported() {
    let mut s = state_with("other", false);
    s.handle_register("test", "dev", client(ProviderKind::Noop, "tok"))
        .unwrap();
    let r = s.handle_push("test", "dev", &body("n1"));
    assert!(matches!(r, Err(Error::TenantNotFound)));
}

#[test]
fn decentralized_prefix_is_stripped_on_lookup() {
    let mut s = state_with("test", false);
    s.handle_register("test", "did:key:dev", client(ProviderKind::Noop, "tok"))
        .unwrap();
    // Registration normalized the id, so the bare id resolves.
    assert!(s.client_store.get_client("test", "dev").is_ok());
    let r = s.handle_push("test", "did:key:dev", &body("n1")).unwrap();
    assert!(matches!(r, PushOutcome::Deliver { .. }));
}

#[test]
fn counters_follow_the_pipeline() {
    let mut s = state_with("test", true);
    s.handle_register("test", "dev", client(ProviderKind::Fcm, "tok"))
        .unwrap();
    assert_eq!(s.metrics.unwrap().registered_webhooks, 1);
    s.handle_push("test", "dev", &body("n1")).unwrap();
    assert_eq!(s.metrics.unwrap().received_notifications, 1);
    assert_eq!(s.metrics.unwrap().sent_fcm_notifications, 0);
    let resp = s.record_sent(&ProviderKind::Fcm);
    assert_eq!(resp.status_code, 202);
    assert_eq!(s.metrics.unwrap().sent_fcm_notifications, 1);
    let resp = s.handle_delete("test", "dev");
    assert_eq!(resp.status_code, 200);
    assert_eq!(s.metrics.unwrap().registered_webhooks, 0);
}

#[test]
fn startup_without_providers_is_refused() {
    let mut empty = config();
    empty.supported_providers = Vec::new();
    let r = new_state(
        empty,
        ClientStore::new(),
        NotificationStore::new(),
        TenantStore::new(),
    );
    assert!(matches!(r, Err(Error::ProviderNotFound)));
}
