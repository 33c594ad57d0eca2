use echo_server::cache::{resolve, ProviderCache};
use echo_server::error::{Error, StoreError};
use echo_server::payload::{MessagePayload, ENCRYPTED_FLAG};
use echo_server::providers::{ApnsType, FcmProvider, Provider, ProviderKind};
use echo_server::response::{Response, ResponseStatus};
use echo_server::signature::{verify_signature, AuthClaims};
use echo_server::tenants::{tenant_info, Tenant};
use echo_server::text::{normalize_client_id, str_eq, DECENTRALIZED_IDENTIFIER_PREFIX};

fn payload(flags: u32) -> MessagePayload {
    MessagePayload {
        topic: Some(String::from("topic")),
        flags,
        blob: String::from("blob"),
    }
}

#[test]
fn encrypted_flag_bit_zero() {
    assert!(payload(1).is_encrypted());
    assert!(!payload(0).is_encrypted());
    assert!(payload(3).is_encrypted());
    assert!(!payload(2).is_encrypted());
    assert_eq!(ENCRYPTED_FLAG, 1);
}

#[test]
fn client_id_normalization() {
    assert_eq!(normalize_client_id("did:key:abc"), "abc");
    assert_eq!(normalize_client_id("abc"), "abc");
    assert_eq!(normalize_client_id("did:key:did:key:abc"), "abc");
    assert_eq!(normalize_client_id("did:key:"), "");
    assert_eq!(normalize_client_id("did:keyabc"), "did:keyabc");
    assert_eq!(DECENTRALIZED_IDENTIFIER_PREFIX, "did:key:");
}

#[test]
fn string_equality() {
    assert!(str_eq("", ""));
    assert!(str_eq("abc", "abc"));
    assert!(!str_eq("abc", "abd"));
    assert!(!str_eq("abc", "abcd"));
}

#[test]
fn error_statuses_and_envelope() {
    assert_eq!(Error::SignatureInvalid.status(), 401);
    assert_eq!(Error::ClientNotFound.status(), 404);
    assert_eq!(Error::TenantNotFound.status(), 404);
    assert_eq!(Error::ProviderNotFound.status(), 404);
    assert_eq!(
        Error::Store(StoreError::NotFound(String::from("client"), String::from("x"))).status(),
        404
    );
    assert_eq!(Error::Store(StoreError::Backend).status(), 500);
    assert_eq!(Error::ProviderSend.status(), 502);
    assert_eq!(Error::RateLimited.status(), 429);

    let r = echo_server::response::response_for_error(&Error::ClientNotFound);
    assert!(matches!(r.status, ResponseStatus::Failure));
    assert_eq!(r.status_code, 404);
    let errors = r.errors.unwrap();
    assert_eq!(errors.len(), 1);
    assert_eq!(errors[0].name, "ClientNotFound");
    assert_eq!(errors[0].message, "client not found");
    assert_eq!(r.fields.unwrap().len(), 0);

    let ok = Response::new_success(202);
    assert!(matches!(ok.status, ResponseStatus::Success));
    assert_eq!(ok.status_code, 202);
    assert!(ok.errors.is_none());

    let default = Response::default();
    assert_eq!(default.status_code, 200);
}

fn claims(aud: &str, exp: u64) -> AuthClaims {
    AuthClaims {
        aud: String::from(aud),
        sub: String::from("did:key:dev"),
        iat: 90,
        exp,
    }
}

#[test]
fn signature_claim_checks() {
    let ok = verify_signature(&claims("relay.example", 200), true, "relay.example", 100);
    assert_eq!(ok.unwrap(), "did:key:dev");
    // The cryptographic check failed upstream.
    let r = verify_signature(&claims("relay.example", 200), false, "relay.example", 100);
    assert!(matches!(r, Err(Error::SignatureInvalid)));
    // Audience mismatch.
    let r = verify_signature(&claims("elsewhere", 200), true, "relay.example", 100);
    assert!(matches!(r, Err(Error::SignatureInvalid)));
    // Expired token.
    let r = verify_signature(&claims("relay.example", 50), true, "relay.example", 100);
    assert!(matches!(r, Err(Error::SignatureInvalid)));
}

fn full_tenant() -> Tenant {
    Tenant {
        id: String::from("test"),
        apns_topic: Some(String::from("com.example.app")),
        apns_type: Some(ApnsType::Token),
        apns_certificate: Some(String::from("SECRET-REDACTED")),
        fcm_api_key: Some(String::from("fcm-key")),
        noop_enabled: false,
        suspended: true,
        suspended_reason: Some(String::from("billing")),
    }
}

#[test]
fn tenant_info_projection() {
    let t = full_tenant();
    let info = tenant_info(&t, "https://relay.example");
    assert_eq!(info.url, "https://relay.example/test");
    assert_eq!(info.enabled_providers, vec!["apns", "fcm"]);
    assert_eq!(info.apns_topic.as_deref(), Some("com.example.app"));
    assert!(matches!(info.apns_type, Some(ApnsType::Token)));
    assert!(info.suspended);
    assert_eq!(info.suspended_reason.as_deref(), Some("billing"));
}

#[test]
fn tenant_info_hides_apns_when_disabled() {
    let mut t = full_tenant();
    t.apns_certificate = None;
    let info = tenant_info(&t, "https://relay.example");
    assert_eq!(info.enabled_providers, vec!["fcm"]);
    assert!(info.apns_topic.is_none());
    assert!(info.apns_type.is_none());
}

#[test]
fn tenant_provider_resolution() {
    let t = full_tenant();
    let p = t.provider(&ProviderKind::Fcm).unwrap();
    assert!(matches!(p, Provider::Fcm(FcmProvider { .. })));
    assert!(matches!(p.kind(), ProviderKind::Fcm));
    let missing = t.provider(&ProviderKind::Noop);
    assert!(matches!(missing, Err(Error::ProviderNotFound)));
}

#[test]
fn cache_roundtrip_and_eviction() {
    let mut cache = ProviderCache::new(1);
    cache.insert("t1", Provider::Fcm(FcmProvider { api_key: String::from("k1") }));
    assert!(cache.get("t1", &ProviderKind::Fcm).is_some());
    // Capacity one: a second key evicts the oldest entry.
    cache.insert("t2", Provider::Fcm(FcmProvider { api_key: String::from("k2") }));
    assert!(cache.get("t1", &ProviderKind::Fcm).is_none());
    assert!(cache.get("t2", &ProviderKind::Fcm).is_some());
}

#[test]
fn cache_replaces_in_place() {
    let mut cache = ProviderCache::new(4);
    cache.insert("t1", Provider::Fcm(FcmProvider { api_key: String::from("k1") }));
    cache.insert("t1", Provider::Fcm(FcmProvider { api_key: String::from("k2") }));
    match cache.get("t1", &ProviderKind::Fcm) {
        Some(Provider::Fcm(p)) => assert_eq!(p.api_key, "k2"),
        _ => panic!("expected the replaced FCM entry"),
    }
}

#[test]
fn resolver_builds_then_caches() {
    let t = full_tenant();
    let mut cache = ProviderCache::new(8);
    let p = resolve(&mut cache, &t, &ProviderKind::Apns).unwrap();
    assert!(matches!(p, Provider::Apns(_)));
    // The instance is now cached under (tenant, kind).
    assert!(cache.get("test", &ProviderKind::Apns).is_some());
    let again = resolve(&mut cache, &t, &ProviderKind::Apns).unwrap();
    assert!(matches!(again, Provider::Apns(_)));
    // A kind the tenant does not enable fails and caches nothing.
    let r = resolve(&mut cache, &t, &ProviderKind::Noop);
    assert!(matches!(r, Err(Error::ProviderNotFound)));
    assert!(cache.get("test", &ProviderKind::Noop).is_none());
}

#[test]
fn provider_kind_names() {
    assert_eq!(ProviderKind::Apns.as_str(), "apns");
    assert_eq!(ProviderKind::Fcm.as_str(), "fcm");
    assert_eq!(ProviderKind::Noop.as_str(), "noop");
    assert!(matches!(ProviderKind::from_name("noop"), Some(ProviderKind::Noop)));
    assert!(matches!(ProviderKind::from_name("apns"), Some(ProviderKind::Apns)));
    assert!(matches!(ProviderKind::from_name("fcm"), Some(ProviderKind::Fcm)));
    assert!(ProviderKind::from_name("smtp").is_none());
}
