//! The dispatch orchestrator: the per-request pipeline that ties signature
//! checking, the client registry, the notification store, the tenant store
//! and the provider resolver into at-most-one effective delivery per
//! logical notification.

use vstd::prelude::*;

use crate::cache::{cache_inserted, entry_provider, has_entry, CacheEntryView};
use crate::clients::{client_at, has_client, upsert_conflict, client_upsert, client_deleted,
    Client, ClientRecordView};
use crate::error::{Error, StoreError};
use crate::notifications::{cascade_deleted, clone_payload, has_notification,
    record_notification, NotificationView};
use crate::payload::PushMessageBody;
use crate::providers::{kind_of, Provider, ProviderKind};
use crate::response::{Response, ResponseStatus};
use crate::state::{with_received_counted, with_sent_counted, with_webhooks_stepped, AppState,
    Metrics};
use crate::tenants::{enabled, provider_for, has_tenant, tenant_at, TenantView};
use crate::text::{normalize_client_id, normalized_id};

verus! {

/// What the pipeline asks of its caller: nothing more (a duplicate,
/// already handled), or one send to the resolved vendor.
pub enum PushOutcome {
    /// The notification was already received; the request is answered as a
    /// success without touching any provider.
    Duplicate,
    /// First sight: the caller performs exactly one vendor send with this
    /// provider instance, device token and payload.
    Deliver { provider: Provider, device_token: String, payload: crate::payload::MessagePayload },
}

/// The terminal the pipeline reaches for a delivery request.
pub ghost enum PushDecision {
    /// No client is registered under the (tenant, normalized id).
    NoClient,
    /// The notification id was already recorded for the tenant: a
    /// redelivery, answered as success without dispatch.
    AlreadyReceived,
    /// The tenant does not exist.
    NoTenant,
    /// The client's vendor kind is neither cached nor enabled for the
    /// tenant.
    NoProvider,
    /// A first delivery: record it and send through the client's vendor.
    Deliver,
}

/// The terminal the pipeline reaches, as a function of the stores, the
/// provider cache and the request.
pub open spec fn push_decision(
    cs: Seq<ClientRecordView>,
    ns: Seq<NotificationView>,
    ts: Seq<TenantView>,
    cache: Seq<CacheEntryView>,
    t: Seq<char>,
    raw_id: Seq<char>,
    nid: Seq<char>,
) -> PushDecision {
    let id = normalized_id(raw_id);
    if !has_client(cs, t, id) {
        PushDecision::NoClient
    } else if has_notification(ns, t, nid) {
        PushDecision::AlreadyReceived
    } else if !has_tenant(ts, t) {
        PushDecision::NoTenant
    } else if has_entry(cache, t, client_at(cs, t, id).push_type) || enabled(
        tenant_at(ts, t),
        client_at(cs, t, id).push_type,
    ) {
        PushDecision::Deliver
    } else {
        PushDecision::NoProvider
    }
}

/// The notification rows after a delivery request: the submission is
/// recorded under (tenant, notification id) exactly when the client exists
/// and the key is new; an unknown client or a redelivery leaves the store
/// unchanged.
pub open spec fn notifications_after(
    cs: Seq<ClientRecordView>,
    ns: Seq<NotificationView>,
    t: Seq<char>,
    raw_id: Seq<char>,
    nid: Seq<char>,
    p: crate::payload::MessagePayloadView,
) -> Seq<NotificationView> {
    let id = normalized_id(raw_id);
    if has_client(cs, t, id) && !has_notification(ns, t, nid) {
        record_notification(ns, t, nid, id, p)
    } else {
        ns
    }
}

/// The success envelope for a duplicate delivery: the intentional
/// short-circuit is a success path by design, answered 200.
pub fn duplicate_response() -> (r: Response)
    ensures
        r.status == ResponseStatus::Success,
        r.status_code == 200,
        r.errors is None,
        r.fields is None,
{
    Response::new_success(200)
}

impl AppState {
    /// Handles one delivery request: verify-then-normalize has already
    /// happened at the edge; here the pipeline looks the client up, records
    /// the submission idempotently, resolves the tenant's provider for the
    /// client's vendor kind, and either short-circuits (unknown client,
    /// duplicate, unknown tenant, vendor not enabled) or hands the caller
    /// exactly one send to perform.
    ///
    /// The submission is recorded before the send, so a send that then
    /// fails leaves the record in place and a redelivery under the same
    /// notification id is answered as a duplicate; recovering from a failed
    /// send takes a fresh notification id. This deliberately favors
    /// at-most-one delivery over at-least-one.
    pub fn handle_push(&mut self, tenant_id: &str, client_id: &str, body: &PushMessageBody) -> (r:
        Result<PushOutcome, Error>)
        ensures
            ({
                let t = tenant_id@;
                let rid = client_id@;
                let nid = body.id@;
                let cs = old(self).client_store@;
                let ns = old(self).notification_store@;
                let ts = old(self).tenant_store@;
                let cache = old(self).provider_cache@;
                let kind = client_at(cs, t, normalized_id(rid)).push_type;
                &&& final(self).client_store@ == cs
                &&& final(self).tenant_store@ == ts
                &&& final(self).config == old(self).config
                &&& final(self).is_multitenant == old(self).is_multitenant
                &&& final(self).instance_id == old(self).instance_id
                &&& final(self).metrics == with_received_counted(old(self).metrics)
                &&& final(self).notification_store@ == notifications_after(
                    cs,
                    ns,
                    t,
                    rid,
                    nid,
                    body.payload@,
                )
                &&& final(self).provider_cache.spec_capacity()
                    == old(self).provider_cache.spec_capacity()
                &&& match push_decision(cs, ns, ts, cache, t, rid, nid) {
                    PushDecision::NoClient => r matches Err(e) && e matches Error::ClientNotFound
                        && final(self).provider_cache@ == cache,
                    PushDecision::AlreadyReceived => r matches Ok(o) && o
                        matches PushOutcome::Duplicate && final(self).provider_cache@ == cache,
                    PushDecision::NoTenant => r matches Err(e) && e matches Error::TenantNotFound
                        && final(self).provider_cache@ == cache,
                    PushDecision::NoProvider => r matches Err(e) && e
                        matches Error::ProviderNotFound && final(self).provider_cache@ == cache,
                    PushDecision::Deliver => r matches Ok(o) && o matches PushOutcome::Deliver {
                        provider,
                        device_token,
                        payload,
                    } && ({
                        &&& kind_of(provider@) == kind
                        &&& device_token@ == client_at(cs, t, normalized_id(rid)).token
                        &&& payload@ == body.payload@
                        &&& has_entry(cache, t, kind) ==> (provider@ == entry_provider(
                            cache,
                            t,
                            kind,
                        ) && final(self).provider_cache@ == cache)
                        &&& !has_entry(cache, t, kind) ==> (provider@ == provider_for(
                            tenant_at(ts, t),
                            kind,
                        ) && final(self).provider_cache@ == cache_inserted(
                            cache,
                            old(self).provider_cache.spec_capacity(),
                            t,
                            provider_for(tenant_at(ts, t), kind),
                        ))
                    }),
                }
            }),
    {
        match &self.metrics {
            Some(m) => {
                let bumped = Metrics {
                    received_notifications: crate::state::count_one(m.received_notifications),
                    sent_fcm_notifications: m.sent_fcm_notifications,
                    sent_apns_notifications: m.sent_apns_notifications,
                    registered_webhooks: m.registered_webhooks,
                };
                self.metrics = Some(bumped);
            },
            None => {},
        }
        let id = normalize_client_id(client_id);
        let client = match self.client_store.get_client(tenant_id, id.as_str()) {
            Ok(c) => c,
            Err(_) => {
                return Err(Error::ClientNotFound);
            },
        };
        if let Ok(_existing) = self.notification_store.get_notification(
            body.id.as_str(),
            tenant_id,
        ) {
            return Ok(PushOutcome::Duplicate);
        }
        let notification = match self.notification_store.create_or_update_notification(
            body.id.as_str(),
            tenant_id,
            id.as_str(),
            &body.payload,
        ) {
            Ok(n) => n,
            Err(_) => {
                return Err(Error::Store(StoreError::Backend));
            },
        };
        // A redelivery racing past the presence check is caught at write
        // time: only a history of length one is a first sight.
        if notification.previous_payloads.len() > 1 {
            return Ok(PushOutcome::Duplicate);
        }
        let tenant = match self.tenant_store.get_tenant(tenant_id) {
            Ok(t) => t,
            Err(_) => {
                return Err(Error::TenantNotFound);
            },
        };
        let provider = match crate::cache::resolve(
            &mut self.provider_cache,
            &tenant,
            &client.push_type,
        ) {
            Ok(p) => p,
            Err(e) => {
                return Err(e);
            },
        };
        Ok(
            PushOutcome::Deliver {
                provider,
                device_token: client.token,
                payload: clone_payload(&body.payload),
            },
        )
    }

    /// Registers a client under the identity-merge algorithm and counts the
    /// registration. The inbound id is normalized like every id. A
    /// conflicting registration surfaces the store's constraint violation
    /// and changes nothing.
    pub fn handle_register(&mut self, tenant_id: &str, client_id: &str, client: Client) -> (r:
        Result<Response, Error>)
        ensures
            ({
                let t = tenant_id@;
                let id = normalized_id(client_id@);
                let cs = old(self).client_store@;
                &&& final(self).notification_store@ == old(self).notification_store@
                &&& final(self).tenant_store@ == old(self).tenant_store@
                &&& final(self).provider_cache@ == old(self).provider_cache@
                &&& final(self).config == old(self).config
                &&& final(self).is_multitenant == old(self).is_multitenant
                &&& final(self).instance_id == old(self).instance_id
                &&& upsert_conflict(cs, t, id, client@) ==> (r matches Err(e) && e
                    matches Error::Store(se) && se matches StoreError::Backend
                    && final(self).client_store@ == cs
                    && final(self).metrics == old(self).metrics)
                &&& !upsert_conflict(cs, t, id, client@) ==> (r matches Ok(resp)
                    && resp.status == ResponseStatus::Success && resp.status_code == 200
                    && final(self).client_store@ == client_upsert(cs, t, id, client@)
                    && final(self).metrics == with_webhooks_stepped(old(self).metrics, true))
            }),
    {
        let id = normalize_client_id(client_id);
        match self.client_store.create_client(tenant_id, id.as_str(), client) {
            Ok(_) => {},
            Err(e) => {
                return Err(Error::Store(e));
            },
        }
        match &self.metrics {
            Some(m) => {
                let bumped = Metrics {
                    received_notifications: m.received_notifications,
                    sent_fcm_notifications: m.sent_fcm_notifications,
                    sent_apns_notifications: m.sent_apns_notifications,
                    registered_webhooks: crate::state::step_one(m.registered_webhooks, true),
                };
                self.metrics = Some(bumped);
            },
            None => {},
        }
        Ok(Response::new_success(200))
    }

    /// Deregisters a client: removes its registry row, cascades deletion of
    /// its notification history, and counts the deregistration. Idempotent:
    /// deleting an absent client is also a success.
    pub fn handle_delete(&mut self, tenant_id: &str, client_id: &str) -> (r: Response)
        ensures
            ({
                let t = tenant_id@;
                let id = normalized_id(client_id@);
                &&& final(self).client_store@ == client_deleted(old(self).client_store@, t, id)
                &&& final(self).notification_store@ == cascade_deleted(
                    old(self).notification_store@,
                    t,
                    id,
                )
                &&& final(self).tenant_store@ == old(self).tenant_store@
                &&& final(self).provider_cache@ == old(self).provider_cache@
                &&& final(self).config == old(self).config
                &&& final(self).is_multitenant == old(self).is_multitenant
                &&& final(self).instance_id == old(self).instance_id
                &&& final(self).metrics == with_webhooks_stepped(old(self).metrics, false)
                &&& r.status == ResponseStatus::Success
                &&& r.status_code == 200
            }),
    {
        let id = normalize_client_id(client_id);
        let _ = self.client_store.delete_client(
            &mut self.notification_store,
            tenant_id,
            id.as_str(),
        );
        match &self.metrics {
            Some(m) => {
                let stepped_down = Metrics {
                    received_notifications: m.received_notifications,
                    sent_fcm_notifications: m.sent_fcm_notifications,
                    sent_apns_notifications: m.sent_apns_notifications,
                    registered_webhooks: crate::state::step_one(m.registered_webhooks, false),
                };
                self.metrics = Some(stepped_down);
            },
            None => {},
        }
        Response::new_success(200)
    }

    /// Counts one successful vendor send and answers 202: the request was
    /// newly dispatched.
    pub fn record_sent(&mut self, kind: &ProviderKind) -> (r: Response)
        ensures
            final(self).metrics == with_sent_counted(old(self).metrics, *kind),
            final(self).client_store@ == old(self).client_store@,
            final(self).notification_store@ == old(self).notification_store@,
            final(self).tenant_store@ == old(self).tenant_store@,
            final(self).provider_cache@ == old(self).provider_cache@,
            final(self).config == old(self).config,
            final(self).is_multitenant == old(self).is_multitenant,
            final(self).instance_id == old(self).instance_id,
            r.status == ResponseStatus::Success,
            r.status_code == 202,
            r.errors is None,
            r.fields is None,
    {
        match &self.metrics {
            Some(m) => {
                let bumped = match kind {
                    ProviderKind::Fcm => Metrics {
                        received_notifications: m.received_notifications,
                        sent_fcm_notifications: crate::state::count_one(m.sent_fcm_notifications),
                        sent_apns_notifications: m.sent_apns_notifications,
                        registered_webhooks: m.registered_webhooks,
                    },
                    ProviderKind::Apns => Metrics {
                        received_notifications: m.received_notifications,
                        sent_fcm_notifications: m.sent_fcm_notifications,
                        sent_apns_notifications: crate::state::count_one(
                            m.sent_apns_notifications,
                        ),
                        registered_webhooks: m.registered_webhooks,
                    },
                    ProviderKind::Noop => *m,
                };
                self.metrics = Some(bumped);
            },
            None => {},
        }
        Response::new_success(202)
    }
}

} // verus!
