//! The assembled service state: configuration, stores, provider cache and
//! counters.

use vstd::prelude::*;

use crate::cache::ProviderCache;
use crate::clients::ClientStore;
use crate::error::Error;
use crate::notifications::NotificationStore;
use crate::providers::ProviderKind;
use crate::tenants::TenantStore;

verus! {

/// How many provider instances the resolver cache holds before it evicts.
pub const PROVIDER_CACHE_SIZE: usize = 100;

/// Service configuration read at startup.
#[derive(Debug)]
pub struct Config {
    /// The externally reachable address of this server; signed requests
    /// must name it as their audience.
    pub public_url: String,
    /// The relay's public key material, used at the edge to check request
    /// signatures.
    pub relay_public_key: String,
    /// Whether inbound requests must carry a valid signature.
    pub validate_signatures: bool,
    /// The vendor kinds this deployment is willing to serve. Starting with
    /// none enabled is a misconfiguration and must prevent startup.
    pub supported_providers: Vec<ProviderKind>,
}

impl Config {
    /// A copy of this configuration.
    pub fn duplicate(&self) -> (r: Config)
        ensures
            r.public_url@ == self.public_url@,
            r.relay_public_key@ == self.relay_public_key@,
            r.validate_signatures == self.validate_signatures,
            r.supported_providers@ == self.supported_providers@,
    {
        let mut kinds: Vec<ProviderKind> = Vec::new();
        let n = self.supported_providers.len();
        let mut i: usize = 0;
        while i < n
            invariant
                n == self.supported_providers@.len(),
                i <= n,
                kinds@ == self.supported_providers@.subrange(0, i as int),
            decreases n - i,
        {
            kinds.push(self.supported_providers[i]);
            proof {
                assert(kinds@ =~= self.supported_providers@.subrange(0, i + 1));
            }
            i = i + 1;
        }
        proof {
            assert(self.supported_providers@.subrange(0, n as int) =~= self.supported_providers@);
        }
        Config {
            public_url: self.public_url.clone(),
            relay_public_key: self.relay_public_key.clone(),
            validate_signatures: self.validate_signatures,
            supported_providers: kinds,
        }
    }
}

/// Delivery counters, reported to the metrics sink by the edge.
#[derive(Debug, Clone, Copy, PartialEq, Eq, Structural)]
pub struct Metrics {
    pub received_notifications: u64,
    pub sent_fcm_notifications: u64,
    pub sent_apns_notifications: u64,
    pub registered_webhooks: i64,
}

impl Metrics {
    /// All counters at zero.
    pub fn new() -> (r: Metrics)
        ensures
            r.received_notifications == 0,
            r.sent_fcm_notifications == 0,
            r.sent_apns_notifications == 0,
            r.registered_webhooks == 0,
    {
        Metrics {
            received_notifications: 0,
            sent_fcm_notifications: 0,
            sent_apns_notifications: 0,
            registered_webhooks: 0,
        }
    }
}

/// A counter bumped by one, saturating at the type's maximum.
pub open spec fn counted(c: u64) -> u64 {
    if c < u64::MAX {
        (c + 1) as u64
    } else {
        c
    }
}

/// Bumps a counter, saturating at the maximum.
pub fn count_one(c: u64) -> (r: u64)
    ensures
        r == counted(c),
{
    if c < u64::MAX {
        c + 1
    } else {
        c
    }
}

/// A signed counter moved by one step up or down, saturating at the type's
/// bounds.
pub open spec fn stepped(c: i64, up: bool) -> i64 {
    if up {
        if c < i64::MAX {
            (c + 1) as i64
        } else {
            c
        }
    } else {
        if c > i64::MIN {
            (c - 1) as i64
        } else {
            c
        }
    }
}

/// Moves a signed counter one step up or down, saturating at the bounds.
pub fn step_one(c: i64, up: bool) -> (r: i64)
    ensures
        r == stepped(c, up),
{
    if up {
        if c < i64::MAX {
            c + 1
        } else {
            c
        }
    } else {
        if c > i64::MIN {
            c - 1
        } else {
            c
        }
    }
}

/// The optional metrics with the registered-webhooks counter moved one step
/// up (a registration) or down (a deregistration).
pub open spec fn with_webhooks_stepped(m: Option<Metrics>, up: bool) -> Option<Metrics> {
    match m {
        Some(m) => Some(Metrics { registered_webhooks: stepped(m.registered_webhooks, up), ..m }),
        None => None,
    }
}

/// The optional metrics with the received-notifications counter bumped.
pub open spec fn with_received_counted(m: Option<Metrics>) -> Option<Metrics> {
    match m {
        Some(m) => Some(Metrics { received_notifications: counted(m.received_notifications), ..m }),
        None => None,
    }
}

/// The optional metrics with the per-vendor sent counter bumped; the no-op
/// vendor has no counter.
pub open spec fn with_sent_counted(m: Option<Metrics>, k: ProviderKind) -> Option<Metrics> {
    match m {
        Some(m) => Some(
            match k {
                ProviderKind::Fcm => Metrics {
                    sent_fcm_notifications: counted(m.sent_fcm_notifications),
                    ..m
                },
                ProviderKind::Apns => Metrics {
                    sent_apns_notifications: counted(m.sent_apns_notifications),
                    ..m
                },
                ProviderKind::Noop => m,
            },
        ),
        None => None,
    }
}

/// Everything a running service owns: configuration, the three stores, the
/// provider cache, optional delivery counters, the multitenancy mode, and
/// this instance's identifier.
#[derive(Debug)]
pub struct AppState {
    pub config: Config,
    pub metrics: Option<Metrics>,
    pub client_store: ClientStore,
    pub notification_store: NotificationStore,
    pub tenant_store: TenantStore,
    pub provider_cache: ProviderCache,
    pub is_multitenant: bool,
    pub instance_id: String,
}

/// Relies on `uuid::Uuid::new_v4` and its `Display` form: a freshly drawn
/// random version-4 UUID, rendered in the 36-character hyphenated form.
/// Nothing beyond the length holds of every outcome.
#[verifier::external_body]
fn fresh_instance_id() -> (r: String)
    ensures
        r@.len() == 36,
{
    uuid::Uuid::new_v4().to_string()
}

/// Assembles the service state from the configuration and stores, with no
/// metrics attached, an empty provider cache and a fresh instance id.
/// Refuses to start (with `ProviderNotFound`) exactly when the
/// configuration enables no vendor at all.
pub fn new_state(
    config: Config,
    client_store: ClientStore,
    notification_store: NotificationStore,
    tenant_store: TenantStore,
) -> (r: Result<AppState, Error>)
    ensures
        (r matches Ok(s)) <==> config.supported_providers@.len() > 0,
        r matches Ok(s) ==> ({
            &&& s.config == config
            &&& s.metrics is None
            &&& s.client_store == client_store
            &&& s.notification_store == notification_store
            &&& s.tenant_store == tenant_store
            &&& s.provider_cache@ == Seq::<crate::cache::CacheEntryView>::empty()
            &&& s.provider_cache.spec_capacity() == PROVIDER_CACHE_SIZE
            &&& !s.is_multitenant
            &&& s.instance_id@.len() == 36
        }),
        r matches Err(e) ==> e matches Error::ProviderNotFound,
{
    if config.supported_providers.len() == 0 {
        return Err(Error::ProviderNotFound);
    }
    Ok(
        AppState {
            config,
            metrics: None,
            client_store,
            notification_store,
            tenant_store,
            provider_cache: ProviderCache::new(PROVIDER_CACHE_SIZE),
            is_multitenant: false,
            instance_id: fresh_instance_id(),
        },
    )
}

impl AppState {
    /// Attaches delivery counters; everything else is untouched.
    pub fn set_metrics(&mut self, metrics: Metrics)
        ensures
            final(self).metrics == Some(metrics),
            final(self).config == old(self).config,
            final(self).client_store == old(self).client_store,
            final(self).notification_store == old(self).notification_store,
            final(self).tenant_store == old(self).tenant_store,
            final(self).provider_cache == old(self).provider_cache,
            final(self).is_multitenant == old(self).is_multitenant,
            final(self).instance_id == old(self).instance_id,
    {
        self.metrics = Some(metrics);
    }
}

} // verus!
