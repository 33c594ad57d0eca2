//! Per-tenant configuration: enabled vendors, credentials, suspension state.

use vstd::prelude::*;

use crate::error::{Error, StoreError};
use crate::providers::{
    kind_name, kind_of, ApnsProvider, ApnsType, FcmProvider, NoopProvider, Provider,
    ProviderKind, ProviderView,
};

verus! {

/// The view of an optional string.
pub open spec fn opt_view(o: Option<String>) -> Option<Seq<char>> {
    match o {
        Some(s) => Some(s@),
        None => None,
    }
}

/// A copy of an optional string with the same characters.
pub fn clone_opt_string(o: &Option<String>) -> (r: Option<String>)
    ensures
        opt_view(r) == opt_view(*o),
{
    match o {
        Some(s) => Some(s.clone()),
        None => None,
    }
}

/// Mathematical image of a [`Tenant`].
#[verifier::ext_equal]
pub ghost struct TenantView {
    pub id: Seq<char>,
    pub apns_topic: Option<Seq<char>>,
    pub apns_type: Option<ApnsType>,
    pub apns_certificate: Option<Seq<char>>,
    pub fcm_api_key: Option<Seq<char>>,
    pub noop_enabled: bool,
    pub suspended: bool,
    pub suspended_reason: Option<Seq<char>>,
}

/// One tenant: an isolated customer scope owning its clients, notifications
/// and vendor credentials. Read-only from the dispatch path. Suspension is
/// recorded for informational reads and is not a dispatch gate.
#[derive(Debug)]
pub struct Tenant {
    pub id: String,
    pub apns_topic: Option<String>,
    pub apns_type: Option<ApnsType>,
    pub apns_certificate: Option<String>,
    pub fcm_api_key: Option<String>,
    pub noop_enabled: bool,
    pub suspended: bool,
    pub suspended_reason: Option<String>,
}

impl View for Tenant {
    type V = TenantView;

    open spec fn view(&self) -> TenantView {
        TenantView {
            id: self.id@,
            apns_topic: opt_view(self.apns_topic),
            apns_type: self.apns_type,
            apns_certificate: opt_view(self.apns_certificate),
            fcm_api_key: opt_view(self.fcm_api_key),
            noop_enabled: self.noop_enabled,
            suspended: self.suspended,
            suspended_reason: opt_view(self.suspended_reason),
        }
    }
}

/// APNs is enabled for a tenant exactly when its topic, authentication
/// scheme and credential material are all configured.
pub open spec fn apns_enabled(t: TenantView) -> bool {
    t.apns_topic is Some && t.apns_type is Some && t.apns_certificate is Some
}

/// FCM is enabled for a tenant exactly when an API key is configured.
pub open spec fn fcm_enabled(t: TenantView) -> bool {
    t.fcm_api_key is Some
}

/// Whether a vendor kind is enabled for a tenant.
pub open spec fn enabled(t: TenantView, k: ProviderKind) -> bool {
    match k {
        ProviderKind::Apns => apns_enabled(t),
        ProviderKind::Fcm => fcm_enabled(t),
        ProviderKind::Noop => t.noop_enabled,
    }
}

/// The vendor kinds enabled for a tenant, in a fixed order.
pub open spec fn enabled_kinds(t: TenantView) -> Seq<ProviderKind> {
    (if apns_enabled(t) {
        seq![ProviderKind::Apns]
    } else {
        Seq::empty()
    }) + (if fcm_enabled(t) {
        seq![ProviderKind::Fcm]
    } else {
        Seq::empty()
    }) + (if t.noop_enabled {
        seq![ProviderKind::Noop]
    } else {
        Seq::empty()
    })
}

/// The provider instance a tenant's credentials construct for a vendor kind;
/// meaningful when that kind is enabled.
pub open spec fn provider_for(t: TenantView, k: ProviderKind) -> ProviderView {
    match k {
        ProviderKind::Apns => ProviderView::Apns {
            topic: t.apns_topic.unwrap(),
            apns_type: t.apns_type.unwrap(),
            certificate: t.apns_certificate.unwrap(),
        },
        ProviderKind::Fcm => ProviderView::Fcm { api_key: t.fcm_api_key.unwrap() },
        ProviderKind::Noop => ProviderView::Noop,
    }
}

impl Tenant {
    /// A copy of this tenant with the same configuration.
    pub fn duplicate(&self) -> (r: Tenant)
        ensures
            r@ == self@,
    {
        Tenant {
            id: self.id.clone(),
            apns_topic: clone_opt_string(&self.apns_topic),
            apns_type: self.apns_type,
            apns_certificate: clone_opt_string(&self.apns_certificate),
            fcm_api_key: clone_opt_string(&self.fcm_api_key),
            noop_enabled: self.noop_enabled,
            suspended: self.suspended,
            suspended_reason: clone_opt_string(&self.suspended_reason),
        }
    }

    /// The set of vendor kinds enabled for this tenant.
    pub fn providers(&self) -> (r: Vec<ProviderKind>)
        ensures
            r@ == enabled_kinds(self@),
    {
        let mut r: Vec<ProviderKind> = Vec::new();
        if self.apns_topic.is_some() && self.apns_type.is_some()
            && self.apns_certificate.is_some() {
            r.push(ProviderKind::Apns);
        }
        if self.fcm_api_key.is_some() {
            r.push(ProviderKind::Fcm);
        }
        if self.noop_enabled {
            r.push(ProviderKind::Noop);
        }
        proof {
            assert(r@ =~= enabled_kinds(self@));
        }
        r
    }

    /// The ready-to-use provider for a vendor kind on this tenant, or
    /// `ProviderNotFound` exactly when that kind is not enabled here.
    pub fn provider(&self, kind: &ProviderKind) -> (r: Result<Provider, Error>)
        ensures
            enabled(self@, *kind) ==> (r matches Ok(p) && p@ == provider_for(self@, *kind)),
            !enabled(self@, *kind) ==> (r matches Err(e) && e matches Error::ProviderNotFound),
            r matches Ok(p) ==> kind_of(p@) == *kind,
    {
        match kind {
            ProviderKind::Apns => match (&self.apns_topic, &self.apns_type, &self.apns_certificate) {
                (Some(topic), Some(apns_type), Some(certificate)) => Ok(
                    Provider::Apns(
                        ApnsProvider {
                            topic: topic.clone(),
                            apns_type: *apns_type,
                            certificate: certificate.clone(),
                        },
                    ),
                ),
                _ => Err(Error::ProviderNotFound),
            },
            ProviderKind::Fcm => match &self.fcm_api_key {
                Some(api_key) => Ok(Provider::Fcm(FcmProvider { api_key: api_key.clone() })),
                None => Err(Error::ProviderNotFound),
            },
            ProviderKind::Noop => {
                if self.noop_enabled {
                    Ok(Provider::Noop(NoopProvider {}))
                } else {
                    Err(Error::ProviderNotFound)
                }
            },
        }
    }
}

/// No two rows of a tenant store share an id.
pub open spec fn wf_tenant_rows(rows: Seq<TenantView>) -> bool {
    forall|i: int, j: int|
        0 <= i < j < rows.len() ==> #[trigger] rows[i].id != #[trigger] rows[j].id
}

/// Some row holds the tenant id.
pub open spec fn has_tenant(rows: Seq<TenantView>, id: Seq<char>) -> bool {
    exists|i: int| 0 <= i < rows.len() && #[trigger] rows[i].id == id
}

/// The index of the row holding the tenant id; meaningful when `has_tenant`.
pub open spec fn tenant_index(rows: Seq<TenantView>, id: Seq<char>) -> int {
    choose|i: int| 0 <= i < rows.len() && #[trigger] rows[i].id == id
}

/// The row holding the tenant id; meaningful when `has_tenant`.
pub open spec fn tenant_at(rows: Seq<TenantView>, id: Seq<char>) -> TenantView {
    rows[tenant_index(rows, id)]
}

/// A store with unique ids has exactly one row per id: any row holding the
/// id is the row `tenant_index` names.
pub proof fn lemma_tenant_index(rows: Seq<TenantView>, id: Seq<char>, k: int)
    requires
        wf_tenant_rows(rows),
        0 <= k < rows.len(),
        rows[k].id == id,
    ensures
        has_tenant(rows, id),
        tenant_index(rows, id) == k,
{
    assert(has_tenant(rows, id));
    let i = tenant_index(rows, id);
    if i < k {
        assert(rows[i].id != rows[k].id);
    } else if k < i {
        assert(rows[k].id != rows[i].id);
    }
}

/// The rows after writing a tenant: the row with the same id is replaced in
/// place, or a new row is appended.
pub open spec fn tenant_upsert(rows: Seq<TenantView>, t: TenantView) -> Seq<TenantView> {
    if has_tenant(rows, t.id) {
        rows.update(tenant_index(rows, t.id), t)
    } else {
        rows.push(t)
    }
}

/// Persistent tenant configuration, one row per tenant id. Created and
/// updated by tenant management; read-only from the dispatch path.
#[derive(Debug)]
pub struct TenantStore {
    rows: Vec<Tenant>,
}

/// The views of a sequence of tenant rows.
pub open spec fn tenant_views(rows: Seq<Tenant>) -> Seq<TenantView> {
    rows.map_values(|t: Tenant| t@)
}

impl View for TenantStore {
    type V = Seq<TenantView>;

    closed spec fn view(&self) -> Seq<TenantView> {
        tenant_views(self.rows@)
    }
}

impl TenantStore {
    #[verifier::type_invariant]
    spec fn wf(&self) -> bool {
        wf_tenant_rows(self@)
    }

    /// An empty store.
    pub fn new() -> (r: TenantStore)
        ensures
            r@ == Seq::<TenantView>::empty(),
    {
        let r = TenantStore { rows: Vec::new() };
        proof {
            assert(r@ =~= Seq::<TenantView>::empty());
        }
        r
    }

    /// The tenant configuration, or `NotFound` exactly when no row holds
    /// the id.
    pub fn get_tenant(&self, id: &str) -> (r: Result<Tenant, StoreError>)
        ensures
            has_tenant(self@, id@) ==> (r matches Ok(t) && t@ == tenant_at(self@, id@)),
            !has_tenant(self@, id@) ==> (r matches Err(e) && e matches StoreError::NotFound(
                kind,
                which,
            ) && kind@ == "tenant"@ && which@ == id@),
    {
        proof {
            use_type_invariant(&*self);
        }
        let n = self.rows.len();
        let mut i: usize = 0;
        while i < n
            invariant
                n == self.rows.len(),
                i <= n,
                wf_tenant_rows(self@),
                forall|j: int| 0 <= j < i ==> #[trigger] self@[j].id != id@,
            decreases n - i,
    {
            if crate::text::str_eq(self.rows[i].id.as_str(), id) {
                let found = self.rows[i].duplicate();
                proof {
                    lemma_tenant_index(self@, id@, i as int);
                }
                return Ok(found);
            }
            i = i + 1;
        }
        assert(!has_tenant(self@, id@));
        Err(StoreError::NotFound(String::from_str("tenant"), id.to_owned()))
    }

    /// Writes a tenant configuration: replaces the row with the same id in
    /// place, or appends a new row.
    pub fn upsert_tenant(&mut self, tenant: Tenant)
        ensures
            final(self)@ == tenant_upsert(old(self)@, tenant@),
    {
        proof {
            use_type_invariant(&*self);
        }
        let ghost rows0 = old(self)@;
        let mut rows: Vec<Tenant> = Vec::new();
        std::mem::swap(&mut rows, &mut self.rows);
        let n = rows.len();
        let mut i: usize = 0;
        while i < n
            invariant
                n == rows.len(),
                i <= n,
                rows0 == old(self)@,
                wf_tenant_rows(rows0),
                rows0 == tenant_views(rows@),
                forall|j: int| 0 <= j < i ==> #[trigger] rows0[j].id != tenant@.id,
            decreases n - i,
        {
            if crate::text::str_eq(rows[i].id.as_str(), tenant.id.as_str()) {
                let ghost tv = tenant@;
                proof {
                    lemma_tenant_index(rows0, tv.id, i as int);
                }
                rows.set(i, tenant);
                proof {
                    let rows1 = tenant_views(rows@);
                    assert(rows1 =~= rows0.update(i as int, tv));
                    assert(rows1 == tenant_upsert(rows0, tv));
                    assert(forall|p: int|
                        0 <= p < rows1.len() ==> #[trigger] rows1[p].id == rows0[p].id);
                    assert(wf_tenant_rows(rows1));
                }
                self.rows = rows;
                return;
            }
            i = i + 1;
        }
        assert(!has_tenant(rows0, tenant@.id));
        rows.push(tenant);
        proof {
            let rows1 = tenant_views(rows@);
            assert(rows1 =~= tenant_upsert(rows0, rows@[n as int]@));
            assert forall|p: int, q: int|
                0 <= p < q < rows1.len() implies #[trigger] rows1[p].id
                != #[trigger] rows1[q].id by {
                if q == rows0.len() {
                    assert(rows1[p].id == rows0[p].id);
                }
            }
            assert(wf_tenant_rows(rows1));
        }
        self.rows = rows;
    }
}

/// Informational projection of a tenant for the tenant-info endpoint.
#[derive(Debug)]
pub struct GetTenantResponse {
    pub url: String,
    pub enabled_providers: Vec<String>,
    pub apns_topic: Option<String>,
    pub apns_type: Option<ApnsType>,
    pub suspended: bool,
    pub suspended_reason: Option<String>,
}

/// Builds the tenant-info projection: the tenant's public URL, the wire
/// names of its enabled vendors, its suspension state, and the APNs topic
/// and type only when APNs is among the enabled vendors.
pub fn tenant_info(tenant: &Tenant, public_url: &str) -> (r: GetTenantResponse)
    ensures
        r.url@ == public_url@ + "/"@ + tenant.id@,
        r.enabled_providers@.len() == enabled_kinds(tenant@).len(),
        forall|i: int|
            0 <= i < r.enabled_providers@.len() ==> #[trigger] r.enabled_providers@[i]@
                == kind_name(enabled_kinds(tenant@)[i]),
        apns_enabled(tenant@) ==> opt_view(r.apns_topic) == tenant@.apns_topic
            && r.apns_type == tenant@.apns_type,
        !apns_enabled(tenant@) ==> r.apns_topic is None && r.apns_type is None,
        r.suspended == tenant@.suspended,
        opt_view(r.suspended_reason) == tenant@.suspended_reason,
{
    let url = public_url.to_owned().concat("/").concat(tenant.id.as_str());
    let kinds = tenant.providers();
    let mut names: Vec<String> = Vec::new();
    let n = kinds.len();
    let mut i: usize = 0;
    while i < n
        invariant
            n == kinds.len(),
            i <= n,
            names@.len() == i,
            kinds@ == enabled_kinds(tenant@),
            forall|j: int| 0 <= j < i ==> #[trigger] names@[j]@ == kind_name(kinds@[j]),
        decreases n - i,
    {
        names.push(String::from_str(kinds[i].as_str()));
        i = i + 1;
    }
    let apns = tenant.apns_topic.is_some() && tenant.apns_type.is_some()
        && tenant.apns_certificate.is_some();
    GetTenantResponse {
        url,
        enabled_providers: names,
        apns_topic: if apns {
            clone_opt_string(&tenant.apns_topic)
        } else {
            None
        },
        apns_type: if apns {
            tenant.apns_type
        } else {
            None
        },
        suspended: tenant.suspended,
        suspended_reason: clone_opt_string(&tenant.suspended_reason),
    }
}

} // verus!
