//! The bounded provider cache and the tenant-scoped provider resolver.

use vstd::prelude::*;

use crate::error::Error;
use crate::providers::{kind_of, Provider, ProviderKind, ProviderView};
use crate::tenants::{enabled, provider_for, Tenant};
use crate::text::str_eq;

verus! {

/// Mathematical image of one cache entry.
#[verifier::ext_equal]
pub ghost struct CacheEntryView {
    pub tenant_id: Seq<char>,
    pub kind: ProviderKind,
    pub provider: ProviderView,
}

/// One cache entry: a ready provider instance keyed by (tenant, kind).
#[derive(Debug)]
pub struct CacheEntry {
    pub tenant_id: String,
    pub provider: Provider,
}

impl View for CacheEntry {
    type V = CacheEntryView;

    open spec fn view(&self) -> CacheEntryView {
        CacheEntryView {
            tenant_id: self.tenant_id@,
            kind: kind_of(self.provider@),
            provider: self.provider@,
        }
    }
}

/// The views of a sequence of cache entries.
pub open spec fn cache_entry_views(entries: Seq<CacheEntry>) -> Seq<CacheEntryView> {
    entries.map_values(|e: CacheEntry| e@)
}

/// Two entries collide when they share the (tenant, kind) key.
pub open spec fn same_cache_key(a: CacheEntryView, b: CacheEntryView) -> bool {
    a.tenant_id == b.tenant_id && a.kind == b.kind
}

/// Keys are unique.
pub open spec fn wf_cache_entries(entries: Seq<CacheEntryView>) -> bool {
    forall|i: int, j: int|
        0 <= i < j < entries.len() ==> !#[trigger] same_cache_key(entries[i], entries[j])
}

/// The entry holds the looked-up key.
pub open spec fn is_cache_entry(e: CacheEntryView, t: Seq<char>, k: ProviderKind) -> bool {
    e.tenant_id == t && e.kind == k
}

/// Some entry holds the key.
pub open spec fn has_entry(entries: Seq<CacheEntryView>, t: Seq<char>, k: ProviderKind) -> bool {
    exists|i: int| 0 <= i < entries.len() && #[trigger] is_cache_entry(entries[i], t, k)
}

/// The index of the entry holding the key; meaningful when `has_entry`.
pub open spec fn entry_index(entries: Seq<CacheEntryView>, t: Seq<char>, k: ProviderKind) -> int {
    choose|i: int| 0 <= i < entries.len() && #[trigger] is_cache_entry(entries[i], t, k)
}

/// The provider cached under the key; meaningful when `has_entry`.
pub open spec fn entry_provider(
    entries: Seq<CacheEntryView>,
    t: Seq<char>,
    k: ProviderKind,
) -> ProviderView {
    entries[entry_index(entries, t, k)].provider
}

/// With unique keys, any entry holding the key is the entry `entry_index`
/// names.
pub proof fn lemma_entry_index(
    entries: Seq<CacheEntryView>,
    t: Seq<char>,
    k: ProviderKind,
    n: int,
)
    requires
        wf_cache_entries(entries),
        0 <= n < entries.len(),
        is_cache_entry(entries[n], t, k),
    ensures
        has_entry(entries, t, k),
        entry_index(entries, t, k) == n,
{
    assert(has_entry(entries, t, k));
    let i = entry_index(entries, t, k);
    if i < n {
        assert(!same_cache_key(entries[i], entries[n]));
    } else if n < i {
        assert(!same_cache_key(entries[n], entries[i]));
    }
}

/// The entries after an insert: an existing entry for the key is replaced
/// in place; otherwise the entry is appended, evicting the oldest entry
/// first when the cache is full. Eviction only costs a later rebuild; it is
/// never a correctness concern.
pub open spec fn cache_inserted(
    entries: Seq<CacheEntryView>,
    capacity: nat,
    t: Seq<char>,
    p: ProviderView,
) -> Seq<CacheEntryView> {
    let e = CacheEntryView { tenant_id: t, kind: kind_of(p), provider: p };
    if has_entry(entries, t, kind_of(p)) {
        entries.update(entry_index(entries, t, kind_of(p)), e)
    } else if entries.len() < capacity {
        entries.push(e)
    } else {
        entries.drop_first().push(e)
    }
}

/// A bounded cache of ready provider instances, keyed by (tenant, vendor
/// kind), with oldest-first eviction once capacity is exceeded.
#[derive(Debug)]
pub struct ProviderCache {
    entries: Vec<CacheEntry>,
    capacity: usize,
}

impl View for ProviderCache {
    type V = Seq<CacheEntryView>;

    closed spec fn view(&self) -> Seq<CacheEntryView> {
        cache_entry_views(self.entries@)
    }
}

impl ProviderCache {
    #[verifier::type_invariant]
    spec fn wf(&self) -> bool {
        wf_cache_entries(self@) && self@.len() <= self.capacity && self.capacity >= 1
    }

    /// The fixed number of entries the cache may hold.
    pub closed spec fn spec_capacity(&self) -> nat {
        self.capacity as nat
    }

    /// An empty cache holding at most `capacity` entries.
    pub fn new(capacity: usize) -> (r: ProviderCache)
        requires
            capacity >= 1,
        ensures
            r@ == Seq::<CacheEntryView>::empty(),
            r.spec_capacity() == capacity,
    {
        let r = ProviderCache { entries: Vec::new(), capacity };
        proof {
            assert(r@ =~= Seq::<CacheEntryView>::empty());
        }
        r
    }

    /// The cached provider under (tenant, kind), if any. A hit always hands
    /// back an instance of the requested kind.
    pub fn get(&self, tenant_id: &str, kind: &ProviderKind) -> (r: Option<Provider>)
        ensures
            has_entry(self@, tenant_id@, *kind) ==> (r matches Some(p) && p@ == entry_provider(
                self@,
                tenant_id@,
                *kind,
            ) && kind_of(p@) == *kind),
            !has_entry(self@, tenant_id@, *kind) ==> r is None,
    {
        proof {
            use_type_invariant(&*self);
        }
        let n = self.entries.len();
        let mut i: usize = 0;
        while i < n
            invariant
                n == self.entries.len(),
                i <= n,
                wf_cache_entries(self@),
                forall|j: int|
                    0 <= j < i ==> !is_cache_entry(#[trigger] self@[j], tenant_id@, *kind),
            decreases n - i,
        {
            if str_eq(self.entries[i].tenant_id.as_str(), tenant_id)
                && self.entries[i].provider.kind() == *kind {
                let found = self.entries[i].provider.duplicate();
                proof {
                    lemma_entry_index(self@, tenant_id@, *kind, i as int);
                }
                return Some(found);
            }
            i = i + 1;
        }
        assert(!has_entry(self@, tenant_id@, *kind));
        None
    }

    /// Caches a provider instance under (tenant, its kind), replacing any
    /// entry for that key and otherwise evicting the oldest entry once the
    /// cache is full.
    pub fn insert(&mut self, tenant_id: &str, provider: Provider)
        ensures
            final(self)@ == cache_inserted(
                old(self)@,
                old(self).spec_capacity(),
                tenant_id@,
                provider@,
            ),
            final(self).spec_capacity() == old(self).spec_capacity(),
    {
        proof {
            use_type_invariant(&*self);
        }
        let ghost entries0 = old(self)@;
        let ghost pv = provider@;
        let kind = provider.kind();
        let mut entries: Vec<CacheEntry> = Vec::new();
        std::mem::swap(&mut entries, &mut self.entries);
        let n = entries.len();
        let mut i: usize = 0;
        while i < n
            invariant
                n == entries.len(),
                i <= n,
                entries0 == old(self)@,
                pv == provider@,
                kind == kind_of(pv),
                wf_cache_entries(entries0),
                entries0 == cache_entry_views(entries@),
                self.capacity == old(self).spec_capacity(),
                self.entries@.len() == 0,
                entries0.len() <= old(self).spec_capacity(),
                old(self).spec_capacity() >= 1,
                forall|j: int|
                    0 <= j < i ==> !is_cache_entry(#[trigger] entries0[j], tenant_id@, kind),
            decreases n - i,
        {
            if str_eq(entries[i].tenant_id.as_str(), tenant_id) && entries[i].provider.kind()
                == kind {
                proof {
                    lemma_entry_index(entries0, tenant_id@, kind, i as int);
                }
                entries.set(i, CacheEntry { tenant_id: tenant_id.to_owned(), provider });
                proof {
                    let entries1 = cache_entry_views(entries@);
                    assert(entries1 =~= cache_inserted(
                        entries0,
                        old(self).spec_capacity(),
                        tenant_id@,
                        pv,
                    ));
                    assert forall|p: int, q: int|
                        0 <= p < q < entries1.len() implies !#[trigger] same_cache_key(
                        entries1[p],
                        entries1[q],
                    ) by {
                        assert(!same_cache_key(entries0[p], entries0[q]));
                        assert(same_cache_key(entries1[p], entries0[p]));
                        assert(same_cache_key(entries1[q], entries0[q]));
                    }
                    assert(wf_cache_entries(entries1));
                }
                self.entries = entries;
                return;
            }
            i = i + 1;
        }
        assert(!has_entry(entries0, tenant_id@, kind));
        if entries.len() == self.capacity {
            entries.remove(0);
        }
        entries.push(CacheEntry { tenant_id: tenant_id.to_owned(), provider });
        proof {
            let entries1 = cache_entry_views(entries@);
            assert(entries1 =~= cache_inserted(
                entries0,
                old(self).spec_capacity(),
                tenant_id@,
                pv,
            ));
            let shift: int = if entries0.len() < old(self).spec_capacity() {
                0
            } else {
                1
            };
            assert forall|p: int, q: int|
                0 <= p < q < entries1.len() implies !#[trigger] same_cache_key(
                entries1[p],
                entries1[q],
            ) by {
                if q < entries1.len() - 1 {
                    assert(entries1[p] == entries0[p + shift]);
                    assert(entries1[q] == entries0[q + shift]);
                    assert(!same_cache_key(entries0[p + shift], entries0[q + shift]));
                } else {
                    assert(entries1[p] == entries0[p + shift]);
                    assert(!is_cache_entry(entries0[p + shift], tenant_id@, kind));
                }
            }
            assert(wf_cache_entries(entries1));
        }
        self.entries = entries;
    }
}

/// Resolves (tenant, vendor kind) to a ready provider instance: a cache hit
/// is handed back as is; a miss constructs the instance from the tenant's
/// credentials and caches it. Fails with `ProviderNotFound` exactly when
/// nothing is cached and the kind is not enabled for the tenant. Either
/// way, the instance is of the requested kind.
pub fn resolve(cache: &mut ProviderCache, tenant: &Tenant, kind: &ProviderKind) -> (r: Result<
    Provider,
    Error,
>)
    ensures
        r matches Ok(p) ==> kind_of(p@) == *kind,
        has_entry(old(cache)@, tenant.id@, *kind) ==> (r matches Ok(p) && p@ == entry_provider(
            old(cache)@,
            tenant.id@,
            *kind,
        ) && final(cache)@ == old(cache)@),
        !has_entry(old(cache)@, tenant.id@, *kind) && enabled(tenant@, *kind) ==> (r matches Ok(p)
            && p@ == provider_for(tenant@, *kind) && final(cache)@ == cache_inserted(
            old(cache)@,
            old(cache).spec_capacity(),
            tenant.id@,
            provider_for(tenant@, *kind),
        )),
        !has_entry(old(cache)@, tenant.id@, *kind) && !enabled(tenant@, *kind) ==> (r matches Err(
            e,
        ) && e matches Error::ProviderNotFound && final(cache)@ == old(cache)@),
        final(cache).spec_capacity() == old(cache).spec_capacity(),
{
    if let Some(hit) = cache.get(tenant.id.as_str(), kind) {
        return Ok(hit);
    }
    match tenant.provider(kind) {
        Ok(built) => {
            let out = built.duplicate();
            cache.insert(tenant.id.as_str(), built);
            Ok(out)
        },
        Err(e) => Err(e),
    }
}

} // verus!
