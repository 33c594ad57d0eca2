//! The client registry: persistent mapping of client identity to tenant,
//! vendor kind and device token, with the identity-merge upsert.

use vstd::prelude::*;

use crate::error::StoreError;
use crate::notifications::{cascade_deleted, NotificationStore};
use crate::providers::ProviderKind;
use crate::text::str_eq;

verus! {

/// Mathematical image of a [`Client`].
#[verifier::ext_equal]
pub ghost struct ClientView {
    pub tenant_id: Seq<char>,
    pub push_type: ProviderKind,
    pub token: Seq<char>,
    pub always_raw: bool,
}

/// A registered client: the tenant that owns it, the vendor it is routed
/// to, its device token, and the "always raw" delivery flag.
#[derive(Debug)]
pub struct Client {
    pub tenant_id: String,
    pub push_type: ProviderKind,
    pub token: String,
    pub always_raw: bool,
}

impl View for Client {
    type V = ClientView;

    open spec fn view(&self) -> ClientView {
        ClientView {
            tenant_id: self.tenant_id@,
            push_type: self.push_type,
            token: self.token@,
            always_raw: self.always_raw,
        }
    }
}

impl Client {
    /// A copy of this client with the same attributes.
    pub fn duplicate(&self) -> (r: Client)
        ensures
            r@ == self@,
    {
        Client {
            tenant_id: self.tenant_id.clone(),
            push_type: self.push_type,
            token: self.token.clone(),
            always_raw: self.always_raw,
        }
    }
}

/// Mathematical image of one registry row: the client id and its
/// attributes.
#[verifier::ext_equal]
pub ghost struct ClientRecordView {
    pub id: Seq<char>,
    pub client: ClientView,
}

/// One registry row.
#[derive(Debug)]
pub struct ClientRecord {
    pub id: String,
    pub client: Client,
}

impl View for ClientRecord {
    type V = ClientRecordView;

    open spec fn view(&self) -> ClientRecordView {
        ClientRecordView { id: self.id@, client: self.client@ }
    }
}

/// The views of a sequence of registry rows.
pub open spec fn client_record_views(rows: Seq<ClientRecord>) -> Seq<ClientRecordView> {
    rows.map_values(|r: ClientRecord| r@)
}

/// Two rows collide when, within one tenant, they share a client id or a
/// device token: the registry never stores such duplicates.
pub open spec fn colliding_rows(a: ClientRecordView, b: ClientRecordView) -> bool {
    a.client.tenant_id == b.client.tenant_id && (a.id == b.id || a.client.token == b.client.token)
}

/// Within a tenant, a client id and a device token each identify at most
/// one row: the identity-merge invariant.
pub open spec fn wf_client_rows(rows: Seq<ClientRecordView>) -> bool {
    forall|i: int, j: int|
        0 <= i < j < rows.len() ==> !#[trigger] colliding_rows(rows[i], rows[j])
}

/// The row registers this client id in this tenant.
pub open spec fn is_client_row(r: ClientRecordView, t: Seq<char>, id: Seq<char>) -> bool {
    r.client.tenant_id == t && r.id == id
}

/// The row registers this device token in this tenant.
pub open spec fn is_token_row(r: ClientRecordView, t: Seq<char>, token: Seq<char>) -> bool {
    r.client.tenant_id == t && r.client.token == token
}

/// Some row registers the client id in the tenant.
pub open spec fn has_client(rows: Seq<ClientRecordView>, t: Seq<char>, id: Seq<char>) -> bool {
    exists|i: int| 0 <= i < rows.len() && #[trigger] is_client_row(rows[i], t, id)
}

/// The index of the row registering the client id; meaningful when
/// `has_client`.
pub open spec fn client_index(rows: Seq<ClientRecordView>, t: Seq<char>, id: Seq<char>) -> int {
    choose|i: int| 0 <= i < rows.len() && #[trigger] is_client_row(rows[i], t, id)
}

/// The attributes registered under the client id; meaningful when
/// `has_client`.
pub open spec fn client_at(rows: Seq<ClientRecordView>, t: Seq<char>, id: Seq<char>) -> ClientView {
    rows[client_index(rows, t, id)].client
}

/// Some row registers the device token in the tenant.
pub open spec fn has_token(rows: Seq<ClientRecordView>, t: Seq<char>, token: Seq<char>) -> bool {
    exists|i: int| 0 <= i < rows.len() && #[trigger] is_token_row(rows[i], t, token)
}

/// The index of the row registering the device token; meaningful when
/// `has_token`.
pub open spec fn token_index(rows: Seq<ClientRecordView>, t: Seq<char>, token: Seq<char>) -> int {
    choose|i: int| 0 <= i < rows.len() && #[trigger] is_token_row(rows[i], t, token)
}

/// With the identity-merge invariant, any row registering the id is the row
/// `client_index` names.
pub proof fn lemma_client_index(rows: Seq<ClientRecordView>, t: Seq<char>, id: Seq<char>, k: int)
    requires
        wf_client_rows(rows),
        0 <= k < rows.len(),
        is_client_row(rows[k], t, id),
    ensures
        has_client(rows, t, id),
        client_index(rows, t, id) == k,
{
    assert(has_client(rows, t, id));
    let i = client_index(rows, t, id);
    if i < k {
        assert(!colliding_rows(rows[i], rows[k]));
    } else if k < i {
        assert(!colliding_rows(rows[k], rows[i]));
    }
}

/// With the identity-merge invariant, any row registering the token is the
/// row `token_index` names.
pub proof fn lemma_token_index(rows: Seq<ClientRecordView>, t: Seq<char>, token: Seq<char>, k: int)
    requires
        wf_client_rows(rows),
        0 <= k < rows.len(),
        is_token_row(rows[k], t, token),
    ensures
        has_token(rows, t, token),
        token_index(rows, t, token) == k,
{
    assert(has_token(rows, t, token));
    let i = token_index(rows, t, token);
    if i < k {
        assert(!colliding_rows(rows[i], rows[k]));
    } else if k < i {
        assert(!colliding_rows(rows[k], rows[i]));
    }
}

/// The attributes a registration stores: the submitted client scoped to the
/// target tenant.
pub open spec fn stored_client(t: Seq<char>, c: ClientView) -> ClientView {
    ClientView { tenant_id: t, push_type: c.push_type, token: c.token, always_raw: c.always_raw }
}

/// A registration conflicts when, within the tenant, one row already
/// registers the client id and a different row already registers the device
/// token: collapsing them onto one row would discard an unrelated
/// registration, so the write is refused.
pub open spec fn upsert_conflict(
    rows: Seq<ClientRecordView>,
    t: Seq<char>,
    id: Seq<char>,
    c: ClientView,
) -> bool {
    has_client(rows, t, id) && has_token(rows, t, c.token) && client_index(rows, t, id)
        != token_index(rows, t, c.token)
}

/// The rows after a conflict-free registration, following the
/// identity-merge algorithm: a fresh insert when neither the id nor the
/// token is registered; a token rotation (the id's row is rewritten in
/// place) when only the id is registered; an id rotation (the token's row
/// is rewritten in place) when only the token is registered; and a no-op
/// when one row already registers both.
pub open spec fn client_upsert(
    rows: Seq<ClientRecordView>,
    t: Seq<char>,
    id: Seq<char>,
    c: ClientView,
) -> Seq<ClientRecordView> {
    let rec = ClientRecordView { id: id, client: stored_client(t, c) };
    if has_client(rows, t, id) {
        if has_token(rows, t, c.token) {
            rows
        } else {
            rows.update(client_index(rows, t, id), rec)
        }
    } else if has_token(rows, t, c.token) {
        rows.update(token_index(rows, t, c.token), rec)
    } else {
        rows.push(rec)
    }
}

/// The rows after a deregistration: the row registering the id is removed;
/// absent rows leave the registry unchanged.
pub open spec fn client_deleted(
    rows: Seq<ClientRecordView>,
    t: Seq<char>,
    id: Seq<char>,
) -> Seq<ClientRecordView> {
    if has_client(rows, t, id) {
        rows.remove(client_index(rows, t, id))
    } else {
        rows
    }
}

/// Persistent client registrations, at most one row per (tenant, id) and
/// per (tenant, token).
#[derive(Debug)]
pub struct ClientStore {
    rows: Vec<ClientRecord>,
}

impl View for ClientStore {
    type V = Seq<ClientRecordView>;

    closed spec fn view(&self) -> Seq<ClientRecordView> {
        client_record_views(self.rows@)
    }
}

impl ClientStore {
    #[verifier::type_invariant]
    spec fn wf(&self) -> bool {
        wf_client_rows(self@)
    }

    /// An empty registry.
    pub fn new() -> (r: ClientStore)
        ensures
            r@ == Seq::<ClientRecordView>::empty(),
    {
        let r = ClientStore { rows: Vec::new() };
        proof {
            assert(r@ =~= Seq::<ClientRecordView>::empty());
        }
        r
    }

    /// Registers a client under the identity-merge algorithm, executed as
    /// one atomic lookup-and-write. A conflicting registration (see
    /// [`upsert_conflict`]) is refused as a `Backend` constraint violation
    /// and changes nothing.
    pub fn create_client(&mut self, tenant_id: &str, id: &str, client: Client) -> (r: Result<
        (),
        StoreError,
    >)
        ensures
            upsert_conflict(old(self)@, tenant_id@, id@, client@) ==> (r matches Err(e) && e
                matches StoreError::Backend && final(self)@ == old(self)@),
            !upsert_conflict(old(self)@, tenant_id@, id@, client@) ==> (r matches Ok(u)
                && final(self)@ == client_upsert(old(self)@, tenant_id@, id@, client@)),
    {
        proof {
            use_type_invariant(&*self);
        }
        let ghost rows0 = old(self)@;
        let ghost cv = client@;
        let mut rows: Vec<ClientRecord> = Vec::new();
        std::mem::swap(&mut rows, &mut self.rows);
        let n = rows.len();
        let mut id_ix: Option<usize> = None;
        let mut tok_ix: Option<usize> = None;
        let mut i: usize = 0;
        while i < n
            invariant
                n == rows.len(),
                i <= n,
                rows0 == old(self)@,
                cv == client@,
                wf_client_rows(rows0),
                rows0 == client_record_views(rows@),
                match id_ix {
                    Some(k) => k < i && is_client_row(rows0[k as int], tenant_id@, id@),
                    None => forall|j: int|
                        0 <= j < i ==> !is_client_row(#[trigger] rows0[j], tenant_id@, id@),
                },
                match tok_ix {
                    Some(k) => k < i && is_token_row(rows0[k as int], tenant_id@, cv.token),
                    None => forall|j: int|
                        0 <= j < i ==> !is_token_row(#[trigger] rows0[j], tenant_id@, cv.token),
                },
            decreases n - i,
        {
            if str_eq(rows[i].client.tenant_id.as_str(), tenant_id) {
                if id_ix.is_none() && str_eq(rows[i].id.as_str(), id) {
                    id_ix = Some(i);
                }
                if tok_ix.is_none() && str_eq(rows[i].client.token.as_str(), client.token.as_str())
                {
                    tok_ix = Some(i);
                }
            }
            i = i + 1;
        }
        proof {
            if let Some(k) = id_ix {
                lemma_client_index(rows0, tenant_id@, id@, k as int);
            } else {
                assert(!has_client(rows0, tenant_id@, id@));
            }
            if let Some(k) = tok_ix {
                lemma_token_index(rows0, tenant_id@, cv.token, k as int);
            } else {
                assert(!has_token(rows0, tenant_id@, cv.token));
            }
        }
        match (id_ix, tok_ix) {
            (None, None) => {
                let rec = ClientRecord {
                    id: id.to_owned(),
                    client: Client {
                        tenant_id: tenant_id.to_owned(),
                        push_type: client.push_type,
                        token: client.token,
                        always_raw: client.always_raw,
                    },
                };
                proof {
                    assert(rec@ == ClientRecordView { id: id@, client: stored_client(tenant_id@, cv) });
                }
                rows.push(rec);
                proof {
                    let rows1 = client_record_views(rows@);
                    assert(rows1 =~= client_upsert(rows0, tenant_id@, id@, cv));
                    assert forall|p: int, q: int|
                        0 <= p < q < rows1.len() implies !#[trigger] colliding_rows(
                        rows1[p],
                        rows1[q],
                    ) by {
                        if q < rows0.len() {
                            assert(!colliding_rows(rows0[p], rows0[q]));
                        } else {
                            assert(rows1[p] == rows0[p]);
                            assert(!is_client_row(rows0[p], tenant_id@, id@));
                            assert(!is_token_row(rows0[p], tenant_id@, cv.token));
                        }
                    }
                    assert(wf_client_rows(rows1));
                }
                self.rows = rows;
                Ok(())
            },
            (Some(k), None) => {
                // Token rotation: the device re-registered its logical
                // identity under a new token.
                let rec = ClientRecord {
                    id: id.to_owned(),
                    client: Client {
                        tenant_id: tenant_id.to_owned(),
                        push_type: client.push_type,
                        token: client.token,
                        always_raw: client.always_raw,
                    },
                };
                rows.set(k, rec);
                proof {
                    let rows1 = client_record_views(rows@);
                    assert(rows1 =~= client_upsert(rows0, tenant_id@, id@, cv));
                    assert forall|p: int, q: int|
                        0 <= p < q < rows1.len() implies !#[trigger] colliding_rows(
                        rows1[p],
                        rows1[q],
                    ) by {
                        assert(!colliding_rows(rows0[p], rows0[q]));
                        if p == k {
                            assert(rows1[q] == rows0[q]);
                            assert(!is_client_row(rows0[q], tenant_id@, id@));
                            assert(!is_token_row(rows0[q], tenant_id@, cv.token));
                        } else if q == k {
                            assert(rows1[p] == rows0[p]);
                            assert(!is_client_row(rows0[p], tenant_id@, id@));
                            assert(!is_token_row(rows0[p], tenant_id@, cv.token));
                        }
                    }
                    assert(wf_client_rows(rows1));
                }
                self.rows = rows;
                Ok(())
            },
            (None, Some(m)) => {
                // Id rotation: the same physical device re-identified under
                // a new logical client id.
                let rec = ClientRecord {
                    id: id.to_owned(),
                    client: Client {
                        tenant_id: tenant_id.to_owned(),
                        push_type: client.push_type,
                        token: client.token,
                        always_raw: client.always_raw,
                    },
                };
                rows.set(m, rec);
                proof {
                    let rows1 = client_record_views(rows@);
                    assert(rows1 =~= client_upsert(rows0, tenant_id@, id@, cv));
                    assert forall|p: int, q: int|
                        0 <= p < q < rows1.len() implies !#[trigger] colliding_rows(
                        rows1[p],
                        rows1[q],
                    ) by {
                        assert(!colliding_rows(rows0[p], rows0[q]));
                        if p == m {
                            assert(rows1[q] == rows0[q]);
                            assert(!is_client_row(rows0[q], tenant_id@, id@));
                            assert(!is_token_row(rows0[q], tenant_id@, cv.token));
                        } else if q == m {
                            assert(rows1[p] == rows0[p]);
                            assert(!is_client_row(rows0[p], tenant_id@, id@));
                            assert(!is_token_row(rows0[p], tenant_id@, cv.token));
                        }
                    }
                    assert(wf_client_rows(rows1));
                }
                self.rows = rows;
                Ok(())
            },
            (Some(k), Some(m)) => {
                if k == m {
                    // Exact match on both id and token: no-op.
                    self.rows = rows;
                    Ok(())
                } else {
                    self.rows = rows;
                    Err(StoreError::Backend)
                }
            },
        }
    }

    /// The registration under (tenant, id), or `NotFound` exactly when the
    /// id is not registered there.
    pub fn get_client(&self, tenant_id: &str, id: &str) -> (r: Result<Client, StoreError>)
        ensures
            has_client(self@, tenant_id@, id@) ==> (r matches Ok(c) && c@ == client_at(
                self@,
                tenant_id@,
                id@,
            )),
            !has_client(self@, tenant_id@, id@) ==> (r matches Err(e) && e
                matches StoreError::NotFound(kind, which) && kind@ == "client"@ && which@ == id@),
    {
        proof {
            use_type_invariant(&*self);
        }
        let n = self.rows.len();
        let mut i: usize = 0;
        while i < n
            invariant
                n == self.rows.len(),
                i <= n,
                wf_client_rows(self@),
                forall|j: int| 0 <= j < i ==> !is_client_row(#[trigger] self@[j], tenant_id@, id@),
            decreases n - i,
        {
            if str_eq(self.rows[i].client.tenant_id.as_str(), tenant_id) && str_eq(
                self.rows[i].id.as_str(),
                id,
            ) {
                let found = self.rows[i].client.duplicate();
                proof {
                    lemma_client_index(self@, tenant_id@, id@, i as int);
                }
                return Ok(found);
            }
            i = i + 1;
        }
        assert(!has_client(self@, tenant_id@, id@));
        Err(StoreError::NotFound(String::from_str("client"), id.to_owned()))
    }

    /// Deregisters a client: removes its registry row and cascades deletion
    /// of all its notification history in the tenant. Idempotent: an absent
    /// registration is reported as success and changes nothing.
    pub fn delete_client(
        &mut self,
        notifications: &mut NotificationStore,
        tenant_id: &str,
        id: &str,
    ) -> (r: Result<(), StoreError>)
        ensures
            r matches Ok(u),
            final(self)@ == client_deleted(old(self)@, tenant_id@, id@),
            final(notifications)@ == cascade_deleted(old(notifications)@, tenant_id@, id@),
    {
        proof {
            use_type_invariant(&*self);
        }
        notifications.delete_for_client(tenant_id, id);
        let ghost rows0 = old(self)@;
        let mut rows: Vec<ClientRecord> = Vec::new();
        std::mem::swap(&mut rows, &mut self.rows);
        let n = rows.len();
        let mut i: usize = 0;
        while i < n
            invariant
                n == rows.len(),
                i <= n,
                rows0 == old(self)@,
                wf_client_rows(rows0),
                rows0 == client_record_views(rows@),
                notifications@ == cascade_deleted(old(notifications)@, tenant_id@, id@),
                forall|j: int| 0 <= j < i ==> !is_client_row(#[trigger] rows0[j], tenant_id@, id@),
            decreases n - i,
        {
            if str_eq(rows[i].client.tenant_id.as_str(), tenant_id) && str_eq(
                rows[i].id.as_str(),
                id,
            ) {
                proof {
                    lemma_client_index(rows0, tenant_id@, id@, i as int);
                }
                rows.remove(i);
                proof {
                    let rows1 = client_record_views(rows@);
                    assert(rows1 =~= client_deleted(rows0, tenant_id@, id@));
                    assert forall|p: int, q: int|
                        0 <= p < q < rows1.len() implies !#[trigger] colliding_rows(
                        rows1[p],
                        rows1[q],
                    ) by {
                        let p0: int = if p < i { p } else { p + 1 };
                        let q0: int = if q < i { q } else { q + 1 };
                        assert(rows1[p] == rows0[p0]);
                        assert(rows1[q] == rows0[q0]);
                        assert(!colliding_rows(rows0[p0], rows0[q0]));
                    }
                    assert(wf_client_rows(rows1));
                }
                self.rows = rows;
                return Ok(());
            }
            i = i + 1;
        }
        assert(!has_client(rows0, tenant_id@, id@));
        self.rows = rows;
        Ok(())
    }
}

} // verus!
