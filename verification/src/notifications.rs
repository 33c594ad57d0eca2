//! Persistent, idempotent record of notifications keyed by
//! (tenant id, notification id), holding the history of received payloads.

use vstd::prelude::*;

use crate::error::StoreError;
use crate::payload::{MessagePayload, MessagePayloadView};
use crate::text::str_eq;

verus! {

/// The views of a sequence of payloads.
pub open spec fn payload_views(ps: Seq<MessagePayload>) -> Seq<MessagePayloadView> {
    ps.map_values(|p: MessagePayload| p@)
}

/// A copy of a payload with the same contents.
pub fn clone_payload(p: &MessagePayload) -> (r: MessagePayload)
    ensures
        r@ == p@,
{
    MessagePayload {
        topic: match &p.topic {
            Some(t) => Some(t.clone()),
            None => None,
        },
        flags: p.flags,
        blob: p.blob.clone(),
    }
}

/// A copy of a payload history with the same contents.
pub fn clone_payloads(ps: &Vec<MessagePayload>) -> (r: Vec<MessagePayload>)
    ensures
        payload_views(r@) == payload_views(ps@),
{
    let mut r: Vec<MessagePayload> = Vec::new();
    let n = ps.len();
    let mut i: usize = 0;
    while i < n
        invariant
            n == ps.len(),
            i <= n,
            r@.len() == i,
            forall|j: int| 0 <= j < i ==> #[trigger] r@[j]@ == ps@[j]@,
        decreases n - i,
    {
        r.push(clone_payload(&ps[i]));
        i = i + 1;
    }
    proof {
        assert(payload_views(r@) =~= payload_views(ps@));
    }
    r
}

/// Mathematical image of a [`Notification`].
#[verifier::ext_equal]
pub ghost struct NotificationView {
    pub id: Seq<char>,
    pub tenant_id: Seq<char>,
    pub client_id: Seq<char>,
    pub previous_payloads: Seq<MessagePayloadView>,
}

/// One logical notification: its id (unique within the tenant), the client
/// it addresses, and the append-only history of payload submissions.
#[derive(Debug)]
pub struct Notification {
    pub id: String,
    pub tenant_id: String,
    pub client_id: String,
    pub previous_payloads: Vec<MessagePayload>,
}

impl View for Notification {
    type V = NotificationView;

    open spec fn view(&self) -> NotificationView {
        NotificationView {
            id: self.id@,
            tenant_id: self.tenant_id@,
            client_id: self.client_id@,
            previous_payloads: payload_views(self.previous_payloads@),
        }
    }
}

impl Notification {
    /// A copy of this record with the same contents.
    pub fn duplicate(&self) -> (r: Notification)
        ensures
            r@ == self@,
    {
        Notification {
            id: self.id.clone(),
            tenant_id: self.tenant_id.clone(),
            client_id: self.client_id.clone(),
            previous_payloads: clone_payloads(&self.previous_payloads),
        }
    }
}

/// The views of a sequence of notification rows.
pub open spec fn notification_views(rows: Seq<Notification>) -> Seq<NotificationView> {
    rows.map_values(|n: Notification| n@)
}

/// Two rows collide when they share the composite key (tenant id, id).
pub open spec fn same_notification_key(a: NotificationView, b: NotificationView) -> bool {
    a.tenant_id == b.tenant_id && a.id == b.id
}

/// Row keys are unique and every row holds at least one payload.
pub open spec fn wf_notification_rows(rows: Seq<NotificationView>) -> bool {
    &&& forall|i: int, j: int|
        0 <= i < j < rows.len() ==> !#[trigger] same_notification_key(rows[i], rows[j])
    &&& forall|i: int| 0 <= i < rows.len() ==> #[trigger] rows[i].previous_payloads.len() >= 1
}

/// The row holds the looked-up key.
pub open spec fn is_notification_row(r: NotificationView, t: Seq<char>, nid: Seq<char>) -> bool {
    r.tenant_id == t && r.id == nid
}

/// Some row holds the key.
pub open spec fn has_notification(rows: Seq<NotificationView>, t: Seq<char>, nid: Seq<char>) -> bool {
    exists|i: int| 0 <= i < rows.len() && #[trigger] is_notification_row(rows[i], t, nid)
}

/// The index of the row holding the key; meaningful when `has_notification`.
pub open spec fn notification_index(rows: Seq<NotificationView>, t: Seq<char>, nid: Seq<char>) -> int {
    choose|i: int| 0 <= i < rows.len() && #[trigger] is_notification_row(rows[i], t, nid)
}

/// The row holding the key; meaningful when `has_notification`.
pub open spec fn notification_at(rows: Seq<NotificationView>, t: Seq<char>, nid: Seq<char>) -> NotificationView {
    rows[notification_index(rows, t, nid)]
}

/// With unique keys, any row holding the key is the row
/// `notification_index` names.
pub proof fn lemma_notification_index(
    rows: Seq<NotificationView>,
    t: Seq<char>,
    nid: Seq<char>,
    k: int,
)
    requires
        wf_notification_rows(rows),
        0 <= k < rows.len(),
        is_notification_row(rows[k], t, nid),
    ensures
        has_notification(rows, t, nid),
        notification_index(rows, t, nid) == k,
{
    assert(has_notification(rows, t, nid));
    let i = notification_index(rows, t, nid);
    if i < k {
        assert(!same_notification_key(rows[i], rows[k]));
    } else if k < i {
        assert(!same_notification_key(rows[k], rows[i]));
    }
}

/// The row that recording a submission leaves under the key: the existing
/// row with the payload appended to its history, or a fresh row whose
/// history holds exactly the payload.
pub open spec fn recorded_row(
    rows: Seq<NotificationView>,
    t: Seq<char>,
    nid: Seq<char>,
    cid: Seq<char>,
    p: MessagePayloadView,
) -> NotificationView {
    if has_notification(rows, t, nid) {
        let old_row = notification_at(rows, t, nid);
        NotificationView { previous_payloads: old_row.previous_payloads.push(p), ..old_row }
    } else {
        NotificationView { id: nid, tenant_id: t, client_id: cid, previous_payloads: seq![p] }
    }
}

/// The rows after atomically recording a submission: an append to the
/// existing row's history, or a fresh appended row.
pub open spec fn record_notification(
    rows: Seq<NotificationView>,
    t: Seq<char>,
    nid: Seq<char>,
    cid: Seq<char>,
    p: MessagePayloadView,
) -> Seq<NotificationView> {
    if has_notification(rows, t, nid) {
        rows.update(notification_index(rows, t, nid), recorded_row(rows, t, nid, cid, p))
    } else {
        rows.push(recorded_row(rows, t, nid, cid, p))
    }
}

/// A row survives the deregistration cascade for (tenant, client) exactly
/// when it does not belong to that client in that tenant.
pub open spec fn survives_cascade(n: NotificationView, t: Seq<char>, cid: Seq<char>) -> bool {
    !(n.tenant_id == t && n.client_id == cid)
}

/// The rows after the deregistration cascade for (tenant, client).
pub open spec fn cascade_deleted(
    rows: Seq<NotificationView>,
    t: Seq<char>,
    cid: Seq<char>,
) -> Seq<NotificationView> {
    rows.filter(|n: NotificationView| survives_cascade(n, t, cid))
}

/// The cascade keeps well-formedness, and every kept row is one of the
/// original rows.
proof fn lemma_cascade_keeps_wf(rows: Seq<NotificationView>, t: Seq<char>, cid: Seq<char>)
    requires
        wf_notification_rows(rows),
    ensures
        wf_notification_rows(cascade_deleted(rows, t, cid)),
        forall|p: int|
            0 <= p < cascade_deleted(rows, t, cid).len() ==> exists|j: int|
                0 <= j < rows.len() && #[trigger] cascade_deleted(rows, t, cid)[p] == rows[j],
    decreases rows.len(),
{
    reveal(Seq::filter);
    if rows.len() > 0 {
        let prefix = rows.drop_last();
        assert(wf_notification_rows(prefix)) by {
            assert(forall|i: int|
                0 <= i < prefix.len() ==> prefix[i] == rows[i]);
        }
        lemma_cascade_keeps_wf(prefix, t, cid);
        let fp = cascade_deleted(prefix, t, cid);
        let out = cascade_deleted(rows, t, cid);
        let last = rows.last();
        if survives_cascade(last, t, cid) {
            assert(out == fp.push(last));
            assert forall|p: int, q: int|
                0 <= p < q < out.len() implies !#[trigger] same_notification_key(
                out[p],
                out[q],
            ) by {
                if q == fp.len() {
                    let j = choose|j: int| 0 <= j < prefix.len() && fp[p] == prefix[j];
                    assert(!same_notification_key(rows[j], rows[rows.len() - 1]));
                }
            }
            assert forall|p: int|
                0 <= p < out.len() implies exists|j: int|
                0 <= j < rows.len() && #[trigger] out[p] == rows[j] by {
                if p == fp.len() {
                    assert(out[p] == rows[rows.len() - 1]);
                } else {
                    let j = choose|j: int| 0 <= j < prefix.len() && fp[p] == prefix[j];
                    assert(out[p] == rows[j]);
                }
            }
        } else {
            assert(out == fp);
            assert forall|p: int|
                0 <= p < out.len() implies exists|j: int|
                0 <= j < rows.len() && #[trigger] out[p] == rows[j] by {
                let j = choose|j: int| 0 <= j < prefix.len() && fp[p] == prefix[j];
                assert(out[p] == rows[j]);
            }
        }
    }
}

/// No row of the cascade's result still belongs to the deregistered
/// (tenant, client) pair.
pub proof fn lemma_cascade_removes(rows: Seq<NotificationView>, t: Seq<char>, cid: Seq<char>)
    ensures
        forall|p: int|
            0 <= p < cascade_deleted(rows, t, cid).len() ==> survives_cascade(
                #[trigger] cascade_deleted(rows, t, cid)[p],
                t,
                cid,
            ),
    decreases rows.len(),
{
    reveal(Seq::filter);
    if rows.len() > 0 {
        let prefix = rows.drop_last();
        lemma_cascade_removes(prefix, t, cid);
        let fp = cascade_deleted(prefix, t, cid);
        let out = cascade_deleted(rows, t, cid);
        if survives_cascade(rows.last(), t, cid) {
            assert(out == fp.push(rows.last()));
            assert(forall|p: int| 0 <= p < fp.len() ==> out[p] == fp[p]);
        } else {
            assert(out == fp);
        }
    }
}

/// Persistent notification records, one row per (tenant id, id) key.
#[derive(Debug)]
pub struct NotificationStore {
    rows: Vec<Notification>,
}

impl View for NotificationStore {
    type V = Seq<NotificationView>;

    closed spec fn view(&self) -> Seq<NotificationView> {
        notification_views(self.rows@)
    }
}

impl NotificationStore {
    #[verifier::type_invariant]
    spec fn wf(&self) -> bool {
        wf_notification_rows(self@)
    }

    /// An empty store.
    pub fn new() -> (r: NotificationStore)
        ensures
            r@ == Seq::<NotificationView>::empty(),
    {
        let r = NotificationStore { rows: Vec::new() };
        proof {
            assert(r@ =~= Seq::<NotificationView>::empty());
        }
        r
    }

    /// The record under (tenant, id), or `NotFound` exactly when the key
    /// holds no record. Presence is the first dedup signal: a present key
    /// means the request is a redelivery.
    pub fn get_notification(&self, id: &str, tenant_id: &str) -> (r: Result<
        Notification,
        StoreError,
    >)
        ensures
            has_notification(self@, tenant_id@, id@) ==> (r matches Ok(n) && n@
                == notification_at(self@, tenant_id@, id@)),
            !has_notification(self@, tenant_id@, id@) ==> (r matches Err(e) && e
                matches StoreError::NotFound(kind, which) && kind@ == "notification"@ && which@
                == id@),
    {
        proof {
            use_type_invariant(&*self);
        }
        let n = self.rows.len();
        let mut i: usize = 0;
        while i < n
            invariant
                n == self.rows.len(),
                i <= n,
                wf_notification_rows(self@),
                forall|j: int|
                    0 <= j < i ==> !is_notification_row(#[trigger] self@[j], tenant_id@, id@),
            decreases n - i,
        {
            if str_eq(self.rows[i].id.as_str(), id) && str_eq(
                self.rows[i].tenant_id.as_str(),
                tenant_id,
            ) {
                let found = self.rows[i].duplicate();
                proof {
                    lemma_notification_index(self@, tenant_id@, id@, i as int);
                }
                return Ok(found);
            }
            i = i + 1;
        }
        assert(!has_notification(self@, tenant_id@, id@));
        Err(StoreError::NotFound(String::from_str("notification"), id.to_owned()))
    }

    /// Atomically records a submission: inserts a fresh record on first
    /// sight of the key, or appends the payload to the existing record's
    /// history, and returns the resulting record. The returned history has
    /// length 1 exactly when this was the first sight, so the caller can
    /// decide dispatch-versus-duplicate from the same atomic step.
    pub fn create_or_update_notification(
        &mut self,
        id: &str,
        tenant_id: &str,
        client_id: &str,
        payload: &MessagePayload,
    ) -> (r: Result<Notification, StoreError>)
        ensures
            final(self)@ == record_notification(old(self)@, tenant_id@, id@, client_id@, payload@),
            r matches Ok(n) && n@ == recorded_row(old(self)@, tenant_id@, id@, client_id@, payload@),
            r matches Ok(n) ==> (n.previous_payloads@.len() == 1 <==> !has_notification(
                old(self)@,
                tenant_id@,
                id@,
            )),
    {
        proof {
            use_type_invariant(&*self);
        }
        let ghost rows0 = old(self)@;
        let mut rows: Vec<Notification> = Vec::new();
        std::mem::swap(&mut rows, &mut self.rows);
        let n = rows.len();
        let mut i: usize = 0;
        while i < n
            invariant
                n == rows.len(),
                i <= n,
                rows0 == old(self)@,
                wf_notification_rows(rows0),
                rows0 == notification_views(rows@),
                forall|j: int|
                    0 <= j < i ==> !is_notification_row(#[trigger] rows0[j], tenant_id@, id@),
            decreases n - i,
        {
            if str_eq(rows[i].id.as_str(), id) && str_eq(rows[i].tenant_id.as_str(), tenant_id) {
                proof {
                    lemma_notification_index(rows0, tenant_id@, id@, i as int);
                    assert(rows0[i as int].previous_payloads.len() >= 1);
                }
                let mut row = rows.remove(i);
                row.previous_payloads.push(clone_payload(payload));
                proof {
                    assert(row@ =~= recorded_row(rows0, tenant_id@, id@, client_id@, payload@));
                }
                let result = row.duplicate();
                proof {
                    assert(result.previous_payloads@.len() == result@.previous_payloads.len());
                }
                rows.insert(i, row);
                proof {
                    let rows1 = notification_views(rows@);
                    assert(rows1 =~= record_notification(rows0, tenant_id@, id@, client_id@, payload@));
                    assert(forall|p: int|
                        0 <= p < rows1.len() ==> same_notification_key(#[trigger] rows1[p], rows0[p])
                            && rows1[p].previous_payloads.len() >= 1);
                    assert forall|p: int, q: int|
                        0 <= p < q < rows1.len() implies !#[trigger] same_notification_key(
                        rows1[p],
                        rows1[q],
                    ) by {
                        assert(!same_notification_key(rows0[p], rows0[q]));
                        assert(same_notification_key(rows1[p], rows0[p]));
                        assert(same_notification_key(rows1[q], rows0[q]));
                    }
                    assert(wf_notification_rows(rows1));
                }
                self.rows = rows;
                return Ok(result);
            }
            i = i + 1;
        }
        assert(!has_notification(rows0, tenant_id@, id@));
        let mut history: Vec<MessagePayload> = Vec::new();
        history.push(clone_payload(payload));
        let row = Notification {
            id: id.to_owned(),
            tenant_id: tenant_id.to_owned(),
            client_id: client_id.to_owned(),
            previous_payloads: history,
        };
        proof {
            assert(row@.previous_payloads =~= seq![payload@]);
            assert(row@ =~= recorded_row(rows0, tenant_id@, id@, client_id@, payload@));
        }
        let result = row.duplicate();
        proof {
            assert(result.previous_payloads@.len() == result@.previous_payloads.len());
        }
        rows.push(row);
        proof {
            let rows1 = notification_views(rows@);
            assert(rows1[n as int].previous_payloads =~= seq![payload@]);
            assert(rows1 =~= record_notification(rows0, tenant_id@, id@, client_id@, payload@));
            assert forall|p: int, q: int|
                0 <= p < q < rows1.len() implies !#[trigger] same_notification_key(
                rows1[p],
                rows1[q],
            ) by {
                if q < rows0.len() {
                    assert(!same_notification_key(rows0[p], rows0[q]));
                } else {
                    assert(rows1[p] == rows0[p]);
                }
            }
            assert(wf_notification_rows(rows1));
        }
        self.rows = rows;
        Ok(result)
    }

    /// Removes every record belonging to (tenant, client): the
    /// deregistration cascade. Rows of other clients and tenants survive in
    /// order.
    pub fn delete_for_client(&mut self, tenant_id: &str, client_id: &str)
        ensures
            final(self)@ == cascade_deleted(old(self)@, tenant_id@, client_id@),
    {
        proof {
            use_type_invariant(&*self);
        }
        let ghost rows0 = old(self)@;
        let mut rows: Vec<Notification> = Vec::new();
        std::mem::swap(&mut rows, &mut self.rows);
        let mut kept: Vec<Notification> = Vec::new();
        let n = rows.len();
        let mut i: usize = 0;
        proof {
            reveal(Seq::filter);
            assert(rows0.subrange(0, 0) =~= Seq::<NotificationView>::empty());
            assert(cascade_deleted(rows0.subrange(0, 0), tenant_id@, client_id@)
                =~= Seq::<NotificationView>::empty());
        }
        while i < n
            invariant
                n == rows.len(),
                i <= n,
                rows0 == old(self)@,
                wf_notification_rows(rows0),
                rows0 == notification_views(rows@),
                notification_views(kept@) == cascade_deleted(
                    rows0.subrange(0, i as int),
                    tenant_id@,
                    client_id@,
                ),
            decreases n - i,
        {
            let keep = !(str_eq(rows[i].tenant_id.as_str(), tenant_id) && str_eq(
                rows[i].client_id.as_str(),
                client_id,
            ));
            proof {
                reveal(Seq::filter);
                let prefix = rows0.subrange(0, i as int);
                let prefix1 = rows0.subrange(0, i as int + 1);
                assert(prefix1.drop_last() =~= prefix);
                assert(prefix1.last() == rows0[i as int]);
            }
            if keep {
                kept.push(rows[i].duplicate());
            }
            proof {
                assert(notification_views(kept@) =~= cascade_deleted(
                    rows0.subrange(0, i as int + 1),
                    tenant_id@,
                    client_id@,
                ));
            }
            i = i + 1;
        }
        proof {
            assert(rows0.subrange(0, n as int) =~= rows0);
            lemma_cascade_keeps_wf(rows0, tenant_id@, client_id@);
            assert(wf_notification_rows(notification_views(kept@)));
        }
        self.rows = kept;
    }
}

} // verus!
