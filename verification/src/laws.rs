//! The guarantees the relay makes, stated and proved over the stores' and
//! the orchestrator's mathematical models.

use vstd::prelude::*;

use crate::cache::CacheEntryView;
use crate::clients::{
    client_deleted, client_upsert, has_client, has_token, is_client_row, is_token_row,
    stored_client, wf_client_rows, ClientRecordView, ClientView,
};
use crate::dispatch::{notifications_after, push_decision};
use crate::notifications::{
    cascade_deleted, has_notification, is_notification_row, lemma_cascade_removes,
    notification_index, record_notification, recorded_row, survives_cascade, NotificationView,
};
use crate::payload::MessagePayloadView;
use crate::providers::{kind_of, ProviderKind};
use crate::tenants::{provider_for, TenantView};
use crate::text::normalized_id;

verus! {

/// Idempotent delivery: once a delivery request has been dispatched (and
/// its submission recorded), any later request for the same
/// (tenant, notification id) — whatever the provider cache looks like by
/// then — is a duplicate, answered as success without reaching a provider.
pub proof fn lemma_idempotent_delivery(
    cs: Seq<ClientRecordView>,
    ns: Seq<NotificationView>,
    ts: Seq<TenantView>,
    cache: Seq<CacheEntryView>,
    cache2: Seq<CacheEntryView>,
    t: Seq<char>,
    rid: Seq<char>,
    nid: Seq<char>,
    p: MessagePayloadView,
)
    requires
        push_decision(cs, ns, ts, cache, t, rid, nid) is Deliver,
    ensures
        push_decision(
            cs,
            notifications_after(cs, ns, t, rid, nid, p),
            ts,
            cache2,
            t,
            rid,
            nid,
        ) is AlreadyReceived,
{
    let id = normalized_id(rid);
    let ns1 = notifications_after(cs, ns, t, rid, nid, p);
    assert(ns1 == record_notification(ns, t, nid, id, p));
    assert(is_notification_row(ns1[ns.len() as int], t, nid));
    assert(has_notification(ns1, t, nid));
}

/// Concurrent duplicate race: the record step is atomic, so of two racing
/// submissions of one (tenant, notification id) the first sees a history of
/// length one and dispatches, while the second — here modelled as the next
/// atomic record against the store the first left behind — sees a longer
/// history and is discarded as a duplicate.
pub proof fn lemma_concurrent_duplicate(
    ns: Seq<NotificationView>,
    t: Seq<char>,
    nid: Seq<char>,
    cid: Seq<char>,
    p1: MessagePayloadView,
    p2: MessagePayloadView,
)
    requires
        !has_notification(ns, t, nid),
    ensures
        recorded_row(ns, t, nid, cid, p1).previous_payloads.len() == 1,
        has_notification(record_notification(ns, t, nid, cid, p1), t, nid),
        recorded_row(record_notification(ns, t, nid, cid, p1), t, nid, cid, p2)
            .previous_payloads.len() >= 2,
{
    let ns1 = record_notification(ns, t, nid, cid, p1);
    assert(is_notification_row(ns1[ns.len() as int], t, nid));
    assert(has_notification(ns1, t, nid));
    let ix = notification_index(ns1, t, nid);
    assert(0 <= ix < ns1.len() && is_notification_row(ns1[ix], t, nid));
    if ix < ns.len() {
        assert(is_notification_row(ns[ix], t, nid));
        assert(has_notification(ns, t, nid));
    }
    assert(ns1[ix].previous_payloads.len() == 1);
}

/// Identity merge, token rotation: registering (id, token1) and then
/// (id, token2) in a tenant whose registry knows neither the id nor the two
/// tokens leaves exactly one row for that id, carrying token2, and touches
/// no other row.
pub proof fn lemma_token_rotation(
    rows: Seq<ClientRecordView>,
    t: Seq<char>,
    id: Seq<char>,
    c1: ClientView,
    c2: ClientView,
)
    requires
        wf_client_rows(rows),
        !has_client(rows, t, id),
        !has_token(rows, t, c1.token),
        !has_token(rows, t, c2.token),
        c1.token != c2.token,
    ensures
        ({
            let rows2 = client_upsert(client_upsert(rows, t, id, c1), t, id, c2);
            &&& rows2.len() == rows.len() + 1
            &&& forall|i: int|
                0 <= i < rows2.len() ==> (is_client_row(#[trigger] rows2[i], t, id) <==> i
                    == rows.len())
            &&& rows2[rows.len() as int] == (ClientRecordView {
                id: id,
                client: stored_client(t, c2),
            })
            &&& forall|i: int| 0 <= i < rows.len() ==> #[trigger] rows2[i] == rows[i]
        }),
{
    let rec1 = ClientRecordView { id: id, client: stored_client(t, c1) };
    let rows1 = client_upsert(rows, t, id, c1);
    assert(rows1 == rows.push(rec1));
    assert(is_client_row(rows1[rows.len() as int], t, id));
    assert(has_client(rows1, t, id));
    let k = crate::clients::client_index(rows1, t, id);
    assert(0 <= k < rows1.len() && is_client_row(rows1[k], t, id));
    if k < rows.len() {
        assert(is_client_row(rows[k], t, id));
        assert(has_client(rows, t, id));
    }
    assert(k == rows.len());
    assert forall|i: int|
        0 <= i < rows1.len() implies !is_token_row(#[trigger] rows1[i], t, c2.token) by {
        if i < rows.len() {
            assert(rows1[i] == rows[i]);
        }
    }
    assert(!has_token(rows1, t, c2.token));
    let rows2 = client_upsert(rows1, t, id, c2);
    assert(rows2 == rows1.update(
        k,
        ClientRecordView { id: id, client: stored_client(t, c2) },
    ));
    assert forall|i: int|
        0 <= i < rows2.len() implies (is_client_row(#[trigger] rows2[i], t, id) <==> i
        == rows.len()) by {
        if i < rows.len() {
            assert(rows2[i] == rows[i]);
        }
    }
}

/// Identity merge, id rotation: registering (idA, token) and then
/// (idB, token) in a tenant whose registry knows neither id nor the token
/// leaves exactly one row for that token, carrying idB, and touches no
/// other row.
pub proof fn lemma_id_rotation(
    rows: Seq<ClientRecordView>,
    t: Seq<char>,
    id_a: Seq<char>,
    id_b: Seq<char>,
    c1: ClientView,
    c2: ClientView,
)
    requires
        wf_client_rows(rows),
        !has_client(rows, t, id_a),
        !has_client(rows, t, id_b),
        !has_token(rows, t, c1.token),
        c1.token == c2.token,
        id_a != id_b,
    ensures
        ({
            let rows2 = client_upsert(client_upsert(rows, t, id_a, c1), t, id_b, c2);
            &&& rows2.len() == rows.len() + 1
            &&& forall|i: int|
                0 <= i < rows2.len() ==> (is_token_row(#[trigger] rows2[i], t, c1.token) <==> i
                    == rows.len())
            &&& rows2[rows.len() as int] == (ClientRecordView {
                id: id_b,
                client: stored_client(t, c2),
            })
            &&& forall|i: int| 0 <= i < rows.len() ==> #[trigger] rows2[i] == rows[i]
        }),
{
    let rec1 = ClientRecordView { id: id_a, client: stored_client(t, c1) };
    let rows1 = client_upsert(rows, t, id_a, c1);
    assert(rows1 == rows.push(rec1));
    assert forall|i: int|
        0 <= i < rows1.len() implies !is_client_row(#[trigger] rows1[i], t, id_b) by {
        if i < rows.len() {
            assert(rows1[i] == rows[i]);
        }
    }
    assert(!has_client(rows1, t, id_b));
    assert(is_token_row(rows1[rows.len() as int], t, c2.token));
    assert(has_token(rows1, t, c2.token));
    let m = crate::clients::token_index(rows1, t, c2.token);
    assert(0 <= m < rows1.len() && is_token_row(rows1[m], t, c2.token));
    if m < rows.len() {
        assert(is_token_row(rows[m], t, c1.token));
        assert(has_token(rows, t, c1.token));
    }
    assert(m == rows.len());
    let rows2 = client_upsert(rows1, t, id_b, c2);
    assert(rows2 == rows1.update(
        m,
        ClientRecordView { id: id_b, client: stored_client(t, c2) },
    ));
    assert forall|i: int|
        0 <= i < rows2.len() implies (is_token_row(#[trigger] rows2[i], t, c1.token) <==> i
        == rows.len()) by {
        if i < rows.len() {
            assert(rows2[i] == rows[i]);
        }
    }
}

/// Unknown client: a delivery request for a (tenant, id) with no
/// registration ends at the not-found terminal and records no notification.
pub proof fn lemma_unknown_client(
    cs: Seq<ClientRecordView>,
    ns: Seq<NotificationView>,
    ts: Seq<TenantView>,
    cache: Seq<CacheEntryView>,
    t: Seq<char>,
    rid: Seq<char>,
    nid: Seq<char>,
    p: MessagePayloadView,
)
    requires
        !has_client(cs, t, normalized_id(rid)),
    ensures
        push_decision(cs, ns, ts, cache, t, rid, nid) is NoClient,
        notifications_after(cs, ns, t, rid, nid, p) == ns,
{
}

/// Deregistration cascade: after a client is deleted, its registry row is
/// gone, no notification of that client survives in the tenant, and a
/// subsequent delivery to the same id ends at the not-found terminal.
pub proof fn lemma_deregistration_cascade(
    cs: Seq<ClientRecordView>,
    ns: Seq<NotificationView>,
    ts: Seq<TenantView>,
    cache: Seq<CacheEntryView>,
    t: Seq<char>,
    rid: Seq<char>,
    nid: Seq<char>,
)
    requires
        wf_client_rows(cs),
    ensures
        ({
            let id = normalized_id(rid);
            let cs1 = client_deleted(cs, t, id);
            let ns1 = cascade_deleted(ns, t, id);
            &&& !has_client(cs1, t, id)
            &&& forall|i: int| 0 <= i < ns1.len() ==> survives_cascade(#[trigger] ns1[i], t, id)
            &&& push_decision(cs1, ns1, ts, cache, t, rid, nid) is NoClient
        }),
{
    let id = normalized_id(rid);
    let cs1 = client_deleted(cs, t, id);
    if has_client(cs, t, id) {
        let k = crate::clients::client_index(cs, t, id);
        assert(0 <= k < cs.len() && is_client_row(cs[k], t, id));
        assert forall|i: int| 0 <= i < cs1.len() implies !is_client_row(
            #[trigger] cs1[i],
            t,
            id,
        ) by {
            let i0: int = if i < k {
                i
            } else {
                i + 1
            };
            assert(cs1[i] == cs[i0]);
            if is_client_row(cs[i0], t, id) {
                if i0 < k {
                    assert(!crate::clients::colliding_rows(cs[i0], cs[k]));
                } else {
                    assert(!crate::clients::colliding_rows(cs[k], cs[i0]));
                }
            }
        }
        assert(!has_client(cs1, t, id));
    } else {
        assert(cs1 == cs);
        assert forall|i: int| 0 <= i < cs1.len() implies !is_client_row(
            #[trigger] cs1[i],
            t,
            id,
        ) by {}
        assert(!has_client(cs1, t, id));
    }
    lemma_cascade_removes(ns, t, id);
}

/// Provider routing: the provider a tenant's credentials construct for a
/// vendor kind is always of that kind, so a client is only ever handed to
/// its own vendor's implementation; the orchestrator's contract carries the
/// same guarantee for cached instances.
pub proof fn lemma_provider_routing(t: TenantView, k: ProviderKind)
    ensures
        kind_of(provider_for(t, k)) == k,
{
}

} // verus!
