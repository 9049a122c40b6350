//! The subsystem's cross-function guarantees, each proved over the spec
//! model that the executable functions' contracts are stated in.

use vstd::prelude::*;
use vstd::utf8::encode_utf8;
use crate::crypto::signature_text;
use crate::model::Notification;
use crate::webhook::{
    spec_delivery, spec_enabled_for_user, spec_fan_out, spec_receives, spec_subscribes,
    WebhookConfigView, WebhookDeliveryView,
};

verus! {

/// Pushing a notification and then draining its category's queue returns
/// it exactly once more than it was already buffered — exactly once from
/// an empty or not-yet-containing queue. That pops hand entries out
/// oldest-first and leave other categories untouched is stated by the
/// queue's own contracts.
pub proof fn lemma_push_then_drain_returns_once(pending: Seq<Notification>, n: Notification)
    ensures
        pending.push(n).to_multiset().count(n) == pending.to_multiset().count(n) + 1,
        !pending.contains(n) ==> pending.push(n).to_multiset().count(n) == 1,
{
    broadcast use vstd::seq_lib::group_to_multiset_ensures;

}

/// Strict FIFO within a category: three entries pushed in order stand in
/// the buffer in that order, and each removal of the head uncovers the
/// next, so pops return them first-in first-out.
pub proof fn lemma_fifo_order(n1: Notification, n2: Notification, n3: Notification)
    ensures
        ({
            let q = Seq::<Notification>::empty().push(n1).push(n2).push(n3);
            &&& q[0] == n1
            &&& q.drop_first()[0] == n2
            &&& q.drop_first().drop_first()[0] == n3
            &&& q.drop_first().drop_first().drop_first().len() == 0
        }),
{
}

proof fn lemma_fan_out_empty(n: Notification, ts: int)
    ensures
        spec_fan_out(n, Seq::<WebhookConfigView>::empty(), ts) == Seq::<WebhookDeliveryView>::empty(),
{
}

proof fn lemma_enabled_empty(uid: int)
    ensures
        spec_enabled_for_user(Seq::<WebhookConfigView>::empty(), uid)
            == Seq::<WebhookConfigView>::empty(),
{
}

proof fn lemma_fan_out_single(n: Notification, c: WebhookConfigView, ts: int)
    ensures
        spec_receives(c, n) ==> spec_fan_out(n, seq![c], ts) == seq![spec_delivery(n, c, ts)],
        !spec_receives(c, n) ==> spec_fan_out(n, seq![c], ts)
            == Seq::<WebhookDeliveryView>::empty(),
{
    let cs = seq![c];
    assert(cs.drop_last() =~= Seq::<WebhookConfigView>::empty());
    lemma_fan_out_empty(n, ts);
    assert(cs[cs.len() - 1] == c);
    if spec_receives(c, n) {
        assert(spec_fan_out(n, cs, ts) =~= seq![spec_delivery(n, c, ts)]);
    } else {
        assert(spec_fan_out(n, cs, ts) =~= Seq::<WebhookDeliveryView>::empty());
    }
}

/// The enable gate: a disabled subscription produces no delivery attempt,
/// and the same subscription, switched on, produces exactly one attempt
/// for one notification it subscribes to.
pub proof fn lemma_enable_gate(n: Notification, c: WebhookConfigView, ts: int)
    requires
        spec_subscribes(c, n.notification_type),
    ensures
        spec_fan_out(n, seq![WebhookConfigView { enabled: false, ..c }], ts).len() == 0,
        spec_fan_out(n, seq![WebhookConfigView { enabled: true, ..c }], ts) == seq![
            spec_delivery(n, WebhookConfigView { enabled: true, ..c }, ts),
        ],
{
    lemma_fan_out_single(n, WebhookConfigView { enabled: false, ..c }, ts);
    lemma_fan_out_single(n, WebhookConfigView { enabled: true, ..c }, ts);
}

/// The category filter: a subscription whose list does not carry the
/// notification's tag produces no delivery attempt, enabled or not.
pub proof fn lemma_unsubscribed_receives_nothing(n: Notification, c: WebhookConfigView, ts: int)
    requires
        !spec_subscribes(c, n.notification_type),
    ensures
        spec_fan_out(n, seq![c], ts).len() == 0,
{
    lemma_fan_out_single(n, c, ts);
}

/// Tamper evidence: the signature a delivery carries is exactly the
/// HMAC-SHA256 of the delivered body bytes under the subscription's
/// secret, hex-encoded — so a receiver recomputing it over the received
/// body gets the transmitted header value.
pub proof fn lemma_signature_verifies(n: Notification, c: WebhookConfigView, ts: int)
    ensures
        spec_delivery(n, c, ts).signature == signature_text(
            encode_utf8(c.secret),
            encode_utf8(spec_delivery(n, c, ts).body),
        ),
{
}

/// Last connection wins: after registering two channels for one user in
/// sequence, only the second is reachable. That a broadcast for an
/// unregistered user does nothing is stated by the registry's contract.
pub proof fn lemma_last_connection_wins(m: Map<i32, u64>, u: i32, c1: u64, c2: u64)
    ensures
        m.insert(u, c1).insert(u, c2).contains_key(u),
        m.insert(u, c1).insert(u, c2)[u] == c2,
{
}

/// End to end: one enabled subscription of the recipient, subscribed to
/// the notification's category, yields exactly one prepared POST, and its
/// signature verifies against its body. The socket side — exactly one
/// frame to a connected recipient — is stated by the registry's contract.
pub proof fn lemma_end_to_end_single_delivery(n: Notification, c: WebhookConfigView, ts: int)
    requires
        c.user_id == n.user_id as int,
        c.enabled,
        spec_subscribes(c, n.notification_type),
    ensures
        spec_enabled_for_user(seq![c], n.user_id as int) == seq![c],
        spec_fan_out(n, spec_enabled_for_user(seq![c], n.user_id as int), ts) == seq![
            spec_delivery(n, c, ts),
        ],
        spec_delivery(n, c, ts).signature == signature_text(
            encode_utf8(c.secret),
            encode_utf8(spec_delivery(n, c, ts).body),
        ),
{
    let cs = seq![c];
    assert(cs.drop_last() =~= Seq::<WebhookConfigView>::empty());
    lemma_enabled_empty(n.user_id as int);
    assert(cs[cs.len() - 1] == c);
    assert(spec_enabled_for_user(cs, n.user_id as int) =~= seq![c]);
    lemma_fan_out_single(n, c, ts);
}

} // verus!
