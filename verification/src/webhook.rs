//! Webhook subscriptions and delivery preparation: which configurations
//! receive a notification, the exact signed POST each one gets, and the
//! bookkeeping of the subscription store.

use vstd::prelude::*;
use vstd::utf8::encode_utf8;
use crate::clock::MAX_TIMESTAMP_MILLIS;
use crate::crypto::{sign_payload, signature_text};
use crate::model::{spec_type_tag, Notification, NotificationError, NotificationType};
use crate::wire::{spec_webhook_body, webhook_body};

verus! {

/// One webhook subscription: where to POST, the shared HMAC secret, the
/// enable gate, and the notification categories subscribed to.
#[derive(Debug, PartialEq)]
pub struct WebhookConfig {
    pub id: i32,
    pub user_id: i32,
    pub url: String,
    pub secret: String,
    pub enabled: bool,
    pub notification_types: Vec<String>,
}

/// The mathematical mirror of a subscription.
#[verifier::ext_equal]
pub struct WebhookConfigView {
    pub id: int,
    pub user_id: int,
    pub url: Seq<char>,
    pub secret: Seq<char>,
    pub enabled: bool,
    pub notification_types: Seq<Seq<char>>,
}

impl View for WebhookConfig {
    type V = WebhookConfigView;

    open spec fn view(&self) -> WebhookConfigView {
        WebhookConfigView {
            id: self.id as int,
            user_id: self.user_id as int,
            url: self.url@,
            secret: self.secret@,
            enabled: self.enabled,
            notification_types: self.notification_types.deep_view(),
        }
    }
}

impl DeepView for WebhookConfig {
    type V = WebhookConfigView;

    open spec fn deep_view(&self) -> WebhookConfigView {
        self.view()
    }
}

/// A request to create a subscription; the owner and the row id come from
/// elsewhere.
#[derive(Debug, PartialEq)]
pub struct CreateWebhookRequest {
    pub url: String,
    pub secret: String,
    pub notification_types: Vec<String>,
}

/// Whether a subscription's category list carries the tag of `t`.
pub open spec fn spec_subscribes(c: WebhookConfigView, t: NotificationType) -> bool {
    exists|i: int|
        0 <= i < c.notification_types.len() && c.notification_types[i] == spec_type_tag(t)
}

/// Whether a subscription receives a notification: it must be enabled and
/// subscribed to the notification's category. This gate stands before any
/// network traffic.
pub open spec fn spec_receives(c: WebhookConfigView, n: Notification) -> bool {
    c.enabled && spec_subscribes(c, n.notification_type)
}

/// Whether this subscription's category list carries the tag of `t`.
pub fn subscribes_to(config: &WebhookConfig, t: NotificationType) -> (r: bool)
    ensures
        r == spec_subscribes(config@, t),
{
    let tag = String::from_str(t.type_tag());
    let n = config.notification_types.len();
    for i in 0..n
        invariant
            n == config.notification_types.len(),
            tag@ == spec_type_tag(t),
            forall|j: int| 0 <= j < i ==> config@.notification_types[j] != spec_type_tag(t),
    {
        if config.notification_types[i] == tag {
            assert(config@.notification_types[i as int] == spec_type_tag(t));
            return true;
        }
    }
    false
}

/// One prepared webhook POST: the target, the exact body text, and the
/// signature for the `X-Webhook-Signature` header.
#[derive(Debug, PartialEq)]
pub struct WebhookDelivery {
    pub config_id: i32,
    pub url: String,
    pub body: String,
    pub signature: String,
}

/// The mathematical mirror of a prepared POST.
#[verifier::ext_equal]
pub struct WebhookDeliveryView {
    pub config_id: int,
    pub url: Seq<char>,
    pub body: Seq<char>,
    pub signature: Seq<char>,
}

impl View for WebhookDelivery {
    type V = WebhookDeliveryView;

    open spec fn view(&self) -> WebhookDeliveryView {
        WebhookDeliveryView {
            config_id: self.config_id as int,
            url: self.url@,
            body: self.body@,
            signature: self.signature@,
        }
    }
}

impl DeepView for WebhookDelivery {
    type V = WebhookDeliveryView;

    open spec fn deep_view(&self) -> WebhookDeliveryView {
        self.view()
    }
}

/// The POST a subscription receives for a notification delivered at `ts`:
/// the payload body, signed over exactly the body's UTF-8 bytes with the
/// subscription's secret.
pub open spec fn spec_delivery(n: Notification, c: WebhookConfigView, ts: int)
    -> WebhookDeliveryView {
    WebhookDeliveryView {
        config_id: c.id,
        url: c.url,
        body: spec_webhook_body(n, ts),
        signature: signature_text(encode_utf8(c.secret), encode_utf8(spec_webhook_body(n, ts))),
    }
}

/// The outcome classification of one attempt: any 2xx status is success,
/// everything else is a `DeliveryFailure` carrying the status, contained
/// to this one attempt.
pub fn delivery_outcome(status: u16) -> (r: Result<(), NotificationError>)
    ensures
        r is Ok <==> 200 <= status < 300,
        !(200 <= status < 300) ==> r == Err::<(), NotificationError>(
            NotificationError::DeliveryFailure(status),
        ),
{
    if 200 <= status && status < 300 {
        Ok(())
    } else {
        Err(NotificationError::DeliveryFailure(status))
    }
}

fn clone_strings(v: &Vec<String>) -> (r: Vec<String>)
    ensures
        r.deep_view() == v.deep_view(),
{
    let mut out: Vec<String> = Vec::new();
    let n = v.len();
    for i in 0..n
        invariant
            n == v.len(),
            out.len() == i,
            forall|j: int| 0 <= j < i ==> out@[j]@ == v@[j]@,
    {
        out.push(v[i].clone());
    }
    proof {
        assert(out.deep_view() =~= v.deep_view());
    }
    out
}

/// A copy of a subscription, field for field.
fn clone_config(c: &WebhookConfig) -> (r: WebhookConfig)
    ensures
        r@ == c@,
{
    let r = WebhookConfig {
        id: c.id,
        user_id: c.user_id,
        url: c.url.clone(),
        secret: c.secret.clone(),
        enabled: c.enabled,
        notification_types: clone_strings(&c.notification_types),
    };
    proof {
        assert(r@ =~= c@);
    }
    r
}

/// The subscriptions that take part in delivery for a user: the enabled
/// rows owned by that user, in store order. Disabled rows stay stored but
/// are invisible here.
pub open spec fn spec_enabled_for_user(cs: Seq<WebhookConfigView>, uid: int)
    -> Seq<WebhookConfigView>
    decreases cs,
{
    if cs.len() == 0 {
        Seq::empty()
    } else {
        spec_enabled_for_user(cs.drop_last(), uid) + if cs[cs.len() - 1].enabled && cs[cs.len()
            - 1].user_id == uid {
            seq![cs[cs.len() - 1]]
        } else {
            Seq::empty()
        }
    }
}

/// Every subscription of a user, enabled or not, in store order: the
/// management view of the store.
pub open spec fn spec_for_user(cs: Seq<WebhookConfigView>, uid: int) -> Seq<WebhookConfigView>
    decreases cs,
{
    if cs.len() == 0 {
        Seq::empty()
    } else {
        spec_for_user(cs.drop_last(), uid) + if cs[cs.len() - 1].user_id == uid {
            seq![cs[cs.len() - 1]]
        } else {
            Seq::empty()
        }
    }
}

proof fn lemma_for_user_take(cs: Seq<WebhookConfigView>, uid: int, i: int)
    requires
        0 <= i < cs.len(),
    ensures
        spec_for_user(cs.take(i + 1), uid) == spec_for_user(cs.take(i), uid) + if cs[i].user_id
            == uid {
            seq![cs[i]]
        } else {
            Seq::<WebhookConfigView>::empty()
        },
{
    assert(cs.take(i + 1).drop_last() =~= cs.take(i));
    assert(cs.take(i + 1)[cs.take(i + 1).len() - 1] == cs[i]);
}

/// The deliveries one notification produces against a row of
/// subscriptions: exactly one prepared POST per subscription that receives
/// it, in subscription order.
pub open spec fn spec_fan_out(n: Notification, cs: Seq<WebhookConfigView>, ts: int)
    -> Seq<WebhookDeliveryView>
    decreases cs,
{
    if cs.len() == 0 {
        Seq::empty()
    } else {
        spec_fan_out(n, cs.drop_last(), ts) + if spec_receives(cs[cs.len() - 1], n) {
            seq![spec_delivery(n, cs[cs.len() - 1], ts)]
        } else {
            Seq::empty()
        }
    }
}

proof fn lemma_enabled_take(cs: Seq<WebhookConfigView>, uid: int, i: int)
    requires
        0 <= i < cs.len(),
    ensures
        spec_enabled_for_user(cs.take(i + 1), uid) == spec_enabled_for_user(cs.take(i), uid)
            + if cs[i].enabled && cs[i].user_id == uid {
            seq![cs[i]]
        } else {
            Seq::<WebhookConfigView>::empty()
        },
{
    assert(cs.take(i + 1).drop_last() =~= cs.take(i));
    assert(cs.take(i + 1)[cs.take(i + 1).len() - 1] == cs[i]);
}

proof fn lemma_fan_out_take(n: Notification, cs: Seq<WebhookConfigView>, ts: int, i: int)
    requires
        0 <= i < cs.len(),
    ensures
        spec_fan_out(n, cs.take(i + 1), ts) == spec_fan_out(n, cs.take(i), ts) + if spec_receives(
            cs[i],
            n,
        ) {
            seq![spec_delivery(n, cs[i], ts)]
        } else {
            Seq::<WebhookDeliveryView>::empty()
        },
{
    assert(cs.take(i + 1).drop_last() =~= cs.take(i));
    assert(cs.take(i + 1)[cs.take(i + 1).len() - 1] == cs[i]);
}

/// The store of webhook subscriptions and the delivery side of the
/// subsystem: it hands out the enabled rows of a user and prepares the
/// signed POST each receiving subscription gets.
pub struct WebhookManager {
    configs: Vec<WebhookConfig>,
    next_id: i32,
}

impl WebhookManager {
    /// The stored subscriptions, in creation order.
    pub closed spec fn configs_view(&self) -> Seq<WebhookConfigView> {
        self.configs.deep_view()
    }

    /// The id the next created subscription gets.
    pub closed spec fn spec_next_id(&self) -> int {
        self.next_id as int
    }

    /// The store's invariant: ids are unique and below the next id.
    pub open spec fn wf(&self) -> bool {
        &&& forall|i: int, j: int|
            0 <= i < j < self.configs_view().len() ==> self.configs_view()[i].id
                != self.configs_view()[j].id
        &&& forall|i: int|
            0 <= i < self.configs_view().len() ==> #[trigger] self.configs_view()[i].id
                < self.spec_next_id()
        &&& 1 <= self.spec_next_id()
    }

    /// An empty store.
    pub fn new() -> (r: WebhookManager)
        ensures
            r.configs_view().len() == 0,
            r.wf(),
    {
        let r = WebhookManager { configs: Vec::new(), next_id: 1 };
        proof {
            assert(r.configs_view() =~= Seq::<WebhookConfigView>::empty());
        }
        r
    }

    /// Store a subscription under a fresh id and return the stored row.
    /// The id field of the argument is ignored; the store assigns its own.
    pub fn create_webhook_config(&mut self, config: WebhookConfig) -> (r: Result<
        WebhookConfig,
        NotificationError,
    >)
        requires
            old(self).wf(),
            old(self).spec_next_id() < 0x7fff_ffff,
        ensures
            final(self).wf(),
            r is Ok,
            r->Ok_0@ == (WebhookConfigView { id: old(self).spec_next_id(), ..config@ }),
            final(self).configs_view() == old(self).configs_view().push(r->Ok_0@),
            final(self).spec_next_id() == old(self).spec_next_id() + 1,
    {
        let assigned = WebhookConfig {
            id: self.next_id,
            user_id: config.user_id,
            url: config.url,
            secret: config.secret,
            enabled: config.enabled,
            notification_types: config.notification_types,
        };
        let stored = clone_config(&assigned);
        self.configs.push(stored);
        self.next_id = self.next_id + 1;
        proof {
            assert(self.configs_view() =~= old(self).configs_view().push(assigned@));
            assert(assigned@ =~= (WebhookConfigView { id: old(self).spec_next_id(), ..config@ }));
        }
        Ok(assigned)
    }

    /// The subscriptions delivery considers for a user: enabled rows owned
    /// by that user, in store order.
    pub fn get_webhook_configs(&self, user_id: i32) -> (r: Result<
        Vec<WebhookConfig>,
        NotificationError,
    >)
        ensures
            r is Ok,
            r->Ok_0.deep_view() == spec_enabled_for_user(self.configs_view(), user_id as int),
    {
        let mut out: Vec<WebhookConfig> = Vec::new();
        let n = self.configs.len();
        for i in 0..n
            invariant
                n == self.configs.len(),
                out.deep_view() == spec_enabled_for_user(
                    self.configs_view().take(i as int),
                    user_id as int,
                ),
        {
            proof {
                lemma_enabled_take(self.configs_view(), user_id as int, i as int);
            }
            if self.configs[i].enabled && self.configs[i].user_id == user_id {
                let c = clone_config(&self.configs[i]);
                let ghost prev = out.deep_view();
                out.push(c);
                proof {
                    assert(out.deep_view() =~= prev.push(c@));
                }
            }
        }
        proof {
            assert(self.configs_view().take(n as int) =~= self.configs_view());
        }
        Ok(out)
    }


    /// The management view: every subscription of a user, enabled or not,
    /// in store order.
    pub fn list_webhooks(&self, user_id: i32) -> (r: Result<
        Vec<WebhookConfig>,
        NotificationError,
    >)
        ensures
            r is Ok,
            r->Ok_0.deep_view() == spec_for_user(self.configs_view(), user_id as int),
    {
        let mut out: Vec<WebhookConfig> = Vec::new();
        let n = self.configs.len();
        for i in 0..n
            invariant
                n == self.configs.len(),
                out.deep_view() == spec_for_user(
                    self.configs_view().take(i as int),
                    user_id as int,
                ),
        {
            proof {
                lemma_for_user_take(self.configs_view(), user_id as int, i as int);
            }
            if self.configs[i].user_id == user_id {
                let c = clone_config(&self.configs[i]);
                let ghost prev = out.deep_view();
                out.push(c);
                proof {
                    assert(out.deep_view() =~= prev.push(c@));
                }
            }
        }
        proof {
            assert(self.configs_view().take(n as int) =~= self.configs_view());
        }
        Ok(out)
    }

    /// Prepare the POST one subscription gets for a notification, or
    /// nothing when the subscription is disabled or not subscribed to the
    /// notification's category; the filter stands before any network I/O.
    pub fn send_webhook(
        &self,
        notification: &Notification,
        config: &WebhookConfig,
        timestamp_millis: i64,
    ) -> (r: Option<WebhookDelivery>)
        requires
            0 <= timestamp_millis <= MAX_TIMESTAMP_MILLIS,
        ensures
            r is Some <==> spec_receives(config@, *notification),
            r is Some ==> r->0@ == spec_delivery(
                *notification,
                config@,
                timestamp_millis as int,
            ),
    {
        if !config.enabled {
            return None;
        }
        if !subscribes_to(config, notification.notification_type) {
            return None;
        }
        let body = webhook_body(notification, timestamp_millis);
        let signature = sign_payload(config.secret.as_str(), body.as_str());
        let d = WebhookDelivery { config_id: config.id, url: config.url.clone(), body, signature };
        proof {
            assert(d@ =~= spec_delivery(*notification, config@, timestamp_millis as int));
        }
        Some(d)
    }

    /// Prepare every POST a notification produces: one per enabled,
    /// subscribed row of the recipient, in store order.
    pub fn prepare_deliveries(&self, notification: &Notification, timestamp_millis: i64) -> (r:
        Vec<WebhookDelivery>)
        requires
            0 <= timestamp_millis <= MAX_TIMESTAMP_MILLIS,
        ensures
            r.deep_view() == spec_fan_out(
                *notification,
                spec_enabled_for_user(self.configs_view(), notification.user_id as int),
                timestamp_millis as int,
            ),
    {
        let configs = match self.get_webhook_configs(notification.user_id) {
            Ok(cs) => cs,
            Err(_) => Vec::new(),
        };
        let mut out: Vec<WebhookDelivery> = Vec::new();
        let n = configs.len();
        for i in 0..n
            invariant
                n == configs.len(),
                configs.deep_view() == spec_enabled_for_user(
                    self.configs_view(),
                    notification.user_id as int,
                ),
                out.deep_view() == spec_fan_out(
                    *notification,
                    configs.deep_view().take(i as int),
                    timestamp_millis as int,
                ),
                0 <= timestamp_millis <= MAX_TIMESTAMP_MILLIS,
        {
            proof {
                lemma_fan_out_take(
                    *notification,
                    configs.deep_view(),
                    timestamp_millis as int,
                    i as int,
                );
            }
            match self.send_webhook(notification, &configs[i], timestamp_millis) {
                Some(d) => {
                    let ghost prev = out.deep_view();
                    let ghost dv = d@;
                    out.push(d);
                    proof {
                        assert(out.deep_view() =~= prev.push(dv));
                    }
                },
                None => {},
            }
        }
        proof {
            assert(configs.deep_view().take(n as int) =~= configs.deep_view());
        }
        out
    }

    /// Replace the row carrying the argument's id, provided it belongs to
    /// the argument's user: ownership is checked, a row of another user is
    /// never touched. Returns the updated row, or `ConfigNotFound` with
    /// the store unchanged.
    pub fn update_webhook_config(&mut self, config: WebhookConfig) -> (r: Result<
        WebhookConfig,
        NotificationError,
    >)
        requires
            old(self).wf(),
        ensures
            final(self).wf(),
            (r is Ok) <==> exists|i: int|
                0 <= i < old(self).configs_view().len() && old(self).configs_view()[i].id
                    == config.id as int && #[trigger] old(self).configs_view()[i].user_id
                    == config.user_id as int,
            r is Ok ==> forall|i: int|
                0 <= i < old(self).configs_view().len() && old(self).configs_view()[i].id
                    == config.id as int && #[trigger] old(self).configs_view()[i].user_id
                    == config.user_id as int ==> final(self).configs_view() == old(
                    self,
                ).configs_view().update(i, config@),
            r is Ok ==> r->Ok_0@ == config@,
            r is Err ==> final(self).configs_view() == old(self).configs_view() && r->Err_0
                == NotificationError::ConfigNotFound,
            final(self).spec_next_id() == old(self).spec_next_id(),
    {
        let n = self.configs.len();
        for i in 0..n
            invariant
                n == self.configs.len(),
                *self == *old(self),
                old(self).wf(),
                forall|j: int|
                    0 <= j < i ==> !(self.configs_view()[j].id == config.id as int
                        && #[trigger] self.configs_view()[j].user_id == config.user_id as int),
        {
            if self.configs[i].id == config.id && self.configs[i].user_id == config.user_id {
                proof {
                    assert(old(self).configs_view()[i as int].id == config.id as int && old(
                        self,
                    ).configs_view()[i as int].user_id == config.user_id as int);
                    assert forall|k: int|
                        0 <= k < old(self).configs_view().len() && old(self).configs_view()[k].id
                            == config.id as int && #[trigger] old(
                            self,
                        ).configs_view()[k].user_id == config.user_id as int implies k
                        == i as int by {
                        if k < i as int {
                            assert(old(self).configs_view()[k].id != old(
                                self,
                            ).configs_view()[i as int].id);
                        } else if k > i as int {
                            assert(old(self).configs_view()[i as int].id != old(
                                self,
                            ).configs_view()[k].id);
                        }
                    }
                }
                let stored = clone_config(&config);
                self.configs.set(i, stored);
                proof {
                    assert(self.configs_view() =~= old(self).configs_view().update(
                        i as int,
                        config@,
                    ));
                }
                return Ok(config);
            }
        }
        Err(NotificationError::ConfigNotFound)
    }

    /// Remove the row carrying this id, provided it belongs to this user:
    /// ownership is checked, a row of another user is never removed.
    /// Returns `ConfigNotFound` with the store unchanged otherwise.
    pub fn delete_webhook_config(&mut self, id: i32, user_id: i32) -> (r: Result<
        (),
        NotificationError,
    >)
        requires
            old(self).wf(),
        ensures
            final(self).wf(),
            (r is Ok) <==> exists|i: int|
                0 <= i < old(self).configs_view().len() && old(self).configs_view()[i].id
                    == id as int && #[trigger] old(self).configs_view()[i].user_id
                    == user_id as int,
            r is Ok ==> forall|i: int|
                0 <= i < old(self).configs_view().len() && old(self).configs_view()[i].id
                    == id as int && #[trigger] old(self).configs_view()[i].user_id
                    == user_id as int ==> final(self).configs_view() == old(
                    self,
                ).configs_view().remove(i),
            r is Err ==> final(self).configs_view() == old(self).configs_view() && r->Err_0
                == NotificationError::ConfigNotFound,
            final(self).spec_next_id() == old(self).spec_next_id(),
    {
        let n = self.configs.len();
        for i in 0..n
            invariant
                n == self.configs.len(),
                *self == *old(self),
                old(self).wf(),
                forall|j: int|
                    0 <= j < i ==> !(self.configs_view()[j].id == id as int
                        && #[trigger] self.configs_view()[j].user_id == user_id as int),
        {
            if self.configs[i].id == id && self.configs[i].user_id == user_id {
                proof {
                    assert(old(self).configs_view()[i as int].id == id as int && old(
                        self,
                    ).configs_view()[i as int].user_id == user_id as int);
                    assert forall|k: int|
                        0 <= k < old(self).configs_view().len() && old(self).configs_view()[k].id
                            == id as int && #[trigger] old(self).configs_view()[k].user_id
                            == user_id as int implies k == i as int by {
                        if k < i as int {
                            assert(old(self).configs_view()[k].id != old(
                                self,
                            ).configs_view()[i as int].id);
                        } else if k > i as int {
                            assert(old(self).configs_view()[i as int].id != old(
                                self,
                            ).configs_view()[k].id);
                        }
                    }
                }
                self.configs.remove(i);
                proof {
                    assert(self.configs_view() =~= old(self).configs_view().remove(i as int));
                    old(self).configs_view().remove_ensures(i as int);
                }
                return Ok(());
            }
        }
        Err(NotificationError::ConfigNotFound)
    }
}

} // verus!
