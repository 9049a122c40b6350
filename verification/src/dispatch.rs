//! The dispatcher's decision step: what one popped notification produces
//! for its two independent sinks — the signed webhook POSTs and the socket
//! push. Performing the network calls, and the poll loop around this step,
//! live outside the library; a failure of one prepared delivery never
//! reaches its siblings here, because each is its own value.

use vstd::prelude::*;
use crate::clock::MAX_TIMESTAMP_MILLIS;
use crate::model::{Notification, NotificationType};
use crate::queue::NotificationQueue;
use crate::webhook::{spec_enabled_for_user, spec_fan_out, WebhookDelivery, WebhookManager};
use crate::websocket::WebSocketServer;
use crate::wire::spec_socket_frame;

verus! {

/// Everything one notification produces: one prepared POST per receiving
/// webhook subscription, and the socket push when the recipient is
/// connected. The two sinks are independent; neither blocks the other.
pub struct DispatchOutcome {
    pub webhook_deliveries: Vec<WebhookDelivery>,
    pub socket_push: Option<(u64, String)>,
}

/// Prepare both sinks' work for one notification.
pub fn dispatch_notification(
    notification: &Notification,
    manager: &WebhookManager,
    server: &WebSocketServer,
    timestamp_millis: i64,
) -> (r: DispatchOutcome)
    requires
        0 <= timestamp_millis <= MAX_TIMESTAMP_MILLIS,
    ensures
        r.webhook_deliveries.deep_view() == spec_fan_out(
            *notification,
            spec_enabled_for_user(manager.configs_view(), notification.user_id as int),
            timestamp_millis as int,
        ),
        (r.socket_push is Some) <==> server.connections().contains_key(notification.user_id),
        r.socket_push is Some ==> (r.socket_push->0).0 == server.connections()[notification.user_id]
            && (r.socket_push->0).1@ == spec_socket_frame(*notification),
{
    DispatchOutcome {
        webhook_deliveries: manager.prepare_deliveries(notification, timestamp_millis),
        socket_push: server.broadcast_notification(notification),
    }
}

/// One consumer poll: take the oldest entry of a category's queue, if any,
/// and prepare the work for both sinks. Other categories' queues are
/// untouched.
pub fn dispatch_next(
    queue: &mut NotificationQueue,
    notification_type: NotificationType,
    manager: &WebhookManager,
    server: &WebSocketServer,
    timestamp_millis: i64,
) -> (r: Option<(Notification, DispatchOutcome)>)
    requires
        0 <= timestamp_millis <= MAX_TIMESTAMP_MILLIS,
    ensures
        old(queue).queue(notification_type).len() == 0 ==> r is None && final(queue).queue(
            notification_type,
        ) == old(queue).queue(notification_type),
        old(queue).queue(notification_type).len() > 0 ==> {
            &&& r is Some
            &&& (r->0).0 == old(queue).queue(notification_type)[0]
            &&& final(queue).queue(notification_type) == old(queue).queue(
                notification_type,
            ).drop_first()
            &&& (r->0).1.webhook_deliveries.deep_view() == spec_fan_out(
                (r->0).0,
                spec_enabled_for_user(manager.configs_view(), (r->0).0.user_id as int),
                timestamp_millis as int,
            )
            &&& ((r->0).1.socket_push is Some) <==> server.connections().contains_key(
                (r->0).0.user_id,
            )
            &&& (r->0).1.socket_push is Some ==> ((r->0).1.socket_push->0).0
                == server.connections()[(r->0).0.user_id] && ((r->0).1.socket_push->0).1@
                == spec_socket_frame((r->0).0)
        },
        forall|t: NotificationType|
            t != notification_type ==> final(queue).queue(t) == old(queue).queue(t),
{
    match queue.pop_notification(notification_type) {
        Ok(Some(n)) => {
            let outcome = dispatch_notification(&n, manager, server, timestamp_millis);
            Some((n, outcome))
        },
        Ok(None) => None,
        Err(_) => None,
    }
}

} // verus!
