use notify_core::crypto::verify_signature;
use notify_core::dispatch::{dispatch_next, dispatch_notification};
use notify_core::webhook::delivery_outcome;
use notify_core::{
    JsonValue, Notification, NotificationError, NotificationQueue, NotificationType,
    WebSocketServer, WebhookConfig, WebhookManager,
};

fn sample(user_id: i32, ty: NotificationType) -> Notification {
    Notification {
        id: None,
        user_id,
        notification_type: ty,
        title: "BTC".to_string(),
        message: "over 100k".to_string(),
        metadata: JsonValue::Null,
        created_at: 1_700_000_000_000,
        read_at: None,
    }
}

fn config(user_id: i32, url: &str, enabled: bool, types: &[&str]) -> WebhookConfig {
    WebhookConfig {
        id: 0,
        user_id,
        url: url.to_string(),
        secret: "SECRET-REDACTED".to_string(),
        enabled,
        notification_types: types.iter().map(|t| t.to_string()).collect(),
    }
}

#[test]
fn broadcast_without_connection_is_a_silent_no_op() {
    let server = WebSocketServer::new();
    let n = sample(7, NotificationType::PriceAlert);
    assert!(server.broadcast_notification(&n).is_none());
}

#[test]
fn second_registration_supersedes_the_first() {
    let mut server = WebSocketServer::new();
    server.register(7, 101);
    server.register(7, 202);
    let n = sample(7, NotificationType::PriceAlert);
    let (conn, _frame) = server.broadcast_notification(&n).unwrap();
    assert_eq!(conn, 202);

    server.unregister(7);
    assert!(server.broadcast_notification(&n).is_none());
    // unregistering an absent user is a no-op, not an error
    server.unregister(7);
}

#[test]
fn draining_the_queue_delivers_one_post_and_one_frame() {
    // one enabled webhook subscribed to PriceAlert, one live socket for user 7
    let mut queue = NotificationQueue::new();
    let mut manager = WebhookManager::new();
    let mut server = WebSocketServer::new();
    manager
        .create_webhook_config(config(7, "https://example.com/hook", true, &["PriceAlert"]))
        .unwrap();
    server.register(7, 55);
    queue.push_notification(sample(7, NotificationType::PriceAlert)).unwrap();

    let (n, outcome) = dispatch_next(
        &mut queue,
        NotificationType::PriceAlert,
        &manager,
        &server,
        1_700_000_000_000,
    )
    .unwrap();
    assert_eq!(n.user_id, 7);
    assert_eq!(outcome.webhook_deliveries.len(), 1);
    let d = &outcome.webhook_deliveries[0];
    assert_eq!(d.url, "https://example.com/hook");
    assert!(verify_signature("SECRET-REDACTED", &d.body, &d.signature));

    let (conn, frame) = outcome.socket_push.unwrap();
    assert_eq!(conn, 55);
    assert!(frame.starts_with("{\"message_type\":\"notification\",\"payload\":"));

    // the queue is drained; the next poll finds nothing
    assert!(dispatch_next(&mut queue, NotificationType::PriceAlert, &manager, &server, 0)
        .is_none());
}

#[test]
fn failure_of_one_delivery_leaves_the_other_sink_and_sibling_intact() {
    // two enabled configs for the same user, one pointing at an unreachable URL
    let mut manager = WebhookManager::new();
    let mut server = WebSocketServer::new();
    manager
        .create_webhook_config(config(7, "https://good.example.com/hook", true, &["PriceAlert"]))
        .unwrap();
    manager
        .create_webhook_config(config(
            7,
            "https://unreachable.invalid/hook",
            true,
            &["PriceAlert"],
        ))
        .unwrap();
    server.register(7, 9);

    let n = sample(7, NotificationType::PriceAlert);
    let outcome = dispatch_notification(&n, &manager, &server, 1_700_000_000_000);

    // both POSTs are prepared independently
    assert_eq!(outcome.webhook_deliveries.len(), 2);
    // the reachable one succeeds, the unreachable one is a DeliveryFailure;
    // status 0 stands for no HTTP response at all
    let statuses = [200u16, 0u16];
    let results: Vec<Result<(), NotificationError>> =
        statuses.iter().map(|s| delivery_outcome(*s)).collect();
    assert!(results[0].is_ok());
    assert_eq!(results[1], Err(NotificationError::DeliveryFailure(0)));
    assert_eq!(results.iter().filter(|r| r.is_err()).count(), 1);

    // the socket sink saw the notification regardless
    let (conn, _frame) = outcome.socket_push.unwrap();
    assert_eq!(conn, 9);
}

#[test]
fn dispatch_does_not_touch_other_queues() {
    let mut queue = NotificationQueue::new();
    let manager = WebhookManager::new();
    let server = WebSocketServer::new();
    queue.push_notification(sample(1, NotificationType::SystemAlert)).unwrap();

    let r = dispatch_next(&mut queue, NotificationType::PriceAlert, &manager, &server, 0);
    assert!(r.is_none());
    assert_eq!(queue.get_queue_length(NotificationType::SystemAlert), 1);
}
