use hmac::Mac;
use notify_core::crypto::{sign_payload, verify_signature};
use notify_core::webhook::{delivery_outcome, subscribes_to};
use notify_core::{
    JsonValue, Notification, NotificationError, NotificationType, WebhookConfig, WebhookManager,
};

fn sample(user_id: i32, ty: NotificationType) -> Notification {
    Notification {
        id: None,
        user_id,
        notification_type: ty,
        title: "t".to_string(),
        message: "m".to_string(),
        metadata: JsonValue::Null,
        created_at: 1_700_000_000_000,
        read_at: None,
    }
}

fn config(user_id: i32, enabled: bool, types: &[&str]) -> WebhookConfig {
    WebhookConfig {
        id: 0,
        user_id,
        url: "https://example.com/hook".to_string(),
        secret: "SECRET-REDACTED".to_string(),
        enabled,
        notification_types: types.iter().map(|t| t.to_string()).collect(),
    }
}

#[test]
fn signature_matches_reference_hmac_vector() {
    // RFC 4231-style check against a direct computation with the hmac crate
    let sig = sign_payload("key", "The quick brown fox jumps over the lazy dog");
    let mut mac = hmac::Hmac::<sha2::Sha256>::new_from_slice(b"key").unwrap();
    mac.update(b"The quick brown fox jumps over the lazy dog");
    let expected = hex::encode(mac.finalize().into_bytes());
    assert_eq!(sig, expected);
    assert_eq!(sig, "f7bc83f430538424b13298e6aa6fb143ef4d59a14946175997479dbc2d1a3cd8");
}

#[test]
fn recomputing_signature_over_received_body_verifies() {
    let n = sample(7, NotificationType::PriceAlert);
    let mgr = WebhookManager::new();
    let c = config(7, true, &["PriceAlert"]);
    let d = mgr.send_webhook(&n, &c, 1_700_000_000_000).unwrap();

    // the receiver's check: HMAC over the received body with the shared secret
    assert!(verify_signature(&c.secret, &d.body, &d.signature));
    let mut mac = hmac::Hmac::<sha2::Sha256>::new_from_slice(c.secret.as_bytes()).unwrap();
    mac.update(d.body.as_bytes());
    assert_eq!(d.signature, hex::encode(mac.finalize().into_bytes()));

    // a tampered body or a wrong secret does not verify
    let tampered = format!("{} ", d.body);
    assert!(!verify_signature(&c.secret, &tampered, &d.signature));
    assert!(!verify_signature("other-secret", &d.body, &d.signature));
}

#[test]
fn disabled_config_gets_no_attempt_until_enabled() {
    let n = sample(7, NotificationType::PriceAlert);
    let mgr = WebhookManager::new();
    let mut c = config(7, false, &["PriceAlert"]);
    assert!(mgr.send_webhook(&n, &c, 0).is_none());

    c.enabled = true;
    let attempts = [mgr.send_webhook(&n, &c, 0)];
    assert_eq!(attempts.iter().filter(|a| a.is_some()).count(), 1);
}

#[test]
fn config_not_subscribed_to_type_gets_no_attempt() {
    let n = sample(7, NotificationType::SystemAlert);
    let mgr = WebhookManager::new();
    let c = config(7, true, &["PriceAlert", "TradeExecution"]);
    assert!(!subscribes_to(&c, NotificationType::SystemAlert));
    assert!(mgr.send_webhook(&n, &c, 0).is_none());
    assert!(subscribes_to(&c, NotificationType::TradeExecution));
}

#[test]
fn create_assigns_fresh_ids_and_get_filters_enabled_rows_of_user() {
    let mut mgr = WebhookManager::new();
    let a = mgr.create_webhook_config(config(7, true, &["PriceAlert"])).unwrap();
    let b = mgr.create_webhook_config(config(7, false, &["PriceAlert"])).unwrap();
    let c = mgr.create_webhook_config(config(8, true, &["PriceAlert"])).unwrap();
    assert_eq!(a.id, 1);
    assert_eq!(b.id, 2);
    assert_eq!(c.id, 3);

    let for7 = mgr.get_webhook_configs(7).unwrap();
    assert_eq!(for7.len(), 1);
    assert_eq!(for7[0].id, 1);

    let for9 = mgr.get_webhook_configs(9).unwrap();
    assert!(for9.is_empty());
}

#[test]
fn update_requires_ownership() {
    let mut mgr = WebhookManager::new();
    let created = mgr.create_webhook_config(config(7, true, &["PriceAlert"])).unwrap();

    // the owner can update
    let mut mine = config(7, true, &["SystemAlert"]);
    mine.id = created.id;
    mine.url = "https://example.com/other".to_string();
    let updated = mgr.update_webhook_config(mine).unwrap();
    assert_eq!(updated.url, "https://example.com/other");
    let rows = mgr.get_webhook_configs(7).unwrap();
    assert_eq!(rows[0].notification_types, vec!["SystemAlert".to_string()]);

    // another user aiming at the same id must fail, not touch the row
    let mut theirs = config(8, false, &[]);
    theirs.id = created.id;
    let denied = mgr.update_webhook_config(theirs);
    assert_eq!(denied.unwrap_err(), NotificationError::ConfigNotFound);
    assert_eq!(mgr.get_webhook_configs(7).unwrap().len(), 1);
}

#[test]
fn delete_requires_ownership() {
    let mut mgr = WebhookManager::new();
    let created = mgr.create_webhook_config(config(7, true, &["PriceAlert"])).unwrap();

    let denied = mgr.delete_webhook_config(created.id, 8);
    assert_eq!(denied.unwrap_err(), NotificationError::ConfigNotFound);
    assert_eq!(mgr.get_webhook_configs(7).unwrap().len(), 1);

    mgr.delete_webhook_config(created.id, 7).unwrap();
    assert!(mgr.get_webhook_configs(7).unwrap().is_empty());
    let missing = mgr.delete_webhook_config(created.id, 7);
    assert_eq!(missing.unwrap_err(), NotificationError::ConfigNotFound);
}

#[test]
fn outcome_is_success_exactly_for_2xx() {
    assert!(delivery_outcome(200).is_ok());
    assert!(delivery_outcome(204).is_ok());
    assert!(delivery_outcome(299).is_ok());
    assert_eq!(delivery_outcome(199).unwrap_err(), NotificationError::DeliveryFailure(199));
    assert_eq!(delivery_outcome(301).unwrap_err(), NotificationError::DeliveryFailure(301));
    assert_eq!(delivery_outcome(404).unwrap_err(), NotificationError::DeliveryFailure(404));
    assert_eq!(delivery_outcome(500).unwrap_err(), NotificationError::DeliveryFailure(500));
    assert_eq!(delivery_outcome(0).unwrap_err(), NotificationError::DeliveryFailure(0));
}

#[test]
fn list_webhooks_shows_disabled_rows_of_the_owner_only() {
    let mut mgr = WebhookManager::new();
    mgr.create_webhook_config(config(7, true, &["PriceAlert"])).unwrap();
    mgr.create_webhook_config(config(7, false, &["SystemAlert"])).unwrap();
    mgr.create_webhook_config(config(8, true, &["PriceAlert"])).unwrap();

    // management sees both rows of user 7, the disabled one included
    let all7 = mgr.list_webhooks(7).unwrap();
    assert_eq!(all7.len(), 2);
    assert_eq!(all7[0].id, 1);
    assert_eq!(all7[1].id, 2);
    assert!(!all7[1].enabled);

    // delivery sees only the enabled row
    assert_eq!(mgr.get_webhook_configs(7).unwrap().len(), 1);
    assert!(mgr.list_webhooks(9).unwrap().is_empty());
}

#[test]
fn subscription_check_on_empty_type_list_is_false() {
    let c = config(7, true, &[]);
    assert!(!subscribes_to(&c, NotificationType::PriceAlert));
    let mgr = WebhookManager::new();
    let n = sample(7, NotificationType::PriceAlert);
    assert!(mgr.send_webhook(&n, &c, 0).is_none());
}

#[test]
fn signature_of_empty_key_and_body_matches_direct_computation() {
    let sig = sign_payload("", "");
    let mac = hmac::Hmac::<sha2::Sha256>::new_from_slice(b"").unwrap();
    assert_eq!(sig, hex::encode(mac.finalize().into_bytes()));
    assert_eq!(sig.len(), 64);
    assert!(verify_signature("", "", &sig));
}
