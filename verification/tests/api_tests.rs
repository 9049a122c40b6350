use notify_core::api::{is_valid_exchange, validate_permissions, ApiResponse};
use notify_core::{NotificationPreference, UpdatePreferencesRequest};

#[test]
fn exchange_names_are_matched_case_insensitively() {
    assert!(is_valid_exchange("binance"));
    assert!(is_valid_exchange("Binance"));
    assert!(is_valid_exchange("KUCOIN"));
    assert!(is_valid_exchange("ByBit"));
    assert!(!is_valid_exchange("bitfinex"));
    assert!(!is_valid_exchange(""));
}

#[test]
fn permissions_must_all_be_supported() {
    let ok = vec!["read".to_string(), "trade".to_string(), "withdraw".to_string()];
    assert!(validate_permissions(&ok));
    assert!(validate_permissions(&vec![]));
    let bad = vec!["read".to_string(), "transfer".to_string()];
    assert!(!validate_permissions(&bad));
    // case matters here: permissions are exact names
    assert!(!validate_permissions(&vec!["Read".to_string()]));
}

#[test]
fn api_response_constructors_fill_the_envelope() {
    let ok: ApiResponse<i32> = ApiResponse::success(5);
    assert_eq!(ok.status, "success");
    assert_eq!(ok.message, "Operation successful");
    assert_eq!(ok.data, Some(5));

    let err: ApiResponse<i32> = ApiResponse::error("boom".to_string());
    assert_eq!(err.status, "error");
    assert_eq!(err.message, "boom");
    assert_eq!(err.data, None);
}

#[test]
fn preference_update_merges_only_named_switches() {
    let before = NotificationPreference {
        user_id: 7,
        email_enabled: true,
        telegram_enabled: false,
        whatsapp_enabled: false,
        price_alerts_enabled: true,
        system_alerts_enabled: true,
        created_at: 100,
        updated_at: 100,
    };
    let req = UpdatePreferencesRequest {
        email_enabled: Some(false),
        telegram_enabled: None,
        whatsapp_enabled: Some(true),
        price_alerts_enabled: None,
        system_alerts_enabled: None,
    };
    let after = before.apply_update(&req, 200);
    assert_eq!(after.user_id, 7);
    assert!(!after.email_enabled);
    assert!(!after.telegram_enabled);
    assert!(after.whatsapp_enabled);
    assert!(after.price_alerts_enabled);
    assert!(after.system_alerts_enabled);
    assert_eq!(after.created_at, 100);
    assert_eq!(after.updated_at, 200);
}
