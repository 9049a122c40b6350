use notify_core::json::{clone_json, to_json_string};
use notify_core::wire::{notification_json, socket_frame, webhook_body};
use notify_core::{JsonValue, Notification, NotificationType};

fn meta() -> JsonValue {
    JsonValue::Obj(vec![
        ("pair".to_string(), JsonValue::Str("BTC/USD".to_string())),
        ("threshold".to_string(), JsonValue::Int(100000)),
        ("crossed".to_string(), JsonValue::Bool(true)),
        (
            "points".to_string(),
            JsonValue::Arr(vec![JsonValue::Int(-3), JsonValue::Int(0), JsonValue::Null]),
        ),
    ])
}

#[test]
fn scalars_encode_exactly() {
    assert_eq!(to_json_string(&JsonValue::Null), "null");
    assert_eq!(to_json_string(&JsonValue::Bool(true)), "true");
    assert_eq!(to_json_string(&JsonValue::Bool(false)), "false");
    assert_eq!(to_json_string(&JsonValue::Int(0)), "0");
    assert_eq!(to_json_string(&JsonValue::Int(-7)), "-7");
    assert_eq!(to_json_string(&JsonValue::Int(i64::MAX)), "9223372036854775807");
    assert_eq!(to_json_string(&JsonValue::Int(i64::MIN)), "-9223372036854775808");
}

#[test]
fn strings_escape_quotes_backslashes_and_controls() {
    let s = JsonValue::Str("say \"hi\"\\\n\tplease".to_string());
    assert_eq!(to_json_string(&s), "\"say \\\"hi\\\"\\\\\\u000a\\u0009please\"");
    assert_eq!(to_json_string(&JsonValue::Str(String::new())), "\"\"");
    assert_eq!(to_json_string(&JsonValue::Str("é æ 漢".to_string())), "\"é æ 漢\"");
}

#[test]
fn containers_encode_compactly_in_order() {
    assert_eq!(to_json_string(&JsonValue::Arr(vec![])), "[]");
    assert_eq!(to_json_string(&JsonValue::Obj(vec![])), "{}");
    let expected = "{\"pair\":\"BTC/USD\",\"threshold\":100000,\"crossed\":true,\
                    \"points\":[-3,0,null]}";
    assert_eq!(to_json_string(&meta()), expected);
}

#[test]
fn clone_json_is_a_deep_equal_copy() {
    let v = meta();
    let c = clone_json(&v);
    assert_eq!(c, v);
    assert_eq!(to_json_string(&c), to_json_string(&v));
}

fn sample() -> Notification {
    Notification {
        id: Some(12),
        user_id: 7,
        notification_type: NotificationType::PriceAlert,
        title: "BTC alert".to_string(),
        message: "crossed 100k".to_string(),
        metadata: JsonValue::Obj(vec![("pair".to_string(), JsonValue::Str("BTC/USD".to_string()))]),
        created_at: 1_700_000_000_000,
        read_at: None,
    }
}

#[test]
fn notification_document_has_every_field_in_order() {
    let n = sample();
    let expected = "{\"id\":12,\"user_id\":7,\"notification_type\":\"PriceAlert\",\
                    \"title\":\"BTC alert\",\"message\":\"crossed 100k\",\
                    \"metadata\":{\"pair\":\"BTC/USD\"},\
                    \"created_at\":1700000000000,\"read_at\":null}";
    assert_eq!(to_json_string(&notification_json(&n)), expected);
}

#[test]
fn webhook_body_wraps_notification_with_rfc3339_timestamp() {
    let n = sample();
    let body = webhook_body(&n, 0);
    let expected = format!(
        "{{\"notification\":{},\"timestamp\":\"1970-01-01T00:00:00+00:00\"}}",
        to_json_string(&notification_json(&n))
    );
    assert_eq!(body, expected);

    // the timestamp text is chrono's rendering of the same instant
    let ts = 1_700_000_000_000i64;
    let body2 = webhook_body(&n, ts);
    let rendered = chrono::DateTime::<chrono::Utc>::from_timestamp_millis(ts)
        .unwrap()
        .to_rfc3339();
    assert!(body2.contains(&format!("\"timestamp\":\"{}\"", rendered)));
}

#[test]
fn socket_frame_is_the_typed_envelope() {
    let n = sample();
    let frame = socket_frame(&n);
    let expected = format!(
        "{{\"message_type\":\"notification\",\"payload\":{}}}",
        to_json_string(&notification_json(&n))
    );
    assert_eq!(frame, expected);
}
