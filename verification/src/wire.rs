//! The wire shapes of the subsystem: the notification document, the signed
//! webhook payload `{"notification":...,"timestamp":...}`, and the socket
//! envelope `{"message_type":"notification","payload":...}`.

use vstd::prelude::*;
use crate::clock::{format_rfc3339, rfc3339_of, MAX_TIMESTAMP_MILLIS};
use crate::json::{clone_json, json_text, obj_push, to_json_string, view_of_json_pairs, JsonValue, JsonView};
use crate::model::{spec_type_tag, Notification};

verus! {

/// An optional row id on the wire: the number, or null before persistence.
pub open spec fn spec_opt_i32_json(v: Option<i32>) -> JsonView {
    match v {
        Some(i) => JsonView::Int(i as int),
        None => JsonView::Null,
    }
}

/// An optional timestamp on the wire: milliseconds, or null while unset.
pub open spec fn spec_opt_i64_json(v: Option<i64>) -> JsonView {
    match v {
        Some(i) => JsonView::Int(i as int),
        None => JsonView::Null,
    }
}

/// The JSON document of a notification: every envelope field in a fixed
/// member order, timestamps as milliseconds since the Unix epoch.
pub open spec fn spec_notification_json(n: Notification) -> JsonView {
    JsonView::Obj(
        seq![
            ("id"@, spec_opt_i32_json(n.id)),
            ("user_id"@, JsonView::Int(n.user_id as int)),
            ("notification_type"@, JsonView::Str(spec_type_tag(n.notification_type))),
            ("title"@, JsonView::Str(n.title@)),
            ("message"@, JsonView::Str(n.message@)),
            ("metadata"@, n.metadata@),
            ("created_at"@, JsonView::Int(n.created_at as int)),
            ("read_at"@, spec_opt_i64_json(n.read_at)),
        ],
    )
}

/// The webhook payload document: the notification beside the delivery
/// timestamp, rendered RFC 3339.
pub open spec fn spec_payload_json(n: Notification, ts: int) -> JsonView {
    JsonView::Obj(
        seq![
            ("notification"@, spec_notification_json(n)),
            ("timestamp"@, JsonView::Str(rfc3339_of(ts))),
        ],
    )
}

/// The exact body bytes of a webhook POST; the signature is computed over
/// precisely this text.
pub open spec fn spec_webhook_body(n: Notification, ts: int) -> Seq<char> {
    json_text(spec_payload_json(n, ts))
}

/// The socket envelope document around a notification.
pub open spec fn spec_socket_json(n: Notification) -> JsonView {
    JsonView::Obj(
        seq![
            ("message_type"@, JsonView::Str("notification"@)),
            ("payload"@, spec_notification_json(n)),
        ],
    )
}

/// The exact frame text written to a live socket.
pub open spec fn spec_socket_frame(n: Notification) -> Seq<char> {
    json_text(spec_socket_json(n))
}

fn opt_i32_json(v: &Option<i32>) -> (r: JsonValue)
    ensures
        r@ == spec_opt_i32_json(*v),
{
    match v {
        Some(i) => JsonValue::Int(*i as i64),
        None => JsonValue::Null,
    }
}

fn opt_i64_json(v: &Option<i64>) -> (r: JsonValue)
    ensures
        r@ == spec_opt_i64_json(*v),
{
    match v {
        Some(i) => JsonValue::Int(*i),
        None => JsonValue::Null,
    }
}

/// The notification as a JSON document.
pub fn notification_json(n: &Notification) -> (j: JsonValue)
    ensures
        j@ == spec_notification_json(*n),
{
    let mut ps: Vec<(String, JsonValue)> = Vec::new();
    obj_push(&mut ps, "id", opt_i32_json(&n.id));
    obj_push(&mut ps, "user_id", JsonValue::Int(n.user_id as i64));
    obj_push(
        &mut ps,
        "notification_type",
        JsonValue::Str(String::from_str(n.notification_type.type_tag())),
    );
    obj_push(&mut ps, "title", JsonValue::Str(n.title.clone()));
    obj_push(&mut ps, "message", JsonValue::Str(n.message.clone()));
    obj_push(&mut ps, "metadata", clone_json(&n.metadata));
    obj_push(&mut ps, "created_at", JsonValue::Int(n.created_at));
    obj_push(&mut ps, "read_at", opt_i64_json(&n.read_at));
    let j = JsonValue::Obj(ps);
    proof {
        assert(view_of_json_pairs(j->Obj_0@) =~= seq![
            ("id"@, spec_opt_i32_json(n.id)),
            ("user_id"@, JsonView::Int(n.user_id as int)),
            ("notification_type"@, JsonView::Str(spec_type_tag(n.notification_type))),
            ("title"@, JsonView::Str(n.title@)),
            ("message"@, JsonView::Str(n.message@)),
            ("metadata"@, n.metadata@),
            ("created_at"@, JsonView::Int(n.created_at as int)),
            ("read_at"@, spec_opt_i64_json(n.read_at)),
        ]);
        assert(j@ =~= spec_notification_json(*n));
    }
    j
}

/// The body of a webhook POST for a notification delivered at
/// `timestamp_millis`.
pub fn webhook_body(n: &Notification, timestamp_millis: i64) -> (r: String)
    requires
        0 <= timestamp_millis <= MAX_TIMESTAMP_MILLIS,
    ensures
        r@ == spec_webhook_body(*n, timestamp_millis as int),
{
    let ts = format_rfc3339(timestamp_millis);
    let mut ps: Vec<(String, JsonValue)> = Vec::new();
    obj_push(&mut ps, "notification", notification_json(n));
    obj_push(&mut ps, "timestamp", JsonValue::Str(ts));
    let j = JsonValue::Obj(ps);
    proof {
        assert(view_of_json_pairs(j->Obj_0@) =~= seq![
            ("notification"@, spec_notification_json(*n)),
            ("timestamp"@, JsonView::Str(rfc3339_of(timestamp_millis as int))),
        ]);
        assert(j@ =~= spec_payload_json(*n, timestamp_millis as int));
    }
    to_json_string(&j)
}

/// The frame pushed to a live socket for a notification.
pub fn socket_frame(n: &Notification) -> (r: String)
    ensures
        r@ == spec_socket_frame(*n),
{
    let mut ps: Vec<(String, JsonValue)> = Vec::new();
    obj_push(&mut ps, "message_type", JsonValue::Str(String::from_str("notification")));
    obj_push(&mut ps, "payload", notification_json(n));
    let j = JsonValue::Obj(ps);
    proof {
        assert(view_of_json_pairs(j->Obj_0@) =~= seq![
            ("message_type"@, JsonView::Str("notification"@)),
            ("payload"@, spec_notification_json(*n)),
        ]);
        assert(j@ =~= spec_socket_json(*n));
    }
    to_json_string(&j)
}

} // verus!

verus! {

} // verus!
