//! Wall-clock readings and their RFC 3339 rendering.
//!
//! The subsystem stamps notifications and payload envelopes with UTC
//! timestamps held as milliseconds since the Unix epoch.

use vstd::prelude::*;

verus! {

/// The largest timestamp the payload envelope will render:
/// 9999-12-31T23:59:59.999Z in milliseconds since the Unix epoch,
/// comfortably inside chrono's representable range.
pub const MAX_TIMESTAMP_MILLIS: i64 = 253_402_300_799_999;

/// The RFC 3339 text of a UTC timestamp in milliseconds: a function of the
/// value alone, left without a definition here; the rendering is chrono's.
pub uninterp spec fn rfc3339_of(millis: int) -> Seq<char>;

/// Relies on `chrono::Utc::now` and `DateTime::timestamp_millis`: a reading
/// of the wall clock; nothing is assumed of the value.
#[verifier::external_body]
pub(crate) fn now_millis() -> i64 {
    chrono::Utc::now().timestamp_millis()
}

/// Relies on `chrono::DateTime::<Utc>::from_timestamp_millis` and
/// `DateTime::to_rfc3339`: for a value in the documented range the
/// conversion returns `Some`, and the rendering depends on the timestamp
/// alone (the zone is fixed to UTC).
#[verifier::external_body]
pub(crate) fn format_rfc3339(millis: i64) -> (r: String)
    requires
        0 <= millis <= MAX_TIMESTAMP_MILLIS,
    ensures
        r@ == rfc3339_of(millis as int),
{
    let dt = chrono::DateTime::<chrono::Utc>::from_timestamp_millis(millis)
        .expect("timestamp is within chrono's range");
    dt.to_rfc3339()
}

} // verus!
