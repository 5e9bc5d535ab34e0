//! Identifiers and timestamps supplied by the host.

use vstd::prelude::*;

verus! {

/// Relies on uuid::Uuid::new_v4 and its hyphenated Display form: a fresh
/// random identifier, rendered as 36 characters. Nothing else is assumed of
/// the value. new_v4 aborts when the host's random source fails.
#[verifier::external_body]
pub(crate) fn fresh_id() -> (r: String)
    ensures
        r@.len() == 36,
{
    uuid::Uuid::new_v4().to_string()
}

/// Relies on chrono::Utc::now and timestamp_millis: the current time as
/// milliseconds since the Unix epoch. Nothing is assumed of the value.
/// Utc::now aborts on a host clock set before the epoch.
#[verifier::external_body]
pub(crate) fn now_millis() -> (r: i64) {
    chrono::Utc::now().timestamp_millis()
}

} // verus!
