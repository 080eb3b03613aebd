//! The two ambient facts the engine needs from its surroundings — a fresh
//! random identifier and the current time — obtained through outside
//! crates. Nothing is assumed of either value: every caller states what
//! holds whatever came back.

use vstd::prelude::*;

verus! {

/// Relies on `uuid::Uuid::new_v4` for a random version-4 UUID, carried as
/// its 128-bit value (`Uuid::as_u128`). The result is random; nothing is
/// promised of it.
#[verifier::external_body]
pub(crate) fn fresh_id() -> u128 {
    uuid::Uuid::new_v4().as_u128()
}

/// Relies on `chrono::Utc::now` for the current time, carried as whole
/// milliseconds since the Unix epoch (`DateTime::timestamp_millis`). The
/// result depends on the clock; nothing is promised of it.
#[verifier::external_body]
pub(crate) fn now_millis() -> i64 {
    chrono::Utc::now().timestamp_millis()
}

/// The current time clamped to an unsigned millisecond count: a clock
/// reading before the epoch counts as the epoch itself.
pub(crate) fn now_ms_clamped() -> (r: u64)
{
    let t = now_millis();
    if t >= 0 {
        t as u64
    } else {
        0
    }
}

} // verus!
