//! Expiring models: entities that carry an expiration timestamp and expose
//! an expiry predicate.

use vstd::prelude::*;

verus! {

/// Models that expire and are cleaned up automatically.
pub trait ExpiringModel {
    /// Whether the model is expired at the present moment. The clock decides
    /// the answer, so nothing is promised of it; [`expired_at_timestamp`]
    /// carries the contract for a given moment.
    fn is_expired(&self) -> bool;
}

/// Relies on chrono::Utc::now: the current Unix timestamp, in seconds. The
/// system clock decides the value, so nothing is promised of it.
#[verifier::external_body]
pub fn current_timestamp() -> (r: i64) {
    chrono::Utc::now().timestamp()
}

/// The expiry predicate at a given moment: expired once the moment lies
/// strictly after the expiration timestamp.
pub fn expired_at_timestamp(expires: i64, now: i64) -> (r: bool)
    ensures
        r == (now > expires),
{
    now > expires
}

} // verus!
