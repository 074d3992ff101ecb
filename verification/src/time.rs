//! The wall clock and timestamp rendering. The current instant comes from
//! the environment and is passed into the core as a plain epoch value; the
//! ISO-8601 rendering of an epoch value is a fixed function of it.

use vstd::prelude::*;

use crate::models::MAX_EPOCH_SECONDS;

verus! {

/// Relies on chrono's `Utc::now` (and `DateTime::timestamp` to read it as
/// seconds): the current instant, which nothing can be promised about.
#[verifier::external_body]
pub fn now_epoch_seconds() -> i64 {
    chrono::Utc::now().timestamp()
}

/// The RFC 3339 rendering of an epoch instant in UTC, a function of the
/// instant alone.
pub uninterp spec fn rfc3339_of(t: i64) -> Seq<char>;

/// Relies on chrono's `DateTime::to_rfc3339` (with `DateTime::from_timestamp`
/// to build the UTC instant, which is `Some` for any epoch value in our
/// range): the rendering depends on the instant alone.
#[verifier::external_body]
pub fn rfc3339_utc(t: i64) -> (r: String)
    requires
        0 <= t <= MAX_EPOCH_SECONDS,
    ensures
        r@ == rfc3339_of(t),
{
    chrono::DateTime::<chrono::Utc>::from_timestamp(t, 0).unwrap().to_rfc3339()
}

} // verus!
