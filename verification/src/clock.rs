//! The one place where the library reads the time.

use vstd::prelude::*;

verus! {

/// The time of the call, in milliseconds since the start of 1970 in UTC:
/// `chrono::Utc::now`, read through `DateTime::timestamp_millis`. Nothing is
/// promised of the value: two calls may return anything, in any order.
#[verifier::external_body]
pub(crate) fn now_millis() -> (millis: i64) {
    chrono::Utc::now().timestamp_millis()
}

} // verus!
