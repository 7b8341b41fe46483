//! The instant at which a row is created.

use vstd::prelude::*;

verus! {

/// `chrono::Utc::now`, read through `DateTime::timestamp_micros` as whole
/// microseconds since the Unix epoch. Nothing is claimed of the instant.
#[verifier::external_body]
pub(crate) fn now_micros() -> i64 {
    chrono::Utc::now().timestamp_micros()
}

} // verus!
