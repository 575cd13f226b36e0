//! Wall-clock access for token-expiry computation.

use vstd::prelude::*;

verus! {

/// Relies on `chrono::Utc::now().timestamp()`: the current UTC wall-clock
/// time as whole non-leap seconds since the Unix epoch. Nothing is assumed of
/// the value — the clock can say anything.
#[verifier::external_body]
pub(crate) fn now_unix_seconds() -> i64 {
    chrono::Utc::now().timestamp()
}

} // verus!
