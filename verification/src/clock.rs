//! Wall-clock time, read from outside. Every function whose behaviour
//! depends on the time takes the reading as an argument; this module only
//! obtains it.

use vstd::prelude::*;

verus! {

/// Relies on chrono::Utc::now, read back through DateTime::timestamp_millis:
/// the current wall-clock time in milliseconds since the Unix epoch. The
/// clock promises nothing about the value, so nothing is stated of it.
#[verifier::external_body]
pub(crate) fn now_millis() -> i64 {
    chrono::Utc::now().timestamp_millis()
}

} // verus!
