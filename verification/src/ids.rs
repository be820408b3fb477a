//! Identifiers and clock readings supplied by the `uuid` and `chrono` crates.

use vstd::prelude::*;

verus! {

/// Calls `uuid::Uuid::new_v4` and formats it with `to_string`. The value is
/// random; claimed of every outcome, as the hyphenated format gives it: 36
/// characters, with hyphens at positions 8, 13, 18 and 23.
#[verifier::external_body]
pub(crate) fn new_uuid() -> (s: String)
    ensures
        s@.len() == 36,
        s@[8] == '-' && s@[13] == '-' && s@[18] == '-' && s@[23] == '-',
{
    uuid::Uuid::new_v4().to_string()
}

/// Calls `chrono::Utc::now().timestamp()`: the current time in whole seconds
/// since the Unix epoch. Nothing is claimed of the reading.
#[verifier::external_body]
pub(crate) fn unix_now() -> (t: i64) {
    chrono::Utc::now().timestamp()
}

} // verus!
