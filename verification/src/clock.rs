//! The wall clock.

use vstd::prelude::*;

verus! {

/// Reads the wall clock with `chrono::UTC::now()` and hands back its
/// `timestamp()`: whole seconds since the Unix epoch, leap seconds not
/// counted. The value depends on when the call is made, so nothing is
/// claimed of it. `chrono` panics where the machine's clock stands outside
/// the dates that it can hold.
#[verifier::external_body]
pub(crate) fn unix_timestamp() -> i64 {
    chrono::UTC::now().timestamp()
}

} // verus!
