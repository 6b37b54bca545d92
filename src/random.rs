//! The random draws that the firmware makes: the serial number and the setup
//! hotspot's name and password.

use vstd::prelude::*;

verus! {

/// Relies on `rand::random_range`: a value drawn from the thread-local
/// generator in `low..high`; the range must not be empty, or it panics.
#[verifier::external_body]
pub(crate) fn random_below(low: u64, high: u64) -> (r: u64)
    requires
        low < high,
    ensures
        low <= r < high,
{
    rand::random_range(low..high)
}

} // verus!
