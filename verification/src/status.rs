//! The status the application hands back to the boot environment.

use vstd::prelude::*;

verus! {

/// Code of the status that reports success to the boot environment.
pub const SUCCESS: usize = 0;

/// Reads `uefi::Status::SUCCESS` and returns the integer it wraps.
///
/// Trusted: the firmware bindings define that constant as the status with
/// code zero, so the code returned here is [`SUCCESS`].
#[verifier::external_body]
pub(crate) fn success() -> (code: usize)
    ensures
        code == SUCCESS,
{
    uefi::Status::SUCCESS.0
}

} // verus!
