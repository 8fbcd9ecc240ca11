//! The lifecycle conventions for the device handle: values of at least 0
//! denote a successfully opened device, the sentinel -1 denotes "not open".
//! Open failure is deliberately signaled through the sentinel instead of a
//! typed error, and close failure is never reported at all.

use vstd::prelude::*;

verus! {

/// The sentinel handle value: no open device. A caller must test an opened
/// handle against this value before using it.
pub const NO_DEVICE_HANDLE: i32 = -1;

/// A handle denotes an open device exactly when it is nonnegative.
pub open spec fn is_open_handle(h: i32) -> bool {
    h >= 0
}

/// Collapse the outcome of opening the device resource into the handle
/// convention: the descriptor itself on success, the sentinel on failure.
pub fn handle_of_open(outcome: Option<i32>) -> (h: i32)
    requires
        (match outcome {
            Some(fd) => fd >= 0,
            None => true,
        }),
    ensures
        (match outcome {
            Some(fd) => h == fd,
            None => h == NO_DEVICE_HANDLE,
        }),
        is_open_handle(h) <==> outcome is Some,
{
    match outcome {
        Some(fd) => fd,
        None => NO_DEVICE_HANDLE,
    }
}

} // verus!
