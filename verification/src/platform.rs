//! The message envelope and the platform capability abstraction: the three
//! operations — open the device, perform one bounded exchange, close the
//! device — that isolate the exchange path from a concrete operating system.

use vstd::prelude::*;
use crate::NSM_REQUEST_MAX_SIZE;
use crate::NSM_RESPONSE_MAX_SIZE;

verus! {

/// The message envelope handed to one exchange: an input region holding the
/// encoded request and an output region the platform fills with the encoded
/// response. An envelope is built fresh for each exchange and never reused.
pub struct NsmMessage {
    /// User-provided data for the request.
    pub request: Vec<u8>,
    /// Response data provided by the platform. Before the exchange it has the
    /// full fixed output capacity; afterwards it holds exactly the bytes the
    /// platform wrote.
    pub response: Vec<u8>,
}

impl NsmMessage {
    /// The envelope is fit for submission: the encoded request fits the input
    /// region and the output region has its full fixed capacity.
    pub open spec fn valid_for_exchange(self) -> bool {
        &&& self.request@.len() <= NSM_REQUEST_MAX_SIZE as nat
        &&& self.response@.len() == NSM_RESPONSE_MAX_SIZE as nat
    }
}

/// The capability set for talking to the security module device. One
/// implementation is bound to the real operating-system control call; an
/// in-memory mock records calls and returns programmed outcomes.
///
/// The three spec functions model what one exchange on a given platform
/// state does, so that the contract of the exchange path can be stated
/// exactly for each implementation.
pub trait Platform: Sized {
    /// The status one exchange reports on this platform state: `None` for
    /// success, `Some(code)` for the failure code. The default describes an
    /// exchange that always succeeds; an implementation with richer behavior
    /// overrides it.
    open spec fn exchange_status(pre: Self, fd: i32, request: Seq<u8>, response: Seq<u8>) -> Option<i32> {
        None
    }

    /// The bytes one exchange leaves in the output region on this platform
    /// state. The default describes an exchange that leaves the region as it
    /// was; an implementation with richer behavior overrides it.
    open spec fn exchange_output(pre: Self, fd: i32, request: Seq<u8>, response: Seq<u8>) -> Seq<u8> {
        response
    }

    /// The platform state after one exchange. The default describes an
    /// exchange that leaves no trace on the platform; an implementation with
    /// richer behavior overrides it.
    open spec fn exchange_post(pre: Self, fd: i32, request: Seq<u8>, response: Seq<u8>) -> Self {
        pre
    }

    /// The handle that opening the device on this platform state yields: at
    /// least 0 on success, the sentinel -1 on failure. The default describes
    /// a platform whose device cannot be opened; an implementation with
    /// richer behavior overrides it.
    open spec fn open_result(pre: Self) -> i32 {
        -1i32
    }

    /// The platform state after one open. The default describes an open that
    /// leaves no trace on the platform; an implementation with richer
    /// behavior overrides it.
    open spec fn open_post(pre: Self) -> Self {
        pre
    }

    /// The platform state after one close of the given handle. The default
    /// describes a close that leaves no trace on the platform; an
    /// implementation with richer behavior overrides it.
    open spec fn close_post(pre: Self, fd: i32) -> Self {
        pre
    }

    /// Open the device resource in read-write mode: a handle of at least 0
    /// on success, the sentinel -1 on failure. Never panics.
    fn open_dev(&mut self) -> (h: i32)
        ensures
            h == Self::open_result(*old(self)),
            *final(self) == Self::open_post(*old(self)),
    ;

    /// Perform one combined read/write transfer with the device: the input
    /// region is read, the output region is overwritten with the bytes the
    /// device produced. Absence of a status code means success. The input
    /// region is never altered and the output region never grows.
    fn nsm_ioctl(&mut self, fd: i32, message: &mut NsmMessage) -> (status: Option<i32>)
        requires
            old(message).valid_for_exchange(),
        ensures
            status == Self::exchange_status(
                *old(self), fd, old(message).request@, old(message).response@),
            final(message).request@ == old(message).request@,
            final(message).response@ == Self::exchange_output(
                *old(self), fd, old(message).request@, old(message).response@),
            final(message).response@.len() <= old(message).response@.len(),
            *final(self) == Self::exchange_post(
                *old(self), fd, old(message).request@, old(message).response@),
    ;

    /// Release the device resource for the given handle. A close failure is
    /// never reported to the caller. Never panics.
    fn close_dev(&mut self, fd: i32)
        ensures
            *final(self) == Self::close_post(*old(self), fd),
    ;
}

} // verus!
