//! User-space communication layer for a hardware-backed security module
//! exposed by the host kernel as a character device.
//!
//! The crate covers the binary message envelope and the bounded
//! request/response exchange discipline over a single control operation,
//! a platform capability abstraction that decouples the exchange from a
//! concrete operating system, and the fail-safe decode and error-collapsing
//! contract of the request/response path.

use vstd::prelude::*;

pub mod codec;
pub mod exchange;
pub mod lifecycle;
pub mod mock;
pub mod platform;

pub use codec::ErrorCode;
pub use exchange::nsm_process_request;
pub use exchange::nsm_process_request_bytes;
pub use lifecycle::handle_of_open;
pub use mock::MockPlatform;
pub use platform::NsmMessage;
pub use platform::Platform;

verus! {

/// Path of the device resource this layer talks to.
pub const DEV_FILE: &'static str = "/dev/nsm";

/// Type code of the control operation used for one exchange.
pub const NSM_IOCTL_MAGIC: u8 = 0x0A;

/// Capacity, in bytes, of the input region of one exchange: the encoded
/// request may not be larger than this.
pub const NSM_REQUEST_MAX_SIZE: usize = 0x1000;

/// Capacity, in bytes, of the output region handed to every exchange.
pub const NSM_RESPONSE_MAX_SIZE: usize = 0x3000;

} // verus!
