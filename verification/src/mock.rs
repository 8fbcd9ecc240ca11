//! The in-memory platform double: it records how often each capability was
//! invoked and answers every exchange with a programmed outcome, so the
//! exchange path can be exercised without a real device.

use vstd::prelude::*;
use crate::platform::NsmMessage;
use crate::platform::Platform;

verus! {

/// A counter bumped once per recorded call; it pins at the largest value
/// rather than wrap.
pub open spec fn saturating_inc(c: u64) -> u64 {
    if c == u64::MAX {
        c
    } else {
        (c + 1) as u64
    }
}

fn bump(c: u64) -> (r: u64)
    ensures
        r == saturating_inc(c),
{
    if c < u64::MAX {
        c + 1
    } else {
        c
    }
}

/// An in-memory platform that records calls and returns programmed outcomes.
/// Every exchange reports `status` and leaves `output` (cut to the output
/// region's capacity) in the response region.
#[verifier::ext_equal]
pub struct MockPlatform {
    /// Programmed outcome of every exchange: `None` means success.
    pub status: Option<i32>,
    /// Programmed bytes every exchange writes into the output region.
    pub output: Vec<u8>,
    /// Programmed result of opening the device.
    pub handle: i32,
    /// How many exchanges were performed.
    pub ioctl_calls: u64,
    /// How many opens were performed.
    pub open_calls: u64,
    /// How many closes were performed.
    pub close_calls: u64,
}

impl MockPlatform {
    /// A mock programmed with the given exchange status and output bytes,
    /// answering opens with the given handle, with all call counters at zero.
    pub fn new(status: Option<i32>, output: Vec<u8>, handle: i32) -> (m: MockPlatform)
        ensures
            m.status == status,
            m.output == output,
            m.handle == handle,
            m.ioctl_calls == 0,
            m.open_calls == 0,
            m.close_calls == 0,
    {
        MockPlatform { status, output, handle, ioctl_calls: 0, open_calls: 0, close_calls: 0 }
    }
}

impl Platform for MockPlatform {
    open spec fn open_result(pre: Self) -> i32 {
        pre.handle
    }

    open spec fn open_post(pre: Self) -> Self {
        MockPlatform { open_calls: saturating_inc(pre.open_calls), ..pre }
    }

    open spec fn close_post(pre: Self, fd: i32) -> Self {
        MockPlatform { close_calls: saturating_inc(pre.close_calls), ..pre }
    }

    open spec fn exchange_status(pre: Self, fd: i32, request: Seq<u8>, response: Seq<u8>) -> Option<i32> {
        pre.status
    }

    open spec fn exchange_output(pre: Self, fd: i32, request: Seq<u8>, response: Seq<u8>) -> Seq<u8> {
        if pre.output@.len() <= response.len() {
            pre.output@
        } else {
            pre.output@.take(response.len() as int)
        }
    }

    open spec fn exchange_post(pre: Self, fd: i32, request: Seq<u8>, response: Seq<u8>) -> Self {
        MockPlatform { ioctl_calls: saturating_inc(pre.ioctl_calls), ..pre }
    }

    fn open_dev(&mut self) -> i32 {
        self.open_calls = bump(self.open_calls);
        self.handle
    }

    fn nsm_ioctl(&mut self, fd: i32, message: &mut NsmMessage) -> (status: Option<i32>) {
        self.ioctl_calls = bump(self.ioctl_calls);
        let cap = message.response.len();
        let n = if self.output.len() <= cap {
            self.output.len()
        } else {
            cap
        };
        let mut written: Vec<u8> = Vec::new();
        let mut i: usize = 0;
        while i < n
            invariant
                i <= n,
                n <= self.output@.len(),
                written@ == self.output@.take(i as int),
            decreases n - i,
        {
            let b = self.output[i];
            written.push(b);
            proof {
                assert(written@ =~= self.output@.take(i + 1));
            }
            i = i + 1;
        }
        message.response = written;
        proof {
            if self.output@.len() <= cap {
                assert(self.output@.take(self.output@.len() as int) =~= self.output@);
            }
        }
        self.status
    }

    fn close_dev(&mut self, fd: i32) {
        self.close_calls = bump(self.close_calls);
    }
}

} // verus!
