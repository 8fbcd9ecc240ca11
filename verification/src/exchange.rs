//! The exchange orchestrator: validate the encoded request's size, build the
//! envelope, invoke the platform's exchange, and interpret success or failure
//! into a response. Every failure collapses into one of two typed outcomes.

use vstd::prelude::*;
use aws_nitro_enclaves_nsm_api::api::Request;
use aws_nitro_enclaves_nsm_api::api::Response;
use crate::codec::error_response;
use crate::codec::error_response_spec;
use crate::codec::nsm_decode_response_from_cbor;
use crate::codec::nsm_encode_request_to_cbor;
use crate::codec::request_encoding;
use crate::codec::response_decoding;
use crate::codec::ErrorCode;
use crate::mock::MockPlatform;
use crate::platform::NsmMessage;
use crate::platform::Platform;
use crate::NSM_REQUEST_MAX_SIZE;
use crate::NSM_RESPONSE_MAX_SIZE;

verus! {

/// The failure code with which the operating system reports that an argument
/// of the exchange was too large. Any other reported code is collapsed into
/// the generic internal error.
pub const INPUT_TOO_LARGE_ERRNO: i32 = 90;

/// The output region as every exchange receives it: the full fixed capacity,
/// zero-initialized.
pub open spec fn fresh_output_region() -> Seq<u8> {
    Seq::new(NSM_RESPONSE_MAX_SIZE as nat, |i: int| 0u8)
}

/// How one reported exchange status is interpreted: success decodes the
/// output region; the input-too-large failure code maps to the
/// input-too-large error; every other code maps uniformly to the internal
/// error.
pub open spec fn status_response(status: Option<i32>, out: Seq<u8>) -> Response {
    match status {
        None => response_decoding(out),
        Some(e) => if e == INPUT_TOO_LARGE_ERRNO {
            error_response_spec(ErrorCode::InputTooLarge)
        } else {
            error_response_spec(ErrorCode::InternalError)
        },
    }
}

/// The response the exchange path returns for an encoded request: the
/// input-too-large error when the encoding exceeds the input capacity, and
/// otherwise the interpretation of the one exchange the platform performs.
pub open spec fn process_bytes_spec<P: Platform>(pre: P, fd: i32, req: Seq<u8>) -> Response {
    if req.len() > NSM_REQUEST_MAX_SIZE as nat {
        error_response_spec(ErrorCode::InputTooLarge)
    } else {
        status_response(
            P::exchange_status(pre, fd, req, fresh_output_region()),
            P::exchange_output(pre, fd, req, fresh_output_region()),
        )
    }
}

/// The platform state after the exchange path ran for an encoded request:
/// untouched when the encoding was oversize — no exchange happens then — and
/// otherwise the state after exactly one exchange.
pub open spec fn platform_after<P: Platform>(pre: P, fd: i32, req: Seq<u8>) -> P {
    if req.len() > NSM_REQUEST_MAX_SIZE as nat {
        pre
    } else {
        P::exchange_post(pre, fd, req, fresh_output_region())
    }
}

/// A zero-initialized output region of the full fixed capacity.
fn fresh_output_vec() -> (v: Vec<u8>)
    ensures
        v@ == fresh_output_region(),
{
    let mut v: Vec<u8> = Vec::new();
    let mut i: usize = 0;
    while i < NSM_RESPONSE_MAX_SIZE
        invariant
            i <= NSM_RESPONSE_MAX_SIZE,
            v@.len() == i as nat,
            forall|j: int| 0 <= j < i ==> v@[j] == 0u8,
        decreases NSM_RESPONSE_MAX_SIZE - i,
    {
        v.push(0u8);
        i = i + 1;
    }
    proof {
        assert(v@ =~= fresh_output_region());
    }
    v
}

/// Run one bounded exchange for an already-encoded request: if the encoding
/// exceeds the input capacity, return the input-too-large error at once and
/// leave the platform untouched; otherwise build a fresh envelope, perform
/// exactly one exchange, and on success decode the bytes the platform wrote,
/// on failure collapse the reported code into one of the two typed errors.
pub fn nsm_process_request_bytes<P: Platform>(platform: &mut P, fd: i32, cbor_request: Vec<u8>) -> (r: Response)
    ensures
        r == process_bytes_spec::<P>(*old(platform), fd, cbor_request@),
        *final(platform) == platform_after::<P>(*old(platform), fd, cbor_request@),
{
    if cbor_request.len() > NSM_REQUEST_MAX_SIZE {
        return error_response(ErrorCode::InputTooLarge);
    }

    let cbor_response = fresh_output_vec();
    let mut message = NsmMessage { request: cbor_request, response: cbor_response };
    let status = platform.nsm_ioctl(fd, &mut message);

    match status {
        None => nsm_decode_response_from_cbor(message.response.as_slice()),
        Some(errno) => {
            if errno == INPUT_TOO_LARGE_ERRNO {
                error_response(ErrorCode::InputTooLarge)
            } else {
                error_response(ErrorCode::InternalError)
            }
        },
    }
}

/// Create a message with input data and output capacity from a given request,
/// send it to the platform's exchange, and return the interpreted response.
/// The result and the final platform state are exactly those of the exchange
/// path on the request's encoding.
pub fn nsm_process_request<P: Platform>(platform: &mut P, fd: i32, request: Request) -> (r: Response)
    ensures
        r == process_bytes_spec::<P>(*old(platform), fd, request_encoding(request)),
        *final(platform) == platform_after::<P>(*old(platform), fd, request_encoding(request)),
{
    let cbor_request = nsm_encode_request_to_cbor(request);
    nsm_process_request_bytes(platform, fd, cbor_request)
}

/// Law: a request whose encoding exceeds the input capacity collapses to the
/// input-too-large error, and the platform is never exchanged with.
pub proof fn lemma_oversize_skips_exchange<P: Platform>(pre: P, fd: i32, req: Seq<u8>)
    requires
        req.len() > NSM_REQUEST_MAX_SIZE as nat,
    ensures
        process_bytes_spec::<P>(pre, fd, req) == error_response_spec(ErrorCode::InputTooLarge),
        platform_after::<P>(pre, fd, req) == pre,
{
}

/// Law: when the platform reports a failure code for a request that fits the
/// input region, the input-too-large code maps to the input-too-large error
/// and every other code maps uniformly to the internal error.
pub proof fn lemma_failure_code_collapse<P: Platform>(pre: P, fd: i32, req: Seq<u8>, e: i32)
    requires
        req.len() <= NSM_REQUEST_MAX_SIZE as nat,
        P::exchange_status(pre, fd, req, fresh_output_region()) == Some(e),
    ensures
        process_bytes_spec::<P>(pre, fd, req) == (if e == INPUT_TOO_LARGE_ERRNO {
            error_response_spec(ErrorCode::InputTooLarge)
        } else {
            error_response_spec(ErrorCode::InternalError)
        }),
{
}

/// Law: when the mock platform signals success and its programmed bytes fit
/// the output region, the exchange path returns exactly the decoding of the
/// bytes the mock wrote.
pub proof fn lemma_mock_success_decodes_written(pre: MockPlatform, fd: i32, req: Seq<u8>)
    requires
        req.len() <= NSM_REQUEST_MAX_SIZE as nat,
        pre.status is None,
        pre.output@.len() <= NSM_RESPONSE_MAX_SIZE as nat,
    ensures
        process_bytes_spec::<MockPlatform>(pre, fd, req) == response_decoding(pre.output@),
{
}

} // verus!
