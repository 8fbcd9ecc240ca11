//! The codec boundary of the request/response path: encoding a request into
//! its compact binary form, decoding binary bytes into a response, and the
//! fail-safe collapse of a failed parse into the internal-error response.

use vstd::prelude::*;
use aws_nitro_enclaves_nsm_api::api::ErrorCode as ApiErrorCode;
use aws_nitro_enclaves_nsm_api::api::Request;
use aws_nitro_enclaves_nsm_api::api::Response;

verus! {

/// The closed enumeration of failure kinds that the request/response path
/// can report. Every failure collapses into one of these two outcomes.
#[derive(Clone, Copy, Debug, PartialEq, Eq, Structural)]
pub enum ErrorCode {
    /// The encoded request does not fit the input region, whether detected
    /// locally before any exchange or reported by the driver afterwards.
    InputTooLarge,
    /// Any other failure: malformed response bytes, or any driver failure
    /// other than the input-too-large class.
    InternalError,
}

/// Relies on `aws_nitro_enclaves_nsm_api::api::Request`: the opaque tagged
/// value representing one command, owned by the caller and consumed by encode.
#[verifier::external_type_specification]
#[verifier::external_body]
pub struct ExRequest(Request);

/// Relies on `aws_nitro_enclaves_nsm_api::api::Response`: the opaque tagged
/// value produced by decode, one variant of which is the error response.
#[verifier::external_type_specification]
#[verifier::external_body]
pub struct ExResponse(Response);

/// The CBOR encoding of a request: a function of the request alone, so
/// logically identical requests encode to identical bytes.
pub uninterp spec fn request_encoding(request: Request) -> Seq<u8>;

/// The parse outcome of a byte sequence: the response it validly encodes, or
/// nothing when it is not a valid encoding of any response.
pub uninterp spec fn cbor_parse(bytes: Seq<u8>) -> Option<Response>;

/// The error response that carries the given failure kind.
pub uninterp spec fn error_response_spec(code: ErrorCode) -> Response;

/// The response that a byte sequence decodes to: the response it validly
/// encodes, or — fail-safe — the internal-error response on any malformed,
/// truncated or unrecognized input. Decoding is total and deterministic.
pub open spec fn response_decoding(bytes: Seq<u8>) -> Response {
    match cbor_parse(bytes) {
        Some(response) => response,
        None => error_response_spec(ErrorCode::InternalError),
    }
}

/// Relies on `serde_cbor::to_vec`: the CBOR encoding of the request, written
/// by the derived serializer of `aws_nitro_enclaves_nsm_api::api::Request`.
/// The serializer writes into a growing vector and is deterministic in the
/// request alone; on this type it cannot fail, so the unwrap cannot panic.
#[verifier::external_body]
pub(crate) fn nsm_encode_request_to_cbor(request: Request) -> (r: Vec<u8>)
    ensures
        r@ == request_encoding(request),
{
    serde_cbor::to_vec(&request).unwrap()
}

/// Relies on `serde_cbor::from_slice`: a deterministic parse of the bytes as
/// an `aws_nitro_enclaves_nsm_api::api::Response`. The parse rejects any
/// malformed, truncated or unrecognized input with a typed error, never
/// panics and never aborts; the error variant is handed on as `None`.
#[verifier::external_body]
fn try_parse_response_from_cbor(response_data: &[u8]) -> (r: Option<Response>)
    ensures
        r == cbor_parse(response_data@),
{
    match serde_cbor::from_slice(response_data) {
        Ok(response) => Some(response),
        Err(_) => None,
    }
}

/// Decode a response from a raw memory buffer, fail-safe: a byte sequence
/// that encodes no response yields the internal-error response rather than a
/// propagated parse failure or an abort.
pub(crate) fn nsm_decode_response_from_cbor(response_data: &[u8]) -> (r: Response)
    ensures
        r == response_decoding(response_data@),
        cbor_parse(response_data@) is None ==> r == error_response_spec(ErrorCode::InternalError),
{
    match try_parse_response_from_cbor(response_data) {
        Some(response) => response,
        None => error_response(ErrorCode::InternalError),
    }
}

/// Relies on `aws_nitro_enclaves_nsm_api::api::Response::Error` and
/// `ErrorCode`: builds the error response that carries the matching code.
/// The two error responses are distinct values — built from distinct variants
/// of the outside code enumeration — so the kind can be read back off the
/// response.
#[verifier::external_body]
pub(crate) fn error_response(code: ErrorCode) -> (r: Response)
    ensures
        r == error_response_spec(code),
        (r == error_response_spec(ErrorCode::InputTooLarge) <==> code == ErrorCode::InputTooLarge),
{
    match code {
        ErrorCode::InputTooLarge => Response::Error(ApiErrorCode::InputTooLarge),
        ErrorCode::InternalError => Response::Error(ApiErrorCode::InternalError),
    }
}

/// Law: decoding never fails destructively: any byte sequence that is not a
/// valid encoding of a response decodes to the internal-error response.
pub proof fn lemma_decode_fail_safe(bytes: Seq<u8>)
    requires
        cbor_parse(bytes) is None,
    ensures
        response_decoding(bytes) == error_response_spec(ErrorCode::InternalError),
{
}

} // verus!
